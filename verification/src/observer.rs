//! Reading a counter of expensive resources, which belongs to the caller and
//! only grows: two samples tell how many resources were built in between.
//! What a read gives depends on what other threads did, so nothing is claimed
//! of it here; `CounterObservation::opened_at` and `closed_at` say what an
//! observation holds for each value that was read.

use vstd::prelude::*;
use std::sync::atomic::{AtomicU64, Ordering};
use crate::evidence::CounterObservation;

verus! {

/// Reads the counter.
pub fn sample(counter: &AtomicU64) -> u64 {
    counter.load(Ordering::SeqCst)
}

/// Counts one more resource.
pub fn count_one(counter: &AtomicU64) {
    let _ = counter.fetch_add(1, Ordering::SeqCst);
}

/// Opens an observation: nothing has been built since.
pub fn begin(counter: &AtomicU64) -> (o: CounterObservation)
    ensures
        o.growth() == 0,
        o.after == o.before,
{
    CounterObservation::opened_at(sample(counter))
}

/// Closes an observation with a second sample. A sample below the first
/// one cannot come from a counter that only grows and is taken as no
/// growth.
pub fn end(opened: CounterObservation, counter: &AtomicU64) -> (o: CounterObservation)
    ensures
        o.before == opened.before,
        o.after >= o.before,
{
    opened.closed_at(sample(counter))
}

} // verus!
