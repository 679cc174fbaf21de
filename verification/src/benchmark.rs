//! Timing two operations, the slow path and the fast path of a defect.
//!
//! The two operations run one after the other, never at once, so that
//! neither takes time from the other. Each is timed by a clock that cannot
//! go back. An operation that fails does not fail the benchmark: its time
//! is recorded as zero.

use vstd::prelude::*;
use std::time::{Duration, Instant};
use crate::evidence::BenchmarkResult;

verus! {

#[verifier::external_type_specification]
#[verifier::external_body]
pub struct ExInstant(std::time::Instant);

/// What a benchmark measured, and which of the two operations completed.
#[derive(Debug, Clone, Copy, PartialEq, Eq, Structural)]
pub struct BenchmarkRun {
    pub timing: BenchmarkResult,
    pub a_completed: bool,
    pub b_completed: bool,
}

/// Reads the clock: `Instant::now` of the standard library. The instant
/// depends on when it is asked for, so nothing is claimed of it.
#[verifier::external_body]
fn clock_now() -> (t: Instant) {
    Instant::now()
}

/// The time that went by since `start`: `Instant::elapsed` of the standard
/// library. It depends on when it is asked for, so nothing is claimed of
/// it.
#[verifier::external_body]
fn elapsed_since(start: &Instant) -> (d: Duration) {
    start.elapsed()
}

/// The whole milliseconds of a duration: `Duration::as_millis` of the
/// standard library.
#[verifier::external_body]
fn whole_millis(d: &Duration) -> (ms: u128) {
    d.as_millis()
}

/// The time to record for an operation that took `elapsed_ms`: zero where
/// it did not complete, and the largest number that fits where the time
/// does not.
pub open spec fn recorded(completed: bool, elapsed_ms: u128) -> u64 {
    if !completed {
        0
    } else if elapsed_ms > u64::MAX {
        u64::MAX
    } else {
        elapsed_ms as u64
    }
}

/// Gives the time to record for an operation.
pub fn record(completed: bool, elapsed_ms: u128) -> (ms: u64)
    ensures
        ms == recorded(completed, elapsed_ms),
{
    if !completed {
        0
    } else if elapsed_ms > u64::MAX as u128 {
        u64::MAX
    } else {
        elapsed_ms as u64
    }
}

/// Runs `op_a` and then `op_b`, and times each.
///
/// An operation tells by its result whether it completed. Both are run
/// whatever the first one does, and the time of one that did not complete
/// is recorded as zero.
pub fn run<A: FnOnce() -> bool, B: FnOnce() -> bool>(op_a: A, op_b: B) -> (r: BenchmarkRun)
    requires
        op_a.requires(()),
        op_b.requires(()),
    ensures
        op_a.ensures((), r.a_completed),
        op_b.ensures((), r.b_completed),
        !r.a_completed ==> r.timing.duration_a_ms == 0,
        !r.b_completed ==> r.timing.duration_b_ms == 0,
{
    let start_a = clock_now();
    let a_completed = op_a();
    let elapsed_a = elapsed_since(&start_a);
    let duration_a_ms = record(a_completed, whole_millis(&elapsed_a));
    let start_b = clock_now();
    let b_completed = op_b();
    let elapsed_b = elapsed_since(&start_b);
    let duration_b_ms = record(b_completed, whole_millis(&elapsed_b));
    BenchmarkRun {
        timing: BenchmarkResult { duration_a_ms, duration_b_ms },
        a_completed,
        b_completed,
    }
}

} // verus!
