//! Observations that back a verdict besides the source text: timings of a
//! slow and a fast path, samples of a counter, and what a data store says
//! of its own schema.

use vstd::prelude::*;

verus! {

/// The wall-clock time that two operations took, one after the other, in
/// milliseconds.
#[derive(Debug, Clone, Copy, PartialEq, Eq, Structural)]
pub struct BenchmarkResult {
    pub duration_a_ms: u64,
    pub duration_b_ms: u64,
}

/// Two samples of a counter that only grows, taken before and after the
/// handler under test was called.
#[derive(Debug, Clone, Copy, PartialEq, Eq, Structural)]
pub struct CounterObservation {
    pub before: u64,
    pub after: u64,
}

impl CounterObservation {
    /// How far the counter grew between the two samples.
    pub open spec fn growth(self) -> int {
        if self.after >= self.before {
            self.after - self.before
        } else {
            0
        }
    }

    /// How far the counter grew between the two samples; nothing where the
    /// later sample is the smaller one.
    pub fn grown(&self) -> (g: u64)
        ensures
            g == self.growth(),
    {
        if self.after >= self.before {
            self.after - self.before
        } else {
            0
        }
    }

    /// The observation that a first sample opens: nothing has been built
    /// since.
    pub open spec fn opened(sampled: u64) -> CounterObservation {
        CounterObservation { before: sampled, after: sampled }
    }

    /// The observation that a second sample closes. A sample below the
    /// first one cannot come from a counter that only grows, and is taken
    /// as no growth.
    pub open spec fn closed(self, sampled: u64) -> CounterObservation {
        CounterObservation {
            before: self.before,
            after: if sampled >= self.before {
                sampled
            } else {
                self.before
            },
        }
    }

    /// Opens an observation with the value that the counter was read at.
    pub fn opened_at(sampled: u64) -> (o: CounterObservation)
        ensures
            o == CounterObservation::opened(sampled),
    {
        CounterObservation { before: sampled, after: sampled }
    }

    /// Closes an observation with the value that the counter was read at
    /// the second time.
    pub fn closed_at(self, sampled: u64) -> (o: CounterObservation)
        ensures
            o == self.closed(sampled),
            o.growth() == if sampled >= self.before {
                sampled - self.before
            } else {
                0
            },
    {
        CounterObservation {
            before: self.before,
            after: if sampled >= self.before {
                sampled
            } else {
                self.before
            },
        }
    }
}

/// What the data store told of its schema.
#[derive(Debug, Clone, Copy, PartialEq, Eq, Structural)]
pub enum Introspection {
    /// The data store is not asked: only the source text counts.
    Disabled,
    /// The data store was asked and could not answer.
    Unavailable,
    /// The data store answered.
    Observed { trigram_enabled: bool, name_index: bool, scientific_name_index: bool },
}

impl Introspection {
    /// What three probes of the data store amount to, each being the answer
    /// or nothing where the probe failed. One failed probe is enough for the
    /// data store to count as unable to answer.
    pub open spec fn of_probes(
        trigram_enabled: Option<bool>,
        name_index: Option<bool>,
        scientific_name_index: Option<bool>,
    ) -> Introspection {
        match (trigram_enabled, name_index, scientific_name_index) {
            (Some(t), Some(n), Some(s)) => Introspection::Observed {
                trigram_enabled: t,
                name_index: n,
                scientific_name_index: s,
            },
            _ => Introspection::Unavailable,
        }
    }

    /// Sums three probes of the data store up. The data store counts as
    /// unable to answer if and only if at least one probe failed; else
    /// each answer is kept as it is.
    pub fn from_probes(
        trigram_enabled: Option<bool>,
        name_index: Option<bool>,
        scientific_name_index: Option<bool>,
    ) -> (r: Introspection)
        ensures
            r == Introspection::of_probes(trigram_enabled, name_index, scientific_name_index),
            r == Introspection::Unavailable <==> (trigram_enabled is None || name_index is None
                || scientific_name_index is None),
            r != Introspection::Disabled,
    {
        match (trigram_enabled, name_index, scientific_name_index) {
            (Some(t), Some(n), Some(s)) => Introspection::Observed {
                trigram_enabled: t,
                name_index: n,
                scientific_name_index: s,
            },
            _ => Introspection::Unavailable,
        }
    }
}

} // verus!
