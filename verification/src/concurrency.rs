//! The concurrency category: a guarded operation must not make every caller
//! wait for one lock.
//!
//! Source text says little of how finely a lock is held, so the evidence is
//! a measurement: the fix is valid when the guarded operation finishes
//! below a latency threshold.

use vstd::prelude::*;
use crate::decimal::{decimal, u64_to_decimal};
use crate::verdict::{
    merged, predicate_views, push_predicate, report, Details, Predicate, PredicateView, Verdict,
    VerdictView, Wording,
};

verus! {

/// The fix is valid: the operation finished below the threshold.
pub open spec fn valid(latency_ms: u64, threshold_ms: u64) -> bool {
    latency_ms < threshold_ms
}

/// The one predicate of this category.
pub open spec fn predicates(latency_ms: u64, threshold_ms: u64) -> Seq<PredicateView> {
    seq![
        PredicateView {
            holds: valid(latency_ms, threshold_ms),
            issue: "The guarded operation took "@ + decimal(latency_ms as int)
                + " ms and must finish in under "@ + decimal(threshold_ms as int) + " ms"@,
        },
    ]
}

/// The texts of this category's verdicts.
pub open spec fn wording() -> Wording<'static> {
    Wording {
        component: "Shared Cache",
        fixed: "Shared cache no longer makes its callers wait for one lock",
        broken: "Shared cache is making its callers wait for one lock",
        success: "Solution correctly implemented! The lock no longer serializes all callers.",
        failure: "Solution validation failed. Issues to address: ",
        separator: ", ",
    }
}

/// The verdict that a measured latency leads to.
pub open spec fn verified(latency_ms: u64, threshold_ms: u64) -> VerdictView {
    merged(
        predicates(latency_ms, threshold_ms),
        wording(),
        Details::Concurrency { latency_ms, threshold_ms },
    )
}

/// Decides whether the guarded operation is fast enough: whether it took
/// less than `threshold_ms`.
pub fn verify_concurrency(latency_ms: u64, threshold_ms: u64) -> (v: Verdict)
    ensures
        v@ == verified(latency_ms, threshold_ms),
        v.valid == (latency_ms < threshold_ms),
{
    let issue = "The guarded operation took ".to_owned().concat(
        u64_to_decimal(latency_ms).as_str(),
    ).concat(" ms and must finish in under ").concat(u64_to_decimal(threshold_ms).as_str()).concat(
        " ms",
    );
    let mut ps: Vec<Predicate> = Vec::new();
    push_predicate(&mut ps, latency_ms < threshold_ms, issue.as_str());
    assert(predicate_views(ps@) =~= predicates(latency_ms, threshold_ms));
    assert(predicates(latency_ms, threshold_ms)[0].holds == (latency_ms < threshold_ms));
    let w = Wording {
        component: "Shared Cache",
        fixed: "Shared cache no longer makes its callers wait for one lock",
        broken: "Shared cache is making its callers wait for one lock",
        success: "Solution correctly implemented! The lock no longer serializes all callers.",
        failure: "Solution validation failed. Issues to address: ",
        separator: ", ",
    };
    report(&ps, &w, Details::Concurrency { latency_ms, threshold_ms })
}

} // verus!
