//! The verdict on a learner's fix, and how evidence is merged into one.
//!
//! A verdict rests on a list of predicates, each one piece of evidence that
//! either holds or not. The fix is valid when all of them hold. When it is
//! not, the message names every predicate that failed, in the order of the
//! list, so that one answer tells the learner all there is to mend.

use vstd::prelude::*;
use crate::text::{
    contains, join, join_texts, lemma_contains_middle, lemma_contains_part, lemma_join_contains,
};

verus! {

/// The state of the component that a defect sits in.
#[derive(Debug, Clone, Copy, PartialEq, Eq, Structural)]
pub enum Status {
    Normal,
    Degraded,
}

impl Status {
    /// The status of the component, which is normal exactly when the fix is
    /// valid.
    pub open spec fn of(valid: bool) -> Status {
        if valid {
            Status::Normal
        } else {
            Status::Degraded
        }
    }

    /// The label of the status.
    pub open spec fn label(self) -> Seq<char> {
        match self {
            Status::Normal => "normal"@,
            Status::Degraded => "degraded"@,
        }
    }

    /// The status that goes with a verdict.
    pub fn from_valid(valid: bool) -> (s: Status)
        ensures
            s == Status::of(valid),
    {
        if valid {
            Status::Normal
        } else {
            Status::Degraded
        }
    }

    /// The label of the status, as a string slice.
    pub fn as_str(&self) -> (s: &'static str)
        ensures
            s@ == self.label(),
    {
        match self {
            Status::Normal => "normal",
            Status::Degraded => "degraded",
        }
    }
}

/// The evidence behind a verdict, category by category.
#[derive(Debug, Clone, Copy, PartialEq, Eq, Structural)]
pub enum Details {
    /// Nothing was measured or inspected.
    Empty,
    AsyncIo {
        blocking_io_duration_ms: u64,
        async_io_duration_ms: u64,
        uses_async_io: bool,
        blocking_sleep: bool,
        blocking_read: bool,
        traced: bool,
    },
    ResourceLeak {
        has_static_client: bool,
        uses_static_client: bool,
        creates_client: bool,
        new_instances: u64,
    },
    QueryOptimization {
        introspected: bool,
        trigram_enabled: bool,
        name_index: bool,
        scientific_name_index: bool,
        name_uses_ilike: bool,
        scientific_name_uses_ilike: bool,
        still_using_like: bool,
    },
    Memory {
        to_string_count: usize,
        uses_str_type: bool,
        uses_cow: bool,
        uses_interning: bool,
        uses_enums: bool,
    },
    Concurrency { latency_ms: u64, threshold_ms: u64 },
}

/// The component that a verdict is about.
#[derive(Debug, Clone)]
pub struct ComponentStatus {
    pub name: String,
    pub description: String,
    pub status: Status,
}

/// The decision on one fix.
#[derive(Debug, Clone)]
pub struct Verdict {
    pub valid: bool,
    pub message: String,
    pub system_component: ComponentStatus,
    pub details: Details,
}

/// A verdict as a mathematical value.
pub struct VerdictView {
    pub valid: bool,
    pub message: Seq<char>,
    pub component_name: Seq<char>,
    pub component_description: Seq<char>,
    pub status: Status,
    pub details: Details,
}

impl View for Verdict {
    type V = VerdictView;

    open spec fn view(&self) -> VerdictView {
        VerdictView {
            valid: self.valid,
            message: self.message@,
            component_name: self.system_component.name@,
            component_description: self.system_component.description@,
            status: self.system_component.status,
            details: self.details,
        }
    }
}

/// One piece of evidence: whether it holds, and what to tell the learner
/// when it does not.
#[derive(Debug, Clone)]
pub struct Predicate {
    pub holds: bool,
    pub issue: String,
}

/// A predicate as a mathematical value.
pub struct PredicateView {
    pub holds: bool,
    pub issue: Seq<char>,
}

impl View for Predicate {
    type V = PredicateView;

    open spec fn view(&self) -> PredicateView {
        PredicateView { holds: self.holds, issue: self.issue@ }
    }
}

/// The views of a list of predicates.
pub open spec fn predicate_views(ps: Seq<Predicate>) -> Seq<PredicateView> {
    ps.map_values(|p: Predicate| p@)
}

/// All the predicates hold.
pub open spec fn all_hold(ps: Seq<PredicateView>) -> bool {
    forall|i: int| 0 <= i < ps.len() ==> (#[trigger] ps[i]).holds
}

/// The issues of the predicates that do not hold, in the order of the list.
pub open spec fn unmet(ps: Seq<PredicateView>) -> Seq<Seq<char>>
    decreases ps.len(),
{
    if ps.len() == 0 {
        Seq::empty()
    } else if ps.last().holds {
        unmet(ps.drop_last())
    } else {
        unmet(ps.drop_last()).push(ps.last().issue)
    }
}

/// The fixed texts of a defect category's verdicts.
pub struct Wording<'a> {
    /// The name of the component.
    pub component: &'a str,
    /// How the component is described once the fix is valid.
    pub fixed: &'a str,
    /// How the component is described while it is not.
    pub broken: &'a str,
    /// The message of a valid verdict.
    pub success: &'a str,
    /// What the message of an invalid verdict begins with.
    pub failure: &'a str,
    /// What stands between two issues in the message.
    pub separator: &'a str,
}

/// The verdict that a list of predicates leads to.
pub open spec fn merged(ps: Seq<PredicateView>, w: Wording, details: Details) -> VerdictView {
    let valid = all_hold(ps);
    VerdictView {
        valid,
        message: if valid {
            w.success@
        } else {
            w.failure@ + join(unmet(ps), w.separator@)
        },
        component_name: w.component@,
        component_description: if valid {
            w.fixed@
        } else {
            w.broken@
        },
        status: Status::of(valid),
        details,
    }
}

/// The verdict given when nothing could be checked at all: it is invalid,
/// and `message` says why.
pub open spec fn unverifiable(
    component: Seq<char>,
    description: Seq<char>,
    message: Seq<char>,
    details: Details,
) -> VerdictView {
    VerdictView {
        valid: false,
        message,
        component_name: component,
        component_description: description,
        status: Status::Degraded,
        details,
    }
}

/// The component is reported as normal exactly when the fix is valid.
pub proof fn lemma_status_follows_validity(ps: Seq<PredicateView>, w: Wording, details: Details)
    ensures
        merged(ps, w, details).status == Status::Normal <==> merged(ps, w, details).valid,
        merged(ps, w, details).status == Status::Degraded <==> !merged(ps, w, details).valid,
        merged(ps, w, details).valid == all_hold(ps),
{
}

/// A fix is valid exactly when no issue is left to name.
pub proof fn lemma_valid_iff_nothing_unmet(ps: Seq<PredicateView>)
    ensures
        all_hold(ps) <==> unmet(ps).len() == 0,
    decreases ps.len(),
{
    if ps.len() > 0 {
        let rest = ps.drop_last();
        lemma_valid_iff_nothing_unmet(rest);
        if all_hold(ps) {
            assert(ps.last().holds);
            assert forall|i: int| 0 <= i < rest.len() implies (#[trigger] rest[i]).holds by {
                assert(rest[i] == ps[i]);
            }
        }
        if all_hold(rest) && ps.last().holds {
            assert forall|i: int| 0 <= i < ps.len() implies (#[trigger] ps[i]).holds by {
                if i < rest.len() {
                    assert(rest[i] == ps[i]);
                }
            }
        }
    }
}

/// The issue of every predicate that fails is among those that are named.
pub proof fn lemma_every_failure_is_named(ps: Seq<PredicateView>, i: int)
    requires
        0 <= i < ps.len(),
        !ps[i].holds,
    ensures
        unmet(ps).contains(ps[i].issue),
    decreases ps.len(),
{
    let rest = ps.drop_last();
    if i == ps.len() - 1 {
        let named = unmet(ps);
        assert(named[named.len() - 1] == ps[i].issue);
    } else {
        lemma_every_failure_is_named(rest, i);
        assert(rest[i] == ps[i]);
        let k = choose|k: int| 0 <= k < unmet(rest).len() && unmet(rest)[k] == ps[i].issue;
        assert(unmet(ps)[k] == ps[i].issue);
    }
}

/// Only what failed is named: every issue in the list belongs to a
/// predicate that does not hold.
pub proof fn lemma_only_failures_are_named(ps: Seq<PredicateView>, k: int)
    requires
        0 <= k < unmet(ps).len(),
    ensures
        exists|i: int| 0 <= i < ps.len() && !(#[trigger] ps[i]).holds && ps[i].issue == unmet(ps)[k],
    decreases ps.len(),
{
    let rest = ps.drop_last();
    if !ps.last().holds && k == unmet(ps).len() - 1 {
        assert(!ps[ps.len() - 1].holds);
    } else {
        lemma_only_failures_are_named(rest, k);
        let i = choose|i: int|
            0 <= i < rest.len() && !(#[trigger] rest[i]).holds && rest[i].issue == unmet(rest)[k];
        assert(ps[i] == rest[i]);
    }
}

/// The order of the issues is that of the predicates: of two predicates
/// that fail, the earlier one is named first.
pub proof fn lemma_issues_keep_their_order(ps: Seq<PredicateView>, i: int, j: int)
    requires
        0 <= i < j < ps.len(),
        !ps[i].holds,
        !ps[j].holds,
    ensures
        exists|a: int, b: int|
            0 <= a < b < unmet(ps).len() && #[trigger] unmet(ps)[a] == ps[i].issue
                && #[trigger] unmet(ps)[b] == ps[j].issue,
    decreases ps.len(),
{
    let rest = ps.drop_last();
    if j == ps.len() - 1 {
        lemma_every_failure_is_named(rest, i);
        assert(rest[i] == ps[i]);
        let a = choose|a: int| 0 <= a < unmet(rest).len() && unmet(rest)[a] == ps[i].issue;
        let b = unmet(ps).len() - 1;
        assert(unmet(ps)[a] == ps[i].issue && unmet(ps)[b] == ps[j].issue);
    } else {
        lemma_issues_keep_their_order(rest, i, j);
        assert(rest[i] == ps[i] && rest[j] == ps[j]);
        let (a, b) = choose|a: int, b: int|
            0 <= a < b < unmet(rest).len() && #[trigger] unmet(rest)[a] == ps[i].issue
                && #[trigger] unmet(rest)[b] == ps[j].issue;
        assert(unmet(ps)[a] == ps[i].issue && unmet(ps)[b] == ps[j].issue);
    }
}

/// The message of a verdict names what failed: a text that stands in the
/// issue of a predicate that does not hold stands in the message.
pub proof fn lemma_message_names_failure(
    ps: Seq<PredicateView>,
    w: Wording,
    details: Details,
    i: int,
    named: Seq<char>,
)
    requires
        0 <= i < ps.len(),
        !ps[i].holds,
        contains(ps[i].issue, named),
    ensures
        !merged(ps, w, details).valid,
        contains(merged(ps, w, details).message, named),
{
    lemma_every_failure_is_named(ps, i);
    let issues = unmet(ps);
    let k = choose|k: int| 0 <= k < issues.len() && issues[k] == ps[i].issue;
    lemma_join_contains(issues, w.separator@, k);
    let body = join(issues, w.separator@);
    lemma_contains_part(body, ps[i].issue, named);
    let empty = Seq::<char>::empty();
    assert(w.failure@ + body + empty =~= w.failure@ + body);
    lemma_contains_middle(w.failure@, body, empty);
    lemma_contains_part(w.failure@ + body, body, named);
}

/// Builds the verdict that is given when nothing could be checked.
pub fn cannot_verify(component: &str, description: &str, message: &str, details: Details) -> (v:
    Verdict)
    ensures
        v@ == unverifiable(component@, description@, message@, details),
{
    Verdict {
        valid: false,
        message: message.to_owned(),
        system_component: ComponentStatus {
            name: component.to_owned(),
            description: description.to_owned(),
            status: Status::Degraded,
        },
        details,
    }
}

/// Appends a predicate to the list `v`.
pub fn push_predicate(v: &mut Vec<Predicate>, holds: bool, issue: &str)
    ensures
        predicate_views(final(v)@) == predicate_views(old(v)@).push(
            PredicateView { holds, issue: issue@ },
        ),
{
    v.push(Predicate { holds, issue: issue.to_owned() });
    assert(predicate_views(final(v)@) =~= predicate_views(old(v)@).push(
        PredicateView { holds, issue: issue@ },
    ));
}

/// Tells whether all the predicates hold.
pub fn all_predicates_hold(predicates: &Vec<Predicate>) -> (b: bool)
    ensures
        b == all_hold(predicate_views(predicates@)),
{
    let mut i: usize = 0;
    while i < predicates.len()
        invariant
            i <= predicates.len(),
            forall|k: int| 0 <= k < i ==> (#[trigger] predicate_views(predicates@)[k]).holds,
        decreases predicates.len() - i,
    {
        if !predicates[i].holds {
            assert(!predicate_views(predicates@)[i as int].holds);
            return false;
        }
        i += 1;
    }
    true
}

/// Merges evidence into a verdict.
///
/// The verdict is valid exactly when every predicate holds. A valid verdict
/// carries the success message. An invalid one names the issue of every
/// predicate that failed, in the order of `predicates`, behind the failure
/// prefix. The component is normal exactly when the verdict is valid.
pub fn report(predicates: &Vec<Predicate>, wording: &Wording, details: Details) -> (v: Verdict)
    ensures
        v@ == merged(predicate_views(predicates@), *wording, details),
{
    let ghost ps = predicate_views(predicates@);
    let mut issues: Vec<String> = Vec::new();
    let mut valid = true;
    let mut i: usize = 0;
    while i < predicates.len()
        invariant
            i <= predicates.len(),
            ps == predicate_views(predicates@),
            valid == all_hold(ps.take(i as int)),
            issues.deep_view() == unmet(ps.take(i as int)),
        decreases predicates.len() - i,
    {
        proof {
            let before = ps.take(i as int);
            let after = ps.take(i + 1);
            assert(after.drop_last() =~= before);
            assert(after.last() == predicates[i as int]@);
            assert(all_hold(after) == (all_hold(before) && after.last().holds)) by {
                if all_hold(before) && after.last().holds {
                    assert forall|k: int| 0 <= k < after.len() implies (#[trigger] after[k]).holds by {
                        if k < i {
                            assert(before[k] == after[k]);
                        }
                    }
                }
                if all_hold(after) {
                    assert(after[i as int].holds);
                    assert forall|k: int| 0 <= k < before.len() implies (#[trigger] before[k]).holds by {
                        assert(before[k] == after[k]);
                    }
                }
            }
        }
        if !predicates[i].holds {
            valid = false;
            let ghost old_issues = issues.deep_view();
            issues.push(predicates[i].issue.clone());
            assert(issues.deep_view() =~= old_issues.push(predicates[i as int].issue@));
        }
        i += 1;
    }
    assert(ps.take(i as int) =~= ps);
    let message = if valid {
        wording.success.to_owned()
    } else {
        wording.failure.to_owned().concat(join_texts(&issues, wording.separator).as_str())
    };
    let description = if valid {
        wording.fixed
    } else {
        wording.broken
    };
    Verdict {
        valid,
        message,
        system_component: ComponentStatus {
            name: wording.component.to_owned(),
            description: description.to_owned(),
            status: Status::from_valid(valid),
        },
        details,
    }
}

} // verus!
