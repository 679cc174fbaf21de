//! Rule sets and their evaluation.
//!
//! A rule names patterns that must be live in a text and patterns that must
//! not be. A rule set is evaluated pattern by pattern: the result keeps one
//! predicate for each pattern, so that a failure can be told by name and
//! not only as a sum.

use vstd::prelude::*;
use crate::lines::{live, live_in};
use crate::text::chars_of;
use crate::verdict::{
    all_hold, all_predicates_hold, predicate_views, Predicate, PredicateView,
};

verus! {

/// The classes of defect that the engine knows.
#[derive(Debug, Clone, Copy, PartialEq, Eq, Structural)]
pub enum Category {
    AsyncIo,
    ResourceLeak,
    QueryOptimization,
    Memory,
    Concurrency,
}

/// The text that a rule looks at.
#[derive(Debug, Clone, Copy, PartialEq, Eq, Structural)]
pub enum Scope {
    /// The code under test only.
    Region,
    /// The whole document.
    WholeDocument,
}

/// Patterns that must be live in a text, and patterns that must not be.
#[derive(Debug, Clone)]
pub struct Rule {
    pub category: Category,
    pub scope: Scope,
    pub required: Vec<String>,
    pub forbidden: Vec<String>,
}

/// A rule as a mathematical value.
pub struct RuleView {
    pub category: Category,
    pub scope: Scope,
    pub required: Seq<Seq<char>>,
    pub forbidden: Seq<Seq<char>>,
}

impl View for Rule {
    type V = RuleView;

    open spec fn view(&self) -> RuleView {
        RuleView {
            category: self.category,
            scope: self.scope,
            required: self.required.deep_view(),
            forbidden: self.forbidden.deep_view(),
        }
    }
}

/// The rules of one category, with the terms that were decided elsewhere,
/// by asking a data store for one, and count like the patterns do.
#[derive(Debug, Clone)]
pub struct RuleSet {
    pub rules: Vec<Rule>,
    pub additional: Vec<Predicate>,
}

/// What a rule set found in a text.
#[derive(Debug, Clone)]
pub struct StaticRuleResult {
    /// Every predicate holds.
    pub passed: bool,
    /// One predicate for each pattern, rule by rule, the required patterns
    /// of a rule before its forbidden ones; then the additional terms.
    pub predicates: Vec<Predicate>,
}

/// The views of a list of rules.
pub open spec fn rule_views(rules: Seq<Rule>) -> Seq<RuleView> {
    rules.map_values(|r: Rule| r@)
}

/// The text that a scope stands for.
pub open spec fn scope_text(scope: Scope, region: Seq<char>, doc: Seq<char>) -> Seq<char> {
    match scope {
        Scope::Region => region,
        Scope::WholeDocument => doc,
    }
}

/// The predicate that stands for one pattern: a required pattern must be
/// live in the text, a forbidden one must not be.
pub open spec fn pattern_predicate(text: Seq<char>, pattern: Seq<char>, required: bool)
    -> PredicateView {
    if required {
        PredicateView {
            holds: live(text, pattern),
            issue: "Required pattern not found: "@ + pattern,
        }
    } else {
        PredicateView { holds: !live(text, pattern), issue: "Forbidden pattern found: "@ + pattern }
    }
}

/// The predicates that stand for a list of patterns, in its order.
pub open spec fn pattern_predicates(text: Seq<char>, patterns: Seq<Seq<char>>, required: bool)
    -> Seq<PredicateView> {
    Seq::new(patterns.len(), |j: int| pattern_predicate(text, patterns[j], required))
}

/// The predicates of one rule: its required patterns, then its forbidden
/// ones.
pub open spec fn rule_predicates(rule: RuleView, region: Seq<char>, doc: Seq<char>) -> Seq<
    PredicateView,
> {
    let text = scope_text(rule.scope, region, doc);
    pattern_predicates(text, rule.required, true) + pattern_predicates(text, rule.forbidden, false)
}

/// The predicates of a list of rules, rule by rule.
pub open spec fn rules_predicates(rules: Seq<RuleView>, region: Seq<char>, doc: Seq<char>) -> Seq<
    PredicateView,
>
    decreases rules.len(),
{
    if rules.len() == 0 {
        Seq::empty()
    } else {
        rules_predicates(rules.drop_last(), region, doc) + rule_predicates(
            rules.last(),
            region,
            doc,
        )
    }
}

/// What a rule set finds in a region and its document.
pub open spec fn evaluation(
    rules: Seq<RuleView>,
    additional: Seq<PredicateView>,
    region: Seq<char>,
    doc: Seq<char>,
) -> Seq<PredicateView> {
    rules_predicates(rules, region, doc) + additional
}

/// Evaluating a rule set twice on an unchanged region and document gives
/// the same result: the same predicates, and the same answer to whether
/// they all hold.
pub proof fn lemma_evaluation_repeats(
    rule_set: RuleSet,
    region: Seq<char>,
    doc: Seq<char>,
    first: StaticRuleResult,
    second: StaticRuleResult,
)
    requires
        predicate_views(first.predicates@) == evaluation(
            rule_views(rule_set.rules@),
            predicate_views(rule_set.additional@),
            region,
            doc,
        ),
        first.passed == all_hold(predicate_views(first.predicates@)),
        predicate_views(second.predicates@) == evaluation(
            rule_views(rule_set.rules@),
            predicate_views(rule_set.additional@),
            region,
            doc,
        ),
        second.passed == all_hold(predicate_views(second.predicates@)),
    ensures
        predicate_views(first.predicates@) == predicate_views(second.predicates@),
        first.passed == second.passed,
{
}

fn push_patterns(out: &mut Vec<Predicate>, text: &[char], patterns: &Vec<String>, required: bool)
    ensures
        predicate_views(final(out)@) == predicate_views(old(out)@) + pattern_predicates(
            text@,
            patterns.deep_view(),
            required,
        ),
{
    let ghost before = predicate_views(out@);
    let ghost all = pattern_predicates(text@, patterns.deep_view(), required);
    let mut j: usize = 0;
    while j < patterns.len()
        invariant
            j <= patterns.len(),
            all == pattern_predicates(text@, patterns.deep_view(), required),
            predicate_views(out@) == before + all.take(j as int),
        decreases patterns.len() - j,
    {
        let pattern = patterns[j].as_str();
        let found = live_in(text, pattern);
        let ghost so_far = predicate_views(out@);
        let p = if required {
            Predicate {
                holds: found,
                issue: "Required pattern not found: ".to_owned().concat(pattern),
            }
        } else {
            Predicate {
                holds: !found,
                issue: "Forbidden pattern found: ".to_owned().concat(pattern),
            }
        };
        assert(patterns.deep_view()[j as int] == pattern@);
        assert(p@ == all[j as int]);
        out.push(p);
        assert(predicate_views(out@) =~= so_far.push(p@));
        assert(before + all.take(j + 1) =~= (before + all.take(j as int)).push(all[j as int]));
        j += 1;
    }
    assert(all.take(j as int) =~= all);
}

/// Evaluates a rule set on the code under test and its document.
///
/// Every required pattern must be live in the text that its rule looks at,
/// and every forbidden pattern must not be; the additional terms of the
/// rule set count as they are. The result passes exactly when all of these
/// hold, and keeps each of them with the words that name it.
pub fn evaluate(rule_set: &RuleSet, region: &str, whole_doc: &str) -> (r: StaticRuleResult)
    ensures
        predicate_views(r.predicates@) == evaluation(
            rule_views(rule_set.rules@),
            predicate_views(rule_set.additional@),
            region@,
            whole_doc@,
        ),
        r.passed == all_hold(predicate_views(r.predicates@)),
{
    let region_text = chars_of(region);
    let doc_text = chars_of(whole_doc);
    let ghost rules = rule_views(rule_set.rules@);
    let mut out: Vec<Predicate> = Vec::new();
    let mut i: usize = 0;
    while i < rule_set.rules.len()
        invariant
            i <= rule_set.rules.len(),
            rules == rule_views(rule_set.rules@),
            region_text@ == region@,
            doc_text@ == whole_doc@,
            predicate_views(out@) == rules_predicates(rules.take(i as int), region@, whole_doc@),
        decreases rule_set.rules.len() - i,
    {
        let rule = &rule_set.rules[i];
        let text = match rule.scope {
            Scope::Region => region_text.as_slice(),
            Scope::WholeDocument => doc_text.as_slice(),
        };
        proof {
            assert(rules.take(i + 1).drop_last() =~= rules.take(i as int));
            assert(rules.take(i + 1).last() == rule@);
        }
        let ghost before = predicate_views(out@);
        push_patterns(&mut out, text, &rule.required, true);
        push_patterns(&mut out, text, &rule.forbidden, false);
        assert(predicate_views(out@) =~= before + rule_predicates(rule@, region@, whole_doc@));
        i += 1;
    }
    assert(rules.take(i as int) =~= rules);
    let mut k: usize = 0;
    let ghost from_rules = predicate_views(out@);
    while k < rule_set.additional.len()
        invariant
            k <= rule_set.additional.len(),
            predicate_views(out@) == from_rules + predicate_views(rule_set.additional@).take(
                k as int,
            ),
        decreases rule_set.additional.len() - k,
    {
        let ghost so_far = predicate_views(out@);
        let term = &rule_set.additional[k];
        let p = Predicate { holds: term.holds, issue: term.issue.clone() };
        assert(p@ == predicate_views(rule_set.additional@)[k as int]);
        out.push(p);
        assert(predicate_views(out@) =~= so_far.push(p@));
        assert(from_rules + predicate_views(rule_set.additional@).take(k + 1) =~= (from_rules
            + predicate_views(rule_set.additional@).take(k as int)).push(p@));
        k += 1;
    }
    assert(predicate_views(rule_set.additional@).take(k as int) =~= predicate_views(
        rule_set.additional@,
    ));
    let passed = all_predicates_hold(&out);
    StaticRuleResult { passed, predicates: out }
}

} // verus!
