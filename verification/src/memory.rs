//! The memory category: a report must not allocate a string for every
//! fixed word.
//!
//! The fix is valid when the code under test converts to an owned string
//! in fewer places than the limit allows, and uses at least one technique
//! that avoids the allocation: borrowed string literals, a copy-on-write
//! wrapper, interning, or a closed enumeration.

use vstd::prelude::*;
use crate::decimal::{decimal, u64_to_decimal};
use crate::lines::{count_live_chars, live, live_in, live_occurrences};
use crate::region::{region_of, MarkerSet};
use crate::text::{chars_of, push_text};
use crate::verdict::{
    cannot_verify, merged, predicate_views, push_predicate, report, unverifiable, Details,
    Predicate, PredicateView, Verdict, VerdictView, Wording,
};

verus! {

/// The number of conversions to an owned string that is already too many.
pub const TO_STRING_LIMIT: usize = 10;

/// The spellings that open the code under test.
pub open spec fn start_markers() -> Seq<Seq<char>> {
    seq!["// ⚠️ CHALLENGE #3: STRING ALLOCATION OPTIMIZATION ⚠️"@]
}

/// The spellings that close the code under test.
pub open spec fn end_markers() -> Seq<Seq<char>> {
    seq!["// ⚠️ END CHALLENGE CODE ⚠️"@]
}

/// The markers of this category.
pub fn markers() -> (m: MarkerSet)
    ensures
        m.start_texts() == start_markers(),
        m.end_texts() == end_markers(),
{
    let mut starts: Vec<String> = Vec::new();
    push_text(&mut starts, "// ⚠️ CHALLENGE #3: STRING ALLOCATION OPTIMIZATION ⚠️");
    let mut ends: Vec<String> = Vec::new();
    push_text(&mut ends, "// ⚠️ END CHALLENGE CODE ⚠️");
    assert(starts.deep_view() =~= start_markers());
    assert(ends.deep_view() =~= end_markers());
    MarkerSet::new(starts, ends)
}

/// What the code under test shows.
#[derive(Debug, Clone, Copy, PartialEq, Eq, Structural)]
pub struct MemoryFindings {
    /// In how many places a live line converts to an owned string.
    pub to_string_count: usize,
    /// Borrowed string literals are used.
    pub uses_str_type: bool,
    /// A copy-on-write wrapper is used.
    pub uses_cow: bool,
    /// Strings are interned.
    pub uses_interning: bool,
    /// A closed enumeration stands for the fixed words.
    pub uses_enums: bool,
}

/// The code under test names a variant of one of the status enumerations.
pub open spec fn names_a_variant(region: Seq<char>) -> bool {
    ||| live(region, "::Warning"@)
    ||| live(region, "::Normal"@)
    ||| live(region, "::Critical"@)
    ||| live(region, "::Unknown"@)
}

/// What the region shows. The count stands for the number of call sites
/// as long as it fits the machine's word.
pub open spec fn findings(region: Seq<char>) -> MemoryFindings {
    MemoryFindings {
        to_string_count: live_occurrences(region, ".to_string()"@) as usize,
        uses_str_type: live(region, "&str"@) || live(region, "&'static str"@),
        uses_cow: live(region, "Cow::"@) || live(region, "std::borrow::Cow"@),
        uses_interning: live(region, "Intern::"@) || live(region, "internment::"@),
        uses_enums: live(region, "enum "@) && names_a_variant(region),
    }
}

/// Looks for the patterns of this category in the code under test.
pub fn inspect(region: &[char]) -> (f: MemoryFindings)
    ensures
        f == findings(region@),
        f.to_string_count == live_occurrences(region@, ".to_string()"@),
{
    let site = chars_of(".to_string()");
    MemoryFindings {
        to_string_count: count_live_chars(region, site.as_slice()),
        uses_str_type: live_in(region, "&str") || live_in(region, "&'static str"),
        uses_cow: live_in(region, "Cow::") || live_in(region, "std::borrow::Cow"),
        uses_interning: live_in(region, "Intern::") || live_in(region, "internment::"),
        uses_enums: live_in(region, "enum ") && (live_in(region, "::Warning") || live_in(
            region,
            "::Normal",
        ) || live_in(region, "::Critical") || live_in(region, "::Unknown")),
    }
}

/// The conversions are few enough.
pub open spec fn few_conversions(f: MemoryFindings) -> bool {
    f.to_string_count < TO_STRING_LIMIT
}

/// At least one technique that avoids the allocation is used.
pub open spec fn uses_a_technique(f: MemoryFindings) -> bool {
    f.uses_str_type || f.uses_cow || f.uses_interning || f.uses_enums
}

/// The fix is valid.
pub open spec fn valid(f: MemoryFindings) -> bool {
    few_conversions(f) && uses_a_technique(f)
}

/// The predicates of this category, in the order in which a message names
/// them.
pub open spec fn predicates(f: MemoryFindings) -> Seq<PredicateView> {
    seq![
        PredicateView {
            holds: few_conversions(f),
            issue: "Reduce the number of .to_string() calls (fewer than 10 are allowed, found "@
                + decimal(f.to_string_count as int) + ")"@,
        },
        PredicateView {
            holds: uses_a_technique(f),
            issue: "Use enums for fixed values, static string references, Cow<'a, str> or interning instead of creating new String objects"@,
        },
    ]
}

/// The texts of this category's verdicts.
pub open spec fn wording() -> Wording<'static> {
    Wording {
        component: "Analysis Engine",
        fixed: "Analysis engine memory usage is now optimized",
        broken: "Analysis engine is experiencing high memory usage",
        success: "Solution correctly implemented! Memory usage is now optimized.",
        failure: "Solution validation failed. Issues to address: ",
        separator: ", ",
    }
}

/// The evidence that a verdict of this category carries.
pub open spec fn details(f: MemoryFindings) -> Details {
    Details::Memory {
        to_string_count: f.to_string_count,
        uses_str_type: f.uses_str_type,
        uses_cow: f.uses_cow,
        uses_interning: f.uses_interning,
        uses_enums: f.uses_enums,
    }
}

/// The verdict that the findings lead to.
pub open spec fn verdict_of(f: MemoryFindings) -> VerdictView {
    merged(predicates(f), wording(), details(f))
}

/// The verdict on a source text, or on the lack of one.
pub open spec fn verified(source: Option<Seq<char>>) -> VerdictView {
    match source {
        Some(doc) => verdict_of(findings(region_of(doc, start_markers(), end_markers()))),
        None => unverifiable(
            wording().component@,
            wording().broken@,
            "Validation failed: Unable to verify implementation."@,
            Details::Empty,
        ),
    }
}

/// Deciding twice on an unchanged source, with the same evidence beside it,
/// gives the same verdict.
pub proof fn lemma_verdict_repeats(source: Option<Seq<char>>, first: Verdict, second: Verdict)
    requires
        first@ == verified(source),
        second@ == verified(source),
    ensures
        first@ == second@,
{
}

fn texts() -> (w: Wording<'static>)
    ensures
        w == wording(),
{
    Wording {
        component: "Analysis Engine",
        fixed: "Analysis engine memory usage is now optimized",
        broken: "Analysis engine is experiencing high memory usage",
        success: "Solution correctly implemented! Memory usage is now optimized.",
        failure: "Solution validation failed. Issues to address: ",
        separator: ", ",
    }
}

/// Gives the verdict that the findings lead to.
pub fn verdict(f: MemoryFindings) -> (v: Verdict)
    ensures
        v@ == verdict_of(f),
        v.valid == valid(f),
{
    let counted =
        "Reduce the number of .to_string() calls (fewer than 10 are allowed, found ".to_owned().concat(
        u64_to_decimal(f.to_string_count as u64).as_str(),
    ).concat(")");
    let mut ps: Vec<Predicate> = Vec::new();
    push_predicate(&mut ps, f.to_string_count < TO_STRING_LIMIT, counted.as_str());
    push_predicate(
        &mut ps,
        f.uses_str_type || f.uses_cow || f.uses_interning || f.uses_enums,
        "Use enums for fixed values, static string references, Cow<'a, str> or interning instead of creating new String objects",
    );
    assert(predicate_views(ps@) =~= predicates(f));
    let d = Details::Memory {
        to_string_count: f.to_string_count,
        uses_str_type: f.uses_str_type,
        uses_cow: f.uses_cow,
        uses_interning: f.uses_interning,
        uses_enums: f.uses_enums,
    };
    report(&ps, &texts(), d)
}

/// Decides whether `source` fixes the allocation of strings.
///
/// The code under test is cut out of the source by the markers of this
/// category, or is the whole source where they are missing. A source that
/// could not be read gives an invalid verdict, never an error.
pub fn verify_memory_optimization(source: Option<&str>) -> (v: Verdict)
    ensures
        v@ == verified(
            match source {
                Some(s) => Some(s@),
                None => None,
            },
        ),
{
    match source {
        Some(s) => {
            let doc = chars_of(s);
            let region = markers().cut(doc.as_slice());
            verdict(inspect(region))
        },
        None => {
            let w = texts();
            cannot_verify(
                w.component,
                w.broken,
                "Validation failed: Unable to verify implementation.",
                Details::Empty,
            )
        },
    }
}

} // verus!
