//! The resource-leak category: a handler must not build a client of its own
//! for every request.
//!
//! The fix is valid when a shared client is declared somewhere in the
//! document, the handler refers to it, and the handler builds no client
//! itself. Building one is tolerated only inside a wrapper that runs once:
//! on a line that holds `Lazy::new` as well. Where the caller has counted
//! the clients that were built while the handler was exercised, that count
//! is further evidence.

use vstd::prelude::*;
use crate::decimal::{decimal, u64_to_decimal};
use crate::evidence::CounterObservation;
use crate::lines::{lemma_excuse_must_be_live, live, live_in, live_without, live_without_in};
use crate::region::{region_of, MarkerSet};
use crate::text::{chars_of, contains, contains_chars, push_text};
use crate::verdict::{
    cannot_verify, merged, predicate_views, push_predicate, report, unverifiable, Details,
    Predicate, PredicateView, Verdict, VerdictView, Wording,
};

verus! {

/// The spellings that open the code under test.
pub open spec fn start_markers() -> Seq<Seq<char>> {
    seq!["// ⚠️ CHALLENGE #4: RESOURCE LEAK ⚠️"@]
}

/// The spellings that close the code under test.
pub open spec fn end_markers() -> Seq<Seq<char>> {
    seq!["// ⚠️ END CHALLENGE CODE ⚠️"@]
}

/// The markers of this category.
pub fn markers() -> (m: MarkerSet)
    ensures
        m.start_texts() == start_markers(),
        m.end_texts() == end_markers(),
{
    let mut starts: Vec<String> = Vec::new();
    push_text(&mut starts, "// ⚠️ CHALLENGE #4: RESOURCE LEAK ⚠️");
    let mut ends: Vec<String> = Vec::new();
    push_text(&mut ends, "// ⚠️ END CHALLENGE CODE ⚠️");
    assert(starts.deep_view() =~= start_markers());
    assert(ends.deep_view() =~= end_markers());
    MarkerSet::new(starts, ends)
}

/// What the document and the handler show.
#[derive(Debug, Clone, Copy, PartialEq, Eq, Structural)]
pub struct LeakFindings {
    /// A shared client is declared somewhere in the document.
    pub has_static_client: bool,
    /// The handler refers to the shared client.
    pub uses_static_client: bool,
    /// The handler builds a client outside a wrapper that runs once.
    pub creates_client: bool,
}

/// A shared client is declared in the document: as a static, or as a field
/// of the application state. Comments count too: the declaration is looked
/// for anywhere in the text.
pub open spec fn declares_shared_client(doc: Seq<char>) -> bool {
    ||| contains(doc, "static HTTP_CLIENT"@)
    ||| contains(doc, "static CLIENT"@)
    ||| contains(doc, "client: reqwest::Client"@)
    ||| contains(doc, "http_client: reqwest::Client"@)
}

/// The handler refers to the shared client on a live line. Any name that
/// holds `CLIENT` counts.
pub open spec fn refers_to_shared_client(region: Seq<char>) -> bool {
    ||| live(region, "&*HTTP_CLIENT"@)
    ||| live(region, "HTTP_CLIENT."@)
    ||| live(region, "&*CLIENT"@)
    ||| live(region, "&CLIENT"@)
    ||| live(region, "CLIENT."@)
    ||| live(region, "CLIENT"@)
    ||| live(region, "state.client"@)
    ||| live(region, "state.http_client"@)
}

/// The call that builds a client.
pub open spec fn construction() -> Seq<char> {
    "Client::new()"@
}

/// The wrapper that runs once, and so excuses a construction inside it.
pub open spec fn lazy_wrapper() -> Seq<char> {
    "Lazy::new"@
}

/// The handler builds a client outside a wrapper that runs once: a live
/// line holds the construction and does not hold the wrapper. The wrapper
/// on another line, or in a comment, excuses nothing.
pub open spec fn builds_client(region: Seq<char>) -> bool {
    live_without(region, construction(), lazy_wrapper())
}

/// What the document and its region show.
pub open spec fn findings(doc: Seq<char>, region: Seq<char>) -> LeakFindings {
    LeakFindings {
        has_static_client: declares_shared_client(doc),
        uses_static_client: refers_to_shared_client(region),
        creates_client: builds_client(region),
    }
}

fn holds_text(text: &[char], pattern: &str) -> (b: bool)
    ensures
        b == contains(text@, pattern@),
{
    let p = chars_of(pattern);
    contains_chars(text, p.as_slice())
}

/// Looks for the patterns of this category in the document and in the
/// handler.
pub fn inspect(doc: &[char], region: &[char]) -> (f: LeakFindings)
    ensures
        f == findings(doc@, region@),
{
    LeakFindings {
        has_static_client: holds_text(doc, "static HTTP_CLIENT") || holds_text(doc, "static CLIENT")
            || holds_text(doc, "client: reqwest::Client") || holds_text(
            doc,
            "http_client: reqwest::Client",
        ),
        uses_static_client: live_in(region, "&*HTTP_CLIENT") || live_in(region, "HTTP_CLIENT.")
            || live_in(region, "&*CLIENT") || live_in(region, "&CLIENT") || live_in(
            region,
            "CLIENT.",
        ) || live_in(region, "CLIENT") || live_in(region, "state.client") || live_in(
            region,
            "state.http_client",
        ),
        creates_client: live_without_in(region, "Client::new()", "Lazy::new"),
    }
}

/// How many clients were built while the handler was exercised; none where
/// nobody counted.
pub open spec fn new_instances(observed: Option<CounterObservation>) -> int {
    match observed {
        Some(o) => o.growth(),
        None => 0,
    }
}

/// The count of clients speaks for a shared client. A shared client is
/// built once, at start-up or on first use, so the counter may grow by one;
/// growth beyond that shows a client per request.
pub open spec fn count_is_steady(observed: Option<CounterObservation>) -> bool {
    new_instances(observed) <= 1
}

/// The fix is valid.
pub open spec fn valid(f: LeakFindings, observed: Option<CounterObservation>) -> bool {
    f.has_static_client && f.uses_static_client && !f.creates_client && count_is_steady(observed)
}

/// The predicates of this category, in the order in which a message names
/// them.
pub open spec fn predicates(f: LeakFindings, observed: Option<CounterObservation>) -> Seq<
    PredicateView,
> {
    seq![
        PredicateView {
            holds: f.has_static_client,
            issue: "Declare a shared HTTP client (a static CLIENT or a client held in AppState)"@,
        },
        PredicateView {
            holds: f.uses_static_client,
            issue: "Use the shared HTTP client in the handler"@,
        },
        PredicateView {
            holds: !f.creates_client,
            issue: "Do not create a new client with Client::new() for each request"@,
        },
        PredicateView {
            holds: count_is_steady(observed),
            issue: "New client instances were built while the handler was called: "@ + decimal(
                new_instances(observed),
            ),
        },
    ]
}

/// The texts of this category's verdicts.
pub open spec fn wording() -> Wording<'static> {
    Wording {
        component: "Sensor Status API",
        fixed: "Sensor status API is now resource-efficient",
        broken: "Sensor status API is creating too many client instances",
        success: "Solution correctly implemented! HTTP client is now shared and resource-efficient.",
        failure: "Solution validation failed. Issues to address: ",
        separator: ", ",
    }
}

/// The evidence that a verdict of this category carries.
pub open spec fn details(f: LeakFindings, observed: Option<CounterObservation>) -> Details {
    Details::ResourceLeak {
        has_static_client: f.has_static_client,
        uses_static_client: f.uses_static_client,
        creates_client: f.creates_client,
        new_instances: new_instances(observed) as u64,
    }
}

/// The verdict that the findings lead to.
pub open spec fn verdict_of(f: LeakFindings, observed: Option<CounterObservation>) -> VerdictView {
    merged(predicates(f, observed), wording(), details(f, observed))
}

/// The verdict on a source text, or on the lack of one.
pub open spec fn verified(source: Option<Seq<char>>, observed: Option<CounterObservation>)
    -> VerdictView {
    match source {
        Some(doc) => verdict_of(
            findings(doc, region_of(doc, start_markers(), end_markers())),
            observed,
        ),
        None => unverifiable(
            wording().component@,
            wording().broken@,
            "Validation failed: Unable to verify implementation."@,
            Details::Empty,
        ),
    }
}

/// A construction on a live line is not excused by a wrapper that stands
/// on no live line, in a comment for one: the verdict is invalid.
pub proof fn lemma_wrapper_in_a_comment_excuses_nothing(
    doc: Seq<char>,
    region: Seq<char>,
    observed: Option<CounterObservation>,
)
    requires
        live(region, construction()),
        !live(region, lazy_wrapper()),
    ensures
        findings(doc, region).creates_client,
        !verdict_of(findings(doc, region), observed).valid,
{
    lemma_excuse_must_be_live(region, construction(), lazy_wrapper());
    assert(!predicates(findings(doc, region), observed)[2].holds);
}

/// Deciding twice on an unchanged source, with the same evidence beside it,
/// gives the same verdict.
pub proof fn lemma_verdict_repeats(
    source: Option<Seq<char>>,
    observed: Option<CounterObservation>,
    first: Verdict,
    second: Verdict,
)
    requires
        first@ == verified(source, observed),
        second@ == verified(source, observed),
    ensures
        first@ == second@,
{
}

fn texts() -> (w: Wording<'static>)
    ensures
        w == wording(),
{
    Wording {
        component: "Sensor Status API",
        fixed: "Sensor status API is now resource-efficient",
        broken: "Sensor status API is creating too many client instances",
        success: "Solution correctly implemented! HTTP client is now shared and resource-efficient.",
        failure: "Solution validation failed. Issues to address: ",
        separator: ", ",
    }
}

/// Gives the verdict that the findings and the count of clients lead to.
pub fn verdict(f: LeakFindings, observed: Option<CounterObservation>) -> (v: Verdict)
    ensures
        v@ == verdict_of(f, observed),
        v.valid == valid(f, observed),
{
    let grown: u64 = match observed {
        Some(o) => o.grown(),
        None => 0,
    };
    let counted = "New client instances were built while the handler was called: ".to_owned().concat(
        u64_to_decimal(grown).as_str(),
    );
    let mut ps: Vec<Predicate> = Vec::new();
    push_predicate(
        &mut ps,
        f.has_static_client,
        "Declare a shared HTTP client (a static CLIENT or a client held in AppState)",
    );
    push_predicate(&mut ps, f.uses_static_client, "Use the shared HTTP client in the handler");
    push_predicate(
        &mut ps,
        !f.creates_client,
        "Do not create a new client with Client::new() for each request",
    );
    push_predicate(&mut ps, grown <= 1, counted.as_str());
    assert(predicate_views(ps@) =~= predicates(f, observed));
    let d = Details::ResourceLeak {
        has_static_client: f.has_static_client,
        uses_static_client: f.uses_static_client,
        creates_client: f.creates_client,
        new_instances: grown,
    };
    report(&ps, &texts(), d)
}

/// Decides whether `source` fixes the leak of clients.
///
/// The handler is cut out of the source by the markers of this category, or
/// is the whole source where they are missing. A source that could not be
/// read gives an invalid verdict, never an error.
pub fn verify_resource_leak(source: Option<&str>, observed: Option<CounterObservation>) -> (v:
    Verdict)
    ensures
        v@ == verified(
            match source {
                Some(s) => Some(s@),
                None => None,
            },
            observed,
        ),
{
    match source {
        Some(s) => {
            let doc = chars_of(s);
            let region = markers().cut(doc.as_slice());
            verdict(inspect(doc.as_slice(), region), observed)
        },
        None => {
            let w = texts();
            cannot_verify(
                w.component,
                w.broken,
                "Validation failed: Unable to verify implementation.",
                Details::Empty,
            )
        },
    }
}

} // verus!
