//! The async-I/O category: a handler must read its file without blocking.
//!
//! The fix is valid when the code under test uses an async file-system call,
//! or awaits a read-style call, and holds neither a blocking sleep nor a
//! blocking file read. The strict variant of the rule also asks for a
//! tracing span that is attached to the async work.

use vstd::prelude::*;
use crate::evidence::BenchmarkResult;
use crate::lines::{live, live_in};
use crate::region::{region_of, MarkerSet};
use crate::text::{chars_of, contains, occurs_at, push_text};
use crate::verdict::{
    cannot_verify, lemma_message_names_failure, merged, predicate_views, push_predicate, report,
    unverifiable, Details, Predicate, PredicateView, Verdict, VerdictView, Wording,
};

verus! {

/// The spellings that open the code under test, the most decorated first.
pub open spec fn start_markers() -> Seq<Seq<char>> {
    seq![
        "// ⚠️ CHALLENGE #1: ASYNC I/O ⚠️"@,
        "// CHALLENGE #1: ASYNC I/O"@,
        "// Challenge 1: Async I/O"@,
        "// Challenge 1"@,
        "// CHALLENGE #1"@,
    ]
}

/// The spellings that close the code under test.
pub open spec fn end_markers() -> Seq<Seq<char>> {
    seq![
        "// ⚠️ END CHALLENGE CODE ⚠️"@,
        "// END CHALLENGE CODE"@,
        "// End Challenge Code"@,
        "// End Challenge 1"@,
        "// END CHALLENGE #1"@,
    ]
}

/// The markers of this category.
pub fn markers() -> (m: MarkerSet)
    ensures
        m.start_texts() == start_markers(),
        m.end_texts() == end_markers(),
{
    let mut starts: Vec<String> = Vec::new();
    push_text(&mut starts, "// ⚠️ CHALLENGE #1: ASYNC I/O ⚠️");
    push_text(&mut starts, "// CHALLENGE #1: ASYNC I/O");
    push_text(&mut starts, "// Challenge 1: Async I/O");
    push_text(&mut starts, "// Challenge 1");
    push_text(&mut starts, "// CHALLENGE #1");
    let mut ends: Vec<String> = Vec::new();
    push_text(&mut ends, "// ⚠️ END CHALLENGE CODE ⚠️");
    push_text(&mut ends, "// END CHALLENGE CODE");
    push_text(&mut ends, "// End Challenge Code");
    push_text(&mut ends, "// End Challenge 1");
    push_text(&mut ends, "// END CHALLENGE #1");
    assert(starts.deep_view() =~= start_markers());
    assert(ends.deep_view() =~= end_markers());
    MarkerSet::new(starts, ends)
}

/// What the code under test shows.
#[derive(Debug, Clone, Copy, PartialEq, Eq, Structural)]
pub struct AsyncIoFindings {
    /// An async file-system call is used, or a read-style call is awaited.
    pub uses_async_io: bool,
    /// A blocking sleep is called.
    pub blocking_sleep: bool,
    /// A blocking file read is called.
    pub blocking_read: bool,
    /// A tracing span is opened and attached to the work.
    pub traced: bool,
}

/// The call that puts a thread to sleep.
pub open spec fn sleep_pattern() -> Seq<char> {
    "std::thread::sleep"@
}

/// The start of every call that reads a file and blocks.
pub open spec fn read_pattern() -> Seq<char> {
    "std::fs::read"@
}

/// What the region shows, pattern by pattern.
pub open spec fn findings(region: Seq<char>) -> AsyncIoFindings {
    AsyncIoFindings {
        uses_async_io: live(region, "tokio::fs"@) || live(region, "async_std::fs"@) || (live(
            region,
            ".await"@,
        ) && (live(region, "read_to_string"@) || live(region, "read_file"@))),
        blocking_sleep: live(region, sleep_pattern()),
        blocking_read: live(region, read_pattern()),
        traced: (live(region, "tracing::info_span"@) || live(region, "info_span!"@)) && (live(
            region,
            ".in_scope"@,
        ) || live(region, ".instrument"@)),
    }
}

/// Looks for the patterns of this category in the code under test.
pub fn inspect(region: &[char]) -> (f: AsyncIoFindings)
    ensures
        f == findings(region@),
{
    AsyncIoFindings {
        uses_async_io: live_in(region, "tokio::fs") || live_in(region, "async_std::fs") || (live_in(
            region,
            ".await",
        ) && (live_in(region, "read_to_string") || live_in(region, "read_file"))),
        blocking_sleep: live_in(region, "std::thread::sleep"),
        blocking_read: live_in(region, "std::fs::read"),
        traced: (live_in(region, "tracing::info_span") || live_in(region, "info_span!")) && (
        live_in(region, ".in_scope") || live_in(region, ".instrument")),
    }
}

/// The fix is valid: async I/O is used and nothing blocks; the strict rule
/// asks for tracing as well.
pub open spec fn valid(f: AsyncIoFindings, strict: bool) -> bool {
    f.uses_async_io && !f.blocking_sleep && !f.blocking_read && (strict ==> f.traced)
}

/// What to say when something in the code under test blocks, be it a sleep
/// or a file read.
pub open spec fn blocking_issue() -> Seq<char> {
    "Remove any blocking operations (std::fs, thread::sleep)"@
}

/// The predicates of this category, in the order in which a message names
/// them. A blocking sleep and a blocking read fail one and the same
/// predicate.
pub open spec fn predicates(f: AsyncIoFindings, strict: bool) -> Seq<PredicateView> {
    seq![
        PredicateView {
            holds: f.uses_async_io,
            issue: "Make sure you're using async file operations (e.g., tokio::fs)"@,
        },
        PredicateView {
            holds: !f.blocking_sleep && !f.blocking_read,
            issue: blocking_issue(),
        },
        PredicateView {
            holds: strict ==> f.traced,
            issue: "Ensure proper tracing implementation for async operations"@,
        },
    ]
}

/// The texts of this category's verdicts.
pub open spec fn wording(strict: bool) -> Wording<'static> {
    Wording {
        component: "Tank Readings API",
        fixed: if strict {
            "Tank readings API is now using async I/O operations with proper tracing"
        } else {
            "Tank readings API is now using async I/O operations"
        },
        broken: "Tank readings API is experiencing high latency due to blocking I/O or improper tracing",
        success: if strict {
            "Solution correctly implemented! Async I/O is now being used with proper tracing."
        } else {
            "Solution correctly implemented! Async I/O is now being used."
        },
        failure: "Solution validation failed. Issues to address: ",
        separator: ", ",
    }
}

/// The evidence that a verdict of this category carries: the findings, and
/// the timings of the blocking and the async read.
pub open spec fn details(f: AsyncIoFindings, benchmark: BenchmarkResult) -> Details {
    Details::AsyncIo {
        blocking_io_duration_ms: benchmark.duration_a_ms,
        async_io_duration_ms: benchmark.duration_b_ms,
        uses_async_io: f.uses_async_io,
        blocking_sleep: f.blocking_sleep,
        blocking_read: f.blocking_read,
        traced: f.traced,
    }
}

/// The verdict that the findings lead to.
pub open spec fn verdict_of(f: AsyncIoFindings, strict: bool, benchmark: BenchmarkResult)
    -> VerdictView {
    merged(predicates(f, strict), wording(strict), details(f, benchmark))
}

/// The verdict on a source text, or on the lack of one.
pub open spec fn verified(source: Option<Seq<char>>, strict: bool, benchmark: BenchmarkResult)
    -> VerdictView {
    match source {
        Some(doc) => verdict_of(
            findings(region_of(doc, start_markers(), end_markers())),
            strict,
            benchmark,
        ),
        None => unverifiable(
            wording(strict).component@,
            wording(strict).broken@,
            "Validation failed: Unable to verify implementation."@,
            details(no_findings(), benchmark),
        ),
    }
}

/// The findings of a text that could not be read: nothing was seen.
pub open spec fn no_findings() -> AsyncIoFindings {
    AsyncIoFindings {
        uses_async_io: false,
        blocking_sleep: false,
        blocking_read: false,
        traced: false,
    }
}

/// The issue for blocking operations names both the sleep and the blocking
/// file system.
pub proof fn lemma_blocking_issue_names_both()
    ensures
        contains(blocking_issue(), "thread::sleep"@),
        contains(blocking_issue(), "std::fs"@),
{
    reveal_strlit("Remove any blocking operations (std::fs, thread::sleep)");
    reveal_strlit("thread::sleep");
    reveal_strlit("std::fs");
    let issue = blocking_issue();
    assert(issue.subrange(41, 54) =~= "thread::sleep"@);
    assert(occurs_at(issue, "thread::sleep"@, 41));
    assert(issue.subrange(32, 39) =~= "std::fs"@);
    assert(occurs_at(issue, "std::fs"@, 32));
}

/// A blocking sleep in the code under test makes the verdict invalid, and
/// the message names the sleep.
pub proof fn lemma_blocking_sleep_is_named(
    f: AsyncIoFindings,
    strict: bool,
    benchmark: BenchmarkResult,
)
    requires
        f.blocking_sleep,
    ensures
        !verdict_of(f, strict, benchmark).valid,
        contains(verdict_of(f, strict, benchmark).message, "thread::sleep"@),
{
    lemma_blocking_issue_names_both();
    lemma_message_names_failure(
        predicates(f, strict),
        wording(strict),
        details(f, benchmark),
        1,
        "thread::sleep"@,
    );
}

/// A blocking file read in the code under test makes the verdict invalid,
/// and the message names the blocking file system.
pub proof fn lemma_blocking_read_is_named(
    f: AsyncIoFindings,
    strict: bool,
    benchmark: BenchmarkResult,
)
    requires
        f.blocking_read,
    ensures
        !verdict_of(f, strict, benchmark).valid,
        contains(verdict_of(f, strict, benchmark).message, "std::fs"@),
{
    lemma_blocking_issue_names_both();
    lemma_message_names_failure(
        predicates(f, strict),
        wording(strict),
        details(f, benchmark),
        1,
        "std::fs"@,
    );
}

/// Async I/O without anything that blocks is valid under the plain rule,
/// whatever else the code under test holds.
pub proof fn lemma_async_without_blocking_is_valid(f: AsyncIoFindings, benchmark: BenchmarkResult)
    requires
        f.uses_async_io,
        !f.blocking_sleep,
        !f.blocking_read,
    ensures
        verdict_of(f, false, benchmark).valid,
        verdict_of(f, false, benchmark).message == wording(false).success@,
{
}

/// Deciding twice on an unchanged source, with the same evidence beside it,
/// gives the same verdict.
pub proof fn lemma_verdict_repeats(
    source: Option<Seq<char>>,
    strict: bool,
    benchmark: BenchmarkResult,
    first: Verdict,
    second: Verdict,
)
    requires
        first@ == verified(source, strict, benchmark),
        second@ == verified(source, strict, benchmark),
    ensures
        first@ == second@,
{
}

fn texts(strict: bool) -> (w: Wording<'static>)
    ensures
        w == wording(strict),
{
    Wording {
        component: "Tank Readings API",
        fixed: if strict {
            "Tank readings API is now using async I/O operations with proper tracing"
        } else {
            "Tank readings API is now using async I/O operations"
        },
        broken: "Tank readings API is experiencing high latency due to blocking I/O or improper tracing",
        success: if strict {
            "Solution correctly implemented! Async I/O is now being used with proper tracing."
        } else {
            "Solution correctly implemented! Async I/O is now being used."
        },
        failure: "Solution validation failed. Issues to address: ",
        separator: ", ",
    }
}

fn evidence(f: AsyncIoFindings, benchmark: BenchmarkResult) -> (d: Details)
    ensures
        d == details(f, benchmark),
{
    Details::AsyncIo {
        blocking_io_duration_ms: benchmark.duration_a_ms,
        async_io_duration_ms: benchmark.duration_b_ms,
        uses_async_io: f.uses_async_io,
        blocking_sleep: f.blocking_sleep,
        blocking_read: f.blocking_read,
        traced: f.traced,
    }
}

/// Gives the verdict that the findings lead to. The timings are part of the
/// details whatever the findings are.
pub fn verdict(f: AsyncIoFindings, strict: bool, benchmark: BenchmarkResult) -> (v: Verdict)
    ensures
        v@ == verdict_of(f, strict, benchmark),
        v.valid == valid(f, strict),
        v.details == details(f, benchmark),
{
    let mut ps: Vec<Predicate> = Vec::new();
    push_predicate(
        &mut ps,
        f.uses_async_io,
        "Make sure you're using async file operations (e.g., tokio::fs)",
    );
    push_predicate(
        &mut ps,
        !f.blocking_sleep && !f.blocking_read,
        "Remove any blocking operations (std::fs, thread::sleep)",
    );
    push_predicate(
        &mut ps,
        !strict || f.traced,
        "Ensure proper tracing implementation for async operations",
    );
    assert(predicate_views(ps@) =~= predicates(f, strict));
    report(&ps, &texts(strict), evidence(f, benchmark))
}

/// Decides whether `source` fixes the blocking read.
///
/// The code under test is cut out of the source by the markers of this
/// category, or is the whole source where they are missing. A source that
/// could not be read gives an invalid verdict, never an error. The timings
/// of the blocking and the async read are part of the details in every
/// case.
pub fn verify_async_io(source: Option<&str>, strict: bool, benchmark: BenchmarkResult) -> (v:
    Verdict)
    ensures
        v@ == verified(
            match source {
                Some(s) => Some(s@),
                None => None,
            },
            strict,
            benchmark,
        ),
        v.details matches Details::AsyncIo { blocking_io_duration_ms, async_io_duration_ms, .. }
            && blocking_io_duration_ms == benchmark.duration_a_ms && async_io_duration_ms
            == benchmark.duration_b_ms,
{
    match source {
        Some(s) => {
            let doc = chars_of(s);
            let region = markers().cut(doc.as_slice());
            verdict(inspect(region), strict, benchmark)
        },
        None => {
            let w = texts(strict);
            let nothing = AsyncIoFindings {
                uses_async_io: false,
                blocking_sleep: false,
                blocking_read: false,
                traced: false,
            };
            cannot_verify(
                w.component,
                w.broken,
                "Validation failed: Unable to verify implementation.",
                evidence(nothing, benchmark),
            )
        },
    }
}

} // verus!
