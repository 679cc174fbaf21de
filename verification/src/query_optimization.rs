//! The query-optimization category: text search must not scan the table.
//!
//! The fix is valid when both search statements, by name and by scientific
//! name, use the case-insensitive operator and neither uses the
//! case-sensitive one. Where the data store is asked as well, the trigram
//! extension must be enabled and an index must exist over each of the two
//! columns. A data store that cannot answer is told apart from one whose
//! answer is no.

use vstd::prelude::*;
use crate::evidence::Introspection;
use crate::lines::{live, live_in};
use crate::region::{region_of, MarkerSet};
use crate::text::{chars_of, contains, lemma_contains_middle, push_text};
use crate::verdict::{
    cannot_verify, lemma_message_names_failure, merged, predicate_views, push_predicate, report,
    unverifiable, Details, Predicate, PredicateView, Verdict, VerdictView, Wording,
};

verus! {

/// The spellings that open the code under test.
pub open spec fn start_markers() -> Seq<Seq<char>> {
    seq!["// ⚠️ CHALLENGE #2: DATABASE QUERY OPTIMIZATION ⚠️"@]
}

/// The spellings that close the code under test.
pub open spec fn end_markers() -> Seq<Seq<char>> {
    seq!["// ⚠️ END CHALLENGE CODE ⚠️"@]
}

/// The markers of this category.
pub fn markers() -> (m: MarkerSet)
    ensures
        m.start_texts() == start_markers(),
        m.end_texts() == end_markers(),
{
    let mut starts: Vec<String> = Vec::new();
    push_text(&mut starts, "// ⚠️ CHALLENGE #2: DATABASE QUERY OPTIMIZATION ⚠️");
    let mut ends: Vec<String> = Vec::new();
    push_text(&mut ends, "// ⚠️ END CHALLENGE CODE ⚠️");
    assert(starts.deep_view() =~= start_markers());
    assert(ends.deep_view() =~= end_markers());
    MarkerSet::new(starts, ends)
}

/// What the code under test shows.
#[derive(Debug, Clone, Copy, PartialEq, Eq, Structural)]
pub struct QueryFindings {
    /// The search by name uses the case-insensitive operator.
    pub name_uses_ilike: bool,
    /// The search by scientific name uses the case-insensitive operator.
    pub scientific_name_uses_ilike: bool,
    /// One of the two searches uses the case-sensitive operator.
    pub still_using_like: bool,
}

/// What the region shows, pattern by pattern.
pub open spec fn findings(region: Seq<char>) -> QueryFindings {
    QueryFindings {
        name_uses_ilike: live(region, "WHERE name ILIKE $1"@),
        scientific_name_uses_ilike: live(region, "WHERE scientific_name ILIKE $1"@),
        still_using_like: live(region, "WHERE name LIKE $1"@) || live(
            region,
            "WHERE scientific_name LIKE $1"@,
        ),
    }
}

/// Looks for the patterns of this category in the code under test.
pub fn inspect(region: &[char]) -> (f: QueryFindings)
    ensures
        f == findings(region@),
{
    QueryFindings {
        name_uses_ilike: live_in(region, "WHERE name ILIKE $1"),
        scientific_name_uses_ilike: live_in(region, "WHERE scientific_name ILIKE $1"),
        still_using_like: live_in(region, "WHERE name LIKE $1") || live_in(
            region,
            "WHERE scientific_name LIKE $1",
        ),
    }
}

/// Both searches use the case-insensitive operator and none the other.
pub open spec fn ilike_ok(f: QueryFindings) -> bool {
    f.name_uses_ilike && f.scientific_name_uses_ilike && !f.still_using_like
}

/// The trigram extension is enabled, as far as the data store was asked.
pub open spec fn trigram_ok(db: Introspection) -> bool {
    match db {
        Introspection::Observed { trigram_enabled, .. } => trigram_enabled,
        _ => true,
    }
}

/// The index over the name exists, as far as the data store was asked.
pub open spec fn name_index_ok(db: Introspection) -> bool {
    match db {
        Introspection::Observed { name_index, .. } => name_index,
        _ => true,
    }
}

/// The index over the scientific name exists, as far as the data store was
/// asked.
pub open spec fn scientific_name_index_ok(db: Introspection) -> bool {
    match db {
        Introspection::Observed { scientific_name_index, .. } => scientific_name_index,
        _ => true,
    }
}

/// The fix is valid. A data store that could not answer never gives a valid
/// verdict.
pub open spec fn valid(f: QueryFindings, db: Introspection) -> bool {
    &&& db != Introspection::Unavailable
    &&& trigram_ok(db)
    &&& name_index_ok(db)
    &&& scientific_name_index_ok(db)
    &&& ilike_ok(f)
}

/// The name of the index over the names of the species.
pub open spec fn name_index_name() -> Seq<char> {
    "species_name_gin_trgm_idx"@
}

/// The name of the index over the scientific names of the species.
pub open spec fn scientific_name_index_name() -> Seq<char> {
    "species_scientific_name_gin_trgm_idx"@
}

/// What to say of the source text when it fails.
pub open spec fn ilike_issue(f: QueryFindings) -> Seq<char> {
    if f.still_using_like {
        "Source code in 'src/challenges.rs' still uses LIKE instead of ILIKE for some queries."@
    } else {
        "Source code in 'src/challenges.rs' does not consistently use ILIKE for both name and scientific_name searches."@
    }
}

/// The predicates of this category, in the order in which a message names
/// them: first what the data store says, then the source text.
pub open spec fn predicates(f: QueryFindings, db: Introspection) -> Seq<PredicateView> {
    seq![
        PredicateView {
            holds: db != Introspection::Unavailable,
            issue: "Could not perform database checks for pg_trgm extension or indexes."@,
        },
        PredicateView {
            holds: trigram_ok(db),
            issue: "The 'pg_trgm' extension is not enabled in the database."@,
        },
        PredicateView {
            holds: name_index_ok(db),
            issue: "A GIN trigram index on 'species.name' (e.g., '"@ + name_index_name()
                + "') is missing or incorrect."@,
        },
        PredicateView {
            holds: scientific_name_index_ok(db),
            issue: "A GIN trigram index on 'species.scientific_name' (e.g., '"@
                + scientific_name_index_name() + "') is missing or incorrect."@,
        },
        PredicateView { holds: ilike_ok(f), issue: ilike_issue(f) },
    ]
}

/// The texts of this category's verdicts.
pub open spec fn wording(db: Introspection) -> Wording<'static> {
    Wording {
        component: "Species Database",
        fixed: "Species database search is now optimized",
        broken: "Species database search is experiencing slowdowns or is misconfigured",
        success: if db == Introspection::Disabled {
            "Solution correctly implemented! Queries use ILIKE."
        } else {
            "Solution correctly implemented! Database is optimized with pg_trgm and GIN indexes, and queries use ILIKE."
        },
        failure: "Validation failed: ",
        separator: " ",
    }
}

/// How the component is described when nothing could be checked.
pub open spec fn unchecked_description() -> Seq<char> {
    "Species database search is experiencing slowdowns"@
}

/// The evidence that a verdict of this category carries.
pub open spec fn details(f: QueryFindings, db: Introspection) -> Details {
    Details::QueryOptimization {
        introspected: db is Observed,
        trigram_enabled: db is Observed && trigram_ok(db),
        name_index: db is Observed && name_index_ok(db),
        scientific_name_index: db is Observed && scientific_name_index_ok(db),
        name_uses_ilike: f.name_uses_ilike,
        scientific_name_uses_ilike: f.scientific_name_uses_ilike,
        still_using_like: f.still_using_like,
    }
}

/// The verdict that the findings and the data store's answer lead to.
pub open spec fn verdict_of(f: QueryFindings, db: Introspection) -> VerdictView {
    merged(predicates(f, db), wording(db), details(f, db))
}

/// The verdict on a source text and the data store's answer. A data store
/// that could not answer decides first, then a source that could not be
/// read, then the rules.
pub open spec fn verified(source: Option<Seq<char>>, db: Introspection) -> VerdictView {
    if db == Introspection::Unavailable {
        unverifiable(
            wording(db).component@,
            unchecked_description(),
            "Validation failed: Could not perform database checks for pg_trgm extension or indexes."@,
            Details::Empty,
        )
    } else {
        match source {
            Some(doc) => verdict_of(findings(region_of(doc, start_markers(), end_markers())), db),
            None => unverifiable(
                wording(db).component@,
                unchecked_description(),
                "Validation failed: Unable to read src/challenges.rs to verify ILIKE usage."@,
                Details::Empty,
            ),
        }
    }
}

/// With the extension, both indexes and both searches in order, the fix
/// is valid.
pub proof fn lemma_all_in_order_is_valid(f: QueryFindings, db: Introspection)
    requires
        ilike_ok(f),
        db == (Introspection::Observed {
            trigram_enabled: true,
            name_index: true,
            scientific_name_index: true,
        }) || db == Introspection::Disabled,
    ensures
        verdict_of(f, db).valid,
{
}

/// Without the index over the names the verdict is invalid, and the
/// message names the index that is missing.
pub proof fn lemma_missing_name_index_is_named(f: QueryFindings, db: Introspection)
    requires
        db matches Introspection::Observed { name_index, .. } && !name_index,
    ensures
        !verdict_of(f, db).valid,
        contains(verdict_of(f, db).message, name_index_name()),
{
    lemma_contains_middle(
        "A GIN trigram index on 'species.name' (e.g., '"@,
        name_index_name(),
        "') is missing or incorrect."@,
    );
    lemma_message_names_failure(predicates(f, db), wording(db), details(f, db), 2, name_index_name());
}

/// Without the index over the scientific names the verdict is invalid, and
/// the message names the index that is missing.
pub proof fn lemma_missing_scientific_name_index_is_named(f: QueryFindings, db: Introspection)
    requires
        db matches Introspection::Observed { scientific_name_index, .. } && !scientific_name_index,
    ensures
        !verdict_of(f, db).valid,
        contains(verdict_of(f, db).message, scientific_name_index_name()),
{
    lemma_contains_middle(
        "A GIN trigram index on 'species.scientific_name' (e.g., '"@,
        scientific_name_index_name(),
        "') is missing or incorrect."@,
    );
    lemma_message_names_failure(
        predicates(f, db),
        wording(db),
        details(f, db),
        3,
        scientific_name_index_name(),
    );
}

/// Deciding twice on an unchanged source, with the same evidence beside it,
/// gives the same verdict.
pub proof fn lemma_verdict_repeats(
    source: Option<Seq<char>>,
    db: Introspection,
    first: Verdict,
    second: Verdict,
)
    requires
        first@ == verified(source, db),
        second@ == verified(source, db),
    ensures
        first@ == second@,
{
}

fn texts(db: Introspection) -> (w: Wording<'static>)
    ensures
        w == wording(db),
{
    Wording {
        component: "Species Database",
        fixed: "Species database search is now optimized",
        broken: "Species database search is experiencing slowdowns or is misconfigured",
        success: match db {
            Introspection::Disabled => "Solution correctly implemented! Queries use ILIKE.",
            _ => "Solution correctly implemented! Database is optimized with pg_trgm and GIN indexes, and queries use ILIKE.",
        },
        failure: "Validation failed: ",
        separator: " ",
    }
}

/// Gives the verdict that the findings and the data store's answer lead to.
pub fn verdict(f: QueryFindings, db: Introspection) -> (v: Verdict)
    ensures
        v@ == verdict_of(f, db),
        v.valid == valid(f, db),
{
    let (introspected, trigram, name_index, scientific_name_index) = match db {
        Introspection::Observed { trigram_enabled, name_index, scientific_name_index } => (
            true,
            trigram_enabled,
            name_index,
            scientific_name_index,
        ),
        _ => (false, true, true, true),
    };
    let ilike = f.name_uses_ilike && f.scientific_name_uses_ilike && !f.still_using_like;
    let answered = match db {
        Introspection::Unavailable => false,
        _ => true,
    };
    let mut ps: Vec<Predicate> = Vec::new();
    push_predicate(
        &mut ps,
        answered,
        "Could not perform database checks for pg_trgm extension or indexes.",
    );
    push_predicate(&mut ps, trigram, "The 'pg_trgm' extension is not enabled in the database.");
    let no_name_index = "A GIN trigram index on 'species.name' (e.g., '".to_owned().concat(
        "species_name_gin_trgm_idx",
    ).concat("') is missing or incorrect.");
    let no_scientific_name_index =
        "A GIN trigram index on 'species.scientific_name' (e.g., '".to_owned().concat(
        "species_scientific_name_gin_trgm_idx",
    ).concat("') is missing or incorrect.");
    push_predicate(&mut ps, name_index, no_name_index.as_str());
    push_predicate(&mut ps, scientific_name_index, no_scientific_name_index.as_str());
    if f.still_using_like {
        push_predicate(
            &mut ps,
            ilike,
            "Source code in 'src/challenges.rs' still uses LIKE instead of ILIKE for some queries.",
        );
    } else {
        push_predicate(
            &mut ps,
            ilike,
            "Source code in 'src/challenges.rs' does not consistently use ILIKE for both name and scientific_name searches.",
        );
    }
    assert(predicate_views(ps@) =~= predicates(f, db));
    let d = Details::QueryOptimization {
        introspected,
        trigram_enabled: introspected && trigram,
        name_index: introspected && name_index,
        scientific_name_index: introspected && scientific_name_index,
        name_uses_ilike: f.name_uses_ilike,
        scientific_name_uses_ilike: f.scientific_name_uses_ilike,
        still_using_like: f.still_using_like,
    };
    report(&ps, &texts(db), d)
}

/// Decides whether `source`, together with what the data store told, fixes
/// the slow search.
///
/// The code under test is cut out of the source by the markers of this
/// category, or is the whole source where they are missing. Neither a data
/// store that cannot answer nor a source that cannot be read is an error:
/// each gives an invalid verdict with a message of its own.
pub fn verify_query_optimization(source: Option<&str>, db: Introspection) -> (v: Verdict)
    ensures
        v@ == verified(
            match source {
                Some(s) => Some(s@),
                None => None,
            },
            db,
        ),
{
    let w = texts(db);
    match db {
        Introspection::Unavailable => cannot_verify(
            w.component,
            "Species database search is experiencing slowdowns",
            "Validation failed: Could not perform database checks for pg_trgm extension or indexes.",
            Details::Empty,
        ),
        _ => match source {
            Some(s) => {
                let doc = chars_of(s);
                let region = markers().cut(doc.as_slice());
                verdict(inspect(region), db)
            },
            None => cannot_verify(
                w.component,
                "Species database search is experiencing slowdowns",
                "Validation failed: Unable to read src/challenges.rs to verify ILIKE usage.",
                Details::Empty,
            ),
        },
    }
}

} // verus!
