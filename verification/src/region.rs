//! Cutting the code under test out of a document.
//!
//! A region lies between a start marker and an end marker. Each side accepts
//! several spellings; whichever of them stands earliest in the document
//! delimits the region, not the one that is listed first. Where the markers
//! cannot be found the region is the whole document: looking at too much
//! code is better than refusing to look.

use vstd::prelude::*;
use vstd::string::StrSliceExecFns;
use vstd::slice::slice_subrange;
use crate::text::{occurs_at, find_from, chars_of};

verus! {

/// One of `markers` stands in `doc` at offset `at`.
pub open spec fn marker_at(doc: Seq<char>, markers: Seq<Seq<char>>, at: int) -> bool {
    exists|m: int| 0 <= m < markers.len() && occurs_at(doc, #[trigger] markers[m], at)
}

/// One of `markers` stands in `doc` at some offset from `from` on.
pub open spec fn marker_from(doc: Seq<char>, markers: Seq<Seq<char>>, from: int) -> bool {
    exists|at: int| from <= at && marker_at(doc, markers, at)
}

/// `at` is the least offset from `from` on at which one of `markers` stands.
pub open spec fn earliest_marker(doc: Seq<char>, markers: Seq<Seq<char>>, from: int, at: int)
    -> bool {
    &&& from <= at
    &&& marker_at(doc, markers, at)
    &&& forall|j: int| from <= j < at ==> !marker_at(doc, markers, j)
}

/// The least offset from `from` on at which one of `markers` stands, where
/// there is one.
pub open spec fn earliest_offset(doc: Seq<char>, markers: Seq<Seq<char>>, from: int) -> int {
    choose|at: int| earliest_marker(doc, markers, from, at)
}

/// There is only one earliest offset.
pub proof fn lemma_earliest_is_unique(
    doc: Seq<char>,
    markers: Seq<Seq<char>>,
    from: int,
    at: int,
)
    requires
        earliest_marker(doc, markers, from, at),
    ensures
        earliest_offset(doc, markers, from) == at,
        marker_from(doc, markers, from),
{
}

/// Finds the least offset from `from` on at which one of `markers` stands
/// in `doc`, however the markers are ordered.
pub fn find_earliest(doc: &[char], markers: &Vec<Vec<char>>, from: usize) -> (r: Option<usize>)
    ensures
        match r {
            Some(at) => earliest_marker(doc@, markers.deep_view(), from as int, at as int),
            None => !marker_from(doc@, markers.deep_view(), from as int),
        },
{
    let ghost ms = markers.deep_view();
    let mut best: Option<usize> = None;
    let mut m: usize = 0;
    while m < markers.len()
        invariant
            m <= markers.len(),
            ms == markers.deep_view(),
            match best {
                Some(at) => earliest_marker(doc@, ms.take(m as int), from as int, at as int),
                None => !marker_from(doc@, ms.take(m as int), from as int),
            },
        decreases markers.len() - m,
    {
        let found = find_from(doc, markers[m].as_slice(), from);
        proof {
            let before = ms.take(m as int);
            let after = ms.take(m + 1);
            assert(ms[m as int] == markers[m as int]@);
            assert(after[m as int] == ms[m as int]);
            assert forall|j: int| #[trigger] marker_at(doc@, after, j) implies marker_at(
                doc@,
                before,
                j,
            ) || occurs_at(doc@, ms[m as int], j) by {
                let k = choose|k: int| 0 <= k < after.len() && occurs_at(doc@, #[trigger] after[k], j);
                if k < m {
                    assert(before[k] == after[k]);
                }
            }
            assert forall|j: int| #[trigger] marker_at(doc@, before, j) implies marker_at(
                doc@,
                after,
                j,
            ) by {
                let k = choose|k: int|
                    0 <= k < before.len() && occurs_at(doc@, #[trigger] before[k], j);
                assert(after[k] == before[k]);
            }
        }
        match found {
            Some(at) => {
                let better = match best {
                    Some(b) => at < b,
                    None => true,
                };
                if better {
                    best = Some(at);
                }
            },
            None => {},
        }
        m += 1;
    }
    assert(ms.take(m as int) =~= ms);
    best
}

/// Where the region starts: at the earliest start marker.
pub open spec fn region_start(doc: Seq<char>, starts: Seq<Seq<char>>) -> int {
    earliest_offset(doc, starts, 0)
}

/// Where the region ends: at the earliest end marker behind the start.
pub open spec fn region_end(doc: Seq<char>, starts: Seq<Seq<char>>, ends: Seq<Seq<char>>) -> int {
    earliest_offset(doc, ends, region_start(doc, starts) + 1)
}

/// Both sides of the region can be found: a start marker stands in the
/// document, and an end marker stands behind the earliest start.
pub open spec fn resolves(doc: Seq<char>, starts: Seq<Seq<char>>, ends: Seq<Seq<char>>) -> bool {
    &&& marker_from(doc, starts, 0)
    &&& marker_from(doc, ends, region_start(doc, starts) + 1)
}

/// The region of a document: from the earliest start marker, which is part
/// of it, up to the earliest end marker behind that, which is not; the
/// whole document where the markers do not resolve.
pub open spec fn region_of(doc: Seq<char>, starts: Seq<Seq<char>>, ends: Seq<Seq<char>>) -> Seq<
    char,
> {
    if resolves(doc, starts, ends) {
        doc.subrange(region_start(doc, starts), region_end(doc, starts, ends))
    } else {
        doc
    }
}

/// Finds the offsets between which the region lies, if the markers resolve.
pub fn region_bounds(doc: &[char], starts: &Vec<Vec<char>>, ends: &Vec<Vec<char>>) -> (r: Option<
    (usize, usize),
>)
    ensures
        r is Some == resolves(doc@, starts.deep_view(), ends.deep_view()),
        r matches Some((s, e)) ==> {
            &&& s == region_start(doc@, starts.deep_view())
            &&& e == region_end(doc@, starts.deep_view(), ends.deep_view())
            &&& s < e <= doc@.len()
        },
{
    let s = match find_earliest(doc, starts, 0) {
        Some(s) => s,
        None => {
            return None;
        },
    };
    proof {
        lemma_earliest_is_unique(doc@, starts.deep_view(), 0, s as int);
    }
    if s >= doc.len() {
        return None;
    }
    match find_earliest(doc, ends, s + 1) {
        Some(e) => {
            proof {
                lemma_earliest_is_unique(doc@, ends.deep_view(), s + 1, e as int);
            }
            Some((s, e))
        },
        None => None,
    }
}

/// Cuts the region out of the characters of a document.
pub fn region_chars<'a>(doc: &'a [char], starts: &Vec<Vec<char>>, ends: &Vec<Vec<char>>) -> (r:
    &'a [char])
    ensures
        r@ == region_of(doc@, starts.deep_view(), ends.deep_view()),
{
    match region_bounds(doc, starts, ends) {
        Some((s, e)) => slice_subrange(doc, s, e),
        None => doc,
    }
}

/// The spellings that may open a region, and those that may close it.
pub struct MarkerSet {
    pub starts: Vec<String>,
    pub ends: Vec<String>,
}

/// The code under test, as it was cut out of a document.
pub struct Region {
    /// The text of the region.
    pub text: String,
    /// Whether the markers were found. Where they were not, `text` is the
    /// whole document.
    pub resolved: bool,
}

impl MarkerSet {
    /// A marker set of the given spellings.
    pub fn new(starts: Vec<String>, ends: Vec<String>) -> (m: MarkerSet)
        ensures
            m.starts == starts,
            m.ends == ends,
    {
        MarkerSet { starts, ends }
    }

    /// The spellings that may open a region.
    pub open spec fn start_texts(&self) -> Seq<Seq<char>> {
        self.starts.deep_view()
    }

    /// The spellings that may close a region.
    pub open spec fn end_texts(&self) -> Seq<Seq<char>> {
        self.ends.deep_view()
    }

    /// Cuts the region that the markers delimit out of the characters of a
    /// document.
    pub fn cut<'a>(&self, doc: &'a [char]) -> (r: &'a [char])
        ensures
            r@ == region_of(doc@, self.start_texts(), self.end_texts()),
    {
        let starts = char_lists(&self.starts);
        let ends = char_lists(&self.ends);
        region_chars(doc, &starts, &ends)
    }
}

/// The characters of each of the strings.
pub fn char_lists(strings: &Vec<String>) -> (r: Vec<Vec<char>>)
    ensures
        r.deep_view() == strings.deep_view(),
{
    let mut r: Vec<Vec<char>> = Vec::new();
    let mut i: usize = 0;
    while i < strings.len()
        invariant
            i <= strings.len(),
            r.len() == i,
            forall|k: int| 0 <= k < i ==> (#[trigger] r[k])@ == strings[k]@,
        decreases strings.len() - i,
    {
        r.push(chars_of(strings[i].as_str()));
        i += 1;
    }
    assert forall|k: int| 0 <= k < r.len() implies r.deep_view()[k] == strings.deep_view()[k] by {
        assert(r[k].deep_view() =~= r[k]@);
    }
    assert(r.deep_view() =~= strings.deep_view());
    r
}

/// Cuts the region that `markers` delimit out of `doc`.
///
/// The region starts at the earliest place at which any start marker
/// stands, and ends before the earliest place behind it at which any end
/// marker stands. Where no start marker stands in the document, or no end
/// marker behind the start, the region is the whole document and
/// `resolved` is false. Offsets are counted in characters, so markers and
/// text may hold any character.
pub fn extract(doc: &str, markers: &MarkerSet) -> (r: Region)
    ensures
        r.text@ == region_of(doc@, markers.start_texts(), markers.end_texts()),
        r.resolved == resolves(doc@, markers.start_texts(), markers.end_texts()),
{
    let d = chars_of(doc);
    let starts = char_lists(&markers.starts);
    let ends = char_lists(&markers.ends);
    match region_bounds(d.as_slice(), &starts, &ends) {
        Some((s, e)) => Region { text: doc.substring_char(s, e).to_owned(), resolved: true },
        None => Region { text: doc.to_owned(), resolved: false },
    }
}

/// Two lists of markers hold the same spellings, in whatever order and
/// however often.
pub open spec fn same_spellings(a: Seq<Seq<char>>, b: Seq<Seq<char>>) -> bool {
    &&& forall|i: int| 0 <= i < a.len() ==> b.contains(#[trigger] a[i])
    &&& forall|j: int| 0 <= j < b.len() ==> a.contains(#[trigger] b[j])
}

proof fn lemma_same_spellings_same_places(
    doc: Seq<char>,
    a: Seq<Seq<char>>,
    b: Seq<Seq<char>>,
    from: int,
)
    requires
        same_spellings(a, b),
    ensures
        forall|at: int| marker_at(doc, a, at) == marker_at(doc, b, at),
        marker_from(doc, a, from) == marker_from(doc, b, from),
        marker_from(doc, a, from) ==> earliest_offset(doc, a, from) == earliest_offset(
            doc,
            b,
            from,
        ),
{
    assert forall|at: int| marker_at(doc, a, at) == marker_at(doc, b, at) by {
        if marker_at(doc, a, at) {
            let m = choose|m: int| 0 <= m < a.len() && occurs_at(doc, #[trigger] a[m], at);
            assert(b.contains(a[m]));
            let n = choose|n: int| 0 <= n < b.len() && b[n] == a[m];
            assert(occurs_at(doc, b[n], at));
        }
        if marker_at(doc, b, at) {
            let n = choose|n: int| 0 <= n < b.len() && occurs_at(doc, #[trigger] b[n], at);
            assert(a.contains(b[n]));
            let m = choose|m: int| 0 <= m < a.len() && a[m] == b[n];
            assert(occurs_at(doc, a[m], at));
        }
    }
    if marker_from(doc, a, from) {
        let at = choose|at: int| from <= at && marker_at(doc, a, at);
        lemma_earliest_exists(doc, a, from, at);
        let first = earliest_offset(doc, a, from);
        assert(earliest_marker(doc, b, from, first));
        lemma_earliest_is_unique(doc, b, from, first);
    }
}

/// The order in which the spellings of a marker are listed does not
/// matter: the earliest place at which any of them stands delimits the
/// region.
pub proof fn lemma_order_of_markers_is_irrelevant(
    doc: Seq<char>,
    starts: Seq<Seq<char>>,
    ends: Seq<Seq<char>>,
    other_starts: Seq<Seq<char>>,
    other_ends: Seq<Seq<char>>,
)
    requires
        same_spellings(starts, other_starts),
        same_spellings(ends, other_ends),
    ensures
        region_of(doc, starts, ends) == region_of(doc, other_starts, other_ends),
        resolves(doc, starts, ends) == resolves(doc, other_starts, other_ends),
{
    lemma_same_spellings_same_places(doc, starts, other_starts, 0);
    assert(same_spellings(other_starts, starts));
    lemma_same_spellings_same_places(doc, other_starts, starts, 0);
    if marker_from(doc, starts, 0) {
        let s = region_start(doc, starts);
        assert(s == region_start(doc, other_starts));
        lemma_same_spellings_same_places(doc, ends, other_ends, s + 1);
    }
}

/// A document in which no start marker stands, or no end marker, is its own
/// region.
pub proof fn lemma_no_markers_whole_document(
    doc: Seq<char>,
    starts: Seq<Seq<char>>,
    ends: Seq<Seq<char>>,
)
    requires
        !marker_from(doc, starts, 0) || !marker_from(doc, ends, 0),
    ensures
        region_of(doc, starts, ends) == doc,
        !resolves(doc, starts, ends),
{
    if marker_from(doc, ends, region_start(doc, starts) + 1) {
        let at = choose|at: int|
            region_start(doc, starts) + 1 <= at && marker_at(doc, ends, at);
        assert(marker_at(doc, ends, at) ==> 0 <= at);
    }
}

/// A region is never longer than its document, and a region that was cut
/// out is not empty.
pub proof fn lemma_region_within_document(
    doc: Seq<char>,
    starts: Seq<Seq<char>>,
    ends: Seq<Seq<char>>,
)
    ensures
        region_of(doc, starts, ends).len() <= doc.len(),
        resolves(doc, starts, ends) ==> 0 < region_of(doc, starts, ends).len(),
{
    if resolves(doc, starts, ends) {
        let s = region_start(doc, starts);
        let at = choose|at: int| 0 <= at && marker_at(doc, starts, at);
        lemma_earliest_exists(doc, starts, 0, at);
        let e0 = choose|at: int| s + 1 <= at && marker_at(doc, ends, at);
        lemma_earliest_exists(doc, ends, s + 1, e0);
    }
}

/// Where a marker stands from `from` on, a least such offset exists.
pub proof fn lemma_earliest_exists(doc: Seq<char>, markers: Seq<Seq<char>>, from: int, at: int)
    requires
        from <= at,
        marker_at(doc, markers, at),
    ensures
        earliest_marker(doc, markers, from, earliest_offset(doc, markers, from)),
        from <= earliest_offset(doc, markers, from) <= at,
    decreases at - from,
{
    if exists|j: int| from <= j < at && marker_at(doc, markers, j) {
        let j = choose|j: int| from <= j < at && marker_at(doc, markers, j);
        lemma_earliest_exists(doc, markers, from, j);
    } else {
        assert(earliest_marker(doc, markers, from, at));
    }
}

} // verus!
