//! Literal substring search over sequences of characters, and the joining
//! of texts.
//!
//! A text is modelled as the sequence of its characters. Patterns are plain
//! substrings: no tokens, no word boundaries, no regular expressions.

use vstd::prelude::*;
use vstd::std_specs::iter::IteratorSpec;

verus! {

/// `pat` stands in `hay` at offset `i`.
pub open spec fn occurs_at(hay: Seq<char>, pat: Seq<char>, i: int) -> bool {
    &&& 0 <= i
    &&& i + pat.len() <= hay.len()
    &&& hay.subrange(i, i + pat.len()) == pat
}

/// `pat` stands somewhere in `hay`.
pub open spec fn contains(hay: Seq<char>, pat: Seq<char>) -> bool {
    exists|i: int| occurs_at(hay, pat, i)
}

/// `pat` stands in `hay` at some offset from `from` on.
pub open spec fn occurs_from(hay: Seq<char>, pat: Seq<char>, from: int) -> bool {
    exists|i: int| from <= i && occurs_at(hay, pat, i)
}

/// `i` is the least offset from `from` on at which `pat` stands in `hay`.
pub open spec fn first_from(hay: Seq<char>, pat: Seq<char>, from: int, i: int) -> bool {
    &&& from <= i
    &&& occurs_at(hay, pat, i)
    &&& forall|j: int| from <= j < i ==> !occurs_at(hay, pat, j)
}

/// How many times `pat` stands in `hay` from offset `from` on, counted from
/// the left without overlap: after a match the count goes on behind it.
/// An empty pattern marks no place and counts zero.
pub open spec fn count_from(hay: Seq<char>, pat: Seq<char>, from: int) -> nat
    decreases hay.len() - from,
{
    if pat.len() == 0 || from < 0 || from + pat.len() > hay.len() {
        0
    } else if occurs_at(hay, pat, from) {
        1 + count_from(hay, pat, from + pat.len())
    } else {
        count_from(hay, pat, from + 1)
    }
}

/// How many times `pat` stands in `hay`, without overlap.
pub open spec fn count_matches(hay: Seq<char>, pat: Seq<char>) -> nat {
    count_from(hay, pat, 0)
}

/// The texts `parts` in a row, with `sep` between each two of them.
pub open spec fn join(parts: Seq<Seq<char>>, sep: Seq<char>) -> Seq<char>
    decreases parts.len(),
{
    if parts.len() == 0 {
        Seq::empty()
    } else if parts.len() == 1 {
        parts[0]
    } else {
        join(parts.drop_last(), sep) + sep + parts.last()
    }
}

/// A text that is put between two others still stands in the whole.
pub proof fn lemma_contains_middle(before: Seq<char>, pat: Seq<char>, after: Seq<char>)
    ensures
        contains(before + pat + after, pat),
{
    let whole = before + pat + after;
    assert(whole.subrange(before.len() as int, (before.len() + pat.len()) as int) =~= pat);
    assert(occurs_at(whole, pat, before.len() as int));
}

/// What stands in a part of a text stands in the text.
pub proof fn lemma_contains_part(hay: Seq<char>, part: Seq<char>, pat: Seq<char>)
    requires
        contains(hay, part),
        contains(part, pat),
    ensures
        contains(hay, pat),
{
    let i = choose|i: int| occurs_at(hay, part, i);
    let j = choose|j: int| occurs_at(part, pat, j);
    assert(hay.subrange(i + j, i + j + pat.len()) =~= hay.subrange(i, i + part.len()).subrange(
        j,
        j + pat.len(),
    ));
    assert(occurs_at(hay, pat, i + j));
}

/// Each of the texts that are joined stands in the result.
pub proof fn lemma_join_contains(parts: Seq<Seq<char>>, sep: Seq<char>, k: int)
    requires
        0 <= k < parts.len(),
    ensures
        contains(join(parts, sep), parts[k]),
    decreases parts.len(),
{
    let empty = Seq::<char>::empty();
    if parts.len() == 1 {
        assert(empty + parts[0] + empty =~= parts[0]);
        lemma_contains_middle(empty, parts[0], empty);
    } else if k == parts.len() - 1 {
        let head = join(parts.drop_last(), sep) + sep;
        assert(head + parts[k] + empty =~= join(parts, sep));
        lemma_contains_middle(head, parts[k], empty);
    } else {
        let rest = parts.drop_last();
        lemma_join_contains(rest, sep, k);
        assert(rest[k] == parts[k]);
        let tail = sep + parts.last();
        assert(empty + join(rest, sep) + tail =~= join(parts, sep));
        lemma_contains_middle(empty, join(rest, sep), tail);
        lemma_contains_part(join(parts, sep), join(rest, sep), parts[k]);
    }
}

/// There are no more matches than characters to hold them.
pub proof fn lemma_count_bound(hay: Seq<char>, pat: Seq<char>, from: int)
    requires
        0 <= from <= hay.len(),
    ensures
        count_from(hay, pat, from) <= hay.len() - from,
    decreases hay.len() - from,
{
    if pat.len() == 0 || from + pat.len() > hay.len() {
    } else if occurs_at(hay, pat, from) {
        lemma_count_bound(hay, pat, from + pat.len());
    } else {
        lemma_count_bound(hay, pat, from + 1);
    }
}

/// The characters of a string, one by one.
pub fn chars_of(s: &str) -> (v: Vec<char>)
    ensures
        v@ == s@,
{
    let mut v: Vec<char> = Vec::new();
    let mut it = s.chars();
    loop
        invariant
            v@ + it.remaining() == s@,
            it.obeys_prophetic_iter_laws(),
            it.decrease() is Some,
        ensures
            v@ == s@,
        decreases it.decrease()->0,
    {
        match it.next() {
            Some(c) => {
                v.push(c);
            },
            None => {
                assert(v@ =~= s@);
                break;
            },
        }
    }
    v
}

/// Collects characters into a string: `String::from_iter` of the standard
/// library, which yields the string made of exactly these characters in
/// this order.
#[verifier::external_body]
pub(crate) fn string_of(chars: &[char]) -> (s: String)
    ensures
        s@ == chars@,
{
    String::from_iter(chars.iter())
}

/// Appends a copy of `s` to the list `v`.
pub fn push_text(v: &mut Vec<String>, s: &str)
    ensures
        final(v).deep_view() == old(v).deep_view().push(s@),
{
    v.push(s.to_owned());
    assert(final(v).deep_view() =~= old(v).deep_view().push(s@));
}

/// Tells whether two strings hold the same characters.
pub fn same_text(a: &str, b: &str) -> (r: bool)
    ensures
        r == (a@ == b@),
{
    let x = chars_of(a);
    let y = chars_of(b);
    if x.len() != y.len() {
        return false;
    }
    let mut i: usize = 0;
    while i < x.len()
        invariant
            i <= x.len(),
            x.len() == y.len(),
            x@ == a@,
            y@ == b@,
            forall|j: int| 0 <= j < i ==> x@[j] == y@[j],
        decreases x.len() - i,
    {
        if x[i] != y[i] {
            assert(a@[i as int] != b@[i as int]);
            return false;
        }
        i += 1;
    }
    assert(x@ =~= y@);
    true
}

/// Tells whether `pat` stands in `hay` at offset `i`.
pub fn matches_at(hay: &[char], pat: &[char], i: usize) -> (b: bool)
    ensures
        b == occurs_at(hay@, pat@, i as int),
{
    if pat.len() > hay.len() || i > hay.len() - pat.len() {
        return false;
    }
    let mut k: usize = 0;
    while k < pat.len()
        invariant
            k <= pat.len(),
            i + pat.len() <= hay.len(),
            forall|j: int| 0 <= j < k ==> hay@[i + j] == pat@[j],
        decreases pat.len() - k,
    {
        if hay[i + k] != pat[k] {
            assert(hay@.subrange(i as int, i + pat@.len())[k as int] != pat@[k as int]);
            return false;
        }
        k += 1;
    }
    assert(hay@.subrange(i as int, i + pat@.len()) =~= pat@);
    true
}

/// Finds the least offset from `from` on at which `pat` stands in `hay`.
pub fn find_from(hay: &[char], pat: &[char], from: usize) -> (r: Option<usize>)
    ensures
        match r {
            Some(i) => first_from(hay@, pat@, from as int, i as int),
            None => !occurs_from(hay@, pat@, from as int),
        },
{
    if pat.len() > hay.len() || from > hay.len() - pat.len() {
        return None;
    }
    let last: usize = hay.len() - pat.len();
    let mut i: usize = from;
    loop
        invariant
            from <= i <= last,
            last == hay.len() - pat.len(),
            forall|j: int| from <= j < i ==> !occurs_at(hay@, pat@, j),
        decreases last - i,
    {
        if matches_at(hay, pat, i) {
            return Some(i);
        }
        if i == last {
            return None;
        }
        i += 1;
    }
}

/// Tells whether `pat` stands somewhere in `hay`.
pub fn contains_chars(hay: &[char], pat: &[char]) -> (b: bool)
    ensures
        b == contains(hay@, pat@),
{
    find_from(hay, pat, 0).is_some()
}

/// Counts the places at which `pat` stands in `hay`, without overlap.
pub fn count_occurrences(hay: &[char], pat: &[char]) -> (n: usize)
    ensures
        n == count_matches(hay@, pat@),
{
    if pat.len() == 0 || pat.len() > hay.len() {
        return 0;
    }
    let last: usize = hay.len() - pat.len();
    let mut n: usize = 0;
    let mut i: usize = 0;
    while i <= last
        invariant
            0 < pat.len() <= hay.len(),
            last == hay.len() - pat.len(),
            i <= hay.len(),
            n <= i,
            n + count_from(hay@, pat@, i as int) == count_matches(hay@, pat@),
        decreases hay.len() - i,
    {
        if matches_at(hay, pat, i) {
            n += 1;
            i += pat.len();
        } else {
            i += 1;
        }
    }
    n
}

/// Joins `parts` with `sep` between each two of them.
pub fn join_texts(parts: &Vec<String>, sep: &str) -> (s: String)
    ensures
        s@ == join(parts.deep_view(), sep@),
{
    let mut s = String::new();
    let mut i: usize = 0;
    let ghost all = parts.deep_view();
    while i < parts.len()
        invariant
            i <= parts.len(),
            all == parts.deep_view(),
            s@ == join(all.take(i as int), sep@),
        decreases parts.len() - i,
    {
        proof {
            let before = all.take(i as int);
            let after = all.take(i + 1);
            assert(after.drop_last() =~= before);
            assert(after.last() == parts[i as int]@);
            assert(Seq::<char>::empty() + parts[i as int]@ =~= parts[i as int]@);
        }
        if i > 0 {
            s = s.concat(sep);
        }
        s = s.concat(parts[i].as_str());
        i += 1;
    }
    assert(all.take(i as int) =~= all);
    s
}

} // verus!
