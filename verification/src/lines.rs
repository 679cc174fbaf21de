//! Lines of a text, and which of them are commented out.
//!
//! Only single-line comments are recognised: a line is commented out when the
//! first thing on it, after white space, is `//`. Block comments are not
//! handled, and a pattern is looked for as a plain substring of a line.

use vstd::prelude::*;
use vstd::slice::{slice_subrange, slice_to_vec};
use crate::text::{
    occurs_at, contains, count_matches, contains_chars, count_occurrences, chars_of,
    lemma_count_bound,
};

verus! {

/// White space as Unicode defines it (the property `White_Space`).
pub open spec fn is_space(c: char) -> bool {
    let n = c as u32;
    ||| 0x09 <= n <= 0x0D
    ||| n == 0x20
    ||| n == 0x85
    ||| n == 0xA0
    ||| n == 0x1680
    ||| 0x2000 <= n <= 0x200A
    ||| n == 0x2028
    ||| n == 0x2029
    ||| n == 0x202F
    ||| n == 0x205F
    ||| n == 0x3000
}

/// Tells whether `c` is white space.
pub fn is_whitespace(c: char) -> (b: bool)
    ensures
        b == is_space(c),
{
    let n: u32 = c as u32;
    (0x09 <= n && n <= 0x0D) || n == 0x20 || n == 0x85 || n == 0xA0 || n == 0x1680 || (0x2000 <= n
        && n <= 0x200A) || n == 0x2028 || n == 0x2029 || n == 0x202F || n == 0x205F || n == 0x3000
}

/// The offset of the first character from `i` on that is no white space, or
/// the length of `s` where only white space follows.
pub open spec fn skip_space(s: Seq<char>, i: int) -> int
    decreases s.len() - i,
{
    if 0 <= i < s.len() && is_space(s[i]) {
        skip_space(s, i + 1)
    } else {
        i
    }
}

/// `s` without its leading white space.
pub open spec fn trim_start(s: Seq<char>) -> Seq<char> {
    s.subrange(skip_space(s, 0), s.len() as int)
}

/// The length of what is left of the first `n` characters of `s` once the
/// white space at their end is taken away.
pub open spec fn drop_space(s: Seq<char>, n: int) -> int
    decreases n,
{
    if 0 < n <= s.len() && is_space(s[n - 1]) {
        drop_space(s, n - 1)
    } else {
        n
    }
}

/// `s` without the white space at its start and at its end.
pub open spec fn trim(s: Seq<char>) -> Seq<char> {
    let from = skip_space(s, 0);
    let to = drop_space(s, s.len() as int);
    if from < to {
        s.subrange(from, to)
    } else {
        Seq::empty()
    }
}

/// The token that opens a single-line comment.
pub open spec fn comment_token() -> Seq<char> {
    seq!['/', '/']
}

/// A line is commented out when its trimmed form starts with the comment
/// token. Trimming the end of the line cannot take a character of the token
/// away, so only the leading white space matters.
pub open spec fn is_commented(line: Seq<char>) -> bool {
    occurs_at(trim_start(line), comment_token(), 0)
}

/// `skip_space` stays within the text.
pub proof fn lemma_skip_space_bounds(s: Seq<char>, i: int)
    requires
        0 <= i <= s.len(),
    ensures
        i <= skip_space(s, i) <= s.len(),
    decreases s.len() - i,
{
    if i < s.len() && is_space(s[i]) {
        lemma_skip_space_bounds(s, i + 1);
    }
}

/// `drop_space` stays within the text, and does not go past a character
/// that is no white space.
pub proof fn lemma_drop_space_bounds(s: Seq<char>, n: int, k: int)
    requires
        0 <= k <= n <= s.len(),
        k > 0 ==> !is_space(s[k - 1]),
    ensures
        k <= drop_space(s, n) <= n,
    decreases n,
{
    if k < n && is_space(s[n - 1]) {
        lemma_drop_space_bounds(s, n - 1, k);
    }
}

/// Whether a line is commented out can be read off its trimmed form: it is
/// commented out exactly when that form starts with the comment token.
pub proof fn lemma_commented_by_trimmed_form(line: Seq<char>)
    ensures
        is_commented(line) == occurs_at(trim(line), comment_token(), 0),
{
    let from = skip_space(line, 0);
    let to = drop_space(line, line.len() as int);
    lemma_skip_space_bounds(line, 0);
    lemma_drop_space_bounds(line, line.len() as int, 0);
    let start = trim_start(line);
    if is_commented(line) {
        assert(start.subrange(0, 2) == comment_token());
        assert(start.subrange(0, 2)[0] == '/' && start.subrange(0, 2)[1] == '/');
        assert(line[from] == start[0] && line[from + 1] == start[1]);
        assert(!is_space('/'));
        lemma_drop_space_bounds(line, line.len() as int, from + 2);
        assert(trim(line).subrange(0, 2) =~= comment_token());
    }
    if occurs_at(trim(line), comment_token(), 0) {
        let t = trim(line);
        assert(t.subrange(0, 2) == comment_token());
        assert(t.subrange(0, 2)[0] == '/' && t.subrange(0, 2)[1] == '/');
        assert(t[0] == line[from] && t[1] == line[from + 1]);
        assert(start.subrange(0, 2) =~= comment_token());
    }
}

/// Takes the white space at the start and at the end of `s` away.
pub fn trim_chars(s: &[char]) -> (r: &[char])
    ensures
        r@ == trim(s@),
{
    let mut from: usize = 0;
    while from < s.len() && is_whitespace(s[from])
        invariant
            from <= s.len(),
            skip_space(s@, from as int) == skip_space(s@, 0),
        decreases s.len() - from,
    {
        from += 1;
    }
    let mut to: usize = s.len();
    while to > 0 && is_whitespace(s[to - 1])
        invariant
            to <= s.len(),
            drop_space(s@, to as int) == drop_space(s@, s@.len() as int),
        decreases to,
    {
        to -= 1;
    }
    if from < to {
        slice_subrange(s, from, to)
    } else {
        slice_subrange(s, 0, 0)
    }
}

/// Tells whether a line is commented out.
pub fn is_comment_line(line: &[char]) -> (b: bool)
    ensures
        b == is_commented(line@),
{
    let mut i: usize = 0;
    while i < line.len() && is_whitespace(line[i])
        invariant
            i <= line.len(),
            skip_space(line@, i as int) == skip_space(line@, 0),
        decreases line.len() - i,
    {
        i += 1;
    }
    let ghost rest = trim_start(line@);
    assert(skip_space(line@, 0) == i);
    if line.len() - i < 2 {
        return false;
    }
    assert(rest[0] == line@[i as int]);
    assert(rest[1] == line@[i + 1]);
    let b = line[i] == '/' && line[i + 1] == '/';
    if b {
        assert(rest.subrange(0, 2) =~= comment_token());
    } else {
        assert(rest.subrange(0, 2)[0] == rest[0]);
        assert(rest.subrange(0, 2)[1] == rest[1]);
    }
    b
}

/// The line that spans `[start, end)` of `s` and is closed by a line feed at
/// `end`: a carriage return directly before the line feed belongs to the
/// line ending, not to the line.
pub open spec fn closed_line(s: Seq<char>, start: int, end: int) -> Seq<char> {
    if start < end && s[end - 1] == '\r' {
        s.subrange(start, end - 1)
    } else {
        s.subrange(start, end)
    }
}

/// The lines of `s` from the one that starts at `start` on, `i` being how far
/// that line has been read. Lines end at a line feed; the last line needs
/// none, and a text that ends in a line feed has no empty line after it.
pub open spec fn lines_from(s: Seq<char>, start: int, i: int) -> Seq<Seq<char>>
    decreases s.len() - i,
{
    if i < 0 || i >= s.len() {
        if 0 <= start < s.len() {
            seq![s.subrange(start, s.len() as int)]
        } else {
            Seq::empty()
        }
    } else if s[i] == '\n' {
        seq![closed_line(s, start, i)] + lines_from(s, i + 1, i + 1)
    } else {
        lines_from(s, start, i + 1)
    }
}

/// The lines of a text.
pub open spec fn lines(s: Seq<char>) -> Seq<Seq<char>> {
    lines_from(s, 0, 0)
}

/// The line is not commented out and holds `pat` as a substring.
pub open spec fn line_shows(line: Seq<char>, pat: Seq<char>) -> bool {
    !is_commented(line) && contains(line, pat)
}

/// One of the lines `ls` shows `pat`.
pub open spec fn some_line_shows(ls: Seq<Seq<char>>, pat: Seq<char>) -> bool {
    exists|k: int| 0 <= k < ls.len() && line_shows(#[trigger] ls[k], pat)
}

/// `pat` is live in `text`: at least one line that is not commented out
/// holds it as a substring.
pub open spec fn live(text: Seq<char>, pat: Seq<char>) -> bool {
    some_line_shows(lines(text), pat)
}

proof fn lemma_shows_split(first: Seq<char>, rest: Seq<Seq<char>>, pat: Seq<char>)
    ensures
        some_line_shows(seq![first] + rest, pat) == (line_shows(first, pat) || some_line_shows(
            rest,
            pat,
        )),
{
    let all = seq![first] + rest;
    if line_shows(first, pat) {
        assert(all[0] == first);
    }
    if some_line_shows(rest, pat) {
        let k = choose|k: int| 0 <= k < rest.len() && line_shows(#[trigger] rest[k], pat);
        assert(all[k + 1] == rest[k]);
    }
    if some_line_shows(all, pat) {
        let k = choose|k: int| 0 <= k < all.len() && line_shows(#[trigger] all[k], pat);
        if k > 0 {
            assert(rest[k - 1] == all[k]);
        }
    }
}

/// The line is not commented out, holds `pat` and does not hold `excuse`.
pub open spec fn line_shows_bare(line: Seq<char>, pat: Seq<char>, excuse: Seq<char>) -> bool {
    line_shows(line, pat) && !contains(line, excuse)
}

/// One of the lines `ls` shows `pat` without `excuse` beside it.
pub open spec fn some_line_shows_bare(ls: Seq<Seq<char>>, pat: Seq<char>, excuse: Seq<char>)
    -> bool {
    exists|k: int| 0 <= k < ls.len() && line_shows_bare(#[trigger] ls[k], pat, excuse)
}

/// `pat` is live in `text` on a line that does not hold `excuse`: at least
/// one line that is not commented out holds `pat` as a substring and does
/// not hold `excuse`.
pub open spec fn live_without(text: Seq<char>, pat: Seq<char>, excuse: Seq<char>) -> bool {
    some_line_shows_bare(lines(text), pat, excuse)
}

proof fn lemma_bare_split(
    first: Seq<char>,
    rest: Seq<Seq<char>>,
    pat: Seq<char>,
    excuse: Seq<char>,
)
    ensures
        some_line_shows_bare(seq![first] + rest, pat, excuse) == (line_shows_bare(
            first,
            pat,
            excuse,
        ) || some_line_shows_bare(rest, pat, excuse)),
{
    let all = seq![first] + rest;
    if line_shows_bare(first, pat, excuse) {
        assert(all[0] == first);
    }
    if some_line_shows_bare(rest, pat, excuse) {
        let k = choose|k: int|
            0 <= k < rest.len() && line_shows_bare(#[trigger] rest[k], pat, excuse);
        assert(all[k + 1] == rest[k]);
    }
    if some_line_shows_bare(all, pat, excuse) {
        let k = choose|k: int| 0 <= k < all.len() && line_shows_bare(#[trigger] all[k], pat, excuse);
        if k > 0 {
            assert(rest[k - 1] == all[k]);
        }
    }
}

/// A pattern that is live without its excuse is live.
pub proof fn lemma_live_without_is_live(text: Seq<char>, pat: Seq<char>, excuse: Seq<char>)
    requires
        live_without(text, pat, excuse),
    ensures
        live(text, pat),
{
    let ls = lines(text);
    let k = choose|k: int| 0 <= k < ls.len() && line_shows_bare(#[trigger] ls[k], pat, excuse);
    assert(line_shows(ls[k], pat));
}

/// An excuse that stands on no live line excuses nothing: a pattern that
/// is live is then live without it. An excuse in a comment does not count.
pub proof fn lemma_excuse_must_be_live(text: Seq<char>, pat: Seq<char>, excuse: Seq<char>)
    requires
        live(text, pat),
        !live(text, excuse),
    ensures
        live_without(text, pat, excuse),
{
    let ls = lines(text);
    let k = choose|k: int| 0 <= k < ls.len() && line_shows(#[trigger] ls[k], pat);
    if contains(ls[k], excuse) {
        assert(line_shows(ls[k], excuse));
    }
    assert(line_shows_bare(ls[k], pat, excuse));
}

/// How many times the lines `ls` that are not commented out hold `pat`,
/// line by line and without overlap.
pub open spec fn live_count(ls: Seq<Seq<char>>, pat: Seq<char>) -> nat
    decreases ls.len(),
{
    if ls.len() == 0 {
        0
    } else {
        line_count(ls[0], pat) + live_count(ls.drop_first(), pat)
    }
}

/// How many times a line holds `pat`, none if it is commented out.
pub open spec fn line_count(line: Seq<char>, pat: Seq<char>) -> nat {
    if is_commented(line) {
        0
    } else {
        count_matches(line, pat)
    }
}

/// How many times `pat` stands on the live lines of `text`.
pub open spec fn live_occurrences(text: Seq<char>, pat: Seq<char>) -> nat {
    live_count(lines(text), pat)
}

proof fn lemma_count_split(first: Seq<char>, rest: Seq<Seq<char>>, pat: Seq<char>)
    ensures
        live_count(seq![first] + rest, pat) == line_count(first, pat) + live_count(rest, pat),
{
    let all = seq![first] + rest;
    assert(all.drop_first() =~= rest);
}

/// A stretch of a text without a line feed in it.
pub open spec fn stretch(s: Seq<char>, from: int, to: int) -> bool {
    &&& 0 <= from <= to <= s.len()
    &&& forall|j: int| from <= j < to ==> s[j] != '\n'
}

/// Every line is a stretch of its text: it holds no line feed, and what
/// stands on it stands in the text.
pub proof fn lemma_lines_are_stretches(s: Seq<char>, start: int, i: int, k: int)
    requires
        stretch(s, start, i),
        0 <= k < lines_from(s, start, i).len(),
    ensures
        exists|from: int, to: int|
            start <= from && #[trigger] stretch(s, from, to) && lines_from(s, start, i)[k]
                == s.subrange(from, to),
    decreases s.len() - i,
{
    if i >= s.len() {
        assert(stretch(s, start, s.len() as int));
    } else if s[i] == '\n' {
        let rest = lines_from(s, i + 1, i + 1);
        if k == 0 {
            if start < i && s[i - 1] == '\r' {
                assert(stretch(s, start, i - 1));
            } else {
                assert(stretch(s, start, i));
            }
        } else {
            assert(stretch(s, i + 1, i + 1));
            lemma_lines_are_stretches(s, i + 1, i + 1, k - 1);
            assert(lines_from(s, start, i)[k] == rest[k - 1]);
        }
    } else {
        assert(stretch(s, start, i + 1));
        lemma_lines_are_stretches(s, start, i + 1, k);
    }
}

/// A pattern that is live in a text stands in the text.
pub proof fn lemma_live_stands_in_text(text: Seq<char>, pat: Seq<char>)
    requires
        live(text, pat),
    ensures
        contains(text, pat),
{
    let ls = lines(text);
    let k = choose|k: int| 0 <= k < ls.len() && line_shows(#[trigger] ls[k], pat);
    assert(stretch(text, 0, 0));
    lemma_lines_are_stretches(text, 0, 0, k);
    let (from, to) = choose|from: int, to: int|
        0 <= from && #[trigger] stretch(text, from, to) && ls[k] == text.subrange(from, to);
    let at = choose|at: int| occurs_at(ls[k], pat, at);
    assert(text.subrange(from + at, from + at + pat.len()) =~= ls[k].subrange(
        at,
        at + pat.len(),
    ));
    assert(occurs_at(text, pat, from + at));
}

/// A pattern that holds a line feed is never live: no line holds one.
pub proof fn lemma_pattern_across_lines_is_not_live(text: Seq<char>, pat: Seq<char>, n: int)
    requires
        0 <= n < pat.len(),
        pat[n] == '\n',
    ensures
        !live(text, pat),
{
    let ls = lines(text);
    if live(text, pat) {
        let k = choose|k: int| 0 <= k < ls.len() && line_shows(#[trigger] ls[k], pat);
        assert(stretch(text, 0, 0));
        lemma_lines_are_stretches(text, 0, 0, k);
        let (from, to) = choose|from: int, to: int|
            0 <= from && #[trigger] stretch(text, from, to) && ls[k] == text.subrange(from, to);
        let at = choose|at: int| occurs_at(ls[k], pat, at);
        assert(ls[k].subrange(at, at + pat.len())[n] == pat[n]);
        assert(ls[k][at + n] == text[from + at + n]);
    }
}

/// A pattern that stands only on commented-out lines is not live.
pub proof fn lemma_commented_only_is_not_live(text: Seq<char>, pat: Seq<char>)
    requires
        forall|k: int|
            0 <= k < lines(text).len() && contains(#[trigger] lines(text)[k], pat)
                ==> is_commented(lines(text)[k]),
    ensures
        !live(text, pat),
{
}

/// A pattern that stands on a line which is not commented out is live, also
/// where it stands in a comment elsewhere.
pub proof fn lemma_uncommented_is_live(text: Seq<char>, pat: Seq<char>, k: int)
    requires
        0 <= k < lines(text).len(),
        contains(lines(text)[k], pat),
        !is_commented(lines(text)[k]),
    ensures
        live(text, pat),
{
}

/// Tells whether a single line shows `pat`.
pub fn line_shows_pattern(line: &[char], pat: &[char]) -> (b: bool)
    ensures
        b == line_shows(line@, pat@),
{
    !is_comment_line(line) && contains_chars(line, pat)
}

/// Tells whether `pat` is live in `text`.
pub fn is_live_chars(text: &[char], pat: &[char]) -> (b: bool)
    ensures
        b == live(text@, pat@),
{
    let mut start: usize = 0;
    let mut i: usize = 0;
    while i < text.len()
        invariant
            start <= i <= text.len(),
            live(text@, pat@) == some_line_shows(lines_from(text@, start as int, i as int), pat@),
        decreases text.len() - i,
    {
        if text[i] == '\n' {
            let end: usize = if start < i && text[i - 1] == '\r' {
                i - 1
            } else {
                i
            };
            let line = slice_subrange(text, start, end);
            proof {
                lemma_shows_split(
                    closed_line(text@, start as int, i as int),
                    lines_from(text@, i + 1, i + 1),
                    pat@,
                );
            }
            if line_shows_pattern(line, pat) {
                return true;
            }
            start = i + 1;
        }
        i += 1;
    }
    if start < text.len() {
        let line = slice_subrange(text, start, text.len());
        proof {
            lemma_shows_split(line@, Seq::empty(), pat@);
            assert(seq![line@] + Seq::<Seq<char>>::empty() =~= seq![line@]);
        }
        line_shows_pattern(line, pat)
    } else {
        false
    }
}

/// Counts the places on one line at which `pat` stands, none if the line is
/// commented out.
pub fn count_on_line(line: &[char], pat: &[char]) -> (n: usize)
    ensures
        n == line_count(line@, pat@),
        n <= line@.len(),
{
    proof {
        lemma_count_bound(line@, pat@, 0);
    }
    if is_comment_line(line) {
        0
    } else {
        count_occurrences(line, pat)
    }
}

/// Counts the places on the live lines of `text` at which `pat` stands.
pub fn count_live_chars(text: &[char], pat: &[char]) -> (n: usize)
    ensures
        n == live_occurrences(text@, pat@),
{
    let mut n: usize = 0;
    let mut start: usize = 0;
    let mut i: usize = 0;
    while i < text.len()
        invariant
            start <= i <= text.len(),
            n <= start,
            n + live_count(lines_from(text@, start as int, i as int), pat@) == live_occurrences(
                text@,
                pat@,
            ),
        decreases text.len() - i,
    {
        if text[i] == '\n' {
            let end: usize = if start < i && text[i - 1] == '\r' {
                i - 1
            } else {
                i
            };
            let line = slice_subrange(text, start, end);
            proof {
                lemma_count_split(
                    closed_line(text@, start as int, i as int),
                    lines_from(text@, i + 1, i + 1),
                    pat@,
                );
            }
            n += count_on_line(line, pat);
            start = i + 1;
        }
        i += 1;
    }
    if start < text.len() {
        let line = slice_subrange(text, start, text.len());
        proof {
            lemma_count_split(line@, Seq::empty(), pat@);
            assert(seq![line@] + Seq::<Seq<char>>::empty() =~= seq![line@]);
        }
        n += count_on_line(line, pat);
    }
    n
}

/// Splits a text into its lines.
pub fn line_list(text: &[char]) -> (r: Vec<Vec<char>>)
    ensures
        r.deep_view() == lines(text@),
{
    let mut r: Vec<Vec<char>> = Vec::new();
    let mut start: usize = 0;
    let mut i: usize = 0;
    assert(r.deep_view() =~= Seq::<Seq<char>>::empty());
    while i < text.len()
        invariant
            start <= i <= text.len(),
            r.deep_view() + lines_from(text@, start as int, i as int) == lines(text@),
        decreases text.len() - i,
    {
        if text[i] == '\n' {
            let end: usize = if start < i && text[i - 1] == '\r' {
                i - 1
            } else {
                i
            };
            let line = slice_to_vec(slice_subrange(text, start, end));
            let ghost before = r.deep_view();
            let ghost rest = lines_from(text@, i + 1, i + 1);
            r.push(line);
            assert(line.deep_view() =~= line@);
            assert(r.deep_view() =~= before.push(closed_line(text@, start as int, i as int)));
            assert(before.push(closed_line(text@, start as int, i as int)) + rest =~= before + (
            seq![closed_line(text@, start as int, i as int)] + rest));
            start = i + 1;
        }
        i += 1;
    }
    if start < text.len() {
        let line = slice_to_vec(slice_subrange(text, start, text.len()));
        let ghost before = r.deep_view();
        r.push(line);
        assert(line.deep_view() =~= line@);
        assert(r.deep_view() =~= before + seq![line@]);
    } else {
        assert(r.deep_view() + Seq::<Seq<char>>::empty() =~= r.deep_view());
    }
    r
}

/// Tells whether `pat` is live in `text` on a line that does not hold
/// `excuse`.
pub fn is_live_without_chars(text: &[char], pat: &[char], excuse: &[char]) -> (b: bool)
    ensures
        b == live_without(text@, pat@, excuse@),
{
    let mut start: usize = 0;
    let mut i: usize = 0;
    while i < text.len()
        invariant
            start <= i <= text.len(),
            live_without(text@, pat@, excuse@) == some_line_shows_bare(
                lines_from(text@, start as int, i as int),
                pat@,
                excuse@,
            ),
        decreases text.len() - i,
    {
        if text[i] == '\n' {
            let end: usize = if start < i && text[i - 1] == '\r' {
                i - 1
            } else {
                i
            };
            let line = slice_subrange(text, start, end);
            proof {
                lemma_bare_split(
                    closed_line(text@, start as int, i as int),
                    lines_from(text@, i + 1, i + 1),
                    pat@,
                    excuse@,
                );
            }
            if line_shows_pattern(line, pat) && !contains_chars(line, excuse) {
                return true;
            }
            start = i + 1;
        }
        i += 1;
    }
    if start < text.len() {
        let line = slice_subrange(text, start, text.len());
        proof {
            lemma_bare_split(line@, Seq::empty(), pat@, excuse@);
            assert(seq![line@] + Seq::<Seq<char>>::empty() =~= seq![line@]);
        }
        line_shows_pattern(line, pat) && !contains_chars(line, excuse)
    } else {
        false
    }
}

/// Tells whether `pattern` is live in the characters `text` on a line that
/// does not hold `excuse`.
pub fn live_without_in(text: &[char], pattern: &str, excuse: &str) -> (b: bool)
    ensures
        b == live_without(text@, pattern@, excuse@),
{
    let p = chars_of(pattern);
    let e = chars_of(excuse);
    is_live_without_chars(text, p.as_slice(), e.as_slice())
}

/// Tells whether `pattern` is live in `text` on a line that does not hold
/// `excuse`: whether at least one line that is not commented out holds
/// `pattern` and not `excuse`.
pub fn is_live_without(text: &str, pattern: &str, excuse: &str) -> (b: bool)
    ensures
        b == live_without(text@, pattern@, excuse@),
{
    let t = chars_of(text);
    live_without_in(t.as_slice(), pattern, excuse)
}

/// Tells whether `pattern` is live in the characters `text`.
pub fn live_in(text: &[char], pattern: &str) -> (b: bool)
    ensures
        b == live(text@, pattern@),
{
    let p = chars_of(pattern);
    is_live_chars(text, p.as_slice())
}

/// Counts the places on the live lines of `text` at which `pattern` stands:
/// commented-out lines count for nothing, and matches on one line do not
/// overlap.
pub fn count_live(text: &str, pattern: &str) -> (n: usize)
    ensures
        n == live_occurrences(text@, pattern@),
{
    let t = chars_of(text);
    let p = chars_of(pattern);
    count_live_chars(t.as_slice(), p.as_slice())
}

/// Tells whether `pattern` is live in `text`: whether at least one line of
/// `text` that is not commented out holds `pattern` as a literal substring.
/// The match is no whole-word match: `CLIENT` is also found in
/// `CLIENT_COUNT`.
pub fn is_live(text: &str, pattern: &str) -> (b: bool)
    ensures
        b == live(text@, pattern@),
{
    let t = chars_of(text);
    let p = chars_of(pattern);
    is_live_chars(t.as_slice(), p.as_slice())
}

} // verus!
