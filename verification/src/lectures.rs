//! Lecture and solution texts of the challenges.
//!
//! A solution file holds a fenced code block and, behind it, an
//! explanation. The code is what stands between the line of the opening
//! fence and the line of the closing one.

use vstd::prelude::*;
use vstd::slice::slice_subrange;
use crate::decimal::{decimal, u64_to_decimal};
use crate::lines::{line_list, lines, trim, trim_chars};
use crate::text::{
    chars_of, find_from, first_from, join, join_texts, occurs_at, string_of,
};

verus! {

/// The fence that opens and closes a code block.
pub open spec fn fence() -> Seq<char> {
    seq!['`', '`', '`']
}

/// The code and the explanation of a solution.
#[derive(Debug, Clone)]
pub struct Solution {
    pub code: String,
    pub explanation: String,
}

/// `open` is where the first fence of `content` stands, and `close` where
/// the first fence behind it stands.
pub open spec fn code_block(content: Seq<char>, open: int, close: int) -> bool {
    first_from(content, fence(), 0, open) && first_from(content, fence(), open + 3, close)
}

/// The content holds a code block: a fence, and a second one behind it.
pub open spec fn has_code_block(content: Seq<char>) -> bool {
    exists|open: int, close: int| code_block(content, open, close)
}

/// The code of a block that spans from its opening fence to the end of its
/// closing fence: its lines but for the first and the last one, which hold
/// the fences.
pub open spec fn code_of(block: Seq<char>) -> Seq<char> {
    let ls = lines(block);
    if ls.len() < 2 {
        Seq::empty()
    } else {
        join(ls.subrange(1, ls.len() - 1), seq!['\n'])
    }
}

/// The explanation that stands behind a block: what follows, without the
/// white space around it; a fixed sentence where nothing follows.
pub open spec fn explanation_of(rest: Seq<char>) -> Seq<char> {
    if rest.len() > 0 {
        trim(rest)
    } else {
        "Solution explanation unavailable"@
    }
}

/// Takes a solution file apart. A file without a code block holds no
/// solution.
pub fn split_solution(content: &str) -> (r: Option<Solution>)
    ensures
        r is Some == has_code_block(content@),
        r matches Some(s) ==> exists|open: int, close: int|
            {
                &&& code_block(content@, open, close)
                &&& s.code@ == code_of(content@.subrange(open, close + 3))
                &&& s.explanation@ == explanation_of(
                    content@.subrange(close + 3, content@.len() as int),
                )
            },
{
    let text = chars_of(content);
    let mark: Vec<char> = vec!['`', '`', '`'];
    assert(mark@ =~= fence());
    let open = match find_from(text.as_slice(), mark.as_slice(), 0) {
        Some(open) => open,
        None => {
            return None;
        },
    };
    assert(occurs_at(text@, mark@, open as int) && mark@.len() == 3);
    assert(open + 3 <= text.len());
    let close = match find_from(text.as_slice(), mark.as_slice(), open + 3) {
        Some(close) => close,
        None => {
            assert forall|a: int, b: int| !code_block(content@, a, b) by {
                if first_from(content@, fence(), 0, a) {
                    assert(a == open);
                }
            }
            return None;
        },
    };
    assert(code_block(content@, open as int, close as int));
    assert(occurs_at(text@, mark@, close as int));
    assert(close + 3 <= text.len());
    let block = slice_subrange(text.as_slice(), open, close + 3);
    let ls = line_list(block);
    let mut middle: Vec<String> = Vec::new();
    let mut k: usize = 1;
    assert(middle.deep_view() =~= Seq::<Seq<char>>::empty());
    while ls.len() >= 2 && k < ls.len() - 1
        invariant
            1 <= k,
            ls.len() >= 2 ==> k <= ls.len() - 1,
            ls.len() >= 2 ==> middle.deep_view() == ls.deep_view().subrange(1, k as int),
            ls.len() < 2 ==> middle.deep_view() == Seq::<Seq<char>>::empty(),
        decreases ls.len() - k,
    {
        let line = string_of(ls[k].as_slice());
        let ghost before = middle.deep_view();
        middle.push(line);
        assert(ls.deep_view()[k as int] =~= ls[k as int]@);
        assert(middle.deep_view() =~= before.push(ls[k as int]@));
        assert(ls.deep_view().subrange(1, k + 1) =~= ls.deep_view().subrange(1, k as int).push(
            ls.deep_view()[k as int],
        ));
        k += 1;
    }
    let code = join_texts(&middle, "\n");
    proof {
        reveal_strlit("\n");
        assert("\n"@ =~= seq!['\n']);
        if ls.len() < 2 {
            assert(join(Seq::<Seq<char>>::empty(), seq!['\n']) =~= Seq::<char>::empty());
        }
    }
    let rest = slice_subrange(text.as_slice(), close + 3, text.len());
    let explanation = if rest.len() > 0 {
        string_of(trim_chars(rest))
    } else {
        "Solution explanation unavailable".to_owned()
    };
    Some(Solution { code, explanation })
}

/// What stands for the code of a challenge whose solution file cannot be
/// read.
pub open spec fn missing_code(challenge_number: int) -> Seq<char> {
    "// Solution code for Challenge #"@ + decimal(challenge_number) + " unavailable"@
}

/// What stands for the explanation of a challenge whose solution file
/// cannot be read.
pub open spec fn missing_explanation(challenge_number: int) -> Seq<char> {
    "Solution explanation for Challenge #"@ + decimal(challenge_number) + " unavailable"@
}

/// What stands for a lecture that cannot be read.
pub open spec fn missing_lecture(challenge_number: int) -> Seq<char> {
    "# Lecture for Challenge #"@ + decimal(challenge_number)
        + " \n\nLecture content could not be loaded."@
}

/// Where the lecture of a challenge is kept.
pub open spec fn lecture_path_of(challenge_number: int) -> Seq<char> {
    "src/lectures/challenge"@ + decimal(challenge_number) + ".md"@
}

/// Where the solution of a challenge is kept.
pub open spec fn solution_path_of(challenge_number: int) -> Seq<char> {
    "src/lectures/challenge"@ + decimal(challenge_number) + "_solution.md"@
}

/// Gives the place where the lecture of a challenge is kept.
pub fn lecture_path(challenge_number: u64) -> (p: String)
    ensures
        p@ == lecture_path_of(challenge_number as int),
{
    "src/lectures/challenge".to_owned().concat(u64_to_decimal(challenge_number).as_str()).concat(
        ".md",
    )
}

/// Gives the place where the solution of a challenge is kept.
pub fn solution_path(challenge_number: u64) -> (p: String)
    ensures
        p@ == solution_path_of(challenge_number as int),
{
    "src/lectures/challenge".to_owned().concat(u64_to_decimal(challenge_number).as_str()).concat(
        "_solution.md",
    )
}

/// Gives the lecture of a challenge: the content of its file, or a note
/// that it could not be loaded.
pub fn load_lecture(content: Option<String>, challenge_number: u64) -> (lecture: String)
    ensures
        lecture@ == match content {
            Some(c) => c@,
            None => missing_lecture(challenge_number as int),
        },
{
    match content {
        Some(c) => c,
        None => "# Lecture for Challenge #".to_owned().concat(
            u64_to_decimal(challenge_number).as_str(),
        ).concat(" \n\nLecture content could not be loaded."),
    }
}

/// Gives the solution of a challenge whose file could not be read: a note
/// in the place of the code and of the explanation.
pub fn missing_solution(challenge_number: u64) -> (s: Solution)
    ensures
        s.code@ == missing_code(challenge_number as int),
        s.explanation@ == missing_explanation(challenge_number as int),
{
    let number = u64_to_decimal(challenge_number);
    Solution {
        code: "// Solution code for Challenge #".to_owned().concat(number.as_str()).concat(
            " unavailable",
        ),
        explanation: "Solution explanation for Challenge #".to_owned().concat(
            number.as_str(),
        ).concat(" unavailable"),
    }
}

} // verus!
