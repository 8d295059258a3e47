//! Reading the player's answer and judging it.

use vstd::prelude::*;

verus! {

/// The characters that count as blank space around an answer: those that
/// Unicode marks as `White_Space`.
pub open spec fn is_blank(c: char) -> bool {
    let n = c as u32;
    ||| 0x09 <= n <= 0x0D
    ||| n == 0x20
    ||| n == 0x85
    ||| n == 0xA0
    ||| n == 0x1680
    ||| 0x2000 <= n <= 0x200A
    ||| n == 0x2028
    ||| n == 0x2029
    ||| n == 0x202F
    ||| n == 0x205F
    ||| n == 0x3000
}

/// Tests a character for blank space.
pub fn is_blank_char(c: char) -> (blank: bool)
    ensures
        blank == is_blank(c),
{
    let n: u32 = c as u32;
    (0x09 <= n && n <= 0x0D) || n == 0x20 || n == 0x85 || n == 0xA0 || n == 0x1680 || (0x2000 <= n
        && n <= 0x200A) || n == 0x2028 || n == 0x2029 || n == 0x202F || n == 0x205F || n == 0x3000
}

/// The upper-case form of an ASCII letter; any other character is left as
/// it is.
pub open spec fn ascii_upper(c: char) -> char {
    if 'a' <= c <= 'z' {
        (c as u8 - 32) as char
    } else {
        c
    }
}

/// Folds an ASCII letter to upper case.
pub fn to_ascii_upper(c: char) -> (upper: char)
    ensures
        upper == ascii_upper(c),
{
    if 'a' <= c && c <= 'z' {
        (c as u8 - 32) as char
    } else {
        c
    }
}

/// The first character of `line` that is not blank space, which is the
/// first character of the line once blank space around it is trimmed.
pub open spec fn first_mark(line: Seq<char>) -> Option<char>
    decreases line.len(),
{
    if line.len() == 0 {
        None
    } else if !is_blank(line[0]) {
        Some(line[0])
    } else {
        first_mark(line.drop_first())
    }
}

/// Where `first_mark` finds its character: `at` is the first position of
/// `line` that holds no blank space.
pub open spec fn is_first_mark_at(line: Seq<char>, at: int) -> bool {
    &&& 0 <= at < line.len()
    &&& !is_blank(line[at])
    &&& forall|k: int| 0 <= k < at ==> is_blank(#[trigger] line[k])
}

/// A line of blank space alone has no mark.
pub proof fn lemma_blank_line_has_no_mark(line: Seq<char>)
    requires
        forall|k: int| 0 <= k < line.len() ==> is_blank(#[trigger] line[k]),
    ensures
        first_mark(line) is None,
    decreases line.len(),
{
    if line.len() > 0 {
        let rest = line.drop_first();
        assert forall|k: int| 0 <= k < rest.len() implies is_blank(#[trigger] rest[k]) by {
            assert(rest[k] == line[k + 1]);
        }
        lemma_blank_line_has_no_mark(rest);
    }
}

/// The mark of a line is the character at its first position that holds no
/// blank space.
pub proof fn lemma_first_mark_at(line: Seq<char>, at: int)
    requires
        is_first_mark_at(line, at),
    ensures
        first_mark(line) == Some(line[at]),
    decreases at,
{
    if at > 0 {
        let rest = line.drop_first();
        assert(is_blank(line[0]));
        assert forall|k: int| 0 <= k < at - 1 implies is_blank(#[trigger] rest[k]) by {
            assert(rest[k] == line[k + 1]);
        }
        assert(rest[at - 1] == line[at]);
        lemma_first_mark_at(rest, at - 1);
    }
}

/// The first character of the line that is not blank space.
pub fn first_choice(line: &str) -> (choice: Option<char>)
    ensures
        choice == first_mark(line@),
        match choice {
            Some(c) => exists|at: int| #[trigger] is_first_mark_at(line@, at) && line@[at] == c,
            None => forall|k: int| 0 <= k < line@.len() ==> is_blank(#[trigger] line@[k]),
        },
{
    let n = line.unicode_len();
    let mut i: usize = 0;
    while i < n
        invariant
            i <= n,
            n == line@.len(),
            forall|k: int| 0 <= k < i ==> is_blank(#[trigger] line@[k]),
        decreases n - i,
    {
        let c = line.get_char(i);
        if !is_blank_char(c) {
            proof {
                assert(is_first_mark_at(line@, i as int));
                lemma_first_mark_at(line@, i as int);
            }
            return Some(c);
        }
        i += 1;
    }
    proof {
        lemma_blank_line_has_no_mark(line@);
    }
    None
}

/// What an answer is worth.
#[derive(Clone, Copy, Debug, PartialEq, Eq, Structural)]
pub enum Verdict {
    /// The answer names the correct decision.
    Correct,
    /// The answer names something else.
    Incorrect,
    /// The line holds no answer: it is empty or blank.
    NoAnswer,
}

/// The verdict on an answer line: only its first mark counts, and an ASCII
/// letter counts in either case.
pub open spec fn verdict_of(line: Seq<char>, correct_decision: char) -> Verdict {
    match first_mark(line) {
        None => Verdict::NoAnswer,
        Some(c) => if ascii_upper(c) == correct_decision {
            Verdict::Correct
        } else {
            Verdict::Incorrect
        },
    }
}

/// Judges the line that the player typed against the correct decision.
pub fn judge(line: &str, correct_decision: char) -> (verdict: Verdict)
    ensures
        verdict == verdict_of(line@, correct_decision),
{
    match first_choice(line) {
        None => Verdict::NoAnswer,
        Some(c) => if to_ascii_upper(c) == correct_decision {
            Verdict::Correct
        } else {
            Verdict::Incorrect
        },
    }
}

/// The report on an answer. It is empty where there was no answer, one line
/// for a correct answer, and for an incorrect one a line that says so and a
/// line that names the correct decision.
pub open spec fn report_of(verdict: Verdict, correct_decision: char) -> Seq<Seq<char>> {
    match verdict {
        Verdict::Correct => seq!["Correct!"@],
        Verdict::Incorrect => seq![
            "Incorrect!"@,
            "Correct decision is: "@.push(correct_decision),
        ],
        Verdict::NoAnswer => seq![],
    }
}

/// The lines to print for a verdict.
pub fn report_lines(verdict: Verdict, correct_decision: char) -> (lines: Vec<String>)
    ensures
        lines.deep_view() == report_of(verdict, correct_decision),
{
    let mut lines: Vec<String> = Vec::new();
    match verdict {
        Verdict::Correct => {
            lines.push(String::from_str("Correct!"));
        },
        Verdict::Incorrect => {
            lines.push(String::from_str("Incorrect!"));
            let mut naming = String::from_str("Correct decision is: ");
            naming.push(correct_decision);
            lines.push(naming);
        },
        Verdict::NoAnswer => {},
    }
    assert(lines.deep_view() =~= report_of(verdict, correct_decision));
    lines
}

/// Only the first mark of a line counts: whatever follows it changes
/// nothing, and neither does blank space before it.
pub proof fn lemma_rest_of_line_is_ignored(
    before: Seq<char>,
    mark: char,
    rest: Seq<char>,
    correct_decision: char,
)
    requires
        forall|k: int| 0 <= k < before.len() ==> is_blank(#[trigger] before[k]),
        !is_blank(mark),
    ensures
        first_mark(before.push(mark) + rest) == Some(mark),
        verdict_of(before.push(mark) + rest, correct_decision) == verdict_of(
            seq![mark],
            correct_decision,
        ),
{
    let line = before.push(mark) + rest;
    assert(is_first_mark_at(line, before.len() as int));
    lemma_first_mark_at(line, before.len() as int);
    assert(is_first_mark_at(seq![mark], 0));
    lemma_first_mark_at(seq![mark], 0);
}

/// The case of the answer does not count: two lines whose first marks are
/// the same ASCII letter in either case get the same verdict, and a letter
/// in either case is correct where its upper-case form is the decision.
pub proof fn lemma_case_is_ignored(line1: Seq<char>, line2: Seq<char>, correct_decision: char)
    requires
        first_mark(line1) is Some,
        first_mark(line2) is Some,
        ascii_upper(first_mark(line1)->0) == ascii_upper(first_mark(line2)->0),
    ensures
        verdict_of(line1, correct_decision) == verdict_of(line2, correct_decision),
        verdict_of(line1, ascii_upper(first_mark(line1)->0)) == Verdict::Correct,
{
}

} // verus!
