//! The alphabet of decision codes.

use vstd::prelude::*;

verus! {

/// Whether `c` is one of the six decision codes: hit, stand, double down,
/// split, surrender, or the placeholder `X`.
pub open spec fn is_decision_code(c: char) -> bool {
    c == 'X' || c == 'H' || c == 'S' || c == 'D' || c == 'P' || c == 'R'
}

/// The decision code that a table cell spells, if it spells one: the cell
/// must be exactly one character long and that character must be a code.
pub open spec fn cell_code(field: Seq<char>) -> Option<char> {
    if field.len() == 1 && is_decision_code(field[0]) {
        Some(field[0])
    } else {
        None
    }
}

/// Tests a character for membership in the decision alphabet.
pub fn is_decision(c: char) -> (known: bool)
    ensures
        known == is_decision_code(c),
{
    c == 'X' || c == 'H' || c == 'S' || c == 'D' || c == 'P' || c == 'R'
}

/// Reads one table cell. Nothing is trimmed and case matters: `"S"` is a
/// code, `"s"`, `" S"`, `"SS"` and the empty cell are not.
pub fn parse_decision(field: &str) -> (code: Option<char>)
    ensures
        code == cell_code(field@),
{
    if field.unicode_len() != 1 {
        return None;
    }
    let c = field.get_char(0);
    if is_decision(c) {
        Some(c)
    } else {
        None
    }
}

} // verus!
