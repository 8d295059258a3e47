//! Putting lines of text together.

use vstd::prelude::*;

verus! {

/// `String::push` appends one character to the end of the string.
pub assume_specification[ String::push ](s: &mut String, c: char)
    ensures
        final(s)@ == old(s)@.push(c),
;

/// A line of fixed text around one glyph.
pub fn line_with_glyph(before: &str, glyph: char, after: &str) -> (line: String)
    ensures
        line@ == before@.push(glyph) + after@,
{
    let mut line = String::from_str(before);
    line.push(glyph);
    line.append(after);
    line
}

/// A line of fixed text around two glyphs.
pub fn line_with_glyphs(
    before: &str,
    first: char,
    between: &str,
    second: char,
    after: &str,
) -> (line: String)
    ensures
        line@ == (before@.push(first) + between@).push(second) + after@,
{
    let mut line = String::from_str(before);
    line.push(first);
    line.append(between);
    line.push(second);
    line.append(after);
    line
}

/// The character of a decimal digit.
pub open spec fn digit_glyph(d: nat) -> char {
    (48 + d) as char
}

/// The decimal numeral of `n`, without leading zeros.
pub open spec fn decimal(n: nat) -> Seq<char>
    decreases n,
{
    if n < 10 {
        seq![digit_glyph(n)]
    } else {
        decimal(n / 10).push(digit_glyph(n % 10))
    }
}

/// Appends the decimal numeral of `n` to `text`.
pub fn push_decimal(text: &mut String, n: u64)
    ensures
        final(text)@ == old(text)@ + decimal(n as nat),
    decreases n,
{
    if n >= 10 {
        push_decimal(text, n / 10);
    }
    let digit: u8 = (n % 10) as u8;
    text.push((digit + 48) as char);
    assert(final(text)@ =~= old(text)@ + decimal(n as nat));
}

} // verus!
