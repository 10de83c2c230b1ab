//! Text that the session shows: decimal labels, message rows, and the width
//! of a line on screen.

use vstd::prelude::*;
use unicode_width::UnicodeWidthStr;

verus! {

/// The number of terminal columns that `text` occupies, as the Unicode width
/// tables of the `unicode-width` crate give it.
pub uninterp spec fn str_width(text: Seq<char>) -> usize;

/// Calls `unicode_width::UnicodeWidthStr::width` on `text`. The result is a
/// function of the characters alone; this library reasons about it only
/// through the name `str_width`.
#[verifier::external_body]
pub(crate) fn text_width(text: &str) -> (width: usize)
    ensures
        width == str_width(text@),
{
    UnicodeWidthStr::width(text)
}

/// The character that writes the digit `d`.
pub open spec fn digit_char(d: nat) -> char {
    if d == 0 {
        '0'
    } else if d == 1 {
        '1'
    } else if d == 2 {
        '2'
    } else if d == 3 {
        '3'
    } else if d == 4 {
        '4'
    } else if d == 5 {
        '5'
    } else if d == 6 {
        '6'
    } else if d == 7 {
        '7'
    } else if d == 8 {
        '8'
    } else {
        '9'
    }
}

/// The decimal numeral of `n`, most significant digit first, without
/// leading zeros.
pub open spec fn decimal(n: nat) -> Seq<char>
    decreases n,
{
    if n < 10 {
        seq![digit_char(n)]
    } else {
        decimal(n / 10).push(digit_char(n % 10))
    }
}

/// The separator between a row's index and its text.
pub open spec fn separator() -> Seq<char> {
    seq![':', ' ']
}

/// A row of the message list: the index, a colon, a space, the message.
pub open spec fn row_text(index: nat, message: Seq<char>) -> Seq<char> {
    decimal(index) + separator() + message
}

fn digit(d: usize) -> (c: char)
    requires
        d < 10,
    ensures
        c == digit_char(d as nat),
{
    if d == 0 {
        '0'
    } else if d == 1 {
        '1'
    } else if d == 2 {
        '2'
    } else if d == 3 {
        '3'
    } else if d == 4 {
        '4'
    } else if d == 5 {
        '5'
    } else if d == 6 {
        '6'
    } else if d == 7 {
        '7'
    } else if d == 8 {
        '8'
    } else {
        '9'
    }
}

/// Appends the decimal numeral of `n` to `out`.
pub fn push_decimal(out: &mut String, n: usize)
    ensures
        final(out)@ == old(out)@ + decimal(n as nat),
    decreases n,
{
    if n >= 10 {
        push_decimal(out, n / 10);
    }
    out.push(digit(n % 10));
}

/// Builds the row that shows `message` at position `index` of the list.
pub fn format_row(index: usize, message: &str) -> (row: String)
    ensures
        row@ == row_text(index as nat, message@),
{
    let mut row = String::new();
    push_decimal(&mut row, index);
    row.push(':');
    row.push(' ');
    row.append(message);
    row
}

} // verus!
