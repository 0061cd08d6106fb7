//! Text read as a number.

use vstd::prelude::*;

verus! {

/// Whether `c` is one of the ten digits.
pub open spec fn is_digit(c: char) -> bool {
    48 <= c as u32 <= 57
}

/// Whether a text is made of digits alone.
pub open spec fn all_digits(text: Seq<char>) -> bool {
    forall|i: int| 0 <= i < text.len() ==> is_digit(#[trigger] text[i])
}

/// The number that digits denote in base ten.
pub open spec fn decimal(digits: Seq<char>) -> int
    decreases digits.len(),
{
    if digits.len() == 0 {
        0
    } else {
        decimal(digits.drop_last()) * 10 + (digits.last() as u32 - 48)
    }
}

/// The number that a text denotes as an `i32`: the text is a sign, which may
/// be left out, followed by one digit or more, and the number they denote
/// is one that an `i32` holds. Any other text denotes none.
pub open spec fn parsed_i32(text: Seq<char>) -> Option<i32> {
    let signed = text.len() > 0 && (text[0] == '-' || text[0] == '+');
    let digits = if signed {
        text.skip(1)
    } else {
        text
    };
    let value = if signed && text[0] == '-' {
        -decimal(digits)
    } else {
        decimal(digits)
    };
    if digits.len() > 0 && all_digits(digits) && i32::MIN <= value <= i32::MAX {
        Some(value as i32)
    } else {
        None
    }
}

/// A text of one digit denotes the digit.
pub proof fn lemma_parsed_digit(c: char)
    requires
        is_digit(c),
    ensures
        parsed_i32(seq![c]) == Some((c as u32 - 48) as i32),
{
    let text = seq![c];
    assert(text.drop_last() =~= Seq::<char>::empty());
    assert(decimal(text.drop_last()) == 0);
    assert(text[0] != '-' && text[0] != '+');
}

/// Reads a text as an `i32`.
///
/// Calls `str::parse::<i32>`, which takes an optional sign followed by
/// decimal digits and nothing else, and fails on an empty text, on any other
/// character and on a number that an `i32` does not hold. `None` stands for
/// every failure.
#[verifier::external_body]
pub(crate) fn parse_i32(text: &str) -> (value: Option<i32>)
    ensures
        value == parsed_i32(text@),
{
    text.parse::<i32>().ok()
}

} // verus!
