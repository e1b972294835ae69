//! What the server asks of text: whether a string is a decimal account id,
//! whether two names are the same but for the case of their ASCII letters, and
//! whether a message holds a given phrase.

use vstd::prelude::*;

verus! {

pub open spec fn is_decimal_digit(c: char) -> bool {
    48 <= c as u32 <= 57
}

/// The number that a sequence of decimal digits writes.
pub open spec fn digits_value(digits: Seq<char>) -> nat
    decreases digits.len(),
{
    if digits.len() == 0 {
        0
    } else {
        (digits_value(digits.drop_last()) * 10 + (digits.last() as u32 - 48)) as nat
    }
}

/// The signed 32-bit integer that `s` writes in decimal: an optional `+` or
/// `-`, then one digit or more, and nothing else; `None` where `s` is not of
/// that form or the number does not fit.
pub open spec fn parsed_i32(s: Seq<char>) -> Option<i32> {
    let signed = s.len() > 0 && (s[0] == '-' || s[0] == '+');
    let negative = s.len() > 0 && s[0] == '-';
    let digits = if signed {
        s.skip(1)
    } else {
        s
    };
    let magnitude = digits_value(digits) as int;
    let value = if negative {
        -magnitude
    } else {
        magnitude
    };
    if digits.len() > 0 && (forall|i: int| 0 <= i < digits.len() ==> is_decimal_digit(digits[i]))
        && i32::MIN <= value <= i32::MAX {
        Some(value as i32)
    } else {
        None
    }
}

/// The character with an ASCII capital letter turned into its small letter.
pub open spec fn ascii_lowercase(c: char) -> u32 {
    if 65 <= c as u32 <= 90 {
        (c as u32 + 32) as u32
    } else {
        c as u32
    }
}

/// The two texts are the same, taking an ASCII capital letter and its small
/// letter as equal.
pub open spec fn same_ignoring_ascii_case(a: Seq<char>, b: Seq<char>) -> bool {
    a.len() == b.len() && forall|i: int|
        0 <= i < a.len() ==> ascii_lowercase(#[trigger] a[i]) == ascii_lowercase(b[i])
}

/// `phrase` occurs in `text` as a run of consecutive characters.
pub open spec fn has_phrase(text: Seq<char>, phrase: Seq<char>) -> bool {
    exists|at: int|
        0 <= at && at + phrase.len() <= text.len() && #[trigger] text.subrange(
            at,
            at + phrase.len(),
        ) == phrase
}

/// Calls `str::parse::<i32>`. The contract restates what the standard
/// library documents of it: the text must be an optional sign followed by
/// decimal digits only, and the number must fit in 32 bits; every other text
/// is an error, which is `None` here.
#[verifier::external_body]
pub(crate) fn parse_i32(s: &str) -> (r: Option<i32>)
    ensures
        r == parsed_i32(s@),
{
    s.parse::<i32>().ok()
}

/// Calls `str::eq_ignore_ascii_case`. The contract restates its
/// documentation: the result is that of comparing the two texts after turning
/// the ASCII capital letters of both into small letters.
#[verifier::external_body]
pub(crate) fn eq_ignore_ascii_case(a: &str, b: &str) -> (r: bool)
    ensures
        r == same_ignoring_ascii_case(a@, b@),
{
    a.eq_ignore_ascii_case(b)
}

/// Calls `str::contains` with a string as the pattern. The contract restates
/// its documentation: the result tells whether the pattern matches a
/// sub-slice of the text.
#[verifier::external_body]
pub(crate) fn contains_phrase(text: &str, phrase: &str) -> (r: bool)
    ensures
        r == has_phrase(text@, phrase@),
{
    text.contains(phrase)
}

} // verus!
