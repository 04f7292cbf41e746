//! Numbers as text.

use vstd::prelude::*;

verus! {

/// The character that stands for a digit below ten.
pub open spec fn digit_char(d: nat) -> char {
    if d == 0 {
        '0'
    } else if d == 1 {
        '1'
    } else if d == 2 {
        '2'
    } else if d == 3 {
        '3'
    } else if d == 4 {
        '4'
    } else if d == 5 {
        '5'
    } else if d == 6 {
        '6'
    } else if d == 7 {
        '7'
    } else if d == 8 {
        '8'
    } else {
        '9'
    }
}

/// A natural number written in base ten, without leading zeros.
pub open spec fn decimal(n: nat) -> Seq<char>
    decreases n,
{
    if n < 10 {
        seq![digit_char(n)]
    } else {
        decimal(n / 10).push(digit_char(n % 10))
    }
}

/// `ToString::to_string` on a `u32` writes the number in base ten, as
/// `Display` does for the integer types.
#[verifier::external_body]
pub(crate) fn u32_to_string(n: u32) -> (res: String)
    ensures
        res@ == decimal(n as nat),
{
    n.to_string()
}

/// A text followed by a number in base ten.
pub open spec fn numbered(prefix: Seq<char>, n: nat) -> Seq<char> {
    prefix + decimal(n)
}

/// Writes `prefix` followed by `n` in base ten.
pub fn numbered_name(prefix: &str, n: u32) -> (res: String)
    ensures
        res@ == numbered(prefix@, n as nat),
{
    let digits = u32_to_string(n);
    prefix.to_string().concat(digits.as_str())
}

/// An integer written in base ten, with a minus sign if it is negative.
pub open spec fn signed_decimal(n: int) -> Seq<char> {
    if n < 0 {
        seq!['-'] + decimal((-n) as nat)
    } else {
        decimal(n as nat)
    }
}

/// `ToString::to_string` on an `i64` writes the number in base ten, with a
/// minus sign if it is negative, as `Display` does for the integer types.
#[verifier::external_body]
pub(crate) fn i64_to_string(n: i64) -> (res: String)
    ensures
        res@ == signed_decimal(n as int),
{
    n.to_string()
}

/// The 64-bit integer that a text stands for, if it stands for one.
pub uninterp spec fn parsed_i64(text: Seq<char>) -> Option<i64>;

/// `str::parse` for `i64`: the result is a function of the text. A text that
/// is no integer, or one that does not fit, gives nothing.
#[verifier::external_body]
pub(crate) fn parse_i64(text: &str) -> (res: Option<i64>)
    ensures
        res == parsed_i64(text@),
{
    text.parse::<i64>().ok()
}

} // verus!
