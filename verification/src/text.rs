//! Decimal text for small numbers, as it appears in error messages.

use vstd::prelude::*;
use vstd::string::StringExecFns;

verus! {

/// The text of one decimal digit.
pub open spec fn digit_text(d: int) -> Seq<char> {
    if d == 0 {
        "0"@
    } else if d == 1 {
        "1"@
    } else if d == 2 {
        "2"@
    } else if d == 3 {
        "3"@
    } else if d == 4 {
        "4"@
    } else if d == 5 {
        "5"@
    } else if d == 6 {
        "6"@
    } else if d == 7 {
        "7"@
    } else if d == 8 {
        "8"@
    } else {
        "9"@
    }
}

/// The decimal text of a byte, without leading zeros.
pub open spec fn decimal_text(n: u8) -> Seq<char> {
    if n < 10 {
        digit_text(n as int)
    } else if n < 100 {
        digit_text(n as int / 10) + digit_text(n as int % 10)
    } else {
        digit_text(n as int / 100) + digit_text((n as int / 10) % 10) + digit_text(n as int % 10)
    }
}

/// One decimal digit as text.
fn digit_str(d: u8) -> (s: &'static str)
    requires
        d < 10,
    ensures
        s@ == digit_text(d as int),
{
    match d {
        0 => "0",
        1 => "1",
        2 => "2",
        3 => "3",
        4 => "4",
        5 => "5",
        6 => "6",
        7 => "7",
        8 => "8",
        _ => "9",
    }
}

/// Writes a byte in decimal.
pub fn decimal_string(n: u8) -> (s: String)
    ensures
        s@ == decimal_text(n),
{
    if n < 10 {
        String::from_str(digit_str(n))
    } else if n < 100 {
        String::from_str(digit_str(n / 10)).concat(digit_str(n % 10))
    } else {
        String::from_str(digit_str(n / 100)).concat(digit_str((n / 10) % 10)).concat(
            digit_str(n % 10),
        )
    }
}

} // verus!
