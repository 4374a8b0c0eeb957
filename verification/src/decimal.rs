//! Decimal rendering of integers.
//!
//! [`decimal`] says which characters stand for an integer; [`write_i64`] and
//! [`write_u64`] append exactly those characters to a `String`.

use vstd::prelude::*;

verus! {

/// The character for a single decimal digit.
pub open spec fn digit(d: int) -> char
    recommends
        0 <= d <= 9,
{
    if d == 0 {
        '0'
    } else if d == 1 {
        '1'
    } else if d == 2 {
        '2'
    } else if d == 3 {
        '3'
    } else if d == 4 {
        '4'
    } else if d == 5 {
        '5'
    } else if d == 6 {
        '6'
    } else if d == 7 {
        '7'
    } else if d == 8 {
        '8'
    } else {
        '9'
    }
}

/// The decimal digits of a natural number, most significant first, without
/// leading zeros (zero itself is the single digit `0`).
pub open spec fn decimal_nat(n: nat) -> Seq<char>
    decreases n,
{
    if n < 10 {
        seq![digit(n as int)]
    } else {
        decimal_nat(n / 10).push(digit((n % 10) as int))
    }
}

/// The decimal rendering of an integer: a minus sign for a negative value,
/// then the digits of its magnitude.
pub open spec fn decimal(v: int) -> Seq<char> {
    if v < 0 {
        seq!['-'] + decimal_nat((-v) as nat)
    } else {
        decimal_nat(v as nat)
    }
}

/// The one-character text of a decimal digit.
fn digit_text(d: u64) -> (text: &'static str)
    requires
        d <= 9,
    ensures
        text@ == seq![digit(d as int)],
{
    proof {
        reveal_strlit("0");
        reveal_strlit("1");
        reveal_strlit("2");
        reveal_strlit("3");
        reveal_strlit("4");
        reveal_strlit("5");
        reveal_strlit("6");
        reveal_strlit("7");
        reveal_strlit("8");
        reveal_strlit("9");
    }
    if d == 0 {
        "0"
    } else if d == 1 {
        "1"
    } else if d == 2 {
        "2"
    } else if d == 3 {
        "3"
    } else if d == 4 {
        "4"
    } else if d == 5 {
        "5"
    } else if d == 6 {
        "6"
    } else if d == 7 {
        "7"
    } else if d == 8 {
        "8"
    } else {
        "9"
    }
}

/// Appends the decimal digits of `n` to `sink`.
pub fn write_u64(sink: &mut String, n: u64)
    ensures
        final(sink)@ == old(sink)@ + decimal_nat(n as nat),
    decreases n,
{
    if n >= 10 {
        write_u64(sink, n / 10);
    }
    sink.append(digit_text(n % 10));
}

/// Appends the decimal rendering of `v` to `sink`.
pub fn write_i64(sink: &mut String, v: i64)
    ensures
        final(sink)@ == old(sink)@ + decimal(v as int),
{
    if v < 0 {
        proof {
            reveal_strlit("-");
        }
        sink.append("-");
        // `-(v + 1)` fits in an `i64` even where `-v` does not.
        let magnitude: u64 = (-(v + 1)) as u64 + 1;
        write_u64(sink, magnitude);
    } else {
        write_u64(sink, v as u64);
    }
}

} // verus!
