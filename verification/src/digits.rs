//! Decimal digit rendering for the fixed-width date and time stamps.

use vstd::prelude::*;

verus! {

/// The decimal digit character for a value below ten.
pub open spec fn dec_char(d: nat) -> char {
    if d == 0 {
        '0'
    } else if d == 1 {
        '1'
    } else if d == 2 {
        '2'
    } else if d == 3 {
        '3'
    } else if d == 4 {
        '4'
    } else if d == 5 {
        '5'
    } else if d == 6 {
        '6'
    } else if d == 7 {
        '7'
    } else if d == 8 {
        '8'
    } else {
        '9'
    }
}

/// A value below one hundred, zero-padded to two decimal digits.
pub open spec fn two_digits(n: nat) -> Seq<char> {
    seq![dec_char(n / 10), dec_char(n % 10)]
}

/// A value below ten thousand, zero-padded to four decimal digits.
pub open spec fn four_digits(n: nat) -> Seq<char> {
    seq![
        dec_char(n / 1000),
        dec_char((n / 100) % 10),
        dec_char((n / 10) % 10),
        dec_char(n % 10),
    ]
}

/// The one-character string for a decimal digit.
pub fn dec_digit_str(d: u32) -> (r: &'static str)
    requires
        d < 10,
    ensures
        r@ =~= seq![dec_char(d as nat)],
{
    proof {
        reveal_strlit("0");
        reveal_strlit("1");
        reveal_strlit("2");
        reveal_strlit("3");
        reveal_strlit("4");
        reveal_strlit("5");
        reveal_strlit("6");
        reveal_strlit("7");
        reveal_strlit("8");
        reveal_strlit("9");
    }
    if d == 0 {
        "0"
    } else if d == 1 {
        "1"
    } else if d == 2 {
        "2"
    } else if d == 3 {
        "3"
    } else if d == 4 {
        "4"
    } else if d == 5 {
        "5"
    } else if d == 6 {
        "6"
    } else if d == 7 {
        "7"
    } else if d == 8 {
        "8"
    } else {
        "9"
    }
}

/// Appends a value below one hundred as two decimal digits.
pub fn push_two_digits(out: &mut String, n: u32)
    requires
        n < 100,
    ensures
        final(out)@ == old(out)@ + two_digits(n as nat),
{
    out.append(dec_digit_str(n / 10));
    out.append(dec_digit_str(n % 10));
    assert(out@ =~= old(out)@ + two_digits(n as nat));
}

/// Appends a value below ten thousand as four decimal digits.
pub fn push_four_digits(out: &mut String, n: u32)
    requires
        n < 10000,
    ensures
        final(out)@ == old(out)@ + four_digits(n as nat),
{
    out.append(dec_digit_str(n / 1000));
    out.append(dec_digit_str((n / 100) % 10));
    out.append(dec_digit_str((n / 10) % 10));
    out.append(dec_digit_str(n % 10));
    assert(out@ =~= old(out)@ + four_digits(n as nat));
}

} // verus!
