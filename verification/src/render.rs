//! Rendering of fixed-point quantities as decimal strings: an unsigned
//! integer in full, and a [`Milli`] rounded to two decimal places.

use vstd::prelude::*;
use crate::Milli;

verus! {

/// The character of one decimal digit.
pub open spec fn digit_char(d: nat) -> char {
    if d == 0 {
        '0'
    } else if d == 1 {
        '1'
    } else if d == 2 {
        '2'
    } else if d == 3 {
        '3'
    } else if d == 4 {
        '4'
    } else if d == 5 {
        '5'
    } else if d == 6 {
        '6'
    } else if d == 7 {
        '7'
    } else if d == 8 {
        '8'
    } else {
        '9'
    }
}

/// The decimal digits of `n`, most significant first, with no leading zeros
/// except for `n == 0` itself.
pub open spec fn dec_digits(n: nat) -> Seq<char>
    decreases n,
{
    if n < 10 {
        seq![digit_char(n)]
    } else {
        dec_digits(n / 10) + seq![digit_char(n % 10)]
    }
}

/// A value in thousandths rendered with exactly two decimal places: the
/// thousandths are rounded to hundredths (ties up), and the hundredths are
/// printed as `whole.fraction` with a two-digit fraction.
pub open spec fn two_decimals(v: nat) -> Seq<char> {
    let hundredths = (v + 5) / 10;
    dec_digits(hundredths / 100) + seq![
        '.',
        digit_char(((hundredths / 10) % 10) as nat),
        digit_char((hundredths % 10) as nat),
    ]
}

/// The one-character string of a decimal digit.
fn digit_str(d: u64) -> (r: &'static str)
    requires
        d < 10,
    ensures
        r@ == seq![digit_char(d as nat)],
{
    proof {
        reveal_strlit("0");
        reveal_strlit("1");
        reveal_strlit("2");
        reveal_strlit("3");
        reveal_strlit("4");
        reveal_strlit("5");
        reveal_strlit("6");
        reveal_strlit("7");
        reveal_strlit("8");
        reveal_strlit("9");
    }
    let r: &'static str = if d == 0 {
        "0"
    } else if d == 1 {
        "1"
    } else if d == 2 {
        "2"
    } else if d == 3 {
        "3"
    } else if d == 4 {
        "4"
    } else if d == 5 {
        "5"
    } else if d == 6 {
        "6"
    } else if d == 7 {
        "7"
    } else if d == 8 {
        "8"
    } else {
        "9"
    };
    proof {
        assert(r@ =~= seq![digit_char(d as nat)]);
    }
    r
}

/// The decimal rendering of an unsigned integer.
pub fn u64_to_string(n: u64) -> (r: String)
    ensures
        r@ == dec_digits(n as nat),
    decreases n,
{
    if n < 10 {
        String::from_str(digit_str(n))
    } else {
        let mut prefix = u64_to_string(n / 10);
        prefix.append(digit_str(n % 10));
        proof {
            assert(prefix@ =~= dec_digits(n as nat));
        }
        prefix
    }
}

/// A quantity in thousandths rendered with two decimal places, rounding the
/// third decimal half-up.
pub fn format_two_decimals(v: Milli) -> (r: String)
    ensures
        r@ == two_decimals(v.0 as nat),
{
    let hundredths: u64 = (((v.0 as u128) + 5) / 10) as u64;
    let mut s = u64_to_string(hundredths / 100);
    s.append(".");
    s.append(digit_str((hundredths / 10) % 10));
    s.append(digit_str(hundredths % 10));
    proof {
        reveal_strlit(".");
        assert(s@ =~= two_decimals(v.0 as nat));
    }
    s
}

} // verus!
