//! Rounded integer division and decimal rendering.
//!
//! The widgets display quantities the original sources report as raw
//! integers — playback nanoseconds, micro-watt-hours — so rounding and
//! rendering are done exactly, on integers.

use vstd::prelude::*;

use vstd::arithmetic::div_mod::{lemma_fundamental_div_mod, lemma_fundamental_div_mod_converse};
use vstd::string::{StrSliceExecFns, StringExecFns};

verus! {

/// `num / den` rounded to the nearest integer, halves away from zero,
/// for nonnegative `num` and positive `den`.
pub open spec fn round_div(num: int, den: int) -> int
    recommends
        num >= 0,
        den > 0,
{
    (2 * num + den) / (2 * den)
}

/// Rounded division is truncating division plus one when the remainder
/// reaches half the divisor: the form the executable computations take.
pub proof fn lemma_round_div_parts(n: int, d: int)
    requires
        n >= 0,
        d > 0,
    ensures
        round_div(n, d) == n / d + if 2 * (n % d) >= d {
            1int
        } else {
            0int
        },
{
    let q = n / d;
    let rem = n % d;
    lemma_fundamental_div_mod(n, d);
    if 2 * rem >= d {
        assert(2 * n + d == (q + 1) * (2 * d) + (2 * rem - d)) by (nonlinear_arith)
            requires
                n == d * q + rem,
        ;
        lemma_fundamental_div_mod_converse(2 * n + d, 2 * d, q + 1, 2 * rem - d);
    } else {
        assert(2 * n + d == q * (2 * d) + (2 * rem + d)) by (nonlinear_arith)
            requires
                n == d * q + rem,
        ;
        lemma_fundamental_div_mod_converse(2 * n + d, 2 * d, q, 2 * rem + d);
    }
}

/// The character for one decimal digit.
pub open spec fn decimal_digit(d: int) -> char {
    if d == 0 {
        '0'
    } else if d == 1 {
        '1'
    } else if d == 2 {
        '2'
    } else if d == 3 {
        '3'
    } else if d == 4 {
        '4'
    } else if d == 5 {
        '5'
    } else if d == 6 {
        '6'
    } else if d == 7 {
        '7'
    } else if d == 8 {
        '8'
    } else {
        '9'
    }
}

/// The decimal rendering of a nonnegative integer, most significant
/// digit first, no leading zeros (except for zero itself).
pub open spec fn decimal_spec(n: int) -> Seq<char>
    recommends
        n >= 0,
    decreases n,
{
    if n < 10 {
        seq![decimal_digit(n)]
    } else {
        decimal_spec(n / 10).push(decimal_digit(n % 10))
    }
}

fn digit_str(d: u64) -> (r: &'static str)
    requires
        d < 10,
    ensures
        r@ == seq![decimal_digit(d as int)],
{
    let s: &'static str = match d {
        0 => "0",
        1 => "1",
        2 => "2",
        3 => "3",
        4 => "4",
        5 => "5",
        6 => "6",
        7 => "7",
        8 => "8",
        _ => "9",
    };
    proof {
        reveal_strlit("0");
        reveal_strlit("1");
        reveal_strlit("2");
        reveal_strlit("3");
        reveal_strlit("4");
        reveal_strlit("5");
        reveal_strlit("6");
        reveal_strlit("7");
        reveal_strlit("8");
        reveal_strlit("9");
        assert(s@ =~= seq![decimal_digit(d as int)]);
    }
    s
}

/// Renders `n` in decimal.
pub fn decimal_string(n: u64) -> (r: String)
    ensures
        r@ == decimal_spec(n as int),
    decreases n,
{
    if n < 10 {
        digit_str(n).to_owned()
    } else {
        let mut s = decimal_string(n / 10);
        s.append(digit_str(n % 10));
        proof {
            assert(s@ =~= decimal_spec(n as int));
        }
        s
    }
}

/// The decimal rendering padded on the left to at least two digits.
pub open spec fn padded2_spec(n: int) -> Seq<char>
    recommends
        n >= 0,
{
    if n < 10 {
        seq!['0', decimal_digit(n)]
    } else {
        decimal_spec(n)
    }
}

/// Renders `n` in decimal, zero-padded to at least two digits.
pub fn padded_two_digits(n: u64) -> (r: String)
    ensures
        r@ == padded2_spec(n as int),
{
    if n < 10 {
        let mut s = String::from_str("0");
        s.append(digit_str(n));
        proof {
            reveal_strlit("0");
            assert(s@ =~= padded2_spec(n as int));
        }
        s
    } else {
        decimal_string(n)
    }
}

} // verus!
