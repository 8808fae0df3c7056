//! Integer arithmetic used throughout the coordinate algebra: absolute
//! value, truncating division, and round-to-nearest on exact fractions.

use vstd::prelude::*;
use vstd::arithmetic::div_mod::{
    lemma_div_decreases, lemma_div_multiples_vanish_fancy, lemma_div_nonincreasing,
    lemma_fundamental_div_mod,
};
use vstd::arithmetic::mul::lemma_mul_inequality_converse;

verus! {

/// Absolute value over the mathematical integers.
pub open spec fn abs_i(x: int) -> int {
    if x >= 0 {
        x
    } else {
        -x
    }
}

/// Truncating (round-toward-zero) division, the rule Rust's `/` follows
/// on signed integers.
pub open spec fn tdiv(a: int, b: int) -> int
    recommends
        b != 0,
{
    if a >= 0 {
        if b > 0 {
            a / b
        } else {
            -(a / -b)
        }
    } else {
        if b > 0 {
            -(-a / b)
        } else {
            -a / -b
        }
    }
}

/// The integer nearest to the fraction `num / den`, halves rounded away
/// from zero: the rule `f64::round` follows, stated on exact fractions.
pub open spec fn round_nearest(num: int, den: int) -> int
    recommends
        den > 0,
{
    if num >= 0 {
        (2 * num + den) / (2 * den)
    } else {
        -((2 * -num + den) / (2 * den))
    }
}

/// Absolute value of an `i128`.
pub(crate) fn iabs_i128(x: i128) -> (r: i128)
    requires
        x != i128::MIN,
    ensures
        r == abs_i(x as int),
{
    if x < 0 {
        -x
    } else {
        x
    }
}

/// Truncating division of `i64` values, computed without overflow.
pub(crate) fn trunc_div_i64(a: i64, b: i64) -> (r: i64)
    requires
        b != 0,
        !(a == i64::MIN && b == -1),
    ensures
        r == tdiv(a as int, b as int),
{
    let a128: i128 = a as i128;
    let b128: i128 = b as i128;
    let v: i128 = if a128 >= 0 {
        if b128 > 0 {
            proof {
                lemma_div_nonincreasing(a128 as int, b128 as int);
            }
            a128 / b128
        } else {
            proof {
                lemma_div_nonincreasing(a128 as int, -(b128 as int));
            }
            -(a128 / (-b128))
        }
    } else {
        if b128 > 0 {
            proof {
                lemma_div_nonincreasing(-(a128 as int), b128 as int);
            }
            -((-a128) / b128)
        } else {
            proof {
                lemma_div_nonincreasing(-(a128 as int), -(b128 as int));
                if b128 != -1 {
                    lemma_div_decreases(-(a128 as int), -(b128 as int));
                }
            }
            (-a128) / (-b128)
        }
    };
    v as i64
}

/// Truncating division by two on `i128` values.
pub(crate) fn trunc_div2_i128(a: i128) -> (r: i128)
    requires
        a != i128::MIN,
    ensures
        r == tdiv(a as int, 2),
{
    if a >= 0 {
        a / 2
    } else {
        -((-a) / 2)
    }
}

/// The shove term of the offset conversions: half of `x` after moving
/// odd values one step in the direction of `off`, which is exact
/// because the adjusted value is even.
pub(crate) fn shove_half(x: i64, off: i64) -> (v: i64)
    requires
        off == 1 || off == -1,
    ensures
        v == (x + off * (x as int % 2)) / 2,
{
    let x128: i128 = x as i128;
    let par: i128 = if x % 2 == 0 {
        0
    } else {
        1
    };
    let t: i128 = x128 + (off as i128) * par;
    proof {
        lemma_fundamental_div_mod(t as int, 2);
    }
    (t / 2) as i64
}

/// Rounding to the nearest integer moves the value by at most half of a
/// denominator unit.
pub proof fn lemma_round_nearest_error(num: int, den: int)
    requires
        den > 0,
    ensures
        2 * abs_i(round_nearest(num, den) * den - num) <= den,
{
    if num >= 0 {
        let q = (2 * num + den) / (2 * den);
        lemma_fundamental_div_mod(2 * num + den, 2 * den);
        let rem = (2 * num + den) % (2 * den);
        assert(0 <= rem < 2 * den);
        assert(2 * num + den == 2 * den * q + rem);
        assert(2 * (q * den) == 2 * den * q) by (nonlinear_arith);
        assert(2 * (q * den - num) == den - rem);
        assert(abs_i(2 * (q * den - num)) <= den);
        assert(abs_i(2 * (q * den - num)) == 2 * abs_i(q * den - num));
    } else {
        let m = -num;
        let q = (2 * m + den) / (2 * den);
        lemma_fundamental_div_mod(2 * m + den, 2 * den);
        let rem = (2 * m + den) % (2 * den);
        assert(0 <= rem < 2 * den);
        assert(2 * m + den == 2 * den * q + rem);
        assert(2 * (q * den) == 2 * den * q) by (nonlinear_arith);
        assert(2 * (q * den - m) == den - rem);
        assert(round_nearest(num, den) == -q);
        assert((-q) * den == -(q * den)) by (nonlinear_arith);
        assert((-q) * den - num == -(q * den - m));
        assert(abs_i(2 * (q * den - m)) <= den);
        assert(2 * abs_i((-q) * den - num) <= den);
    }
}

/// A fraction that sits within half a unit of the integer `x` rounds
/// to `x`.
pub proof fn lemma_round_nearest_near_multiple(x: int, e: int, den: int)
    requires
        den > 0,
        2 * abs_i(e) < den,
    ensures
        round_nearest(den * x + e, den) == x,
{
    let num = den * x + e;
    if num >= 0 {
        assert(2 * (den * x + e) + den == (2 * den) * x + (2 * e + den)) by (nonlinear_arith);
        lemma_div_multiples_vanish_fancy(x, 2 * e + den, 2 * den);
        assert((2 * num + den) / (2 * den) == x);
    } else {
        let m = -num;
        assert(2 * (-(den * x + e)) + den == (2 * den) * (-x) + (den - 2 * e))
            by (nonlinear_arith);
        lemma_div_multiples_vanish_fancy(-x, den - 2 * e, 2 * den);
        assert((2 * m + den) / (2 * den) == -x);
        assert(round_nearest(num, den) == -((2 * m + den) / (2 * den)));
    }
}

/// A bound on the numerator, in denominator units, bounds the rounded value.
pub proof fn lemma_round_nearest_bound(num: int, den: int, b: int)
    requires
        den > 0,
        b >= 0,
        2 * abs_i(num) <= den * b,
    ensures
        2 * abs_i(round_nearest(num, den)) <= b + 1,
{
    let q = round_nearest(num, den);
    lemma_round_nearest_error(num, den);
    assert(2 * abs_i(q * den - num) <= den);
    assert(abs_i(q * den) <= abs_i(q * den - num) + abs_i(num));
    assert(abs_i(q * den) == abs_i(q) * den) by (nonlinear_arith)
        requires
            den > 0,
    ;
    assert(2 * (abs_i(q) * den) <= den + den * b);
    assert((2 * abs_i(q)) * den <= (b + 1) * den) by (nonlinear_arith)
        requires
            2 * (abs_i(q) * den) <= den + den * b,
    ;
    lemma_mul_inequality_converse(2 * abs_i(q), b + 1, den);
}

} // verus!
