//! Fractional hex coordinates held as exact fractions: three numerators
//! over one positive denominator, with the same zero-sum invariant as
//! cube coordinates. The rounding rule that maps a fractional hex back
//! to the nearest well-formed cube hex lives here; line drawing depends
//! on it.

use vstd::prelude::*;
use crate::arith::{abs_i, iabs_i128, lemma_round_nearest_bound, lemma_round_nearest_error, round_nearest};
use crate::hex::{hex_wf, Hex};

verus! {

/// Numerator bound accepted by `FractionalHex::round`: generous headroom
/// inside the `i64` range so every intermediate of the rounding
/// arithmetic stays representable.
pub const ROUND_INPUT_MAX: i64 = 0x2000_0000_0000_0000;

/// Bound on the numerators and denominators accepted by `lerp`, chosen
/// so that the exact product-of-three arithmetic cannot overflow.
pub const LERP_INPUT_MAX: i64 = 0x10_0000;

/// An exact fraction `num / den`.
#[derive(Clone, Copy, Debug, PartialEq, Eq, Structural, Hash)]
pub struct Frac {
    pub num: i64,
    pub den: i64,
}

/// A hex with fractional coordinates `q_num/den`, `r_num/den`,
/// `s_num/den`. Well-formed values have a positive denominator and
/// numerators that sum to zero.
#[derive(Clone, Copy, Debug, PartialEq, Eq, Structural, Hash)]
pub struct FractionalHex {
    pub q_num: i64,
    pub r_num: i64,
    pub s_num: i64,
    pub den: i64,
}

/// The invariant of fractional hex coordinates.
pub open spec fn frac_hex_wf(fh: FractionalHex) -> bool {
    fh.den > 0 && fh.q_num + fh.r_num + fh.s_num == 0
}

/// The invariant-preserving rounding rule on exact fractions
/// `qn/den`, `rn/den`, `sn/den`: round each component to its nearest
/// integer, then recompute from the other two the component whose
/// residual is largest — q only when its residual strictly exceeds both
/// others, else r when its residual strictly exceeds s's, else s.
pub open spec fn frac_round_spec(qn: int, rn: int, sn: int, den: int) -> (int, int, int)
    recommends
        den > 0,
{
    let q0 = round_nearest(qn, den);
    let r0 = round_nearest(rn, den);
    let s0 = round_nearest(sn, den);
    let dq = abs_i(q0 * den - qn);
    let dr = abs_i(r0 * den - rn);
    let ds = abs_i(s0 * den - sn);
    if dq > dr && dq > ds {
        (-r0 - s0, r0, s0)
    } else if dr > ds {
        (q0, -q0 - s0, s0)
    } else {
        (q0, r0, -q0 - r0)
    }
}

/// Rounds `num / den` to the nearest integer, halves away from zero.
fn round_half(num: i128, den: i128) -> (r: i128)
    requires
        0 < den <= 0x8000_0000_0000_0000,
        2 * abs_i(num as int) <= den * 0x4000_0000_0000_0000,
    ensures
        r == round_nearest(num as int, den as int),
        2 * abs_i(r * den - num) <= den,
        2 * abs_i(r as int) <= 0x4000_0000_0000_0000 + 1,
{
    proof {
        lemma_round_nearest_error(num as int, den as int);
        lemma_round_nearest_bound(num as int, den as int, 0x4000_0000_0000_0000);
    }
    if num >= 0 {
        (2 * num + den) / (2 * den)
    } else {
        -((2 * (-num) + den) / (2 * den))
    }
}

/// Applies the rounding rule to the three components of a fraction
/// triple with a common denominator.
pub(crate) fn round_triple(qn: i128, rn: i128, sn: i128, den: i128) -> (h: Hex)
    requires
        0 < den <= 0x8000_0000_0000_0000,
        2 * abs_i(qn as int) <= den * 0x4000_0000_0000_0000,
        2 * abs_i(rn as int) <= den * 0x4000_0000_0000_0000,
        2 * abs_i(sn as int) <= den * 0x4000_0000_0000_0000,
    ensures
        ({
            let (q, r, s) = frac_round_spec(qn as int, rn as int, sn as int, den as int);
            h.q == q && h.r == r && h.s == s
        }),
        hex_wf(h),
{
    let q0: i128 = round_half(qn, den);
    let r0: i128 = round_half(rn, den);
    let s0: i128 = round_half(sn, den);
    proof {
        assert(abs_i(q0 as int * den as int) <= 0x1000_0000_0000_0000_0000_0000_0000_0000)
            by (nonlinear_arith)
            requires
                2 * abs_i(q0 as int) <= 0x4000_0000_0000_0000 + 1,
                0 < den <= 0x8000_0000_0000_0000,
        ;
        assert(abs_i(r0 as int * den as int) <= 0x1000_0000_0000_0000_0000_0000_0000_0000)
            by (nonlinear_arith)
            requires
                2 * abs_i(r0 as int) <= 0x4000_0000_0000_0000 + 1,
                0 < den <= 0x8000_0000_0000_0000,
        ;
        assert(abs_i(s0 as int * den as int) <= 0x1000_0000_0000_0000_0000_0000_0000_0000)
            by (nonlinear_arith)
            requires
                2 * abs_i(s0 as int) <= 0x4000_0000_0000_0000 + 1,
                0 < den <= 0x8000_0000_0000_0000,
        ;
    }
    let dq: i128 = iabs_i128(q0 * den - qn);
    let dr: i128 = iabs_i128(r0 * den - rn);
    let ds: i128 = iabs_i128(s0 * den - sn);
    if dq > dr && dq > ds {
        Hex { q: (-r0 - s0) as i64, r: r0 as i64, s: s0 as i64 }
    } else if dr > ds {
        Hex { q: q0 as i64, r: (-q0 - s0) as i64, s: s0 as i64 }
    } else {
        Hex { q: q0 as i64, r: r0 as i64, s: (-q0 - r0) as i64 }
    }
}

/// Cross products of two bounded fractional hexes stay well inside the
/// `i64` range.
proof fn lemma_cross_products_bounded(a: FractionalHex, b: FractionalHex)
    requires
        0 < a.den <= LERP_INPUT_MAX,
        0 < b.den <= LERP_INPUT_MAX,
        -LERP_INPUT_MAX <= a.q_num <= LERP_INPUT_MAX,
        -LERP_INPUT_MAX <= a.r_num <= LERP_INPUT_MAX,
        -LERP_INPUT_MAX <= a.s_num <= LERP_INPUT_MAX,
        -LERP_INPUT_MAX <= b.q_num <= LERP_INPUT_MAX,
        -LERP_INPUT_MAX <= b.r_num <= LERP_INPUT_MAX,
        -LERP_INPUT_MAX <= b.s_num <= LERP_INPUT_MAX,
    ensures
        abs_i(a.q_num * b.den) <= 0x100_0000_0000,
        abs_i(a.r_num * b.den) <= 0x100_0000_0000,
        abs_i(a.s_num * b.den) <= 0x100_0000_0000,
        abs_i(b.q_num * a.den) <= 0x100_0000_0000,
        abs_i(b.r_num * a.den) <= 0x100_0000_0000,
        abs_i(b.s_num * a.den) <= 0x100_0000_0000,
        0 < a.den * b.den <= 0x100_0000_0000,
{
    assert(abs_i(a.q_num * b.den) <= 0x100_0000_0000
        && abs_i(a.r_num * b.den) <= 0x100_0000_0000
        && abs_i(a.s_num * b.den) <= 0x100_0000_0000
        && abs_i(b.q_num * a.den) <= 0x100_0000_0000
        && abs_i(b.r_num * a.den) <= 0x100_0000_0000
        && abs_i(b.s_num * a.den) <= 0x100_0000_0000
        && 0 < a.den * b.den <= 0x100_0000_0000)
        by (nonlinear_arith)
        requires
            0 < a.den <= LERP_INPUT_MAX,
            0 < b.den <= LERP_INPUT_MAX,
            -LERP_INPUT_MAX <= a.q_num <= LERP_INPUT_MAX,
            -LERP_INPUT_MAX <= a.r_num <= LERP_INPUT_MAX,
            -LERP_INPUT_MAX <= a.s_num <= LERP_INPUT_MAX,
            -LERP_INPUT_MAX <= b.q_num <= LERP_INPUT_MAX,
            -LERP_INPUT_MAX <= b.r_num <= LERP_INPUT_MAX,
            -LERP_INPUT_MAX <= b.s_num <= LERP_INPUT_MAX,
    ;
}

/// Products of a bounded fractional hex with a bounded scalar stay well
/// inside the `i64` range.
proof fn lemma_scalar_products_bounded(a: FractionalHex, k: Frac)
    requires
        0 < a.den <= LERP_INPUT_MAX,
        0 < k.den <= LERP_INPUT_MAX,
        -LERP_INPUT_MAX <= a.q_num <= LERP_INPUT_MAX,
        -LERP_INPUT_MAX <= a.r_num <= LERP_INPUT_MAX,
        -LERP_INPUT_MAX <= a.s_num <= LERP_INPUT_MAX,
        -LERP_INPUT_MAX <= k.num <= LERP_INPUT_MAX,
    ensures
        abs_i(a.q_num * k.num) <= 0x100_0000_0000,
        abs_i(a.r_num * k.num) <= 0x100_0000_0000,
        abs_i(a.s_num * k.num) <= 0x100_0000_0000,
        abs_i(a.den * k.num) <= 0x100_0000_0000,
        0 < a.den * k.den <= 0x100_0000_0000,
{
    assert(abs_i(a.q_num * k.num) <= 0x100_0000_0000
        && abs_i(a.r_num * k.num) <= 0x100_0000_0000
        && abs_i(a.s_num * k.num) <= 0x100_0000_0000
        && abs_i(a.den * k.num) <= 0x100_0000_0000
        && 0 < a.den * k.den <= 0x100_0000_0000)
        by (nonlinear_arith)
        requires
            0 < a.den <= LERP_INPUT_MAX,
            0 < k.den <= LERP_INPUT_MAX,
            -LERP_INPUT_MAX <= a.q_num <= LERP_INPUT_MAX,
            -LERP_INPUT_MAX <= a.r_num <= LERP_INPUT_MAX,
            -LERP_INPUT_MAX <= a.s_num <= LERP_INPUT_MAX,
            -LERP_INPUT_MAX <= k.num <= LERP_INPUT_MAX,
    ;
}

impl FractionalHex {
    /// Constructs a fractional hex from the q and r numerators over a
    /// common positive denominator, deriving the s numerator so that the
    /// zero-sum invariant holds.
    pub fn new(q_num: i64, r_num: i64, den: i64) -> (fh: FractionalHex)
        requires
            den > 0,
            i64::MIN <= -q_num - r_num <= i64::MAX,
        ensures
            fh.q_num == q_num,
            fh.r_num == r_num,
            fh.s_num == -q_num - r_num,
            fh.den == den,
            frac_hex_wf(fh),
    {
        let s_num: i64 = (-(q_num as i128) - (r_num as i128)) as i64;
        FractionalHex { q_num, r_num, s_num, den }
    }

    pub fn q(&self) -> (v: Frac)
        ensures
            v == (Frac { num: self.q_num, den: self.den }),
    {
        Frac { num: self.q_num, den: self.den }
    }

    pub fn r(&self) -> (v: Frac)
        ensures
            v == (Frac { num: self.r_num, den: self.den }),
    {
        Frac { num: self.r_num, den: self.den }
    }

    pub fn s(&self) -> (v: Frac)
        ensures
            v == (Frac { num: self.s_num, den: self.den }),
    {
        Frac { num: self.s_num, den: self.den }
    }

    /// Componentwise sum, over the common denominator of both operands.
    pub fn add(&self, other: FractionalHex) -> (fh: FractionalHex)
        requires
            self.den > 0,
            other.den > 0,
            -LERP_INPUT_MAX <= self.q_num <= LERP_INPUT_MAX,
            -LERP_INPUT_MAX <= self.r_num <= LERP_INPUT_MAX,
            -LERP_INPUT_MAX <= self.s_num <= LERP_INPUT_MAX,
            self.den <= LERP_INPUT_MAX,
            -LERP_INPUT_MAX <= other.q_num <= LERP_INPUT_MAX,
            -LERP_INPUT_MAX <= other.r_num <= LERP_INPUT_MAX,
            -LERP_INPUT_MAX <= other.s_num <= LERP_INPUT_MAX,
            other.den <= LERP_INPUT_MAX,
        ensures
            fh.den == self.den * other.den,
            fh.q_num == self.q_num * other.den + other.q_num * self.den,
            fh.r_num == self.r_num * other.den + other.r_num * self.den,
            fh.s_num == self.s_num * other.den + other.s_num * self.den,
            fh.den > 0,
    {
        proof {
            lemma_cross_products_bounded(*self, other);
        }
        FractionalHex {
            q_num: self.q_num * other.den + other.q_num * self.den,
            r_num: self.r_num * other.den + other.r_num * self.den,
            s_num: self.s_num * other.den + other.s_num * self.den,
            den: self.den * other.den,
        }
    }

    /// Componentwise difference, over the common denominator of both
    /// operands.
    pub fn sub(&self, other: FractionalHex) -> (fh: FractionalHex)
        requires
            self.den > 0,
            other.den > 0,
            -LERP_INPUT_MAX <= self.q_num <= LERP_INPUT_MAX,
            -LERP_INPUT_MAX <= self.r_num <= LERP_INPUT_MAX,
            -LERP_INPUT_MAX <= self.s_num <= LERP_INPUT_MAX,
            self.den <= LERP_INPUT_MAX,
            -LERP_INPUT_MAX <= other.q_num <= LERP_INPUT_MAX,
            -LERP_INPUT_MAX <= other.r_num <= LERP_INPUT_MAX,
            -LERP_INPUT_MAX <= other.s_num <= LERP_INPUT_MAX,
            other.den <= LERP_INPUT_MAX,
        ensures
            fh.den == self.den * other.den,
            fh.q_num == self.q_num * other.den - other.q_num * self.den,
            fh.r_num == self.r_num * other.den - other.r_num * self.den,
            fh.s_num == self.s_num * other.den - other.s_num * self.den,
            fh.den > 0,
    {
        proof {
            lemma_cross_products_bounded(*self, other);
        }
        FractionalHex {
            q_num: self.q_num * other.den - other.q_num * self.den,
            r_num: self.r_num * other.den - other.r_num * self.den,
            s_num: self.s_num * other.den - other.s_num * self.den,
            den: self.den * other.den,
        }
    }

    /// Componentwise scalar multiple.
    pub fn mul(&self, k: Frac) -> (fh: FractionalHex)
        requires
            self.den > 0,
            k.den > 0,
            -LERP_INPUT_MAX <= self.q_num <= LERP_INPUT_MAX,
            -LERP_INPUT_MAX <= self.r_num <= LERP_INPUT_MAX,
            -LERP_INPUT_MAX <= self.s_num <= LERP_INPUT_MAX,
            self.den <= LERP_INPUT_MAX,
            -LERP_INPUT_MAX <= k.num <= LERP_INPUT_MAX,
            k.den <= LERP_INPUT_MAX,
        ensures
            fh.den == self.den * k.den,
            fh.q_num == self.q_num * k.num,
            fh.r_num == self.r_num * k.num,
            fh.s_num == self.s_num * k.num,
            fh.den > 0,
    {
        proof {
            lemma_scalar_products_bounded(*self, k);
        }
        FractionalHex {
            q_num: self.q_num * k.num,
            r_num: self.r_num * k.num,
            s_num: self.s_num * k.num,
            den: self.den * k.den,
        }
    }

    /// Componentwise scalar division: multiplication by the reciprocal,
    /// with signs arranged so the denominator stays positive.
    pub fn div(&self, k: Frac) -> (fh: FractionalHex)
        requires
            self.den > 0,
            k.den > 0,
            k.num != 0,
            -LERP_INPUT_MAX <= self.q_num <= LERP_INPUT_MAX,
            -LERP_INPUT_MAX <= self.r_num <= LERP_INPUT_MAX,
            -LERP_INPUT_MAX <= self.s_num <= LERP_INPUT_MAX,
            self.den <= LERP_INPUT_MAX,
            -LERP_INPUT_MAX <= k.num <= LERP_INPUT_MAX,
            k.den <= LERP_INPUT_MAX,
        ensures
            k.num > 0 ==> fh.den == self.den * k.num && fh.q_num == self.q_num * k.den
                && fh.r_num == self.r_num * k.den && fh.s_num == self.s_num * k.den,
            k.num < 0 ==> fh.den == -(self.den * k.num) && fh.q_num == -(self.q_num * k.den)
                && fh.r_num == -(self.r_num * k.den) && fh.s_num == -(self.s_num * k.den),
            fh.den > 0,
    {
        proof {
            lemma_scalar_products_bounded(*self, Frac { num: k.den, den: k.den });
            lemma_scalar_products_bounded(*self, Frac { num: k.num, den: k.den });
            if k.num > 0 {
                assert(self.den * k.num > 0) by (nonlinear_arith)
                    requires
                        self.den > 0,
                        k.num > 0,
                ;
            } else {
                assert(self.den * k.num < 0) by (nonlinear_arith)
                    requires
                        self.den > 0,
                        k.num < 0,
                ;
            }
        }
        if k.num > 0 {
            FractionalHex {
                q_num: self.q_num * k.den,
                r_num: self.r_num * k.den,
                s_num: self.s_num * k.den,
                den: self.den * k.num,
            }
        } else {
            FractionalHex {
                q_num: -(self.q_num * k.den),
                r_num: -(self.r_num * k.den),
                s_num: -(self.s_num * k.den),
                den: -(self.den * k.num),
            }
        }
    }

    /// Componentwise negation.
    pub fn neg(&self) -> (fh: FractionalHex)
        requires
            self.q_num != i64::MIN,
            self.r_num != i64::MIN,
            self.s_num != i64::MIN,
        ensures
            fh.q_num == -self.q_num,
            fh.r_num == -self.r_num,
            fh.s_num == -self.s_num,
            fh.den == self.den,
    {
        FractionalHex {
            q_num: -self.q_num,
            r_num: -self.r_num,
            s_num: -self.s_num,
            den: self.den,
        }
    }

    /// Rounds to the nearest well-formed cube hex under the
    /// largest-residual correction rule.
    pub fn round(&self) -> (h: Hex)
        requires
            self.den > 0,
            -ROUND_INPUT_MAX <= self.q_num <= ROUND_INPUT_MAX,
            -ROUND_INPUT_MAX <= self.r_num <= ROUND_INPUT_MAX,
            -ROUND_INPUT_MAX <= self.s_num <= ROUND_INPUT_MAX,
        ensures
            ({
                let (q, r, s) = frac_round_spec(
                    self.q_num as int,
                    self.r_num as int,
                    self.s_num as int,
                    self.den as int,
                );
                h.q == q && h.r == r && h.s == s
            }),
            hex_wf(h),
    {
        round_triple(
            self.q_num as i128,
            self.r_num as i128,
            self.s_num as i128,
            self.den as i128,
        )
    }

    /// Linear interpolation `self * (1 - t) + other * t`, computed
    /// exactly; `t` is unconstrained, so extrapolation is legal.
    pub fn lerp(&self, other: FractionalHex, t: Frac) -> (fh: FractionalHex)
        requires
            self.den > 0,
            other.den > 0,
            t.den > 0,
            -LERP_INPUT_MAX <= self.q_num <= LERP_INPUT_MAX,
            -LERP_INPUT_MAX <= self.r_num <= LERP_INPUT_MAX,
            -LERP_INPUT_MAX <= self.s_num <= LERP_INPUT_MAX,
            self.den <= LERP_INPUT_MAX,
            -LERP_INPUT_MAX <= other.q_num <= LERP_INPUT_MAX,
            -LERP_INPUT_MAX <= other.r_num <= LERP_INPUT_MAX,
            -LERP_INPUT_MAX <= other.s_num <= LERP_INPUT_MAX,
            other.den <= LERP_INPUT_MAX,
            -LERP_INPUT_MAX <= t.num <= LERP_INPUT_MAX,
            t.den <= LERP_INPUT_MAX,
        ensures
            fh.den == self.den * other.den * t.den,
            fh.q_num == self.q_num * (t.den - t.num) * other.den + other.q_num * t.num
                * self.den,
            fh.r_num == self.r_num * (t.den - t.num) * other.den + other.r_num * t.num
                * self.den,
            fh.s_num == self.s_num * (t.den - t.num) * other.den + other.s_num * t.num
                * self.den,
            fh.den > 0,
            frac_hex_wf(*self) && frac_hex_wf(other) ==> frac_hex_wf(fh),
    {
        let u: i64 = t.den - t.num;
        proof {
            assert(abs_i(self.q_num * u) <= 0x20_0000_0000_0000
                && abs_i(self.q_num * u * other.den) <= 0x2000_0000_0000_0000
                && abs_i(self.r_num * u) <= 0x20_0000_0000_0000
                && abs_i(self.r_num * u * other.den) <= 0x2000_0000_0000_0000
                && abs_i(self.s_num * u) <= 0x20_0000_0000_0000
                && abs_i(self.s_num * u * other.den) <= 0x2000_0000_0000_0000
                && abs_i(other.q_num * t.num) <= 0x100_0000_0000
                && abs_i(other.q_num * t.num * self.den) <= 0x1000_0000_0000_0000
                && abs_i(other.r_num * t.num) <= 0x100_0000_0000
                && abs_i(other.r_num * t.num * self.den) <= 0x1000_0000_0000_0000
                && abs_i(other.s_num * t.num) <= 0x100_0000_0000
                && abs_i(other.s_num * t.num * self.den) <= 0x1000_0000_0000_0000
                && 0 < self.den * other.den <= 0x100_0000_0000
                && 0 < self.den * other.den * t.den <= 0x1000_0000_0000_0000)
                by (nonlinear_arith)
                requires
                    -LERP_INPUT_MAX <= self.q_num <= LERP_INPUT_MAX,
                    -LERP_INPUT_MAX <= self.r_num <= LERP_INPUT_MAX,
                    -LERP_INPUT_MAX <= self.s_num <= LERP_INPUT_MAX,
                    0 < self.den <= LERP_INPUT_MAX,
                    -LERP_INPUT_MAX <= other.q_num <= LERP_INPUT_MAX,
                    -LERP_INPUT_MAX <= other.r_num <= LERP_INPUT_MAX,
                    -LERP_INPUT_MAX <= other.s_num <= LERP_INPUT_MAX,
                    0 < other.den <= LERP_INPUT_MAX,
                    -LERP_INPUT_MAX <= t.num <= LERP_INPUT_MAX,
                    0 < t.den <= LERP_INPUT_MAX,
                    u == t.den - t.num,
            ;
        }
        let q_num: i64 = self.q_num * u * other.den + other.q_num * t.num * self.den;
        let r_num: i64 = self.r_num * u * other.den + other.r_num * t.num * self.den;
        let s_num: i64 = self.s_num * u * other.den + other.s_num * t.num * self.den;
        let den: i64 = self.den * other.den * t.den;
        proof {
            if frac_hex_wf(*self) && frac_hex_wf(other) {
                assert(q_num + r_num + s_num == 0) by (nonlinear_arith)
                    requires
                        q_num == self.q_num * u * other.den + other.q_num * t.num * self.den,
                        r_num == self.r_num * u * other.den + other.r_num * t.num * self.den,
                        s_num == self.s_num * u * other.den + other.s_num * t.num * self.den,
                        self.q_num + self.r_num + self.s_num == 0,
                        other.q_num + other.r_num + other.s_num == 0,
                ;
            }
        }
        FractionalHex { q_num, r_num, s_num, den }
    }

    /// Linear interpolation under its other established name.
    pub fn linear_interpolation(&self, other: FractionalHex, t: Frac) -> (fh: FractionalHex)
        requires
            self.den > 0,
            other.den > 0,
            t.den > 0,
            -LERP_INPUT_MAX <= self.q_num <= LERP_INPUT_MAX,
            -LERP_INPUT_MAX <= self.r_num <= LERP_INPUT_MAX,
            -LERP_INPUT_MAX <= self.s_num <= LERP_INPUT_MAX,
            self.den <= LERP_INPUT_MAX,
            -LERP_INPUT_MAX <= other.q_num <= LERP_INPUT_MAX,
            -LERP_INPUT_MAX <= other.r_num <= LERP_INPUT_MAX,
            -LERP_INPUT_MAX <= other.s_num <= LERP_INPUT_MAX,
            other.den <= LERP_INPUT_MAX,
            -LERP_INPUT_MAX <= t.num <= LERP_INPUT_MAX,
            t.den <= LERP_INPUT_MAX,
        ensures
            fh.den == self.den * other.den * t.den,
            fh.q_num == self.q_num * (t.den - t.num) * other.den + other.q_num * t.num
                * self.den,
            fh.r_num == self.r_num * (t.den - t.num) * other.den + other.r_num * t.num
                * self.den,
            fh.s_num == self.s_num * (t.den - t.num) * other.den + other.s_num * t.num
                * self.den,
            fh.den > 0,
            frac_hex_wf(*self) && frac_hex_wf(other) ==> frac_hex_wf(fh),
    {
        self.lerp(other, t)
    }
}

} // verus!
