//! Cube coordinates for hexagonal grids: three integers (q, r, s) whose
//! sum is zero. Arithmetic, rotation, distance, neighbours and
//! straight-line paths.

use vstd::prelude::*;
use crate::arith::{abs_i, iabs_i128, tdiv};
use crate::fractional::frac_round_spec;

verus! {

/// Denominator of the endpoint nudge applied by `line`: both endpoints
/// are shifted by `1/NUDGE_SCALE` in q and r and by `-2/NUDGE_SCALE` in
/// s before interpolating, so that interpolated points never land on a
/// rounding tie between two hexes.
pub const NUDGE_SCALE: i64 = 1_000_000;

/// Coordinate bound accepted by `line`, within which the exact
/// interpolation arithmetic stays representable in machine integers.
pub const LINE_COORD_MAX: i64 = 0x4000_0000;

/// A hex in cube coordinates. Well-formed values satisfy `q + r + s == 0`;
/// `new` derives `s` so that the invariant holds by construction.
#[derive(Clone, Copy, Debug, PartialEq, Eq, Structural, Hash)]
pub struct Hex {
    pub q: i64,
    pub r: i64,
    pub s: i64,
}

/// Builds a hex from all three components, as given.
pub fn hex(q: i64, r: i64, s: i64) -> (h: Hex)
    ensures
        h == (Hex { q, r, s }),
{
    Hex { q, r, s }
}

/// The zero-sum invariant of cube coordinates.
pub open spec fn hex_wf(h: Hex) -> bool {
    h.q + h.r + h.s == 0
}

/// Rotation by 60 degrees counterclockwise: a cyclic permutation of the
/// negated components.
pub open spec fn spec_rotate_left(q: int, r: int, s: int) -> (int, int, int) {
    (-s, -q, -r)
}

/// Rotation by 60 degrees clockwise, the inverse of `spec_rotate_left`.
pub open spec fn spec_rotate_right(q: int, r: int, s: int) -> (int, int, int) {
    (-r, -s, -q)
}

/// Distance from the origin: half the componentwise absolute sum, which
/// is exact on zero-sum coordinates.
pub open spec fn spec_length(h: Hex) -> int {
    (abs_i(h.q as int) + abs_i(h.r as int) + abs_i(h.s as int)) / 2
}

/// Grid distance between two hexes: the length of their difference.
pub open spec fn spec_distance(a: Hex, b: Hex) -> int {
    (abs_i(a.q - b.q) + abs_i(a.r - b.r) + abs_i(a.s - b.s)) / 2
}

/// The six unit neighbour steps, selected by direction index modulo 6.
pub open spec fn spec_direction(d: int) -> Hex {
    let i = d % 6;
    if i == 0 {
        Hex { q: 1i64, r: 0i64, s: -1i64 }
    } else if i == 1 {
        Hex { q: 1i64, r: -1i64, s: 0i64 }
    } else if i == 2 {
        Hex { q: 0i64, r: -1i64, s: 1i64 }
    } else if i == 3 {
        Hex { q: -1i64, r: 0i64, s: 1i64 }
    } else if i == 4 {
        Hex { q: -1i64, r: 1i64, s: 0i64 }
    } else {
        Hex { q: 0i64, r: 1i64, s: -1i64 }
    }
}

/// The six diagonal steps, selected by direction index modulo 6.
pub open spec fn spec_diagonal(d: int) -> Hex {
    let i = d % 6;
    if i == 0 {
        Hex { q: 2i64, r: -1i64, s: -1i64 }
    } else if i == 1 {
        Hex { q: 1i64, r: -2i64, s: 1i64 }
    } else if i == 2 {
        Hex { q: -1i64, r: -1i64, s: 2i64 }
    } else if i == 3 {
        Hex { q: -2i64, r: 1i64, s: 1i64 }
    } else if i == 4 {
        Hex { q: -1i64, r: 2i64, s: -1i64 }
    } else {
        Hex { q: 1i64, r: 1i64, s: -2i64 }
    }
}

/// The point `i` steps along the line from `a` to `b`: the exact linear
/// interpolation of the nudged endpoints at parameter `i / m`, where
/// `m = max(distance(a, b), 1)`, rounded to the nearest well-formed hex.
pub open spec fn line_point(a: Hex, b: Hex, i: int) -> Hex {
    let n = spec_distance(a, b);
    let m = if n > 0 {
        n
    } else {
        1
    };
    let den = m * NUDGE_SCALE;
    let qn = NUDGE_SCALE * (a.q * (m - i) + b.q * i) + m;
    let rn = NUDGE_SCALE * (a.r * (m - i) + b.r * i) + m;
    let sn = NUDGE_SCALE * (a.s * (m - i) + b.s * i) - 2 * m;
    let (q, r, s) = frac_round_spec(qn, rn, sn, den);
    Hex { q: q as i64, r: r as i64, s: s as i64 }
}

/// Reduces a direction index to its residue in `0..6`, as the spec-level
/// Euclidean remainder does for any integer, negative ones included.
fn direction_index(direction: i64) -> (i: i64)
    ensures
        i == direction as int % 6,
        0 <= i < 6,
{
    let m: i64 = direction % 6;
    if m < 0 {
        m + 6
    } else {
        m
    }
}

impl Hex {
    /// Constructs a hex from axial coordinates, deriving `s = -q - r`.
    pub fn new(q: i64, r: i64) -> (h: Hex)
        requires
            i64::MIN <= -q - r <= i64::MAX,
        ensures
            h.q == q,
            h.r == r,
            h.s == -q - r,
            hex_wf(h),
    {
        let s: i64 = (-(q as i128) - (r as i128)) as i64;
        Hex { q, r, s }
    }

    pub fn q(&self) -> (v: i64)
        ensures
            v == self.q,
    {
        self.q
    }

    pub fn r(&self) -> (v: i64)
        ensures
            v == self.r,
    {
        self.r
    }

    pub fn s(&self) -> (v: i64)
        ensures
            v == self.s,
    {
        self.s
    }

    /// Componentwise sum; preserves the zero-sum invariant.
    pub fn add(&self, other: Hex) -> (h: Hex)
        requires
            i64::MIN <= self.q + other.q <= i64::MAX,
            i64::MIN <= self.r + other.r <= i64::MAX,
            i64::MIN <= self.s + other.s <= i64::MAX,
        ensures
            h.q == self.q + other.q,
            h.r == self.r + other.r,
            h.s == self.s + other.s,
            hex_wf(*self) && hex_wf(other) ==> hex_wf(h),
    {
        Hex { q: self.q + other.q, r: self.r + other.r, s: self.s + other.s }
    }

    /// Componentwise difference; preserves the zero-sum invariant.
    pub fn sub(&self, other: Hex) -> (h: Hex)
        requires
            i64::MIN <= self.q - other.q <= i64::MAX,
            i64::MIN <= self.r - other.r <= i64::MAX,
            i64::MIN <= self.s - other.s <= i64::MAX,
        ensures
            h.q == self.q - other.q,
            h.r == self.r - other.r,
            h.s == self.s - other.s,
            hex_wf(*self) && hex_wf(other) ==> hex_wf(h),
    {
        Hex { q: self.q - other.q, r: self.r - other.r, s: self.s - other.s }
    }

    /// Componentwise scalar multiple; preserves the zero-sum invariant.
    pub fn scale(&self, k: i64) -> (h: Hex)
        requires
            i64::MIN <= self.q * k <= i64::MAX,
            i64::MIN <= self.r * k <= i64::MAX,
            i64::MIN <= self.s * k <= i64::MAX,
        ensures
            h.q == self.q * k,
            h.r == self.r * k,
            h.s == self.s * k,
            hex_wf(*self) ==> hex_wf(h),
    {
        proof {
            if hex_wf(*self) {
                assert(self.q * k + self.r * k + self.s * k == (self.q + self.r + self.s) * k)
                    by (nonlinear_arith);
            }
        }
        Hex { q: self.q * k, r: self.r * k, s: self.s * k }
    }

    /// Componentwise truncating scalar division. Truncation may break the
    /// zero-sum invariant when `k` does not divide all three components;
    /// avoiding that is the caller's responsibility.
    pub fn div(&self, k: i64) -> (h: Hex)
        requires
            k != 0,
            !(k == -1 && (self.q == i64::MIN || self.r == i64::MIN || self.s == i64::MIN)),
        ensures
            h.q == tdiv(self.q as int, k as int),
            h.r == tdiv(self.r as int, k as int),
            h.s == tdiv(self.s as int, k as int),
    {
        Hex {
            q: crate::arith::trunc_div_i64(self.q, k),
            r: crate::arith::trunc_div_i64(self.r, k),
            s: crate::arith::trunc_div_i64(self.s, k),
        }
    }

    /// Rotates 60 degrees counterclockwise.
    pub fn rotate_left(&self) -> (h: Hex)
        requires
            self.q != i64::MIN,
            self.r != i64::MIN,
            self.s != i64::MIN,
        ensures
            (h.q as int, h.r as int, h.s as int) == spec_rotate_left(
                self.q as int,
                self.r as int,
                self.s as int,
            ),
            hex_wf(*self) ==> hex_wf(h),
    {
        Hex { q: -self.s, r: -self.q, s: -self.r }
    }

    /// Rotates 60 degrees clockwise.
    pub fn rotate_right(&self) -> (h: Hex)
        requires
            self.q != i64::MIN,
            self.r != i64::MIN,
            self.s != i64::MIN,
        ensures
            (h.q as int, h.r as int, h.s as int) == spec_rotate_right(
                self.q as int,
                self.r as int,
                self.s as int,
            ),
            hex_wf(*self) ==> hex_wf(h),
    {
        Hex { q: -self.r, r: -self.s, s: -self.q }
    }

    /// Distance from the origin.
    pub fn length(&self) -> (len: i64)
        requires
            spec_length(*self) <= i64::MAX,
        ensures
            len == spec_length(*self),
            len >= 0,
    {
        let aq: i128 = iabs_i128(self.q as i128);
        let ar: i128 = iabs_i128(self.r as i128);
        let as_: i128 = iabs_i128(self.s as i128);
        ((aq + ar + as_) / 2) as i64
    }

    /// Grid distance to another hex.
    pub fn distance(&self, to: Hex) -> (d: i64)
        requires
            spec_distance(*self, to) <= i64::MAX,
        ensures
            d == spec_distance(*self, to),
            d >= 0,
    {
        let dq: i128 = iabs_i128(self.q as i128 - to.q as i128);
        let dr: i128 = iabs_i128(self.r as i128 - to.r as i128);
        let ds: i128 = iabs_i128(self.s as i128 - to.s as i128);
        ((dq + dr + ds) / 2) as i64
    }

    /// The neighbour one step away in the given direction; the index is
    /// taken modulo 6, so any integer selects a direction.
    pub fn neighbor(&self, direction: i64) -> (h: Hex)
        requires
            i64::MIN <= self.q + spec_direction(direction as int).q <= i64::MAX,
            i64::MIN <= self.r + spec_direction(direction as int).r <= i64::MAX,
            i64::MIN <= self.s + spec_direction(direction as int).s <= i64::MAX,
        ensures
            h.q == self.q + spec_direction(direction as int).q,
            h.r == self.r + spec_direction(direction as int).r,
            h.s == self.s + spec_direction(direction as int).s,
    {
        self.add(direction_hex(direction))
    }

    /// The diagonal neighbour in the given direction; the index is taken
    /// modulo 6, so any integer selects a direction.
    pub fn diagonal(&self, direction: i64) -> (h: Hex)
        requires
            i64::MIN <= self.q + spec_diagonal(direction as int).q <= i64::MAX,
            i64::MIN <= self.r + spec_diagonal(direction as int).r <= i64::MAX,
            i64::MIN <= self.s + spec_diagonal(direction as int).s <= i64::MAX,
        ensures
            h.q == self.q + spec_diagonal(direction as int).q,
            h.r == self.r + spec_diagonal(direction as int).r,
            h.s == self.s + spec_diagonal(direction as int).s,
    {
        self.add(diagonal_hex(direction))
    }

    /// The straight path from `self` to `to`, inclusive: one hex per
    /// step, `distance + 1` in all. Both endpoints are nudged by a fixed
    /// small fraction before interpolating so that rounding ties along
    /// lattice boundaries resolve consistently; identical endpoints
    /// yield the single-element path.
    pub fn line(&self, to: Hex) -> (path: Vec<Hex>)
        requires
            hex_wf(*self),
            hex_wf(to),
            -LINE_COORD_MAX <= self.q <= LINE_COORD_MAX,
            -LINE_COORD_MAX <= self.r <= LINE_COORD_MAX,
            -LINE_COORD_MAX <= self.s <= LINE_COORD_MAX,
            -LINE_COORD_MAX <= to.q <= LINE_COORD_MAX,
            -LINE_COORD_MAX <= to.r <= LINE_COORD_MAX,
            -LINE_COORD_MAX <= to.s <= LINE_COORD_MAX,
        ensures
            path@.len() == spec_distance(*self, to) + 1,
            forall|i: int| 0 <= i < path@.len() ==> path@[i] == line_point(*self, to, i),
    {
        let n: i64 = self.distance(to);
        let m: i64 = if n > 0 {
            n
        } else {
            1
        };
        let den: i128 = (m as i128) * (NUDGE_SCALE as i128);
        let aq: i128 = self.q as i128;
        let ar: i128 = self.r as i128;
        let as_: i128 = self.s as i128;
        let bq: i128 = to.q as i128;
        let br: i128 = to.r as i128;
        let bs: i128 = to.s as i128;
        let mut path: Vec<Hex> = Vec::new();
        let mut i: i64 = 0;
        while i <= n
            invariant
                n == spec_distance(*self, to),
                0 <= n <= 3 * LINE_COORD_MAX,
                m == (if n > 0 { n as int } else { 1int }),
                den == m * NUDGE_SCALE,
                aq == self.q && ar == self.r && as_ == self.s,
                bq == to.q && br == to.r && bs == to.s,
                -LINE_COORD_MAX <= self.q <= LINE_COORD_MAX,
                -LINE_COORD_MAX <= self.r <= LINE_COORD_MAX,
                -LINE_COORD_MAX <= self.s <= LINE_COORD_MAX,
                -LINE_COORD_MAX <= to.q <= LINE_COORD_MAX,
                -LINE_COORD_MAX <= to.r <= LINE_COORD_MAX,
                -LINE_COORD_MAX <= to.s <= LINE_COORD_MAX,
                0 <= i <= n + 1,
                path@.len() == i,
                forall|j: int| 0 <= j < i ==> path@[j] == line_point(*self, to, j),
            decreases n + 1 - i,
        {
            let mi: i128 = (m - i) as i128;
            let ii: i128 = i as i128;
            proof {
                assert(abs_i(aq as int * mi as int) <= 0x4000_0000_0000_0000
                    && abs_i(ar as int * mi as int) <= 0x4000_0000_0000_0000
                    && abs_i(as_ as int * mi as int) <= 0x4000_0000_0000_0000
                    && abs_i(bq as int * ii as int) <= 0x4000_0000_0000_0000
                    && abs_i(br as int * ii as int) <= 0x4000_0000_0000_0000
                    && abs_i(bs as int * ii as int) <= 0x4000_0000_0000_0000)
                    by (nonlinear_arith)
                    requires
                        -0x4000_0000 <= aq as int <= 0x4000_0000,
                        -0x4000_0000 <= ar as int <= 0x4000_0000,
                        -0x4000_0000 <= as_ as int <= 0x4000_0000,
                        -0x4000_0000 <= bq as int <= 0x4000_0000,
                        -0x4000_0000 <= br as int <= 0x4000_0000,
                        -0x4000_0000 <= bs as int <= 0x4000_0000,
                        0 <= mi as int <= 0xC000_0001,
                        0 <= ii as int <= 0xC000_0001,
                ;
            }
            let qn: i128 = (NUDGE_SCALE as i128) * (aq * mi + bq * ii) + (m as i128);
            let rn: i128 = (NUDGE_SCALE as i128) * (ar * mi + br * ii) + (m as i128);
            let sn: i128 = (NUDGE_SCALE as i128) * (as_ * mi + bs * ii) - 2 * (m as i128);
            proof {
                assert(2 * abs_i(qn as int) <= den as int * 0x4000_0000_0000_0000
                    && 2 * abs_i(rn as int) <= den as int * 0x4000_0000_0000_0000
                    && 2 * abs_i(sn as int) <= den as int * 0x4000_0000_0000_0000)
                    by (nonlinear_arith)
                    requires
                        -0x4000_0000 <= aq as int <= 0x4000_0000,
                        -0x4000_0000 <= ar as int <= 0x4000_0000,
                        -0x4000_0000 <= as_ as int <= 0x4000_0000,
                        -0x4000_0000 <= bq as int <= 0x4000_0000,
                        -0x4000_0000 <= br as int <= 0x4000_0000,
                        -0x4000_0000 <= bs as int <= 0x4000_0000,
                        0 <= mi as int,
                        0 <= ii as int,
                        mi as int + ii as int == m as int,
                        1 <= m as int,
                        den as int == m as int * 1_000_000,
                        qn as int == 1_000_000 * (aq as int * mi as int + bq as int
                            * ii as int) + m as int,
                        rn as int == 1_000_000 * (ar as int * mi as int + br as int
                            * ii as int) + m as int,
                        sn as int == 1_000_000 * (as_ as int * mi as int + bs as int
                            * ii as int) - 2 * m as int,
                ;
            }
            let h: Hex = crate::fractional::round_triple(qn, rn, sn, den);
            path.push(h);
            i = i + 1;
        }
        path
    }
}

/// The unit step for a direction index.
pub fn direction_hex(direction: i64) -> (h: Hex)
    ensures
        h == spec_direction(direction as int),
{
    let i: i64 = direction_index(direction);
    if i == 0 {
        Hex { q: 1, r: 0, s: -1 }
    } else if i == 1 {
        Hex { q: 1, r: -1, s: 0 }
    } else if i == 2 {
        Hex { q: 0, r: -1, s: 1 }
    } else if i == 3 {
        Hex { q: -1, r: 0, s: 1 }
    } else if i == 4 {
        Hex { q: -1, r: 1, s: 0 }
    } else {
        Hex { q: 0, r: 1, s: -1 }
    }
}

/// The diagonal step for a direction index.
pub fn diagonal_hex(direction: i64) -> (h: Hex)
    ensures
        h == spec_diagonal(direction as int),
{
    let i: i64 = direction_index(direction);
    if i == 0 {
        Hex { q: 2, r: -1, s: -1 }
    } else if i == 1 {
        Hex { q: 1, r: -2, s: 1 }
    } else if i == 2 {
        Hex { q: -1, r: -1, s: 2 }
    } else if i == 3 {
        Hex { q: -2, r: 1, s: 1 }
    } else if i == 4 {
        Hex { q: -1, r: 2, s: -1 }
    } else {
        Hex { q: 1, r: 1, s: -2 }
    }
}

} // verus!
