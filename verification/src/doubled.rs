//! Doubled coordinates: a (col, row) pair in which one axis is doubled,
//! so conversions to and from cube coordinates need no parity argument.
//! Two families exist — doubled-width (q-based) and doubled-height
//! (r-based) — selected by which conversion is called.

use vstd::prelude::*;
use crate::arith::{tdiv, trunc_div2_i128};
use crate::hex::{hex_wf, Hex};

verus! {

/// A hex addressed by column and row of a doubled rectangular grid.
#[derive(Clone, Copy, Debug, PartialEq, Eq, Structural, Hash)]
pub struct DoubledCoord {
    pub col: i64,
    pub row: i64,
}

/// Doubled-width coordinates of the cube hex `(q, r)`: the column is
/// `q` and the row is doubled.
pub open spec fn spec_doubled_q_from_cube(q: int, r: int) -> (int, int) {
    (q, 2 * r + q)
}

/// Cube `(q, r)` recovered from doubled-width coordinates. The halving
/// truncates, which is exact on valid coordinates, where `row - col`
/// is even.
pub open spec fn spec_doubled_q_to_cube(col: int, row: int) -> (int, int) {
    (col, tdiv(row - col, 2))
}

/// Doubled-height coordinates of the cube hex `(q, r)`: the row is `r`
/// and the column is doubled.
pub open spec fn spec_doubled_r_from_cube(q: int, r: int) -> (int, int) {
    (2 * q + r, r)
}

/// Cube `(q, r)` recovered from doubled-height coordinates. The halving
/// truncates, which is exact on valid coordinates, where `col - row`
/// is even.
pub open spec fn spec_doubled_r_to_cube(col: int, row: int) -> (int, int) {
    (tdiv(col - row, 2), row)
}

impl DoubledCoord {
    /// Doubled-width coordinates of a cube hex.
    pub fn q_from_cube(hex: Hex) -> (c: DoubledCoord)
        requires
            i64::MIN <= 2 * hex.r + hex.q <= i64::MAX,
        ensures
            (c.col as int, c.row as int) == spec_doubled_q_from_cube(hex.q as int, hex.r as int),
    {
        let row: i64 = (2 * (hex.r as i128) + (hex.q as i128)) as i64;
        DoubledCoord { col: hex.q, row }
    }

    /// The cube hex of doubled-width coordinates.
    pub fn q_to_cube(self) -> (h: Hex)
        requires
            ({
                let (q, r) = spec_doubled_q_to_cube(self.col as int, self.row as int);
                i64::MIN <= r <= i64::MAX && i64::MIN <= -q - r <= i64::MAX
            }),
        ensures
            ({
                let (q, r) = spec_doubled_q_to_cube(self.col as int, self.row as int);
                h.q == q && h.r == r && h.s == -q - r
            }),
            hex_wf(h),
    {
        let r: i64 = trunc_div2_i128((self.row as i128) - (self.col as i128)) as i64;
        Hex::new(self.col, r)
    }

    /// Doubled-height coordinates of a cube hex.
    pub fn r_from_cube(hex: Hex) -> (c: DoubledCoord)
        requires
            i64::MIN <= 2 * hex.q + hex.r <= i64::MAX,
        ensures
            (c.col as int, c.row as int) == spec_doubled_r_from_cube(hex.q as int, hex.r as int),
    {
        let col: i64 = (2 * (hex.q as i128) + (hex.r as i128)) as i64;
        DoubledCoord { col, row: hex.r }
    }

    /// The cube hex of doubled-height coordinates.
    pub fn r_to_cube(self) -> (h: Hex)
        requires
            ({
                let (q, r) = spec_doubled_r_to_cube(self.col as int, self.row as int);
                i64::MIN <= q <= i64::MAX && i64::MIN <= -q - r <= i64::MAX
            }),
        ensures
            ({
                let (q, r) = spec_doubled_r_to_cube(self.col as int, self.row as int);
                h.q == q && h.r == r && h.s == -q - r
            }),
            hex_wf(h),
    {
        let q: i64 = trunc_div2_i128((self.col as i128) - (self.row as i128)) as i64;
        Hex::new(q, self.row)
    }

    /// Componentwise sum.
    pub fn add(self, other: DoubledCoord) -> (c: DoubledCoord)
        requires
            i64::MIN <= self.col + other.col <= i64::MAX,
            i64::MIN <= self.row + other.row <= i64::MAX,
        ensures
            c.col == self.col + other.col,
            c.row == self.row + other.row,
    {
        DoubledCoord { col: self.col + other.col, row: self.row + other.row }
    }

    /// Componentwise difference.
    pub fn sub(self, other: DoubledCoord) -> (c: DoubledCoord)
        requires
            i64::MIN <= self.col - other.col <= i64::MAX,
            i64::MIN <= self.row - other.row <= i64::MAX,
        ensures
            c.col == self.col - other.col,
            c.row == self.row - other.row,
    {
        DoubledCoord { col: self.col - other.col, row: self.row - other.row }
    }

    /// Componentwise scalar multiple.
    pub fn mul(self, k: i64) -> (c: DoubledCoord)
        requires
            i64::MIN <= self.col * k <= i64::MAX,
            i64::MIN <= self.row * k <= i64::MAX,
        ensures
            c.col == self.col * k,
            c.row == self.row * k,
    {
        DoubledCoord { col: self.col * k, row: self.row * k }
    }

    /// Componentwise negation.
    pub fn neg(self) -> (c: DoubledCoord)
        requires
            self.col != i64::MIN,
            self.row != i64::MIN,
        ensures
            c.col == -self.col,
            c.row == -self.row,
    {
        DoubledCoord { col: -self.col, row: -self.row }
    }
}

} // verus!
