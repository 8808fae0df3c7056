//! Offset coordinates: a (col, row) pair over a "shoved" rectangular
//! grid. Converting to or from cube coordinates needs a parity
//! argument; both conversions are exact and invert each other.

use vstd::prelude::*;
use crate::arith::shove_half;
use crate::hex::{hex_wf, Hex};
use crate::util::{spec_offset_value, Offset};

verus! {

/// A hex addressed by column and row of a shoved rectangular grid.
#[derive(Debug, Clone, Copy, PartialEq, Eq, Structural, Hash)]
pub struct OffsetCoord {
    pub col: i64,
    pub row: i64,
}

/// Column-based offset coordinates of the cube hex `(q, r)` under the
/// shove value `off`: the column is `q` and the row absorbs half of the
/// parity-adjusted column.
pub open spec fn spec_offset_q_from_cube(off: int, q: int, r: int) -> (int, int) {
    (q, r + (q + off * (q % 2)) / 2)
}

/// Cube `(q, r)` recovered from column-based offset coordinates; the
/// algebraic inverse of `spec_offset_q_from_cube`.
pub open spec fn spec_offset_q_to_cube(off: int, col: int, row: int) -> (int, int) {
    (col, row - (col + off * (col % 2)) / 2)
}

/// Row-based offset coordinates of the cube hex `(q, r)` under the
/// shove value `off`.
pub open spec fn spec_offset_r_from_cube(off: int, q: int, r: int) -> (int, int) {
    (q + (r + off * (r % 2)) / 2, r)
}

/// Cube `(q, r)` recovered from row-based offset coordinates; the
/// algebraic inverse of `spec_offset_r_from_cube`.
pub open spec fn spec_offset_r_to_cube(off: int, col: int, row: int) -> (int, int) {
    (col - (row + off * (row % 2)) / 2, row)
}

impl OffsetCoord {
    /// Column-based offset coordinates of a cube hex.
    pub fn q_from_cube(hex: Hex, offset: Offset) -> (c: OffsetCoord)
        requires
            i64::MIN <= spec_offset_q_from_cube(
                spec_offset_value(offset),
                hex.q as int,
                hex.r as int,
            ).1 <= i64::MAX,
        ensures
            (c.col as int, c.row as int) == spec_offset_q_from_cube(
                spec_offset_value(offset),
                hex.q as int,
                hex.r as int,
            ),
    {
        let off: i64 = offset.into();
        let half: i64 = shove_half(hex.q, off);
        let row: i64 = ((hex.r as i128) + (half as i128)) as i64;
        OffsetCoord { col: hex.q, row }
    }

    /// The cube hex of column-based offset coordinates.
    pub fn q_to_cube(self, offset: Offset) -> (h: Hex)
        requires
            ({
                let (q, r) = spec_offset_q_to_cube(
                    spec_offset_value(offset),
                    self.col as int,
                    self.row as int,
                );
                i64::MIN <= r <= i64::MAX && i64::MIN <= -q - r <= i64::MAX
            }),
        ensures
            ({
                let (q, r) = spec_offset_q_to_cube(
                    spec_offset_value(offset),
                    self.col as int,
                    self.row as int,
                );
                h.q == q && h.r == r && h.s == -q - r
            }),
            hex_wf(h),
    {
        let off: i64 = offset.into();
        let half: i64 = shove_half(self.col, off);
        let r: i64 = ((self.row as i128) - (half as i128)) as i64;
        Hex::new(self.col, r)
    }

    /// Row-based offset coordinates of a cube hex.
    pub fn r_from_cube(hex: Hex, offset: Offset) -> (c: OffsetCoord)
        requires
            i64::MIN <= spec_offset_r_from_cube(
                spec_offset_value(offset),
                hex.q as int,
                hex.r as int,
            ).0 <= i64::MAX,
        ensures
            (c.col as int, c.row as int) == spec_offset_r_from_cube(
                spec_offset_value(offset),
                hex.q as int,
                hex.r as int,
            ),
    {
        let off: i64 = offset.into();
        let half: i64 = shove_half(hex.r, off);
        let col: i64 = ((hex.q as i128) + (half as i128)) as i64;
        OffsetCoord { col, row: hex.r }
    }

    /// The cube hex of row-based offset coordinates.
    pub fn r_to_cube(self, offset: Offset) -> (h: Hex)
        requires
            ({
                let (q, r) = spec_offset_r_to_cube(
                    spec_offset_value(offset),
                    self.col as int,
                    self.row as int,
                );
                i64::MIN <= q <= i64::MAX && i64::MIN <= -q - r <= i64::MAX
            }),
        ensures
            ({
                let (q, r) = spec_offset_r_to_cube(
                    spec_offset_value(offset),
                    self.col as int,
                    self.row as int,
                );
                h.q == q && h.r == r && h.s == -q - r
            }),
            hex_wf(h),
    {
        let off: i64 = offset.into();
        let half: i64 = shove_half(self.row, off);
        let q: i64 = ((self.col as i128) - (half as i128)) as i64;
        Hex::new(q, self.row)
    }

    /// Componentwise sum.
    pub fn add(self, other: OffsetCoord) -> (c: OffsetCoord)
        requires
            i64::MIN <= self.col + other.col <= i64::MAX,
            i64::MIN <= self.row + other.row <= i64::MAX,
        ensures
            c.col == self.col + other.col,
            c.row == self.row + other.row,
    {
        OffsetCoord { col: self.col + other.col, row: self.row + other.row }
    }

    /// Componentwise difference.
    pub fn sub(self, other: OffsetCoord) -> (c: OffsetCoord)
        requires
            i64::MIN <= self.col - other.col <= i64::MAX,
            i64::MIN <= self.row - other.row <= i64::MAX,
        ensures
            c.col == self.col - other.col,
            c.row == self.row - other.row,
    {
        OffsetCoord { col: self.col - other.col, row: self.row - other.row }
    }

    /// Componentwise scalar multiple.
    pub fn mul(self, k: i64) -> (c: OffsetCoord)
        requires
            i64::MIN <= self.col * k <= i64::MAX,
            i64::MIN <= self.row * k <= i64::MAX,
        ensures
            c.col == self.col * k,
            c.row == self.row * k,
    {
        OffsetCoord { col: self.col * k, row: self.row * k }
    }

    /// Componentwise truncating scalar division.
    pub fn div(self, k: i64) -> (c: OffsetCoord)
        requires
            k != 0,
            !(k == -1 && (self.col == i64::MIN || self.row == i64::MIN)),
        ensures
            c.col == crate::arith::tdiv(self.col as int, k as int),
            c.row == crate::arith::tdiv(self.row as int, k as int),
    {
        OffsetCoord {
            col: crate::arith::trunc_div_i64(self.col, k),
            row: crate::arith::trunc_div_i64(self.row, k),
        }
    }
}

} // verus!
