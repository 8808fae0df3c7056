//! Companion helpers that expose the direction lookup and the offset
//! and doubled conversions as free-standing operations, with the shove
//! value passed as a plain integer.

use vstd::prelude::*;
use crate::doubled::{
    spec_doubled_q_from_cube, spec_doubled_q_to_cube, spec_doubled_r_from_cube,
    spec_doubled_r_to_cube, DoubledCoord,
};
use crate::hex::{direction_hex, hex_wf, spec_diagonal, spec_direction, Hex};
use crate::offset::{
    spec_offset_q_from_cube, spec_offset_q_to_cube, spec_offset_r_from_cube,
    spec_offset_r_to_cube, OffsetCoord,
};
use crate::util::Offset;

verus! {

/// The shove value of the even parity.
pub const HEX_EVEN: i64 = 1;

/// The shove value of the odd parity.
pub const HEX_ODD: i64 = -1;

/// Direction lookup and stepping on cube hexes.
pub struct HexDirection;

impl HexDirection {
    /// The unit step of a direction index, taken modulo 6.
    pub fn direction(direction: i64) -> (h: Hex)
        ensures
            h == spec_direction(direction as int),
    {
        direction_hex(direction)
    }

    /// The neighbour of `hex` one step in the given direction.
    pub fn neighbor(hex: Hex, direction: i64) -> (h: Hex)
        requires
            i64::MIN <= hex.q + spec_direction(direction as int).q <= i64::MAX,
            i64::MIN <= hex.r + spec_direction(direction as int).r <= i64::MAX,
            i64::MIN <= hex.s + spec_direction(direction as int).s <= i64::MAX,
        ensures
            h.q == hex.q + spec_direction(direction as int).q,
            h.r == hex.r + spec_direction(direction as int).r,
            h.s == hex.s + spec_direction(direction as int).s,
    {
        hex.neighbor(direction)
    }

    /// The diagonal neighbour of `hex` in the given direction.
    pub fn diagonal_neighbor(hex: Hex, direction: i64) -> (h: Hex)
        requires
            i64::MIN <= hex.q + spec_diagonal(direction as int).q <= i64::MAX,
            i64::MIN <= hex.r + spec_diagonal(direction as int).r <= i64::MAX,
            i64::MIN <= hex.s + spec_diagonal(direction as int).s <= i64::MAX,
        ensures
            h.q == hex.q + spec_diagonal(direction as int).q,
            h.r == hex.r + spec_diagonal(direction as int).r,
            h.s == hex.s + spec_diagonal(direction as int).s,
    {
        hex.diagonal(direction)
    }
}

/// Offset conversions taking the shove value as a plain integer, which
/// must be `HEX_EVEN` or `HEX_ODD`.
pub struct HexOffset;

impl HexOffset {
    /// Column-based offset coordinates of a cube hex.
    pub fn q_from_cube(offset: i64, hex: Hex) -> (c: OffsetCoord)
        requires
            offset == HEX_EVEN || offset == HEX_ODD,
            i64::MIN <= spec_offset_q_from_cube(offset as int, hex.q as int, hex.r as int).1
                <= i64::MAX,
        ensures
            (c.col as int, c.row as int) == spec_offset_q_from_cube(
                offset as int,
                hex.q as int,
                hex.r as int,
            ),
    {
        let o: Offset = if offset == HEX_EVEN {
            Offset::Even
        } else {
            Offset::Odd
        };
        OffsetCoord::q_from_cube(hex, o)
    }

    /// The cube hex of column-based offset coordinates.
    pub fn q_to_cube(offset: i64, coord: OffsetCoord) -> (h: Hex)
        requires
            offset == HEX_EVEN || offset == HEX_ODD,
            ({
                let (q, r) = spec_offset_q_to_cube(offset as int, coord.col as int, coord.row as int);
                i64::MIN <= r <= i64::MAX && i64::MIN <= -q - r <= i64::MAX
            }),
        ensures
            ({
                let (q, r) = spec_offset_q_to_cube(offset as int, coord.col as int, coord.row as int);
                h.q == q && h.r == r && h.s == -q - r
            }),
            hex_wf(h),
    {
        let o: Offset = if offset == HEX_EVEN {
            Offset::Even
        } else {
            Offset::Odd
        };
        coord.q_to_cube(o)
    }

    /// Row-based offset coordinates of a cube hex.
    pub fn r_from_cube(offset: i64, hex: Hex) -> (c: OffsetCoord)
        requires
            offset == HEX_EVEN || offset == HEX_ODD,
            i64::MIN <= spec_offset_r_from_cube(offset as int, hex.q as int, hex.r as int).0
                <= i64::MAX,
        ensures
            (c.col as int, c.row as int) == spec_offset_r_from_cube(
                offset as int,
                hex.q as int,
                hex.r as int,
            ),
    {
        let o: Offset = if offset == HEX_EVEN {
            Offset::Even
        } else {
            Offset::Odd
        };
        OffsetCoord::r_from_cube(hex, o)
    }

    /// The cube hex of row-based offset coordinates.
    pub fn r_to_cube(offset: i64, coord: OffsetCoord) -> (h: Hex)
        requires
            offset == HEX_EVEN || offset == HEX_ODD,
            ({
                let (q, r) = spec_offset_r_to_cube(offset as int, coord.col as int, coord.row as int);
                i64::MIN <= q <= i64::MAX && i64::MIN <= -q - r <= i64::MAX
            }),
        ensures
            ({
                let (q, r) = spec_offset_r_to_cube(offset as int, coord.col as int, coord.row as int);
                h.q == q && h.r == r && h.s == -q - r
            }),
            hex_wf(h),
    {
        let o: Offset = if offset == HEX_EVEN {
            Offset::Even
        } else {
            Offset::Odd
        };
        coord.r_to_cube(o)
    }
}

/// Doubled conversions as free-standing operations.
pub struct HexDoubled;

impl HexDoubled {
    /// Doubled-width coordinates of a cube hex.
    pub fn q_from_cube(h: Hex) -> (c: DoubledCoord)
        requires
            i64::MIN <= 2 * h.r + h.q <= i64::MAX,
        ensures
            (c.col as int, c.row as int) == spec_doubled_q_from_cube(h.q as int, h.r as int),
    {
        DoubledCoord::q_from_cube(h)
    }

    /// The cube hex of doubled-width coordinates.
    pub fn q_to_cube(h: DoubledCoord) -> (hx: Hex)
        requires
            ({
                let (q, r) = spec_doubled_q_to_cube(h.col as int, h.row as int);
                i64::MIN <= r <= i64::MAX && i64::MIN <= -q - r <= i64::MAX
            }),
        ensures
            ({
                let (q, r) = spec_doubled_q_to_cube(h.col as int, h.row as int);
                hx.q == q && hx.r == r && hx.s == -q - r
            }),
            hex_wf(hx),
    {
        h.q_to_cube()
    }

    /// Doubled-height coordinates of a cube hex.
    pub fn r_from_cube(h: Hex) -> (c: DoubledCoord)
        requires
            i64::MIN <= 2 * h.q + h.r <= i64::MAX,
        ensures
            (c.col as int, c.row as int) == spec_doubled_r_from_cube(h.q as int, h.r as int),
    {
        DoubledCoord::r_from_cube(h)
    }

    /// The cube hex of doubled-height coordinates.
    pub fn r_to_cube(h: DoubledCoord) -> (hx: Hex)
        requires
            ({
                let (q, r) = spec_doubled_r_to_cube(h.col as int, h.row as int);
                i64::MIN <= q <= i64::MAX && i64::MIN <= -q - r <= i64::MAX
            }),
        ensures
            ({
                let (q, r) = spec_doubled_r_to_cube(h.col as int, h.row as int);
                hx.q == q && hx.r == r && hx.s == -q - r
            }),
            hex_wf(hx),
    {
        h.r_to_cube()
    }
}

} // verus!
