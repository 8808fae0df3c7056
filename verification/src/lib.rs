//! Coordinate algebra for hexagonal grids: cube coordinates with exact
//! integer arithmetic, rotation, distance and line drawing; offset and
//! doubled rectangular coordinate systems with invertible conversions;
//! and an exact fractional hex with the invariant-preserving rounding
//! rule that line drawing depends on.

pub mod arith;
pub mod doubled;
pub mod fractional;
pub mod hex;
pub mod laws;
pub mod offset;
pub mod tools;
pub mod util;
