//! The parity argument of the offset coordinate conversions.

use vstd::prelude::*;

verus! {

/// Parity of an offset coordinate system: `Even` shoves odd columns or
/// rows by +1, `Odd` by -1. It is a conversion argument, not a property
/// of a coordinate.
#[derive(Debug, Clone, Copy, PartialEq, Eq, Structural)]
pub enum Offset {
    Even,
    Odd,
}

/// The shove value of a parity: +1 for `Even`, -1 for `Odd`.
pub open spec fn spec_offset_value(o: Offset) -> int {
    match o {
        Offset::Even => 1,
        Offset::Odd => -1,
    }
}

impl Offset {
    /// The shove value that the conversion formulas use.
    pub fn into(self) -> (v: i64)
        ensures
            v == spec_offset_value(self),
    {
        match self {
            Offset::Even => 1,
            Offset::Odd => -1,
        }
    }
}

} // verus!
