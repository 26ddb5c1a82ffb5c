use vstd::prelude::*;

verus! {

/// The rounding control decoration of an EVEX encoded instruction.
#[derive(Copy, Clone, Debug, Eq, PartialEq, Hash, Structural)]
pub enum RoundingControl {
    /// No rounding mode.
    None_,
    /// Round to nearest (even).
    RoundToNearest,
    /// Round down (toward negative infinity).
    RoundDown,
    /// Round up (toward positive infinity).
    RoundUp,
    /// Round toward zero (truncate).
    RoundTowardZero,
}

impl RoundingControl {
    /// The ordinal of this value in the enumeration.
    pub open spec fn spec_number(self) -> u8 {
        match self {
            RoundingControl::None_ => 0,
            RoundingControl::RoundToNearest => 1,
            RoundingControl::RoundDown => 2,
            RoundingControl::RoundUp => 3,
            RoundingControl::RoundTowardZero => 4,
        }
    }

    /// Returns the ordinal of this value in the enumeration.
    pub fn number(self) -> (n: u8)
        ensures
            n == self.spec_number(),
    {
        match self {
            RoundingControl::None_ => 0,
            RoundingControl::RoundToNearest => 1,
            RoundingControl::RoundDown => 2,
            RoundingControl::RoundUp => 3,
            RoundingControl::RoundTowardZero => 4,
        }
    }

    /// The value with the given ordinal; out-of-range ordinals map to `None_`.
    pub open spec fn spec_from_number(n: u8) -> RoundingControl {
        if n == 1 {
            RoundingControl::RoundToNearest
        } else if n == 2 {
            RoundingControl::RoundDown
        } else if n == 3 {
            RoundingControl::RoundUp
        } else if n == 4 {
            RoundingControl::RoundTowardZero
        } else {
            RoundingControl::None_
        }
    }

    /// Returns the value with the given ordinal; out-of-range ordinals map to `None_`.
    pub fn from_number(n: u8) -> (r: RoundingControl)
        ensures
            r == Self::spec_from_number(n),
    {
        if n == 1 {
            RoundingControl::RoundToNearest
        } else if n == 2 {
            RoundingControl::RoundDown
        } else if n == 3 {
            RoundingControl::RoundUp
        } else if n == 4 {
            RoundingControl::RoundTowardZero
        } else {
            RoundingControl::None_
        }
    }

    /// Converting a value to its ordinal and back yields the value.
    pub proof fn lemma_number_roundtrip(self)
        ensures
            Self::spec_from_number(self.spec_number()) == self,
            self.spec_number() < 5,
    {
    }
}

} // verus!
