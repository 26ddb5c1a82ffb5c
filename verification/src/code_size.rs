use vstd::prelude::*;

verus! {

/// The code size (operating mode) an instruction was decoded in.
///
/// The value is informational bookkeeping: structural equality of
/// instructions ignores it.
#[derive(Copy, Clone, Debug, Eq, PartialEq, Hash, Structural)]
pub enum CodeSize {
    /// Unknown size.
    Unknown,
    /// 16-bit code.
    Code16,
    /// 32-bit code.
    Code32,
    /// 64-bit code.
    Code64,
}

impl CodeSize {
    /// The ordinal of this value in the enumeration.
    pub open spec fn spec_number(self) -> u8 {
        match self {
            CodeSize::Unknown => 0,
            CodeSize::Code16 => 1,
            CodeSize::Code32 => 2,
            CodeSize::Code64 => 3,
        }
    }

    /// Returns the ordinal of this value in the enumeration.
    pub fn number(self) -> (n: u8)
        ensures
            n == self.spec_number(),
    {
        match self {
            CodeSize::Unknown => 0,
            CodeSize::Code16 => 1,
            CodeSize::Code32 => 2,
            CodeSize::Code64 => 3,
        }
    }

    /// The value with the given ordinal; out-of-range ordinals map to `Unknown`.
    pub open spec fn spec_from_number(n: u8) -> CodeSize {
        if n == 1 {
            CodeSize::Code16
        } else if n == 2 {
            CodeSize::Code32
        } else if n == 3 {
            CodeSize::Code64
        } else {
            CodeSize::Unknown
        }
    }

    /// Returns the value with the given ordinal; out-of-range ordinals map to `Unknown`.
    pub fn from_number(n: u8) -> (r: CodeSize)
        ensures
            r == Self::spec_from_number(n),
    {
        if n == 1 {
            CodeSize::Code16
        } else if n == 2 {
            CodeSize::Code32
        } else if n == 3 {
            CodeSize::Code64
        } else {
            CodeSize::Unknown
        }
    }

    /// Converting a value to its ordinal and back yields the value.
    pub proof fn lemma_number_roundtrip(self)
        ensures
            Self::spec_from_number(self.spec_number()) == self,
            self.spec_number() < 4,
    {
    }
}

} // verus!
