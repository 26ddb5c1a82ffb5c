use vstd::prelude::*;

verus! {

/// The kind of an instruction operand.
///
/// The kind stored in an operand slot selects which interpretation of the
/// shared 32+32-bit payload pair is active for that operand; callers consult
/// the kind before reading a payload accessor.
#[derive(Copy, Clone, Debug, Eq, PartialEq, Hash, Structural)]
pub enum OpKind {
    /// A register operand; the register is in one of the per-operand register slots.
    Register,
    /// A 16-bit near branch target.
    NearBranch16,
    /// A 32-bit near branch target.
    NearBranch32,
    /// A 64-bit near branch target.
    NearBranch64,
    /// A 16-bit far branch target with a selector.
    FarBranch16,
    /// A 32-bit far branch target with a selector.
    FarBranch32,
    /// An 8-bit immediate.
    Immediate8,
    /// A second 8-bit immediate, for instructions with two immediates.
    Immediate8_2nd,
    /// A 16-bit immediate.
    Immediate16,
    /// A 32-bit immediate.
    Immediate32,
    /// A 64-bit immediate.
    Immediate64,
    /// An 8-bit immediate sign extended to 16 bits.
    Immediate8to16,
    /// An 8-bit immediate sign extended to 32 bits.
    Immediate8to32,
    /// An 8-bit immediate sign extended to 64 bits.
    Immediate8to64,
    /// A 32-bit immediate sign extended to 64 bits.
    Immediate32to64,
    /// Implicit memory operand `seg:[si]` of a string instruction.
    MemorySegSI,
    /// Implicit memory operand `seg:[esi]` of a string instruction.
    MemorySegESI,
    /// Implicit memory operand `seg:[rsi]` of a string instruction.
    MemorySegRSI,
    /// Implicit memory operand `seg:[di]` of a string instruction.
    MemorySegDI,
    /// Implicit memory operand `seg:[edi]` of a string instruction.
    MemorySegEDI,
    /// Implicit memory operand `seg:[rdi]` of a string instruction.
    MemorySegRDI,
    /// Implicit memory operand `es:[di]` of a string instruction.
    MemoryESDI,
    /// Implicit memory operand `es:[edi]` of a string instruction.
    MemoryESEDI,
    /// Implicit memory operand `es:[rdi]` of a string instruction.
    MemoryESRDI,
    /// A 64-bit absolute memory address operand.
    Memory64,
    /// A general memory operand: base, index, scale, displacement and segment.
    Memory,
}

impl OpKind {
    /// The ordinal of this kind in the enumeration.
    pub open spec fn spec_number(self) -> u8 {
        match self {
            OpKind::Register => 0,
            OpKind::NearBranch16 => 1,
            OpKind::NearBranch32 => 2,
            OpKind::NearBranch64 => 3,
            OpKind::FarBranch16 => 4,
            OpKind::FarBranch32 => 5,
            OpKind::Immediate8 => 6,
            OpKind::Immediate8_2nd => 7,
            OpKind::Immediate16 => 8,
            OpKind::Immediate32 => 9,
            OpKind::Immediate64 => 10,
            OpKind::Immediate8to16 => 11,
            OpKind::Immediate8to32 => 12,
            OpKind::Immediate8to64 => 13,
            OpKind::Immediate32to64 => 14,
            OpKind::MemorySegSI => 15,
            OpKind::MemorySegESI => 16,
            OpKind::MemorySegRSI => 17,
            OpKind::MemorySegDI => 18,
            OpKind::MemorySegEDI => 19,
            OpKind::MemorySegRDI => 20,
            OpKind::MemoryESDI => 21,
            OpKind::MemoryESEDI => 22,
            OpKind::MemoryESRDI => 23,
            OpKind::Memory64 => 24,
            OpKind::Memory => 25,
        }
    }

    /// Returns the ordinal of this kind in the enumeration.
    pub fn number(self) -> (n: u8)
        ensures
            n == self.spec_number(),
    {
        match self {
            OpKind::Register => 0,
            OpKind::NearBranch16 => 1,
            OpKind::NearBranch32 => 2,
            OpKind::NearBranch64 => 3,
            OpKind::FarBranch16 => 4,
            OpKind::FarBranch32 => 5,
            OpKind::Immediate8 => 6,
            OpKind::Immediate8_2nd => 7,
            OpKind::Immediate16 => 8,
            OpKind::Immediate32 => 9,
            OpKind::Immediate64 => 10,
            OpKind::Immediate8to16 => 11,
            OpKind::Immediate8to32 => 12,
            OpKind::Immediate8to64 => 13,
            OpKind::Immediate32to64 => 14,
            OpKind::MemorySegSI => 15,
            OpKind::MemorySegESI => 16,
            OpKind::MemorySegRSI => 17,
            OpKind::MemorySegDI => 18,
            OpKind::MemorySegEDI => 19,
            OpKind::MemorySegRDI => 20,
            OpKind::MemoryESDI => 21,
            OpKind::MemoryESEDI => 22,
            OpKind::MemoryESRDI => 23,
            OpKind::Memory64 => 24,
            OpKind::Memory => 25,
        }
    }

    /// The kind with the given ordinal; out-of-range ordinals map to `Register`.
    pub open spec fn spec_from_number(n: u8) -> OpKind {
        if n == 0 {
            OpKind::Register
        } else if n == 1 {
            OpKind::NearBranch16
        } else if n == 2 {
            OpKind::NearBranch32
        } else if n == 3 {
            OpKind::NearBranch64
        } else if n == 4 {
            OpKind::FarBranch16
        } else if n == 5 {
            OpKind::FarBranch32
        } else if n == 6 {
            OpKind::Immediate8
        } else if n == 7 {
            OpKind::Immediate8_2nd
        } else if n == 8 {
            OpKind::Immediate16
        } else if n == 9 {
            OpKind::Immediate32
        } else if n == 10 {
            OpKind::Immediate64
        } else if n == 11 {
            OpKind::Immediate8to16
        } else if n == 12 {
            OpKind::Immediate8to32
        } else if n == 13 {
            OpKind::Immediate8to64
        } else if n == 14 {
            OpKind::Immediate32to64
        } else if n == 15 {
            OpKind::MemorySegSI
        } else if n == 16 {
            OpKind::MemorySegESI
        } else if n == 17 {
            OpKind::MemorySegRSI
        } else if n == 18 {
            OpKind::MemorySegDI
        } else if n == 19 {
            OpKind::MemorySegEDI
        } else if n == 20 {
            OpKind::MemorySegRDI
        } else if n == 21 {
            OpKind::MemoryESDI
        } else if n == 22 {
            OpKind::MemoryESEDI
        } else if n == 23 {
            OpKind::MemoryESRDI
        } else if n == 24 {
            OpKind::Memory64
        } else if n == 25 {
            OpKind::Memory
        } else {
            OpKind::Register
        }
    }

    /// Returns the kind with the given ordinal; out-of-range ordinals map to `Register`.
    pub fn from_number(n: u8) -> (r: OpKind)
        ensures
            r == Self::spec_from_number(n),
    {
        if n == 0 {
            OpKind::Register
        } else if n == 1 {
            OpKind::NearBranch16
        } else if n == 2 {
            OpKind::NearBranch32
        } else if n == 3 {
            OpKind::NearBranch64
        } else if n == 4 {
            OpKind::FarBranch16
        } else if n == 5 {
            OpKind::FarBranch32
        } else if n == 6 {
            OpKind::Immediate8
        } else if n == 7 {
            OpKind::Immediate8_2nd
        } else if n == 8 {
            OpKind::Immediate16
        } else if n == 9 {
            OpKind::Immediate32
        } else if n == 10 {
            OpKind::Immediate64
        } else if n == 11 {
            OpKind::Immediate8to16
        } else if n == 12 {
            OpKind::Immediate8to32
        } else if n == 13 {
            OpKind::Immediate8to64
        } else if n == 14 {
            OpKind::Immediate32to64
        } else if n == 15 {
            OpKind::MemorySegSI
        } else if n == 16 {
            OpKind::MemorySegESI
        } else if n == 17 {
            OpKind::MemorySegRSI
        } else if n == 18 {
            OpKind::MemorySegDI
        } else if n == 19 {
            OpKind::MemorySegEDI
        } else if n == 20 {
            OpKind::MemorySegRDI
        } else if n == 21 {
            OpKind::MemoryESDI
        } else if n == 22 {
            OpKind::MemoryESEDI
        } else if n == 23 {
            OpKind::MemoryESRDI
        } else if n == 24 {
            OpKind::Memory64
        } else if n == 25 {
            OpKind::Memory
        } else {
            OpKind::Register
        }
    }

    /// Converting a kind to its ordinal and back yields the kind.
    pub proof fn lemma_number_roundtrip(self)
        ensures
            Self::spec_from_number(self.spec_number()) == self,
            self.spec_number() < 26,
    {
    }

    /// Every ordinal below the number of kinds converts back to itself.
    pub proof fn lemma_from_number_roundtrip(n: u8)
        requires
            n < 26,
        ensures
            Self::spec_from_number(n).spec_number() == n,
    {
    }
}

} // verus!
