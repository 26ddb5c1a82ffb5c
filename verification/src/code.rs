//! Instruction-form identifiers and the static per-code tables.
//!
//! `Code` names one instruction form: an opcode together with its operand
//! shapes. Each code maps, through closed-form tables reproduced here, to a
//! mnemonic, an operand count, and the memory size its memory operand
//! references (doubled by the broadcast flag).
use crate::memory_size::MemorySize;
use vstd::prelude::*;

verus! {

/// Number of `Code` enum values.
pub const NUMBER_OF_CODE_VALUES: u32 = 91;

/// An instruction form: opcode plus operand shapes, see also `Mnemonic`.
///
/// The first value is an explicit invalid sentinel so that an all-zero
/// instruction is distinguishable from every real instruction form.
#[allow(missing_docs)]
#[allow(non_camel_case_types)]
#[derive(Copy, Clone, Debug, Eq, PartialEq, Hash, Structural)]
pub enum Code {
    INVALID,
    DeclareByte,
    DeclareWord,
    DeclareDword,
    DeclareQword,
    Mov_r32_rm32,
    Mov_r32_imm32,
    Mov_r64_imm64,
    Add_rm64_imm8,
    Push_r64,
    EVEX_Vaddps_zmm_k1z_zmm_zmmm512b32,
    VEX_Vpgatherdd_xmm_vm32x_xmm,
    VEX_Vpgatherdd_ymm_vm32y_ymm,
    VEX_Vpgatherdq_xmm_vm32x_xmm,
    VEX_Vpgatherdq_ymm_vm32x_ymm,
    EVEX_Vpgatherdd_xmm_k1_vm32x,
    EVEX_Vpgatherdd_ymm_k1_vm32y,
    EVEX_Vpgatherdd_zmm_k1_vm32z,
    EVEX_Vpgatherdq_xmm_k1_vm32x,
    EVEX_Vpgatherdq_ymm_k1_vm32x,
    EVEX_Vpgatherdq_zmm_k1_vm32y,
    VEX_Vgatherdps_xmm_vm32x_xmm,
    VEX_Vgatherdps_ymm_vm32y_ymm,
    VEX_Vgatherdpd_xmm_vm32x_xmm,
    VEX_Vgatherdpd_ymm_vm32x_ymm,
    EVEX_Vgatherdps_xmm_k1_vm32x,
    EVEX_Vgatherdps_ymm_k1_vm32y,
    EVEX_Vgatherdps_zmm_k1_vm32z,
    EVEX_Vgatherdpd_xmm_k1_vm32x,
    EVEX_Vgatherdpd_ymm_k1_vm32x,
    EVEX_Vgatherdpd_zmm_k1_vm32y,
    EVEX_Vpscatterdd_vm32x_k1_xmm,
    EVEX_Vpscatterdd_vm32y_k1_ymm,
    EVEX_Vpscatterdd_vm32z_k1_zmm,
    EVEX_Vpscatterdq_vm32x_k1_xmm,
    EVEX_Vpscatterdq_vm32x_k1_ymm,
    EVEX_Vpscatterdq_vm32y_k1_zmm,
    EVEX_Vscatterdps_vm32x_k1_xmm,
    EVEX_Vscatterdps_vm32y_k1_ymm,
    EVEX_Vscatterdps_vm32z_k1_zmm,
    EVEX_Vscatterdpd_vm32x_k1_xmm,
    EVEX_Vscatterdpd_vm32x_k1_ymm,
    EVEX_Vscatterdpd_vm32y_k1_zmm,
    EVEX_Vgatherpf0dps_vm32z_k1,
    EVEX_Vgatherpf0dpd_vm32y_k1,
    EVEX_Vgatherpf1dps_vm32z_k1,
    EVEX_Vgatherpf1dpd_vm32y_k1,
    EVEX_Vscatterpf0dps_vm32z_k1,
    EVEX_Vscatterpf0dpd_vm32y_k1,
    EVEX_Vscatterpf1dps_vm32z_k1,
    EVEX_Vscatterpf1dpd_vm32y_k1,
    VEX_Vpgatherqd_xmm_vm64x_xmm,
    VEX_Vpgatherqd_xmm_vm64y_xmm,
    VEX_Vpgatherqq_xmm_vm64x_xmm,
    VEX_Vpgatherqq_ymm_vm64y_ymm,
    EVEX_Vpgatherqd_xmm_k1_vm64x,
    EVEX_Vpgatherqd_xmm_k1_vm64y,
    EVEX_Vpgatherqd_ymm_k1_vm64z,
    EVEX_Vpgatherqq_xmm_k1_vm64x,
    EVEX_Vpgatherqq_ymm_k1_vm64y,
    EVEX_Vpgatherqq_zmm_k1_vm64z,
    VEX_Vgatherqps_xmm_vm64x_xmm,
    VEX_Vgatherqps_xmm_vm64y_xmm,
    VEX_Vgatherqpd_xmm_vm64x_xmm,
    VEX_Vgatherqpd_ymm_vm64y_ymm,
    EVEX_Vgatherqps_xmm_k1_vm64x,
    EVEX_Vgatherqps_xmm_k1_vm64y,
    EVEX_Vgatherqps_ymm_k1_vm64z,
    EVEX_Vgatherqpd_xmm_k1_vm64x,
    EVEX_Vgatherqpd_ymm_k1_vm64y,
    EVEX_Vgatherqpd_zmm_k1_vm64z,
    EVEX_Vpscatterqd_vm64x_k1_xmm,
    EVEX_Vpscatterqd_vm64y_k1_xmm,
    EVEX_Vpscatterqd_vm64z_k1_ymm,
    EVEX_Vpscatterqq_vm64x_k1_xmm,
    EVEX_Vpscatterqq_vm64y_k1_ymm,
    EVEX_Vpscatterqq_vm64z_k1_zmm,
    EVEX_Vscatterqps_vm64x_k1_xmm,
    EVEX_Vscatterqps_vm64y_k1_xmm,
    EVEX_Vscatterqps_vm64z_k1_ymm,
    EVEX_Vscatterqpd_vm64x_k1_xmm,
    EVEX_Vscatterqpd_vm64y_k1_ymm,
    EVEX_Vscatterqpd_vm64z_k1_zmm,
    EVEX_Vgatherpf0qps_vm64z_k1,
    EVEX_Vgatherpf0qpd_vm64z_k1,
    EVEX_Vgatherpf1qps_vm64z_k1,
    EVEX_Vgatherpf1qpd_vm64z_k1,
    EVEX_Vscatterpf0qps_vm64z_k1,
    EVEX_Vscatterpf0qpd_vm64z_k1,
    EVEX_Vscatterpf1qps_vm64z_k1,
    EVEX_Vscatterpf1qpd_vm64z_k1,
}

/// An instruction mnemonic, shared by all forms of one instruction.
#[allow(missing_docs)]
#[derive(Copy, Clone, Debug, Eq, PartialEq, Hash, Structural)]
pub enum Mnemonic {
    INVALID,
    Db,
    Dw,
    Dd,
    Dq,
    Mov,
    Add,
    Push,
    Vaddps,
    Vpgatherdd,
    Vpgatherdq,
    Vgatherdps,
    Vgatherdpd,
    Vpscatterdd,
    Vpscatterdq,
    Vscatterdps,
    Vscatterdpd,
    Vgatherpf0dps,
    Vgatherpf0dpd,
    Vgatherpf1dps,
    Vgatherpf1dpd,
    Vscatterpf0dps,
    Vscatterpf0dpd,
    Vscatterpf1dps,
    Vscatterpf1dpd,
    Vpgatherqd,
    Vpgatherqq,
    Vgatherqps,
    Vgatherqpd,
    Vpscatterqd,
    Vpscatterqq,
    Vscatterqps,
    Vscatterqpd,
    Vgatherpf0qps,
    Vgatherpf0qpd,
    Vgatherpf1qps,
    Vgatherpf1qpd,
    Vscatterpf0qps,
    Vscatterpf0qpd,
    Vscatterpf1qps,
    Vscatterpf1qpd,
}

impl Code {
    /// The ordinal of this code in the enumeration.
    pub open spec fn spec_number(self) -> u16 {
        match self {
            Code::INVALID => 0,
            Code::DeclareByte => 1,
            Code::DeclareWord => 2,
            Code::DeclareDword => 3,
            Code::DeclareQword => 4,
            Code::Mov_r32_rm32 => 5,
            Code::Mov_r32_imm32 => 6,
            Code::Mov_r64_imm64 => 7,
            Code::Add_rm64_imm8 => 8,
            Code::Push_r64 => 9,
            Code::EVEX_Vaddps_zmm_k1z_zmm_zmmm512b32 => 10,
            Code::VEX_Vpgatherdd_xmm_vm32x_xmm => 11,
            Code::VEX_Vpgatherdd_ymm_vm32y_ymm => 12,
            Code::VEX_Vpgatherdq_xmm_vm32x_xmm => 13,
            Code::VEX_Vpgatherdq_ymm_vm32x_ymm => 14,
            Code::EVEX_Vpgatherdd_xmm_k1_vm32x => 15,
            Code::EVEX_Vpgatherdd_ymm_k1_vm32y => 16,
            Code::EVEX_Vpgatherdd_zmm_k1_vm32z => 17,
            Code::EVEX_Vpgatherdq_xmm_k1_vm32x => 18,
            Code::EVEX_Vpgatherdq_ymm_k1_vm32x => 19,
            Code::EVEX_Vpgatherdq_zmm_k1_vm32y => 20,
            Code::VEX_Vgatherdps_xmm_vm32x_xmm => 21,
            Code::VEX_Vgatherdps_ymm_vm32y_ymm => 22,
            Code::VEX_Vgatherdpd_xmm_vm32x_xmm => 23,
            Code::VEX_Vgatherdpd_ymm_vm32x_ymm => 24,
            Code::EVEX_Vgatherdps_xmm_k1_vm32x => 25,
            Code::EVEX_Vgatherdps_ymm_k1_vm32y => 26,
            Code::EVEX_Vgatherdps_zmm_k1_vm32z => 27,
            Code::EVEX_Vgatherdpd_xmm_k1_vm32x => 28,
            Code::EVEX_Vgatherdpd_ymm_k1_vm32x => 29,
            Code::EVEX_Vgatherdpd_zmm_k1_vm32y => 30,
            Code::EVEX_Vpscatterdd_vm32x_k1_xmm => 31,
            Code::EVEX_Vpscatterdd_vm32y_k1_ymm => 32,
            Code::EVEX_Vpscatterdd_vm32z_k1_zmm => 33,
            Code::EVEX_Vpscatterdq_vm32x_k1_xmm => 34,
            Code::EVEX_Vpscatterdq_vm32x_k1_ymm => 35,
            Code::EVEX_Vpscatterdq_vm32y_k1_zmm => 36,
            Code::EVEX_Vscatterdps_vm32x_k1_xmm => 37,
            Code::EVEX_Vscatterdps_vm32y_k1_ymm => 38,
            Code::EVEX_Vscatterdps_vm32z_k1_zmm => 39,
            Code::EVEX_Vscatterdpd_vm32x_k1_xmm => 40,
            Code::EVEX_Vscatterdpd_vm32x_k1_ymm => 41,
            Code::EVEX_Vscatterdpd_vm32y_k1_zmm => 42,
            Code::EVEX_Vgatherpf0dps_vm32z_k1 => 43,
            Code::EVEX_Vgatherpf0dpd_vm32y_k1 => 44,
            Code::EVEX_Vgatherpf1dps_vm32z_k1 => 45,
            Code::EVEX_Vgatherpf1dpd_vm32y_k1 => 46,
            Code::EVEX_Vscatterpf0dps_vm32z_k1 => 47,
            Code::EVEX_Vscatterpf0dpd_vm32y_k1 => 48,
            Code::EVEX_Vscatterpf1dps_vm32z_k1 => 49,
            Code::EVEX_Vscatterpf1dpd_vm32y_k1 => 50,
            Code::VEX_Vpgatherqd_xmm_vm64x_xmm => 51,
            Code::VEX_Vpgatherqd_xmm_vm64y_xmm => 52,
            Code::VEX_Vpgatherqq_xmm_vm64x_xmm => 53,
            Code::VEX_Vpgatherqq_ymm_vm64y_ymm => 54,
            Code::EVEX_Vpgatherqd_xmm_k1_vm64x => 55,
            Code::EVEX_Vpgatherqd_xmm_k1_vm64y => 56,
            Code::EVEX_Vpgatherqd_ymm_k1_vm64z => 57,
            Code::EVEX_Vpgatherqq_xmm_k1_vm64x => 58,
            Code::EVEX_Vpgatherqq_ymm_k1_vm64y => 59,
            Code::EVEX_Vpgatherqq_zmm_k1_vm64z => 60,
            Code::VEX_Vgatherqps_xmm_vm64x_xmm => 61,
            Code::VEX_Vgatherqps_xmm_vm64y_xmm => 62,
            Code::VEX_Vgatherqpd_xmm_vm64x_xmm => 63,
            Code::VEX_Vgatherqpd_ymm_vm64y_ymm => 64,
            Code::EVEX_Vgatherqps_xmm_k1_vm64x => 65,
            Code::EVEX_Vgatherqps_xmm_k1_vm64y => 66,
            Code::EVEX_Vgatherqps_ymm_k1_vm64z => 67,
            Code::EVEX_Vgatherqpd_xmm_k1_vm64x => 68,
            Code::EVEX_Vgatherqpd_ymm_k1_vm64y => 69,
            Code::EVEX_Vgatherqpd_zmm_k1_vm64z => 70,
            Code::EVEX_Vpscatterqd_vm64x_k1_xmm => 71,
            Code::EVEX_Vpscatterqd_vm64y_k1_xmm => 72,
            Code::EVEX_Vpscatterqd_vm64z_k1_ymm => 73,
            Code::EVEX_Vpscatterqq_vm64x_k1_xmm => 74,
            Code::EVEX_Vpscatterqq_vm64y_k1_ymm => 75,
            Code::EVEX_Vpscatterqq_vm64z_k1_zmm => 76,
            Code::EVEX_Vscatterqps_vm64x_k1_xmm => 77,
            Code::EVEX_Vscatterqps_vm64y_k1_xmm => 78,
            Code::EVEX_Vscatterqps_vm64z_k1_ymm => 79,
            Code::EVEX_Vscatterqpd_vm64x_k1_xmm => 80,
            Code::EVEX_Vscatterqpd_vm64y_k1_ymm => 81,
            Code::EVEX_Vscatterqpd_vm64z_k1_zmm => 82,
            Code::EVEX_Vgatherpf0qps_vm64z_k1 => 83,
            Code::EVEX_Vgatherpf0qpd_vm64z_k1 => 84,
            Code::EVEX_Vgatherpf1qps_vm64z_k1 => 85,
            Code::EVEX_Vgatherpf1qpd_vm64z_k1 => 86,
            Code::EVEX_Vscatterpf0qps_vm64z_k1 => 87,
            Code::EVEX_Vscatterpf0qpd_vm64z_k1 => 88,
            Code::EVEX_Vscatterpf1qps_vm64z_k1 => 89,
            Code::EVEX_Vscatterpf1qpd_vm64z_k1 => 90,
        }
    }

    /// Returns the ordinal of this code in the enumeration.
    pub fn number(self) -> (n: u16)
        ensures
            n == self.spec_number(),
    {
        match self {
            Code::INVALID => 0,
            Code::DeclareByte => 1,
            Code::DeclareWord => 2,
            Code::DeclareDword => 3,
            Code::DeclareQword => 4,
            Code::Mov_r32_rm32 => 5,
            Code::Mov_r32_imm32 => 6,
            Code::Mov_r64_imm64 => 7,
            Code::Add_rm64_imm8 => 8,
            Code::Push_r64 => 9,
            Code::EVEX_Vaddps_zmm_k1z_zmm_zmmm512b32 => 10,
            Code::VEX_Vpgatherdd_xmm_vm32x_xmm => 11,
            Code::VEX_Vpgatherdd_ymm_vm32y_ymm => 12,
            Code::VEX_Vpgatherdq_xmm_vm32x_xmm => 13,
            Code::VEX_Vpgatherdq_ymm_vm32x_ymm => 14,
            Code::EVEX_Vpgatherdd_xmm_k1_vm32x => 15,
            Code::EVEX_Vpgatherdd_ymm_k1_vm32y => 16,
            Code::EVEX_Vpgatherdd_zmm_k1_vm32z => 17,
            Code::EVEX_Vpgatherdq_xmm_k1_vm32x => 18,
            Code::EVEX_Vpgatherdq_ymm_k1_vm32x => 19,
            Code::EVEX_Vpgatherdq_zmm_k1_vm32y => 20,
            Code::VEX_Vgatherdps_xmm_vm32x_xmm => 21,
            Code::VEX_Vgatherdps_ymm_vm32y_ymm => 22,
            Code::VEX_Vgatherdpd_xmm_vm32x_xmm => 23,
            Code::VEX_Vgatherdpd_ymm_vm32x_ymm => 24,
            Code::EVEX_Vgatherdps_xmm_k1_vm32x => 25,
            Code::EVEX_Vgatherdps_ymm_k1_vm32y => 26,
            Code::EVEX_Vgatherdps_zmm_k1_vm32z => 27,
            Code::EVEX_Vgatherdpd_xmm_k1_vm32x => 28,
            Code::EVEX_Vgatherdpd_ymm_k1_vm32x => 29,
            Code::EVEX_Vgatherdpd_zmm_k1_vm32y => 30,
            Code::EVEX_Vpscatterdd_vm32x_k1_xmm => 31,
            Code::EVEX_Vpscatterdd_vm32y_k1_ymm => 32,
            Code::EVEX_Vpscatterdd_vm32z_k1_zmm => 33,
            Code::EVEX_Vpscatterdq_vm32x_k1_xmm => 34,
            Code::EVEX_Vpscatterdq_vm32x_k1_ymm => 35,
            Code::EVEX_Vpscatterdq_vm32y_k1_zmm => 36,
            Code::EVEX_Vscatterdps_vm32x_k1_xmm => 37,
            Code::EVEX_Vscatterdps_vm32y_k1_ymm => 38,
            Code::EVEX_Vscatterdps_vm32z_k1_zmm => 39,
            Code::EVEX_Vscatterdpd_vm32x_k1_xmm => 40,
            Code::EVEX_Vscatterdpd_vm32x_k1_ymm => 41,
            Code::EVEX_Vscatterdpd_vm32y_k1_zmm => 42,
            Code::EVEX_Vgatherpf0dps_vm32z_k1 => 43,
            Code::EVEX_Vgatherpf0dpd_vm32y_k1 => 44,
            Code::EVEX_Vgatherpf1dps_vm32z_k1 => 45,
            Code::EVEX_Vgatherpf1dpd_vm32y_k1 => 46,
            Code::EVEX_Vscatterpf0dps_vm32z_k1 => 47,
            Code::EVEX_Vscatterpf0dpd_vm32y_k1 => 48,
            Code::EVEX_Vscatterpf1dps_vm32z_k1 => 49,
            Code::EVEX_Vscatterpf1dpd_vm32y_k1 => 50,
            Code::VEX_Vpgatherqd_xmm_vm64x_xmm => 51,
            Code::VEX_Vpgatherqd_xmm_vm64y_xmm => 52,
            Code::VEX_Vpgatherqq_xmm_vm64x_xmm => 53,
            Code::VEX_Vpgatherqq_ymm_vm64y_ymm => 54,
            Code::EVEX_Vpgatherqd_xmm_k1_vm64x => 55,
            Code::EVEX_Vpgatherqd_xmm_k1_vm64y => 56,
            Code::EVEX_Vpgatherqd_ymm_k1_vm64z => 57,
            Code::EVEX_Vpgatherqq_xmm_k1_vm64x => 58,
            Code::EVEX_Vpgatherqq_ymm_k1_vm64y => 59,
            Code::EVEX_Vpgatherqq_zmm_k1_vm64z => 60,
            Code::VEX_Vgatherqps_xmm_vm64x_xmm => 61,
            Code::VEX_Vgatherqps_xmm_vm64y_xmm => 62,
            Code::VEX_Vgatherqpd_xmm_vm64x_xmm => 63,
            Code::VEX_Vgatherqpd_ymm_vm64y_ymm => 64,
            Code::EVEX_Vgatherqps_xmm_k1_vm64x => 65,
            Code::EVEX_Vgatherqps_xmm_k1_vm64y => 66,
            Code::EVEX_Vgatherqps_ymm_k1_vm64z => 67,
            Code::EVEX_Vgatherqpd_xmm_k1_vm64x => 68,
            Code::EVEX_Vgatherqpd_ymm_k1_vm64y => 69,
            Code::EVEX_Vgatherqpd_zmm_k1_vm64z => 70,
            Code::EVEX_Vpscatterqd_vm64x_k1_xmm => 71,
            Code::EVEX_Vpscatterqd_vm64y_k1_xmm => 72,
            Code::EVEX_Vpscatterqd_vm64z_k1_ymm => 73,
            Code::EVEX_Vpscatterqq_vm64x_k1_xmm => 74,
            Code::EVEX_Vpscatterqq_vm64y_k1_ymm => 75,
            Code::EVEX_Vpscatterqq_vm64z_k1_zmm => 76,
            Code::EVEX_Vscatterqps_vm64x_k1_xmm => 77,
            Code::EVEX_Vscatterqps_vm64y_k1_xmm => 78,
            Code::EVEX_Vscatterqps_vm64z_k1_ymm => 79,
            Code::EVEX_Vscatterqpd_vm64x_k1_xmm => 80,
            Code::EVEX_Vscatterqpd_vm64y_k1_ymm => 81,
            Code::EVEX_Vscatterqpd_vm64z_k1_zmm => 82,
            Code::EVEX_Vgatherpf0qps_vm64z_k1 => 83,
            Code::EVEX_Vgatherpf0qpd_vm64z_k1 => 84,
            Code::EVEX_Vgatherpf1qps_vm64z_k1 => 85,
            Code::EVEX_Vgatherpf1qpd_vm64z_k1 => 86,
            Code::EVEX_Vscatterpf0qps_vm64z_k1 => 87,
            Code::EVEX_Vscatterpf0qpd_vm64z_k1 => 88,
            Code::EVEX_Vscatterpf1qps_vm64z_k1 => 89,
            Code::EVEX_Vscatterpf1qpd_vm64z_k1 => 90,
        }
    }

    /// The code with the given ordinal; out-of-range ordinals map to `INVALID`.
    pub open spec fn spec_from_number(n: u16) -> Code {
        if n == 0 {
            Code::INVALID
        } else if n == 1 {
            Code::DeclareByte
        } else if n == 2 {
            Code::DeclareWord
        } else if n == 3 {
            Code::DeclareDword
        } else if n == 4 {
            Code::DeclareQword
        } else if n == 5 {
            Code::Mov_r32_rm32
        } else if n == 6 {
            Code::Mov_r32_imm32
        } else if n == 7 {
            Code::Mov_r64_imm64
        } else if n == 8 {
            Code::Add_rm64_imm8
        } else if n == 9 {
            Code::Push_r64
        } else if n == 10 {
            Code::EVEX_Vaddps_zmm_k1z_zmm_zmmm512b32
        } else if n == 11 {
            Code::VEX_Vpgatherdd_xmm_vm32x_xmm
        } else if n == 12 {
            Code::VEX_Vpgatherdd_ymm_vm32y_ymm
        } else if n == 13 {
            Code::VEX_Vpgatherdq_xmm_vm32x_xmm
        } else if n == 14 {
            Code::VEX_Vpgatherdq_ymm_vm32x_ymm
        } else if n == 15 {
            Code::EVEX_Vpgatherdd_xmm_k1_vm32x
        } else if n == 16 {
            Code::EVEX_Vpgatherdd_ymm_k1_vm32y
        } else if n == 17 {
            Code::EVEX_Vpgatherdd_zmm_k1_vm32z
        } else if n == 18 {
            Code::EVEX_Vpgatherdq_xmm_k1_vm32x
        } else if n == 19 {
            Code::EVEX_Vpgatherdq_ymm_k1_vm32x
        } else if n == 20 {
            Code::EVEX_Vpgatherdq_zmm_k1_vm32y
        } else if n == 21 {
            Code::VEX_Vgatherdps_xmm_vm32x_xmm
        } else if n == 22 {
            Code::VEX_Vgatherdps_ymm_vm32y_ymm
        } else if n == 23 {
            Code::VEX_Vgatherdpd_xmm_vm32x_xmm
        } else if n == 24 {
            Code::VEX_Vgatherdpd_ymm_vm32x_ymm
        } else if n == 25 {
            Code::EVEX_Vgatherdps_xmm_k1_vm32x
        } else if n == 26 {
            Code::EVEX_Vgatherdps_ymm_k1_vm32y
        } else if n == 27 {
            Code::EVEX_Vgatherdps_zmm_k1_vm32z
        } else if n == 28 {
            Code::EVEX_Vgatherdpd_xmm_k1_vm32x
        } else if n == 29 {
            Code::EVEX_Vgatherdpd_ymm_k1_vm32x
        } else if n == 30 {
            Code::EVEX_Vgatherdpd_zmm_k1_vm32y
        } else if n == 31 {
            Code::EVEX_Vpscatterdd_vm32x_k1_xmm
        } else if n == 32 {
            Code::EVEX_Vpscatterdd_vm32y_k1_ymm
        } else if n == 33 {
            Code::EVEX_Vpscatterdd_vm32z_k1_zmm
        } else if n == 34 {
            Code::EVEX_Vpscatterdq_vm32x_k1_xmm
        } else if n == 35 {
            Code::EVEX_Vpscatterdq_vm32x_k1_ymm
        } else if n == 36 {
            Code::EVEX_Vpscatterdq_vm32y_k1_zmm
        } else if n == 37 {
            Code::EVEX_Vscatterdps_vm32x_k1_xmm
        } else if n == 38 {
            Code::EVEX_Vscatterdps_vm32y_k1_ymm
        } else if n == 39 {
            Code::EVEX_Vscatterdps_vm32z_k1_zmm
        } else if n == 40 {
            Code::EVEX_Vscatterdpd_vm32x_k1_xmm
        } else if n == 41 {
            Code::EVEX_Vscatterdpd_vm32x_k1_ymm
        } else if n == 42 {
            Code::EVEX_Vscatterdpd_vm32y_k1_zmm
        } else if n == 43 {
            Code::EVEX_Vgatherpf0dps_vm32z_k1
        } else if n == 44 {
            Code::EVEX_Vgatherpf0dpd_vm32y_k1
        } else if n == 45 {
            Code::EVEX_Vgatherpf1dps_vm32z_k1
        } else if n == 46 {
            Code::EVEX_Vgatherpf1dpd_vm32y_k1
        } else if n == 47 {
            Code::EVEX_Vscatterpf0dps_vm32z_k1
        } else if n == 48 {
            Code::EVEX_Vscatterpf0dpd_vm32y_k1
        } else if n == 49 {
            Code::EVEX_Vscatterpf1dps_vm32z_k1
        } else if n == 50 {
            Code::EVEX_Vscatterpf1dpd_vm32y_k1
        } else if n == 51 {
            Code::VEX_Vpgatherqd_xmm_vm64x_xmm
        } else if n == 52 {
            Code::VEX_Vpgatherqd_xmm_vm64y_xmm
        } else if n == 53 {
            Code::VEX_Vpgatherqq_xmm_vm64x_xmm
        } else if n == 54 {
            Code::VEX_Vpgatherqq_ymm_vm64y_ymm
        } else if n == 55 {
            Code::EVEX_Vpgatherqd_xmm_k1_vm64x
        } else if n == 56 {
            Code::EVEX_Vpgatherqd_xmm_k1_vm64y
        } else if n == 57 {
            Code::EVEX_Vpgatherqd_ymm_k1_vm64z
        } else if n == 58 {
            Code::EVEX_Vpgatherqq_xmm_k1_vm64x
        } else if n == 59 {
            Code::EVEX_Vpgatherqq_ymm_k1_vm64y
        } else if n == 60 {
            Code::EVEX_Vpgatherqq_zmm_k1_vm64z
        } else if n == 61 {
            Code::VEX_Vgatherqps_xmm_vm64x_xmm
        } else if n == 62 {
            Code::VEX_Vgatherqps_xmm_vm64y_xmm
        } else if n == 63 {
            Code::VEX_Vgatherqpd_xmm_vm64x_xmm
        } else if n == 64 {
            Code::VEX_Vgatherqpd_ymm_vm64y_ymm
        } else if n == 65 {
            Code::EVEX_Vgatherqps_xmm_k1_vm64x
        } else if n == 66 {
            Code::EVEX_Vgatherqps_xmm_k1_vm64y
        } else if n == 67 {
            Code::EVEX_Vgatherqps_ymm_k1_vm64z
        } else if n == 68 {
            Code::EVEX_Vgatherqpd_xmm_k1_vm64x
        } else if n == 69 {
            Code::EVEX_Vgatherqpd_ymm_k1_vm64y
        } else if n == 70 {
            Code::EVEX_Vgatherqpd_zmm_k1_vm64z
        } else if n == 71 {
            Code::EVEX_Vpscatterqd_vm64x_k1_xmm
        } else if n == 72 {
            Code::EVEX_Vpscatterqd_vm64y_k1_xmm
        } else if n == 73 {
            Code::EVEX_Vpscatterqd_vm64z_k1_ymm
        } else if n == 74 {
            Code::EVEX_Vpscatterqq_vm64x_k1_xmm
        } else if n == 75 {
            Code::EVEX_Vpscatterqq_vm64y_k1_ymm
        } else if n == 76 {
            Code::EVEX_Vpscatterqq_vm64z_k1_zmm
        } else if n == 77 {
            Code::EVEX_Vscatterqps_vm64x_k1_xmm
        } else if n == 78 {
            Code::EVEX_Vscatterqps_vm64y_k1_xmm
        } else if n == 79 {
            Code::EVEX_Vscatterqps_vm64z_k1_ymm
        } else if n == 80 {
            Code::EVEX_Vscatterqpd_vm64x_k1_xmm
        } else if n == 81 {
            Code::EVEX_Vscatterqpd_vm64y_k1_ymm
        } else if n == 82 {
            Code::EVEX_Vscatterqpd_vm64z_k1_zmm
        } else if n == 83 {
            Code::EVEX_Vgatherpf0qps_vm64z_k1
        } else if n == 84 {
            Code::EVEX_Vgatherpf0qpd_vm64z_k1
        } else if n == 85 {
            Code::EVEX_Vgatherpf1qps_vm64z_k1
        } else if n == 86 {
            Code::EVEX_Vgatherpf1qpd_vm64z_k1
        } else if n == 87 {
            Code::EVEX_Vscatterpf0qps_vm64z_k1
        } else if n == 88 {
            Code::EVEX_Vscatterpf0qpd_vm64z_k1
        } else if n == 89 {
            Code::EVEX_Vscatterpf1qps_vm64z_k1
        } else if n == 90 {
            Code::EVEX_Vscatterpf1qpd_vm64z_k1
        } else {
            Code::INVALID
        }
    }

    /// Returns the code with the given ordinal; out-of-range ordinals map to `INVALID`.
    pub fn from_number(n: u16) -> (r: Code)
        ensures
            r == Self::spec_from_number(n),
    {
        if n == 0 {
            Code::INVALID
        } else if n == 1 {
            Code::DeclareByte
        } else if n == 2 {
            Code::DeclareWord
        } else if n == 3 {
            Code::DeclareDword
        } else if n == 4 {
            Code::DeclareQword
        } else if n == 5 {
            Code::Mov_r32_rm32
        } else if n == 6 {
            Code::Mov_r32_imm32
        } else if n == 7 {
            Code::Mov_r64_imm64
        } else if n == 8 {
            Code::Add_rm64_imm8
        } else if n == 9 {
            Code::Push_r64
        } else if n == 10 {
            Code::EVEX_Vaddps_zmm_k1z_zmm_zmmm512b32
        } else if n == 11 {
            Code::VEX_Vpgatherdd_xmm_vm32x_xmm
        } else if n == 12 {
            Code::VEX_Vpgatherdd_ymm_vm32y_ymm
        } else if n == 13 {
            Code::VEX_Vpgatherdq_xmm_vm32x_xmm
        } else if n == 14 {
            Code::VEX_Vpgatherdq_ymm_vm32x_ymm
        } else if n == 15 {
            Code::EVEX_Vpgatherdd_xmm_k1_vm32x
        } else if n == 16 {
            Code::EVEX_Vpgatherdd_ymm_k1_vm32y
        } else if n == 17 {
            Code::EVEX_Vpgatherdd_zmm_k1_vm32z
        } else if n == 18 {
            Code::EVEX_Vpgatherdq_xmm_k1_vm32x
        } else if n == 19 {
            Code::EVEX_Vpgatherdq_ymm_k1_vm32x
        } else if n == 20 {
            Code::EVEX_Vpgatherdq_zmm_k1_vm32y
        } else if n == 21 {
            Code::VEX_Vgatherdps_xmm_vm32x_xmm
        } else if n == 22 {
            Code::VEX_Vgatherdps_ymm_vm32y_ymm
        } else if n == 23 {
            Code::VEX_Vgatherdpd_xmm_vm32x_xmm
        } else if n == 24 {
            Code::VEX_Vgatherdpd_ymm_vm32x_ymm
        } else if n == 25 {
            Code::EVEX_Vgatherdps_xmm_k1_vm32x
        } else if n == 26 {
            Code::EVEX_Vgatherdps_ymm_k1_vm32y
        } else if n == 27 {
            Code::EVEX_Vgatherdps_zmm_k1_vm32z
        } else if n == 28 {
            Code::EVEX_Vgatherdpd_xmm_k1_vm32x
        } else if n == 29 {
            Code::EVEX_Vgatherdpd_ymm_k1_vm32x
        } else if n == 30 {
            Code::EVEX_Vgatherdpd_zmm_k1_vm32y
        } else if n == 31 {
            Code::EVEX_Vpscatterdd_vm32x_k1_xmm
        } else if n == 32 {
            Code::EVEX_Vpscatterdd_vm32y_k1_ymm
        } else if n == 33 {
            Code::EVEX_Vpscatterdd_vm32z_k1_zmm
        } else if n == 34 {
            Code::EVEX_Vpscatterdq_vm32x_k1_xmm
        } else if n == 35 {
            Code::EVEX_Vpscatterdq_vm32x_k1_ymm
        } else if n == 36 {
            Code::EVEX_Vpscatterdq_vm32y_k1_zmm
        } else if n == 37 {
            Code::EVEX_Vscatterdps_vm32x_k1_xmm
        } else if n == 38 {
            Code::EVEX_Vscatterdps_vm32y_k1_ymm
        } else if n == 39 {
            Code::EVEX_Vscatterdps_vm32z_k1_zmm
        } else if n == 40 {
            Code::EVEX_Vscatterdpd_vm32x_k1_xmm
        } else if n == 41 {
            Code::EVEX_Vscatterdpd_vm32x_k1_ymm
        } else if n == 42 {
            Code::EVEX_Vscatterdpd_vm32y_k1_zmm
        } else if n == 43 {
            Code::EVEX_Vgatherpf0dps_vm32z_k1
        } else if n == 44 {
            Code::EVEX_Vgatherpf0dpd_vm32y_k1
        } else if n == 45 {
            Code::EVEX_Vgatherpf1dps_vm32z_k1
        } else if n == 46 {
            Code::EVEX_Vgatherpf1dpd_vm32y_k1
        } else if n == 47 {
            Code::EVEX_Vscatterpf0dps_vm32z_k1
        } else if n == 48 {
            Code::EVEX_Vscatterpf0dpd_vm32y_k1
        } else if n == 49 {
            Code::EVEX_Vscatterpf1dps_vm32z_k1
        } else if n == 50 {
            Code::EVEX_Vscatterpf1dpd_vm32y_k1
        } else if n == 51 {
            Code::VEX_Vpgatherqd_xmm_vm64x_xmm
        } else if n == 52 {
            Code::VEX_Vpgatherqd_xmm_vm64y_xmm
        } else if n == 53 {
            Code::VEX_Vpgatherqq_xmm_vm64x_xmm
        } else if n == 54 {
            Code::VEX_Vpgatherqq_ymm_vm64y_ymm
        } else if n == 55 {
            Code::EVEX_Vpgatherqd_xmm_k1_vm64x
        } else if n == 56 {
            Code::EVEX_Vpgatherqd_xmm_k1_vm64y
        } else if n == 57 {
            Code::EVEX_Vpgatherqd_ymm_k1_vm64z
        } else if n == 58 {
            Code::EVEX_Vpgatherqq_xmm_k1_vm64x
        } else if n == 59 {
            Code::EVEX_Vpgatherqq_ymm_k1_vm64y
        } else if n == 60 {
            Code::EVEX_Vpgatherqq_zmm_k1_vm64z
        } else if n == 61 {
            Code::VEX_Vgatherqps_xmm_vm64x_xmm
        } else if n == 62 {
            Code::VEX_Vgatherqps_xmm_vm64y_xmm
        } else if n == 63 {
            Code::VEX_Vgatherqpd_xmm_vm64x_xmm
        } else if n == 64 {
            Code::VEX_Vgatherqpd_ymm_vm64y_ymm
        } else if n == 65 {
            Code::EVEX_Vgatherqps_xmm_k1_vm64x
        } else if n == 66 {
            Code::EVEX_Vgatherqps_xmm_k1_vm64y
        } else if n == 67 {
            Code::EVEX_Vgatherqps_ymm_k1_vm64z
        } else if n == 68 {
            Code::EVEX_Vgatherqpd_xmm_k1_vm64x
        } else if n == 69 {
            Code::EVEX_Vgatherqpd_ymm_k1_vm64y
        } else if n == 70 {
            Code::EVEX_Vgatherqpd_zmm_k1_vm64z
        } else if n == 71 {
            Code::EVEX_Vpscatterqd_vm64x_k1_xmm
        } else if n == 72 {
            Code::EVEX_Vpscatterqd_vm64y_k1_xmm
        } else if n == 73 {
            Code::EVEX_Vpscatterqd_vm64z_k1_ymm
        } else if n == 74 {
            Code::EVEX_Vpscatterqq_vm64x_k1_xmm
        } else if n == 75 {
            Code::EVEX_Vpscatterqq_vm64y_k1_ymm
        } else if n == 76 {
            Code::EVEX_Vpscatterqq_vm64z_k1_zmm
        } else if n == 77 {
            Code::EVEX_Vscatterqps_vm64x_k1_xmm
        } else if n == 78 {
            Code::EVEX_Vscatterqps_vm64y_k1_xmm
        } else if n == 79 {
            Code::EVEX_Vscatterqps_vm64z_k1_ymm
        } else if n == 80 {
            Code::EVEX_Vscatterqpd_vm64x_k1_xmm
        } else if n == 81 {
            Code::EVEX_Vscatterqpd_vm64y_k1_ymm
        } else if n == 82 {
            Code::EVEX_Vscatterqpd_vm64z_k1_zmm
        } else if n == 83 {
            Code::EVEX_Vgatherpf0qps_vm64z_k1
        } else if n == 84 {
            Code::EVEX_Vgatherpf0qpd_vm64z_k1
        } else if n == 85 {
            Code::EVEX_Vgatherpf1qps_vm64z_k1
        } else if n == 86 {
            Code::EVEX_Vgatherpf1qpd_vm64z_k1
        } else if n == 87 {
            Code::EVEX_Vscatterpf0qps_vm64z_k1
        } else if n == 88 {
            Code::EVEX_Vscatterpf0qpd_vm64z_k1
        } else if n == 89 {
            Code::EVEX_Vscatterpf1qps_vm64z_k1
        } else if n == 90 {
            Code::EVEX_Vscatterpf1qpd_vm64z_k1
        } else {
            Code::INVALID
        }
    }

    /// Converting a code to its ordinal and back yields the code.
    pub proof fn lemma_number_roundtrip(self)
        ensures
            Self::spec_from_number(self.spec_number()) == self,
            self.spec_number() < NUMBER_OF_CODE_VALUES,
    {
    }

    /// The mnemonic of this instruction form.
    pub open spec fn spec_mnemonic(self) -> Mnemonic {
        match self {
            Code::INVALID => Mnemonic::INVALID,
            Code::DeclareByte => Mnemonic::Db,
            Code::DeclareWord => Mnemonic::Dw,
            Code::DeclareDword => Mnemonic::Dd,
            Code::DeclareQword => Mnemonic::Dq,
            Code::Mov_r32_rm32 => Mnemonic::Mov,
            Code::Mov_r32_imm32 => Mnemonic::Mov,
            Code::Mov_r64_imm64 => Mnemonic::Mov,
            Code::Add_rm64_imm8 => Mnemonic::Add,
            Code::Push_r64 => Mnemonic::Push,
            Code::EVEX_Vaddps_zmm_k1z_zmm_zmmm512b32 => Mnemonic::Vaddps,
            Code::VEX_Vpgatherdd_xmm_vm32x_xmm => Mnemonic::Vpgatherdd,
            Code::VEX_Vpgatherdd_ymm_vm32y_ymm => Mnemonic::Vpgatherdd,
            Code::VEX_Vpgatherdq_xmm_vm32x_xmm => Mnemonic::Vpgatherdq,
            Code::VEX_Vpgatherdq_ymm_vm32x_ymm => Mnemonic::Vpgatherdq,
            Code::EVEX_Vpgatherdd_xmm_k1_vm32x => Mnemonic::Vpgatherdd,
            Code::EVEX_Vpgatherdd_ymm_k1_vm32y => Mnemonic::Vpgatherdd,
            Code::EVEX_Vpgatherdd_zmm_k1_vm32z => Mnemonic::Vpgatherdd,
            Code::EVEX_Vpgatherdq_xmm_k1_vm32x => Mnemonic::Vpgatherdq,
            Code::EVEX_Vpgatherdq_ymm_k1_vm32x => Mnemonic::Vpgatherdq,
            Code::EVEX_Vpgatherdq_zmm_k1_vm32y => Mnemonic::Vpgatherdq,
            Code::VEX_Vgatherdps_xmm_vm32x_xmm => Mnemonic::Vgatherdps,
            Code::VEX_Vgatherdps_ymm_vm32y_ymm => Mnemonic::Vgatherdps,
            Code::VEX_Vgatherdpd_xmm_vm32x_xmm => Mnemonic::Vgatherdpd,
            Code::VEX_Vgatherdpd_ymm_vm32x_ymm => Mnemonic::Vgatherdpd,
            Code::EVEX_Vgatherdps_xmm_k1_vm32x => Mnemonic::Vgatherdps,
            Code::EVEX_Vgatherdps_ymm_k1_vm32y => Mnemonic::Vgatherdps,
            Code::EVEX_Vgatherdps_zmm_k1_vm32z => Mnemonic::Vgatherdps,
            Code::EVEX_Vgatherdpd_xmm_k1_vm32x => Mnemonic::Vgatherdpd,
            Code::EVEX_Vgatherdpd_ymm_k1_vm32x => Mnemonic::Vgatherdpd,
            Code::EVEX_Vgatherdpd_zmm_k1_vm32y => Mnemonic::Vgatherdpd,
            Code::EVEX_Vpscatterdd_vm32x_k1_xmm => Mnemonic::Vpscatterdd,
            Code::EVEX_Vpscatterdd_vm32y_k1_ymm => Mnemonic::Vpscatterdd,
            Code::EVEX_Vpscatterdd_vm32z_k1_zmm => Mnemonic::Vpscatterdd,
            Code::EVEX_Vpscatterdq_vm32x_k1_xmm => Mnemonic::Vpscatterdq,
            Code::EVEX_Vpscatterdq_vm32x_k1_ymm => Mnemonic::Vpscatterdq,
            Code::EVEX_Vpscatterdq_vm32y_k1_zmm => Mnemonic::Vpscatterdq,
            Code::EVEX_Vscatterdps_vm32x_k1_xmm => Mnemonic::Vscatterdps,
            Code::EVEX_Vscatterdps_vm32y_k1_ymm => Mnemonic::Vscatterdps,
            Code::EVEX_Vscatterdps_vm32z_k1_zmm => Mnemonic::Vscatterdps,
            Code::EVEX_Vscatterdpd_vm32x_k1_xmm => Mnemonic::Vscatterdpd,
            Code::EVEX_Vscatterdpd_vm32x_k1_ymm => Mnemonic::Vscatterdpd,
            Code::EVEX_Vscatterdpd_vm32y_k1_zmm => Mnemonic::Vscatterdpd,
            Code::EVEX_Vgatherpf0dps_vm32z_k1 => Mnemonic::Vgatherpf0dps,
            Code::EVEX_Vgatherpf0dpd_vm32y_k1 => Mnemonic::Vgatherpf0dpd,
            Code::EVEX_Vgatherpf1dps_vm32z_k1 => Mnemonic::Vgatherpf1dps,
            Code::EVEX_Vgatherpf1dpd_vm32y_k1 => Mnemonic::Vgatherpf1dpd,
            Code::EVEX_Vscatterpf0dps_vm32z_k1 => Mnemonic::Vscatterpf0dps,
            Code::EVEX_Vscatterpf0dpd_vm32y_k1 => Mnemonic::Vscatterpf0dpd,
            Code::EVEX_Vscatterpf1dps_vm32z_k1 => Mnemonic::Vscatterpf1dps,
            Code::EVEX_Vscatterpf1dpd_vm32y_k1 => Mnemonic::Vscatterpf1dpd,
            Code::VEX_Vpgatherqd_xmm_vm64x_xmm => Mnemonic::Vpgatherqd,
            Code::VEX_Vpgatherqd_xmm_vm64y_xmm => Mnemonic::Vpgatherqd,
            Code::VEX_Vpgatherqq_xmm_vm64x_xmm => Mnemonic::Vpgatherqq,
            Code::VEX_Vpgatherqq_ymm_vm64y_ymm => Mnemonic::Vpgatherqq,
            Code::EVEX_Vpgatherqd_xmm_k1_vm64x => Mnemonic::Vpgatherqd,
            Code::EVEX_Vpgatherqd_xmm_k1_vm64y => Mnemonic::Vpgatherqd,
            Code::EVEX_Vpgatherqd_ymm_k1_vm64z => Mnemonic::Vpgatherqd,
            Code::EVEX_Vpgatherqq_xmm_k1_vm64x => Mnemonic::Vpgatherqq,
            Code::EVEX_Vpgatherqq_ymm_k1_vm64y => Mnemonic::Vpgatherqq,
            Code::EVEX_Vpgatherqq_zmm_k1_vm64z => Mnemonic::Vpgatherqq,
            Code::VEX_Vgatherqps_xmm_vm64x_xmm => Mnemonic::Vgatherqps,
            Code::VEX_Vgatherqps_xmm_vm64y_xmm => Mnemonic::Vgatherqps,
            Code::VEX_Vgatherqpd_xmm_vm64x_xmm => Mnemonic::Vgatherqpd,
            Code::VEX_Vgatherqpd_ymm_vm64y_ymm => Mnemonic::Vgatherqpd,
            Code::EVEX_Vgatherqps_xmm_k1_vm64x => Mnemonic::Vgatherqps,
            Code::EVEX_Vgatherqps_xmm_k1_vm64y => Mnemonic::Vgatherqps,
            Code::EVEX_Vgatherqps_ymm_k1_vm64z => Mnemonic::Vgatherqps,
            Code::EVEX_Vgatherqpd_xmm_k1_vm64x => Mnemonic::Vgatherqpd,
            Code::EVEX_Vgatherqpd_ymm_k1_vm64y => Mnemonic::Vgatherqpd,
            Code::EVEX_Vgatherqpd_zmm_k1_vm64z => Mnemonic::Vgatherqpd,
            Code::EVEX_Vpscatterqd_vm64x_k1_xmm => Mnemonic::Vpscatterqd,
            Code::EVEX_Vpscatterqd_vm64y_k1_xmm => Mnemonic::Vpscatterqd,
            Code::EVEX_Vpscatterqd_vm64z_k1_ymm => Mnemonic::Vpscatterqd,
            Code::EVEX_Vpscatterqq_vm64x_k1_xmm => Mnemonic::Vpscatterqq,
            Code::EVEX_Vpscatterqq_vm64y_k1_ymm => Mnemonic::Vpscatterqq,
            Code::EVEX_Vpscatterqq_vm64z_k1_zmm => Mnemonic::Vpscatterqq,
            Code::EVEX_Vscatterqps_vm64x_k1_xmm => Mnemonic::Vscatterqps,
            Code::EVEX_Vscatterqps_vm64y_k1_xmm => Mnemonic::Vscatterqps,
            Code::EVEX_Vscatterqps_vm64z_k1_ymm => Mnemonic::Vscatterqps,
            Code::EVEX_Vscatterqpd_vm64x_k1_xmm => Mnemonic::Vscatterqpd,
            Code::EVEX_Vscatterqpd_vm64y_k1_ymm => Mnemonic::Vscatterqpd,
            Code::EVEX_Vscatterqpd_vm64z_k1_zmm => Mnemonic::Vscatterqpd,
            Code::EVEX_Vgatherpf0qps_vm64z_k1 => Mnemonic::Vgatherpf0qps,
            Code::EVEX_Vgatherpf0qpd_vm64z_k1 => Mnemonic::Vgatherpf0qpd,
            Code::EVEX_Vgatherpf1qps_vm64z_k1 => Mnemonic::Vgatherpf1qps,
            Code::EVEX_Vgatherpf1qpd_vm64z_k1 => Mnemonic::Vgatherpf1qpd,
            Code::EVEX_Vscatterpf0qps_vm64z_k1 => Mnemonic::Vscatterpf0qps,
            Code::EVEX_Vscatterpf0qpd_vm64z_k1 => Mnemonic::Vscatterpf0qpd,
            Code::EVEX_Vscatterpf1qps_vm64z_k1 => Mnemonic::Vscatterpf1qps,
            Code::EVEX_Vscatterpf1qpd_vm64z_k1 => Mnemonic::Vscatterpf1qpd,
        }
    }

    /// Returns the mnemonic of this instruction form.
    pub fn mnemonic(self) -> (m: Mnemonic)
        ensures
            m == self.spec_mnemonic(),
    {
        match self {
            Code::INVALID => Mnemonic::INVALID,
            Code::DeclareByte => Mnemonic::Db,
            Code::DeclareWord => Mnemonic::Dw,
            Code::DeclareDword => Mnemonic::Dd,
            Code::DeclareQword => Mnemonic::Dq,
            Code::Mov_r32_rm32 => Mnemonic::Mov,
            Code::Mov_r32_imm32 => Mnemonic::Mov,
            Code::Mov_r64_imm64 => Mnemonic::Mov,
            Code::Add_rm64_imm8 => Mnemonic::Add,
            Code::Push_r64 => Mnemonic::Push,
            Code::EVEX_Vaddps_zmm_k1z_zmm_zmmm512b32 => Mnemonic::Vaddps,
            Code::VEX_Vpgatherdd_xmm_vm32x_xmm => Mnemonic::Vpgatherdd,
            Code::VEX_Vpgatherdd_ymm_vm32y_ymm => Mnemonic::Vpgatherdd,
            Code::VEX_Vpgatherdq_xmm_vm32x_xmm => Mnemonic::Vpgatherdq,
            Code::VEX_Vpgatherdq_ymm_vm32x_ymm => Mnemonic::Vpgatherdq,
            Code::EVEX_Vpgatherdd_xmm_k1_vm32x => Mnemonic::Vpgatherdd,
            Code::EVEX_Vpgatherdd_ymm_k1_vm32y => Mnemonic::Vpgatherdd,
            Code::EVEX_Vpgatherdd_zmm_k1_vm32z => Mnemonic::Vpgatherdd,
            Code::EVEX_Vpgatherdq_xmm_k1_vm32x => Mnemonic::Vpgatherdq,
            Code::EVEX_Vpgatherdq_ymm_k1_vm32x => Mnemonic::Vpgatherdq,
            Code::EVEX_Vpgatherdq_zmm_k1_vm32y => Mnemonic::Vpgatherdq,
            Code::VEX_Vgatherdps_xmm_vm32x_xmm => Mnemonic::Vgatherdps,
            Code::VEX_Vgatherdps_ymm_vm32y_ymm => Mnemonic::Vgatherdps,
            Code::VEX_Vgatherdpd_xmm_vm32x_xmm => Mnemonic::Vgatherdpd,
            Code::VEX_Vgatherdpd_ymm_vm32x_ymm => Mnemonic::Vgatherdpd,
            Code::EVEX_Vgatherdps_xmm_k1_vm32x => Mnemonic::Vgatherdps,
            Code::EVEX_Vgatherdps_ymm_k1_vm32y => Mnemonic::Vgatherdps,
            Code::EVEX_Vgatherdps_zmm_k1_vm32z => Mnemonic::Vgatherdps,
            Code::EVEX_Vgatherdpd_xmm_k1_vm32x => Mnemonic::Vgatherdpd,
            Code::EVEX_Vgatherdpd_ymm_k1_vm32x => Mnemonic::Vgatherdpd,
            Code::EVEX_Vgatherdpd_zmm_k1_vm32y => Mnemonic::Vgatherdpd,
            Code::EVEX_Vpscatterdd_vm32x_k1_xmm => Mnemonic::Vpscatterdd,
            Code::EVEX_Vpscatterdd_vm32y_k1_ymm => Mnemonic::Vpscatterdd,
            Code::EVEX_Vpscatterdd_vm32z_k1_zmm => Mnemonic::Vpscatterdd,
            Code::EVEX_Vpscatterdq_vm32x_k1_xmm => Mnemonic::Vpscatterdq,
            Code::EVEX_Vpscatterdq_vm32x_k1_ymm => Mnemonic::Vpscatterdq,
            Code::EVEX_Vpscatterdq_vm32y_k1_zmm => Mnemonic::Vpscatterdq,
            Code::EVEX_Vscatterdps_vm32x_k1_xmm => Mnemonic::Vscatterdps,
            Code::EVEX_Vscatterdps_vm32y_k1_ymm => Mnemonic::Vscatterdps,
            Code::EVEX_Vscatterdps_vm32z_k1_zmm => Mnemonic::Vscatterdps,
            Code::EVEX_Vscatterdpd_vm32x_k1_xmm => Mnemonic::Vscatterdpd,
            Code::EVEX_Vscatterdpd_vm32x_k1_ymm => Mnemonic::Vscatterdpd,
            Code::EVEX_Vscatterdpd_vm32y_k1_zmm => Mnemonic::Vscatterdpd,
            Code::EVEX_Vgatherpf0dps_vm32z_k1 => Mnemonic::Vgatherpf0dps,
            Code::EVEX_Vgatherpf0dpd_vm32y_k1 => Mnemonic::Vgatherpf0dpd,
            Code::EVEX_Vgatherpf1dps_vm32z_k1 => Mnemonic::Vgatherpf1dps,
            Code::EVEX_Vgatherpf1dpd_vm32y_k1 => Mnemonic::Vgatherpf1dpd,
            Code::EVEX_Vscatterpf0dps_vm32z_k1 => Mnemonic::Vscatterpf0dps,
            Code::EVEX_Vscatterpf0dpd_vm32y_k1 => Mnemonic::Vscatterpf0dpd,
            Code::EVEX_Vscatterpf1dps_vm32z_k1 => Mnemonic::Vscatterpf1dps,
            Code::EVEX_Vscatterpf1dpd_vm32y_k1 => Mnemonic::Vscatterpf1dpd,
            Code::VEX_Vpgatherqd_xmm_vm64x_xmm => Mnemonic::Vpgatherqd,
            Code::VEX_Vpgatherqd_xmm_vm64y_xmm => Mnemonic::Vpgatherqd,
            Code::VEX_Vpgatherqq_xmm_vm64x_xmm => Mnemonic::Vpgatherqq,
            Code::VEX_Vpgatherqq_ymm_vm64y_ymm => Mnemonic::Vpgatherqq,
            Code::EVEX_Vpgatherqd_xmm_k1_vm64x => Mnemonic::Vpgatherqd,
            Code::EVEX_Vpgatherqd_xmm_k1_vm64y => Mnemonic::Vpgatherqd,
            Code::EVEX_Vpgatherqd_ymm_k1_vm64z => Mnemonic::Vpgatherqd,
            Code::EVEX_Vpgatherqq_xmm_k1_vm64x => Mnemonic::Vpgatherqq,
            Code::EVEX_Vpgatherqq_ymm_k1_vm64y => Mnemonic::Vpgatherqq,
            Code::EVEX_Vpgatherqq_zmm_k1_vm64z => Mnemonic::Vpgatherqq,
            Code::VEX_Vgatherqps_xmm_vm64x_xmm => Mnemonic::Vgatherqps,
            Code::VEX_Vgatherqps_xmm_vm64y_xmm => Mnemonic::Vgatherqps,
            Code::VEX_Vgatherqpd_xmm_vm64x_xmm => Mnemonic::Vgatherqpd,
            Code::VEX_Vgatherqpd_ymm_vm64y_ymm => Mnemonic::Vgatherqpd,
            Code::EVEX_Vgatherqps_xmm_k1_vm64x => Mnemonic::Vgatherqps,
            Code::EVEX_Vgatherqps_xmm_k1_vm64y => Mnemonic::Vgatherqps,
            Code::EVEX_Vgatherqps_ymm_k1_vm64z => Mnemonic::Vgatherqps,
            Code::EVEX_Vgatherqpd_xmm_k1_vm64x => Mnemonic::Vgatherqpd,
            Code::EVEX_Vgatherqpd_ymm_k1_vm64y => Mnemonic::Vgatherqpd,
            Code::EVEX_Vgatherqpd_zmm_k1_vm64z => Mnemonic::Vgatherqpd,
            Code::EVEX_Vpscatterqd_vm64x_k1_xmm => Mnemonic::Vpscatterqd,
            Code::EVEX_Vpscatterqd_vm64y_k1_xmm => Mnemonic::Vpscatterqd,
            Code::EVEX_Vpscatterqd_vm64z_k1_ymm => Mnemonic::Vpscatterqd,
            Code::EVEX_Vpscatterqq_vm64x_k1_xmm => Mnemonic::Vpscatterqq,
            Code::EVEX_Vpscatterqq_vm64y_k1_ymm => Mnemonic::Vpscatterqq,
            Code::EVEX_Vpscatterqq_vm64z_k1_zmm => Mnemonic::Vpscatterqq,
            Code::EVEX_Vscatterqps_vm64x_k1_xmm => Mnemonic::Vscatterqps,
            Code::EVEX_Vscatterqps_vm64y_k1_xmm => Mnemonic::Vscatterqps,
            Code::EVEX_Vscatterqps_vm64z_k1_ymm => Mnemonic::Vscatterqps,
            Code::EVEX_Vscatterqpd_vm64x_k1_xmm => Mnemonic::Vscatterqpd,
            Code::EVEX_Vscatterqpd_vm64y_k1_ymm => Mnemonic::Vscatterqpd,
            Code::EVEX_Vscatterqpd_vm64z_k1_zmm => Mnemonic::Vscatterqpd,
            Code::EVEX_Vgatherpf0qps_vm64z_k1 => Mnemonic::Vgatherpf0qps,
            Code::EVEX_Vgatherpf0qpd_vm64z_k1 => Mnemonic::Vgatherpf0qpd,
            Code::EVEX_Vgatherpf1qps_vm64z_k1 => Mnemonic::Vgatherpf1qps,
            Code::EVEX_Vgatherpf1qpd_vm64z_k1 => Mnemonic::Vgatherpf1qpd,
            Code::EVEX_Vscatterpf0qps_vm64z_k1 => Mnemonic::Vscatterpf0qps,
            Code::EVEX_Vscatterpf0qpd_vm64z_k1 => Mnemonic::Vscatterpf0qpd,
            Code::EVEX_Vscatterpf1qps_vm64z_k1 => Mnemonic::Vscatterpf1qps,
            Code::EVEX_Vscatterpf1qpd_vm64z_k1 => Mnemonic::Vscatterpf1qpd,
        }
    }

    /// The number of operands of this instruction form, 0-5.
    pub open spec fn spec_op_count(self) -> i32 {
        match self {
            Code::INVALID => 0,
            Code::DeclareByte => 1,
            Code::DeclareWord => 1,
            Code::DeclareDword => 1,
            Code::DeclareQword => 1,
            Code::Mov_r32_rm32 => 2,
            Code::Mov_r32_imm32 => 2,
            Code::Mov_r64_imm64 => 2,
            Code::Add_rm64_imm8 => 2,
            Code::Push_r64 => 1,
            Code::EVEX_Vaddps_zmm_k1z_zmm_zmmm512b32 => 3,
            Code::VEX_Vpgatherdd_xmm_vm32x_xmm => 3,
            Code::VEX_Vpgatherdd_ymm_vm32y_ymm => 3,
            Code::VEX_Vpgatherdq_xmm_vm32x_xmm => 3,
            Code::VEX_Vpgatherdq_ymm_vm32x_ymm => 3,
            Code::EVEX_Vpgatherdd_xmm_k1_vm32x => 2,
            Code::EVEX_Vpgatherdd_ymm_k1_vm32y => 2,
            Code::EVEX_Vpgatherdd_zmm_k1_vm32z => 2,
            Code::EVEX_Vpgatherdq_xmm_k1_vm32x => 2,
            Code::EVEX_Vpgatherdq_ymm_k1_vm32x => 2,
            Code::EVEX_Vpgatherdq_zmm_k1_vm32y => 2,
            Code::VEX_Vgatherdps_xmm_vm32x_xmm => 3,
            Code::VEX_Vgatherdps_ymm_vm32y_ymm => 3,
            Code::VEX_Vgatherdpd_xmm_vm32x_xmm => 3,
            Code::VEX_Vgatherdpd_ymm_vm32x_ymm => 3,
            Code::EVEX_Vgatherdps_xmm_k1_vm32x => 2,
            Code::EVEX_Vgatherdps_ymm_k1_vm32y => 2,
            Code::EVEX_Vgatherdps_zmm_k1_vm32z => 2,
            Code::EVEX_Vgatherdpd_xmm_k1_vm32x => 2,
            Code::EVEX_Vgatherdpd_ymm_k1_vm32x => 2,
            Code::EVEX_Vgatherdpd_zmm_k1_vm32y => 2,
            Code::EVEX_Vpscatterdd_vm32x_k1_xmm => 2,
            Code::EVEX_Vpscatterdd_vm32y_k1_ymm => 2,
            Code::EVEX_Vpscatterdd_vm32z_k1_zmm => 2,
            Code::EVEX_Vpscatterdq_vm32x_k1_xmm => 2,
            Code::EVEX_Vpscatterdq_vm32x_k1_ymm => 2,
            Code::EVEX_Vpscatterdq_vm32y_k1_zmm => 2,
            Code::EVEX_Vscatterdps_vm32x_k1_xmm => 2,
            Code::EVEX_Vscatterdps_vm32y_k1_ymm => 2,
            Code::EVEX_Vscatterdps_vm32z_k1_zmm => 2,
            Code::EVEX_Vscatterdpd_vm32x_k1_xmm => 2,
            Code::EVEX_Vscatterdpd_vm32x_k1_ymm => 2,
            Code::EVEX_Vscatterdpd_vm32y_k1_zmm => 2,
            Code::EVEX_Vgatherpf0dps_vm32z_k1 => 1,
            Code::EVEX_Vgatherpf0dpd_vm32y_k1 => 1,
            Code::EVEX_Vgatherpf1dps_vm32z_k1 => 1,
            Code::EVEX_Vgatherpf1dpd_vm32y_k1 => 1,
            Code::EVEX_Vscatterpf0dps_vm32z_k1 => 1,
            Code::EVEX_Vscatterpf0dpd_vm32y_k1 => 1,
            Code::EVEX_Vscatterpf1dps_vm32z_k1 => 1,
            Code::EVEX_Vscatterpf1dpd_vm32y_k1 => 1,
            Code::VEX_Vpgatherqd_xmm_vm64x_xmm => 3,
            Code::VEX_Vpgatherqd_xmm_vm64y_xmm => 3,
            Code::VEX_Vpgatherqq_xmm_vm64x_xmm => 3,
            Code::VEX_Vpgatherqq_ymm_vm64y_ymm => 3,
            Code::EVEX_Vpgatherqd_xmm_k1_vm64x => 2,
            Code::EVEX_Vpgatherqd_xmm_k1_vm64y => 2,
            Code::EVEX_Vpgatherqd_ymm_k1_vm64z => 2,
            Code::EVEX_Vpgatherqq_xmm_k1_vm64x => 2,
            Code::EVEX_Vpgatherqq_ymm_k1_vm64y => 2,
            Code::EVEX_Vpgatherqq_zmm_k1_vm64z => 2,
            Code::VEX_Vgatherqps_xmm_vm64x_xmm => 3,
            Code::VEX_Vgatherqps_xmm_vm64y_xmm => 3,
            Code::VEX_Vgatherqpd_xmm_vm64x_xmm => 3,
            Code::VEX_Vgatherqpd_ymm_vm64y_ymm => 3,
            Code::EVEX_Vgatherqps_xmm_k1_vm64x => 2,
            Code::EVEX_Vgatherqps_xmm_k1_vm64y => 2,
            Code::EVEX_Vgatherqps_ymm_k1_vm64z => 2,
            Code::EVEX_Vgatherqpd_xmm_k1_vm64x => 2,
            Code::EVEX_Vgatherqpd_ymm_k1_vm64y => 2,
            Code::EVEX_Vgatherqpd_zmm_k1_vm64z => 2,
            Code::EVEX_Vpscatterqd_vm64x_k1_xmm => 2,
            Code::EVEX_Vpscatterqd_vm64y_k1_xmm => 2,
            Code::EVEX_Vpscatterqd_vm64z_k1_ymm => 2,
            Code::EVEX_Vpscatterqq_vm64x_k1_xmm => 2,
            Code::EVEX_Vpscatterqq_vm64y_k1_ymm => 2,
            Code::EVEX_Vpscatterqq_vm64z_k1_zmm => 2,
            Code::EVEX_Vscatterqps_vm64x_k1_xmm => 2,
            Code::EVEX_Vscatterqps_vm64y_k1_xmm => 2,
            Code::EVEX_Vscatterqps_vm64z_k1_ymm => 2,
            Code::EVEX_Vscatterqpd_vm64x_k1_xmm => 2,
            Code::EVEX_Vscatterqpd_vm64y_k1_ymm => 2,
            Code::EVEX_Vscatterqpd_vm64z_k1_zmm => 2,
            Code::EVEX_Vgatherpf0qps_vm64z_k1 => 1,
            Code::EVEX_Vgatherpf0qpd_vm64z_k1 => 1,
            Code::EVEX_Vgatherpf1qps_vm64z_k1 => 1,
            Code::EVEX_Vgatherpf1qpd_vm64z_k1 => 1,
            Code::EVEX_Vscatterpf0qps_vm64z_k1 => 1,
            Code::EVEX_Vscatterpf0qpd_vm64z_k1 => 1,
            Code::EVEX_Vscatterpf1qps_vm64z_k1 => 1,
            Code::EVEX_Vscatterpf1qpd_vm64z_k1 => 1,
        }
    }

    /// Returns the number of operands of this instruction form, 0-5.
    pub fn op_count(self) -> (n: i32)
        ensures
            n == self.spec_op_count(),
            0 <= n <= 5,
    {
        match self {
            Code::INVALID => 0,
            Code::DeclareByte => 1,
            Code::DeclareWord => 1,
            Code::DeclareDword => 1,
            Code::DeclareQword => 1,
            Code::Mov_r32_rm32 => 2,
            Code::Mov_r32_imm32 => 2,
            Code::Mov_r64_imm64 => 2,
            Code::Add_rm64_imm8 => 2,
            Code::Push_r64 => 1,
            Code::EVEX_Vaddps_zmm_k1z_zmm_zmmm512b32 => 3,
            Code::VEX_Vpgatherdd_xmm_vm32x_xmm => 3,
            Code::VEX_Vpgatherdd_ymm_vm32y_ymm => 3,
            Code::VEX_Vpgatherdq_xmm_vm32x_xmm => 3,
            Code::VEX_Vpgatherdq_ymm_vm32x_ymm => 3,
            Code::EVEX_Vpgatherdd_xmm_k1_vm32x => 2,
            Code::EVEX_Vpgatherdd_ymm_k1_vm32y => 2,
            Code::EVEX_Vpgatherdd_zmm_k1_vm32z => 2,
            Code::EVEX_Vpgatherdq_xmm_k1_vm32x => 2,
            Code::EVEX_Vpgatherdq_ymm_k1_vm32x => 2,
            Code::EVEX_Vpgatherdq_zmm_k1_vm32y => 2,
            Code::VEX_Vgatherdps_xmm_vm32x_xmm => 3,
            Code::VEX_Vgatherdps_ymm_vm32y_ymm => 3,
            Code::VEX_Vgatherdpd_xmm_vm32x_xmm => 3,
            Code::VEX_Vgatherdpd_ymm_vm32x_ymm => 3,
            Code::EVEX_Vgatherdps_xmm_k1_vm32x => 2,
            Code::EVEX_Vgatherdps_ymm_k1_vm32y => 2,
            Code::EVEX_Vgatherdps_zmm_k1_vm32z => 2,
            Code::EVEX_Vgatherdpd_xmm_k1_vm32x => 2,
            Code::EVEX_Vgatherdpd_ymm_k1_vm32x => 2,
            Code::EVEX_Vgatherdpd_zmm_k1_vm32y => 2,
            Code::EVEX_Vpscatterdd_vm32x_k1_xmm => 2,
            Code::EVEX_Vpscatterdd_vm32y_k1_ymm => 2,
            Code::EVEX_Vpscatterdd_vm32z_k1_zmm => 2,
            Code::EVEX_Vpscatterdq_vm32x_k1_xmm => 2,
            Code::EVEX_Vpscatterdq_vm32x_k1_ymm => 2,
            Code::EVEX_Vpscatterdq_vm32y_k1_zmm => 2,
            Code::EVEX_Vscatterdps_vm32x_k1_xmm => 2,
            Code::EVEX_Vscatterdps_vm32y_k1_ymm => 2,
            Code::EVEX_Vscatterdps_vm32z_k1_zmm => 2,
            Code::EVEX_Vscatterdpd_vm32x_k1_xmm => 2,
            Code::EVEX_Vscatterdpd_vm32x_k1_ymm => 2,
            Code::EVEX_Vscatterdpd_vm32y_k1_zmm => 2,
            Code::EVEX_Vgatherpf0dps_vm32z_k1 => 1,
            Code::EVEX_Vgatherpf0dpd_vm32y_k1 => 1,
            Code::EVEX_Vgatherpf1dps_vm32z_k1 => 1,
            Code::EVEX_Vgatherpf1dpd_vm32y_k1 => 1,
            Code::EVEX_Vscatterpf0dps_vm32z_k1 => 1,
            Code::EVEX_Vscatterpf0dpd_vm32y_k1 => 1,
            Code::EVEX_Vscatterpf1dps_vm32z_k1 => 1,
            Code::EVEX_Vscatterpf1dpd_vm32y_k1 => 1,
            Code::VEX_Vpgatherqd_xmm_vm64x_xmm => 3,
            Code::VEX_Vpgatherqd_xmm_vm64y_xmm => 3,
            Code::VEX_Vpgatherqq_xmm_vm64x_xmm => 3,
            Code::VEX_Vpgatherqq_ymm_vm64y_ymm => 3,
            Code::EVEX_Vpgatherqd_xmm_k1_vm64x => 2,
            Code::EVEX_Vpgatherqd_xmm_k1_vm64y => 2,
            Code::EVEX_Vpgatherqd_ymm_k1_vm64z => 2,
            Code::EVEX_Vpgatherqq_xmm_k1_vm64x => 2,
            Code::EVEX_Vpgatherqq_ymm_k1_vm64y => 2,
            Code::EVEX_Vpgatherqq_zmm_k1_vm64z => 2,
            Code::VEX_Vgatherqps_xmm_vm64x_xmm => 3,
            Code::VEX_Vgatherqps_xmm_vm64y_xmm => 3,
            Code::VEX_Vgatherqpd_xmm_vm64x_xmm => 3,
            Code::VEX_Vgatherqpd_ymm_vm64y_ymm => 3,
            Code::EVEX_Vgatherqps_xmm_k1_vm64x => 2,
            Code::EVEX_Vgatherqps_xmm_k1_vm64y => 2,
            Code::EVEX_Vgatherqps_ymm_k1_vm64z => 2,
            Code::EVEX_Vgatherqpd_xmm_k1_vm64x => 2,
            Code::EVEX_Vgatherqpd_ymm_k1_vm64y => 2,
            Code::EVEX_Vgatherqpd_zmm_k1_vm64z => 2,
            Code::EVEX_Vpscatterqd_vm64x_k1_xmm => 2,
            Code::EVEX_Vpscatterqd_vm64y_k1_xmm => 2,
            Code::EVEX_Vpscatterqd_vm64z_k1_ymm => 2,
            Code::EVEX_Vpscatterqq_vm64x_k1_xmm => 2,
            Code::EVEX_Vpscatterqq_vm64y_k1_ymm => 2,
            Code::EVEX_Vpscatterqq_vm64z_k1_zmm => 2,
            Code::EVEX_Vscatterqps_vm64x_k1_xmm => 2,
            Code::EVEX_Vscatterqps_vm64y_k1_xmm => 2,
            Code::EVEX_Vscatterqps_vm64z_k1_ymm => 2,
            Code::EVEX_Vscatterqpd_vm64x_k1_xmm => 2,
            Code::EVEX_Vscatterqpd_vm64y_k1_ymm => 2,
            Code::EVEX_Vscatterqpd_vm64z_k1_zmm => 2,
            Code::EVEX_Vgatherpf0qps_vm64z_k1 => 1,
            Code::EVEX_Vgatherpf0qpd_vm64z_k1 => 1,
            Code::EVEX_Vgatherpf1qps_vm64z_k1 => 1,
            Code::EVEX_Vgatherpf1qpd_vm64z_k1 => 1,
            Code::EVEX_Vscatterpf0qps_vm64z_k1 => 1,
            Code::EVEX_Vscatterpf0qpd_vm64z_k1 => 1,
            Code::EVEX_Vscatterpf1qps_vm64z_k1 => 1,
            Code::EVEX_Vscatterpf1qpd_vm64z_k1 => 1,
        }
    }

    /// The size of the memory location referenced by this form's memory
    /// operand; the broadcast flag selects the second half of the table.
    pub open spec fn spec_memory_size(self, is_broadcast: bool) -> MemorySize {
        if is_broadcast {
            match self {
                Code::INVALID => MemorySize::Unknown,
                Code::DeclareByte => MemorySize::UInt8,
                Code::DeclareWord => MemorySize::UInt16,
                Code::DeclareDword => MemorySize::UInt32,
                Code::DeclareQword => MemorySize::UInt64,
                Code::Mov_r32_rm32 => MemorySize::UInt32,
                Code::Mov_r32_imm32 => MemorySize::Unknown,
                Code::Mov_r64_imm64 => MemorySize::Unknown,
                Code::Add_rm64_imm8 => MemorySize::UInt64,
                Code::Push_r64 => MemorySize::Unknown,
                Code::EVEX_Vaddps_zmm_k1z_zmm_zmmm512b32 => MemorySize::Broadcast512_Float32,
                Code::VEX_Vpgatherdd_xmm_vm32x_xmm => MemorySize::UInt32,
                Code::VEX_Vpgatherdd_ymm_vm32y_ymm => MemorySize::UInt32,
                Code::VEX_Vpgatherdq_xmm_vm32x_xmm => MemorySize::UInt64,
                Code::VEX_Vpgatherdq_ymm_vm32x_ymm => MemorySize::UInt64,
                Code::EVEX_Vpgatherdd_xmm_k1_vm32x => MemorySize::UInt32,
                Code::EVEX_Vpgatherdd_ymm_k1_vm32y => MemorySize::UInt32,
                Code::EVEX_Vpgatherdd_zmm_k1_vm32z => MemorySize::UInt32,
                Code::EVEX_Vpgatherdq_xmm_k1_vm32x => MemorySize::UInt64,
                Code::EVEX_Vpgatherdq_ymm_k1_vm32x => MemorySize::UInt64,
                Code::EVEX_Vpgatherdq_zmm_k1_vm32y => MemorySize::UInt64,
                Code::VEX_Vgatherdps_xmm_vm32x_xmm => MemorySize::Float32,
                Code::VEX_Vgatherdps_ymm_vm32y_ymm => MemorySize::Float32,
                Code::VEX_Vgatherdpd_xmm_vm32x_xmm => MemorySize::Float64,
                Code::VEX_Vgatherdpd_ymm_vm32x_ymm => MemorySize::Float64,
                Code::EVEX_Vgatherdps_xmm_k1_vm32x => MemorySize::Float32,
                Code::EVEX_Vgatherdps_ymm_k1_vm32y => MemorySize::Float32,
                Code::EVEX_Vgatherdps_zmm_k1_vm32z => MemorySize::Float32,
                Code::EVEX_Vgatherdpd_xmm_k1_vm32x => MemorySize::Float64,
                Code::EVEX_Vgatherdpd_ymm_k1_vm32x => MemorySize::Float64,
                Code::EVEX_Vgatherdpd_zmm_k1_vm32y => MemorySize::Float64,
                Code::EVEX_Vpscatterdd_vm32x_k1_xmm => MemorySize::UInt32,
                Code::EVEX_Vpscatterdd_vm32y_k1_ymm => MemorySize::UInt32,
                Code::EVEX_Vpscatterdd_vm32z_k1_zmm => MemorySize::UInt32,
                Code::EVEX_Vpscatterdq_vm32x_k1_xmm => MemorySize::UInt64,
                Code::EVEX_Vpscatterdq_vm32x_k1_ymm => MemorySize::UInt64,
                Code::EVEX_Vpscatterdq_vm32y_k1_zmm => MemorySize::UInt64,
                Code::EVEX_Vscatterdps_vm32x_k1_xmm => MemorySize::Float32,
                Code::EVEX_Vscatterdps_vm32y_k1_ymm => MemorySize::Float32,
                Code::EVEX_Vscatterdps_vm32z_k1_zmm => MemorySize::Float32,
                Code::EVEX_Vscatterdpd_vm32x_k1_xmm => MemorySize::Float64,
                Code::EVEX_Vscatterdpd_vm32x_k1_ymm => MemorySize::Float64,
                Code::EVEX_Vscatterdpd_vm32y_k1_zmm => MemorySize::Float64,
                Code::EVEX_Vgatherpf0dps_vm32z_k1 => MemorySize::Float32,
                Code::EVEX_Vgatherpf0dpd_vm32y_k1 => MemorySize::Float64,
                Code::EVEX_Vgatherpf1dps_vm32z_k1 => MemorySize::Float32,
                Code::EVEX_Vgatherpf1dpd_vm32y_k1 => MemorySize::Float64,
                Code::EVEX_Vscatterpf0dps_vm32z_k1 => MemorySize::Float32,
                Code::EVEX_Vscatterpf0dpd_vm32y_k1 => MemorySize::Float64,
                Code::EVEX_Vscatterpf1dps_vm32z_k1 => MemorySize::Float32,
                Code::EVEX_Vscatterpf1dpd_vm32y_k1 => MemorySize::Float64,
                Code::VEX_Vpgatherqd_xmm_vm64x_xmm => MemorySize::UInt32,
                Code::VEX_Vpgatherqd_xmm_vm64y_xmm => MemorySize::UInt32,
                Code::VEX_Vpgatherqq_xmm_vm64x_xmm => MemorySize::UInt64,
                Code::VEX_Vpgatherqq_ymm_vm64y_ymm => MemorySize::UInt64,
                Code::EVEX_Vpgatherqd_xmm_k1_vm64x => MemorySize::UInt32,
                Code::EVEX_Vpgatherqd_xmm_k1_vm64y => MemorySize::UInt32,
                Code::EVEX_Vpgatherqd_ymm_k1_vm64z => MemorySize::UInt32,
                Code::EVEX_Vpgatherqq_xmm_k1_vm64x => MemorySize::UInt64,
                Code::EVEX_Vpgatherqq_ymm_k1_vm64y => MemorySize::UInt64,
                Code::EVEX_Vpgatherqq_zmm_k1_vm64z => MemorySize::UInt64,
                Code::VEX_Vgatherqps_xmm_vm64x_xmm => MemorySize::Float32,
                Code::VEX_Vgatherqps_xmm_vm64y_xmm => MemorySize::Float32,
                Code::VEX_Vgatherqpd_xmm_vm64x_xmm => MemorySize::Float64,
                Code::VEX_Vgatherqpd_ymm_vm64y_ymm => MemorySize::Float64,
                Code::EVEX_Vgatherqps_xmm_k1_vm64x => MemorySize::Float32,
                Code::EVEX_Vgatherqps_xmm_k1_vm64y => MemorySize::Float32,
                Code::EVEX_Vgatherqps_ymm_k1_vm64z => MemorySize::Float32,
                Code::EVEX_Vgatherqpd_xmm_k1_vm64x => MemorySize::Float64,
                Code::EVEX_Vgatherqpd_ymm_k1_vm64y => MemorySize::Float64,
                Code::EVEX_Vgatherqpd_zmm_k1_vm64z => MemorySize::Float64,
                Code::EVEX_Vpscatterqd_vm64x_k1_xmm => MemorySize::UInt32,
                Code::EVEX_Vpscatterqd_vm64y_k1_xmm => MemorySize::UInt32,
                Code::EVEX_Vpscatterqd_vm64z_k1_ymm => MemorySize::UInt32,
                Code::EVEX_Vpscatterqq_vm64x_k1_xmm => MemorySize::UInt64,
                Code::EVEX_Vpscatterqq_vm64y_k1_ymm => MemorySize::UInt64,
                Code::EVEX_Vpscatterqq_vm64z_k1_zmm => MemorySize::UInt64,
                Code::EVEX_Vscatterqps_vm64x_k1_xmm => MemorySize::Float32,
                Code::EVEX_Vscatterqps_vm64y_k1_xmm => MemorySize::Float32,
                Code::EVEX_Vscatterqps_vm64z_k1_ymm => MemorySize::Float32,
                Code::EVEX_Vscatterqpd_vm64x_k1_xmm => MemorySize::Float64,
                Code::EVEX_Vscatterqpd_vm64y_k1_ymm => MemorySize::Float64,
                Code::EVEX_Vscatterqpd_vm64z_k1_zmm => MemorySize::Float64,
                Code::EVEX_Vgatherpf0qps_vm64z_k1 => MemorySize::Float32,
                Code::EVEX_Vgatherpf0qpd_vm64z_k1 => MemorySize::Float64,
                Code::EVEX_Vgatherpf1qps_vm64z_k1 => MemorySize::Float32,
                Code::EVEX_Vgatherpf1qpd_vm64z_k1 => MemorySize::Float64,
                Code::EVEX_Vscatterpf0qps_vm64z_k1 => MemorySize::Float32,
                Code::EVEX_Vscatterpf0qpd_vm64z_k1 => MemorySize::Float64,
                Code::EVEX_Vscatterpf1qps_vm64z_k1 => MemorySize::Float32,
                Code::EVEX_Vscatterpf1qpd_vm64z_k1 => MemorySize::Float64,
            }
        } else {
            match self {
                Code::INVALID => MemorySize::Unknown,
                Code::DeclareByte => MemorySize::UInt8,
                Code::DeclareWord => MemorySize::UInt16,
                Code::DeclareDword => MemorySize::UInt32,
                Code::DeclareQword => MemorySize::UInt64,
                Code::Mov_r32_rm32 => MemorySize::UInt32,
                Code::Mov_r32_imm32 => MemorySize::Unknown,
                Code::Mov_r64_imm64 => MemorySize::Unknown,
                Code::Add_rm64_imm8 => MemorySize::UInt64,
                Code::Push_r64 => MemorySize::Unknown,
                Code::EVEX_Vaddps_zmm_k1z_zmm_zmmm512b32 => MemorySize::Packed512_Float32,
                Code::VEX_Vpgatherdd_xmm_vm32x_xmm => MemorySize::UInt32,
                Code::VEX_Vpgatherdd_ymm_vm32y_ymm => MemorySize::UInt32,
                Code::VEX_Vpgatherdq_xmm_vm32x_xmm => MemorySize::UInt64,
                Code::VEX_Vpgatherdq_ymm_vm32x_ymm => MemorySize::UInt64,
                Code::EVEX_Vpgatherdd_xmm_k1_vm32x => MemorySize::UInt32,
                Code::EVEX_Vpgatherdd_ymm_k1_vm32y => MemorySize::UInt32,
                Code::EVEX_Vpgatherdd_zmm_k1_vm32z => MemorySize::UInt32,
                Code::EVEX_Vpgatherdq_xmm_k1_vm32x => MemorySize::UInt64,
                Code::EVEX_Vpgatherdq_ymm_k1_vm32x => MemorySize::UInt64,
                Code::EVEX_Vpgatherdq_zmm_k1_vm32y => MemorySize::UInt64,
                Code::VEX_Vgatherdps_xmm_vm32x_xmm => MemorySize::Float32,
                Code::VEX_Vgatherdps_ymm_vm32y_ymm => MemorySize::Float32,
                Code::VEX_Vgatherdpd_xmm_vm32x_xmm => MemorySize::Float64,
                Code::VEX_Vgatherdpd_ymm_vm32x_ymm => MemorySize::Float64,
                Code::EVEX_Vgatherdps_xmm_k1_vm32x => MemorySize::Float32,
                Code::EVEX_Vgatherdps_ymm_k1_vm32y => MemorySize::Float32,
                Code::EVEX_Vgatherdps_zmm_k1_vm32z => MemorySize::Float32,
                Code::EVEX_Vgatherdpd_xmm_k1_vm32x => MemorySize::Float64,
                Code::EVEX_Vgatherdpd_ymm_k1_vm32x => MemorySize::Float64,
                Code::EVEX_Vgatherdpd_zmm_k1_vm32y => MemorySize::Float64,
                Code::EVEX_Vpscatterdd_vm32x_k1_xmm => MemorySize::UInt32,
                Code::EVEX_Vpscatterdd_vm32y_k1_ymm => MemorySize::UInt32,
                Code::EVEX_Vpscatterdd_vm32z_k1_zmm => MemorySize::UInt32,
                Code::EVEX_Vpscatterdq_vm32x_k1_xmm => MemorySize::UInt64,
                Code::EVEX_Vpscatterdq_vm32x_k1_ymm => MemorySize::UInt64,
                Code::EVEX_Vpscatterdq_vm32y_k1_zmm => MemorySize::UInt64,
                Code::EVEX_Vscatterdps_vm32x_k1_xmm => MemorySize::Float32,
                Code::EVEX_Vscatterdps_vm32y_k1_ymm => MemorySize::Float32,
                Code::EVEX_Vscatterdps_vm32z_k1_zmm => MemorySize::Float32,
                Code::EVEX_Vscatterdpd_vm32x_k1_xmm => MemorySize::Float64,
                Code::EVEX_Vscatterdpd_vm32x_k1_ymm => MemorySize::Float64,
                Code::EVEX_Vscatterdpd_vm32y_k1_zmm => MemorySize::Float64,
                Code::EVEX_Vgatherpf0dps_vm32z_k1 => MemorySize::Float32,
                Code::EVEX_Vgatherpf0dpd_vm32y_k1 => MemorySize::Float64,
                Code::EVEX_Vgatherpf1dps_vm32z_k1 => MemorySize::Float32,
                Code::EVEX_Vgatherpf1dpd_vm32y_k1 => MemorySize::Float64,
                Code::EVEX_Vscatterpf0dps_vm32z_k1 => MemorySize::Float32,
                Code::EVEX_Vscatterpf0dpd_vm32y_k1 => MemorySize::Float64,
                Code::EVEX_Vscatterpf1dps_vm32z_k1 => MemorySize::Float32,
                Code::EVEX_Vscatterpf1dpd_vm32y_k1 => MemorySize::Float64,
                Code::VEX_Vpgatherqd_xmm_vm64x_xmm => MemorySize::UInt32,
                Code::VEX_Vpgatherqd_xmm_vm64y_xmm => MemorySize::UInt32,
                Code::VEX_Vpgatherqq_xmm_vm64x_xmm => MemorySize::UInt64,
                Code::VEX_Vpgatherqq_ymm_vm64y_ymm => MemorySize::UInt64,
                Code::EVEX_Vpgatherqd_xmm_k1_vm64x => MemorySize::UInt32,
                Code::EVEX_Vpgatherqd_xmm_k1_vm64y => MemorySize::UInt32,
                Code::EVEX_Vpgatherqd_ymm_k1_vm64z => MemorySize::UInt32,
                Code::EVEX_Vpgatherqq_xmm_k1_vm64x => MemorySize::UInt64,
                Code::EVEX_Vpgatherqq_ymm_k1_vm64y => MemorySize::UInt64,
                Code::EVEX_Vpgatherqq_zmm_k1_vm64z => MemorySize::UInt64,
                Code::VEX_Vgatherqps_xmm_vm64x_xmm => MemorySize::Float32,
                Code::VEX_Vgatherqps_xmm_vm64y_xmm => MemorySize::Float32,
                Code::VEX_Vgatherqpd_xmm_vm64x_xmm => MemorySize::Float64,
                Code::VEX_Vgatherqpd_ymm_vm64y_ymm => MemorySize::Float64,
                Code::EVEX_Vgatherqps_xmm_k1_vm64x => MemorySize::Float32,
                Code::EVEX_Vgatherqps_xmm_k1_vm64y => MemorySize::Float32,
                Code::EVEX_Vgatherqps_ymm_k1_vm64z => MemorySize::Float32,
                Code::EVEX_Vgatherqpd_xmm_k1_vm64x => MemorySize::Float64,
                Code::EVEX_Vgatherqpd_ymm_k1_vm64y => MemorySize::Float64,
                Code::EVEX_Vgatherqpd_zmm_k1_vm64z => MemorySize::Float64,
                Code::EVEX_Vpscatterqd_vm64x_k1_xmm => MemorySize::UInt32,
                Code::EVEX_Vpscatterqd_vm64y_k1_xmm => MemorySize::UInt32,
                Code::EVEX_Vpscatterqd_vm64z_k1_ymm => MemorySize::UInt32,
                Code::EVEX_Vpscatterqq_vm64x_k1_xmm => MemorySize::UInt64,
                Code::EVEX_Vpscatterqq_vm64y_k1_ymm => MemorySize::UInt64,
                Code::EVEX_Vpscatterqq_vm64z_k1_zmm => MemorySize::UInt64,
                Code::EVEX_Vscatterqps_vm64x_k1_xmm => MemorySize::Float32,
                Code::EVEX_Vscatterqps_vm64y_k1_xmm => MemorySize::Float32,
                Code::EVEX_Vscatterqps_vm64z_k1_ymm => MemorySize::Float32,
                Code::EVEX_Vscatterqpd_vm64x_k1_xmm => MemorySize::Float64,
                Code::EVEX_Vscatterqpd_vm64y_k1_ymm => MemorySize::Float64,
                Code::EVEX_Vscatterqpd_vm64z_k1_zmm => MemorySize::Float64,
                Code::EVEX_Vgatherpf0qps_vm64z_k1 => MemorySize::Float32,
                Code::EVEX_Vgatherpf0qpd_vm64z_k1 => MemorySize::Float64,
                Code::EVEX_Vgatherpf1qps_vm64z_k1 => MemorySize::Float32,
                Code::EVEX_Vgatherpf1qpd_vm64z_k1 => MemorySize::Float64,
                Code::EVEX_Vscatterpf0qps_vm64z_k1 => MemorySize::Float32,
                Code::EVEX_Vscatterpf0qpd_vm64z_k1 => MemorySize::Float64,
                Code::EVEX_Vscatterpf1qps_vm64z_k1 => MemorySize::Float32,
                Code::EVEX_Vscatterpf1qpd_vm64z_k1 => MemorySize::Float64,
            }
        }
    }

    /// Returns the size of the memory location referenced by this form's
    /// memory operand; the broadcast flag selects the second half of the table.
    pub fn memory_size(self, is_broadcast: bool) -> (m: MemorySize)
        ensures
            m == self.spec_memory_size(is_broadcast),
    {
        if is_broadcast {
            match self {
                Code::INVALID => MemorySize::Unknown,
                Code::DeclareByte => MemorySize::UInt8,
                Code::DeclareWord => MemorySize::UInt16,
                Code::DeclareDword => MemorySize::UInt32,
                Code::DeclareQword => MemorySize::UInt64,
                Code::Mov_r32_rm32 => MemorySize::UInt32,
                Code::Mov_r32_imm32 => MemorySize::Unknown,
                Code::Mov_r64_imm64 => MemorySize::Unknown,
                Code::Add_rm64_imm8 => MemorySize::UInt64,
                Code::Push_r64 => MemorySize::Unknown,
                Code::EVEX_Vaddps_zmm_k1z_zmm_zmmm512b32 => MemorySize::Broadcast512_Float32,
                Code::VEX_Vpgatherdd_xmm_vm32x_xmm => MemorySize::UInt32,
                Code::VEX_Vpgatherdd_ymm_vm32y_ymm => MemorySize::UInt32,
                Code::VEX_Vpgatherdq_xmm_vm32x_xmm => MemorySize::UInt64,
                Code::VEX_Vpgatherdq_ymm_vm32x_ymm => MemorySize::UInt64,
                Code::EVEX_Vpgatherdd_xmm_k1_vm32x => MemorySize::UInt32,
                Code::EVEX_Vpgatherdd_ymm_k1_vm32y => MemorySize::UInt32,
                Code::EVEX_Vpgatherdd_zmm_k1_vm32z => MemorySize::UInt32,
                Code::EVEX_Vpgatherdq_xmm_k1_vm32x => MemorySize::UInt64,
                Code::EVEX_Vpgatherdq_ymm_k1_vm32x => MemorySize::UInt64,
                Code::EVEX_Vpgatherdq_zmm_k1_vm32y => MemorySize::UInt64,
                Code::VEX_Vgatherdps_xmm_vm32x_xmm => MemorySize::Float32,
                Code::VEX_Vgatherdps_ymm_vm32y_ymm => MemorySize::Float32,
                Code::VEX_Vgatherdpd_xmm_vm32x_xmm => MemorySize::Float64,
                Code::VEX_Vgatherdpd_ymm_vm32x_ymm => MemorySize::Float64,
                Code::EVEX_Vgatherdps_xmm_k1_vm32x => MemorySize::Float32,
                Code::EVEX_Vgatherdps_ymm_k1_vm32y => MemorySize::Float32,
                Code::EVEX_Vgatherdps_zmm_k1_vm32z => MemorySize::Float32,
                Code::EVEX_Vgatherdpd_xmm_k1_vm32x => MemorySize::Float64,
                Code::EVEX_Vgatherdpd_ymm_k1_vm32x => MemorySize::Float64,
                Code::EVEX_Vgatherdpd_zmm_k1_vm32y => MemorySize::Float64,
                Code::EVEX_Vpscatterdd_vm32x_k1_xmm => MemorySize::UInt32,
                Code::EVEX_Vpscatterdd_vm32y_k1_ymm => MemorySize::UInt32,
                Code::EVEX_Vpscatterdd_vm32z_k1_zmm => MemorySize::UInt32,
                Code::EVEX_Vpscatterdq_vm32x_k1_xmm => MemorySize::UInt64,
                Code::EVEX_Vpscatterdq_vm32x_k1_ymm => MemorySize::UInt64,
                Code::EVEX_Vpscatterdq_vm32y_k1_zmm => MemorySize::UInt64,
                Code::EVEX_Vscatterdps_vm32x_k1_xmm => MemorySize::Float32,
                Code::EVEX_Vscatterdps_vm32y_k1_ymm => MemorySize::Float32,
                Code::EVEX_Vscatterdps_vm32z_k1_zmm => MemorySize::Float32,
                Code::EVEX_Vscatterdpd_vm32x_k1_xmm => MemorySize::Float64,
                Code::EVEX_Vscatterdpd_vm32x_k1_ymm => MemorySize::Float64,
                Code::EVEX_Vscatterdpd_vm32y_k1_zmm => MemorySize::Float64,
                Code::EVEX_Vgatherpf0dps_vm32z_k1 => MemorySize::Float32,
                Code::EVEX_Vgatherpf0dpd_vm32y_k1 => MemorySize::Float64,
                Code::EVEX_Vgatherpf1dps_vm32z_k1 => MemorySize::Float32,
                Code::EVEX_Vgatherpf1dpd_vm32y_k1 => MemorySize::Float64,
                Code::EVEX_Vscatterpf0dps_vm32z_k1 => MemorySize::Float32,
                Code::EVEX_Vscatterpf0dpd_vm32y_k1 => MemorySize::Float64,
                Code::EVEX_Vscatterpf1dps_vm32z_k1 => MemorySize::Float32,
                Code::EVEX_Vscatterpf1dpd_vm32y_k1 => MemorySize::Float64,
                Code::VEX_Vpgatherqd_xmm_vm64x_xmm => MemorySize::UInt32,
                Code::VEX_Vpgatherqd_xmm_vm64y_xmm => MemorySize::UInt32,
                Code::VEX_Vpgatherqq_xmm_vm64x_xmm => MemorySize::UInt64,
                Code::VEX_Vpgatherqq_ymm_vm64y_ymm => MemorySize::UInt64,
                Code::EVEX_Vpgatherqd_xmm_k1_vm64x => MemorySize::UInt32,
                Code::EVEX_Vpgatherqd_xmm_k1_vm64y => MemorySize::UInt32,
                Code::EVEX_Vpgatherqd_ymm_k1_vm64z => MemorySize::UInt32,
                Code::EVEX_Vpgatherqq_xmm_k1_vm64x => MemorySize::UInt64,
                Code::EVEX_Vpgatherqq_ymm_k1_vm64y => MemorySize::UInt64,
                Code::EVEX_Vpgatherqq_zmm_k1_vm64z => MemorySize::UInt64,
                Code::VEX_Vgatherqps_xmm_vm64x_xmm => MemorySize::Float32,
                Code::VEX_Vgatherqps_xmm_vm64y_xmm => MemorySize::Float32,
                Code::VEX_Vgatherqpd_xmm_vm64x_xmm => MemorySize::Float64,
                Code::VEX_Vgatherqpd_ymm_vm64y_ymm => MemorySize::Float64,
                Code::EVEX_Vgatherqps_xmm_k1_vm64x => MemorySize::Float32,
                Code::EVEX_Vgatherqps_xmm_k1_vm64y => MemorySize::Float32,
                Code::EVEX_Vgatherqps_ymm_k1_vm64z => MemorySize::Float32,
                Code::EVEX_Vgatherqpd_xmm_k1_vm64x => MemorySize::Float64,
                Code::EVEX_Vgatherqpd_ymm_k1_vm64y => MemorySize::Float64,
                Code::EVEX_Vgatherqpd_zmm_k1_vm64z => MemorySize::Float64,
                Code::EVEX_Vpscatterqd_vm64x_k1_xmm => MemorySize::UInt32,
                Code::EVEX_Vpscatterqd_vm64y_k1_xmm => MemorySize::UInt32,
                Code::EVEX_Vpscatterqd_vm64z_k1_ymm => MemorySize::UInt32,
                Code::EVEX_Vpscatterqq_vm64x_k1_xmm => MemorySize::UInt64,
                Code::EVEX_Vpscatterqq_vm64y_k1_ymm => MemorySize::UInt64,
                Code::EVEX_Vpscatterqq_vm64z_k1_zmm => MemorySize::UInt64,
                Code::EVEX_Vscatterqps_vm64x_k1_xmm => MemorySize::Float32,
                Code::EVEX_Vscatterqps_vm64y_k1_xmm => MemorySize::Float32,
                Code::EVEX_Vscatterqps_vm64z_k1_ymm => MemorySize::Float32,
                Code::EVEX_Vscatterqpd_vm64x_k1_xmm => MemorySize::Float64,
                Code::EVEX_Vscatterqpd_vm64y_k1_ymm => MemorySize::Float64,
                Code::EVEX_Vscatterqpd_vm64z_k1_zmm => MemorySize::Float64,
                Code::EVEX_Vgatherpf0qps_vm64z_k1 => MemorySize::Float32,
                Code::EVEX_Vgatherpf0qpd_vm64z_k1 => MemorySize::Float64,
                Code::EVEX_Vgatherpf1qps_vm64z_k1 => MemorySize::Float32,
                Code::EVEX_Vgatherpf1qpd_vm64z_k1 => MemorySize::Float64,
                Code::EVEX_Vscatterpf0qps_vm64z_k1 => MemorySize::Float32,
                Code::EVEX_Vscatterpf0qpd_vm64z_k1 => MemorySize::Float64,
                Code::EVEX_Vscatterpf1qps_vm64z_k1 => MemorySize::Float32,
                Code::EVEX_Vscatterpf1qpd_vm64z_k1 => MemorySize::Float64,
            }
        } else {
            match self {
                Code::INVALID => MemorySize::Unknown,
                Code::DeclareByte => MemorySize::UInt8,
                Code::DeclareWord => MemorySize::UInt16,
                Code::DeclareDword => MemorySize::UInt32,
                Code::DeclareQword => MemorySize::UInt64,
                Code::Mov_r32_rm32 => MemorySize::UInt32,
                Code::Mov_r32_imm32 => MemorySize::Unknown,
                Code::Mov_r64_imm64 => MemorySize::Unknown,
                Code::Add_rm64_imm8 => MemorySize::UInt64,
                Code::Push_r64 => MemorySize::Unknown,
                Code::EVEX_Vaddps_zmm_k1z_zmm_zmmm512b32 => MemorySize::Packed512_Float32,
                Code::VEX_Vpgatherdd_xmm_vm32x_xmm => MemorySize::UInt32,
                Code::VEX_Vpgatherdd_ymm_vm32y_ymm => MemorySize::UInt32,
                Code::VEX_Vpgatherdq_xmm_vm32x_xmm => MemorySize::UInt64,
                Code::VEX_Vpgatherdq_ymm_vm32x_ymm => MemorySize::UInt64,
                Code::EVEX_Vpgatherdd_xmm_k1_vm32x => MemorySize::UInt32,
                Code::EVEX_Vpgatherdd_ymm_k1_vm32y => MemorySize::UInt32,
                Code::EVEX_Vpgatherdd_zmm_k1_vm32z => MemorySize::UInt32,
                Code::EVEX_Vpgatherdq_xmm_k1_vm32x => MemorySize::UInt64,
                Code::EVEX_Vpgatherdq_ymm_k1_vm32x => MemorySize::UInt64,
                Code::EVEX_Vpgatherdq_zmm_k1_vm32y => MemorySize::UInt64,
                Code::VEX_Vgatherdps_xmm_vm32x_xmm => MemorySize::Float32,
                Code::VEX_Vgatherdps_ymm_vm32y_ymm => MemorySize::Float32,
                Code::VEX_Vgatherdpd_xmm_vm32x_xmm => MemorySize::Float64,
                Code::VEX_Vgatherdpd_ymm_vm32x_ymm => MemorySize::Float64,
                Code::EVEX_Vgatherdps_xmm_k1_vm32x => MemorySize::Float32,
                Code::EVEX_Vgatherdps_ymm_k1_vm32y => MemorySize::Float32,
                Code::EVEX_Vgatherdps_zmm_k1_vm32z => MemorySize::Float32,
                Code::EVEX_Vgatherdpd_xmm_k1_vm32x => MemorySize::Float64,
                Code::EVEX_Vgatherdpd_ymm_k1_vm32x => MemorySize::Float64,
                Code::EVEX_Vgatherdpd_zmm_k1_vm32y => MemorySize::Float64,
                Code::EVEX_Vpscatterdd_vm32x_k1_xmm => MemorySize::UInt32,
                Code::EVEX_Vpscatterdd_vm32y_k1_ymm => MemorySize::UInt32,
                Code::EVEX_Vpscatterdd_vm32z_k1_zmm => MemorySize::UInt32,
                Code::EVEX_Vpscatterdq_vm32x_k1_xmm => MemorySize::UInt64,
                Code::EVEX_Vpscatterdq_vm32x_k1_ymm => MemorySize::UInt64,
                Code::EVEX_Vpscatterdq_vm32y_k1_zmm => MemorySize::UInt64,
                Code::EVEX_Vscatterdps_vm32x_k1_xmm => MemorySize::Float32,
                Code::EVEX_Vscatterdps_vm32y_k1_ymm => MemorySize::Float32,
                Code::EVEX_Vscatterdps_vm32z_k1_zmm => MemorySize::Float32,
                Code::EVEX_Vscatterdpd_vm32x_k1_xmm => MemorySize::Float64,
                Code::EVEX_Vscatterdpd_vm32x_k1_ymm => MemorySize::Float64,
                Code::EVEX_Vscatterdpd_vm32y_k1_zmm => MemorySize::Float64,
                Code::EVEX_Vgatherpf0dps_vm32z_k1 => MemorySize::Float32,
                Code::EVEX_Vgatherpf0dpd_vm32y_k1 => MemorySize::Float64,
                Code::EVEX_Vgatherpf1dps_vm32z_k1 => MemorySize::Float32,
                Code::EVEX_Vgatherpf1dpd_vm32y_k1 => MemorySize::Float64,
                Code::EVEX_Vscatterpf0dps_vm32z_k1 => MemorySize::Float32,
                Code::EVEX_Vscatterpf0dpd_vm32y_k1 => MemorySize::Float64,
                Code::EVEX_Vscatterpf1dps_vm32z_k1 => MemorySize::Float32,
                Code::EVEX_Vscatterpf1dpd_vm32y_k1 => MemorySize::Float64,
                Code::VEX_Vpgatherqd_xmm_vm64x_xmm => MemorySize::UInt32,
                Code::VEX_Vpgatherqd_xmm_vm64y_xmm => MemorySize::UInt32,
                Code::VEX_Vpgatherqq_xmm_vm64x_xmm => MemorySize::UInt64,
                Code::VEX_Vpgatherqq_ymm_vm64y_ymm => MemorySize::UInt64,
                Code::EVEX_Vpgatherqd_xmm_k1_vm64x => MemorySize::UInt32,
                Code::EVEX_Vpgatherqd_xmm_k1_vm64y => MemorySize::UInt32,
                Code::EVEX_Vpgatherqd_ymm_k1_vm64z => MemorySize::UInt32,
                Code::EVEX_Vpgatherqq_xmm_k1_vm64x => MemorySize::UInt64,
                Code::EVEX_Vpgatherqq_ymm_k1_vm64y => MemorySize::UInt64,
                Code::EVEX_Vpgatherqq_zmm_k1_vm64z => MemorySize::UInt64,
                Code::VEX_Vgatherqps_xmm_vm64x_xmm => MemorySize::Float32,
                Code::VEX_Vgatherqps_xmm_vm64y_xmm => MemorySize::Float32,
                Code::VEX_Vgatherqpd_xmm_vm64x_xmm => MemorySize::Float64,
                Code::VEX_Vgatherqpd_ymm_vm64y_ymm => MemorySize::Float64,
                Code::EVEX_Vgatherqps_xmm_k1_vm64x => MemorySize::Float32,
                Code::EVEX_Vgatherqps_xmm_k1_vm64y => MemorySize::Float32,
                Code::EVEX_Vgatherqps_ymm_k1_vm64z => MemorySize::Float32,
                Code::EVEX_Vgatherqpd_xmm_k1_vm64x => MemorySize::Float64,
                Code::EVEX_Vgatherqpd_ymm_k1_vm64y => MemorySize::Float64,
                Code::EVEX_Vgatherqpd_zmm_k1_vm64z => MemorySize::Float64,
                Code::EVEX_Vpscatterqd_vm64x_k1_xmm => MemorySize::UInt32,
                Code::EVEX_Vpscatterqd_vm64y_k1_xmm => MemorySize::UInt32,
                Code::EVEX_Vpscatterqd_vm64z_k1_ymm => MemorySize::UInt32,
                Code::EVEX_Vpscatterqq_vm64x_k1_xmm => MemorySize::UInt64,
                Code::EVEX_Vpscatterqq_vm64y_k1_ymm => MemorySize::UInt64,
                Code::EVEX_Vpscatterqq_vm64z_k1_zmm => MemorySize::UInt64,
                Code::EVEX_Vscatterqps_vm64x_k1_xmm => MemorySize::Float32,
                Code::EVEX_Vscatterqps_vm64y_k1_xmm => MemorySize::Float32,
                Code::EVEX_Vscatterqps_vm64z_k1_ymm => MemorySize::Float32,
                Code::EVEX_Vscatterqpd_vm64x_k1_xmm => MemorySize::Float64,
                Code::EVEX_Vscatterqpd_vm64y_k1_ymm => MemorySize::Float64,
                Code::EVEX_Vscatterqpd_vm64z_k1_zmm => MemorySize::Float64,
                Code::EVEX_Vgatherpf0qps_vm64z_k1 => MemorySize::Float32,
                Code::EVEX_Vgatherpf0qpd_vm64z_k1 => MemorySize::Float64,
                Code::EVEX_Vgatherpf1qps_vm64z_k1 => MemorySize::Float32,
                Code::EVEX_Vgatherpf1qpd_vm64z_k1 => MemorySize::Float64,
                Code::EVEX_Vscatterpf0qps_vm64z_k1 => MemorySize::Float32,
                Code::EVEX_Vscatterpf0qpd_vm64z_k1 => MemorySize::Float64,
                Code::EVEX_Vscatterpf1qps_vm64z_k1 => MemorySize::Float32,
                Code::EVEX_Vscatterpf1qpd_vm64z_k1 => MemorySize::Float64,
            }
        }
    }

    /// VSIB classification of this form: `Some(false)` for 32-bit indexes,
    /// `Some(true)` for 64-bit indexes, `None` for non-VSIB forms.
    pub open spec fn spec_vsib(self) -> Option<bool> {
        match self {
            Code::VEX_Vpgatherdd_xmm_vm32x_xmm => Some(false),
            Code::VEX_Vpgatherdd_ymm_vm32y_ymm => Some(false),
            Code::VEX_Vpgatherdq_xmm_vm32x_xmm => Some(false),
            Code::VEX_Vpgatherdq_ymm_vm32x_ymm => Some(false),
            Code::EVEX_Vpgatherdd_xmm_k1_vm32x => Some(false),
            Code::EVEX_Vpgatherdd_ymm_k1_vm32y => Some(false),
            Code::EVEX_Vpgatherdd_zmm_k1_vm32z => Some(false),
            Code::EVEX_Vpgatherdq_xmm_k1_vm32x => Some(false),
            Code::EVEX_Vpgatherdq_ymm_k1_vm32x => Some(false),
            Code::EVEX_Vpgatherdq_zmm_k1_vm32y => Some(false),
            Code::VEX_Vgatherdps_xmm_vm32x_xmm => Some(false),
            Code::VEX_Vgatherdps_ymm_vm32y_ymm => Some(false),
            Code::VEX_Vgatherdpd_xmm_vm32x_xmm => Some(false),
            Code::VEX_Vgatherdpd_ymm_vm32x_ymm => Some(false),
            Code::EVEX_Vgatherdps_xmm_k1_vm32x => Some(false),
            Code::EVEX_Vgatherdps_ymm_k1_vm32y => Some(false),
            Code::EVEX_Vgatherdps_zmm_k1_vm32z => Some(false),
            Code::EVEX_Vgatherdpd_xmm_k1_vm32x => Some(false),
            Code::EVEX_Vgatherdpd_ymm_k1_vm32x => Some(false),
            Code::EVEX_Vgatherdpd_zmm_k1_vm32y => Some(false),
            Code::EVEX_Vpscatterdd_vm32x_k1_xmm => Some(false),
            Code::EVEX_Vpscatterdd_vm32y_k1_ymm => Some(false),
            Code::EVEX_Vpscatterdd_vm32z_k1_zmm => Some(false),
            Code::EVEX_Vpscatterdq_vm32x_k1_xmm => Some(false),
            Code::EVEX_Vpscatterdq_vm32x_k1_ymm => Some(false),
            Code::EVEX_Vpscatterdq_vm32y_k1_zmm => Some(false),
            Code::EVEX_Vscatterdps_vm32x_k1_xmm => Some(false),
            Code::EVEX_Vscatterdps_vm32y_k1_ymm => Some(false),
            Code::EVEX_Vscatterdps_vm32z_k1_zmm => Some(false),
            Code::EVEX_Vscatterdpd_vm32x_k1_xmm => Some(false),
            Code::EVEX_Vscatterdpd_vm32x_k1_ymm => Some(false),
            Code::EVEX_Vscatterdpd_vm32y_k1_zmm => Some(false),
            Code::EVEX_Vgatherpf0dps_vm32z_k1 => Some(false),
            Code::EVEX_Vgatherpf0dpd_vm32y_k1 => Some(false),
            Code::EVEX_Vgatherpf1dps_vm32z_k1 => Some(false),
            Code::EVEX_Vgatherpf1dpd_vm32y_k1 => Some(false),
            Code::EVEX_Vscatterpf0dps_vm32z_k1 => Some(false),
            Code::EVEX_Vscatterpf0dpd_vm32y_k1 => Some(false),
            Code::EVEX_Vscatterpf1dps_vm32z_k1 => Some(false),
            Code::EVEX_Vscatterpf1dpd_vm32y_k1 => Some(false),
            Code::VEX_Vpgatherqd_xmm_vm64x_xmm => Some(true),
            Code::VEX_Vpgatherqd_xmm_vm64y_xmm => Some(true),
            Code::VEX_Vpgatherqq_xmm_vm64x_xmm => Some(true),
            Code::VEX_Vpgatherqq_ymm_vm64y_ymm => Some(true),
            Code::EVEX_Vpgatherqd_xmm_k1_vm64x => Some(true),
            Code::EVEX_Vpgatherqd_xmm_k1_vm64y => Some(true),
            Code::EVEX_Vpgatherqd_ymm_k1_vm64z => Some(true),
            Code::EVEX_Vpgatherqq_xmm_k1_vm64x => Some(true),
            Code::EVEX_Vpgatherqq_ymm_k1_vm64y => Some(true),
            Code::EVEX_Vpgatherqq_zmm_k1_vm64z => Some(true),
            Code::VEX_Vgatherqps_xmm_vm64x_xmm => Some(true),
            Code::VEX_Vgatherqps_xmm_vm64y_xmm => Some(true),
            Code::VEX_Vgatherqpd_xmm_vm64x_xmm => Some(true),
            Code::VEX_Vgatherqpd_ymm_vm64y_ymm => Some(true),
            Code::EVEX_Vgatherqps_xmm_k1_vm64x => Some(true),
            Code::EVEX_Vgatherqps_xmm_k1_vm64y => Some(true),
            Code::EVEX_Vgatherqps_ymm_k1_vm64z => Some(true),
            Code::EVEX_Vgatherqpd_xmm_k1_vm64x => Some(true),
            Code::EVEX_Vgatherqpd_ymm_k1_vm64y => Some(true),
            Code::EVEX_Vgatherqpd_zmm_k1_vm64z => Some(true),
            Code::EVEX_Vpscatterqd_vm64x_k1_xmm => Some(true),
            Code::EVEX_Vpscatterqd_vm64y_k1_xmm => Some(true),
            Code::EVEX_Vpscatterqd_vm64z_k1_ymm => Some(true),
            Code::EVEX_Vpscatterqq_vm64x_k1_xmm => Some(true),
            Code::EVEX_Vpscatterqq_vm64y_k1_ymm => Some(true),
            Code::EVEX_Vpscatterqq_vm64z_k1_zmm => Some(true),
            Code::EVEX_Vscatterqps_vm64x_k1_xmm => Some(true),
            Code::EVEX_Vscatterqps_vm64y_k1_xmm => Some(true),
            Code::EVEX_Vscatterqps_vm64z_k1_ymm => Some(true),
            Code::EVEX_Vscatterqpd_vm64x_k1_xmm => Some(true),
            Code::EVEX_Vscatterqpd_vm64y_k1_ymm => Some(true),
            Code::EVEX_Vscatterqpd_vm64z_k1_zmm => Some(true),
            Code::EVEX_Vgatherpf0qps_vm64z_k1 => Some(true),
            Code::EVEX_Vgatherpf0qpd_vm64z_k1 => Some(true),
            Code::EVEX_Vgatherpf1qps_vm64z_k1 => Some(true),
            Code::EVEX_Vgatherpf1qpd_vm64z_k1 => Some(true),
            Code::EVEX_Vscatterpf0qps_vm64z_k1 => Some(true),
            Code::EVEX_Vscatterpf0qpd_vm64z_k1 => Some(true),
            Code::EVEX_Vscatterpf1qps_vm64z_k1 => Some(true),
            Code::EVEX_Vscatterpf1qpd_vm64z_k1 => Some(true),
            _ => None,
        }
    }

    /// Returns the VSIB classification of this form: `Some(false)` for
    /// 32-bit indexes, `Some(true)` for 64-bit indexes, `None` for non-VSIB
    /// forms.
    pub fn vsib(self) -> (r: Option<bool>)
        ensures
            r == self.spec_vsib(),
    {
        match self {
            Code::VEX_Vpgatherdd_xmm_vm32x_xmm => Some(false),
            Code::VEX_Vpgatherdd_ymm_vm32y_ymm => Some(false),
            Code::VEX_Vpgatherdq_xmm_vm32x_xmm => Some(false),
            Code::VEX_Vpgatherdq_ymm_vm32x_ymm => Some(false),
            Code::EVEX_Vpgatherdd_xmm_k1_vm32x => Some(false),
            Code::EVEX_Vpgatherdd_ymm_k1_vm32y => Some(false),
            Code::EVEX_Vpgatherdd_zmm_k1_vm32z => Some(false),
            Code::EVEX_Vpgatherdq_xmm_k1_vm32x => Some(false),
            Code::EVEX_Vpgatherdq_ymm_k1_vm32x => Some(false),
            Code::EVEX_Vpgatherdq_zmm_k1_vm32y => Some(false),
            Code::VEX_Vgatherdps_xmm_vm32x_xmm => Some(false),
            Code::VEX_Vgatherdps_ymm_vm32y_ymm => Some(false),
            Code::VEX_Vgatherdpd_xmm_vm32x_xmm => Some(false),
            Code::VEX_Vgatherdpd_ymm_vm32x_ymm => Some(false),
            Code::EVEX_Vgatherdps_xmm_k1_vm32x => Some(false),
            Code::EVEX_Vgatherdps_ymm_k1_vm32y => Some(false),
            Code::EVEX_Vgatherdps_zmm_k1_vm32z => Some(false),
            Code::EVEX_Vgatherdpd_xmm_k1_vm32x => Some(false),
            Code::EVEX_Vgatherdpd_ymm_k1_vm32x => Some(false),
            Code::EVEX_Vgatherdpd_zmm_k1_vm32y => Some(false),
            Code::EVEX_Vpscatterdd_vm32x_k1_xmm => Some(false),
            Code::EVEX_Vpscatterdd_vm32y_k1_ymm => Some(false),
            Code::EVEX_Vpscatterdd_vm32z_k1_zmm => Some(false),
            Code::EVEX_Vpscatterdq_vm32x_k1_xmm => Some(false),
            Code::EVEX_Vpscatterdq_vm32x_k1_ymm => Some(false),
            Code::EVEX_Vpscatterdq_vm32y_k1_zmm => Some(false),
            Code::EVEX_Vscatterdps_vm32x_k1_xmm => Some(false),
            Code::EVEX_Vscatterdps_vm32y_k1_ymm => Some(false),
            Code::EVEX_Vscatterdps_vm32z_k1_zmm => Some(false),
            Code::EVEX_Vscatterdpd_vm32x_k1_xmm => Some(false),
            Code::EVEX_Vscatterdpd_vm32x_k1_ymm => Some(false),
            Code::EVEX_Vscatterdpd_vm32y_k1_zmm => Some(false),
            Code::EVEX_Vgatherpf0dps_vm32z_k1 => Some(false),
            Code::EVEX_Vgatherpf0dpd_vm32y_k1 => Some(false),
            Code::EVEX_Vgatherpf1dps_vm32z_k1 => Some(false),
            Code::EVEX_Vgatherpf1dpd_vm32y_k1 => Some(false),
            Code::EVEX_Vscatterpf0dps_vm32z_k1 => Some(false),
            Code::EVEX_Vscatterpf0dpd_vm32y_k1 => Some(false),
            Code::EVEX_Vscatterpf1dps_vm32z_k1 => Some(false),
            Code::EVEX_Vscatterpf1dpd_vm32y_k1 => Some(false),
            Code::VEX_Vpgatherqd_xmm_vm64x_xmm => Some(true),
            Code::VEX_Vpgatherqd_xmm_vm64y_xmm => Some(true),
            Code::VEX_Vpgatherqq_xmm_vm64x_xmm => Some(true),
            Code::VEX_Vpgatherqq_ymm_vm64y_ymm => Some(true),
            Code::EVEX_Vpgatherqd_xmm_k1_vm64x => Some(true),
            Code::EVEX_Vpgatherqd_xmm_k1_vm64y => Some(true),
            Code::EVEX_Vpgatherqd_ymm_k1_vm64z => Some(true),
            Code::EVEX_Vpgatherqq_xmm_k1_vm64x => Some(true),
            Code::EVEX_Vpgatherqq_ymm_k1_vm64y => Some(true),
            Code::EVEX_Vpgatherqq_zmm_k1_vm64z => Some(true),
            Code::VEX_Vgatherqps_xmm_vm64x_xmm => Some(true),
            Code::VEX_Vgatherqps_xmm_vm64y_xmm => Some(true),
            Code::VEX_Vgatherqpd_xmm_vm64x_xmm => Some(true),
            Code::VEX_Vgatherqpd_ymm_vm64y_ymm => Some(true),
            Code::EVEX_Vgatherqps_xmm_k1_vm64x => Some(true),
            Code::EVEX_Vgatherqps_xmm_k1_vm64y => Some(true),
            Code::EVEX_Vgatherqps_ymm_k1_vm64z => Some(true),
            Code::EVEX_Vgatherqpd_xmm_k1_vm64x => Some(true),
            Code::EVEX_Vgatherqpd_ymm_k1_vm64y => Some(true),
            Code::EVEX_Vgatherqpd_zmm_k1_vm64z => Some(true),
            Code::EVEX_Vpscatterqd_vm64x_k1_xmm => Some(true),
            Code::EVEX_Vpscatterqd_vm64y_k1_xmm => Some(true),
            Code::EVEX_Vpscatterqd_vm64z_k1_ymm => Some(true),
            Code::EVEX_Vpscatterqq_vm64x_k1_xmm => Some(true),
            Code::EVEX_Vpscatterqq_vm64y_k1_ymm => Some(true),
            Code::EVEX_Vpscatterqq_vm64z_k1_zmm => Some(true),
            Code::EVEX_Vscatterqps_vm64x_k1_xmm => Some(true),
            Code::EVEX_Vscatterqps_vm64y_k1_xmm => Some(true),
            Code::EVEX_Vscatterqps_vm64z_k1_ymm => Some(true),
            Code::EVEX_Vscatterqpd_vm64x_k1_xmm => Some(true),
            Code::EVEX_Vscatterqpd_vm64y_k1_ymm => Some(true),
            Code::EVEX_Vscatterqpd_vm64z_k1_zmm => Some(true),
            Code::EVEX_Vgatherpf0qps_vm64z_k1 => Some(true),
            Code::EVEX_Vgatherpf0qpd_vm64z_k1 => Some(true),
            Code::EVEX_Vgatherpf1qps_vm64z_k1 => Some(true),
            Code::EVEX_Vgatherpf1qpd_vm64z_k1 => Some(true),
            Code::EVEX_Vscatterpf0qps_vm64z_k1 => Some(true),
            Code::EVEX_Vscatterpf0qpd_vm64z_k1 => Some(true),
            Code::EVEX_Vscatterpf1qps_vm64z_k1 => Some(true),
            Code::EVEX_Vscatterpf1qpd_vm64z_k1 => Some(true),
            _ => None,
        }
    }
}

} // verus!
