//! The full architectural register space: a closed, ordered enumeration.
//!
//! The ordinal position of each register is contiguous within its class, so
//! shifting a register by an integer yields the n-th register of the same
//! class (for example `EAX` shifted by 1 is `ECX`). Arithmetic that would
//! leave the valid ordinal range is ruled out by precondition rather than
//! wrapped.
use vstd::prelude::*;

verus! {

/// Number of `Register` enum values.
pub const NUMBER_OF_REGISTERS: u32 = 241;

/// A register.
#[allow(missing_docs)]
#[derive(Copy, Clone, Debug, Eq, PartialEq, Hash, Structural)]
pub enum Register {
    None_,
    AL,
    CL,
    DL,
    BL,
    AH,
    CH,
    DH,
    BH,
    SPL,
    BPL,
    SIL,
    DIL,
    R8L,
    R9L,
    R10L,
    R11L,
    R12L,
    R13L,
    R14L,
    R15L,
    AX,
    CX,
    DX,
    BX,
    SP,
    BP,
    SI,
    DI,
    R8W,
    R9W,
    R10W,
    R11W,
    R12W,
    R13W,
    R14W,
    R15W,
    EAX,
    ECX,
    EDX,
    EBX,
    ESP,
    EBP,
    ESI,
    EDI,
    R8D,
    R9D,
    R10D,
    R11D,
    R12D,
    R13D,
    R14D,
    R15D,
    RAX,
    RCX,
    RDX,
    RBX,
    RSP,
    RBP,
    RSI,
    RDI,
    R8,
    R9,
    R10,
    R11,
    R12,
    R13,
    R14,
    R15,
    EIP,
    RIP,
    ES,
    CS,
    SS,
    DS,
    FS,
    GS,
    XMM0,
    XMM1,
    XMM2,
    XMM3,
    XMM4,
    XMM5,
    XMM6,
    XMM7,
    XMM8,
    XMM9,
    XMM10,
    XMM11,
    XMM12,
    XMM13,
    XMM14,
    XMM15,
    XMM16,
    XMM17,
    XMM18,
    XMM19,
    XMM20,
    XMM21,
    XMM22,
    XMM23,
    XMM24,
    XMM25,
    XMM26,
    XMM27,
    XMM28,
    XMM29,
    XMM30,
    XMM31,
    YMM0,
    YMM1,
    YMM2,
    YMM3,
    YMM4,
    YMM5,
    YMM6,
    YMM7,
    YMM8,
    YMM9,
    YMM10,
    YMM11,
    YMM12,
    YMM13,
    YMM14,
    YMM15,
    YMM16,
    YMM17,
    YMM18,
    YMM19,
    YMM20,
    YMM21,
    YMM22,
    YMM23,
    YMM24,
    YMM25,
    YMM26,
    YMM27,
    YMM28,
    YMM29,
    YMM30,
    YMM31,
    ZMM0,
    ZMM1,
    ZMM2,
    ZMM3,
    ZMM4,
    ZMM5,
    ZMM6,
    ZMM7,
    ZMM8,
    ZMM9,
    ZMM10,
    ZMM11,
    ZMM12,
    ZMM13,
    ZMM14,
    ZMM15,
    ZMM16,
    ZMM17,
    ZMM18,
    ZMM19,
    ZMM20,
    ZMM21,
    ZMM22,
    ZMM23,
    ZMM24,
    ZMM25,
    ZMM26,
    ZMM27,
    ZMM28,
    ZMM29,
    ZMM30,
    ZMM31,
    K0,
    K1,
    K2,
    K3,
    K4,
    K5,
    K6,
    K7,
    BND0,
    BND1,
    BND2,
    BND3,
    CR0,
    CR1,
    CR2,
    CR3,
    CR4,
    CR5,
    CR6,
    CR7,
    CR8,
    CR9,
    CR10,
    CR11,
    CR12,
    CR13,
    CR14,
    CR15,
    DR0,
    DR1,
    DR2,
    DR3,
    DR4,
    DR5,
    DR6,
    DR7,
    DR8,
    DR9,
    DR10,
    DR11,
    DR12,
    DR13,
    DR14,
    DR15,
    ST0,
    ST1,
    ST2,
    ST3,
    ST4,
    ST5,
    ST6,
    ST7,
    MM0,
    MM1,
    MM2,
    MM3,
    MM4,
    MM5,
    MM6,
    MM7,
    TR0,
    TR1,
    TR2,
    TR3,
    TR4,
    TR5,
    TR6,
    TR7,
}

impl Register {
    /// The ordinal of this register in the enumeration (`None_` is 0).
    pub open spec fn spec_number(self) -> u8 {
        match self {
            Register::None_ => 0,
            Register::AL => 1,
            Register::CL => 2,
            Register::DL => 3,
            Register::BL => 4,
            Register::AH => 5,
            Register::CH => 6,
            Register::DH => 7,
            Register::BH => 8,
            Register::SPL => 9,
            Register::BPL => 10,
            Register::SIL => 11,
            Register::DIL => 12,
            Register::R8L => 13,
            Register::R9L => 14,
            Register::R10L => 15,
            Register::R11L => 16,
            Register::R12L => 17,
            Register::R13L => 18,
            Register::R14L => 19,
            Register::R15L => 20,
            Register::AX => 21,
            Register::CX => 22,
            Register::DX => 23,
            Register::BX => 24,
            Register::SP => 25,
            Register::BP => 26,
            Register::SI => 27,
            Register::DI => 28,
            Register::R8W => 29,
            Register::R9W => 30,
            Register::R10W => 31,
            Register::R11W => 32,
            Register::R12W => 33,
            Register::R13W => 34,
            Register::R14W => 35,
            Register::R15W => 36,
            Register::EAX => 37,
            Register::ECX => 38,
            Register::EDX => 39,
            Register::EBX => 40,
            Register::ESP => 41,
            Register::EBP => 42,
            Register::ESI => 43,
            Register::EDI => 44,
            Register::R8D => 45,
            Register::R9D => 46,
            Register::R10D => 47,
            Register::R11D => 48,
            Register::R12D => 49,
            Register::R13D => 50,
            Register::R14D => 51,
            Register::R15D => 52,
            Register::RAX => 53,
            Register::RCX => 54,
            Register::RDX => 55,
            Register::RBX => 56,
            Register::RSP => 57,
            Register::RBP => 58,
            Register::RSI => 59,
            Register::RDI => 60,
            Register::R8 => 61,
            Register::R9 => 62,
            Register::R10 => 63,
            Register::R11 => 64,
            Register::R12 => 65,
            Register::R13 => 66,
            Register::R14 => 67,
            Register::R15 => 68,
            Register::EIP => 69,
            Register::RIP => 70,
            Register::ES => 71,
            Register::CS => 72,
            Register::SS => 73,
            Register::DS => 74,
            Register::FS => 75,
            Register::GS => 76,
            Register::XMM0 => 77,
            Register::XMM1 => 78,
            Register::XMM2 => 79,
            Register::XMM3 => 80,
            Register::XMM4 => 81,
            Register::XMM5 => 82,
            Register::XMM6 => 83,
            Register::XMM7 => 84,
            Register::XMM8 => 85,
            Register::XMM9 => 86,
            Register::XMM10 => 87,
            Register::XMM11 => 88,
            Register::XMM12 => 89,
            Register::XMM13 => 90,
            Register::XMM14 => 91,
            Register::XMM15 => 92,
            Register::XMM16 => 93,
            Register::XMM17 => 94,
            Register::XMM18 => 95,
            Register::XMM19 => 96,
            Register::XMM20 => 97,
            Register::XMM21 => 98,
            Register::XMM22 => 99,
            Register::XMM23 => 100,
            Register::XMM24 => 101,
            Register::XMM25 => 102,
            Register::XMM26 => 103,
            Register::XMM27 => 104,
            Register::XMM28 => 105,
            Register::XMM29 => 106,
            Register::XMM30 => 107,
            Register::XMM31 => 108,
            Register::YMM0 => 109,
            Register::YMM1 => 110,
            Register::YMM2 => 111,
            Register::YMM3 => 112,
            Register::YMM4 => 113,
            Register::YMM5 => 114,
            Register::YMM6 => 115,
            Register::YMM7 => 116,
            Register::YMM8 => 117,
            Register::YMM9 => 118,
            Register::YMM10 => 119,
            Register::YMM11 => 120,
            Register::YMM12 => 121,
            Register::YMM13 => 122,
            Register::YMM14 => 123,
            Register::YMM15 => 124,
            Register::YMM16 => 125,
            Register::YMM17 => 126,
            Register::YMM18 => 127,
            Register::YMM19 => 128,
            Register::YMM20 => 129,
            Register::YMM21 => 130,
            Register::YMM22 => 131,
            Register::YMM23 => 132,
            Register::YMM24 => 133,
            Register::YMM25 => 134,
            Register::YMM26 => 135,
            Register::YMM27 => 136,
            Register::YMM28 => 137,
            Register::YMM29 => 138,
            Register::YMM30 => 139,
            Register::YMM31 => 140,
            Register::ZMM0 => 141,
            Register::ZMM1 => 142,
            Register::ZMM2 => 143,
            Register::ZMM3 => 144,
            Register::ZMM4 => 145,
            Register::ZMM5 => 146,
            Register::ZMM6 => 147,
            Register::ZMM7 => 148,
            Register::ZMM8 => 149,
            Register::ZMM9 => 150,
            Register::ZMM10 => 151,
            Register::ZMM11 => 152,
            Register::ZMM12 => 153,
            Register::ZMM13 => 154,
            Register::ZMM14 => 155,
            Register::ZMM15 => 156,
            Register::ZMM16 => 157,
            Register::ZMM17 => 158,
            Register::ZMM18 => 159,
            Register::ZMM19 => 160,
            Register::ZMM20 => 161,
            Register::ZMM21 => 162,
            Register::ZMM22 => 163,
            Register::ZMM23 => 164,
            Register::ZMM24 => 165,
            Register::ZMM25 => 166,
            Register::ZMM26 => 167,
            Register::ZMM27 => 168,
            Register::ZMM28 => 169,
            Register::ZMM29 => 170,
            Register::ZMM30 => 171,
            Register::ZMM31 => 172,
            Register::K0 => 173,
            Register::K1 => 174,
            Register::K2 => 175,
            Register::K3 => 176,
            Register::K4 => 177,
            Register::K5 => 178,
            Register::K6 => 179,
            Register::K7 => 180,
            Register::BND0 => 181,
            Register::BND1 => 182,
            Register::BND2 => 183,
            Register::BND3 => 184,
            Register::CR0 => 185,
            Register::CR1 => 186,
            Register::CR2 => 187,
            Register::CR3 => 188,
            Register::CR4 => 189,
            Register::CR5 => 190,
            Register::CR6 => 191,
            Register::CR7 => 192,
            Register::CR8 => 193,
            Register::CR9 => 194,
            Register::CR10 => 195,
            Register::CR11 => 196,
            Register::CR12 => 197,
            Register::CR13 => 198,
            Register::CR14 => 199,
            Register::CR15 => 200,
            Register::DR0 => 201,
            Register::DR1 => 202,
            Register::DR2 => 203,
            Register::DR3 => 204,
            Register::DR4 => 205,
            Register::DR5 => 206,
            Register::DR6 => 207,
            Register::DR7 => 208,
            Register::DR8 => 209,
            Register::DR9 => 210,
            Register::DR10 => 211,
            Register::DR11 => 212,
            Register::DR12 => 213,
            Register::DR13 => 214,
            Register::DR14 => 215,
            Register::DR15 => 216,
            Register::ST0 => 217,
            Register::ST1 => 218,
            Register::ST2 => 219,
            Register::ST3 => 220,
            Register::ST4 => 221,
            Register::ST5 => 222,
            Register::ST6 => 223,
            Register::ST7 => 224,
            Register::MM0 => 225,
            Register::MM1 => 226,
            Register::MM2 => 227,
            Register::MM3 => 228,
            Register::MM4 => 229,
            Register::MM5 => 230,
            Register::MM6 => 231,
            Register::MM7 => 232,
            Register::TR0 => 233,
            Register::TR1 => 234,
            Register::TR2 => 235,
            Register::TR3 => 236,
            Register::TR4 => 237,
            Register::TR5 => 238,
            Register::TR6 => 239,
            Register::TR7 => 240,
        }
    }

    /// Returns the ordinal of this register in the enumeration.
    pub fn number(self) -> (n: u8)
        ensures
            n == self.spec_number(),
    {
        match self {
            Register::None_ => 0,
            Register::AL => 1,
            Register::CL => 2,
            Register::DL => 3,
            Register::BL => 4,
            Register::AH => 5,
            Register::CH => 6,
            Register::DH => 7,
            Register::BH => 8,
            Register::SPL => 9,
            Register::BPL => 10,
            Register::SIL => 11,
            Register::DIL => 12,
            Register::R8L => 13,
            Register::R9L => 14,
            Register::R10L => 15,
            Register::R11L => 16,
            Register::R12L => 17,
            Register::R13L => 18,
            Register::R14L => 19,
            Register::R15L => 20,
            Register::AX => 21,
            Register::CX => 22,
            Register::DX => 23,
            Register::BX => 24,
            Register::SP => 25,
            Register::BP => 26,
            Register::SI => 27,
            Register::DI => 28,
            Register::R8W => 29,
            Register::R9W => 30,
            Register::R10W => 31,
            Register::R11W => 32,
            Register::R12W => 33,
            Register::R13W => 34,
            Register::R14W => 35,
            Register::R15W => 36,
            Register::EAX => 37,
            Register::ECX => 38,
            Register::EDX => 39,
            Register::EBX => 40,
            Register::ESP => 41,
            Register::EBP => 42,
            Register::ESI => 43,
            Register::EDI => 44,
            Register::R8D => 45,
            Register::R9D => 46,
            Register::R10D => 47,
            Register::R11D => 48,
            Register::R12D => 49,
            Register::R13D => 50,
            Register::R14D => 51,
            Register::R15D => 52,
            Register::RAX => 53,
            Register::RCX => 54,
            Register::RDX => 55,
            Register::RBX => 56,
            Register::RSP => 57,
            Register::RBP => 58,
            Register::RSI => 59,
            Register::RDI => 60,
            Register::R8 => 61,
            Register::R9 => 62,
            Register::R10 => 63,
            Register::R11 => 64,
            Register::R12 => 65,
            Register::R13 => 66,
            Register::R14 => 67,
            Register::R15 => 68,
            Register::EIP => 69,
            Register::RIP => 70,
            Register::ES => 71,
            Register::CS => 72,
            Register::SS => 73,
            Register::DS => 74,
            Register::FS => 75,
            Register::GS => 76,
            Register::XMM0 => 77,
            Register::XMM1 => 78,
            Register::XMM2 => 79,
            Register::XMM3 => 80,
            Register::XMM4 => 81,
            Register::XMM5 => 82,
            Register::XMM6 => 83,
            Register::XMM7 => 84,
            Register::XMM8 => 85,
            Register::XMM9 => 86,
            Register::XMM10 => 87,
            Register::XMM11 => 88,
            Register::XMM12 => 89,
            Register::XMM13 => 90,
            Register::XMM14 => 91,
            Register::XMM15 => 92,
            Register::XMM16 => 93,
            Register::XMM17 => 94,
            Register::XMM18 => 95,
            Register::XMM19 => 96,
            Register::XMM20 => 97,
            Register::XMM21 => 98,
            Register::XMM22 => 99,
            Register::XMM23 => 100,
            Register::XMM24 => 101,
            Register::XMM25 => 102,
            Register::XMM26 => 103,
            Register::XMM27 => 104,
            Register::XMM28 => 105,
            Register::XMM29 => 106,
            Register::XMM30 => 107,
            Register::XMM31 => 108,
            Register::YMM0 => 109,
            Register::YMM1 => 110,
            Register::YMM2 => 111,
            Register::YMM3 => 112,
            Register::YMM4 => 113,
            Register::YMM5 => 114,
            Register::YMM6 => 115,
            Register::YMM7 => 116,
            Register::YMM8 => 117,
            Register::YMM9 => 118,
            Register::YMM10 => 119,
            Register::YMM11 => 120,
            Register::YMM12 => 121,
            Register::YMM13 => 122,
            Register::YMM14 => 123,
            Register::YMM15 => 124,
            Register::YMM16 => 125,
            Register::YMM17 => 126,
            Register::YMM18 => 127,
            Register::YMM19 => 128,
            Register::YMM20 => 129,
            Register::YMM21 => 130,
            Register::YMM22 => 131,
            Register::YMM23 => 132,
            Register::YMM24 => 133,
            Register::YMM25 => 134,
            Register::YMM26 => 135,
            Register::YMM27 => 136,
            Register::YMM28 => 137,
            Register::YMM29 => 138,
            Register::YMM30 => 139,
            Register::YMM31 => 140,
            Register::ZMM0 => 141,
            Register::ZMM1 => 142,
            Register::ZMM2 => 143,
            Register::ZMM3 => 144,
            Register::ZMM4 => 145,
            Register::ZMM5 => 146,
            Register::ZMM6 => 147,
            Register::ZMM7 => 148,
            Register::ZMM8 => 149,
            Register::ZMM9 => 150,
            Register::ZMM10 => 151,
            Register::ZMM11 => 152,
            Register::ZMM12 => 153,
            Register::ZMM13 => 154,
            Register::ZMM14 => 155,
            Register::ZMM15 => 156,
            Register::ZMM16 => 157,
            Register::ZMM17 => 158,
            Register::ZMM18 => 159,
            Register::ZMM19 => 160,
            Register::ZMM20 => 161,
            Register::ZMM21 => 162,
            Register::ZMM22 => 163,
            Register::ZMM23 => 164,
            Register::ZMM24 => 165,
            Register::ZMM25 => 166,
            Register::ZMM26 => 167,
            Register::ZMM27 => 168,
            Register::ZMM28 => 169,
            Register::ZMM29 => 170,
            Register::ZMM30 => 171,
            Register::ZMM31 => 172,
            Register::K0 => 173,
            Register::K1 => 174,
            Register::K2 => 175,
            Register::K3 => 176,
            Register::K4 => 177,
            Register::K5 => 178,
            Register::K6 => 179,
            Register::K7 => 180,
            Register::BND0 => 181,
            Register::BND1 => 182,
            Register::BND2 => 183,
            Register::BND3 => 184,
            Register::CR0 => 185,
            Register::CR1 => 186,
            Register::CR2 => 187,
            Register::CR3 => 188,
            Register::CR4 => 189,
            Register::CR5 => 190,
            Register::CR6 => 191,
            Register::CR7 => 192,
            Register::CR8 => 193,
            Register::CR9 => 194,
            Register::CR10 => 195,
            Register::CR11 => 196,
            Register::CR12 => 197,
            Register::CR13 => 198,
            Register::CR14 => 199,
            Register::CR15 => 200,
            Register::DR0 => 201,
            Register::DR1 => 202,
            Register::DR2 => 203,
            Register::DR3 => 204,
            Register::DR4 => 205,
            Register::DR5 => 206,
            Register::DR6 => 207,
            Register::DR7 => 208,
            Register::DR8 => 209,
            Register::DR9 => 210,
            Register::DR10 => 211,
            Register::DR11 => 212,
            Register::DR12 => 213,
            Register::DR13 => 214,
            Register::DR14 => 215,
            Register::DR15 => 216,
            Register::ST0 => 217,
            Register::ST1 => 218,
            Register::ST2 => 219,
            Register::ST3 => 220,
            Register::ST4 => 221,
            Register::ST5 => 222,
            Register::ST6 => 223,
            Register::ST7 => 224,
            Register::MM0 => 225,
            Register::MM1 => 226,
            Register::MM2 => 227,
            Register::MM3 => 228,
            Register::MM4 => 229,
            Register::MM5 => 230,
            Register::MM6 => 231,
            Register::MM7 => 232,
            Register::TR0 => 233,
            Register::TR1 => 234,
            Register::TR2 => 235,
            Register::TR3 => 236,
            Register::TR4 => 237,
            Register::TR5 => 238,
            Register::TR6 => 239,
            Register::TR7 => 240,
        }
    }

    /// The register with the given ordinal; out-of-range ordinals map to `None_`.
    pub open spec fn spec_from_number(n: u8) -> Register {
        if n == 0 {
            Register::None_
        } else if n == 1 {
            Register::AL
        } else if n == 2 {
            Register::CL
        } else if n == 3 {
            Register::DL
        } else if n == 4 {
            Register::BL
        } else if n == 5 {
            Register::AH
        } else if n == 6 {
            Register::CH
        } else if n == 7 {
            Register::DH
        } else if n == 8 {
            Register::BH
        } else if n == 9 {
            Register::SPL
        } else if n == 10 {
            Register::BPL
        } else if n == 11 {
            Register::SIL
        } else if n == 12 {
            Register::DIL
        } else if n == 13 {
            Register::R8L
        } else if n == 14 {
            Register::R9L
        } else if n == 15 {
            Register::R10L
        } else if n == 16 {
            Register::R11L
        } else if n == 17 {
            Register::R12L
        } else if n == 18 {
            Register::R13L
        } else if n == 19 {
            Register::R14L
        } else if n == 20 {
            Register::R15L
        } else if n == 21 {
            Register::AX
        } else if n == 22 {
            Register::CX
        } else if n == 23 {
            Register::DX
        } else if n == 24 {
            Register::BX
        } else if n == 25 {
            Register::SP
        } else if n == 26 {
            Register::BP
        } else if n == 27 {
            Register::SI
        } else if n == 28 {
            Register::DI
        } else if n == 29 {
            Register::R8W
        } else if n == 30 {
            Register::R9W
        } else if n == 31 {
            Register::R10W
        } else if n == 32 {
            Register::R11W
        } else if n == 33 {
            Register::R12W
        } else if n == 34 {
            Register::R13W
        } else if n == 35 {
            Register::R14W
        } else if n == 36 {
            Register::R15W
        } else if n == 37 {
            Register::EAX
        } else if n == 38 {
            Register::ECX
        } else if n == 39 {
            Register::EDX
        } else if n == 40 {
            Register::EBX
        } else if n == 41 {
            Register::ESP
        } else if n == 42 {
            Register::EBP
        } else if n == 43 {
            Register::ESI
        } else if n == 44 {
            Register::EDI
        } else if n == 45 {
            Register::R8D
        } else if n == 46 {
            Register::R9D
        } else if n == 47 {
            Register::R10D
        } else if n == 48 {
            Register::R11D
        } else if n == 49 {
            Register::R12D
        } else if n == 50 {
            Register::R13D
        } else if n == 51 {
            Register::R14D
        } else if n == 52 {
            Register::R15D
        } else if n == 53 {
            Register::RAX
        } else if n == 54 {
            Register::RCX
        } else if n == 55 {
            Register::RDX
        } else if n == 56 {
            Register::RBX
        } else if n == 57 {
            Register::RSP
        } else if n == 58 {
            Register::RBP
        } else if n == 59 {
            Register::RSI
        } else if n == 60 {
            Register::RDI
        } else if n == 61 {
            Register::R8
        } else if n == 62 {
            Register::R9
        } else if n == 63 {
            Register::R10
        } else if n == 64 {
            Register::R11
        } else if n == 65 {
            Register::R12
        } else if n == 66 {
            Register::R13
        } else if n == 67 {
            Register::R14
        } else if n == 68 {
            Register::R15
        } else if n == 69 {
            Register::EIP
        } else if n == 70 {
            Register::RIP
        } else if n == 71 {
            Register::ES
        } else if n == 72 {
            Register::CS
        } else if n == 73 {
            Register::SS
        } else if n == 74 {
            Register::DS
        } else if n == 75 {
            Register::FS
        } else if n == 76 {
            Register::GS
        } else if n == 77 {
            Register::XMM0
        } else if n == 78 {
            Register::XMM1
        } else if n == 79 {
            Register::XMM2
        } else if n == 80 {
            Register::XMM3
        } else if n == 81 {
            Register::XMM4
        } else if n == 82 {
            Register::XMM5
        } else if n == 83 {
            Register::XMM6
        } else if n == 84 {
            Register::XMM7
        } else if n == 85 {
            Register::XMM8
        } else if n == 86 {
            Register::XMM9
        } else if n == 87 {
            Register::XMM10
        } else if n == 88 {
            Register::XMM11
        } else if n == 89 {
            Register::XMM12
        } else if n == 90 {
            Register::XMM13
        } else if n == 91 {
            Register::XMM14
        } else if n == 92 {
            Register::XMM15
        } else if n == 93 {
            Register::XMM16
        } else if n == 94 {
            Register::XMM17
        } else if n == 95 {
            Register::XMM18
        } else if n == 96 {
            Register::XMM19
        } else if n == 97 {
            Register::XMM20
        } else if n == 98 {
            Register::XMM21
        } else if n == 99 {
            Register::XMM22
        } else if n == 100 {
            Register::XMM23
        } else if n == 101 {
            Register::XMM24
        } else if n == 102 {
            Register::XMM25
        } else if n == 103 {
            Register::XMM26
        } else if n == 104 {
            Register::XMM27
        } else if n == 105 {
            Register::XMM28
        } else if n == 106 {
            Register::XMM29
        } else if n == 107 {
            Register::XMM30
        } else if n == 108 {
            Register::XMM31
        } else if n == 109 {
            Register::YMM0
        } else if n == 110 {
            Register::YMM1
        } else if n == 111 {
            Register::YMM2
        } else if n == 112 {
            Register::YMM3
        } else if n == 113 {
            Register::YMM4
        } else if n == 114 {
            Register::YMM5
        } else if n == 115 {
            Register::YMM6
        } else if n == 116 {
            Register::YMM7
        } else if n == 117 {
            Register::YMM8
        } else if n == 118 {
            Register::YMM9
        } else if n == 119 {
            Register::YMM10
        } else if n == 120 {
            Register::YMM11
        } else if n == 121 {
            Register::YMM12
        } else if n == 122 {
            Register::YMM13
        } else if n == 123 {
            Register::YMM14
        } else if n == 124 {
            Register::YMM15
        } else if n == 125 {
            Register::YMM16
        } else if n == 126 {
            Register::YMM17
        } else if n == 127 {
            Register::YMM18
        } else if n == 128 {
            Register::YMM19
        } else if n == 129 {
            Register::YMM20
        } else if n == 130 {
            Register::YMM21
        } else if n == 131 {
            Register::YMM22
        } else if n == 132 {
            Register::YMM23
        } else if n == 133 {
            Register::YMM24
        } else if n == 134 {
            Register::YMM25
        } else if n == 135 {
            Register::YMM26
        } else if n == 136 {
            Register::YMM27
        } else if n == 137 {
            Register::YMM28
        } else if n == 138 {
            Register::YMM29
        } else if n == 139 {
            Register::YMM30
        } else if n == 140 {
            Register::YMM31
        } else if n == 141 {
            Register::ZMM0
        } else if n == 142 {
            Register::ZMM1
        } else if n == 143 {
            Register::ZMM2
        } else if n == 144 {
            Register::ZMM3
        } else if n == 145 {
            Register::ZMM4
        } else if n == 146 {
            Register::ZMM5
        } else if n == 147 {
            Register::ZMM6
        } else if n == 148 {
            Register::ZMM7
        } else if n == 149 {
            Register::ZMM8
        } else if n == 150 {
            Register::ZMM9
        } else if n == 151 {
            Register::ZMM10
        } else if n == 152 {
            Register::ZMM11
        } else if n == 153 {
            Register::ZMM12
        } else if n == 154 {
            Register::ZMM13
        } else if n == 155 {
            Register::ZMM14
        } else if n == 156 {
            Register::ZMM15
        } else if n == 157 {
            Register::ZMM16
        } else if n == 158 {
            Register::ZMM17
        } else if n == 159 {
            Register::ZMM18
        } else if n == 160 {
            Register::ZMM19
        } else if n == 161 {
            Register::ZMM20
        } else if n == 162 {
            Register::ZMM21
        } else if n == 163 {
            Register::ZMM22
        } else if n == 164 {
            Register::ZMM23
        } else if n == 165 {
            Register::ZMM24
        } else if n == 166 {
            Register::ZMM25
        } else if n == 167 {
            Register::ZMM26
        } else if n == 168 {
            Register::ZMM27
        } else if n == 169 {
            Register::ZMM28
        } else if n == 170 {
            Register::ZMM29
        } else if n == 171 {
            Register::ZMM30
        } else if n == 172 {
            Register::ZMM31
        } else if n == 173 {
            Register::K0
        } else if n == 174 {
            Register::K1
        } else if n == 175 {
            Register::K2
        } else if n == 176 {
            Register::K3
        } else if n == 177 {
            Register::K4
        } else if n == 178 {
            Register::K5
        } else if n == 179 {
            Register::K6
        } else if n == 180 {
            Register::K7
        } else if n == 181 {
            Register::BND0
        } else if n == 182 {
            Register::BND1
        } else if n == 183 {
            Register::BND2
        } else if n == 184 {
            Register::BND3
        } else if n == 185 {
            Register::CR0
        } else if n == 186 {
            Register::CR1
        } else if n == 187 {
            Register::CR2
        } else if n == 188 {
            Register::CR3
        } else if n == 189 {
            Register::CR4
        } else if n == 190 {
            Register::CR5
        } else if n == 191 {
            Register::CR6
        } else if n == 192 {
            Register::CR7
        } else if n == 193 {
            Register::CR8
        } else if n == 194 {
            Register::CR9
        } else if n == 195 {
            Register::CR10
        } else if n == 196 {
            Register::CR11
        } else if n == 197 {
            Register::CR12
        } else if n == 198 {
            Register::CR13
        } else if n == 199 {
            Register::CR14
        } else if n == 200 {
            Register::CR15
        } else if n == 201 {
            Register::DR0
        } else if n == 202 {
            Register::DR1
        } else if n == 203 {
            Register::DR2
        } else if n == 204 {
            Register::DR3
        } else if n == 205 {
            Register::DR4
        } else if n == 206 {
            Register::DR5
        } else if n == 207 {
            Register::DR6
        } else if n == 208 {
            Register::DR7
        } else if n == 209 {
            Register::DR8
        } else if n == 210 {
            Register::DR9
        } else if n == 211 {
            Register::DR10
        } else if n == 212 {
            Register::DR11
        } else if n == 213 {
            Register::DR12
        } else if n == 214 {
            Register::DR13
        } else if n == 215 {
            Register::DR14
        } else if n == 216 {
            Register::DR15
        } else if n == 217 {
            Register::ST0
        } else if n == 218 {
            Register::ST1
        } else if n == 219 {
            Register::ST2
        } else if n == 220 {
            Register::ST3
        } else if n == 221 {
            Register::ST4
        } else if n == 222 {
            Register::ST5
        } else if n == 223 {
            Register::ST6
        } else if n == 224 {
            Register::ST7
        } else if n == 225 {
            Register::MM0
        } else if n == 226 {
            Register::MM1
        } else if n == 227 {
            Register::MM2
        } else if n == 228 {
            Register::MM3
        } else if n == 229 {
            Register::MM4
        } else if n == 230 {
            Register::MM5
        } else if n == 231 {
            Register::MM6
        } else if n == 232 {
            Register::MM7
        } else if n == 233 {
            Register::TR0
        } else if n == 234 {
            Register::TR1
        } else if n == 235 {
            Register::TR2
        } else if n == 236 {
            Register::TR3
        } else if n == 237 {
            Register::TR4
        } else if n == 238 {
            Register::TR5
        } else if n == 239 {
            Register::TR6
        } else if n == 240 {
            Register::TR7
        } else {
            Register::None_
        }
    }

    /// Returns the register with the given ordinal; out-of-range ordinals map to `None_`.
    pub fn from_number(n: u8) -> (r: Register)
        ensures
            r == Self::spec_from_number(n),
    {
        if n == 0 {
            Register::None_
        } else if n == 1 {
            Register::AL
        } else if n == 2 {
            Register::CL
        } else if n == 3 {
            Register::DL
        } else if n == 4 {
            Register::BL
        } else if n == 5 {
            Register::AH
        } else if n == 6 {
            Register::CH
        } else if n == 7 {
            Register::DH
        } else if n == 8 {
            Register::BH
        } else if n == 9 {
            Register::SPL
        } else if n == 10 {
            Register::BPL
        } else if n == 11 {
            Register::SIL
        } else if n == 12 {
            Register::DIL
        } else if n == 13 {
            Register::R8L
        } else if n == 14 {
            Register::R9L
        } else if n == 15 {
            Register::R10L
        } else if n == 16 {
            Register::R11L
        } else if n == 17 {
            Register::R12L
        } else if n == 18 {
            Register::R13L
        } else if n == 19 {
            Register::R14L
        } else if n == 20 {
            Register::R15L
        } else if n == 21 {
            Register::AX
        } else if n == 22 {
            Register::CX
        } else if n == 23 {
            Register::DX
        } else if n == 24 {
            Register::BX
        } else if n == 25 {
            Register::SP
        } else if n == 26 {
            Register::BP
        } else if n == 27 {
            Register::SI
        } else if n == 28 {
            Register::DI
        } else if n == 29 {
            Register::R8W
        } else if n == 30 {
            Register::R9W
        } else if n == 31 {
            Register::R10W
        } else if n == 32 {
            Register::R11W
        } else if n == 33 {
            Register::R12W
        } else if n == 34 {
            Register::R13W
        } else if n == 35 {
            Register::R14W
        } else if n == 36 {
            Register::R15W
        } else if n == 37 {
            Register::EAX
        } else if n == 38 {
            Register::ECX
        } else if n == 39 {
            Register::EDX
        } else if n == 40 {
            Register::EBX
        } else if n == 41 {
            Register::ESP
        } else if n == 42 {
            Register::EBP
        } else if n == 43 {
            Register::ESI
        } else if n == 44 {
            Register::EDI
        } else if n == 45 {
            Register::R8D
        } else if n == 46 {
            Register::R9D
        } else if n == 47 {
            Register::R10D
        } else if n == 48 {
            Register::R11D
        } else if n == 49 {
            Register::R12D
        } else if n == 50 {
            Register::R13D
        } else if n == 51 {
            Register::R14D
        } else if n == 52 {
            Register::R15D
        } else if n == 53 {
            Register::RAX
        } else if n == 54 {
            Register::RCX
        } else if n == 55 {
            Register::RDX
        } else if n == 56 {
            Register::RBX
        } else if n == 57 {
            Register::RSP
        } else if n == 58 {
            Register::RBP
        } else if n == 59 {
            Register::RSI
        } else if n == 60 {
            Register::RDI
        } else if n == 61 {
            Register::R8
        } else if n == 62 {
            Register::R9
        } else if n == 63 {
            Register::R10
        } else if n == 64 {
            Register::R11
        } else if n == 65 {
            Register::R12
        } else if n == 66 {
            Register::R13
        } else if n == 67 {
            Register::R14
        } else if n == 68 {
            Register::R15
        } else if n == 69 {
            Register::EIP
        } else if n == 70 {
            Register::RIP
        } else if n == 71 {
            Register::ES
        } else if n == 72 {
            Register::CS
        } else if n == 73 {
            Register::SS
        } else if n == 74 {
            Register::DS
        } else if n == 75 {
            Register::FS
        } else if n == 76 {
            Register::GS
        } else if n == 77 {
            Register::XMM0
        } else if n == 78 {
            Register::XMM1
        } else if n == 79 {
            Register::XMM2
        } else if n == 80 {
            Register::XMM3
        } else if n == 81 {
            Register::XMM4
        } else if n == 82 {
            Register::XMM5
        } else if n == 83 {
            Register::XMM6
        } else if n == 84 {
            Register::XMM7
        } else if n == 85 {
            Register::XMM8
        } else if n == 86 {
            Register::XMM9
        } else if n == 87 {
            Register::XMM10
        } else if n == 88 {
            Register::XMM11
        } else if n == 89 {
            Register::XMM12
        } else if n == 90 {
            Register::XMM13
        } else if n == 91 {
            Register::XMM14
        } else if n == 92 {
            Register::XMM15
        } else if n == 93 {
            Register::XMM16
        } else if n == 94 {
            Register::XMM17
        } else if n == 95 {
            Register::XMM18
        } else if n == 96 {
            Register::XMM19
        } else if n == 97 {
            Register::XMM20
        } else if n == 98 {
            Register::XMM21
        } else if n == 99 {
            Register::XMM22
        } else if n == 100 {
            Register::XMM23
        } else if n == 101 {
            Register::XMM24
        } else if n == 102 {
            Register::XMM25
        } else if n == 103 {
            Register::XMM26
        } else if n == 104 {
            Register::XMM27
        } else if n == 105 {
            Register::XMM28
        } else if n == 106 {
            Register::XMM29
        } else if n == 107 {
            Register::XMM30
        } else if n == 108 {
            Register::XMM31
        } else if n == 109 {
            Register::YMM0
        } else if n == 110 {
            Register::YMM1
        } else if n == 111 {
            Register::YMM2
        } else if n == 112 {
            Register::YMM3
        } else if n == 113 {
            Register::YMM4
        } else if n == 114 {
            Register::YMM5
        } else if n == 115 {
            Register::YMM6
        } else if n == 116 {
            Register::YMM7
        } else if n == 117 {
            Register::YMM8
        } else if n == 118 {
            Register::YMM9
        } else if n == 119 {
            Register::YMM10
        } else if n == 120 {
            Register::YMM11
        } else if n == 121 {
            Register::YMM12
        } else if n == 122 {
            Register::YMM13
        } else if n == 123 {
            Register::YMM14
        } else if n == 124 {
            Register::YMM15
        } else if n == 125 {
            Register::YMM16
        } else if n == 126 {
            Register::YMM17
        } else if n == 127 {
            Register::YMM18
        } else if n == 128 {
            Register::YMM19
        } else if n == 129 {
            Register::YMM20
        } else if n == 130 {
            Register::YMM21
        } else if n == 131 {
            Register::YMM22
        } else if n == 132 {
            Register::YMM23
        } else if n == 133 {
            Register::YMM24
        } else if n == 134 {
            Register::YMM25
        } else if n == 135 {
            Register::YMM26
        } else if n == 136 {
            Register::YMM27
        } else if n == 137 {
            Register::YMM28
        } else if n == 138 {
            Register::YMM29
        } else if n == 139 {
            Register::YMM30
        } else if n == 140 {
            Register::YMM31
        } else if n == 141 {
            Register::ZMM0
        } else if n == 142 {
            Register::ZMM1
        } else if n == 143 {
            Register::ZMM2
        } else if n == 144 {
            Register::ZMM3
        } else if n == 145 {
            Register::ZMM4
        } else if n == 146 {
            Register::ZMM5
        } else if n == 147 {
            Register::ZMM6
        } else if n == 148 {
            Register::ZMM7
        } else if n == 149 {
            Register::ZMM8
        } else if n == 150 {
            Register::ZMM9
        } else if n == 151 {
            Register::ZMM10
        } else if n == 152 {
            Register::ZMM11
        } else if n == 153 {
            Register::ZMM12
        } else if n == 154 {
            Register::ZMM13
        } else if n == 155 {
            Register::ZMM14
        } else if n == 156 {
            Register::ZMM15
        } else if n == 157 {
            Register::ZMM16
        } else if n == 158 {
            Register::ZMM17
        } else if n == 159 {
            Register::ZMM18
        } else if n == 160 {
            Register::ZMM19
        } else if n == 161 {
            Register::ZMM20
        } else if n == 162 {
            Register::ZMM21
        } else if n == 163 {
            Register::ZMM22
        } else if n == 164 {
            Register::ZMM23
        } else if n == 165 {
            Register::ZMM24
        } else if n == 166 {
            Register::ZMM25
        } else if n == 167 {
            Register::ZMM26
        } else if n == 168 {
            Register::ZMM27
        } else if n == 169 {
            Register::ZMM28
        } else if n == 170 {
            Register::ZMM29
        } else if n == 171 {
            Register::ZMM30
        } else if n == 172 {
            Register::ZMM31
        } else if n == 173 {
            Register::K0
        } else if n == 174 {
            Register::K1
        } else if n == 175 {
            Register::K2
        } else if n == 176 {
            Register::K3
        } else if n == 177 {
            Register::K4
        } else if n == 178 {
            Register::K5
        } else if n == 179 {
            Register::K6
        } else if n == 180 {
            Register::K7
        } else if n == 181 {
            Register::BND0
        } else if n == 182 {
            Register::BND1
        } else if n == 183 {
            Register::BND2
        } else if n == 184 {
            Register::BND3
        } else if n == 185 {
            Register::CR0
        } else if n == 186 {
            Register::CR1
        } else if n == 187 {
            Register::CR2
        } else if n == 188 {
            Register::CR3
        } else if n == 189 {
            Register::CR4
        } else if n == 190 {
            Register::CR5
        } else if n == 191 {
            Register::CR6
        } else if n == 192 {
            Register::CR7
        } else if n == 193 {
            Register::CR8
        } else if n == 194 {
            Register::CR9
        } else if n == 195 {
            Register::CR10
        } else if n == 196 {
            Register::CR11
        } else if n == 197 {
            Register::CR12
        } else if n == 198 {
            Register::CR13
        } else if n == 199 {
            Register::CR14
        } else if n == 200 {
            Register::CR15
        } else if n == 201 {
            Register::DR0
        } else if n == 202 {
            Register::DR1
        } else if n == 203 {
            Register::DR2
        } else if n == 204 {
            Register::DR3
        } else if n == 205 {
            Register::DR4
        } else if n == 206 {
            Register::DR5
        } else if n == 207 {
            Register::DR6
        } else if n == 208 {
            Register::DR7
        } else if n == 209 {
            Register::DR8
        } else if n == 210 {
            Register::DR9
        } else if n == 211 {
            Register::DR10
        } else if n == 212 {
            Register::DR11
        } else if n == 213 {
            Register::DR12
        } else if n == 214 {
            Register::DR13
        } else if n == 215 {
            Register::DR14
        } else if n == 216 {
            Register::DR15
        } else if n == 217 {
            Register::ST0
        } else if n == 218 {
            Register::ST1
        } else if n == 219 {
            Register::ST2
        } else if n == 220 {
            Register::ST3
        } else if n == 221 {
            Register::ST4
        } else if n == 222 {
            Register::ST5
        } else if n == 223 {
            Register::ST6
        } else if n == 224 {
            Register::ST7
        } else if n == 225 {
            Register::MM0
        } else if n == 226 {
            Register::MM1
        } else if n == 227 {
            Register::MM2
        } else if n == 228 {
            Register::MM3
        } else if n == 229 {
            Register::MM4
        } else if n == 230 {
            Register::MM5
        } else if n == 231 {
            Register::MM6
        } else if n == 232 {
            Register::MM7
        } else if n == 233 {
            Register::TR0
        } else if n == 234 {
            Register::TR1
        } else if n == 235 {
            Register::TR2
        } else if n == 236 {
            Register::TR3
        } else if n == 237 {
            Register::TR4
        } else if n == 238 {
            Register::TR5
        } else if n == 239 {
            Register::TR6
        } else if n == 240 {
            Register::TR7
        } else {
            Register::None_
        }
    }

    /// Every ordinal is below `NUMBER_OF_REGISTERS`.
    pub proof fn lemma_number_in_range(self)
        ensures
            self.spec_number() < NUMBER_OF_REGISTERS,
    {
    }

    /// Converting a register to its ordinal and back yields the register.
    pub proof fn lemma_number_roundtrip(self)
        ensures
            Self::spec_from_number(self.spec_number()) == self,
    {
    }

    /// Every ordinal below `NUMBER_OF_REGISTERS` converts back to itself.
    pub proof fn lemma_from_number_roundtrip(n: u8)
        requires
            n < NUMBER_OF_REGISTERS,
        ensures
            Self::spec_from_number(n).spec_number() == n,
    {
    }

    /// Shifts this register `rhs` steps forward in the enumeration.
    ///
    /// The shifted ordinal must stay inside the valid range: stepping past the
    /// last register is a caller error, never a wraparound.
    pub fn add(self, rhs: u32) -> (r: Register)
        requires
            self.spec_number() + rhs < NUMBER_OF_REGISTERS,
        ensures
            r.spec_number() == self.spec_number() + rhs,
    {
        let n: u32 = self.number() as u32 + rhs;
        proof {
            Self::lemma_from_number_roundtrip(n as u8);
        }
        Register::from_number(n as u8)
    }

    /// Shifts this register `rhs` steps backward in the enumeration.
    ///
    /// The shifted ordinal must stay at or above zero: stepping before the
    /// first register is a caller error, never a wraparound.
    pub fn sub(self, rhs: u32) -> (r: Register)
        requires
            rhs <= self.spec_number(),
        ensures
            r.spec_number() == self.spec_number() - rhs,
    {
        let n: u32 = self.number() as u32 - rhs;
        proof {
            Self::lemma_from_number_roundtrip(n as u8);
        }
        Register::from_number(n as u8)
    }
}

} // verus!
