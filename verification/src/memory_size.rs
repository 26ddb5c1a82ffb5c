//! Memory operand shapes and their size metadata.
//!
//! `MemorySize` is a closed enumeration of every memory operand shape the
//! architecture can reference: scalars of various widths, segment:offset
//! pairs, FPU state blocks, packed (SIMD) vectors, and broadcast shapes (one
//! element replicated to fill a vector). Each value maps through a fixed
//! table to a record of its byte size, element size and type, signedness and
//! broadcast flag. The broadcast shapes occupy a contiguous suffix of the
//! enumeration, so a single ordinal comparison classifies broadcast-ness.
use vstd::prelude::*;

verus! {

/// Number of `MemorySize` enum values.
pub const NUMBER_OF_MEMORY_SIZES: u32 = 136;

/// Ordinal of the first broadcast memory size; every size at or after this
/// ordinal is a broadcast shape, and none before it is.
pub const FIRST_BROADCAST_MEMORY_SIZE: u32 = 100;

/// Size of a memory reference.
#[allow(non_camel_case_types)]
#[derive(Copy, Clone, Debug, Eq, PartialEq, Hash, Structural)]
pub enum MemorySize {
    /// Unknown size or the instruction doesn't reference any memory (eg. `lea`)
    Unknown,
    /// Memory location contains a `u8`
    UInt8,
    /// Memory location contains a `u16`
    UInt16,
    /// Memory location contains a `u32`
    UInt32,
    /// Memory location contains a `u52`
    UInt52,
    /// Memory location contains a `u64`
    UInt64,
    /// Memory location contains a `u128`
    UInt128,
    /// Memory location contains a `u256`
    UInt256,
    /// Memory location contains a `u512`
    UInt512,
    /// Memory location contains a `i8`
    Int8,
    /// Memory location contains a `i16`
    Int16,
    /// Memory location contains a `i32`
    Int32,
    /// Memory location contains a `i64`
    Int64,
    /// Memory location contains a `i128`
    Int128,
    /// Memory location contains a `i256`
    Int256,
    /// Memory location contains a `i512`
    Int512,
    /// Memory location contains a seg:ptr pair, `u16` (offset) + `u16` (segment/selector)
    SegPtr16,
    /// Memory location contains a seg:ptr pair, `u32` (offset) + `u16` (segment/selector)
    SegPtr32,
    /// Memory location contains a seg:ptr pair, `u64` (offset) + `u16` (segment/selector)
    SegPtr64,
    /// Memory location contains a 16-bit offset (`jmp/call word ptr [mem]`)
    WordOffset,
    /// Memory location contains a 32-bit offset (`jmp/call dword ptr [mem]`)
    DwordOffset,
    /// Memory location contains a 64-bit offset (`jmp/call qword ptr [mem]`)
    QwordOffset,
    /// Memory location contains two `u16`s (16-bit `bound`)
    Bound16_WordWord,
    /// Memory location contains two `u32`s (32-bit `bound`)
    Bound32_DwordDword,
    /// 32-bit `bndmov`, 2 x `u32`
    Bnd32,
    /// 64-bit `bndmov`, 2 x `u64`
    Bnd64,
    /// Memory location contains a 16-bit limit and a 32-bit address (eg. `lgdtw`, `lgdtd`)
    Fword6,
    /// Memory location contains a 16-bit limit and a 64-bit address (eg. `lgdtq`)
    Fword10,
    /// Memory location contains a `f16`
    Float16,
    /// Memory location contains a `f32`
    Float32,
    /// Memory location contains a `f64`
    Float64,
    /// Memory location contains a `f80`
    Float80,
    /// Memory location contains a `f128`
    Float128,
    /// Memory location contains a `bfloat16`
    BFloat16,
    /// Memory location contains a 14-byte FPU environment (16-bit `fldenv`/`fstenv`)
    FpuEnv14,
    /// Memory location contains a 28-byte FPU environment (32/64-bit `fldenv`/`fstenv`)
    FpuEnv28,
    /// Memory location contains a 94-byte FPU environment (16-bit `fsave`/`frstor`)
    FpuState94,
    /// Memory location contains a 108-byte FPU environment (32/64-bit `fsave`/`frstor`)
    FpuState108,
    /// Memory location contains 512-bytes of `fxsave`/`fxrstor` data
    Fxsave_512Byte,
    /// Memory location contains 512-bytes of `fxsave64`/`fxrstor64` data
    Fxsave64_512Byte,
    /// 32-bit `XSAVE` area
    Xsave,
    /// 64-bit `XSAVE` area
    Xsave64,
    /// Memory location contains a 10-byte `bcd` value (`fbld`/`fbstp`)
    Bcd,
    /// 16 bit location: 2 x `u8`
    Packed16_UInt8,
    /// 16 bit location: 2 x `i8`
    Packed16_Int8,
    /// 32 bit location: 4 x `u8`
    Packed32_UInt8,
    /// 32 bit location: 4 x `i8`
    Packed32_Int8,
    /// 32 bit location: 2 x `u16`
    Packed32_UInt16,
    /// 32 bit location: 2 x `i16`
    Packed32_Int16,
    /// 32 bit location: 2 x `bfloat16`
    Packed32_BFloat16,
    /// 64-bit location: 8 x `u8`
    Packed64_UInt8,
    /// 64-bit location: 8 x `i8`
    Packed64_Int8,
    /// 64-bit location: 4 x `u16`
    Packed64_UInt16,
    /// 64-bit location: 4 x `i16`
    Packed64_Int16,
    /// 64-bit location: 2 x `u32`
    Packed64_UInt32,
    /// 64-bit location: 2 x `i32`
    Packed64_Int32,
    /// 64-bit location: 4 x `f16`
    Packed64_Float16,
    /// 64-bit location: 2 x `f32`
    Packed64_Float32,
    /// 128 bit location: 16 x `u8`
    Packed128_UInt8,
    /// 128 bit location: 16 x `i8`
    Packed128_Int8,
    /// 128 bit location: 8 x `u16`
    Packed128_UInt16,
    /// 128 bit location: 8 x `i16`
    Packed128_Int16,
    /// 128 bit location: 4 x `u32`
    Packed128_UInt32,
    /// 128 bit location: 4 x `i32`
    Packed128_Int32,
    /// 128 bit location: 2 x `u52`
    Packed128_UInt52,
    /// 128 bit location: 2 x `u64`
    Packed128_UInt64,
    /// 128 bit location: 2 x `i64`
    Packed128_Int64,
    /// 128 bit location: 8 x `f16`
    Packed128_Float16,
    /// 128 bit location: 4 x `f32`
    Packed128_Float32,
    /// 128 bit location: 2 x `f64`
    Packed128_Float64,
    /// 128 bit location: 4 x (2 x `bfloat16`)
    Packed128_2xBFloat16,
    /// 256 bit location: 32 x `u8`
    Packed256_UInt8,
    /// 256 bit location: 32 x `i8`
    Packed256_Int8,
    /// 256 bit location: 16 x `u16`
    Packed256_UInt16,
    /// 256 bit location: 16 x `i16`
    Packed256_Int16,
    /// 256 bit location: 8 x `u32`
    Packed256_UInt32,
    /// 256 bit location: 8 x `i32`
    Packed256_Int32,
    /// 256 bit location: 4 x `u52`
    Packed256_UInt52,
    /// 256 bit location: 4 x `u64`
    Packed256_UInt64,
    /// 256 bit location: 4 x `i64`
    Packed256_Int64,
    /// 256 bit location: 2 x `u128`
    Packed256_UInt128,
    /// 256 bit location: 2 x `i128`
    Packed256_Int128,
    /// 256 bit location: 16 x `f16`
    Packed256_Float16,
    /// 256 bit location: 8 x `f32`
    Packed256_Float32,
    /// 256 bit location: 4 x `f64`
    Packed256_Float64,
    /// 256 bit location: 2 x `f128`
    Packed256_Float128,
    /// 256 bit location: 8 x (2 x `bfloat16`)
    Packed256_2xBFloat16,
    /// 512 bit location: 64 x `u8`
    Packed512_UInt8,
    /// 512 bit location: 64 x `i8`
    Packed512_Int8,
    /// 512 bit location: 32 x `u16`
    Packed512_UInt16,
    /// 512 bit location: 32 x `i16`
    Packed512_Int16,
    /// 512 bit location: 16 x `u32`
    Packed512_UInt32,
    /// 512 bit location: 16 x `i32`
    Packed512_Int32,
    /// 512 bit location: 8 x `u52`
    Packed512_UInt52,
    /// 512 bit location: 8 x `u64`
    Packed512_UInt64,
    /// 512 bit location: 8 x `i64`
    Packed512_Int64,
    /// 256 bit location: 4 x `u128`
    Packed512_UInt128,
    /// 512 bit location: 16 x `f32`
    Packed512_Float32,
    /// 512 bit location: 8 x `f64`
    Packed512_Float64,
    /// 512 bit location: 16 x (2 x `bfloat16`)
    Packed512_2xBFloat16,
    /// Broadcast `u32` to 64 bits
    Broadcast64_UInt32,
    /// Broadcast `i32` to 64 bits
    Broadcast64_Int32,
    /// Broadcast `f32` to 64 bits
    Broadcast64_Float32,
    /// Broadcast `u32` to 128 bits
    Broadcast128_UInt32,
    /// Broadcast `i32` to 128 bits
    Broadcast128_Int32,
    /// Broadcast `u52` to 128 bits
    Broadcast128_UInt52,
    /// Broadcast `u64` to 128 bits
    Broadcast128_UInt64,
    /// Broadcast `i64` to 128 bits
    Broadcast128_Int64,
    /// Broadcast `f32` to 128 bits
    Broadcast128_Float32,
    /// Broadcast `f64` to 128 bits
    Broadcast128_Float64,
    /// Broadcast `u32` to 256 bits
    Broadcast256_UInt32,
    /// Broadcast `i32` to 256 bits
    Broadcast256_Int32,
    /// Broadcast `u52` to 256 bits
    Broadcast256_UInt52,
    /// Broadcast `u64` to 256 bits
    Broadcast256_UInt64,
    /// Broadcast `i64` to 256 bits
    Broadcast256_Int64,
    /// Broadcast `f32` to 256 bits
    Broadcast256_Float32,
    /// Broadcast `f64` to 256 bits
    Broadcast256_Float64,
    /// Broadcast `u32` to 512 bits
    Broadcast512_UInt32,
    /// Broadcast `i32` to 512 bits
    Broadcast512_Int32,
    /// Broadcast `u52` to 512 bits
    Broadcast512_UInt52,
    /// Broadcast `u64` to 512 bits
    Broadcast512_UInt64,
    /// Broadcast `i64` to 512 bits
    Broadcast512_Int64,
    /// Broadcast `f32` to 512 bits
    Broadcast512_Float32,
    /// Broadcast `f64` to 512 bits
    Broadcast512_Float64,
    /// Broadcast 2 x `i16` to 128 bits
    Broadcast128_2xInt16,
    /// Broadcast 2 x `i16` to 256 bits
    Broadcast256_2xInt16,
    /// Broadcast 2 x `i16` to 512 bits
    Broadcast512_2xInt16,
    /// Broadcast 2 x `u32` to 128 bits
    Broadcast128_2xUInt32,
    /// Broadcast 2 x `u32` to 256 bits
    Broadcast256_2xUInt32,
    /// Broadcast 2 x `u32` to 512 bits
    Broadcast512_2xUInt32,
    /// Broadcast 2 x `i32` to 128 bits
    Broadcast128_2xInt32,
    /// Broadcast 2 x `i32` to 256 bits
    Broadcast256_2xInt32,
    /// Broadcast 2 x `i32` to 512 bits
    Broadcast512_2xInt32,
    /// Broadcast 2 x `bfloat16` to 128 bits
    Broadcast128_2xBFloat16,
    /// Broadcast 2 x `bfloat16` to 256 bits
    Broadcast256_2xBFloat16,
    /// Broadcast 2 x `bfloat16` to 512 bits
    Broadcast512_2xBFloat16,
}

/// Size metadata of one `MemorySize` value.
#[derive(Copy, Clone, Debug, Eq, PartialEq, Structural)]
pub struct MemorySizeInfo {
    /// Size in bytes of the memory location, or 0 if unknown.
    pub size: u16,
    /// Size in bytes of the packed element; equals `size` if not packed.
    pub element_size: u16,
    /// The `MemorySize` value this record describes.
    pub memory_size: MemorySize,
    /// The element type if packed data, else the type itself.
    pub element_type: MemorySize,
    /// Whether the data is signed (signed integer or floating point).
    pub is_signed: bool,
    /// Whether the shape is a broadcast memory type.
    pub is_broadcast: bool,
}

impl MemorySize {
    /// The ordinal of this size in the enumeration.
    pub open spec fn spec_number(self) -> u8 {
        match self {
            MemorySize::Unknown => 0,
            MemorySize::UInt8 => 1,
            MemorySize::UInt16 => 2,
            MemorySize::UInt32 => 3,
            MemorySize::UInt52 => 4,
            MemorySize::UInt64 => 5,
            MemorySize::UInt128 => 6,
            MemorySize::UInt256 => 7,
            MemorySize::UInt512 => 8,
            MemorySize::Int8 => 9,
            MemorySize::Int16 => 10,
            MemorySize::Int32 => 11,
            MemorySize::Int64 => 12,
            MemorySize::Int128 => 13,
            MemorySize::Int256 => 14,
            MemorySize::Int512 => 15,
            MemorySize::SegPtr16 => 16,
            MemorySize::SegPtr32 => 17,
            MemorySize::SegPtr64 => 18,
            MemorySize::WordOffset => 19,
            MemorySize::DwordOffset => 20,
            MemorySize::QwordOffset => 21,
            MemorySize::Bound16_WordWord => 22,
            MemorySize::Bound32_DwordDword => 23,
            MemorySize::Bnd32 => 24,
            MemorySize::Bnd64 => 25,
            MemorySize::Fword6 => 26,
            MemorySize::Fword10 => 27,
            MemorySize::Float16 => 28,
            MemorySize::Float32 => 29,
            MemorySize::Float64 => 30,
            MemorySize::Float80 => 31,
            MemorySize::Float128 => 32,
            MemorySize::BFloat16 => 33,
            MemorySize::FpuEnv14 => 34,
            MemorySize::FpuEnv28 => 35,
            MemorySize::FpuState94 => 36,
            MemorySize::FpuState108 => 37,
            MemorySize::Fxsave_512Byte => 38,
            MemorySize::Fxsave64_512Byte => 39,
            MemorySize::Xsave => 40,
            MemorySize::Xsave64 => 41,
            MemorySize::Bcd => 42,
            MemorySize::Packed16_UInt8 => 43,
            MemorySize::Packed16_Int8 => 44,
            MemorySize::Packed32_UInt8 => 45,
            MemorySize::Packed32_Int8 => 46,
            MemorySize::Packed32_UInt16 => 47,
            MemorySize::Packed32_Int16 => 48,
            MemorySize::Packed32_BFloat16 => 49,
            MemorySize::Packed64_UInt8 => 50,
            MemorySize::Packed64_Int8 => 51,
            MemorySize::Packed64_UInt16 => 52,
            MemorySize::Packed64_Int16 => 53,
            MemorySize::Packed64_UInt32 => 54,
            MemorySize::Packed64_Int32 => 55,
            MemorySize::Packed64_Float16 => 56,
            MemorySize::Packed64_Float32 => 57,
            MemorySize::Packed128_UInt8 => 58,
            MemorySize::Packed128_Int8 => 59,
            MemorySize::Packed128_UInt16 => 60,
            MemorySize::Packed128_Int16 => 61,
            MemorySize::Packed128_UInt32 => 62,
            MemorySize::Packed128_Int32 => 63,
            MemorySize::Packed128_UInt52 => 64,
            MemorySize::Packed128_UInt64 => 65,
            MemorySize::Packed128_Int64 => 66,
            MemorySize::Packed128_Float16 => 67,
            MemorySize::Packed128_Float32 => 68,
            MemorySize::Packed128_Float64 => 69,
            MemorySize::Packed128_2xBFloat16 => 70,
            MemorySize::Packed256_UInt8 => 71,
            MemorySize::Packed256_Int8 => 72,
            MemorySize::Packed256_UInt16 => 73,
            MemorySize::Packed256_Int16 => 74,
            MemorySize::Packed256_UInt32 => 75,
            MemorySize::Packed256_Int32 => 76,
            MemorySize::Packed256_UInt52 => 77,
            MemorySize::Packed256_UInt64 => 78,
            MemorySize::Packed256_Int64 => 79,
            MemorySize::Packed256_UInt128 => 80,
            MemorySize::Packed256_Int128 => 81,
            MemorySize::Packed256_Float16 => 82,
            MemorySize::Packed256_Float32 => 83,
            MemorySize::Packed256_Float64 => 84,
            MemorySize::Packed256_Float128 => 85,
            MemorySize::Packed256_2xBFloat16 => 86,
            MemorySize::Packed512_UInt8 => 87,
            MemorySize::Packed512_Int8 => 88,
            MemorySize::Packed512_UInt16 => 89,
            MemorySize::Packed512_Int16 => 90,
            MemorySize::Packed512_UInt32 => 91,
            MemorySize::Packed512_Int32 => 92,
            MemorySize::Packed512_UInt52 => 93,
            MemorySize::Packed512_UInt64 => 94,
            MemorySize::Packed512_Int64 => 95,
            MemorySize::Packed512_UInt128 => 96,
            MemorySize::Packed512_Float32 => 97,
            MemorySize::Packed512_Float64 => 98,
            MemorySize::Packed512_2xBFloat16 => 99,
            MemorySize::Broadcast64_UInt32 => 100,
            MemorySize::Broadcast64_Int32 => 101,
            MemorySize::Broadcast64_Float32 => 102,
            MemorySize::Broadcast128_UInt32 => 103,
            MemorySize::Broadcast128_Int32 => 104,
            MemorySize::Broadcast128_UInt52 => 105,
            MemorySize::Broadcast128_UInt64 => 106,
            MemorySize::Broadcast128_Int64 => 107,
            MemorySize::Broadcast128_Float32 => 108,
            MemorySize::Broadcast128_Float64 => 109,
            MemorySize::Broadcast256_UInt32 => 110,
            MemorySize::Broadcast256_Int32 => 111,
            MemorySize::Broadcast256_UInt52 => 112,
            MemorySize::Broadcast256_UInt64 => 113,
            MemorySize::Broadcast256_Int64 => 114,
            MemorySize::Broadcast256_Float32 => 115,
            MemorySize::Broadcast256_Float64 => 116,
            MemorySize::Broadcast512_UInt32 => 117,
            MemorySize::Broadcast512_Int32 => 118,
            MemorySize::Broadcast512_UInt52 => 119,
            MemorySize::Broadcast512_UInt64 => 120,
            MemorySize::Broadcast512_Int64 => 121,
            MemorySize::Broadcast512_Float32 => 122,
            MemorySize::Broadcast512_Float64 => 123,
            MemorySize::Broadcast128_2xInt16 => 124,
            MemorySize::Broadcast256_2xInt16 => 125,
            MemorySize::Broadcast512_2xInt16 => 126,
            MemorySize::Broadcast128_2xUInt32 => 127,
            MemorySize::Broadcast256_2xUInt32 => 128,
            MemorySize::Broadcast512_2xUInt32 => 129,
            MemorySize::Broadcast128_2xInt32 => 130,
            MemorySize::Broadcast256_2xInt32 => 131,
            MemorySize::Broadcast512_2xInt32 => 132,
            MemorySize::Broadcast128_2xBFloat16 => 133,
            MemorySize::Broadcast256_2xBFloat16 => 134,
            MemorySize::Broadcast512_2xBFloat16 => 135,
        }
    }

    /// Returns the ordinal of this size in the enumeration.
    pub fn number(self) -> (n: u8)
        ensures
            n == self.spec_number(),
    {
        match self {
            MemorySize::Unknown => 0,
            MemorySize::UInt8 => 1,
            MemorySize::UInt16 => 2,
            MemorySize::UInt32 => 3,
            MemorySize::UInt52 => 4,
            MemorySize::UInt64 => 5,
            MemorySize::UInt128 => 6,
            MemorySize::UInt256 => 7,
            MemorySize::UInt512 => 8,
            MemorySize::Int8 => 9,
            MemorySize::Int16 => 10,
            MemorySize::Int32 => 11,
            MemorySize::Int64 => 12,
            MemorySize::Int128 => 13,
            MemorySize::Int256 => 14,
            MemorySize::Int512 => 15,
            MemorySize::SegPtr16 => 16,
            MemorySize::SegPtr32 => 17,
            MemorySize::SegPtr64 => 18,
            MemorySize::WordOffset => 19,
            MemorySize::DwordOffset => 20,
            MemorySize::QwordOffset => 21,
            MemorySize::Bound16_WordWord => 22,
            MemorySize::Bound32_DwordDword => 23,
            MemorySize::Bnd32 => 24,
            MemorySize::Bnd64 => 25,
            MemorySize::Fword6 => 26,
            MemorySize::Fword10 => 27,
            MemorySize::Float16 => 28,
            MemorySize::Float32 => 29,
            MemorySize::Float64 => 30,
            MemorySize::Float80 => 31,
            MemorySize::Float128 => 32,
            MemorySize::BFloat16 => 33,
            MemorySize::FpuEnv14 => 34,
            MemorySize::FpuEnv28 => 35,
            MemorySize::FpuState94 => 36,
            MemorySize::FpuState108 => 37,
            MemorySize::Fxsave_512Byte => 38,
            MemorySize::Fxsave64_512Byte => 39,
            MemorySize::Xsave => 40,
            MemorySize::Xsave64 => 41,
            MemorySize::Bcd => 42,
            MemorySize::Packed16_UInt8 => 43,
            MemorySize::Packed16_Int8 => 44,
            MemorySize::Packed32_UInt8 => 45,
            MemorySize::Packed32_Int8 => 46,
            MemorySize::Packed32_UInt16 => 47,
            MemorySize::Packed32_Int16 => 48,
            MemorySize::Packed32_BFloat16 => 49,
            MemorySize::Packed64_UInt8 => 50,
            MemorySize::Packed64_Int8 => 51,
            MemorySize::Packed64_UInt16 => 52,
            MemorySize::Packed64_Int16 => 53,
            MemorySize::Packed64_UInt32 => 54,
            MemorySize::Packed64_Int32 => 55,
            MemorySize::Packed64_Float16 => 56,
            MemorySize::Packed64_Float32 => 57,
            MemorySize::Packed128_UInt8 => 58,
            MemorySize::Packed128_Int8 => 59,
            MemorySize::Packed128_UInt16 => 60,
            MemorySize::Packed128_Int16 => 61,
            MemorySize::Packed128_UInt32 => 62,
            MemorySize::Packed128_Int32 => 63,
            MemorySize::Packed128_UInt52 => 64,
            MemorySize::Packed128_UInt64 => 65,
            MemorySize::Packed128_Int64 => 66,
            MemorySize::Packed128_Float16 => 67,
            MemorySize::Packed128_Float32 => 68,
            MemorySize::Packed128_Float64 => 69,
            MemorySize::Packed128_2xBFloat16 => 70,
            MemorySize::Packed256_UInt8 => 71,
            MemorySize::Packed256_Int8 => 72,
            MemorySize::Packed256_UInt16 => 73,
            MemorySize::Packed256_Int16 => 74,
            MemorySize::Packed256_UInt32 => 75,
            MemorySize::Packed256_Int32 => 76,
            MemorySize::Packed256_UInt52 => 77,
            MemorySize::Packed256_UInt64 => 78,
            MemorySize::Packed256_Int64 => 79,
            MemorySize::Packed256_UInt128 => 80,
            MemorySize::Packed256_Int128 => 81,
            MemorySize::Packed256_Float16 => 82,
            MemorySize::Packed256_Float32 => 83,
            MemorySize::Packed256_Float64 => 84,
            MemorySize::Packed256_Float128 => 85,
            MemorySize::Packed256_2xBFloat16 => 86,
            MemorySize::Packed512_UInt8 => 87,
            MemorySize::Packed512_Int8 => 88,
            MemorySize::Packed512_UInt16 => 89,
            MemorySize::Packed512_Int16 => 90,
            MemorySize::Packed512_UInt32 => 91,
            MemorySize::Packed512_Int32 => 92,
            MemorySize::Packed512_UInt52 => 93,
            MemorySize::Packed512_UInt64 => 94,
            MemorySize::Packed512_Int64 => 95,
            MemorySize::Packed512_UInt128 => 96,
            MemorySize::Packed512_Float32 => 97,
            MemorySize::Packed512_Float64 => 98,
            MemorySize::Packed512_2xBFloat16 => 99,
            MemorySize::Broadcast64_UInt32 => 100,
            MemorySize::Broadcast64_Int32 => 101,
            MemorySize::Broadcast64_Float32 => 102,
            MemorySize::Broadcast128_UInt32 => 103,
            MemorySize::Broadcast128_Int32 => 104,
            MemorySize::Broadcast128_UInt52 => 105,
            MemorySize::Broadcast128_UInt64 => 106,
            MemorySize::Broadcast128_Int64 => 107,
            MemorySize::Broadcast128_Float32 => 108,
            MemorySize::Broadcast128_Float64 => 109,
            MemorySize::Broadcast256_UInt32 => 110,
            MemorySize::Broadcast256_Int32 => 111,
            MemorySize::Broadcast256_UInt52 => 112,
            MemorySize::Broadcast256_UInt64 => 113,
            MemorySize::Broadcast256_Int64 => 114,
            MemorySize::Broadcast256_Float32 => 115,
            MemorySize::Broadcast256_Float64 => 116,
            MemorySize::Broadcast512_UInt32 => 117,
            MemorySize::Broadcast512_Int32 => 118,
            MemorySize::Broadcast512_UInt52 => 119,
            MemorySize::Broadcast512_UInt64 => 120,
            MemorySize::Broadcast512_Int64 => 121,
            MemorySize::Broadcast512_Float32 => 122,
            MemorySize::Broadcast512_Float64 => 123,
            MemorySize::Broadcast128_2xInt16 => 124,
            MemorySize::Broadcast256_2xInt16 => 125,
            MemorySize::Broadcast512_2xInt16 => 126,
            MemorySize::Broadcast128_2xUInt32 => 127,
            MemorySize::Broadcast256_2xUInt32 => 128,
            MemorySize::Broadcast512_2xUInt32 => 129,
            MemorySize::Broadcast128_2xInt32 => 130,
            MemorySize::Broadcast256_2xInt32 => 131,
            MemorySize::Broadcast512_2xInt32 => 132,
            MemorySize::Broadcast128_2xBFloat16 => 133,
            MemorySize::Broadcast256_2xBFloat16 => 134,
            MemorySize::Broadcast512_2xBFloat16 => 135,
        }
    }

    /// The size with the given ordinal; out-of-range ordinals map to `Unknown`.
    pub open spec fn spec_from_number(n: u8) -> MemorySize {
        if n == 0 {
            MemorySize::Unknown
        } else if n == 1 {
            MemorySize::UInt8
        } else if n == 2 {
            MemorySize::UInt16
        } else if n == 3 {
            MemorySize::UInt32
        } else if n == 4 {
            MemorySize::UInt52
        } else if n == 5 {
            MemorySize::UInt64
        } else if n == 6 {
            MemorySize::UInt128
        } else if n == 7 {
            MemorySize::UInt256
        } else if n == 8 {
            MemorySize::UInt512
        } else if n == 9 {
            MemorySize::Int8
        } else if n == 10 {
            MemorySize::Int16
        } else if n == 11 {
            MemorySize::Int32
        } else if n == 12 {
            MemorySize::Int64
        } else if n == 13 {
            MemorySize::Int128
        } else if n == 14 {
            MemorySize::Int256
        } else if n == 15 {
            MemorySize::Int512
        } else if n == 16 {
            MemorySize::SegPtr16
        } else if n == 17 {
            MemorySize::SegPtr32
        } else if n == 18 {
            MemorySize::SegPtr64
        } else if n == 19 {
            MemorySize::WordOffset
        } else if n == 20 {
            MemorySize::DwordOffset
        } else if n == 21 {
            MemorySize::QwordOffset
        } else if n == 22 {
            MemorySize::Bound16_WordWord
        } else if n == 23 {
            MemorySize::Bound32_DwordDword
        } else if n == 24 {
            MemorySize::Bnd32
        } else if n == 25 {
            MemorySize::Bnd64
        } else if n == 26 {
            MemorySize::Fword6
        } else if n == 27 {
            MemorySize::Fword10
        } else if n == 28 {
            MemorySize::Float16
        } else if n == 29 {
            MemorySize::Float32
        } else if n == 30 {
            MemorySize::Float64
        } else if n == 31 {
            MemorySize::Float80
        } else if n == 32 {
            MemorySize::Float128
        } else if n == 33 {
            MemorySize::BFloat16
        } else if n == 34 {
            MemorySize::FpuEnv14
        } else if n == 35 {
            MemorySize::FpuEnv28
        } else if n == 36 {
            MemorySize::FpuState94
        } else if n == 37 {
            MemorySize::FpuState108
        } else if n == 38 {
            MemorySize::Fxsave_512Byte
        } else if n == 39 {
            MemorySize::Fxsave64_512Byte
        } else if n == 40 {
            MemorySize::Xsave
        } else if n == 41 {
            MemorySize::Xsave64
        } else if n == 42 {
            MemorySize::Bcd
        } else if n == 43 {
            MemorySize::Packed16_UInt8
        } else if n == 44 {
            MemorySize::Packed16_Int8
        } else if n == 45 {
            MemorySize::Packed32_UInt8
        } else if n == 46 {
            MemorySize::Packed32_Int8
        } else if n == 47 {
            MemorySize::Packed32_UInt16
        } else if n == 48 {
            MemorySize::Packed32_Int16
        } else if n == 49 {
            MemorySize::Packed32_BFloat16
        } else if n == 50 {
            MemorySize::Packed64_UInt8
        } else if n == 51 {
            MemorySize::Packed64_Int8
        } else if n == 52 {
            MemorySize::Packed64_UInt16
        } else if n == 53 {
            MemorySize::Packed64_Int16
        } else if n == 54 {
            MemorySize::Packed64_UInt32
        } else if n == 55 {
            MemorySize::Packed64_Int32
        } else if n == 56 {
            MemorySize::Packed64_Float16
        } else if n == 57 {
            MemorySize::Packed64_Float32
        } else if n == 58 {
            MemorySize::Packed128_UInt8
        } else if n == 59 {
            MemorySize::Packed128_Int8
        } else if n == 60 {
            MemorySize::Packed128_UInt16
        } else if n == 61 {
            MemorySize::Packed128_Int16
        } else if n == 62 {
            MemorySize::Packed128_UInt32
        } else if n == 63 {
            MemorySize::Packed128_Int32
        } else if n == 64 {
            MemorySize::Packed128_UInt52
        } else if n == 65 {
            MemorySize::Packed128_UInt64
        } else if n == 66 {
            MemorySize::Packed128_Int64
        } else if n == 67 {
            MemorySize::Packed128_Float16
        } else if n == 68 {
            MemorySize::Packed128_Float32
        } else if n == 69 {
            MemorySize::Packed128_Float64
        } else if n == 70 {
            MemorySize::Packed128_2xBFloat16
        } else if n == 71 {
            MemorySize::Packed256_UInt8
        } else if n == 72 {
            MemorySize::Packed256_Int8
        } else if n == 73 {
            MemorySize::Packed256_UInt16
        } else if n == 74 {
            MemorySize::Packed256_Int16
        } else if n == 75 {
            MemorySize::Packed256_UInt32
        } else if n == 76 {
            MemorySize::Packed256_Int32
        } else if n == 77 {
            MemorySize::Packed256_UInt52
        } else if n == 78 {
            MemorySize::Packed256_UInt64
        } else if n == 79 {
            MemorySize::Packed256_Int64
        } else if n == 80 {
            MemorySize::Packed256_UInt128
        } else if n == 81 {
            MemorySize::Packed256_Int128
        } else if n == 82 {
            MemorySize::Packed256_Float16
        } else if n == 83 {
            MemorySize::Packed256_Float32
        } else if n == 84 {
            MemorySize::Packed256_Float64
        } else if n == 85 {
            MemorySize::Packed256_Float128
        } else if n == 86 {
            MemorySize::Packed256_2xBFloat16
        } else if n == 87 {
            MemorySize::Packed512_UInt8
        } else if n == 88 {
            MemorySize::Packed512_Int8
        } else if n == 89 {
            MemorySize::Packed512_UInt16
        } else if n == 90 {
            MemorySize::Packed512_Int16
        } else if n == 91 {
            MemorySize::Packed512_UInt32
        } else if n == 92 {
            MemorySize::Packed512_Int32
        } else if n == 93 {
            MemorySize::Packed512_UInt52
        } else if n == 94 {
            MemorySize::Packed512_UInt64
        } else if n == 95 {
            MemorySize::Packed512_Int64
        } else if n == 96 {
            MemorySize::Packed512_UInt128
        } else if n == 97 {
            MemorySize::Packed512_Float32
        } else if n == 98 {
            MemorySize::Packed512_Float64
        } else if n == 99 {
            MemorySize::Packed512_2xBFloat16
        } else if n == 100 {
            MemorySize::Broadcast64_UInt32
        } else if n == 101 {
            MemorySize::Broadcast64_Int32
        } else if n == 102 {
            MemorySize::Broadcast64_Float32
        } else if n == 103 {
            MemorySize::Broadcast128_UInt32
        } else if n == 104 {
            MemorySize::Broadcast128_Int32
        } else if n == 105 {
            MemorySize::Broadcast128_UInt52
        } else if n == 106 {
            MemorySize::Broadcast128_UInt64
        } else if n == 107 {
            MemorySize::Broadcast128_Int64
        } else if n == 108 {
            MemorySize::Broadcast128_Float32
        } else if n == 109 {
            MemorySize::Broadcast128_Float64
        } else if n == 110 {
            MemorySize::Broadcast256_UInt32
        } else if n == 111 {
            MemorySize::Broadcast256_Int32
        } else if n == 112 {
            MemorySize::Broadcast256_UInt52
        } else if n == 113 {
            MemorySize::Broadcast256_UInt64
        } else if n == 114 {
            MemorySize::Broadcast256_Int64
        } else if n == 115 {
            MemorySize::Broadcast256_Float32
        } else if n == 116 {
            MemorySize::Broadcast256_Float64
        } else if n == 117 {
            MemorySize::Broadcast512_UInt32
        } else if n == 118 {
            MemorySize::Broadcast512_Int32
        } else if n == 119 {
            MemorySize::Broadcast512_UInt52
        } else if n == 120 {
            MemorySize::Broadcast512_UInt64
        } else if n == 121 {
            MemorySize::Broadcast512_Int64
        } else if n == 122 {
            MemorySize::Broadcast512_Float32
        } else if n == 123 {
            MemorySize::Broadcast512_Float64
        } else if n == 124 {
            MemorySize::Broadcast128_2xInt16
        } else if n == 125 {
            MemorySize::Broadcast256_2xInt16
        } else if n == 126 {
            MemorySize::Broadcast512_2xInt16
        } else if n == 127 {
            MemorySize::Broadcast128_2xUInt32
        } else if n == 128 {
            MemorySize::Broadcast256_2xUInt32
        } else if n == 129 {
            MemorySize::Broadcast512_2xUInt32
        } else if n == 130 {
            MemorySize::Broadcast128_2xInt32
        } else if n == 131 {
            MemorySize::Broadcast256_2xInt32
        } else if n == 132 {
            MemorySize::Broadcast512_2xInt32
        } else if n == 133 {
            MemorySize::Broadcast128_2xBFloat16
        } else if n == 134 {
            MemorySize::Broadcast256_2xBFloat16
        } else if n == 135 {
            MemorySize::Broadcast512_2xBFloat16
        } else {
            MemorySize::Unknown
        }
    }

    /// Returns the size with the given ordinal; out-of-range ordinals map to
    /// `Unknown`.
    pub fn from_number(n: u8) -> (r: MemorySize)
        ensures
            r == Self::spec_from_number(n),
    {
        if n == 0 {
            MemorySize::Unknown
        } else if n == 1 {
            MemorySize::UInt8
        } else if n == 2 {
            MemorySize::UInt16
        } else if n == 3 {
            MemorySize::UInt32
        } else if n == 4 {
            MemorySize::UInt52
        } else if n == 5 {
            MemorySize::UInt64
        } else if n == 6 {
            MemorySize::UInt128
        } else if n == 7 {
            MemorySize::UInt256
        } else if n == 8 {
            MemorySize::UInt512
        } else if n == 9 {
            MemorySize::Int8
        } else if n == 10 {
            MemorySize::Int16
        } else if n == 11 {
            MemorySize::Int32
        } else if n == 12 {
            MemorySize::Int64
        } else if n == 13 {
            MemorySize::Int128
        } else if n == 14 {
            MemorySize::Int256
        } else if n == 15 {
            MemorySize::Int512
        } else if n == 16 {
            MemorySize::SegPtr16
        } else if n == 17 {
            MemorySize::SegPtr32
        } else if n == 18 {
            MemorySize::SegPtr64
        } else if n == 19 {
            MemorySize::WordOffset
        } else if n == 20 {
            MemorySize::DwordOffset
        } else if n == 21 {
            MemorySize::QwordOffset
        } else if n == 22 {
            MemorySize::Bound16_WordWord
        } else if n == 23 {
            MemorySize::Bound32_DwordDword
        } else if n == 24 {
            MemorySize::Bnd32
        } else if n == 25 {
            MemorySize::Bnd64
        } else if n == 26 {
            MemorySize::Fword6
        } else if n == 27 {
            MemorySize::Fword10
        } else if n == 28 {
            MemorySize::Float16
        } else if n == 29 {
            MemorySize::Float32
        } else if n == 30 {
            MemorySize::Float64
        } else if n == 31 {
            MemorySize::Float80
        } else if n == 32 {
            MemorySize::Float128
        } else if n == 33 {
            MemorySize::BFloat16
        } else if n == 34 {
            MemorySize::FpuEnv14
        } else if n == 35 {
            MemorySize::FpuEnv28
        } else if n == 36 {
            MemorySize::FpuState94
        } else if n == 37 {
            MemorySize::FpuState108
        } else if n == 38 {
            MemorySize::Fxsave_512Byte
        } else if n == 39 {
            MemorySize::Fxsave64_512Byte
        } else if n == 40 {
            MemorySize::Xsave
        } else if n == 41 {
            MemorySize::Xsave64
        } else if n == 42 {
            MemorySize::Bcd
        } else if n == 43 {
            MemorySize::Packed16_UInt8
        } else if n == 44 {
            MemorySize::Packed16_Int8
        } else if n == 45 {
            MemorySize::Packed32_UInt8
        } else if n == 46 {
            MemorySize::Packed32_Int8
        } else if n == 47 {
            MemorySize::Packed32_UInt16
        } else if n == 48 {
            MemorySize::Packed32_Int16
        } else if n == 49 {
            MemorySize::Packed32_BFloat16
        } else if n == 50 {
            MemorySize::Packed64_UInt8
        } else if n == 51 {
            MemorySize::Packed64_Int8
        } else if n == 52 {
            MemorySize::Packed64_UInt16
        } else if n == 53 {
            MemorySize::Packed64_Int16
        } else if n == 54 {
            MemorySize::Packed64_UInt32
        } else if n == 55 {
            MemorySize::Packed64_Int32
        } else if n == 56 {
            MemorySize::Packed64_Float16
        } else if n == 57 {
            MemorySize::Packed64_Float32
        } else if n == 58 {
            MemorySize::Packed128_UInt8
        } else if n == 59 {
            MemorySize::Packed128_Int8
        } else if n == 60 {
            MemorySize::Packed128_UInt16
        } else if n == 61 {
            MemorySize::Packed128_Int16
        } else if n == 62 {
            MemorySize::Packed128_UInt32
        } else if n == 63 {
            MemorySize::Packed128_Int32
        } else if n == 64 {
            MemorySize::Packed128_UInt52
        } else if n == 65 {
            MemorySize::Packed128_UInt64
        } else if n == 66 {
            MemorySize::Packed128_Int64
        } else if n == 67 {
            MemorySize::Packed128_Float16
        } else if n == 68 {
            MemorySize::Packed128_Float32
        } else if n == 69 {
            MemorySize::Packed128_Float64
        } else if n == 70 {
            MemorySize::Packed128_2xBFloat16
        } else if n == 71 {
            MemorySize::Packed256_UInt8
        } else if n == 72 {
            MemorySize::Packed256_Int8
        } else if n == 73 {
            MemorySize::Packed256_UInt16
        } else if n == 74 {
            MemorySize::Packed256_Int16
        } else if n == 75 {
            MemorySize::Packed256_UInt32
        } else if n == 76 {
            MemorySize::Packed256_Int32
        } else if n == 77 {
            MemorySize::Packed256_UInt52
        } else if n == 78 {
            MemorySize::Packed256_UInt64
        } else if n == 79 {
            MemorySize::Packed256_Int64
        } else if n == 80 {
            MemorySize::Packed256_UInt128
        } else if n == 81 {
            MemorySize::Packed256_Int128
        } else if n == 82 {
            MemorySize::Packed256_Float16
        } else if n == 83 {
            MemorySize::Packed256_Float32
        } else if n == 84 {
            MemorySize::Packed256_Float64
        } else if n == 85 {
            MemorySize::Packed256_Float128
        } else if n == 86 {
            MemorySize::Packed256_2xBFloat16
        } else if n == 87 {
            MemorySize::Packed512_UInt8
        } else if n == 88 {
            MemorySize::Packed512_Int8
        } else if n == 89 {
            MemorySize::Packed512_UInt16
        } else if n == 90 {
            MemorySize::Packed512_Int16
        } else if n == 91 {
            MemorySize::Packed512_UInt32
        } else if n == 92 {
            MemorySize::Packed512_Int32
        } else if n == 93 {
            MemorySize::Packed512_UInt52
        } else if n == 94 {
            MemorySize::Packed512_UInt64
        } else if n == 95 {
            MemorySize::Packed512_Int64
        } else if n == 96 {
            MemorySize::Packed512_UInt128
        } else if n == 97 {
            MemorySize::Packed512_Float32
        } else if n == 98 {
            MemorySize::Packed512_Float64
        } else if n == 99 {
            MemorySize::Packed512_2xBFloat16
        } else if n == 100 {
            MemorySize::Broadcast64_UInt32
        } else if n == 101 {
            MemorySize::Broadcast64_Int32
        } else if n == 102 {
            MemorySize::Broadcast64_Float32
        } else if n == 103 {
            MemorySize::Broadcast128_UInt32
        } else if n == 104 {
            MemorySize::Broadcast128_Int32
        } else if n == 105 {
            MemorySize::Broadcast128_UInt52
        } else if n == 106 {
            MemorySize::Broadcast128_UInt64
        } else if n == 107 {
            MemorySize::Broadcast128_Int64
        } else if n == 108 {
            MemorySize::Broadcast128_Float32
        } else if n == 109 {
            MemorySize::Broadcast128_Float64
        } else if n == 110 {
            MemorySize::Broadcast256_UInt32
        } else if n == 111 {
            MemorySize::Broadcast256_Int32
        } else if n == 112 {
            MemorySize::Broadcast256_UInt52
        } else if n == 113 {
            MemorySize::Broadcast256_UInt64
        } else if n == 114 {
            MemorySize::Broadcast256_Int64
        } else if n == 115 {
            MemorySize::Broadcast256_Float32
        } else if n == 116 {
            MemorySize::Broadcast256_Float64
        } else if n == 117 {
            MemorySize::Broadcast512_UInt32
        } else if n == 118 {
            MemorySize::Broadcast512_Int32
        } else if n == 119 {
            MemorySize::Broadcast512_UInt52
        } else if n == 120 {
            MemorySize::Broadcast512_UInt64
        } else if n == 121 {
            MemorySize::Broadcast512_Int64
        } else if n == 122 {
            MemorySize::Broadcast512_Float32
        } else if n == 123 {
            MemorySize::Broadcast512_Float64
        } else if n == 124 {
            MemorySize::Broadcast128_2xInt16
        } else if n == 125 {
            MemorySize::Broadcast256_2xInt16
        } else if n == 126 {
            MemorySize::Broadcast512_2xInt16
        } else if n == 127 {
            MemorySize::Broadcast128_2xUInt32
        } else if n == 128 {
            MemorySize::Broadcast256_2xUInt32
        } else if n == 129 {
            MemorySize::Broadcast512_2xUInt32
        } else if n == 130 {
            MemorySize::Broadcast128_2xInt32
        } else if n == 131 {
            MemorySize::Broadcast256_2xInt32
        } else if n == 132 {
            MemorySize::Broadcast512_2xInt32
        } else if n == 133 {
            MemorySize::Broadcast128_2xBFloat16
        } else if n == 134 {
            MemorySize::Broadcast256_2xBFloat16
        } else if n == 135 {
            MemorySize::Broadcast512_2xBFloat16
        } else {
            MemorySize::Unknown
        }
    }

    /// Converting a size to its ordinal and back yields the size.
    pub proof fn lemma_number_roundtrip(self)
        ensures
            Self::spec_from_number(self.spec_number()) == self,
            self.spec_number() < NUMBER_OF_MEMORY_SIZES,
    {
    }

    /// The memory size info of this value.
    pub open spec fn spec_info(self) -> MemorySizeInfo {
        match self {
            MemorySize::Unknown => MemorySizeInfo { size: 0, element_size: 0, memory_size: MemorySize::Unknown, element_type: MemorySize::Unknown, is_signed: false, is_broadcast: false },
            MemorySize::UInt8 => MemorySizeInfo { size: 1, element_size: 1, memory_size: MemorySize::UInt8, element_type: MemorySize::UInt8, is_signed: false, is_broadcast: false },
            MemorySize::UInt16 => MemorySizeInfo { size: 2, element_size: 2, memory_size: MemorySize::UInt16, element_type: MemorySize::UInt16, is_signed: false, is_broadcast: false },
            MemorySize::UInt32 => MemorySizeInfo { size: 4, element_size: 4, memory_size: MemorySize::UInt32, element_type: MemorySize::UInt32, is_signed: false, is_broadcast: false },
            MemorySize::UInt52 => MemorySizeInfo { size: 8, element_size: 8, memory_size: MemorySize::UInt52, element_type: MemorySize::UInt52, is_signed: false, is_broadcast: false },
            MemorySize::UInt64 => MemorySizeInfo { size: 8, element_size: 8, memory_size: MemorySize::UInt64, element_type: MemorySize::UInt64, is_signed: false, is_broadcast: false },
            MemorySize::UInt128 => MemorySizeInfo { size: 16, element_size: 16, memory_size: MemorySize::UInt128, element_type: MemorySize::UInt128, is_signed: false, is_broadcast: false },
            MemorySize::UInt256 => MemorySizeInfo { size: 32, element_size: 32, memory_size: MemorySize::UInt256, element_type: MemorySize::UInt256, is_signed: false, is_broadcast: false },
            MemorySize::UInt512 => MemorySizeInfo { size: 64, element_size: 64, memory_size: MemorySize::UInt512, element_type: MemorySize::UInt512, is_signed: false, is_broadcast: false },
            MemorySize::Int8 => MemorySizeInfo { size: 1, element_size: 1, memory_size: MemorySize::Int8, element_type: MemorySize::Int8, is_signed: true, is_broadcast: false },
            MemorySize::Int16 => MemorySizeInfo { size: 2, element_size: 2, memory_size: MemorySize::Int16, element_type: MemorySize::Int16, is_signed: true, is_broadcast: false },
            MemorySize::Int32 => MemorySizeInfo { size: 4, element_size: 4, memory_size: MemorySize::Int32, element_type: MemorySize::Int32, is_signed: true, is_broadcast: false },
            MemorySize::Int64 => MemorySizeInfo { size: 8, element_size: 8, memory_size: MemorySize::Int64, element_type: MemorySize::Int64, is_signed: true, is_broadcast: false },
            MemorySize::Int128 => MemorySizeInfo { size: 16, element_size: 16, memory_size: MemorySize::Int128, element_type: MemorySize::Int128, is_signed: true, is_broadcast: false },
            MemorySize::Int256 => MemorySizeInfo { size: 32, element_size: 32, memory_size: MemorySize::Int256, element_type: MemorySize::Int256, is_signed: true, is_broadcast: false },
            MemorySize::Int512 => MemorySizeInfo { size: 64, element_size: 64, memory_size: MemorySize::Int512, element_type: MemorySize::Int512, is_signed: true, is_broadcast: false },
            MemorySize::SegPtr16 => MemorySizeInfo { size: 4, element_size: 4, memory_size: MemorySize::SegPtr16, element_type: MemorySize::SegPtr16, is_signed: false, is_broadcast: false },
            MemorySize::SegPtr32 => MemorySizeInfo { size: 6, element_size: 6, memory_size: MemorySize::SegPtr32, element_type: MemorySize::SegPtr32, is_signed: false, is_broadcast: false },
            MemorySize::SegPtr64 => MemorySizeInfo { size: 10, element_size: 10, memory_size: MemorySize::SegPtr64, element_type: MemorySize::SegPtr64, is_signed: false, is_broadcast: false },
            MemorySize::WordOffset => MemorySizeInfo { size: 2, element_size: 2, memory_size: MemorySize::WordOffset, element_type: MemorySize::WordOffset, is_signed: false, is_broadcast: false },
            MemorySize::DwordOffset => MemorySizeInfo { size: 4, element_size: 4, memory_size: MemorySize::DwordOffset, element_type: MemorySize::DwordOffset, is_signed: false, is_broadcast: false },
            MemorySize::QwordOffset => MemorySizeInfo { size: 8, element_size: 8, memory_size: MemorySize::QwordOffset, element_type: MemorySize::QwordOffset, is_signed: false, is_broadcast: false },
            MemorySize::Bound16_WordWord => MemorySizeInfo { size: 4, element_size: 4, memory_size: MemorySize::Bound16_WordWord, element_type: MemorySize::Bound16_WordWord, is_signed: false, is_broadcast: false },
            MemorySize::Bound32_DwordDword => MemorySizeInfo { size: 8, element_size: 8, memory_size: MemorySize::Bound32_DwordDword, element_type: MemorySize::Bound32_DwordDword, is_signed: false, is_broadcast: false },
            MemorySize::Bnd32 => MemorySizeInfo { size: 8, element_size: 8, memory_size: MemorySize::Bnd32, element_type: MemorySize::Bnd32, is_signed: false, is_broadcast: false },
            MemorySize::Bnd64 => MemorySizeInfo { size: 16, element_size: 16, memory_size: MemorySize::Bnd64, element_type: MemorySize::Bnd64, is_signed: false, is_broadcast: false },
            MemorySize::Fword6 => MemorySizeInfo { size: 6, element_size: 6, memory_size: MemorySize::Fword6, element_type: MemorySize::Fword6, is_signed: false, is_broadcast: false },
            MemorySize::Fword10 => MemorySizeInfo { size: 10, element_size: 10, memory_size: MemorySize::Fword10, element_type: MemorySize::Fword10, is_signed: false, is_broadcast: false },
            MemorySize::Float16 => MemorySizeInfo { size: 2, element_size: 2, memory_size: MemorySize::Float16, element_type: MemorySize::Float16, is_signed: true, is_broadcast: false },
            MemorySize::Float32 => MemorySizeInfo { size: 4, element_size: 4, memory_size: MemorySize::Float32, element_type: MemorySize::Float32, is_signed: true, is_broadcast: false },
            MemorySize::Float64 => MemorySizeInfo { size: 8, element_size: 8, memory_size: MemorySize::Float64, element_type: MemorySize::Float64, is_signed: true, is_broadcast: false },
            MemorySize::Float80 => MemorySizeInfo { size: 10, element_size: 10, memory_size: MemorySize::Float80, element_type: MemorySize::Float80, is_signed: true, is_broadcast: false },
            MemorySize::Float128 => MemorySizeInfo { size: 16, element_size: 16, memory_size: MemorySize::Float128, element_type: MemorySize::Float128, is_signed: true, is_broadcast: false },
            MemorySize::BFloat16 => MemorySizeInfo { size: 2, element_size: 2, memory_size: MemorySize::BFloat16, element_type: MemorySize::BFloat16, is_signed: true, is_broadcast: false },
            MemorySize::FpuEnv14 => MemorySizeInfo { size: 14, element_size: 14, memory_size: MemorySize::FpuEnv14, element_type: MemorySize::FpuEnv14, is_signed: false, is_broadcast: false },
            MemorySize::FpuEnv28 => MemorySizeInfo { size: 28, element_size: 28, memory_size: MemorySize::FpuEnv28, element_type: MemorySize::FpuEnv28, is_signed: false, is_broadcast: false },
            MemorySize::FpuState94 => MemorySizeInfo { size: 94, element_size: 94, memory_size: MemorySize::FpuState94, element_type: MemorySize::FpuState94, is_signed: false, is_broadcast: false },
            MemorySize::FpuState108 => MemorySizeInfo { size: 108, element_size: 108, memory_size: MemorySize::FpuState108, element_type: MemorySize::FpuState108, is_signed: false, is_broadcast: false },
            MemorySize::Fxsave_512Byte => MemorySizeInfo { size: 512, element_size: 512, memory_size: MemorySize::Fxsave_512Byte, element_type: MemorySize::Fxsave_512Byte, is_signed: false, is_broadcast: false },
            MemorySize::Fxsave64_512Byte => MemorySizeInfo { size: 512, element_size: 512, memory_size: MemorySize::Fxsave64_512Byte, element_type: MemorySize::Fxsave64_512Byte, is_signed: false, is_broadcast: false },
            MemorySize::Xsave => MemorySizeInfo { size: 0, element_size: 0, memory_size: MemorySize::Xsave, element_type: MemorySize::Xsave, is_signed: false, is_broadcast: false },
            MemorySize::Xsave64 => MemorySizeInfo { size: 0, element_size: 0, memory_size: MemorySize::Xsave64, element_type: MemorySize::Xsave64, is_signed: false, is_broadcast: false },
            MemorySize::Bcd => MemorySizeInfo { size: 10, element_size: 10, memory_size: MemorySize::Bcd, element_type: MemorySize::Bcd, is_signed: true, is_broadcast: false },
            MemorySize::Packed16_UInt8 => MemorySizeInfo { size: 2, element_size: 1, memory_size: MemorySize::Packed16_UInt8, element_type: MemorySize::UInt8, is_signed: false, is_broadcast: false },
            MemorySize::Packed16_Int8 => MemorySizeInfo { size: 2, element_size: 1, memory_size: MemorySize::Packed16_Int8, element_type: MemorySize::Int8, is_signed: true, is_broadcast: false },
            MemorySize::Packed32_UInt8 => MemorySizeInfo { size: 4, element_size: 1, memory_size: MemorySize::Packed32_UInt8, element_type: MemorySize::UInt8, is_signed: false, is_broadcast: false },
            MemorySize::Packed32_Int8 => MemorySizeInfo { size: 4, element_size: 1, memory_size: MemorySize::Packed32_Int8, element_type: MemorySize::Int8, is_signed: true, is_broadcast: false },
            MemorySize::Packed32_UInt16 => MemorySizeInfo { size: 4, element_size: 2, memory_size: MemorySize::Packed32_UInt16, element_type: MemorySize::UInt16, is_signed: false, is_broadcast: false },
            MemorySize::Packed32_Int16 => MemorySizeInfo { size: 4, element_size: 2, memory_size: MemorySize::Packed32_Int16, element_type: MemorySize::Int16, is_signed: true, is_broadcast: false },
            MemorySize::Packed32_BFloat16 => MemorySizeInfo { size: 4, element_size: 2, memory_size: MemorySize::Packed32_BFloat16, element_type: MemorySize::BFloat16, is_signed: true, is_broadcast: false },
            MemorySize::Packed64_UInt8 => MemorySizeInfo { size: 8, element_size: 1, memory_size: MemorySize::Packed64_UInt8, element_type: MemorySize::UInt8, is_signed: false, is_broadcast: false },
            MemorySize::Packed64_Int8 => MemorySizeInfo { size: 8, element_size: 1, memory_size: MemorySize::Packed64_Int8, element_type: MemorySize::Int8, is_signed: true, is_broadcast: false },
            MemorySize::Packed64_UInt16 => MemorySizeInfo { size: 8, element_size: 2, memory_size: MemorySize::Packed64_UInt16, element_type: MemorySize::UInt16, is_signed: false, is_broadcast: false },
            MemorySize::Packed64_Int16 => MemorySizeInfo { size: 8, element_size: 2, memory_size: MemorySize::Packed64_Int16, element_type: MemorySize::Int16, is_signed: true, is_broadcast: false },
            MemorySize::Packed64_UInt32 => MemorySizeInfo { size: 8, element_size: 4, memory_size: MemorySize::Packed64_UInt32, element_type: MemorySize::UInt32, is_signed: false, is_broadcast: false },
            MemorySize::Packed64_Int32 => MemorySizeInfo { size: 8, element_size: 4, memory_size: MemorySize::Packed64_Int32, element_type: MemorySize::Int32, is_signed: true, is_broadcast: false },
            MemorySize::Packed64_Float16 => MemorySizeInfo { size: 8, element_size: 2, memory_size: MemorySize::Packed64_Float16, element_type: MemorySize::Float16, is_signed: true, is_broadcast: false },
            MemorySize::Packed64_Float32 => MemorySizeInfo { size: 8, element_size: 4, memory_size: MemorySize::Packed64_Float32, element_type: MemorySize::Float32, is_signed: true, is_broadcast: false },
            MemorySize::Packed128_UInt8 => MemorySizeInfo { size: 16, element_size: 1, memory_size: MemorySize::Packed128_UInt8, element_type: MemorySize::UInt8, is_signed: false, is_broadcast: false },
            MemorySize::Packed128_Int8 => MemorySizeInfo { size: 16, element_size: 1, memory_size: MemorySize::Packed128_Int8, element_type: MemorySize::Int8, is_signed: true, is_broadcast: false },
            MemorySize::Packed128_UInt16 => MemorySizeInfo { size: 16, element_size: 2, memory_size: MemorySize::Packed128_UInt16, element_type: MemorySize::UInt16, is_signed: false, is_broadcast: false },
            MemorySize::Packed128_Int16 => MemorySizeInfo { size: 16, element_size: 2, memory_size: MemorySize::Packed128_Int16, element_type: MemorySize::Int16, is_signed: true, is_broadcast: false },
            MemorySize::Packed128_UInt32 => MemorySizeInfo { size: 16, element_size: 4, memory_size: MemorySize::Packed128_UInt32, element_type: MemorySize::UInt32, is_signed: false, is_broadcast: false },
            MemorySize::Packed128_Int32 => MemorySizeInfo { size: 16, element_size: 4, memory_size: MemorySize::Packed128_Int32, element_type: MemorySize::Int32, is_signed: true, is_broadcast: false },
            MemorySize::Packed128_UInt52 => MemorySizeInfo { size: 16, element_size: 8, memory_size: MemorySize::Packed128_UInt52, element_type: MemorySize::UInt52, is_signed: false, is_broadcast: false },
            MemorySize::Packed128_UInt64 => MemorySizeInfo { size: 16, element_size: 8, memory_size: MemorySize::Packed128_UInt64, element_type: MemorySize::UInt64, is_signed: false, is_broadcast: false },
            MemorySize::Packed128_Int64 => MemorySizeInfo { size: 16, element_size: 8, memory_size: MemorySize::Packed128_Int64, element_type: MemorySize::Int64, is_signed: true, is_broadcast: false },
            MemorySize::Packed128_Float16 => MemorySizeInfo { size: 16, element_size: 2, memory_size: MemorySize::Packed128_Float16, element_type: MemorySize::Float16, is_signed: true, is_broadcast: false },
            MemorySize::Packed128_Float32 => MemorySizeInfo { size: 16, element_size: 4, memory_size: MemorySize::Packed128_Float32, element_type: MemorySize::Float32, is_signed: true, is_broadcast: false },
            MemorySize::Packed128_Float64 => MemorySizeInfo { size: 16, element_size: 8, memory_size: MemorySize::Packed128_Float64, element_type: MemorySize::Float64, is_signed: true, is_broadcast: false },
            MemorySize::Packed128_2xBFloat16 => MemorySizeInfo { size: 16, element_size: 4, memory_size: MemorySize::Packed128_2xBFloat16, element_type: MemorySize::Packed32_BFloat16, is_signed: true, is_broadcast: false },
            MemorySize::Packed256_UInt8 => MemorySizeInfo { size: 32, element_size: 1, memory_size: MemorySize::Packed256_UInt8, element_type: MemorySize::UInt8, is_signed: false, is_broadcast: false },
            MemorySize::Packed256_Int8 => MemorySizeInfo { size: 32, element_size: 1, memory_size: MemorySize::Packed256_Int8, element_type: MemorySize::Int8, is_signed: true, is_broadcast: false },
            MemorySize::Packed256_UInt16 => MemorySizeInfo { size: 32, element_size: 2, memory_size: MemorySize::Packed256_UInt16, element_type: MemorySize::UInt16, is_signed: false, is_broadcast: false },
            MemorySize::Packed256_Int16 => MemorySizeInfo { size: 32, element_size: 2, memory_size: MemorySize::Packed256_Int16, element_type: MemorySize::Int16, is_signed: true, is_broadcast: false },
            MemorySize::Packed256_UInt32 => MemorySizeInfo { size: 32, element_size: 4, memory_size: MemorySize::Packed256_UInt32, element_type: MemorySize::UInt32, is_signed: false, is_broadcast: false },
            MemorySize::Packed256_Int32 => MemorySizeInfo { size: 32, element_size: 4, memory_size: MemorySize::Packed256_Int32, element_type: MemorySize::Int32, is_signed: true, is_broadcast: false },
            MemorySize::Packed256_UInt52 => MemorySizeInfo { size: 32, element_size: 8, memory_size: MemorySize::Packed256_UInt52, element_type: MemorySize::UInt52, is_signed: false, is_broadcast: false },
            MemorySize::Packed256_UInt64 => MemorySizeInfo { size: 32, element_size: 8, memory_size: MemorySize::Packed256_UInt64, element_type: MemorySize::UInt64, is_signed: false, is_broadcast: false },
            MemorySize::Packed256_Int64 => MemorySizeInfo { size: 32, element_size: 8, memory_size: MemorySize::Packed256_Int64, element_type: MemorySize::Int64, is_signed: true, is_broadcast: false },
            MemorySize::Packed256_UInt128 => MemorySizeInfo { size: 32, element_size: 16, memory_size: MemorySize::Packed256_UInt128, element_type: MemorySize::UInt128, is_signed: false, is_broadcast: false },
            MemorySize::Packed256_Int128 => MemorySizeInfo { size: 32, element_size: 16, memory_size: MemorySize::Packed256_Int128, element_type: MemorySize::Int128, is_signed: true, is_broadcast: false },
            MemorySize::Packed256_Float16 => MemorySizeInfo { size: 32, element_size: 2, memory_size: MemorySize::Packed256_Float16, element_type: MemorySize::Float16, is_signed: true, is_broadcast: false },
            MemorySize::Packed256_Float32 => MemorySizeInfo { size: 32, element_size: 4, memory_size: MemorySize::Packed256_Float32, element_type: MemorySize::Float32, is_signed: true, is_broadcast: false },
            MemorySize::Packed256_Float64 => MemorySizeInfo { size: 32, element_size: 8, memory_size: MemorySize::Packed256_Float64, element_type: MemorySize::Float64, is_signed: true, is_broadcast: false },
            MemorySize::Packed256_Float128 => MemorySizeInfo { size: 32, element_size: 16, memory_size: MemorySize::Packed256_Float128, element_type: MemorySize::Float128, is_signed: true, is_broadcast: false },
            MemorySize::Packed256_2xBFloat16 => MemorySizeInfo { size: 32, element_size: 4, memory_size: MemorySize::Packed256_2xBFloat16, element_type: MemorySize::Packed32_BFloat16, is_signed: true, is_broadcast: false },
            MemorySize::Packed512_UInt8 => MemorySizeInfo { size: 64, element_size: 1, memory_size: MemorySize::Packed512_UInt8, element_type: MemorySize::UInt8, is_signed: false, is_broadcast: false },
            MemorySize::Packed512_Int8 => MemorySizeInfo { size: 64, element_size: 1, memory_size: MemorySize::Packed512_Int8, element_type: MemorySize::Int8, is_signed: true, is_broadcast: false },
            MemorySize::Packed512_UInt16 => MemorySizeInfo { size: 64, element_size: 2, memory_size: MemorySize::Packed512_UInt16, element_type: MemorySize::UInt16, is_signed: false, is_broadcast: false },
            MemorySize::Packed512_Int16 => MemorySizeInfo { size: 64, element_size: 2, memory_size: MemorySize::Packed512_Int16, element_type: MemorySize::Int16, is_signed: true, is_broadcast: false },
            MemorySize::Packed512_UInt32 => MemorySizeInfo { size: 64, element_size: 4, memory_size: MemorySize::Packed512_UInt32, element_type: MemorySize::UInt32, is_signed: false, is_broadcast: false },
            MemorySize::Packed512_Int32 => MemorySizeInfo { size: 64, element_size: 4, memory_size: MemorySize::Packed512_Int32, element_type: MemorySize::Int32, is_signed: true, is_broadcast: false },
            MemorySize::Packed512_UInt52 => MemorySizeInfo { size: 64, element_size: 8, memory_size: MemorySize::Packed512_UInt52, element_type: MemorySize::UInt52, is_signed: false, is_broadcast: false },
            MemorySize::Packed512_UInt64 => MemorySizeInfo { size: 64, element_size: 8, memory_size: MemorySize::Packed512_UInt64, element_type: MemorySize::UInt64, is_signed: false, is_broadcast: false },
            MemorySize::Packed512_Int64 => MemorySizeInfo { size: 64, element_size: 8, memory_size: MemorySize::Packed512_Int64, element_type: MemorySize::Int64, is_signed: true, is_broadcast: false },
            MemorySize::Packed512_UInt128 => MemorySizeInfo { size: 64, element_size: 16, memory_size: MemorySize::Packed512_UInt128, element_type: MemorySize::UInt128, is_signed: false, is_broadcast: false },
            MemorySize::Packed512_Float32 => MemorySizeInfo { size: 64, element_size: 4, memory_size: MemorySize::Packed512_Float32, element_type: MemorySize::Float32, is_signed: true, is_broadcast: false },
            MemorySize::Packed512_Float64 => MemorySizeInfo { size: 64, element_size: 8, memory_size: MemorySize::Packed512_Float64, element_type: MemorySize::Float64, is_signed: true, is_broadcast: false },
            MemorySize::Packed512_2xBFloat16 => MemorySizeInfo { size: 64, element_size: 4, memory_size: MemorySize::Packed512_2xBFloat16, element_type: MemorySize::Packed32_BFloat16, is_signed: true, is_broadcast: false },
            MemorySize::Broadcast64_UInt32 => MemorySizeInfo { size: 4, element_size: 4, memory_size: MemorySize::Broadcast64_UInt32, element_type: MemorySize::UInt32, is_signed: false, is_broadcast: true },
            MemorySize::Broadcast64_Int32 => MemorySizeInfo { size: 4, element_size: 4, memory_size: MemorySize::Broadcast64_Int32, element_type: MemorySize::Int32, is_signed: true, is_broadcast: true },
            MemorySize::Broadcast64_Float32 => MemorySizeInfo { size: 4, element_size: 4, memory_size: MemorySize::Broadcast64_Float32, element_type: MemorySize::Float32, is_signed: true, is_broadcast: true },
            MemorySize::Broadcast128_UInt32 => MemorySizeInfo { size: 4, element_size: 4, memory_size: MemorySize::Broadcast128_UInt32, element_type: MemorySize::UInt32, is_signed: false, is_broadcast: true },
            MemorySize::Broadcast128_Int32 => MemorySizeInfo { size: 4, element_size: 4, memory_size: MemorySize::Broadcast128_Int32, element_type: MemorySize::Int32, is_signed: true, is_broadcast: true },
            MemorySize::Broadcast128_UInt52 => MemorySizeInfo { size: 8, element_size: 8, memory_size: MemorySize::Broadcast128_UInt52, element_type: MemorySize::UInt52, is_signed: false, is_broadcast: true },
            MemorySize::Broadcast128_UInt64 => MemorySizeInfo { size: 8, element_size: 8, memory_size: MemorySize::Broadcast128_UInt64, element_type: MemorySize::UInt64, is_signed: false, is_broadcast: true },
            MemorySize::Broadcast128_Int64 => MemorySizeInfo { size: 8, element_size: 8, memory_size: MemorySize::Broadcast128_Int64, element_type: MemorySize::Int64, is_signed: true, is_broadcast: true },
            MemorySize::Broadcast128_Float32 => MemorySizeInfo { size: 4, element_size: 4, memory_size: MemorySize::Broadcast128_Float32, element_type: MemorySize::Float32, is_signed: true, is_broadcast: true },
            MemorySize::Broadcast128_Float64 => MemorySizeInfo { size: 8, element_size: 8, memory_size: MemorySize::Broadcast128_Float64, element_type: MemorySize::Float64, is_signed: true, is_broadcast: true },
            MemorySize::Broadcast256_UInt32 => MemorySizeInfo { size: 4, element_size: 4, memory_size: MemorySize::Broadcast256_UInt32, element_type: MemorySize::UInt32, is_signed: false, is_broadcast: true },
            MemorySize::Broadcast256_Int32 => MemorySizeInfo { size: 4, element_size: 4, memory_size: MemorySize::Broadcast256_Int32, element_type: MemorySize::Int32, is_signed: true, is_broadcast: true },
            MemorySize::Broadcast256_UInt52 => MemorySizeInfo { size: 8, element_size: 8, memory_size: MemorySize::Broadcast256_UInt52, element_type: MemorySize::UInt52, is_signed: false, is_broadcast: true },
            MemorySize::Broadcast256_UInt64 => MemorySizeInfo { size: 8, element_size: 8, memory_size: MemorySize::Broadcast256_UInt64, element_type: MemorySize::UInt64, is_signed: false, is_broadcast: true },
            MemorySize::Broadcast256_Int64 => MemorySizeInfo { size: 8, element_size: 8, memory_size: MemorySize::Broadcast256_Int64, element_type: MemorySize::Int64, is_signed: true, is_broadcast: true },
            MemorySize::Broadcast256_Float32 => MemorySizeInfo { size: 4, element_size: 4, memory_size: MemorySize::Broadcast256_Float32, element_type: MemorySize::Float32, is_signed: true, is_broadcast: true },
            MemorySize::Broadcast256_Float64 => MemorySizeInfo { size: 8, element_size: 8, memory_size: MemorySize::Broadcast256_Float64, element_type: MemorySize::Float64, is_signed: true, is_broadcast: true },
            MemorySize::Broadcast512_UInt32 => MemorySizeInfo { size: 4, element_size: 4, memory_size: MemorySize::Broadcast512_UInt32, element_type: MemorySize::UInt32, is_signed: false, is_broadcast: true },
            MemorySize::Broadcast512_Int32 => MemorySizeInfo { size: 4, element_size: 4, memory_size: MemorySize::Broadcast512_Int32, element_type: MemorySize::Int32, is_signed: true, is_broadcast: true },
            MemorySize::Broadcast512_UInt52 => MemorySizeInfo { size: 8, element_size: 8, memory_size: MemorySize::Broadcast512_UInt52, element_type: MemorySize::UInt52, is_signed: false, is_broadcast: true },
            MemorySize::Broadcast512_UInt64 => MemorySizeInfo { size: 8, element_size: 8, memory_size: MemorySize::Broadcast512_UInt64, element_type: MemorySize::UInt64, is_signed: false, is_broadcast: true },
            MemorySize::Broadcast512_Int64 => MemorySizeInfo { size: 8, element_size: 8, memory_size: MemorySize::Broadcast512_Int64, element_type: MemorySize::Int64, is_signed: true, is_broadcast: true },
            MemorySize::Broadcast512_Float32 => MemorySizeInfo { size: 4, element_size: 4, memory_size: MemorySize::Broadcast512_Float32, element_type: MemorySize::Float32, is_signed: true, is_broadcast: true },
            MemorySize::Broadcast512_Float64 => MemorySizeInfo { size: 8, element_size: 8, memory_size: MemorySize::Broadcast512_Float64, element_type: MemorySize::Float64, is_signed: true, is_broadcast: true },
            MemorySize::Broadcast128_2xInt16 => MemorySizeInfo { size: 4, element_size: 2, memory_size: MemorySize::Broadcast128_2xInt16, element_type: MemorySize::Int16, is_signed: true, is_broadcast: true },
            MemorySize::Broadcast256_2xInt16 => MemorySizeInfo { size: 4, element_size: 2, memory_size: MemorySize::Broadcast256_2xInt16, element_type: MemorySize::Int16, is_signed: true, is_broadcast: true },
            MemorySize::Broadcast512_2xInt16 => MemorySizeInfo { size: 4, element_size: 2, memory_size: MemorySize::Broadcast512_2xInt16, element_type: MemorySize::Int16, is_signed: true, is_broadcast: true },
            MemorySize::Broadcast128_2xUInt32 => MemorySizeInfo { size: 8, element_size: 4, memory_size: MemorySize::Broadcast128_2xUInt32, element_type: MemorySize::UInt32, is_signed: false, is_broadcast: true },
            MemorySize::Broadcast256_2xUInt32 => MemorySizeInfo { size: 8, element_size: 4, memory_size: MemorySize::Broadcast256_2xUInt32, element_type: MemorySize::UInt32, is_signed: false, is_broadcast: true },
            MemorySize::Broadcast512_2xUInt32 => MemorySizeInfo { size: 8, element_size: 4, memory_size: MemorySize::Broadcast512_2xUInt32, element_type: MemorySize::UInt32, is_signed: false, is_broadcast: true },
            MemorySize::Broadcast128_2xInt32 => MemorySizeInfo { size: 8, element_size: 4, memory_size: MemorySize::Broadcast128_2xInt32, element_type: MemorySize::Int32, is_signed: true, is_broadcast: true },
            MemorySize::Broadcast256_2xInt32 => MemorySizeInfo { size: 8, element_size: 4, memory_size: MemorySize::Broadcast256_2xInt32, element_type: MemorySize::Int32, is_signed: true, is_broadcast: true },
            MemorySize::Broadcast512_2xInt32 => MemorySizeInfo { size: 8, element_size: 4, memory_size: MemorySize::Broadcast512_2xInt32, element_type: MemorySize::Int32, is_signed: true, is_broadcast: true },
            MemorySize::Broadcast128_2xBFloat16 => MemorySizeInfo { size: 4, element_size: 2, memory_size: MemorySize::Broadcast128_2xBFloat16, element_type: MemorySize::BFloat16, is_signed: true, is_broadcast: true },
            MemorySize::Broadcast256_2xBFloat16 => MemorySizeInfo { size: 4, element_size: 2, memory_size: MemorySize::Broadcast256_2xBFloat16, element_type: MemorySize::BFloat16, is_signed: true, is_broadcast: true },
            MemorySize::Broadcast512_2xBFloat16 => MemorySizeInfo { size: 4, element_size: 2, memory_size: MemorySize::Broadcast512_2xBFloat16, element_type: MemorySize::BFloat16, is_signed: true, is_broadcast: true },
        }
    }

    /// Returns the memory size info of this value: an O(1) table lookup that
    /// covers every enum value.
    pub fn info(self) -> (r: MemorySizeInfo)
        ensures
            r == self.spec_info(),
    {
        match self {
            MemorySize::Unknown => MemorySizeInfo { size: 0, element_size: 0, memory_size: MemorySize::Unknown, element_type: MemorySize::Unknown, is_signed: false, is_broadcast: false },
            MemorySize::UInt8 => MemorySizeInfo { size: 1, element_size: 1, memory_size: MemorySize::UInt8, element_type: MemorySize::UInt8, is_signed: false, is_broadcast: false },
            MemorySize::UInt16 => MemorySizeInfo { size: 2, element_size: 2, memory_size: MemorySize::UInt16, element_type: MemorySize::UInt16, is_signed: false, is_broadcast: false },
            MemorySize::UInt32 => MemorySizeInfo { size: 4, element_size: 4, memory_size: MemorySize::UInt32, element_type: MemorySize::UInt32, is_signed: false, is_broadcast: false },
            MemorySize::UInt52 => MemorySizeInfo { size: 8, element_size: 8, memory_size: MemorySize::UInt52, element_type: MemorySize::UInt52, is_signed: false, is_broadcast: false },
            MemorySize::UInt64 => MemorySizeInfo { size: 8, element_size: 8, memory_size: MemorySize::UInt64, element_type: MemorySize::UInt64, is_signed: false, is_broadcast: false },
            MemorySize::UInt128 => MemorySizeInfo { size: 16, element_size: 16, memory_size: MemorySize::UInt128, element_type: MemorySize::UInt128, is_signed: false, is_broadcast: false },
            MemorySize::UInt256 => MemorySizeInfo { size: 32, element_size: 32, memory_size: MemorySize::UInt256, element_type: MemorySize::UInt256, is_signed: false, is_broadcast: false },
            MemorySize::UInt512 => MemorySizeInfo { size: 64, element_size: 64, memory_size: MemorySize::UInt512, element_type: MemorySize::UInt512, is_signed: false, is_broadcast: false },
            MemorySize::Int8 => MemorySizeInfo { size: 1, element_size: 1, memory_size: MemorySize::Int8, element_type: MemorySize::Int8, is_signed: true, is_broadcast: false },
            MemorySize::Int16 => MemorySizeInfo { size: 2, element_size: 2, memory_size: MemorySize::Int16, element_type: MemorySize::Int16, is_signed: true, is_broadcast: false },
            MemorySize::Int32 => MemorySizeInfo { size: 4, element_size: 4, memory_size: MemorySize::Int32, element_type: MemorySize::Int32, is_signed: true, is_broadcast: false },
            MemorySize::Int64 => MemorySizeInfo { size: 8, element_size: 8, memory_size: MemorySize::Int64, element_type: MemorySize::Int64, is_signed: true, is_broadcast: false },
            MemorySize::Int128 => MemorySizeInfo { size: 16, element_size: 16, memory_size: MemorySize::Int128, element_type: MemorySize::Int128, is_signed: true, is_broadcast: false },
            MemorySize::Int256 => MemorySizeInfo { size: 32, element_size: 32, memory_size: MemorySize::Int256, element_type: MemorySize::Int256, is_signed: true, is_broadcast: false },
            MemorySize::Int512 => MemorySizeInfo { size: 64, element_size: 64, memory_size: MemorySize::Int512, element_type: MemorySize::Int512, is_signed: true, is_broadcast: false },
            MemorySize::SegPtr16 => MemorySizeInfo { size: 4, element_size: 4, memory_size: MemorySize::SegPtr16, element_type: MemorySize::SegPtr16, is_signed: false, is_broadcast: false },
            MemorySize::SegPtr32 => MemorySizeInfo { size: 6, element_size: 6, memory_size: MemorySize::SegPtr32, element_type: MemorySize::SegPtr32, is_signed: false, is_broadcast: false },
            MemorySize::SegPtr64 => MemorySizeInfo { size: 10, element_size: 10, memory_size: MemorySize::SegPtr64, element_type: MemorySize::SegPtr64, is_signed: false, is_broadcast: false },
            MemorySize::WordOffset => MemorySizeInfo { size: 2, element_size: 2, memory_size: MemorySize::WordOffset, element_type: MemorySize::WordOffset, is_signed: false, is_broadcast: false },
            MemorySize::DwordOffset => MemorySizeInfo { size: 4, element_size: 4, memory_size: MemorySize::DwordOffset, element_type: MemorySize::DwordOffset, is_signed: false, is_broadcast: false },
            MemorySize::QwordOffset => MemorySizeInfo { size: 8, element_size: 8, memory_size: MemorySize::QwordOffset, element_type: MemorySize::QwordOffset, is_signed: false, is_broadcast: false },
            MemorySize::Bound16_WordWord => MemorySizeInfo { size: 4, element_size: 4, memory_size: MemorySize::Bound16_WordWord, element_type: MemorySize::Bound16_WordWord, is_signed: false, is_broadcast: false },
            MemorySize::Bound32_DwordDword => MemorySizeInfo { size: 8, element_size: 8, memory_size: MemorySize::Bound32_DwordDword, element_type: MemorySize::Bound32_DwordDword, is_signed: false, is_broadcast: false },
            MemorySize::Bnd32 => MemorySizeInfo { size: 8, element_size: 8, memory_size: MemorySize::Bnd32, element_type: MemorySize::Bnd32, is_signed: false, is_broadcast: false },
            MemorySize::Bnd64 => MemorySizeInfo { size: 16, element_size: 16, memory_size: MemorySize::Bnd64, element_type: MemorySize::Bnd64, is_signed: false, is_broadcast: false },
            MemorySize::Fword6 => MemorySizeInfo { size: 6, element_size: 6, memory_size: MemorySize::Fword6, element_type: MemorySize::Fword6, is_signed: false, is_broadcast: false },
            MemorySize::Fword10 => MemorySizeInfo { size: 10, element_size: 10, memory_size: MemorySize::Fword10, element_type: MemorySize::Fword10, is_signed: false, is_broadcast: false },
            MemorySize::Float16 => MemorySizeInfo { size: 2, element_size: 2, memory_size: MemorySize::Float16, element_type: MemorySize::Float16, is_signed: true, is_broadcast: false },
            MemorySize::Float32 => MemorySizeInfo { size: 4, element_size: 4, memory_size: MemorySize::Float32, element_type: MemorySize::Float32, is_signed: true, is_broadcast: false },
            MemorySize::Float64 => MemorySizeInfo { size: 8, element_size: 8, memory_size: MemorySize::Float64, element_type: MemorySize::Float64, is_signed: true, is_broadcast: false },
            MemorySize::Float80 => MemorySizeInfo { size: 10, element_size: 10, memory_size: MemorySize::Float80, element_type: MemorySize::Float80, is_signed: true, is_broadcast: false },
            MemorySize::Float128 => MemorySizeInfo { size: 16, element_size: 16, memory_size: MemorySize::Float128, element_type: MemorySize::Float128, is_signed: true, is_broadcast: false },
            MemorySize::BFloat16 => MemorySizeInfo { size: 2, element_size: 2, memory_size: MemorySize::BFloat16, element_type: MemorySize::BFloat16, is_signed: true, is_broadcast: false },
            MemorySize::FpuEnv14 => MemorySizeInfo { size: 14, element_size: 14, memory_size: MemorySize::FpuEnv14, element_type: MemorySize::FpuEnv14, is_signed: false, is_broadcast: false },
            MemorySize::FpuEnv28 => MemorySizeInfo { size: 28, element_size: 28, memory_size: MemorySize::FpuEnv28, element_type: MemorySize::FpuEnv28, is_signed: false, is_broadcast: false },
            MemorySize::FpuState94 => MemorySizeInfo { size: 94, element_size: 94, memory_size: MemorySize::FpuState94, element_type: MemorySize::FpuState94, is_signed: false, is_broadcast: false },
            MemorySize::FpuState108 => MemorySizeInfo { size: 108, element_size: 108, memory_size: MemorySize::FpuState108, element_type: MemorySize::FpuState108, is_signed: false, is_broadcast: false },
            MemorySize::Fxsave_512Byte => MemorySizeInfo { size: 512, element_size: 512, memory_size: MemorySize::Fxsave_512Byte, element_type: MemorySize::Fxsave_512Byte, is_signed: false, is_broadcast: false },
            MemorySize::Fxsave64_512Byte => MemorySizeInfo { size: 512, element_size: 512, memory_size: MemorySize::Fxsave64_512Byte, element_type: MemorySize::Fxsave64_512Byte, is_signed: false, is_broadcast: false },
            MemorySize::Xsave => MemorySizeInfo { size: 0, element_size: 0, memory_size: MemorySize::Xsave, element_type: MemorySize::Xsave, is_signed: false, is_broadcast: false },
            MemorySize::Xsave64 => MemorySizeInfo { size: 0, element_size: 0, memory_size: MemorySize::Xsave64, element_type: MemorySize::Xsave64, is_signed: false, is_broadcast: false },
            MemorySize::Bcd => MemorySizeInfo { size: 10, element_size: 10, memory_size: MemorySize::Bcd, element_type: MemorySize::Bcd, is_signed: true, is_broadcast: false },
            MemorySize::Packed16_UInt8 => MemorySizeInfo { size: 2, element_size: 1, memory_size: MemorySize::Packed16_UInt8, element_type: MemorySize::UInt8, is_signed: false, is_broadcast: false },
            MemorySize::Packed16_Int8 => MemorySizeInfo { size: 2, element_size: 1, memory_size: MemorySize::Packed16_Int8, element_type: MemorySize::Int8, is_signed: true, is_broadcast: false },
            MemorySize::Packed32_UInt8 => MemorySizeInfo { size: 4, element_size: 1, memory_size: MemorySize::Packed32_UInt8, element_type: MemorySize::UInt8, is_signed: false, is_broadcast: false },
            MemorySize::Packed32_Int8 => MemorySizeInfo { size: 4, element_size: 1, memory_size: MemorySize::Packed32_Int8, element_type: MemorySize::Int8, is_signed: true, is_broadcast: false },
            MemorySize::Packed32_UInt16 => MemorySizeInfo { size: 4, element_size: 2, memory_size: MemorySize::Packed32_UInt16, element_type: MemorySize::UInt16, is_signed: false, is_broadcast: false },
            MemorySize::Packed32_Int16 => MemorySizeInfo { size: 4, element_size: 2, memory_size: MemorySize::Packed32_Int16, element_type: MemorySize::Int16, is_signed: true, is_broadcast: false },
            MemorySize::Packed32_BFloat16 => MemorySizeInfo { size: 4, element_size: 2, memory_size: MemorySize::Packed32_BFloat16, element_type: MemorySize::BFloat16, is_signed: true, is_broadcast: false },
            MemorySize::Packed64_UInt8 => MemorySizeInfo { size: 8, element_size: 1, memory_size: MemorySize::Packed64_UInt8, element_type: MemorySize::UInt8, is_signed: false, is_broadcast: false },
            MemorySize::Packed64_Int8 => MemorySizeInfo { size: 8, element_size: 1, memory_size: MemorySize::Packed64_Int8, element_type: MemorySize::Int8, is_signed: true, is_broadcast: false },
            MemorySize::Packed64_UInt16 => MemorySizeInfo { size: 8, element_size: 2, memory_size: MemorySize::Packed64_UInt16, element_type: MemorySize::UInt16, is_signed: false, is_broadcast: false },
            MemorySize::Packed64_Int16 => MemorySizeInfo { size: 8, element_size: 2, memory_size: MemorySize::Packed64_Int16, element_type: MemorySize::Int16, is_signed: true, is_broadcast: false },
            MemorySize::Packed64_UInt32 => MemorySizeInfo { size: 8, element_size: 4, memory_size: MemorySize::Packed64_UInt32, element_type: MemorySize::UInt32, is_signed: false, is_broadcast: false },
            MemorySize::Packed64_Int32 => MemorySizeInfo { size: 8, element_size: 4, memory_size: MemorySize::Packed64_Int32, element_type: MemorySize::Int32, is_signed: true, is_broadcast: false },
            MemorySize::Packed64_Float16 => MemorySizeInfo { size: 8, element_size: 2, memory_size: MemorySize::Packed64_Float16, element_type: MemorySize::Float16, is_signed: true, is_broadcast: false },
            MemorySize::Packed64_Float32 => MemorySizeInfo { size: 8, element_size: 4, memory_size: MemorySize::Packed64_Float32, element_type: MemorySize::Float32, is_signed: true, is_broadcast: false },
            MemorySize::Packed128_UInt8 => MemorySizeInfo { size: 16, element_size: 1, memory_size: MemorySize::Packed128_UInt8, element_type: MemorySize::UInt8, is_signed: false, is_broadcast: false },
            MemorySize::Packed128_Int8 => MemorySizeInfo { size: 16, element_size: 1, memory_size: MemorySize::Packed128_Int8, element_type: MemorySize::Int8, is_signed: true, is_broadcast: false },
            MemorySize::Packed128_UInt16 => MemorySizeInfo { size: 16, element_size: 2, memory_size: MemorySize::Packed128_UInt16, element_type: MemorySize::UInt16, is_signed: false, is_broadcast: false },
            MemorySize::Packed128_Int16 => MemorySizeInfo { size: 16, element_size: 2, memory_size: MemorySize::Packed128_Int16, element_type: MemorySize::Int16, is_signed: true, is_broadcast: false },
            MemorySize::Packed128_UInt32 => MemorySizeInfo { size: 16, element_size: 4, memory_size: MemorySize::Packed128_UInt32, element_type: MemorySize::UInt32, is_signed: false, is_broadcast: false },
            MemorySize::Packed128_Int32 => MemorySizeInfo { size: 16, element_size: 4, memory_size: MemorySize::Packed128_Int32, element_type: MemorySize::Int32, is_signed: true, is_broadcast: false },
            MemorySize::Packed128_UInt52 => MemorySizeInfo { size: 16, element_size: 8, memory_size: MemorySize::Packed128_UInt52, element_type: MemorySize::UInt52, is_signed: false, is_broadcast: false },
            MemorySize::Packed128_UInt64 => MemorySizeInfo { size: 16, element_size: 8, memory_size: MemorySize::Packed128_UInt64, element_type: MemorySize::UInt64, is_signed: false, is_broadcast: false },
            MemorySize::Packed128_Int64 => MemorySizeInfo { size: 16, element_size: 8, memory_size: MemorySize::Packed128_Int64, element_type: MemorySize::Int64, is_signed: true, is_broadcast: false },
            MemorySize::Packed128_Float16 => MemorySizeInfo { size: 16, element_size: 2, memory_size: MemorySize::Packed128_Float16, element_type: MemorySize::Float16, is_signed: true, is_broadcast: false },
            MemorySize::Packed128_Float32 => MemorySizeInfo { size: 16, element_size: 4, memory_size: MemorySize::Packed128_Float32, element_type: MemorySize::Float32, is_signed: true, is_broadcast: false },
            MemorySize::Packed128_Float64 => MemorySizeInfo { size: 16, element_size: 8, memory_size: MemorySize::Packed128_Float64, element_type: MemorySize::Float64, is_signed: true, is_broadcast: false },
            MemorySize::Packed128_2xBFloat16 => MemorySizeInfo { size: 16, element_size: 4, memory_size: MemorySize::Packed128_2xBFloat16, element_type: MemorySize::Packed32_BFloat16, is_signed: true, is_broadcast: false },
            MemorySize::Packed256_UInt8 => MemorySizeInfo { size: 32, element_size: 1, memory_size: MemorySize::Packed256_UInt8, element_type: MemorySize::UInt8, is_signed: false, is_broadcast: false },
            MemorySize::Packed256_Int8 => MemorySizeInfo { size: 32, element_size: 1, memory_size: MemorySize::Packed256_Int8, element_type: MemorySize::Int8, is_signed: true, is_broadcast: false },
            MemorySize::Packed256_UInt16 => MemorySizeInfo { size: 32, element_size: 2, memory_size: MemorySize::Packed256_UInt16, element_type: MemorySize::UInt16, is_signed: false, is_broadcast: false },
            MemorySize::Packed256_Int16 => MemorySizeInfo { size: 32, element_size: 2, memory_size: MemorySize::Packed256_Int16, element_type: MemorySize::Int16, is_signed: true, is_broadcast: false },
            MemorySize::Packed256_UInt32 => MemorySizeInfo { size: 32, element_size: 4, memory_size: MemorySize::Packed256_UInt32, element_type: MemorySize::UInt32, is_signed: false, is_broadcast: false },
            MemorySize::Packed256_Int32 => MemorySizeInfo { size: 32, element_size: 4, memory_size: MemorySize::Packed256_Int32, element_type: MemorySize::Int32, is_signed: true, is_broadcast: false },
            MemorySize::Packed256_UInt52 => MemorySizeInfo { size: 32, element_size: 8, memory_size: MemorySize::Packed256_UInt52, element_type: MemorySize::UInt52, is_signed: false, is_broadcast: false },
            MemorySize::Packed256_UInt64 => MemorySizeInfo { size: 32, element_size: 8, memory_size: MemorySize::Packed256_UInt64, element_type: MemorySize::UInt64, is_signed: false, is_broadcast: false },
            MemorySize::Packed256_Int64 => MemorySizeInfo { size: 32, element_size: 8, memory_size: MemorySize::Packed256_Int64, element_type: MemorySize::Int64, is_signed: true, is_broadcast: false },
            MemorySize::Packed256_UInt128 => MemorySizeInfo { size: 32, element_size: 16, memory_size: MemorySize::Packed256_UInt128, element_type: MemorySize::UInt128, is_signed: false, is_broadcast: false },
            MemorySize::Packed256_Int128 => MemorySizeInfo { size: 32, element_size: 16, memory_size: MemorySize::Packed256_Int128, element_type: MemorySize::Int128, is_signed: true, is_broadcast: false },
            MemorySize::Packed256_Float16 => MemorySizeInfo { size: 32, element_size: 2, memory_size: MemorySize::Packed256_Float16, element_type: MemorySize::Float16, is_signed: true, is_broadcast: false },
            MemorySize::Packed256_Float32 => MemorySizeInfo { size: 32, element_size: 4, memory_size: MemorySize::Packed256_Float32, element_type: MemorySize::Float32, is_signed: true, is_broadcast: false },
            MemorySize::Packed256_Float64 => MemorySizeInfo { size: 32, element_size: 8, memory_size: MemorySize::Packed256_Float64, element_type: MemorySize::Float64, is_signed: true, is_broadcast: false },
            MemorySize::Packed256_Float128 => MemorySizeInfo { size: 32, element_size: 16, memory_size: MemorySize::Packed256_Float128, element_type: MemorySize::Float128, is_signed: true, is_broadcast: false },
            MemorySize::Packed256_2xBFloat16 => MemorySizeInfo { size: 32, element_size: 4, memory_size: MemorySize::Packed256_2xBFloat16, element_type: MemorySize::Packed32_BFloat16, is_signed: true, is_broadcast: false },
            MemorySize::Packed512_UInt8 => MemorySizeInfo { size: 64, element_size: 1, memory_size: MemorySize::Packed512_UInt8, element_type: MemorySize::UInt8, is_signed: false, is_broadcast: false },
            MemorySize::Packed512_Int8 => MemorySizeInfo { size: 64, element_size: 1, memory_size: MemorySize::Packed512_Int8, element_type: MemorySize::Int8, is_signed: true, is_broadcast: false },
            MemorySize::Packed512_UInt16 => MemorySizeInfo { size: 64, element_size: 2, memory_size: MemorySize::Packed512_UInt16, element_type: MemorySize::UInt16, is_signed: false, is_broadcast: false },
            MemorySize::Packed512_Int16 => MemorySizeInfo { size: 64, element_size: 2, memory_size: MemorySize::Packed512_Int16, element_type: MemorySize::Int16, is_signed: true, is_broadcast: false },
            MemorySize::Packed512_UInt32 => MemorySizeInfo { size: 64, element_size: 4, memory_size: MemorySize::Packed512_UInt32, element_type: MemorySize::UInt32, is_signed: false, is_broadcast: false },
            MemorySize::Packed512_Int32 => MemorySizeInfo { size: 64, element_size: 4, memory_size: MemorySize::Packed512_Int32, element_type: MemorySize::Int32, is_signed: true, is_broadcast: false },
            MemorySize::Packed512_UInt52 => MemorySizeInfo { size: 64, element_size: 8, memory_size: MemorySize::Packed512_UInt52, element_type: MemorySize::UInt52, is_signed: false, is_broadcast: false },
            MemorySize::Packed512_UInt64 => MemorySizeInfo { size: 64, element_size: 8, memory_size: MemorySize::Packed512_UInt64, element_type: MemorySize::UInt64, is_signed: false, is_broadcast: false },
            MemorySize::Packed512_Int64 => MemorySizeInfo { size: 64, element_size: 8, memory_size: MemorySize::Packed512_Int64, element_type: MemorySize::Int64, is_signed: true, is_broadcast: false },
            MemorySize::Packed512_UInt128 => MemorySizeInfo { size: 64, element_size: 16, memory_size: MemorySize::Packed512_UInt128, element_type: MemorySize::UInt128, is_signed: false, is_broadcast: false },
            MemorySize::Packed512_Float32 => MemorySizeInfo { size: 64, element_size: 4, memory_size: MemorySize::Packed512_Float32, element_type: MemorySize::Float32, is_signed: true, is_broadcast: false },
            MemorySize::Packed512_Float64 => MemorySizeInfo { size: 64, element_size: 8, memory_size: MemorySize::Packed512_Float64, element_type: MemorySize::Float64, is_signed: true, is_broadcast: false },
            MemorySize::Packed512_2xBFloat16 => MemorySizeInfo { size: 64, element_size: 4, memory_size: MemorySize::Packed512_2xBFloat16, element_type: MemorySize::Packed32_BFloat16, is_signed: true, is_broadcast: false },
            MemorySize::Broadcast64_UInt32 => MemorySizeInfo { size: 4, element_size: 4, memory_size: MemorySize::Broadcast64_UInt32, element_type: MemorySize::UInt32, is_signed: false, is_broadcast: true },
            MemorySize::Broadcast64_Int32 => MemorySizeInfo { size: 4, element_size: 4, memory_size: MemorySize::Broadcast64_Int32, element_type: MemorySize::Int32, is_signed: true, is_broadcast: true },
            MemorySize::Broadcast64_Float32 => MemorySizeInfo { size: 4, element_size: 4, memory_size: MemorySize::Broadcast64_Float32, element_type: MemorySize::Float32, is_signed: true, is_broadcast: true },
            MemorySize::Broadcast128_UInt32 => MemorySizeInfo { size: 4, element_size: 4, memory_size: MemorySize::Broadcast128_UInt32, element_type: MemorySize::UInt32, is_signed: false, is_broadcast: true },
            MemorySize::Broadcast128_Int32 => MemorySizeInfo { size: 4, element_size: 4, memory_size: MemorySize::Broadcast128_Int32, element_type: MemorySize::Int32, is_signed: true, is_broadcast: true },
            MemorySize::Broadcast128_UInt52 => MemorySizeInfo { size: 8, element_size: 8, memory_size: MemorySize::Broadcast128_UInt52, element_type: MemorySize::UInt52, is_signed: false, is_broadcast: true },
            MemorySize::Broadcast128_UInt64 => MemorySizeInfo { size: 8, element_size: 8, memory_size: MemorySize::Broadcast128_UInt64, element_type: MemorySize::UInt64, is_signed: false, is_broadcast: true },
            MemorySize::Broadcast128_Int64 => MemorySizeInfo { size: 8, element_size: 8, memory_size: MemorySize::Broadcast128_Int64, element_type: MemorySize::Int64, is_signed: true, is_broadcast: true },
            MemorySize::Broadcast128_Float32 => MemorySizeInfo { size: 4, element_size: 4, memory_size: MemorySize::Broadcast128_Float32, element_type: MemorySize::Float32, is_signed: true, is_broadcast: true },
            MemorySize::Broadcast128_Float64 => MemorySizeInfo { size: 8, element_size: 8, memory_size: MemorySize::Broadcast128_Float64, element_type: MemorySize::Float64, is_signed: true, is_broadcast: true },
            MemorySize::Broadcast256_UInt32 => MemorySizeInfo { size: 4, element_size: 4, memory_size: MemorySize::Broadcast256_UInt32, element_type: MemorySize::UInt32, is_signed: false, is_broadcast: true },
            MemorySize::Broadcast256_Int32 => MemorySizeInfo { size: 4, element_size: 4, memory_size: MemorySize::Broadcast256_Int32, element_type: MemorySize::Int32, is_signed: true, is_broadcast: true },
            MemorySize::Broadcast256_UInt52 => MemorySizeInfo { size: 8, element_size: 8, memory_size: MemorySize::Broadcast256_UInt52, element_type: MemorySize::UInt52, is_signed: false, is_broadcast: true },
            MemorySize::Broadcast256_UInt64 => MemorySizeInfo { size: 8, element_size: 8, memory_size: MemorySize::Broadcast256_UInt64, element_type: MemorySize::UInt64, is_signed: false, is_broadcast: true },
            MemorySize::Broadcast256_Int64 => MemorySizeInfo { size: 8, element_size: 8, memory_size: MemorySize::Broadcast256_Int64, element_type: MemorySize::Int64, is_signed: true, is_broadcast: true },
            MemorySize::Broadcast256_Float32 => MemorySizeInfo { size: 4, element_size: 4, memory_size: MemorySize::Broadcast256_Float32, element_type: MemorySize::Float32, is_signed: true, is_broadcast: true },
            MemorySize::Broadcast256_Float64 => MemorySizeInfo { size: 8, element_size: 8, memory_size: MemorySize::Broadcast256_Float64, element_type: MemorySize::Float64, is_signed: true, is_broadcast: true },
            MemorySize::Broadcast512_UInt32 => MemorySizeInfo { size: 4, element_size: 4, memory_size: MemorySize::Broadcast512_UInt32, element_type: MemorySize::UInt32, is_signed: false, is_broadcast: true },
            MemorySize::Broadcast512_Int32 => MemorySizeInfo { size: 4, element_size: 4, memory_size: MemorySize::Broadcast512_Int32, element_type: MemorySize::Int32, is_signed: true, is_broadcast: true },
            MemorySize::Broadcast512_UInt52 => MemorySizeInfo { size: 8, element_size: 8, memory_size: MemorySize::Broadcast512_UInt52, element_type: MemorySize::UInt52, is_signed: false, is_broadcast: true },
            MemorySize::Broadcast512_UInt64 => MemorySizeInfo { size: 8, element_size: 8, memory_size: MemorySize::Broadcast512_UInt64, element_type: MemorySize::UInt64, is_signed: false, is_broadcast: true },
            MemorySize::Broadcast512_Int64 => MemorySizeInfo { size: 8, element_size: 8, memory_size: MemorySize::Broadcast512_Int64, element_type: MemorySize::Int64, is_signed: true, is_broadcast: true },
            MemorySize::Broadcast512_Float32 => MemorySizeInfo { size: 4, element_size: 4, memory_size: MemorySize::Broadcast512_Float32, element_type: MemorySize::Float32, is_signed: true, is_broadcast: true },
            MemorySize::Broadcast512_Float64 => MemorySizeInfo { size: 8, element_size: 8, memory_size: MemorySize::Broadcast512_Float64, element_type: MemorySize::Float64, is_signed: true, is_broadcast: true },
            MemorySize::Broadcast128_2xInt16 => MemorySizeInfo { size: 4, element_size: 2, memory_size: MemorySize::Broadcast128_2xInt16, element_type: MemorySize::Int16, is_signed: true, is_broadcast: true },
            MemorySize::Broadcast256_2xInt16 => MemorySizeInfo { size: 4, element_size: 2, memory_size: MemorySize::Broadcast256_2xInt16, element_type: MemorySize::Int16, is_signed: true, is_broadcast: true },
            MemorySize::Broadcast512_2xInt16 => MemorySizeInfo { size: 4, element_size: 2, memory_size: MemorySize::Broadcast512_2xInt16, element_type: MemorySize::Int16, is_signed: true, is_broadcast: true },
            MemorySize::Broadcast128_2xUInt32 => MemorySizeInfo { size: 8, element_size: 4, memory_size: MemorySize::Broadcast128_2xUInt32, element_type: MemorySize::UInt32, is_signed: false, is_broadcast: true },
            MemorySize::Broadcast256_2xUInt32 => MemorySizeInfo { size: 8, element_size: 4, memory_size: MemorySize::Broadcast256_2xUInt32, element_type: MemorySize::UInt32, is_signed: false, is_broadcast: true },
            MemorySize::Broadcast512_2xUInt32 => MemorySizeInfo { size: 8, element_size: 4, memory_size: MemorySize::Broadcast512_2xUInt32, element_type: MemorySize::UInt32, is_signed: false, is_broadcast: true },
            MemorySize::Broadcast128_2xInt32 => MemorySizeInfo { size: 8, element_size: 4, memory_size: MemorySize::Broadcast128_2xInt32, element_type: MemorySize::Int32, is_signed: true, is_broadcast: true },
            MemorySize::Broadcast256_2xInt32 => MemorySizeInfo { size: 8, element_size: 4, memory_size: MemorySize::Broadcast256_2xInt32, element_type: MemorySize::Int32, is_signed: true, is_broadcast: true },
            MemorySize::Broadcast512_2xInt32 => MemorySizeInfo { size: 8, element_size: 4, memory_size: MemorySize::Broadcast512_2xInt32, element_type: MemorySize::Int32, is_signed: true, is_broadcast: true },
            MemorySize::Broadcast128_2xBFloat16 => MemorySizeInfo { size: 4, element_size: 2, memory_size: MemorySize::Broadcast128_2xBFloat16, element_type: MemorySize::BFloat16, is_signed: true, is_broadcast: true },
            MemorySize::Broadcast256_2xBFloat16 => MemorySizeInfo { size: 4, element_size: 2, memory_size: MemorySize::Broadcast256_2xBFloat16, element_type: MemorySize::BFloat16, is_signed: true, is_broadcast: true },
            MemorySize::Broadcast512_2xBFloat16 => MemorySizeInfo { size: 4, element_size: 2, memory_size: MemorySize::Broadcast512_2xBFloat16, element_type: MemorySize::BFloat16, is_signed: true, is_broadcast: true },
        }
    }

    /// Returns the size in bytes of the memory location, or 0 if it is not
    /// accessed by the instruction, unknown, or variable sized.
    pub fn size(self) -> (r: i32)
        ensures
            r == self.spec_info().size,
    {
        self.info().size()
    }

    /// Returns the size in bytes of the packed element; equal to `size()` if
    /// it is not a packed data type.
    pub fn element_size(self) -> (r: i32)
        ensures
            r == self.spec_info().element_size,
    {
        self.info().element_size()
    }

    /// Returns the element type if it is packed data, or `self` if not.
    pub fn element_type(self) -> (r: MemorySize)
        ensures
            r == self.spec_info().element_type,
    {
        self.info().element_type()
    }

    /// Returns `true` if it is signed data (a signed integer or a floating
    /// point value).
    pub fn is_signed(self) -> (r: bool)
        ensures
            r == self.spec_info().is_signed,
    {
        self.info().is_signed()
    }

    /// Returns `true` if this is a packed data type, eg.
    /// `MemorySize::Packed128_Float32`.
    pub fn is_packed(self) -> (r: bool)
        ensures
            r == (self.spec_info().element_size < self.spec_info().size),
    {
        self.info().is_packed()
    }

    /// Returns the number of elements in the packed data type, or 1 if it is
    /// not packed data.
    pub fn element_count(self) -> (r: i32)
        ensures
            r == self.spec_info().spec_element_count(),
    {
        proof {
            self.lemma_info_wf();
        }
        self.info().element_count()
    }

    /// The table is internally consistent: for every value, the element size
    /// never exceeds the size, a strictly smaller element size is nonzero,
    /// the record names the value it describes, and the broadcast flag agrees
    /// with the ordinal threshold.
    pub proof fn lemma_info_wf(self)
        ensures
            self.spec_info().element_size <= self.spec_info().size,
            self.spec_info().element_size < self.spec_info().size ==> self.spec_info().element_size > 0,
            self.spec_info().memory_size == self,
            self.spec_info().is_broadcast == (self.spec_number() >= FIRST_BROADCAST_MEMORY_SIZE),
    {
    }

    /// Returns `true` if it is a broadcast memory type: a single ordinal
    /// comparison, since the broadcast sizes are a contiguous suffix of the
    /// enumeration.
    pub fn is_broadcast(self) -> (r: bool)
        ensures
            r == (self.spec_number() >= FIRST_BROADCAST_MEMORY_SIZE),
    {
        self.number() as u32 >= FIRST_BROADCAST_MEMORY_SIZE
    }
}

impl MemorySizeInfo {
    /// The number of elements in the packed data type, or 1 if it is not
    /// packed data. The element size can be 0, so no division happens when
    /// element size and size coincide.
    pub open spec fn spec_element_count(self) -> int {
        if self.element_size == self.size {
            1
        } else {
            self.size as int / self.element_size as int
        }
    }

    /// Returns the `MemorySize` value this info describes.
    pub fn memory_size(&self) -> (r: MemorySize)
        ensures
            r == self.memory_size,
    {
        self.memory_size
    }

    /// Returns the size in bytes of the memory location, or 0 if it is not
    /// accessed or unknown.
    pub fn size(&self) -> (r: i32)
        ensures
            r == self.size,
    {
        self.size as i32
    }

    /// Returns the size in bytes of the packed element; equal to `size()` if
    /// it is not a packed data type.
    pub fn element_size(&self) -> (r: i32)
        ensures
            r == self.element_size,
    {
        self.element_size as i32
    }

    /// Returns the element type if it is packed data, or the type itself if
    /// it is not packed data.
    pub fn element_type(&self) -> (r: MemorySize)
        ensures
            r == self.element_type,
    {
        self.element_type
    }

    /// Returns the info of the element type.
    pub fn element_type_info(&self) -> (r: MemorySizeInfo)
        ensures
            r == self.element_type.spec_info(),
    {
        self.element_type().info()
    }

    /// Returns `true` if it is signed data (a signed integer or a floating
    /// point value).
    pub fn is_signed(&self) -> (r: bool)
        ensures
            r == self.is_signed,
    {
        self.is_signed
    }

    /// Returns `true` if it is a broadcast memory type.
    pub fn is_broadcast(&self) -> (r: bool)
        ensures
            r == self.is_broadcast,
    {
        self.is_broadcast
    }

    /// Returns `true` if this is a packed data type, eg.
    /// `MemorySize::Packed128_Float32`. See also `element_count()`.
    pub fn is_packed(&self) -> (r: bool)
        ensures
            r == (self.element_size < self.size),
    {
        self.element_size < self.size
    }

    /// Returns the number of elements in the packed data type, or 1 if it is
    /// not packed data (`is_packed()`).
    pub fn element_count(&self) -> (r: i32)
        requires
            self.element_size < self.size ==> self.element_size > 0,
        ensures
            r == self.spec_element_count(),
    {
        if self.element_size == self.size {
            1
        } else {
            self.size as i32 / self.element_size as i32
        }
    }
}

} // verus!
