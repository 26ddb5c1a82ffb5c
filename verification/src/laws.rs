//! Cross-cutting laws of the instruction model, each stated over the
//! abstract state that the accessor contracts use.
//!
//! The setter contracts pin the state after a call and the getter contracts
//! pin what is read from a state, so each law here composes to a statement
//! about call sequences: what a getter returns after the matching setter
//! ran, that equality ignores only the bookkeeping fields, and that the
//! defensive bucketing of the memory encodings is idempotent.
use crate::code::Code;
use crate::code_size::CodeSize;
use crate::instruction::hi_lo64;
use crate::instruction::sext32bits64;
use crate::instruction::sext32to64;
use crate::instruction::sext8bits32;
use crate::instruction::sext8to16;
use crate::instruction::sext8to32;
use crate::instruction::sext8to64;
use crate::instruction::spec_decode_displ_size;
use crate::instruction::spec_decode_scale;
use crate::instruction::spec_encode_displ_size;
use crate::instruction::spec_encode_scale;
use crate::instruction::spec_immediate;
use crate::instruction::spec_opmask_reg;
use crate::instruction::spec_segment_prefix_reg;
use crate::instruction::spec_with_immediate;
use crate::instruction::InstrFields;
use crate::memory_size::MemorySize;
use crate::op_kind::OpKind;
use crate::register::Register;
use crate::rounding_control::RoundingControl;
use vstd::prelude::*;

verus! {

/// Splitting a 64-bit value into its halves and reassembling them yields
/// the value: storing a 64-bit immediate, address or branch target and
/// reading it back returns it exactly.
pub proof fn lemma_split64_roundtrip(v: u64)
    ensures
        hi_lo64((v >> 32) as u32, v as u32) == v,
{
    assert(((((v >> 32) as u32) as u64) << 32) | ((v as u32) as u64) == v) by (bit_vector);
}

/// Reassembling two halves and splitting again yields the halves: reading
/// a 64-bit value and storing it back leaves the state unchanged.
pub proof fn lemma_split64_inverse(hi: u32, lo: u32)
    ensures
        (hi_lo64(hi, lo) >> 32) as u32 == hi,
        hi_lo64(hi, lo) as u32 == lo,
{
    assert(((((hi as u64) << 32) | (lo as u64)) >> 32) as u32 == hi) by (bit_vector);
    assert((((hi as u64) << 32) | (lo as u64)) as u32 == lo) by (bit_vector);
}

/// The low byte of a sign extended byte pattern is the byte itself:
/// storing a sign-extending 8-bit immediate keeps the byte recoverable.
pub proof fn lemma_sext8bits32_low_byte(b: u8)
    ensures
        sext8bits32(b) as u8 == b,
{
    if b >= 0x80 {
        assert((0xFFFF_FF00u32 | (b as u32)) as u8 == b) by (bit_vector);
    }
}

/// The low dword of a sign extended dword pattern is the dword itself.
pub proof fn lemma_sext32bits64_low_dword(d: u32)
    ensures
        sext32bits64(d) as u64 as u32 == d,
{
    if d >= 0x8000_0000 {
        assert((0xFFFF_FFFF_0000_0000u64 | (d as u64)) as u32 == d) by (bit_vector);
    }
}

/// Sign extension of the low byte of an 8-bit-representable value yields
/// the value: an `Immediate8to16` round-trips for every value in its
/// domain.
pub proof fn lemma_sext8to16_roundtrip(v: i16)
    requires
        -128 <= v <= 127,
    ensures
        sext8to16(v as u8) == v,
{
    assert(v < 0 ==> v as u8 == v + 0x100) by (bit_vector)
        requires
            -128 <= v <= 127,
    ;
}

/// Sign extension of the low byte of an 8-bit-representable value yields
/// the value: an `Immediate8to32` round-trips for every value in its
/// domain.
pub proof fn lemma_sext8to32_roundtrip(v: i32)
    requires
        -128 <= v <= 127,
    ensures
        sext8to32(v as u8) == v,
{
    assert(v < 0 ==> v as u8 == v + 0x100) by (bit_vector)
        requires
            -128 <= v <= 127,
    ;
}

/// Sign extension of the low byte of an 8-bit-representable value yields
/// the value: an `Immediate8to64` round-trips for every value in its
/// domain.
pub proof fn lemma_sext8to64_roundtrip(v: i64)
    requires
        -128 <= v <= 127,
    ensures
        sext8to64(v as u8) == v,
{
    assert(v < 0 ==> v as u8 == v + 0x100) by (bit_vector)
        requires
            -128 <= v <= 127,
    ;
}

/// Sign extension of the low dword of a 32-bit-representable value yields
/// the value: an `Immediate32to64` round-trips for every value in its
/// domain.
pub proof fn lemma_sext32to64_roundtrip(v: i64)
    requires
        -0x8000_0000 <= v <= 0x7FFF_FFFF,
    ensures
        sext32to64(v as u32) == v,
{
    assert(v < 0 ==> v as u32 == v + 0x1_0000_0000) by (bit_vector)
        requires
            -0x8000_0000 <= v <= 0x7FFF_FFFF,
    ;
}

/// Storing an instruction length and reading it back yields the length,
/// for every length the 4-bit field can hold.
pub proof fn lemma_len_roundtrip(v: i32)
    requires
        0 <= v <= 15,
    ensures
        ((v as u32) & 0xF) as u8 == v,
{
    assert(0 <= v <= 15 ==> ((v as u32) & 0xF) as u8 == v) by (bit_vector);
}

/// Structural equality ignores bookkeeping: two states identical except
/// for the stored length and code size normalize to the same state, yet
/// differ as whole states whenever the lengths differ. With the contracts
/// of `eq` and `eq_all_bits`, two such instructions compare equal under
/// `==` and unequal under `eq_all_bits`.
pub proof fn lemma_eq_ignores_bookkeeping(f: InstrFields, l1: u8, c1: u8, l2: u8, c2: u8)
    ensures
        (InstrFields { instr_len: l1, code_size: c1, ..f }).normalized() == (InstrFields {
            instr_len: l2,
            code_size: c2,
            ..f
        }).normalized(),
        l1 != l2 ==> (InstrFields { instr_len: l1, code_size: c1, ..f }) != (InstrFields {
            instr_len: l2,
            code_size: c2,
            ..f
        }),
{
}

/// Independence: each setter contract replaces exactly one field of the
/// state, so setting one field never perturbs another stored in disjoint
/// bits. Spelled out for the prefix flags named by the scenario: setting
/// the REPE flag preserves the LOCK flag.
pub proof fn lemma_prefix_independence(f: InstrFields, a: bool, b: bool)
    ensures
        (InstrFields { repe: b, ..(InstrFields { lock_prefix: a, ..f }) }).lock_prefix == a,
        (InstrFields { repe: b, ..(InstrFields { lock_prefix: a, ..f }) }).repe == b,
{
}

/// Displacement size round-trip with bucketing: the sizes 0, 1, 2, 4 and 8
/// survive a store-and-load exactly, and every other size is bucketed so
/// that the loaded value is always one of the five valid sizes.
pub proof fn lemma_displ_size_bucketing(v: i32)
    ensures
        v == 0 || v == 1 || v == 2 || v == 4 || v == 8 ==> spec_decode_displ_size(
            spec_encode_displ_size(v),
        ) == v,
        spec_decode_displ_size(spec_encode_displ_size(v)) == 0 || spec_decode_displ_size(
            spec_encode_displ_size(v),
        ) == 1 || spec_decode_displ_size(spec_encode_displ_size(v)) == 2 || spec_decode_displ_size(
            spec_encode_displ_size(v),
        ) == 4 || spec_decode_displ_size(spec_encode_displ_size(v)) == 8,
{
}

/// Scale round-trip with bucketing: the factors 1, 2, 4 and 8 survive a
/// store-and-load exactly, and every other factor is bucketed so that the
/// loaded value is always one of the four valid factors.
pub proof fn lemma_scale_bucketing(v: i32)
    ensures
        v == 1 || v == 2 || v == 4 || v == 8 ==> spec_decode_scale(spec_encode_scale(v)) == v,
        spec_decode_scale(spec_encode_scale(v)) == 1 || spec_decode_scale(spec_encode_scale(v))
            == 2 || spec_decode_scale(spec_encode_scale(v)) == 4 || spec_decode_scale(
            spec_encode_scale(v),
        ) == 8,
{
}

/// Setting the IP and reading it back yields the value, for any stored
/// length: the wrapping subtraction undoes the wrapping addition.
pub proof fn lemma_ip_roundtrip(v: u64, len: u8)
    ensures
        vstd::wrapping::u64_specs::wrapping_sub(
            vstd::wrapping::u64_specs::wrapping_add(v, len as u64),
            len as u64,
        ) == v,
{
}

/// Setting a segment override and reading it back yields the register,
/// for `None_` and for each segment register `ES`-`GS`.
pub proof fn lemma_segment_prefix_roundtrip(r: Register)
    requires
        r == Register::None_ || (71 <= r.spec_number() && r.spec_number() <= 76),
    ensures
        r == Register::None_ ==> spec_segment_prefix_reg(0) == Register::None_,
        r != Register::None_ ==> spec_segment_prefix_reg((r.spec_number() - 70) as u8) == r,
{
    if r != Register::None_ {
        r.lemma_number_roundtrip();
    }
}

/// Setting an opmask register and reading it back yields the register,
/// for `None_` and for each mask register `K1`-`K7`; `K0` stores the same
/// selector as `None_` and reads back as `None_`.
pub proof fn lemma_opmask_roundtrip(r: Register)
    requires
        174 <= r.spec_number() && r.spec_number() <= 180,
    ensures
        spec_opmask_reg((r.spec_number() - 173) as u8) == r,
{
    r.lemma_number_roundtrip();
}

/// Memory size table consistency: for every memory size, the element size
/// never exceeds the size; the shape is packed exactly when the element
/// size is strictly smaller; every non-packed shape has element count 1;
/// the table row names the size it describes; and the broadcast flag holds
/// exactly of the sizes at or after the first broadcast ordinal.
pub proof fn lemma_memory_size_table_consistency()
    ensures
        forall|m: MemorySize| #[trigger] m.spec_info().element_size <= m.spec_info().size,
        forall|m: MemorySize|
            (#[trigger] m.spec_info().element_size == m.spec_info().size)
                ==> m.spec_info().spec_element_count() == 1,
        forall|m: MemorySize| #[trigger] m.spec_info().memory_size == m,
        forall|m: MemorySize| #[trigger] m.spec_info().is_broadcast == (m.spec_number()
            >= crate::memory_size::FIRST_BROADCAST_MEMORY_SIZE),
{
    assert forall|m: MemorySize| #[trigger] m.spec_info().element_size <= m.spec_info().size by {
        m.lemma_info_wf();
    }
    assert forall|m: MemorySize| #[trigger] m.spec_info().memory_size == m by {
        m.lemma_info_wf();
    }
    assert forall|m: MemorySize| #[trigger] m.spec_info().is_broadcast == (m.spec_number()
        >= crate::memory_size::FIRST_BROADCAST_MEMORY_SIZE) by {
        m.lemma_info_wf();
    }
}

/// Register arithmetic stays within the enumeration: shifting any register
/// by any in-range delta lands on the register with exactly the shifted
/// ordinal, and the shifted ordinal determines the register uniquely. With
/// the precondition of `Register::add`, stepping outside the enumeration
/// is impossible rather than wrapping.
pub proof fn lemma_register_step_exact(r: Register, delta: u32)
    requires
        r.spec_number() + delta < crate::register::NUMBER_OF_REGISTERS,
    ensures
        Register::spec_from_number((r.spec_number() + delta) as u8).spec_number()
            == r.spec_number() + delta,
{
    Register::lemma_from_number_roundtrip((r.spec_number() + delta) as u8);
}

proof fn lemma_u32_byte_insert_extract(x: u32, v: u8)
    by (bit_vector)
    ensures
        ((x & 0xFFFF_FF00) | (v as u32)) as u8 == v,
        ((((x & 0xFFFF_00FF) | ((v as u32) << 8)) >> 8) as u8) == v,
        ((((x & 0xFF00_FFFF) | ((v as u32) << 16)) >> 16) as u8) == v,
        ((((x & 0x00FF_FFFF) | ((v as u32) << 24)) >> 24) as u8) == v,
{
}

proof fn lemma_u8_opkind_bytes(b: u8, d: u8, v: u8)
    by (bit_vector)
    ensures
        ((v & 0x1F) & 0x1F) | (((((b & 0x18) | (v >> 5))) & 0x7) << 5) == v,
        (((((b & 0x7) | ((v & 0x3) << 3))) >> 3) & 0x3) | ((((v >> 2) & 0x1F) & 0x1F) << 2) | ((((
        (d & 0x1E) | (v >> 7))) & 0x1) << 7) == v,
{
}

proof fn lemma_u32_word_insert_extract(x: u32, v: u16)
    by (bit_vector)
    ensures
        ((x & 0xFFFF_0000) | (v as u32)) as u16 == v,
        ((((x & 0x0000_FFFF) | ((v as u32) << 16)) >> 16) as u16) == v,
{
}

proof fn lemma_u16_from_bytes(v: u16)
    by (bit_vector)
    ensures
        ((v as u8) as u16) | ((((v >> 8) as u8) as u16) << 8) == v,
{
}

proof fn lemma_u16_opkind_word(d: u8, v: u16)
    by (bit_vector)
    ensures
        (((((v & 0x1F) as u8) & 0x1F) as u16) | (((((((v >> 5) & 0x1F) as u8)) & 0x1F) as u16)
            << 5) | (((((((v >> 10) & 0x1F) as u8)) & 0x1F) as u16) << 10) | (((((d & 0x1E) | ((v
            >> 15) as u8)) & 0x1) as u16) << 15)) == v,
{
}

proof fn lemma_u32_from_bytes(v: u32)
    by (bit_vector)
    ensures
        ((v as u8) as u32) | ((((v >> 8) as u8) as u32) << 8) | ((((v >> 16) as u8) as u32) << 16)
            | ((((v >> 24) as u8) as u32) << 24) == v,
{
}

proof fn lemma_u32_opkind_dword(d: u8, v: u32)
    by (bit_vector)
    ensures
        (((v as u8) as u32) | ((((v >> 8) as u8) as u32) << 8) | (((((((v >> 16) & 0x1F) as u8))
            & 0x1F) as u32) << 16) | (((((((v >> 21) & 0x1F) as u8)) & 0x1F) as u32) << 21) | ((((((
        (v >> 26) & 0x1F) as u8)) & 0x1F) as u32) << 26) | (((((d & 0x1E) | ((v >> 31) as u8))
            & 0x1) as u32) << 31)) == v,
{
}

proof fn lemma_u64_qword0(v: u64)
    by (bit_vector)
    ensures
        (((v as u8) as u64) | ((((v >> 8) as u8) as u64) << 8) | ((((v >> 16) as u8) as u64) << 16)
            | ((((v >> 24) as u8) as u64) << 24) | ((((v >> 32) as u32) as u64) << 32)) == v,
{
}

proof fn lemma_u64_qword1(d: u8, v: u64)
    by (bit_vector)
    ensures
        (((v as u32) as u64) | ((((v >> 32) as u8) as u64) << 32) | ((((v >> 40) as u8) as u64)
            << 40) | (((((((v >> 48) & 0x1F) as u8)) & 0x1F) as u64) << 48) | (((((((v >> 53)
            & 0x1F) as u8)) & 0x1F) as u64) << 53) | (((((((v >> 58) & 0x1F) as u8)) & 0x1F) as u64)
            << 58) | (((((d & 0x1E) | ((v >> 63) as u8)) & 0x1) as u64) << 63)) == v,
{
}

/// Declare-data byte round-trip: storing any byte at any index of the
/// payload and reading the same index back yields the byte.
pub proof fn lemma_declare_byte_roundtrip(f: InstrFields, index: int, v: u8)
    requires
        0 <= index <= 15,
    ensures
        f.with_declare_byte(index, v).declare_byte_at(index) == v,
{
    lemma_u32_byte_insert_extract(f.immediate, v);
    lemma_u32_byte_insert_extract(f.mem_displ, v);
    lemma_u8_opkind_bytes(f.op1_kind, f.op3_kind, v);
}

/// Declare-data word round-trip: storing any word at any index of the
/// payload and reading the same index back yields the word.
pub proof fn lemma_declare_word_roundtrip(f: InstrFields, index: int, v: u16)
    requires
        0 <= index <= 7,
    ensures
        f.with_declare_word(index, v).declare_word_at(index) == v,
{
    lemma_u32_word_insert_extract(f.immediate, v);
    lemma_u32_word_insert_extract(f.mem_displ, v);
    lemma_u16_from_bytes(v);
    lemma_u16_opkind_word(f.op3_kind, v);
}

/// Declare-data dword round-trip: storing any dword at any index of the
/// payload and reading the same index back yields the dword.
pub proof fn lemma_declare_dword_roundtrip(f: InstrFields, index: int, v: u32)
    requires
        0 <= index <= 3,
    ensures
        f.with_declare_dword(index, v).declare_dword_at(index) == v,
{
    lemma_u32_from_bytes(v);
    lemma_u32_opkind_dword(f.op3_kind, v);
}

/// Declare-data qword round-trip: storing any qword at either index of
/// the payload and reading the same index back yields the qword.
pub proof fn lemma_declare_qword_roundtrip(f: InstrFields, index: int, v: u64)
    requires
        0 <= index <= 1,
    ensures
        f.with_declare_qword(index, v).declare_qword_at(index) == v,
{
    lemma_u64_qword0(v);
    lemma_u64_qword1(f.op3_kind, v);
}

/// The 64-bit pattern of a byte sign extended to 64 bits.
pub open spec fn sext8pattern64(b: u8) -> u64 {
    if b < 0x80 {
        b as u64
    } else {
        0xFFFF_FFFF_FFFF_FF00u64 | (b as u64)
    }
}

/// The 64-bit pattern of a dword sign extended to 64 bits.
pub open spec fn sext32pattern64(d: u32) -> u64 {
    if d < 0x8000_0000 {
        d as u64
    } else {
        0xFFFF_FFFF_0000_0000u64 | (d as u64)
    }
}

/// Widening a sign extended byte to 64 bits gives the same pattern at
/// every intermediate width: the three sign-extending 8-bit operand kinds
/// agree once widened.
pub proof fn lemma_sext8_widening_agrees(b: u8)
    ensures
        sext8to16(b) as u64 == sext8pattern64(b),
        sext8to32(b) as u64 == sext8pattern64(b),
        sext8to64(b) as u64 == sext8pattern64(b),
{
    if b >= 0x80 {
        let w16: i16 = sext8to16(b);
        let w32: i32 = sext8to32(b);
        let w64: i64 = sext8to64(b);
        assert(w16 as u64 == 0xFFFF_FFFF_FFFF_FF00u64 | (b as u64)) by (bit_vector)
            requires
                w16 == (b as i16) - 0x100,
                b >= 0x80,
        ;
        assert(w32 as u64 == 0xFFFF_FFFF_FFFF_FF00u64 | (b as u64)) by (bit_vector)
            requires
                w32 == (b as i32) - 0x100,
                b >= 0x80,
        ;
        assert(w64 as u64 == 0xFFFF_FFFF_FFFF_FF00u64 | (b as u64)) by (bit_vector)
            requires
                w64 == (b as i64) - 0x100,
                b >= 0x80,
        ;
    }
}

/// Widening a sign extended dword to 64 bits gives the sign extended
/// pattern.
pub proof fn lemma_sext32_widening(d: u32)
    ensures
        sext32to64(d) as u64 == sext32pattern64(d),
{
    if d >= 0x8000_0000 {
        let w: i64 = sext32to64(d);
        assert(w as u64 == 0xFFFF_FFFF_0000_0000u64 | (d as u64)) by (bit_vector)
            requires
                w == (d as i64) - 0x1_0000_0000,
                d >= 0x8000_0000,
        ;
    }
}

/// Which 64-bit values an operand kind can represent: every value whose
/// widened pattern survives the kind's narrowing.
pub open spec fn spec_immediate_fits(k: OpKind, v: u64) -> bool {
    match k {
        OpKind::Immediate8 => v <= 0xFF,
        OpKind::Immediate8_2nd => v <= 0xFF,
        OpKind::Immediate16 => v <= 0xFFFF,
        OpKind::Immediate32 => v <= 0xFFFF_FFFF,
        OpKind::Immediate64 => true,
        OpKind::Immediate8to16 => v == sext8pattern64(v as u8),
        OpKind::Immediate8to32 => v == sext8pattern64(v as u8),
        OpKind::Immediate8to64 => v == sext8pattern64(v as u8),
        OpKind::Immediate32to64 => v == sext32pattern64(v as u32),
        _ => false,
    }
}

/// Immediate dispatch round-trip: for every immediate operand kind and
/// every value representable in that kind's domain, storing the value
/// through the dispatcher and reading it back through the dispatcher
/// yields the value exactly.
pub proof fn lemma_immediate_dispatch_roundtrip(f: InstrFields, operand: int, v: u64)
    requires
        spec_immediate_fits(OpKind::spec_from_number(f.op_kind_at(operand)), v),
    ensures
        spec_immediate(spec_with_immediate(f, operand, v), operand) == v,
{
    let k = OpKind::spec_from_number(f.op_kind_at(operand));
    if k == OpKind::Immediate64 {
        lemma_split64_roundtrip(v);
    } else if k == OpKind::Immediate8to16 || k == OpKind::Immediate8to32 || k
        == OpKind::Immediate8to64 {
        assert((((v as u8) as u32) as u8) == v as u8);
        lemma_sext8_widening_agrees(v as u8);
    } else if k == OpKind::Immediate32to64 {
        lemma_sext32_widening(v as u32);
    }
}

/// Narrow payload round-trip: storing an 8, 16 or 32-bit payload value
/// (immediate, branch target, far-branch selector or displacement) and
/// reading it back through the matching accessor yields the value.
pub proof fn lemma_narrow_payload_roundtrip(f: InstrFields, v8: u8, v16: u16, v32: u32)
    ensures
        (InstrFields { immediate: v8 as u32, ..f }).immediate as u8 == v8,
        (InstrFields { mem_displ: v8 as u32, ..f }).mem_displ as u8 == v8,
        (InstrFields { immediate: v16 as u32, ..f }).immediate as u16 == v16,
        (InstrFields { mem_displ: v16 as u32, ..f }).mem_displ as u16 == v16,
        (InstrFields { immediate: v32, ..f }).immediate == v32,
        (InstrFields { mem_displ: v32, ..f }).mem_displ == v32,
{
}

/// Register slot round-trip: storing any register in any operand slot, the
/// base slot or the index slot and reading it back yields the register.
pub proof fn lemma_register_slot_roundtrip(f: InstrFields, r: Register)
    ensures
        Register::spec_from_number((InstrFields { reg0: r.spec_number(), ..f }).reg0) == r,
        Register::spec_from_number((InstrFields { mem_base: r.spec_number(), ..f }).mem_base) == r,
        Register::spec_from_number(
            (InstrFields { mem_index: r.spec_number(), ..f }).mem_index,
        ) == r,
{
    r.lemma_number_roundtrip();
}

/// Operand kind slot round-trip: storing any kind in any operand slot and
/// reading it back yields the kind.
pub proof fn lemma_op_kind_slot_roundtrip(f: InstrFields, k: OpKind, operand: int)
    requires
        0 <= operand <= 3,
    ensures
        OpKind::spec_from_number(
            f.with_op_kind_at(operand, k.spec_number()).op_kind_at(operand),
        ) == k,
{
    k.lemma_number_roundtrip();
}

/// Identity round-trip: storing any code, code size or rounding control
/// and reading it back yields the value.
pub proof fn lemma_identity_roundtrip(f: InstrFields, c: Code, cs: CodeSize, rc: RoundingControl)
    ensures
        Code::spec_from_number((InstrFields { code: c.spec_number(), ..f }).code) == c,
        CodeSize::spec_from_number(
            (InstrFields { code_size: cs.spec_number(), ..f }).code_size,
        ) == cs,
        RoundingControl::spec_from_number(
            (InstrFields { rounding_control: rc.spec_number(), ..f }).rounding_control,
        ) == rc,
{
    c.lemma_number_roundtrip();
    cs.lemma_number_roundtrip();
    rc.lemma_number_roundtrip();
}

} // verus!
