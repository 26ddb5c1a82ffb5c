//! The central instruction value type.
//!
//! An [`Instruction`] is a small, fixed-size, freely copyable record
//! representing one machine instruction: its code, length, prefixes, up to
//! five operand kinds, the shared immediate/displacement payload pair, the
//! memory addressing fields, the EVEX decoration (opmask, masking mode,
//! rounding, suppress-all-exceptions), and the raw payload of declare-data
//! directives.
//!
//! The state is the set of sub-fields of the packed encoding, each held as a
//! plain small integer or flag; [`InstrFields`] is the abstract view of that
//! state that every contract speaks of. The 32-bit `immediate` and
//! `mem_displ` payload pair is shared by every operand interpretation: which
//! reading is meaningful is selected by the operand kind stored alongside it,
//! exactly one interpretation being active at a time. The declare-data
//! accessors view the register slots, the payload pair, the base/index bytes
//! and the operand-kind bits as one flat byte array, per the packed layout
//! documented at each accessor.
use crate::code::Code;
use crate::code::Mnemonic;
use crate::code_size::CodeSize;
use crate::memory_size::MemorySize;
use crate::op_kind::OpKind;
use crate::register::Register;
use crate::rounding_control::RoundingControl;
use vstd::prelude::*;

verus! {

/// The abstract state of one instruction: every sub-field of the packed
/// encoding as a plain value. Contracts of `Instruction` methods are stated
/// over this view.
pub struct InstrFields {
    /// Address immediately following the instruction.
    pub next_rip: u64,
    /// `Code` ordinal (13 bits in the packed encoding).
    pub code: u16,
    /// `RoundingControl` ordinal (3 bits).
    pub rounding_control: u8,
    /// Opmask register selector: 0 for none, else 1-7 for `K1`-`K7` (3 bits).
    pub opmask_sel: u8,
    /// Instruction length in bytes, 0-15 (4 bits); informational only.
    pub instr_len: u8,
    /// Suppress-all-exceptions flag.
    pub sae: bool,
    /// Zeroing-masking flag; cleared means merging-masking.
    pub zeroing: bool,
    /// XACQUIRE prefix flag.
    pub xacquire: bool,
    /// XRELEASE prefix flag.
    pub xrelease: bool,
    /// REPE/REP prefix flag.
    pub repe: bool,
    /// REPNE prefix flag.
    pub repne: bool,
    /// LOCK prefix flag.
    pub lock_prefix: bool,
    /// Operand 0 `OpKind` ordinal (5 bits).
    pub op0_kind: u8,
    /// Operand 1 `OpKind` ordinal (5 bits).
    pub op1_kind: u8,
    /// Operand 2 `OpKind` ordinal (5 bits).
    pub op2_kind: u8,
    /// Operand 3 `OpKind` ordinal (5 bits).
    pub op3_kind: u8,
    /// Declare-data element count minus one (4 bits).
    pub data_len: u8,
    /// `CodeSize` ordinal (2 bits); informational only.
    pub code_size: u8,
    /// Primary 32-bit payload: immediate, or low half of a 64-bit value.
    pub immediate: u32,
    /// Secondary 32-bit payload: memory displacement, high half of a 64-bit
    /// value, far-branch selector, or second 8-bit immediate.
    pub mem_displ: u32,
    /// Index register scale shift: 0-3 for x1/x2/x4/x8 (2 bits).
    pub scale: u8,
    /// Displacement size class: 0, 1, 2, 3 (4 bytes), 4 (8 bytes) (3 bits).
    pub displ_size: u8,
    /// Segment override selector: 0 for none, else 1-6 for `ES`-`GS` (3 bits).
    pub segment_prefix: u8,
    /// Broadcast flag (EVEX instructions only).
    pub broadcast: bool,
    /// Memory base register ordinal.
    pub mem_base: u8,
    /// Memory index register ordinal.
    pub mem_index: u8,
    /// Register ordinal of operand 0.
    pub reg0: u8,
    /// Register ordinal of operand 1.
    pub reg1: u8,
    /// Register ordinal of operand 2.
    pub reg2: u8,
    /// Register ordinal of operand 3.
    pub reg3: u8,
}

/// Sign extension of a byte to 16 bits.
pub open spec fn sext8to16(b: u8) -> i16 {
    if b < 0x80 {
        b as i16
    } else {
        ((b as int) - 0x100) as i16
    }
}

/// Sign extension of a byte to 32 bits.
pub open spec fn sext8to32(b: u8) -> i32 {
    if b < 0x80 {
        b as i32
    } else {
        ((b as int) - 0x100) as i32
    }
}

/// Sign extension of a byte to 64 bits.
pub open spec fn sext8to64(b: u8) -> i64 {
    if b < 0x80 {
        b as i64
    } else {
        ((b as int) - 0x100) as i64
    }
}

/// Sign extension of a 32-bit value to 64 bits.
pub open spec fn sext32to64(d: u32) -> i64 {
    if d < 0x8000_0000 {
        d as i64
    } else {
        ((d as int) - 0x1_0000_0000) as i64
    }
}

/// The 32-bit pattern of a byte sign extended to 32 bits.
pub open spec fn sext8bits32(b: u8) -> u32 {
    if b < 0x80 {
        b as u32
    } else {
        0xFFFF_FF00u32 | (b as u32)
    }
}

/// The 64-bit pattern of a 32-bit value sign extended to 64 bits.
pub open spec fn sext32bits64(d: u32) -> u64 {
    if d < 0x8000_0000 {
        d as u64
    } else {
        0xFFFF_FFFF_0000_0000u64 | (d as u64)
    }
}

/// A 64-bit value assembled from its high and low 32-bit halves.
pub open spec fn hi_lo64(hi: u32, lo: u32) -> u64 {
    ((hi as u64) << 32) | (lo as u64)
}

impl InstrFields {
    /// The all-zero state of a freshly created instruction: code `INVALID`,
    /// every operand kind `Register`, every register `None_`.
    pub open spec fn empty() -> InstrFields {
        InstrFields {
            next_rip: 0,
            code: 0,
            rounding_control: 0,
            opmask_sel: 0,
            instr_len: 0,
            sae: false,
            zeroing: false,
            xacquire: false,
            xrelease: false,
            repe: false,
            repne: false,
            lock_prefix: false,
            op0_kind: 0,
            op1_kind: 0,
            op2_kind: 0,
            op3_kind: 0,
            data_len: 0,
            code_size: 0,
            immediate: 0,
            mem_displ: 0,
            scale: 0,
            displ_size: 0,
            segment_prefix: 0,
            broadcast: false,
            mem_base: 0,
            mem_index: 0,
            reg0: 0,
            reg1: 0,
            reg2: 0,
            reg3: 0,
        }
    }

    /// This state with the two bookkeeping fields (stored length and code
    /// size) cleared: the part of the state that structural equality
    /// compares.
    pub open spec fn normalized(self) -> InstrFields {
        InstrFields { instr_len: 0, code_size: 0, ..self }
    }

    /// The `OpKind` ordinal of operand 0-4; operand 4's kind is fixed to
    /// `Immediate8` (ordinal 6).
    pub open spec fn op_kind_at(self, operand: int) -> u8 {
        if operand == 0 {
            self.op0_kind
        } else if operand == 1 {
            self.op1_kind
        } else if operand == 2 {
            self.op2_kind
        } else if operand == 3 {
            self.op3_kind
        } else {
            6
        }
    }

    /// This state with the `OpKind` ordinal of operand 0-3 replaced; operand
    /// 4's kind is read-only, so the state is unchanged there.
    pub open spec fn with_op_kind_at(self, operand: int, k: u8) -> InstrFields {
        if operand == 0 {
            InstrFields { op0_kind: k, ..self }
        } else if operand == 1 {
            InstrFields { op1_kind: k, ..self }
        } else if operand == 2 {
            InstrFields { op2_kind: k, ..self }
        } else if operand == 3 {
            InstrFields { op3_kind: k, ..self }
        } else {
            self
        }
    }

    /// The register ordinal of operand 0-4; operand 4's register is fixed to
    /// `None_` (ordinal 0).
    pub open spec fn reg_at(self, operand: int) -> u8 {
        if operand == 0 {
            self.reg0
        } else if operand == 1 {
            self.reg1
        } else if operand == 2 {
            self.reg2
        } else if operand == 3 {
            self.reg3
        } else {
            0
        }
    }

    /// This state with the register ordinal of operand 0-3 replaced; operand
    /// 4's register is read-only, so the state is unchanged there.
    pub open spec fn with_reg_at(self, operand: int, r: u8) -> InstrFields {
        if operand == 0 {
            InstrFields { reg0: r, ..self }
        } else if operand == 1 {
            InstrFields { reg1: r, ..self }
        } else if operand == 2 {
            InstrFields { reg2: r, ..self }
        } else if operand == 3 {
            InstrFields { reg3: r, ..self }
        } else {
            self
        }
    }
}

/// A 16/32/64-bit x86 instruction: a fixed-size value with no heap
/// allocation, created empty or populated field by field by a decoder,
/// encoder or builder.
#[derive(Copy, Clone, Debug)]
pub struct Instruction {
    next_rip: u64,
    code: u16,
    rounding_control: u8,
    opmask_sel: u8,
    instr_len: u8,
    sae: bool,
    zeroing: bool,
    xacquire: bool,
    xrelease: bool,
    repe: bool,
    repne: bool,
    lock_prefix: bool,
    op0_kind: u8,
    op1_kind: u8,
    op2_kind: u8,
    op3_kind: u8,
    data_len: u8,
    code_size: u8,
    immediate: u32,
    mem_displ: u32,
    scale: u8,
    displ_size: u8,
    segment_prefix: u8,
    broadcast: bool,
    mem_base: u8,
    mem_index: u8,
    reg0: u8,
    reg1: u8,
    reg2: u8,
    reg3: u8,
}

impl View for Instruction {
    type V = InstrFields;

    closed spec fn view(&self) -> InstrFields {
        InstrFields {
            next_rip: self.next_rip,
            code: self.code,
            rounding_control: self.rounding_control,
            opmask_sel: self.opmask_sel,
            instr_len: self.instr_len,
            sae: self.sae,
            zeroing: self.zeroing,
            xacquire: self.xacquire,
            xrelease: self.xrelease,
            repe: self.repe,
            repne: self.repne,
            lock_prefix: self.lock_prefix,
            op0_kind: self.op0_kind,
            op1_kind: self.op1_kind,
            op2_kind: self.op2_kind,
            op3_kind: self.op3_kind,
            data_len: self.data_len,
            code_size: self.code_size,
            immediate: self.immediate,
            mem_displ: self.mem_displ,
            scale: self.scale,
            displ_size: self.displ_size,
            segment_prefix: self.segment_prefix,
            broadcast: self.broadcast,
            mem_base: self.mem_base,
            mem_index: self.mem_index,
            reg0: self.reg0,
            reg1: self.reg1,
            reg2: self.reg2,
            reg3: self.reg3,
        }
    }
}

impl Instruction {
    /// Creates an empty instruction: all fields cleared, so the code is
    /// `INVALID`, every operand kind is `Register`, and every register is
    /// `None_`.
    pub fn new() -> (r: Self)
        ensures
            r@ == InstrFields::empty(),
    {
        Instruction {
            next_rip: 0,
            code: 0,
            rounding_control: 0,
            opmask_sel: 0,
            instr_len: 0,
            sae: false,
            zeroing: false,
            xacquire: false,
            xrelease: false,
            repe: false,
            repne: false,
            lock_prefix: false,
            op0_kind: 0,
            op1_kind: 0,
            op2_kind: 0,
            op3_kind: 0,
            data_len: 0,
            code_size: 0,
            immediate: 0,
            mem_displ: 0,
            scale: 0,
            displ_size: 0,
            segment_prefix: 0,
            broadcast: false,
            mem_base: 0,
            mem_index: 0,
            reg0: 0,
            reg1: 0,
            reg2: 0,
            reg3: 0,
        }
    }

    /// Checks if two instructions are equal, comparing every field of the
    /// state, nothing ignored. `==` ignores the bookkeeping fields.
    pub fn eq_all_bits(&self, other: Self) -> (r: bool)
        ensures
            r == (self@ == other@),
    {
        self.next_rip == other.next_rip && self.code == other.code
            && self.rounding_control == other.rounding_control
            && self.opmask_sel == other.opmask_sel && self.instr_len == other.instr_len
            && self.sae == other.sae && self.zeroing == other.zeroing
            && self.xacquire == other.xacquire && self.xrelease == other.xrelease
            && self.repe == other.repe && self.repne == other.repne
            && self.lock_prefix == other.lock_prefix && self.op0_kind == other.op0_kind
            && self.op1_kind == other.op1_kind && self.op2_kind == other.op2_kind
            && self.op3_kind == other.op3_kind && self.data_len == other.data_len
            && self.code_size == other.code_size && self.immediate == other.immediate
            && self.mem_displ == other.mem_displ && self.scale == other.scale
            && self.displ_size == other.displ_size && self.segment_prefix == other.segment_prefix
            && self.broadcast == other.broadcast && self.mem_base == other.mem_base
            && self.mem_index == other.mem_index && self.reg0 == other.reg0
            && self.reg1 == other.reg1 && self.reg2 == other.reg2 && self.reg3 == other.reg3
    }
}

impl PartialEq for Instruction {
    /// Structural equality: compares every field of the state except the
    /// stored length and the informational code size, so that a freshly
    /// encoded and a freshly decoded instruction that disagree only on
    /// length bookkeeping compare equal. See `eq_all_bits` for the strict
    /// comparison.
    fn eq(&self, other: &Instruction) -> (r: bool) {
        self.next_rip == other.next_rip && self.code == other.code
            && self.rounding_control == other.rounding_control
            && self.opmask_sel == other.opmask_sel && self.sae == other.sae
            && self.zeroing == other.zeroing && self.xacquire == other.xacquire
            && self.xrelease == other.xrelease && self.repe == other.repe
            && self.repne == other.repne && self.lock_prefix == other.lock_prefix
            && self.op0_kind == other.op0_kind && self.op1_kind == other.op1_kind
            && self.op2_kind == other.op2_kind && self.op3_kind == other.op3_kind
            && self.data_len == other.data_len && self.immediate == other.immediate
            && self.mem_displ == other.mem_displ && self.scale == other.scale
            && self.displ_size == other.displ_size && self.segment_prefix == other.segment_prefix
            && self.broadcast == other.broadcast && self.mem_base == other.mem_base
            && self.mem_index == other.mem_index && self.reg0 == other.reg0
            && self.reg1 == other.reg1 && self.reg2 == other.reg2 && self.reg3 == other.reg3
    }
}

impl vstd::std_specs::cmp::PartialEqSpecImpl for Instruction {
    open spec fn obeys_eq_spec() -> bool {
        true
    }

    open spec fn eq_spec(&self, other: &Instruction) -> bool {
        self@.normalized() == other@.normalized()
    }
}

impl Eq for Instruction {}

impl Default for Instruction {
    /// The default instruction is the empty instruction.
    fn default() -> (r: Self)
        ensures
            r@ == InstrFields::empty(),
    {
        Instruction::new()
    }
}

impl Instruction {
    /// Returns the 16-bit IP of the instruction: the low half of `next_ip`
    /// minus the stored length, wrapping in 16 bits.
    pub fn ip16(&self) -> (r: u16)
        ensures
            r == vstd::wrapping::u16_specs::wrapping_sub(
                self@.next_rip as u16,
                self@.instr_len as u16,
            ),
    {
        (#[verifier::truncate] (self.next_rip as u16)).wrapping_sub(self.instr_len as u16)
    }

    /// Sets the 16-bit IP of the instruction; `next_ip` becomes the new
    /// value plus the stored length.
    pub fn set_ip16(&mut self, new_value: u16)
        ensures
            final(self)@ == (InstrFields {
                next_rip: (new_value + old(self)@.instr_len) as u64,
                ..old(self)@
            }),
    {
        self.next_rip = new_value as u64 + self.instr_len as u64;
    }

    /// Returns the 32-bit IP of the instruction: the low half of `next_ip`
    /// minus the stored length, wrapping in 32 bits.
    pub fn ip32(&self) -> (r: u32)
        ensures
            r == vstd::wrapping::u32_specs::wrapping_sub(
                self@.next_rip as u32,
                self@.instr_len as u32,
            ),
    {
        (#[verifier::truncate] (self.next_rip as u32)).wrapping_sub(self.instr_len as u32)
    }

    /// Sets the 32-bit IP of the instruction; `next_ip` becomes the new
    /// value plus the stored length.
    pub fn set_ip32(&mut self, new_value: u32)
        ensures
            final(self)@ == (InstrFields {
                next_rip: (new_value + old(self)@.instr_len) as u64,
                ..old(self)@
            }),
    {
        self.next_rip = new_value as u64 + self.instr_len as u64;
    }

    /// Returns the 64-bit IP of the instruction: `next_ip` minus the stored
    /// length, wrapping in 64 bits.
    pub fn ip(&self) -> (r: u64)
        ensures
            r == vstd::wrapping::u64_specs::wrapping_sub(self@.next_rip, self@.instr_len as u64),
    {
        self.next_rip.wrapping_sub(self.instr_len as u64)
    }

    /// Sets the 64-bit IP of the instruction; `next_ip` becomes the new
    /// value plus the stored length, wrapping in 64 bits.
    pub fn set_ip(&mut self, new_value: u64)
        ensures
            final(self)@ == (InstrFields {
                next_rip: vstd::wrapping::u64_specs::wrapping_add(
                    new_value,
                    old(self)@.instr_len as u64,
                ),
                ..old(self)@
            }),
    {
        self.next_rip = new_value.wrapping_add(self.instr_len as u64);
    }

    /// Returns the low 16 bits of the IP of the next instruction.
    pub fn next_ip16(&self) -> (r: u16)
        ensures
            r == self@.next_rip as u16,
    {
        #[verifier::truncate] (self.next_rip as u16)
    }

    /// Sets the 16-bit IP of the next instruction; the high bits are
    /// cleared.
    pub fn set_next_ip16(&mut self, new_value: u16)
        ensures
            final(self)@ == (InstrFields { next_rip: new_value as u64, ..old(self)@ }),
    {
        self.next_rip = new_value as u64;
    }

    /// Returns the low 32 bits of the IP of the next instruction.
    pub fn next_ip32(&self) -> (r: u32)
        ensures
            r == self@.next_rip as u32,
    {
        #[verifier::truncate] (self.next_rip as u32)
    }

    /// Sets the 32-bit IP of the next instruction; the high bits are
    /// cleared.
    pub fn set_next_ip32(&mut self, new_value: u32)
        ensures
            final(self)@ == (InstrFields { next_rip: new_value as u64, ..old(self)@ }),
    {
        self.next_rip = new_value as u64;
    }

    /// Returns the 64-bit IP of the next instruction.
    pub fn next_ip(&self) -> (r: u64)
        ensures
            r == self@.next_rip,
    {
        self.next_rip
    }

    /// Sets the 64-bit IP of the next instruction.
    pub fn set_next_ip(&mut self, new_value: u64)
        ensures
            final(self)@ == (InstrFields { next_rip: new_value, ..old(self)@ }),
    {
        self.next_rip = new_value;
    }

    /// Returns the code size of the mode the instruction was decoded in.
    /// The value is informational bookkeeping, for use by a formatter.
    pub fn code_size(&self) -> (r: CodeSize)
        ensures
            r == CodeSize::spec_from_number(self@.code_size),
    {
        CodeSize::from_number(self.code_size)
    }

    /// Sets the code size of the mode the instruction was decoded in.
    /// The value is informational bookkeeping, for use by a formatter.
    pub fn set_code_size(&mut self, new_value: CodeSize)
        ensures
            final(self)@ == (InstrFields { code_size: new_value.spec_number(), ..old(self)@ }),
    {
        self.code_size = new_value.number();
    }

    /// Returns the instruction code, see also `mnemonic()`.
    pub fn code(&self) -> (r: Code)
        ensures
            r == Code::spec_from_number(self@.code),
    {
        Code::from_number(self.code)
    }

    /// Sets the instruction code.
    pub fn set_code(&mut self, new_value: Code)
        ensures
            final(self)@ == (InstrFields { code: new_value.spec_number(), ..old(self)@ }),
    {
        self.code = new_value.number();
    }

    /// Returns the mnemonic of the instruction code, see also `code()`.
    pub fn mnemonic(&self) -> (r: Mnemonic)
        ensures
            r == Code::spec_from_number(self@.code).spec_mnemonic(),
    {
        self.code().mnemonic()
    }

    /// Returns the operand count of the instruction code. An instruction
    /// can have 0-5 operands.
    pub fn op_count(&self) -> (r: i32)
        ensures
            r == Code::spec_from_number(self@.code).spec_op_count(),
            0 <= r <= 5,
    {
        self.code().op_count()
    }

    /// Returns the length of the instruction, 0-15 bytes. The value is
    /// informational bookkeeping: modifying the instruction or creating a
    /// new one can leave it stale, and it is not re-validated.
    pub fn len(&self) -> (r: i32)
        ensures
            r == self@.instr_len,
    {
        self.instr_len as i32
    }

    /// Sets the length of the instruction, 0-15 bytes; only the low 4 bits
    /// of the given value are stored. The value is informational
    /// bookkeeping.
    pub fn set_len(&mut self, new_value: i32)
        ensures
            final(self)@ == (InstrFields {
                instr_len: ((new_value as u32) & 0xF) as u8,
                ..old(self)@
            }),
    {
        self.instr_len = #[verifier::truncate] (((#[verifier::truncate] (new_value as u32)) & 0xF) as u8);
    }

    /// Checks if the instruction has the XACQUIRE prefix (F2).
    pub fn has_xacquire_prefix(&self) -> (r: bool)
        ensures
            r == self@.xacquire,
    {
        self.xacquire
    }

    /// Sets the has-XACQUIRE-prefix (F2) flag.
    pub fn set_has_xacquire_prefix(&mut self, new_value: bool)
        ensures
            final(self)@ == (InstrFields { xacquire: new_value, ..old(self)@ }),
    {
        self.xacquire = new_value;
    }

    /// Checks if the instruction has the XRELEASE prefix (F3).
    pub fn has_xrelease_prefix(&self) -> (r: bool)
        ensures
            r == self@.xrelease,
    {
        self.xrelease
    }

    /// Sets the has-XRELEASE-prefix (F3) flag.
    pub fn set_has_xrelease_prefix(&mut self, new_value: bool)
        ensures
            final(self)@ == (InstrFields { xrelease: new_value, ..old(self)@ }),
    {
        self.xrelease = new_value;
    }

    /// Checks if the instruction has the REPE or REP prefix (F3). REP and
    /// REPE share one flag: this is an alias of `has_repe_prefix()`.
    pub fn has_rep_prefix(&self) -> (r: bool)
        ensures
            r == self@.repe,
    {
        self.repe
    }

    /// Sets the has-REPE-or-REP-prefix (F3) flag.
    pub fn set_has_rep_prefix(&mut self, new_value: bool)
        ensures
            final(self)@ == (InstrFields { repe: new_value, ..old(self)@ }),
    {
        self.repe = new_value;
    }

    /// Checks if the instruction has the REPE or REP prefix (F3).
    pub fn has_repe_prefix(&self) -> (r: bool)
        ensures
            r == self@.repe,
    {
        self.repe
    }

    /// Sets the has-REPE-or-REP-prefix (F3) flag.
    pub fn set_has_repe_prefix(&mut self, new_value: bool)
        ensures
            final(self)@ == (InstrFields { repe: new_value, ..old(self)@ }),
    {
        self.repe = new_value;
    }

    /// Checks if the instruction has the REPNE prefix (F2).
    pub fn has_repne_prefix(&self) -> (r: bool)
        ensures
            r == self@.repne,
    {
        self.repne
    }

    /// Sets the has-REPNE-prefix (F2) flag.
    pub fn set_has_repne_prefix(&mut self, new_value: bool)
        ensures
            final(self)@ == (InstrFields { repne: new_value, ..old(self)@ }),
    {
        self.repne = new_value;
    }

    /// Checks if the instruction has the LOCK prefix (F0).
    pub fn has_lock_prefix(&self) -> (r: bool)
        ensures
            r == self@.lock_prefix,
    {
        self.lock_prefix
    }

    /// Sets the has-LOCK-prefix (F0) flag.
    pub fn set_has_lock_prefix(&mut self, new_value: bool)
        ensures
            final(self)@ == (InstrFields { lock_prefix: new_value, ..old(self)@ }),
    {
        self.lock_prefix = new_value;
    }
}

/// The segment register encoded by a segment-override selector: 0 means
/// none, 1-6 mean `ES`-`GS`, and the one remaining 3-bit pattern decodes to
/// none as a defensive choice.
pub open spec fn spec_segment_prefix_reg(enc: u8) -> Register {
    if 1 <= enc && enc <= 6 {
        Register::spec_from_number((70 + enc) as u8)
    } else {
        Register::None_
    }
}

/// The effective segment register of a memory operand: the explicit prefix
/// if present, else `SS` if the base register is a stack-pointer-family
/// register (`BP`/`EBP`/`ESP`/`RBP`/`RSP`), else `DS`. This mirrors the
/// architecture's implicit default-segment rule.
pub open spec fn spec_memory_segment(f: InstrFields) -> Register {
    if spec_segment_prefix_reg(f.segment_prefix) != Register::None_ {
        spec_segment_prefix_reg(f.segment_prefix)
    } else {
        match Register::spec_from_number(f.mem_base) {
            Register::BP => Register::SS,
            Register::EBP => Register::SS,
            Register::ESP => Register::SS,
            Register::RBP => Register::SS,
            Register::RSP => Register::SS,
            _ => Register::DS,
        }
    }
}

/// The displacement size in bytes denoted by a stored displacement size
/// class: classes 0-2 denote themselves, class 3 denotes 4 bytes and every
/// higher class denotes 8 bytes.
pub open spec fn spec_decode_displ_size(s: u8) -> i32 {
    if s <= 2 {
        s as i32
    } else if s == 3 {
        4
    } else {
        8
    }
}

/// The stored displacement size class of a displacement size in bytes:
/// 0, 1 and 2 store themselves, 4 stores class 3, and every other value
/// stores class 4 (the 8-byte bucket), a defensive mapping that keeps the
/// class in range.
pub open spec fn spec_encode_displ_size(v: i32) -> u8 {
    if v == 0 {
        0
    } else if v == 1 {
        1
    } else if v == 2 {
        2
    } else if v == 4 {
        3
    } else {
        4
    }
}

/// The index scale factor denoted by a stored scale shift: 1, 2, 4 or 8 for
/// shifts 0-3; only the low two bits of the stored value take part.
pub open spec fn spec_decode_scale(s: u8) -> i32 {
    if s % 4 == 0 {
        1
    } else if s % 4 == 1 {
        2
    } else if s % 4 == 2 {
        4
    } else {
        8
    }
}

/// The stored scale shift of an index scale factor: 1, 2 and 4 store shifts
/// 0-2, and every other value stores shift 3 (the x8 bucket), a defensive
/// mapping that keeps the shift in range.
pub open spec fn spec_encode_scale(v: i32) -> u8 {
    if v == 1 {
        0
    } else if v == 2 {
        1
    } else if v == 4 {
        2
    } else {
        3
    }
}

impl Instruction {
    /// Returns operand 0's kind, if the operand exists (see `op_count()`).
    pub fn op0_kind(&self) -> (r: OpKind)
        ensures
            r == OpKind::spec_from_number(self@.op0_kind),
    {
        OpKind::from_number(self.op0_kind)
    }

    /// Sets operand 0's kind.
    pub fn set_op0_kind(&mut self, new_value: OpKind)
        ensures
            final(self)@ == (InstrFields { op0_kind: new_value.spec_number(), ..old(self)@ }),
    {
        self.op0_kind = new_value.number();
    }

    /// Returns operand 1's kind, if the operand exists (see `op_count()`).
    pub fn op1_kind(&self) -> (r: OpKind)
        ensures
            r == OpKind::spec_from_number(self@.op1_kind),
    {
        OpKind::from_number(self.op1_kind)
    }

    /// Sets operand 1's kind.
    pub fn set_op1_kind(&mut self, new_value: OpKind)
        ensures
            final(self)@ == (InstrFields { op1_kind: new_value.spec_number(), ..old(self)@ }),
    {
        self.op1_kind = new_value.number();
    }

    /// Returns operand 2's kind, if the operand exists (see `op_count()`).
    pub fn op2_kind(&self) -> (r: OpKind)
        ensures
            r == OpKind::spec_from_number(self@.op2_kind),
    {
        OpKind::from_number(self.op2_kind)
    }

    /// Sets operand 2's kind.
    pub fn set_op2_kind(&mut self, new_value: OpKind)
        ensures
            final(self)@ == (InstrFields { op2_kind: new_value.spec_number(), ..old(self)@ }),
    {
        self.op2_kind = new_value.number();
    }

    /// Returns operand 3's kind, if the operand exists (see `op_count()`).
    pub fn op3_kind(&self) -> (r: OpKind)
        ensures
            r == OpKind::spec_from_number(self@.op3_kind),
    {
        OpKind::from_number(self.op3_kind)
    }

    /// Sets operand 3's kind.
    pub fn set_op3_kind(&mut self, new_value: OpKind)
        ensures
            final(self)@ == (InstrFields { op3_kind: new_value.spec_number(), ..old(self)@ }),
    {
        self.op3_kind = new_value.number();
    }

    /// Returns operand 4's kind, which is fixed to `Immediate8`: the model
    /// stores no kind for a fifth operand, which only declare-data
    /// directives use.
    pub fn op4_kind(&self) -> (r: OpKind)
        ensures
            r == OpKind::Immediate8,
    {
        OpKind::Immediate8
    }

    /// Sets operand 4's kind. The kind is read-only: any value other than
    /// `Immediate8` is a caller error.
    pub fn set_op4_kind(&mut self, new_value: OpKind)
        requires
            new_value == OpKind::Immediate8,
        ensures
            final(self)@ == old(self)@,
    {
    }

    /// Returns an operand's kind, if it exists (see `op_count()`).
    /// `operand` must be 0-4.
    pub fn op_kind(&self, operand: i32) -> (r: OpKind)
        requires
            0 <= operand <= 4,
        ensures
            r == OpKind::spec_from_number(self@.op_kind_at(operand as int)),
    {
        if operand == 0 {
            self.op0_kind()
        } else if operand == 1 {
            self.op1_kind()
        } else if operand == 2 {
            self.op2_kind()
        } else if operand == 3 {
            self.op3_kind()
        } else {
            self.op4_kind()
        }
    }

    /// Sets an operand's kind. `operand` must be 0-4; operand 4's kind is
    /// read-only, so only `Immediate8` may be stored there.
    pub fn set_op_kind(&mut self, operand: i32, op_kind: OpKind)
        requires
            0 <= operand <= 4,
            operand == 4 ==> op_kind == OpKind::Immediate8,
        ensures
            final(self)@ == old(self)@.with_op_kind_at(operand as int, op_kind.spec_number()),
    {
        if operand == 0 {
            self.set_op0_kind(op_kind);
        } else if operand == 1 {
            self.set_op1_kind(op_kind);
        } else if operand == 2 {
            self.set_op2_kind(op_kind);
        } else if operand == 3 {
            self.set_op3_kind(op_kind);
        } else {
            self.set_op4_kind(op_kind);
        }
    }

    /// Returns the segment override prefix, or `None_` if there is none.
    /// See also `memory_segment()`. Meaningful if the operand has kind
    /// `Memory`, `Memory64`, `MemorySegSI`, `MemorySegESI` or
    /// `MemorySegRSI`.
    pub fn segment_prefix(&self) -> (r: Register)
        ensures
            r == spec_segment_prefix_reg(self@.segment_prefix),
    {
        if 1 <= self.segment_prefix && self.segment_prefix <= 6 {
            Register::from_number(70 + self.segment_prefix)
        } else {
            Register::None_
        }
    }

    /// Sets the segment override prefix: `None_` to clear it, or one of the
    /// segment registers `ES`-`GS`.
    pub fn set_segment_prefix(&mut self, new_value: Register)
        requires
            new_value == Register::None_ || (71 <= new_value.spec_number()
                && new_value.spec_number() <= 76),
        ensures
            final(self)@ == (InstrFields {
                segment_prefix: if new_value == Register::None_ {
                    0
                } else {
                    (new_value.spec_number() - 70) as u8
                },
                ..old(self)@
            }),
    {
        if new_value == Register::None_ {
            self.segment_prefix = 0;
        } else {
            self.segment_prefix = new_value.number() - 70;
        }
    }

    /// Returns the effective segment register used to reference the memory
    /// location: the explicit prefix if present, else `SS` if the base
    /// register is a stack-pointer-family register, else `DS`. Meaningful if
    /// the operand has kind `Memory`, `Memory64`, `MemorySegSI`,
    /// `MemorySegESI` or `MemorySegRSI`.
    pub fn memory_segment(&self) -> (r: Register)
        ensures
            r == spec_memory_segment(self@),
    {
        let seg_reg = self.segment_prefix();
        if seg_reg != Register::None_ {
            seg_reg
        } else {
            match self.memory_base() {
                Register::BP => Register::SS,
                Register::EBP => Register::SS,
                Register::ESP => Register::SS,
                Register::RBP => Register::SS,
                Register::RSP => Register::SS,
                _ => Register::DS,
            }
        }
    }

    /// Returns the size of the memory displacement in bytes: 0, 1
    /// (16/32/64-bit), 2 (16-bit), 4 (32-bit) or 8 (64-bit). The value can
    /// be 1 while the displacement still does not fit in a signed byte on an
    /// EVEX encoded instruction. Meaningful if the operand has kind
    /// `Memory`.
    pub fn memory_displ_size(&self) -> (r: i32)
        ensures
            r == spec_decode_displ_size(self@.displ_size),
            r == 0 || r == 1 || r == 2 || r == 4 || r == 8,
    {
        if self.displ_size <= 2 {
            self.displ_size as i32
        } else if self.displ_size == 3 {
            4
        } else {
            8
        }
    }

    /// Sets the size of the memory displacement in bytes. Valid values are
    /// 0, 1, 2, 4 and 8; any other value is bucketed to 8 bytes rather than
    /// rejected, so a stray size can never yield an out-of-range stored
    /// class. Meaningful if the operand has kind `Memory`.
    pub fn set_memory_displ_size(&mut self, new_value: i32)
        ensures
            final(self)@ == (InstrFields {
                displ_size: spec_encode_displ_size(new_value),
                ..old(self)@
            }),
    {
        if new_value == 0 {
            self.displ_size = 0;
        } else if new_value == 1 {
            self.displ_size = 1;
        } else if new_value == 2 {
            self.displ_size = 2;
        } else if new_value == 4 {
            self.displ_size = 3;
        } else {
            self.displ_size = 4;
        }
    }

    /// Returns `true` if the data is broadcast (EVEX instructions only).
    pub fn is_broadcast(&self) -> (r: bool)
        ensures
            r == self@.broadcast,
    {
        self.broadcast
    }

    /// Sets the is-broadcast flag (EVEX instructions only).
    pub fn set_is_broadcast(&mut self, new_value: bool)
        ensures
            final(self)@ == (InstrFields { broadcast: new_value, ..old(self)@ }),
    {
        self.broadcast = new_value;
    }

    /// Returns the size of the memory location referenced by the operand:
    /// a table lookup keyed by the code and the broadcast flag. See also
    /// `is_broadcast()`. Meaningful if the operand has a memory kind.
    pub fn memory_size(&self) -> (r: MemorySize)
        ensures
            r == Code::spec_from_number(self@.code).spec_memory_size(self@.broadcast),
    {
        Code::from_number(self.code).memory_size(self.broadcast)
    }

    /// Returns the index register scale factor: 1, 2, 4 or 8. Meaningful if
    /// the operand has kind `Memory`.
    pub fn memory_index_scale(&self) -> (r: i32)
        ensures
            r == spec_decode_scale(self@.scale),
            r == 1 || r == 2 || r == 4 || r == 8,
    {
        let s = self.scale % 4;
        if s == 0 {
            1
        } else if s == 1 {
            2
        } else if s == 2 {
            4
        } else {
            8
        }
    }

    /// Sets the index register scale factor. Valid values are 1, 2, 4 and
    /// 8; any other value is bucketed to x8 rather than rejected, so a
    /// stray factor can never yield an out-of-range stored shift.
    /// Meaningful if the operand has kind `Memory`.
    pub fn set_memory_index_scale(&mut self, new_value: i32)
        ensures
            final(self)@ == (InstrFields { scale: spec_encode_scale(new_value), ..old(self)@ }),
    {
        if new_value == 1 {
            self.scale = 0;
        } else if new_value == 2 {
            self.scale = 1;
        } else if new_value == 4 {
            self.scale = 2;
        } else {
            self.scale = 3;
        }
    }

    /// Returns the memory operand's displacement. Sign extend it to 64 bits
    /// under 64-bit addressing, see `memory_displacement64()`. Meaningful if
    /// the operand has kind `Memory`.
    pub fn memory_displacement(&self) -> (r: u32)
        ensures
            r == self@.mem_displ,
    {
        self.mem_displ
    }

    /// Sets the memory operand's displacement. Meaningful if the operand
    /// has kind `Memory`.
    pub fn set_memory_displacement(&mut self, new_value: u32)
        ensures
            final(self)@ == (InstrFields { mem_displ: new_value, ..old(self)@ }),
    {
        self.mem_displ = new_value;
    }

    /// Returns the memory operand's displacement sign extended to 64 bits.
    /// Meaningful if the operand has kind `Memory`.
    pub fn memory_displacement64(&self) -> (r: u64)
        ensures
            r == sext32bits64(self@.mem_displ),
    {
        if self.mem_displ < 0x8000_0000 {
            self.mem_displ as u64
        } else {
            0xFFFF_FFFF_0000_0000u64 | (self.mem_displ as u64)
        }
    }

    /// Returns the memory operand's base register, or `None_` if there is
    /// none. Meaningful if the operand has kind `Memory`.
    pub fn memory_base(&self) -> (r: Register)
        ensures
            r == Register::spec_from_number(self@.mem_base),
    {
        Register::from_number(self.mem_base)
    }

    /// Sets the memory operand's base register, or `None_` for none.
    /// Meaningful if the operand has kind `Memory`.
    pub fn set_memory_base(&mut self, new_value: Register)
        ensures
            final(self)@ == (InstrFields { mem_base: new_value.spec_number(), ..old(self)@ }),
    {
        self.mem_base = new_value.number();
    }

    /// Returns the memory operand's index register, or `None_` if there is
    /// none. Meaningful if the operand has kind `Memory`.
    pub fn memory_index(&self) -> (r: Register)
        ensures
            r == Register::spec_from_number(self@.mem_index),
    {
        Register::from_number(self.mem_index)
    }

    /// Sets the memory operand's index register, or `None_` for none.
    /// Meaningful if the operand has kind `Memory`.
    pub fn set_memory_index(&mut self, new_value: Register)
        ensures
            final(self)@ == (InstrFields { mem_index: new_value.spec_number(), ..old(self)@ }),
    {
        self.mem_index = new_value.number();
    }
}

/// Whether an operand kind is one of the immediate kinds, the kinds on
/// which the immediate dispatchers operate.
pub open spec fn spec_is_immediate_kind(k: OpKind) -> bool {
    k == OpKind::Immediate8 || k == OpKind::Immediate8_2nd || k == OpKind::Immediate16
        || k == OpKind::Immediate32 || k == OpKind::Immediate64 || k == OpKind::Immediate8to16
        || k == OpKind::Immediate8to32 || k == OpKind::Immediate8to64
        || k == OpKind::Immediate32to64
}

/// The immediate value of the operand with the given kind, widened to 64
/// bits: zero extended for the unsigned kinds and sign extended for the
/// sign-extending kinds.
pub open spec fn spec_immediate(f: InstrFields, operand: int) -> u64 {
    match OpKind::spec_from_number(f.op_kind_at(operand)) {
        OpKind::Immediate8 => (f.immediate as u8) as u64,
        OpKind::Immediate8_2nd => (f.mem_displ as u8) as u64,
        OpKind::Immediate16 => (f.immediate as u16) as u64,
        OpKind::Immediate32 => f.immediate as u64,
        OpKind::Immediate64 => hi_lo64(f.mem_displ, f.immediate),
        OpKind::Immediate8to16 => sext8to16(f.immediate as u8) as u64,
        OpKind::Immediate8to32 => sext8to32(f.immediate as u8) as u64,
        OpKind::Immediate8to64 => sext8to64(f.immediate as u8) as u64,
        OpKind::Immediate32to64 => sext32to64(f.immediate) as u64,
        _ => 0,
    }
}

/// The state after storing a 64-bit immediate into the operand with the
/// given kind, narrowed into the active representation: the 8-bit kinds
/// keep the low byte, the 16-bit kind the low word, the 32-bit kinds the
/// low dword, and the 64-bit kind both payload halves.
pub open spec fn spec_with_immediate(f: InstrFields, operand: int, v: u64) -> InstrFields {
    match OpKind::spec_from_number(f.op_kind_at(operand)) {
        OpKind::Immediate8 => InstrFields { immediate: (v as u8) as u32, ..f },
        OpKind::Immediate8to16 => InstrFields { immediate: (v as u8) as u32, ..f },
        OpKind::Immediate8to32 => InstrFields { immediate: (v as u8) as u32, ..f },
        OpKind::Immediate8to64 => InstrFields { immediate: (v as u8) as u32, ..f },
        OpKind::Immediate8_2nd => InstrFields { mem_displ: (v as u8) as u32, ..f },
        OpKind::Immediate16 => InstrFields { immediate: (v as u16) as u32, ..f },
        OpKind::Immediate32 => InstrFields { immediate: v as u32, ..f },
        OpKind::Immediate32to64 => InstrFields { immediate: v as u32, ..f },
        OpKind::Immediate64 => InstrFields {
            immediate: v as u32,
            mem_displ: (v >> 32) as u32,
            ..f
        },
        _ => f,
    }
}

/// The near branch target of the instruction, widened to 64 bits, selected
/// by operand 0's kind; 0 if operand 0 is not a near branch.
pub open spec fn spec_near_branch_target(f: InstrFields) -> u64 {
    match OpKind::spec_from_number(f.op0_kind) {
        OpKind::NearBranch16 => (f.immediate as u16) as u64,
        OpKind::NearBranch32 => f.immediate as u64,
        OpKind::NearBranch64 => hi_lo64(f.mem_displ, f.immediate),
        _ => 0,
    }
}

impl Instruction {
    /// Returns an operand's immediate value, widened to 64 bits: zero
    /// extended for the unsigned kinds and sign extended for the
    /// sign-extending kinds. `operand` must be 0-4 and its kind must be one
    /// of the immediate kinds.
    pub fn immediate(&self, operand: i32) -> (r: u64)
        requires
            0 <= operand <= 4,
            spec_is_immediate_kind(OpKind::spec_from_number(self@.op_kind_at(operand as int))),
        ensures
            r == spec_immediate(self@, operand as int),
    {
        match self.op_kind(operand) {
            OpKind::Immediate8 => self.immediate8() as u64,
            OpKind::Immediate8_2nd => self.immediate8_2nd() as u64,
            OpKind::Immediate16 => self.immediate16() as u64,
            OpKind::Immediate32 => self.immediate32() as u64,
            OpKind::Immediate64 => self.immediate64(),
            OpKind::Immediate8to16 => self.immediate8to16() as u64,
            OpKind::Immediate8to32 => self.immediate8to32() as u64,
            OpKind::Immediate8to64 => self.immediate8to64() as u64,
            OpKind::Immediate32to64 => self.immediate32to64() as u64,
            _ => 0,
        }
    }

    /// Sets an operand's immediate value, narrowing the given value into
    /// the operand's active representation. `operand` must be 0-4 and its
    /// kind must be one of the immediate kinds.
    pub fn set_immediate_i32(&mut self, operand: i32, new_value: i32)
        requires
            0 <= operand <= 4,
            spec_is_immediate_kind(
                OpKind::spec_from_number(old(self)@.op_kind_at(operand as int)),
            ),
        ensures
            final(self)@ == spec_with_immediate(old(self)@, operand as int, new_value as u64),
    {
        self.set_immediate_u64(operand, #[verifier::truncate] (new_value as u64));
    }

    /// Sets an operand's immediate value, narrowing the given value into
    /// the operand's active representation. `operand` must be 0-4 and its
    /// kind must be one of the immediate kinds.
    pub fn set_immediate_u32(&mut self, operand: i32, new_value: u32)
        requires
            0 <= operand <= 4,
            spec_is_immediate_kind(
                OpKind::spec_from_number(old(self)@.op_kind_at(operand as int)),
            ),
        ensures
            final(self)@ == spec_with_immediate(old(self)@, operand as int, new_value as u64),
    {
        self.set_immediate_u64(operand, new_value as u64);
    }

    /// Sets an operand's immediate value, narrowing the given value into
    /// the operand's active representation. `operand` must be 0-4 and its
    /// kind must be one of the immediate kinds.
    pub fn set_immediate_i64(&mut self, operand: i32, new_value: i64)
        requires
            0 <= operand <= 4,
            spec_is_immediate_kind(
                OpKind::spec_from_number(old(self)@.op_kind_at(operand as int)),
            ),
        ensures
            final(self)@ == spec_with_immediate(old(self)@, operand as int, new_value as u64),
    {
        self.set_immediate_u64(operand, #[verifier::truncate] (new_value as u64));
    }

    /// Sets an operand's immediate value, narrowing the given value into
    /// the operand's active representation. `operand` must be 0-4 and its
    /// kind must be one of the immediate kinds.
    pub fn set_immediate_u64(&mut self, operand: i32, new_value: u64)
        requires
            0 <= operand <= 4,
            spec_is_immediate_kind(
                OpKind::spec_from_number(old(self)@.op_kind_at(operand as int)),
            ),
        ensures
            final(self)@ == spec_with_immediate(old(self)@, operand as int, new_value),
    {
        match self.op_kind(operand) {
            OpKind::Immediate8 => {
                self.immediate = (#[verifier::truncate] (new_value as u8)) as u32;
            },
            OpKind::Immediate8to16 => {
                self.immediate = (#[verifier::truncate] (new_value as u8)) as u32;
            },
            OpKind::Immediate8to32 => {
                self.immediate = (#[verifier::truncate] (new_value as u8)) as u32;
            },
            OpKind::Immediate8to64 => {
                self.immediate = (#[verifier::truncate] (new_value as u8)) as u32;
            },
            OpKind::Immediate8_2nd => {
                self.mem_displ = (#[verifier::truncate] (new_value as u8)) as u32;
            },
            OpKind::Immediate16 => {
                self.immediate = (#[verifier::truncate] (new_value as u16)) as u32;
            },
            OpKind::Immediate32 => {
                self.immediate = #[verifier::truncate] (new_value as u32);
            },
            OpKind::Immediate32to64 => {
                self.immediate = #[verifier::truncate] (new_value as u32);
            },
            OpKind::Immediate64 => {
                self.set_immediate64(new_value);
            },
            _ => {
            },
        }
    }

    /// Returns the operand's immediate value. Meaningful if the operand has
    /// kind `Immediate8`.
    pub fn immediate8(&self) -> (r: u8)
        ensures
            r == self@.immediate as u8,
    {
        #[verifier::truncate] (self.immediate as u8)
    }

    /// Sets the operand's immediate value. Meaningful if the operand has
    /// kind `Immediate8`.
    pub fn set_immediate8(&mut self, new_value: u8)
        ensures
            final(self)@ == (InstrFields { immediate: new_value as u32, ..old(self)@ }),
    {
        self.immediate = new_value as u32;
    }

    /// Returns the operand's immediate value. Meaningful if the operand has
    /// kind `Immediate8_2nd`.
    pub fn immediate8_2nd(&self) -> (r: u8)
        ensures
            r == self@.mem_displ as u8,
    {
        #[verifier::truncate] (self.mem_displ as u8)
    }

    /// Sets the operand's immediate value. Meaningful if the operand has
    /// kind `Immediate8_2nd`.
    pub fn set_immediate8_2nd(&mut self, new_value: u8)
        ensures
            final(self)@ == (InstrFields { mem_displ: new_value as u32, ..old(self)@ }),
    {
        self.mem_displ = new_value as u32;
    }

    /// Returns the operand's immediate value. Meaningful if the operand has
    /// kind `Immediate16`.
    pub fn immediate16(&self) -> (r: u16)
        ensures
            r == self@.immediate as u16,
    {
        #[verifier::truncate] (self.immediate as u16)
    }

    /// Sets the operand's immediate value. Meaningful if the operand has
    /// kind `Immediate16`.
    pub fn set_immediate16(&mut self, new_value: u16)
        ensures
            final(self)@ == (InstrFields { immediate: new_value as u32, ..old(self)@ }),
    {
        self.immediate = new_value as u32;
    }

    /// Returns the operand's immediate value. Meaningful if the operand has
    /// kind `Immediate32`.
    pub fn immediate32(&self) -> (r: u32)
        ensures
            r == self@.immediate,
    {
        self.immediate
    }

    /// Sets the operand's immediate value. Meaningful if the operand has
    /// kind `Immediate32`.
    pub fn set_immediate32(&mut self, new_value: u32)
        ensures
            final(self)@ == (InstrFields { immediate: new_value, ..old(self)@ }),
    {
        self.immediate = new_value;
    }

    /// Returns the operand's immediate value, assembled from the two
    /// payload halves. Meaningful if the operand has kind `Immediate64`.
    pub fn immediate64(&self) -> (r: u64)
        ensures
            r == hi_lo64(self@.mem_displ, self@.immediate),
    {
        ((self.mem_displ as u64) << 32) | (self.immediate as u64)
    }

    /// Sets the operand's immediate value, split across the two payload
    /// halves. Meaningful if the operand has kind `Immediate64`.
    pub fn set_immediate64(&mut self, new_value: u64)
        ensures
            final(self)@ == (InstrFields {
                immediate: new_value as u32,
                mem_displ: (new_value >> 32) as u32,
                ..old(self)@
            }),
    {
        self.immediate = #[verifier::truncate] (new_value as u32);
        self.mem_displ = #[verifier::truncate] ((new_value >> 32) as u32);
    }

    /// Returns the operand's immediate value: the stored byte sign extended
    /// to 16 bits. Meaningful if the operand has kind `Immediate8to16`.
    pub fn immediate8to16(&self) -> (r: i16)
        ensures
            r == sext8to16(self@.immediate as u8),
    {
        let b = #[verifier::truncate] (self.immediate as u8);
        if b < 0x80 {
            b as i16
        } else {
            b as i16 - 0x100
        }
    }

    /// Sets the operand's immediate value: the low byte is stored sign
    /// extended. Meaningful if the operand has kind `Immediate8to16`.
    pub fn set_immediate8to16(&mut self, new_value: i16)
        ensures
            final(self)@ == (InstrFields {
                immediate: sext8bits32(new_value as u8),
                ..old(self)@
            }),
    {
        let b = #[verifier::truncate] (new_value as u8);
        if b < 0x80 {
            self.immediate = b as u32;
        } else {
            self.immediate = 0xFFFF_FF00u32 | (b as u32);
        }
    }

    /// Returns the operand's immediate value: the stored byte sign extended
    /// to 32 bits. Meaningful if the operand has kind `Immediate8to32`.
    pub fn immediate8to32(&self) -> (r: i32)
        ensures
            r == sext8to32(self@.immediate as u8),
    {
        let b = #[verifier::truncate] (self.immediate as u8);
        if b < 0x80 {
            b as i32
        } else {
            b as i32 - 0x100
        }
    }

    /// Sets the operand's immediate value: the low byte is stored sign
    /// extended. Meaningful if the operand has kind `Immediate8to32`.
    pub fn set_immediate8to32(&mut self, new_value: i32)
        ensures
            final(self)@ == (InstrFields {
                immediate: sext8bits32(new_value as u8),
                ..old(self)@
            }),
    {
        let b = #[verifier::truncate] (new_value as u8);
        if b < 0x80 {
            self.immediate = b as u32;
        } else {
            self.immediate = 0xFFFF_FF00u32 | (b as u32);
        }
    }

    /// Returns the operand's immediate value: the stored byte sign extended
    /// to 64 bits. Meaningful if the operand has kind `Immediate8to64`.
    pub fn immediate8to64(&self) -> (r: i64)
        ensures
            r == sext8to64(self@.immediate as u8),
    {
        let b = #[verifier::truncate] (self.immediate as u8);
        if b < 0x80 {
            b as i64
        } else {
            b as i64 - 0x100
        }
    }

    /// Sets the operand's immediate value: the low byte is stored sign
    /// extended. Meaningful if the operand has kind `Immediate8to64`.
    pub fn set_immediate8to64(&mut self, new_value: i64)
        ensures
            final(self)@ == (InstrFields {
                immediate: sext8bits32(new_value as u8),
                ..old(self)@
            }),
    {
        let b = #[verifier::truncate] (new_value as u8);
        if b < 0x80 {
            self.immediate = b as u32;
        } else {
            self.immediate = 0xFFFF_FF00u32 | (b as u32);
        }
    }

    /// Returns the operand's immediate value: the stored dword sign
    /// extended to 64 bits. Meaningful if the operand has kind
    /// `Immediate32to64`.
    pub fn immediate32to64(&self) -> (r: i64)
        ensures
            r == sext32to64(self@.immediate),
    {
        if self.immediate < 0x8000_0000 {
            self.immediate as i64
        } else {
            self.immediate as i64 - 0x1_0000_0000
        }
    }

    /// Sets the operand's immediate value: the low dword is stored.
    /// Meaningful if the operand has kind `Immediate32to64`.
    pub fn set_immediate32to64(&mut self, new_value: i64)
        ensures
            final(self)@ == (InstrFields { immediate: new_value as u32, ..old(self)@ }),
    {
        self.immediate = #[verifier::truncate] (new_value as u32);
    }

    /// Returns the operand's 64-bit absolute address, assembled from the
    /// two payload halves. Meaningful if the operand has kind `Memory64`.
    pub fn memory_address64(&self) -> (r: u64)
        ensures
            r == hi_lo64(self@.mem_displ, self@.immediate),
    {
        ((self.mem_displ as u64) << 32) | (self.immediate as u64)
    }

    /// Sets the operand's 64-bit absolute address, split across the two
    /// payload halves. Meaningful if the operand has kind `Memory64`.
    pub fn set_memory_address64(&mut self, new_value: u64)
        ensures
            final(self)@ == (InstrFields {
                immediate: new_value as u32,
                mem_displ: (new_value >> 32) as u32,
                ..old(self)@
            }),
    {
        self.immediate = #[verifier::truncate] (new_value as u32);
        self.mem_displ = #[verifier::truncate] ((new_value >> 32) as u32);
    }

    /// Returns the operand's branch target. Meaningful if the operand has
    /// kind `NearBranch16`.
    pub fn near_branch16(&self) -> (r: u16)
        ensures
            r == self@.immediate as u16,
    {
        #[verifier::truncate] (self.immediate as u16)
    }

    /// Sets the operand's branch target. Meaningful if the operand has kind
    /// `NearBranch16`.
    pub fn set_near_branch16(&mut self, new_value: u16)
        ensures
            final(self)@ == (InstrFields { immediate: new_value as u32, ..old(self)@ }),
    {
        self.immediate = new_value as u32;
    }

    /// Returns the operand's branch target. Meaningful if the operand has
    /// kind `NearBranch32`.
    pub fn near_branch32(&self) -> (r: u32)
        ensures
            r == self@.immediate,
    {
        self.immediate
    }

    /// Sets the operand's branch target. Meaningful if the operand has kind
    /// `NearBranch32`.
    pub fn set_near_branch32(&mut self, new_value: u32)
        ensures
            final(self)@ == (InstrFields { immediate: new_value, ..old(self)@ }),
    {
        self.immediate = new_value;
    }

    /// Returns the operand's branch target, assembled from the two payload
    /// halves. Meaningful if the operand has kind `NearBranch64`.
    pub fn near_branch64(&self) -> (r: u64)
        ensures
            r == hi_lo64(self@.mem_displ, self@.immediate),
    {
        ((self.mem_displ as u64) << 32) | (self.immediate as u64)
    }

    /// Sets the operand's branch target, split across the two payload
    /// halves. Meaningful if the operand has kind `NearBranch64`.
    pub fn set_near_branch64(&mut self, new_value: u64)
        ensures
            final(self)@ == (InstrFields {
                immediate: new_value as u32,
                mem_displ: (new_value >> 32) as u32,
                ..old(self)@
            }),
    {
        self.immediate = #[verifier::truncate] (new_value as u32);
        self.mem_displ = #[verifier::truncate] ((new_value >> 32) as u32);
    }

    /// Returns the near branch target if operand 0 is a near branch of a
    /// call/jmp instruction, widened to 64 bits, else 0.
    pub fn near_branch_target(&self) -> (r: u64)
        ensures
            r == spec_near_branch_target(self@),
    {
        match self.op0_kind() {
            OpKind::NearBranch16 => self.near_branch16() as u64,
            OpKind::NearBranch32 => self.near_branch32() as u64,
            OpKind::NearBranch64 => self.near_branch64(),
            _ => 0,
        }
    }

    /// Returns the operand's branch offset. Meaningful if the operand has
    /// kind `FarBranch16`.
    pub fn far_branch16(&self) -> (r: u16)
        ensures
            r == self@.immediate as u16,
    {
        #[verifier::truncate] (self.immediate as u16)
    }

    /// Sets the operand's branch offset. Meaningful if the operand has kind
    /// `FarBranch16`.
    pub fn set_far_branch16(&mut self, new_value: u16)
        ensures
            final(self)@ == (InstrFields { immediate: new_value as u32, ..old(self)@ }),
    {
        self.immediate = new_value as u32;
    }

    /// Returns the operand's branch offset. Meaningful if the operand has
    /// kind `FarBranch32`.
    pub fn far_branch32(&self) -> (r: u32)
        ensures
            r == self@.immediate,
    {
        self.immediate
    }

    /// Sets the operand's branch offset. Meaningful if the operand has kind
    /// `FarBranch32`.
    pub fn set_far_branch32(&mut self, new_value: u32)
        ensures
            final(self)@ == (InstrFields { immediate: new_value, ..old(self)@ }),
    {
        self.immediate = new_value;
    }

    /// Returns the operand's branch selector. Meaningful if the operand has
    /// kind `FarBranch16` or `FarBranch32`.
    pub fn far_branch_selector(&self) -> (r: u16)
        ensures
            r == self@.mem_displ as u16,
    {
        #[verifier::truncate] (self.mem_displ as u16)
    }

    /// Sets the operand's branch selector. Meaningful if the operand has
    /// kind `FarBranch16` or `FarBranch32`.
    pub fn set_far_branch_selector(&mut self, new_value: u16)
        ensures
            final(self)@ == (InstrFields { mem_displ: new_value as u32, ..old(self)@ }),
    {
        self.mem_displ = new_value as u32;
    }

    /// Returns operand 0's register. Meaningful if operand 0 has kind
    /// `Register`.
    pub fn op0_register(&self) -> (r: Register)
        ensures
            r == Register::spec_from_number(self@.reg0),
    {
        Register::from_number(self.reg0)
    }

    /// Sets operand 0's register. Meaningful if operand 0 has kind
    /// `Register`.
    pub fn set_op0_register(&mut self, new_value: Register)
        ensures
            final(self)@ == (InstrFields { reg0: new_value.spec_number(), ..old(self)@ }),
    {
        self.reg0 = new_value.number();
    }

    /// Returns operand 1's register. Meaningful if operand 1 has kind
    /// `Register`.
    pub fn op1_register(&self) -> (r: Register)
        ensures
            r == Register::spec_from_number(self@.reg1),
    {
        Register::from_number(self.reg1)
    }

    /// Sets operand 1's register. Meaningful if operand 1 has kind
    /// `Register`.
    pub fn set_op1_register(&mut self, new_value: Register)
        ensures
            final(self)@ == (InstrFields { reg1: new_value.spec_number(), ..old(self)@ }),
    {
        self.reg1 = new_value.number();
    }

    /// Returns operand 2's register. Meaningful if operand 2 has kind
    /// `Register`.
    pub fn op2_register(&self) -> (r: Register)
        ensures
            r == Register::spec_from_number(self@.reg2),
    {
        Register::from_number(self.reg2)
    }

    /// Sets operand 2's register. Meaningful if operand 2 has kind
    /// `Register`.
    pub fn set_op2_register(&mut self, new_value: Register)
        ensures
            final(self)@ == (InstrFields { reg2: new_value.spec_number(), ..old(self)@ }),
    {
        self.reg2 = new_value.number();
    }

    /// Returns operand 3's register. Meaningful if operand 3 has kind
    /// `Register`.
    pub fn op3_register(&self) -> (r: Register)
        ensures
            r == Register::spec_from_number(self@.reg3),
    {
        Register::from_number(self.reg3)
    }

    /// Sets operand 3's register. Meaningful if operand 3 has kind
    /// `Register`.
    pub fn set_op3_register(&mut self, new_value: Register)
        ensures
            final(self)@ == (InstrFields { reg3: new_value.spec_number(), ..old(self)@ }),
    {
        self.reg3 = new_value.number();
    }

    /// Returns operand 4's register, which is always `None_`: the model
    /// stores no register for a fifth operand.
    pub fn op4_register(&self) -> (r: Register)
        ensures
            r == Register::None_,
    {
        Register::None_
    }

    /// Sets operand 4's register. The register is read-only: any value
    /// other than `None_` is a caller error.
    pub fn set_op4_register(&mut self, new_value: Register)
        requires
            new_value == Register::None_,
        ensures
            final(self)@ == old(self)@,
    {
    }

    /// Returns an operand's register. `operand` must be 0-4. Meaningful if
    /// the operand has kind `Register`.
    pub fn op_register(&self, operand: i32) -> (r: Register)
        requires
            0 <= operand <= 4,
        ensures
            r == Register::spec_from_number(self@.reg_at(operand as int)),
    {
        if operand == 0 {
            self.op0_register()
        } else if operand == 1 {
            self.op1_register()
        } else if operand == 2 {
            self.op2_register()
        } else if operand == 3 {
            self.op3_register()
        } else {
            self.op4_register()
        }
    }

    /// Sets an operand's register. `operand` must be 0-4; operand 4's
    /// register is read-only, so only `None_` may be stored there.
    /// Meaningful if the operand has kind `Register`.
    pub fn set_op_register(&mut self, operand: i32, new_value: Register)
        requires
            0 <= operand <= 4,
            operand == 4 ==> new_value == Register::None_,
        ensures
            final(self)@ == old(self)@.with_reg_at(operand as int, new_value.spec_number()),
    {
        if operand == 0 {
            self.set_op0_register(new_value);
        } else if operand == 1 {
            self.set_op1_register(new_value);
        } else if operand == 2 {
            self.set_op2_register(new_value);
        } else if operand == 3 {
            self.set_op3_register(new_value);
        } else {
            self.set_op4_register(new_value);
        }
    }
}

/// The opmask register denoted by a stored opmask selector: 0 means none,
/// else `K1`-`K7`; only the low three bits of the stored value take part.
pub open spec fn spec_opmask_reg(sel: u8) -> Register {
    if sel == 0 {
        Register::None_
    } else {
        Register::spec_from_number((173 + (sel % 8)) as u8)
    }
}

impl InstrFields {
    /// Byte `index` (0-15) of the declare-data payload. The payload bytes
    /// overlay, in order: the four register slots, the primary payload, the
    /// secondary payload, the base and index register slots, and the four
    /// packed operand-kind fields (5 bits each, in the low 16 bits of their
    /// packed word).
    pub open spec fn declare_byte_at(self, index: int) -> u8 {
        if index == 0 {
            self.reg0
        } else if index == 1 {
            self.reg1
        } else if index == 2 {
            self.reg2
        } else if index == 3 {
            self.reg3
        } else if index == 4 {
            self.immediate as u8
        } else if index == 5 {
            (self.immediate >> 8) as u8
        } else if index == 6 {
            (self.immediate >> 16) as u8
        } else if index == 7 {
            (self.immediate >> 24) as u8
        } else if index == 8 {
            self.mem_displ as u8
        } else if index == 9 {
            (self.mem_displ >> 8) as u8
        } else if index == 10 {
            (self.mem_displ >> 16) as u8
        } else if index == 11 {
            (self.mem_displ >> 24) as u8
        } else if index == 12 {
            self.mem_base
        } else if index == 13 {
            self.mem_index
        } else if index == 14 {
            (self.op0_kind & 0x1F) | ((self.op1_kind & 0x7) << 5)
        } else {
            ((self.op1_kind >> 3) & 0x3) | ((self.op2_kind & 0x1F) << 2) | ((self.op3_kind
                & 0x1) << 7)
        }
    }

    /// This state with byte `index` (0-15) of the declare-data payload
    /// replaced; see `declare_byte_at` for the layout.
    pub open spec fn with_declare_byte(self, index: int, v: u8) -> InstrFields {
        if index == 0 {
            InstrFields { reg0: v, ..self }
        } else if index == 1 {
            InstrFields { reg1: v, ..self }
        } else if index == 2 {
            InstrFields { reg2: v, ..self }
        } else if index == 3 {
            InstrFields { reg3: v, ..self }
        } else if index == 4 {
            InstrFields { immediate: (self.immediate & 0xFFFF_FF00) | (v as u32), ..self }
        } else if index == 5 {
            InstrFields { immediate: (self.immediate & 0xFFFF_00FF) | ((v as u32) << 8), ..self }
        } else if index == 6 {
            InstrFields { immediate: (self.immediate & 0xFF00_FFFF) | ((v as u32) << 16), ..self }
        } else if index == 7 {
            InstrFields { immediate: (self.immediate & 0x00FF_FFFF) | ((v as u32) << 24), ..self }
        } else if index == 8 {
            InstrFields { mem_displ: (self.mem_displ & 0xFFFF_FF00) | (v as u32), ..self }
        } else if index == 9 {
            InstrFields { mem_displ: (self.mem_displ & 0xFFFF_00FF) | ((v as u32) << 8), ..self }
        } else if index == 10 {
            InstrFields { mem_displ: (self.mem_displ & 0xFF00_FFFF) | ((v as u32) << 16), ..self }
        } else if index == 11 {
            InstrFields { mem_displ: (self.mem_displ & 0x00FF_FFFF) | ((v as u32) << 24), ..self }
        } else if index == 12 {
            InstrFields { mem_base: v, ..self }
        } else if index == 13 {
            InstrFields { mem_index: v, ..self }
        } else if index == 14 {
            InstrFields {
                op0_kind: v & 0x1F,
                op1_kind: (self.op1_kind & 0x18) | (v >> 5),
                ..self
            }
        } else {
            InstrFields {
                op1_kind: (self.op1_kind & 0x7) | ((v & 0x3) << 3),
                op2_kind: (v >> 2) & 0x1F,
                op3_kind: (self.op3_kind & 0x1E) | (v >> 7),
                ..self
            }
        }
    }

    /// Word `index` (0-7) of the declare-data payload: two consecutive
    /// payload bytes, little endian.
    pub open spec fn declare_word_at(self, index: int) -> u16 {
        if index == 0 {
            (self.reg0 as u16) | ((self.reg1 as u16) << 8)
        } else if index == 1 {
            (self.reg2 as u16) | ((self.reg3 as u16) << 8)
        } else if index == 2 {
            self.immediate as u16
        } else if index == 3 {
            (self.immediate >> 16) as u16
        } else if index == 4 {
            self.mem_displ as u16
        } else if index == 5 {
            (self.mem_displ >> 16) as u16
        } else if index == 6 {
            (self.mem_base as u16) | ((self.mem_index as u16) << 8)
        } else {
            ((self.op0_kind & 0x1F) as u16) | (((self.op1_kind & 0x1F) as u16) << 5) | (((
            self.op2_kind & 0x1F) as u16) << 10) | (((self.op3_kind & 0x1) as u16) << 15)
        }
    }

    /// This state with word `index` (0-7) of the declare-data payload
    /// replaced.
    pub open spec fn with_declare_word(self, index: int, v: u16) -> InstrFields {
        if index == 0 {
            InstrFields { reg0: v as u8, reg1: (v >> 8) as u8, ..self }
        } else if index == 1 {
            InstrFields { reg2: v as u8, reg3: (v >> 8) as u8, ..self }
        } else if index == 2 {
            InstrFields { immediate: (self.immediate & 0xFFFF_0000) | (v as u32), ..self }
        } else if index == 3 {
            InstrFields { immediate: (self.immediate & 0x0000_FFFF) | ((v as u32) << 16), ..self }
        } else if index == 4 {
            InstrFields { mem_displ: (self.mem_displ & 0xFFFF_0000) | (v as u32), ..self }
        } else if index == 5 {
            InstrFields { mem_displ: (self.mem_displ & 0x0000_FFFF) | ((v as u32) << 16), ..self }
        } else if index == 6 {
            InstrFields { mem_base: v as u8, mem_index: (v >> 8) as u8, ..self }
        } else {
            InstrFields {
                op0_kind: (v & 0x1F) as u8,
                op1_kind: ((v >> 5) & 0x1F) as u8,
                op2_kind: ((v >> 10) & 0x1F) as u8,
                op3_kind: (self.op3_kind & 0x1E) | ((v >> 15) as u8),
                ..self
            }
        }
    }

    /// Dword `index` (0-3) of the declare-data payload: four consecutive
    /// payload bytes, little endian.
    pub open spec fn declare_dword_at(self, index: int) -> u32 {
        if index == 0 {
            (self.reg0 as u32) | ((self.reg1 as u32) << 8) | ((self.reg2 as u32) << 16) | ((
            self.reg3 as u32) << 24)
        } else if index == 1 {
            self.immediate
        } else if index == 2 {
            self.mem_displ
        } else {
            (self.mem_base as u32) | ((self.mem_index as u32) << 8) | (((self.op0_kind
                & 0x1F) as u32) << 16) | (((self.op1_kind & 0x1F) as u32) << 21) | (((self.op2_kind
                & 0x1F) as u32) << 26) | (((self.op3_kind & 0x1) as u32) << 31)
        }
    }

    /// This state with dword `index` (0-3) of the declare-data payload
    /// replaced.
    pub open spec fn with_declare_dword(self, index: int, v: u32) -> InstrFields {
        if index == 0 {
            InstrFields {
                reg0: v as u8,
                reg1: (v >> 8) as u8,
                reg2: (v >> 16) as u8,
                reg3: (v >> 24) as u8,
                ..self
            }
        } else if index == 1 {
            InstrFields { immediate: v, ..self }
        } else if index == 2 {
            InstrFields { mem_displ: v, ..self }
        } else {
            InstrFields {
                mem_base: v as u8,
                mem_index: (v >> 8) as u8,
                op0_kind: ((v >> 16) & 0x1F) as u8,
                op1_kind: ((v >> 21) & 0x1F) as u8,
                op2_kind: ((v >> 26) & 0x1F) as u8,
                op3_kind: (self.op3_kind & 0x1E) | ((v >> 31) as u8),
                ..self
            }
        }
    }

    /// Qword `index` (0-1) of the declare-data payload: eight consecutive
    /// payload bytes, little endian.
    pub open spec fn declare_qword_at(self, index: int) -> u64 {
        if index == 0 {
            (self.reg0 as u64) | ((self.reg1 as u64) << 8) | ((self.reg2 as u64) << 16) | ((
            self.reg3 as u64) << 24) | ((self.immediate as u64) << 32)
        } else {
            (self.mem_displ as u64) | ((self.mem_base as u64) << 32) | ((self.mem_index
                as u64) << 40) | (((self.op0_kind & 0x1F) as u64) << 48) | (((self.op1_kind
                & 0x1F) as u64) << 53) | (((self.op2_kind & 0x1F) as u64) << 58) | (((self.op3_kind
                & 0x1) as u64) << 63)
        }
    }

    /// This state with qword `index` (0-1) of the declare-data payload
    /// replaced.
    pub open spec fn with_declare_qword(self, index: int, v: u64) -> InstrFields {
        if index == 0 {
            InstrFields {
                reg0: v as u8,
                reg1: (v >> 8) as u8,
                reg2: (v >> 16) as u8,
                reg3: (v >> 24) as u8,
                immediate: (v >> 32) as u32,
                ..self
            }
        } else {
            InstrFields {
                mem_displ: v as u32,
                mem_base: (v >> 32) as u8,
                mem_index: (v >> 40) as u8,
                op0_kind: ((v >> 48) & 0x1F) as u8,
                op1_kind: ((v >> 53) & 0x1F) as u8,
                op2_kind: ((v >> 58) & 0x1F) as u8,
                op3_kind: (self.op3_kind & 0x1E) | ((v >> 63) as u8),
                ..self
            }
        }
    }
}

impl Instruction {
    /// Returns the opmask register (`K1`-`K7`), or `None_` if there is
    /// none.
    pub fn opmask(&self) -> (r: Register)
        ensures
            r == spec_opmask_reg(self@.opmask_sel),
    {
        if self.opmask_sel == 0 {
            Register::None_
        } else {
            Register::from_number(173 + (self.opmask_sel % 8))
        }
    }

    /// Sets the opmask register: `None_` to clear it, or one of the mask
    /// registers `K0`-`K7` (`K0` stores the same selector as none: the
    /// encoding has no distinct pattern for it).
    pub fn set_opmask(&mut self, new_value: Register)
        requires
            new_value == Register::None_ || (173 <= new_value.spec_number()
                && new_value.spec_number() <= 180),
        ensures
            final(self)@ == (InstrFields {
                opmask_sel: if new_value == Register::None_ {
                    0
                } else {
                    (new_value.spec_number() - 173) as u8
                },
                ..old(self)@
            }),
    {
        if new_value == Register::None_ {
            self.opmask_sel = 0;
        } else {
            self.opmask_sel = new_value.number() - 173;
        }
    }

    /// Checks if there is an opmask register (`opmask()`).
    pub fn has_opmask(&self) -> (r: bool)
        ensures
            r == (self@.opmask_sel != 0),
    {
        self.opmask_sel != 0
    }

    /// Returns `true` for zeroing-masking and `false` for merging-masking.
    /// Used by most EVEX encoded instructions that use opmask registers.
    pub fn zeroing_masking(&self) -> (r: bool)
        ensures
            r == self@.zeroing,
    {
        self.zeroing
    }

    /// Sets zeroing-masking (`true`) or merging-masking (`false`): the two
    /// modes are complementary views of one flag, with no third state.
    pub fn set_zeroing_masking(&mut self, new_value: bool)
        ensures
            final(self)@ == (InstrFields { zeroing: new_value, ..old(self)@ }),
    {
        self.zeroing = new_value;
    }

    /// Returns `true` for merging-masking and `false` for zeroing-masking.
    /// Used by most EVEX encoded instructions that use opmask registers.
    pub fn merging_masking(&self) -> (r: bool)
        ensures
            r == !self@.zeroing,
    {
        !self.zeroing
    }

    /// Sets merging-masking (`true`) or zeroing-masking (`false`): setting
    /// one mode is exactly clearing the other.
    pub fn set_merging_masking(&mut self, new_value: bool)
        ensures
            final(self)@ == (InstrFields { zeroing: !new_value, ..old(self)@ }),
    {
        self.zeroing = !new_value;
    }

    /// Returns the rounding control, or `None_` if the instruction does not
    /// use it (`suppress_all_exceptions()` is implied by a rounding mode
    /// but still reads back `false`).
    pub fn rounding_control(&self) -> (r: RoundingControl)
        ensures
            r == RoundingControl::spec_from_number(self@.rounding_control),
    {
        RoundingControl::from_number(self.rounding_control)
    }

    /// Sets the rounding control, or `None_` if the instruction does not
    /// use it.
    pub fn set_rounding_control(&mut self, new_value: RoundingControl)
        ensures
            final(self)@ == (InstrFields {
                rounding_control: new_value.spec_number(),
                ..old(self)@
            }),
    {
        self.rounding_control = new_value.number();
    }

    /// Returns the number of elements in a `db`/`dw`/`dd`/`dq` directive.
    /// Meaningful if `code()` is one of the declare-data codes.
    pub fn declare_data_len(&self) -> (r: i32)
        ensures
            r == self@.data_len + 1,
    {
        self.data_len as i32 + 1
    }

    /// Sets the number of elements in a `db`/`dw`/`dd`/`dq` directive:
    /// `db` supports 1-16, `dw` 1-8, `dd` 1-4 and `dq` 1-2 elements; the
    /// count is stored minus one. Meaningful if `code()` is one of the
    /// declare-data codes.
    pub fn set_declare_data_len(&mut self, new_value: i32)
        requires
            1 <= new_value <= 16,
        ensures
            final(self)@ == (InstrFields { data_len: (new_value - 1) as u8, ..old(self)@ }),
    {
        self.data_len = (new_value - 1) as u8;
    }

    /// Sets a `db` value. `index` must be 0-15. Meaningful if `code()` is
    /// `DeclareByte`; see `declare_data_len()`.
    pub fn set_declare_byte_value_i8(&mut self, index: i32, new_value: i8)
        requires
            0 <= index <= 15,
        ensures
            final(self)@ == old(self)@.with_declare_byte(index as int, new_value as u8),
    {
        self.set_declare_byte_value(index, #[verifier::truncate] (new_value as u8));
    }

    /// Sets a `db` value. `index` must be 0-15. Meaningful if `code()` is
    /// `DeclareByte`; see `declare_data_len()`.
    pub fn set_declare_byte_value(&mut self, index: i32, new_value: u8)
        requires
            0 <= index <= 15,
        ensures
            final(self)@ == old(self)@.with_declare_byte(index as int, new_value),
    {
        if index == 0 {
            self.reg0 = new_value;
        } else if index == 1 {
            self.reg1 = new_value;
        } else if index == 2 {
            self.reg2 = new_value;
        } else if index == 3 {
            self.reg3 = new_value;
        } else if index == 4 {
            self.immediate = (self.immediate & 0xFFFF_FF00) | (new_value as u32);
        } else if index == 5 {
            self.immediate = (self.immediate & 0xFFFF_00FF) | ((new_value as u32) << 8);
        } else if index == 6 {
            self.immediate = (self.immediate & 0xFF00_FFFF) | ((new_value as u32) << 16);
        } else if index == 7 {
            self.immediate = (self.immediate & 0x00FF_FFFF) | ((new_value as u32) << 24);
        } else if index == 8 {
            self.mem_displ = (self.mem_displ & 0xFFFF_FF00) | (new_value as u32);
        } else if index == 9 {
            self.mem_displ = (self.mem_displ & 0xFFFF_00FF) | ((new_value as u32) << 8);
        } else if index == 10 {
            self.mem_displ = (self.mem_displ & 0xFF00_FFFF) | ((new_value as u32) << 16);
        } else if index == 11 {
            self.mem_displ = (self.mem_displ & 0x00FF_FFFF) | ((new_value as u32) << 24);
        } else if index == 12 {
            self.mem_base = new_value;
        } else if index == 13 {
            self.mem_index = new_value;
        } else if index == 14 {
            self.op0_kind = new_value & 0x1F;
            self.op1_kind = (self.op1_kind & 0x18) | (new_value >> 5);
        } else {
            self.op1_kind = (self.op1_kind & 0x7) | ((new_value & 0x3) << 3);
            self.op2_kind = (new_value >> 2) & 0x1F;
            self.op3_kind = (self.op3_kind & 0x1E) | (new_value >> 7);
        }
    }

    /// Returns a `db` value. `index` must be 0-15. Meaningful if `code()`
    /// is `DeclareByte`; see `declare_data_len()`.
    pub fn get_declare_byte_value(&self, index: i32) -> (r: u8)
        requires
            0 <= index <= 15,
        ensures
            r == self@.declare_byte_at(index as int),
    {
        if index == 0 {
            self.reg0
        } else if index == 1 {
            self.reg1
        } else if index == 2 {
            self.reg2
        } else if index == 3 {
            self.reg3
        } else if index == 4 {
            #[verifier::truncate] (self.immediate as u8)
        } else if index == 5 {
            #[verifier::truncate] ((self.immediate >> 8) as u8)
        } else if index == 6 {
            #[verifier::truncate] ((self.immediate >> 16) as u8)
        } else if index == 7 {
            #[verifier::truncate] ((self.immediate >> 24) as u8)
        } else if index == 8 {
            #[verifier::truncate] (self.mem_displ as u8)
        } else if index == 9 {
            #[verifier::truncate] ((self.mem_displ >> 8) as u8)
        } else if index == 10 {
            #[verifier::truncate] ((self.mem_displ >> 16) as u8)
        } else if index == 11 {
            #[verifier::truncate] ((self.mem_displ >> 24) as u8)
        } else if index == 12 {
            self.mem_base
        } else if index == 13 {
            self.mem_index
        } else if index == 14 {
            (self.op0_kind & 0x1F) | ((self.op1_kind & 0x7) << 5)
        } else {
            ((self.op1_kind >> 3) & 0x3) | ((self.op2_kind & 0x1F) << 2) | ((self.op3_kind
                & 0x1) << 7)
        }
    }

    /// Sets a `dw` value. `index` must be 0-7. Meaningful if `code()` is
    /// `DeclareWord`; see `declare_data_len()`.
    pub fn set_declare_word_value_i16(&mut self, index: i32, new_value: i16)
        requires
            0 <= index <= 7,
        ensures
            final(self)@ == old(self)@.with_declare_word(index as int, new_value as u16),
    {
        self.set_declare_word_value(index, #[verifier::truncate] (new_value as u16));
    }

    /// Sets a `dw` value. `index` must be 0-7. Meaningful if `code()` is
    /// `DeclareWord`; see `declare_data_len()`.
    pub fn set_declare_word_value(&mut self, index: i32, new_value: u16)
        requires
            0 <= index <= 7,
        ensures
            final(self)@ == old(self)@.with_declare_word(index as int, new_value),
    {
        if index == 0 {
            self.reg0 = #[verifier::truncate] (new_value as u8);
            self.reg1 = #[verifier::truncate] ((new_value >> 8) as u8);
        } else if index == 1 {
            self.reg2 = #[verifier::truncate] (new_value as u8);
            self.reg3 = #[verifier::truncate] ((new_value >> 8) as u8);
        } else if index == 2 {
            self.immediate = (self.immediate & 0xFFFF_0000) | (new_value as u32);
        } else if index == 3 {
            self.immediate = (self.immediate & 0x0000_FFFF) | ((new_value as u32) << 16);
        } else if index == 4 {
            self.mem_displ = (self.mem_displ & 0xFFFF_0000) | (new_value as u32);
        } else if index == 5 {
            self.mem_displ = (self.mem_displ & 0x0000_FFFF) | ((new_value as u32) << 16);
        } else if index == 6 {
            self.mem_base = #[verifier::truncate] (new_value as u8);
            self.mem_index = #[verifier::truncate] ((new_value >> 8) as u8);
        } else {
            self.op0_kind = #[verifier::truncate] ((new_value & 0x1F) as u8);
            self.op1_kind = #[verifier::truncate] (((new_value >> 5) & 0x1F) as u8);
            self.op2_kind = #[verifier::truncate] (((new_value >> 10) & 0x1F) as u8);
            self.op3_kind = (self.op3_kind & 0x1E) | (#[verifier::truncate] ((new_value
                >> 15) as u8));
        }
    }

    /// Returns a `dw` value. `index` must be 0-7. Meaningful if `code()` is
    /// `DeclareWord`; see `declare_data_len()`.
    pub fn get_declare_word_value(&self, index: i32) -> (r: u16)
        requires
            0 <= index <= 7,
        ensures
            r == self@.declare_word_at(index as int),
    {
        if index == 0 {
            (self.reg0 as u16) | ((self.reg1 as u16) << 8)
        } else if index == 1 {
            (self.reg2 as u16) | ((self.reg3 as u16) << 8)
        } else if index == 2 {
            #[verifier::truncate] (self.immediate as u16)
        } else if index == 3 {
            #[verifier::truncate] ((self.immediate >> 16) as u16)
        } else if index == 4 {
            #[verifier::truncate] (self.mem_displ as u16)
        } else if index == 5 {
            #[verifier::truncate] ((self.mem_displ >> 16) as u16)
        } else if index == 6 {
            (self.mem_base as u16) | ((self.mem_index as u16) << 8)
        } else {
            ((self.op0_kind & 0x1F) as u16) | (((self.op1_kind & 0x1F) as u16) << 5) | (((
            self.op2_kind & 0x1F) as u16) << 10) | (((self.op3_kind & 0x1) as u16) << 15)
        }
    }

    /// Sets a `dd` value. `index` must be 0-3. Meaningful if `code()` is
    /// `DeclareDword`; see `declare_data_len()`.
    pub fn set_declare_dword_value_i32(&mut self, index: i32, new_value: i32)
        requires
            0 <= index <= 3,
        ensures
            final(self)@ == old(self)@.with_declare_dword(index as int, new_value as u32),
    {
        self.set_declare_dword_value(index, #[verifier::truncate] (new_value as u32));
    }

    /// Sets a `dd` value. `index` must be 0-3. Meaningful if `code()` is
    /// `DeclareDword`; see `declare_data_len()`.
    pub fn set_declare_dword_value(&mut self, index: i32, new_value: u32)
        requires
            0 <= index <= 3,
        ensures
            final(self)@ == old(self)@.with_declare_dword(index as int, new_value),
    {
        if index == 0 {
            self.reg0 = #[verifier::truncate] (new_value as u8);
            self.reg1 = #[verifier::truncate] ((new_value >> 8) as u8);
            self.reg2 = #[verifier::truncate] ((new_value >> 16) as u8);
            self.reg3 = #[verifier::truncate] ((new_value >> 24) as u8);
        } else if index == 1 {
            self.immediate = new_value;
        } else if index == 2 {
            self.mem_displ = new_value;
        } else {
            self.mem_base = #[verifier::truncate] (new_value as u8);
            self.mem_index = #[verifier::truncate] ((new_value >> 8) as u8);
            self.op0_kind = #[verifier::truncate] (((new_value >> 16) & 0x1F) as u8);
            self.op1_kind = #[verifier::truncate] (((new_value >> 21) & 0x1F) as u8);
            self.op2_kind = #[verifier::truncate] (((new_value >> 26) & 0x1F) as u8);
            self.op3_kind = (self.op3_kind & 0x1E) | (#[verifier::truncate] ((new_value
                >> 31) as u8));
        }
    }

    /// Returns a `dd` value. `index` must be 0-3. Meaningful if `code()` is
    /// `DeclareDword`; see `declare_data_len()`.
    pub fn get_declare_dword_value(&self, index: i32) -> (r: u32)
        requires
            0 <= index <= 3,
        ensures
            r == self@.declare_dword_at(index as int),
    {
        if index == 0 {
            (self.reg0 as u32) | ((self.reg1 as u32) << 8) | ((self.reg2 as u32) << 16) | ((
            self.reg3 as u32) << 24)
        } else if index == 1 {
            self.immediate
        } else if index == 2 {
            self.mem_displ
        } else {
            (self.mem_base as u32) | ((self.mem_index as u32) << 8) | (((self.op0_kind
                & 0x1F) as u32) << 16) | (((self.op1_kind & 0x1F) as u32) << 21) | (((self.op2_kind
                & 0x1F) as u32) << 26) | (((self.op3_kind & 0x1) as u32) << 31)
        }
    }

    /// Sets a `dq` value. `index` must be 0-1. Meaningful if `code()` is
    /// `DeclareQword`; see `declare_data_len()`.
    pub fn set_declare_qword_value_i64(&mut self, index: i32, new_value: i64)
        requires
            0 <= index <= 1,
        ensures
            final(self)@ == old(self)@.with_declare_qword(index as int, new_value as u64),
    {
        self.set_declare_qword_value(index, #[verifier::truncate] (new_value as u64));
    }

    /// Sets a `dq` value. `index` must be 0-1. Meaningful if `code()` is
    /// `DeclareQword`; see `declare_data_len()`.
    pub fn set_declare_qword_value(&mut self, index: i32, new_value: u64)
        requires
            0 <= index <= 1,
        ensures
            final(self)@ == old(self)@.with_declare_qword(index as int, new_value),
    {
        if index == 0 {
            self.reg0 = #[verifier::truncate] (new_value as u8);
            self.reg1 = #[verifier::truncate] ((new_value >> 8) as u8);
            self.reg2 = #[verifier::truncate] ((new_value >> 16) as u8);
            self.reg3 = #[verifier::truncate] ((new_value >> 24) as u8);
            self.immediate = #[verifier::truncate] ((new_value >> 32) as u32);
        } else {
            self.mem_displ = #[verifier::truncate] (new_value as u32);
            self.mem_base = #[verifier::truncate] ((new_value >> 32) as u8);
            self.mem_index = #[verifier::truncate] ((new_value >> 40) as u8);
            self.op0_kind = #[verifier::truncate] (((new_value >> 48) & 0x1F) as u8);
            self.op1_kind = #[verifier::truncate] (((new_value >> 53) & 0x1F) as u8);
            self.op2_kind = #[verifier::truncate] (((new_value >> 58) & 0x1F) as u8);
            self.op3_kind = (self.op3_kind & 0x1E) | (#[verifier::truncate] ((new_value
                >> 63) as u8));
        }
    }

    /// Returns a `dq` value. `index` must be 0-1. Meaningful if `code()` is
    /// `DeclareQword`; see `declare_data_len()`.
    pub fn get_declare_qword_value(&self, index: i32) -> (r: u64)
        requires
            0 <= index <= 1,
        ensures
            r == self@.declare_qword_at(index as int),
    {
        if index == 0 {
            (self.reg0 as u64) | ((self.reg1 as u64) << 8) | ((self.reg2 as u64) << 16) | ((
            self.reg3 as u64) << 24) | ((self.immediate as u64) << 32)
        } else {
            (self.mem_displ as u64) | ((self.mem_base as u64) << 32) | ((self.mem_index
                as u64) << 40) | (((self.op0_kind & 0x1F) as u64) << 48) | (((self.op1_kind
                & 0x1F) as u64) << 53) | (((self.op2_kind & 0x1F) as u64) << 58) | (((self.op3_kind
                & 0x1) as u64) << 63)
        }
    }
}

/// The address size in bytes (2, 4 or 8) of a memory operand, derived from
/// the base and index register classes; with neither present, from the
/// displacement size; and failing that, from the code size, defaulting to 8.
pub open spec fn spec_address_size(
    base_reg: Register,
    index_reg: Register,
    displ_size: i32,
    code_size: CodeSize,
) -> i32 {
    if (53 <= base_reg.spec_number() && base_reg.spec_number() <= 68) || (53
        <= index_reg.spec_number() && index_reg.spec_number() <= 68) || base_reg
        == Register::RIP {
        8
    } else if (37 <= base_reg.spec_number() && base_reg.spec_number() <= 52) || (37
        <= index_reg.spec_number() && index_reg.spec_number() <= 52) || base_reg
        == Register::EIP {
        4
    } else if base_reg == Register::BX || base_reg == Register::BP || base_reg == Register::SI
        || base_reg == Register::DI || index_reg == Register::SI || index_reg == Register::DI {
        2
    } else if displ_size == 2 || displ_size == 4 || displ_size == 8 {
        displ_size
    } else {
        match code_size {
            CodeSize::Code64 => 8,
            CodeSize::Code32 => 4,
            CodeSize::Code16 => 2,
            CodeSize::Unknown => 8,
        }
    }
}

/// The RIP/EIP relative address of the memory operand: `next_ip` plus the
/// sign extended displacement, truncated to 32 bits under an `EIP` base.
pub open spec fn spec_ip_relative_address(f: InstrFields) -> u64 {
    let sum = vstd::wrapping::u64_specs::wrapping_add(f.next_rip, sext32bits64(f.mem_displ));
    if Register::spec_from_number(f.mem_base) == Register::EIP {
        (sum as u32) as u64
    } else {
        sum
    }
}

/// The virtual address of a `Memory`-kind operand, given the resolved
/// values of the effective segment base, the base register and the index
/// register: the displacement, sign extended under 64-bit addressing, plus
/// the base (RIP/EIP resolving to `next_ip` rather than through the
/// resolver), plus the scaled index (VSIB-aware), masked to the address
/// width, plus the segment base; every sum wrapping in 64 bits.
pub open spec fn spec_va_memory(
    f: InstrFields,
    seg_base: u64,
    base_val: u64,
    index_val: u64,
) -> u64 {
    let base_reg = Register::spec_from_number(f.mem_base);
    let index_reg = Register::spec_from_number(f.mem_index);
    let addr_size = spec_address_size(
        base_reg,
        index_reg,
        spec_decode_displ_size(f.displ_size),
        CodeSize::spec_from_number(f.code_size),
    );
    let offset0 = if addr_size == 8 {
        sext32bits64(f.mem_displ)
    } else {
        f.mem_displ as u64
    };
    let offset_mask: u64 = if addr_size == 8 {
        0xFFFF_FFFF_FFFF_FFFFu64
    } else if addr_size == 4 {
        0xFFFF_FFFFu64
    } else {
        0xFFFFu64
    };
    let offset1 = if base_reg == Register::None_ {
        offset0
    } else if base_reg == Register::RIP {
        vstd::wrapping::u64_specs::wrapping_add(offset0, f.next_rip)
    } else if base_reg == Register::EIP {
        vstd::wrapping::u64_specs::wrapping_add(offset0, (f.next_rip as u32) as u64)
    } else {
        vstd::wrapping::u64_specs::wrapping_add(offset0, base_val)
    };
    let offset2 = if index_reg == Register::None_ {
        offset1
    } else {
        match Code::spec_from_number(f.code).spec_vsib() {
            Some(true) => vstd::wrapping::u64_specs::wrapping_add(
                offset1,
                index_val << ((f.scale % 4) as u32),
            ),
            Some(false) => vstd::wrapping::u64_specs::wrapping_add(
                offset1,
                ((index_val as u32) as u64) << ((f.scale % 4) as u32),
            ),
            None => vstd::wrapping::u64_specs::wrapping_add(
                offset1,
                index_val << ((f.scale % 4) as u32),
            ),
        }
    };
    vstd::wrapping::u64_specs::wrapping_add(seg_base, offset2 & offset_mask)
}

/// The virtual address of the operand, given the resolved register values:
/// 0 for non-memory kinds; segment base plus fixed register value, at the
/// register's width, for the implicit string-instruction kinds; segment
/// base plus stored address for `Memory64`; and the general computation for
/// `Memory`. Every sum wraps in 64 bits.
pub open spec fn spec_virtual_address(
    f: InstrFields,
    operand: int,
    seg_base: u64,
    base_val: u64,
    index_val: u64,
) -> u64 {
    match OpKind::spec_from_number(f.op_kind_at(operand)) {
        OpKind::MemorySegSI => vstd::wrapping::u64_specs::wrapping_add(
            seg_base,
            (base_val as u16) as u64,
        ),
        OpKind::MemorySegESI => vstd::wrapping::u64_specs::wrapping_add(
            seg_base,
            (base_val as u32) as u64,
        ),
        OpKind::MemorySegRSI => vstd::wrapping::u64_specs::wrapping_add(seg_base, base_val),
        OpKind::MemorySegDI => vstd::wrapping::u64_specs::wrapping_add(
            seg_base,
            (base_val as u16) as u64,
        ),
        OpKind::MemorySegEDI => vstd::wrapping::u64_specs::wrapping_add(
            seg_base,
            (base_val as u32) as u64,
        ),
        OpKind::MemorySegRDI => vstd::wrapping::u64_specs::wrapping_add(seg_base, base_val),
        OpKind::MemoryESDI => vstd::wrapping::u64_specs::wrapping_add(
            seg_base,
            (base_val as u16) as u64,
        ),
        OpKind::MemoryESEDI => vstd::wrapping::u64_specs::wrapping_add(
            seg_base,
            (base_val as u32) as u64,
        ),
        OpKind::MemoryESRDI => vstd::wrapping::u64_specs::wrapping_add(seg_base, base_val),
        OpKind::Memory64 => vstd::wrapping::u64_specs::wrapping_add(
            seg_base,
            hi_lo64(f.mem_displ, f.immediate),
        ),
        OpKind::Memory => spec_va_memory(f, seg_base, base_val, index_val),
        _ => 0,
    }
}

/// Which resolver outputs the virtual address computation relies on for the
/// operand: each register actually consulted is paired with a value the
/// resolver can return for it. Registers the computation never consults
/// constrain nothing.
pub open spec fn spec_va_resolver_ok<F: Fn(Register, i32, i32) -> u64>(
    f: InstrFields,
    operand: int,
    element_index: i32,
    func: F,
    seg_base: u64,
    base_val: u64,
    index_val: u64,
) -> bool {
    match OpKind::spec_from_number(f.op_kind_at(operand)) {
        OpKind::MemorySegSI => call_ensures(func, (spec_memory_segment(f), 0i32, 0i32), seg_base)
            && call_ensures(func, (Register::SI, 0i32, 0i32), base_val),
        OpKind::MemorySegESI => call_ensures(func, (spec_memory_segment(f), 0i32, 0i32), seg_base)
            && call_ensures(func, (Register::ESI, 0i32, 0i32), base_val),
        OpKind::MemorySegRSI => call_ensures(func, (spec_memory_segment(f), 0i32, 0i32), seg_base)
            && call_ensures(func, (Register::RSI, 0i32, 0i32), base_val),
        OpKind::MemorySegDI => call_ensures(func, (spec_memory_segment(f), 0i32, 0i32), seg_base)
            && call_ensures(func, (Register::DI, 0i32, 0i32), base_val),
        OpKind::MemorySegEDI => call_ensures(func, (spec_memory_segment(f), 0i32, 0i32), seg_base)
            && call_ensures(func, (Register::EDI, 0i32, 0i32), base_val),
        OpKind::MemorySegRDI => call_ensures(func, (spec_memory_segment(f), 0i32, 0i32), seg_base)
            && call_ensures(func, (Register::RDI, 0i32, 0i32), base_val),
        OpKind::MemoryESDI => call_ensures(func, (Register::ES, 0i32, 0i32), seg_base)
            && call_ensures(func, (Register::DI, 0i32, 0i32), base_val),
        OpKind::MemoryESEDI => call_ensures(func, (Register::ES, 0i32, 0i32), seg_base)
            && call_ensures(func, (Register::EDI, 0i32, 0i32), base_val),
        OpKind::MemoryESRDI => call_ensures(func, (Register::ES, 0i32, 0i32), seg_base)
            && call_ensures(func, (Register::RDI, 0i32, 0i32), base_val),
        OpKind::Memory64 => call_ensures(func, (spec_memory_segment(f), 0i32, 0i32), seg_base),
        OpKind::Memory => {
            let base_reg = Register::spec_from_number(f.mem_base);
            let index_reg = Register::spec_from_number(f.mem_index);
            call_ensures(func, (spec_memory_segment(f), 0i32, 0i32), seg_base) && (base_reg
                != Register::None_ && base_reg != Register::RIP && base_reg != Register::EIP
                ==> call_ensures(func, (base_reg, 0i32, 0i32), base_val)) && (index_reg
                != Register::None_ ==> match Code::spec_from_number(f.code).spec_vsib() {
                Some(true) => call_ensures(func, (index_reg, element_index, 8i32), index_val),
                Some(false) => call_ensures(func, (index_reg, element_index, 4i32), index_val),
                None => call_ensures(func, (index_reg, element_index, 0i32), index_val),
            })
        },
        _ => true,
    }
}

impl Instruction {
    /// Checks if this is a VSIB instruction, see also `is_vsib32()`,
    /// `is_vsib64()`.
    pub fn is_vsib(&self) -> (r: bool)
        ensures
            r == Code::spec_from_number(self@.code).spec_vsib().is_some(),
    {
        self.vsib().is_some()
    }

    /// VSIB instructions only (`is_vsib()`): `true` if it is using 32-bit
    /// indexes, `false` if it is using 64-bit indexes.
    pub fn is_vsib32(&self) -> (r: bool)
        ensures
            r == (Code::spec_from_number(self@.code).spec_vsib() == Some(false)),
    {
        if let Some(is_vsib64) = self.vsib() {
            !is_vsib64
        } else {
            false
        }
    }

    /// VSIB instructions only (`is_vsib()`): `true` if it is using 64-bit
    /// indexes, `false` if it is using 32-bit indexes.
    pub fn is_vsib64(&self) -> (r: bool)
        ensures
            r == (Code::spec_from_number(self@.code).spec_vsib() == Some(true)),
    {
        if let Some(is_vsib64) = self.vsib() {
            is_vsib64
        } else {
            false
        }
    }

    /// Returns the VSIB classification of the instruction: `Some(true)` for
    /// a VSIB instruction with 64-bit indexes, `Some(false)` for one with
    /// 32-bit indexes, `None` for a non-VSIB instruction. A closed-form
    /// match over the gather/scatter/prefetch code values.
    pub fn vsib(&self) -> (r: Option<bool>)
        ensures
            r == Code::spec_from_number(self@.code).spec_vsib(),
    {
        self.code().vsib()
    }

    /// Returns the suppress-all-exceptions flag (EVEX encoded
    /// instructions). A rounding mode other than `None_` implies SAE, but
    /// this flag still reads back `false` then.
    pub fn suppress_all_exceptions(&self) -> (r: bool)
        ensures
            r == self@.sae,
    {
        self.sae
    }

    /// Sets the suppress-all-exceptions flag (EVEX encoded instructions).
    pub fn set_suppress_all_exceptions(&mut self, new_value: bool)
        ensures
            final(self)@ == (InstrFields { sae: new_value, ..old(self)@ }),
    {
        self.sae = new_value;
    }

    /// Checks if the memory operand is `RIP`/`EIP` relative.
    pub fn is_ip_relative_memory_operand(&self) -> (r: bool)
        ensures
            r == (Register::spec_from_number(self@.mem_base) == Register::RIP
                || Register::spec_from_number(self@.mem_base) == Register::EIP),
    {
        let base_reg = self.memory_base();
        base_reg == Register::RIP || base_reg == Register::EIP
    }

    /// Returns the `RIP`/`EIP` relative address: `next_ip()` (or
    /// `next_ip32()`) plus the sign extended displacement, wrapping in 64
    /// bits. Meaningful only with a `RIP`/`EIP` relative memory operand,
    /// see `is_ip_relative_memory_operand()`.
    pub fn ip_relative_memory_address(&self) -> (r: u64)
        ensures
            r == spec_ip_relative_address(self@),
    {
        let displ64: u64 = if self.mem_displ < 0x8000_0000 {
            self.mem_displ as u64
        } else {
            0xFFFF_FFFF_0000_0000u64 | (self.mem_displ as u64)
        };
        let result = self.next_rip.wrapping_add(displ64);
        if self.memory_base() == Register::EIP {
            (#[verifier::truncate] (result as u32)) as u64
        } else {
            result
        }
    }

    /// Returns the address size in bytes (2, 4 or 8) that a memory operand
    /// with the given base and index registers, displacement size and code
    /// size uses.
    pub fn get_address_size_in_bytes(
        base_reg: Register,
        index_reg: Register,
        displ_size: i32,
        code_size: CodeSize,
    ) -> (r: i32)
        ensures
            r == spec_address_size(base_reg, index_reg, displ_size, code_size),
            r == 2 || r == 4 || r == 8,
    {
        let b = base_reg.number();
        let ix = index_reg.number();
        if (53 <= b && b <= 68) || (53 <= ix && ix <= 68) || base_reg == Register::RIP {
            8
        } else if (37 <= b && b <= 52) || (37 <= ix && ix <= 52) || base_reg == Register::EIP {
            4
        } else if base_reg == Register::BX || base_reg == Register::BP || base_reg == Register::SI
            || base_reg == Register::DI || index_reg == Register::SI || index_reg
            == Register::DI {
            2
        } else if displ_size == 2 || displ_size == 4 || displ_size == 8 {
            displ_size
        } else {
            match code_size {
                CodeSize::Code64 => 8,
                CodeSize::Code32 => 4,
                CodeSize::Code16 => 2,
                CodeSize::Unknown => 8,
            }
        }
    }

    /// Computes the virtual address of a memory operand. `operand` must be
    /// 0-4; `element_index` is the element index in the vector index
    /// register, used only for VSIB operands. The caller supplies the
    /// register resolver: a function from register, element index and
    /// element size to the register's 64-bit value, where a segment
    /// register resolves to its segment base, not its selector. The result
    /// is the address the spec formula gives for values the resolver can
    /// return for the registers actually consulted; a non-memory operand
    /// yields 0.
    pub fn virtual_address<F: Fn(Register, i32, i32) -> u64>(
        &self,
        operand: i32,
        element_index: i32,
        get_register_value: F,
    ) -> (r: u64)
        requires
            0 <= operand <= 4,
            forall|args: (Register, i32, i32)| #[trigger] call_requires(get_register_value, args),
        ensures
            exists|seg_base: u64, base_val: u64, index_val: u64|
                #[trigger] spec_va_resolver_ok(
                    self@,
                    operand as int,
                    element_index,
                    get_register_value,
                    seg_base,
                    base_val,
                    index_val,
                ) && r == spec_virtual_address(
                    self@,
                    operand as int,
                    seg_base,
                    base_val,
                    index_val,
                ),
    {
        let kind = self.op_kind(operand);
        match kind {
            OpKind::MemorySegSI => {
                let s = get_register_value(self.memory_segment(), 0, 0);
                let v = get_register_value(Register::SI, 0, 0);
                let r = s.wrapping_add((#[verifier::truncate] (v as u16)) as u64);
                proof {
                    assert(spec_va_resolver_ok(
                        self@,
                        operand as int,
                        element_index,
                        get_register_value,
                        s,
                        v,
                        0u64,
                    ));
                }
                r
            },
            OpKind::MemorySegESI => {
                let s = get_register_value(self.memory_segment(), 0, 0);
                let v = get_register_value(Register::ESI, 0, 0);
                let r = s.wrapping_add((#[verifier::truncate] (v as u32)) as u64);
                proof {
                    assert(spec_va_resolver_ok(
                        self@,
                        operand as int,
                        element_index,
                        get_register_value,
                        s,
                        v,
                        0u64,
                    ));
                }
                r
            },
            OpKind::MemorySegRSI => {
                let s = get_register_value(self.memory_segment(), 0, 0);
                let v = get_register_value(Register::RSI, 0, 0);
                let r = s.wrapping_add(v);
                proof {
                    assert(spec_va_resolver_ok(
                        self@,
                        operand as int,
                        element_index,
                        get_register_value,
                        s,
                        v,
                        0u64,
                    ));
                }
                r
            },
            OpKind::MemorySegDI => {
                let s = get_register_value(self.memory_segment(), 0, 0);
                let v = get_register_value(Register::DI, 0, 0);
                let r = s.wrapping_add((#[verifier::truncate] (v as u16)) as u64);
                proof {
                    assert(spec_va_resolver_ok(
                        self@,
                        operand as int,
                        element_index,
                        get_register_value,
                        s,
                        v,
                        0u64,
                    ));
                }
                r
            },
            OpKind::MemorySegEDI => {
                let s = get_register_value(self.memory_segment(), 0, 0);
                let v = get_register_value(Register::EDI, 0, 0);
                let r = s.wrapping_add((#[verifier::truncate] (v as u32)) as u64);
                proof {
                    assert(spec_va_resolver_ok(
                        self@,
                        operand as int,
                        element_index,
                        get_register_value,
                        s,
                        v,
                        0u64,
                    ));
                }
                r
            },
            OpKind::MemorySegRDI => {
                let s = get_register_value(self.memory_segment(), 0, 0);
                let v = get_register_value(Register::RDI, 0, 0);
                let r = s.wrapping_add(v);
                proof {
                    assert(spec_va_resolver_ok(
                        self@,
                        operand as int,
                        element_index,
                        get_register_value,
                        s,
                        v,
                        0u64,
                    ));
                }
                r
            },
            OpKind::MemoryESDI => {
                let s = get_register_value(Register::ES, 0, 0);
                let v = get_register_value(Register::DI, 0, 0);
                let r = s.wrapping_add((#[verifier::truncate] (v as u16)) as u64);
                proof {
                    assert(spec_va_resolver_ok(
                        self@,
                        operand as int,
                        element_index,
                        get_register_value,
                        s,
                        v,
                        0u64,
                    ));
                }
                r
            },
            OpKind::MemoryESEDI => {
                let s = get_register_value(Register::ES, 0, 0);
                let v = get_register_value(Register::EDI, 0, 0);
                let r = s.wrapping_add((#[verifier::truncate] (v as u32)) as u64);
                proof {
                    assert(spec_va_resolver_ok(
                        self@,
                        operand as int,
                        element_index,
                        get_register_value,
                        s,
                        v,
                        0u64,
                    ));
                }
                r
            },
            OpKind::MemoryESRDI => {
                let s = get_register_value(Register::ES, 0, 0);
                let v = get_register_value(Register::RDI, 0, 0);
                let r = s.wrapping_add(v);
                proof {
                    assert(spec_va_resolver_ok(
                        self@,
                        operand as int,
                        element_index,
                        get_register_value,
                        s,
                        v,
                        0u64,
                    ));
                }
                r
            },
            OpKind::Memory64 => {
                let s = get_register_value(self.memory_segment(), 0, 0);
                let r = s.wrapping_add(self.memory_address64());
                proof {
                    assert(spec_va_resolver_ok(
                        self@,
                        operand as int,
                        element_index,
                        get_register_value,
                        s,
                        0u64,
                        0u64,
                    ));
                }
                r
            },
            OpKind::Memory => {
                let base_reg = self.memory_base();
                let index_reg = self.memory_index();
                let addr_size = Self::get_address_size_in_bytes(
                    base_reg,
                    index_reg,
                    self.memory_displ_size(),
                    self.code_size(),
                );
                let mut offset: u64 = if addr_size == 8 {
                    if self.mem_displ < 0x8000_0000 {
                        self.mem_displ as u64
                    } else {
                        0xFFFF_FFFF_0000_0000u64 | (self.mem_displ as u64)
                    }
                } else {
                    self.mem_displ as u64
                };
                let offset_mask: u64 = if addr_size == 8 {
                    0xFFFF_FFFF_FFFF_FFFFu64
                } else if addr_size == 4 {
                    0xFFFF_FFFFu64
                } else {
                    0xFFFFu64
                };
                let mut base_val: u64 = 0;
                if base_reg == Register::None_ {
                } else if base_reg == Register::RIP {
                    offset = offset.wrapping_add(self.next_rip);
                } else if base_reg == Register::EIP {
                    offset = offset.wrapping_add(
                        (#[verifier::truncate] (self.next_rip as u32)) as u64,
                    );
                } else {
                    base_val = get_register_value(base_reg, 0, 0);
                    offset = offset.wrapping_add(base_val);
                }
                let mut index_val: u64 = 0;
                if index_reg != Register::None_ {
                    let sh: u32 = (self.scale % 4) as u32;
                    match self.vsib() {
                        Some(is_vsib64) => {
                            if is_vsib64 {
                                index_val = get_register_value(index_reg, element_index, 8);
                                offset = offset.wrapping_add(index_val << sh);
                            } else {
                                index_val = get_register_value(index_reg, element_index, 4);
                                offset = offset.wrapping_add(
                                    ((#[verifier::truncate] (index_val as u32)) as u64) << sh,
                                );
                            }
                        },
                        None => {
                            index_val = get_register_value(index_reg, element_index, 0);
                            offset = offset.wrapping_add(index_val << sh);
                        },
                    }
                }
                offset = offset & offset_mask;
                let s = get_register_value(self.memory_segment(), 0, 0);
                let r = s.wrapping_add(offset);
                proof {
                    assert(spec_va_resolver_ok(
                        self@,
                        operand as int,
                        element_index,
                        get_register_value,
                        s,
                        base_val,
                        index_val,
                    ));
                }
                r
            },
            _ => {
                proof {
                    assert(spec_va_resolver_ok(
                        self@,
                        operand as int,
                        element_index,
                        get_register_value,
                        0u64,
                        0u64,
                        0u64,
                    ));
                }
                0
            },
        }
    }
}

} // verus!
