use iced_x86::Code;
use iced_x86::CodeSize;
use iced_x86::Instruction;
use iced_x86::Mnemonic;
use iced_x86::OpKind;
use iced_x86::Register;
use iced_x86::RoundingControl;

#[test]
fn empty_instruction_is_all_clear() {
    let instr = Instruction::new();
    assert_eq!(instr.code(), Code::INVALID);
    assert_eq!(instr.mnemonic(), Mnemonic::INVALID);
    assert_eq!(instr.op_count(), 0);
    assert_eq!(instr.len(), 0);
    assert_eq!(instr.code_size(), CodeSize::Unknown);
    assert_eq!(instr.op0_kind(), OpKind::Register);
    assert_eq!(instr.op1_kind(), OpKind::Register);
    assert_eq!(instr.op2_kind(), OpKind::Register);
    assert_eq!(instr.op3_kind(), OpKind::Register);
    assert_eq!(instr.op4_kind(), OpKind::Immediate8);
    assert_eq!(instr.op0_register(), Register::None_);
    assert_eq!(instr.op4_register(), Register::None_);
    assert_eq!(instr.memory_base(), Register::None_);
    assert_eq!(instr.memory_index(), Register::None_);
    assert_eq!(instr.memory_segment(), Register::DS);
    assert_eq!(instr.segment_prefix(), Register::None_);
    assert_eq!(instr.opmask(), Register::None_);
    assert!(!instr.has_opmask());
    assert!(!instr.has_lock_prefix());
    assert!(!instr.is_broadcast());
    assert_eq!(instr.rounding_control(), RoundingControl::None_);
    assert_eq!(instr.declare_data_len(), 1);
    assert_eq!(instr.memory_displ_size(), 0);
    assert_eq!(instr.memory_index_scale(), 1);
    assert!(!instr.suppress_all_exceptions());
    assert!(instr.merging_masking());
    assert!(!instr.zeroing_masking());
}

#[test]
fn default_equals_new() {
    let a = Instruction::new();
    let b = Instruction::default();
    assert!(a.eq_all_bits(b));
    assert!(a == b);
}

#[test]
fn immediate64_roundtrip() {
    let mut instr = Instruction::new();
    instr.set_op0_kind(OpKind::Immediate64);
    instr.set_immediate64(0);
    assert_eq!(instr.immediate64(), 0);
    assert_eq!(instr.immediate(0), 0);
    instr.set_immediate64(0xFFFF_FFFF_FFFF_FFFF);
    assert_eq!(instr.immediate64(), 0xFFFF_FFFF_FFFF_FFFF);
    instr.set_immediate64(0x0123_4567_89AB_CDEF);
    assert_eq!(instr.immediate64(), 0x0123_4567_89AB_CDEF);
}

#[test]
fn narrow_immediate_roundtrips() {
    let mut instr = Instruction::new();
    instr.set_immediate8(0xFF);
    assert_eq!(instr.immediate8(), 0xFF);
    instr.set_immediate8(0);
    assert_eq!(instr.immediate8(), 0);
    instr.set_immediate8_2nd(0xA5);
    assert_eq!(instr.immediate8_2nd(), 0xA5);
    instr.set_immediate16(0xBEEF);
    assert_eq!(instr.immediate16(), 0xBEEF);
    instr.set_immediate32(0xDEAD_BEEF);
    assert_eq!(instr.immediate32(), 0xDEAD_BEEF);
}

#[test]
fn sign_extending_immediate_roundtrips() {
    let mut instr = Instruction::new();
    instr.set_immediate8to16(-128);
    assert_eq!(instr.immediate8to16(), -128);
    instr.set_immediate8to16(127);
    assert_eq!(instr.immediate8to16(), 127);
    instr.set_immediate8to32(-1);
    assert_eq!(instr.immediate8to32(), -1);
    instr.set_immediate8to64(-100);
    assert_eq!(instr.immediate8to64(), -100);
    instr.set_immediate32to64(-0x8000_0000);
    assert_eq!(instr.immediate32to64(), -0x8000_0000);
    instr.set_immediate32to64(0x7FFF_FFFF);
    assert_eq!(instr.immediate32to64(), 0x7FFF_FFFF);
}

#[test]
fn immediate_dispatch_widens_by_kind() {
    let mut instr = Instruction::new();
    instr.set_op0_kind(OpKind::Immediate8);
    instr.set_immediate_u64(0, 0x1FF);
    assert_eq!(instr.immediate(0), 0xFF);
    instr.set_op0_kind(OpKind::Immediate8to64);
    instr.set_immediate_u64(0, 0xFF);
    assert_eq!(instr.immediate(0), 0xFFFF_FFFF_FFFF_FFFF);
    instr.set_op1_kind(OpKind::Immediate8_2nd);
    instr.set_immediate_u32(1, 0x1A5);
    assert_eq!(instr.immediate(1), 0xA5);
    instr.set_op0_kind(OpKind::Immediate32to64);
    instr.set_immediate_i32(0, -1);
    assert_eq!(instr.immediate(0), 0xFFFF_FFFF_FFFF_FFFF);
    instr.set_op0_kind(OpKind::Immediate16);
    instr.set_immediate_i64(0, 0x1_2345);
    assert_eq!(instr.immediate(0), 0x2345);
}

#[test]
fn branch_roundtrips() {
    let mut instr = Instruction::new();
    instr.set_near_branch16(0x1234);
    assert_eq!(instr.near_branch16(), 0x1234);
    instr.set_near_branch32(0x1234_5678);
    assert_eq!(instr.near_branch32(), 0x1234_5678);
    instr.set_near_branch64(0x1234_5678_9ABC_DEF0);
    assert_eq!(instr.near_branch64(), 0x1234_5678_9ABC_DEF0);
    instr.set_far_branch16(0xAAAA);
    instr.set_far_branch_selector(0x10);
    assert_eq!(instr.far_branch16(), 0xAAAA);
    assert_eq!(instr.far_branch_selector(), 0x10);
    instr.set_far_branch32(0xBBBB_CCCC);
    assert_eq!(instr.far_branch32(), 0xBBBB_CCCC);
    instr.set_memory_address64(0xFEDC_BA98_7654_3210);
    assert_eq!(instr.memory_address64(), 0xFEDC_BA98_7654_3210);
}

#[test]
fn near_branch_target_follows_op0_kind() {
    let mut instr = Instruction::new();
    instr.set_op0_kind(OpKind::NearBranch16);
    instr.set_near_branch16(0x8000);
    assert_eq!(instr.near_branch_target(), 0x8000);
    instr.set_op0_kind(OpKind::NearBranch32);
    instr.set_near_branch32(0x8000_0000);
    assert_eq!(instr.near_branch_target(), 0x8000_0000);
    instr.set_op0_kind(OpKind::NearBranch64);
    instr.set_near_branch64(0x8000_0000_0000_0000);
    assert_eq!(instr.near_branch_target(), 0x8000_0000_0000_0000);
    instr.set_op0_kind(OpKind::Register);
    assert_eq!(instr.near_branch_target(), 0);
}

#[test]
fn register_slot_roundtrips() {
    let mut instr = Instruction::new();
    instr.set_op0_register(Register::RAX);
    instr.set_op1_register(Register::ZMM31);
    instr.set_op2_register(Register::K7);
    instr.set_op3_register(Register::TR7);
    assert_eq!(instr.op0_register(), Register::RAX);
    assert_eq!(instr.op1_register(), Register::ZMM31);
    assert_eq!(instr.op2_register(), Register::K7);
    assert_eq!(instr.op3_register(), Register::TR7);
    assert_eq!(instr.op_register(0), Register::RAX);
    assert_eq!(instr.op_register(4), Register::None_);
    instr.set_op_register(2, Register::MM3);
    assert_eq!(instr.op2_register(), Register::MM3);
    instr.set_op_register(4, Register::None_);
    instr.set_memory_base(Register::RBP);
    instr.set_memory_index(Register::XMM5);
    assert_eq!(instr.memory_base(), Register::RBP);
    assert_eq!(instr.memory_index(), Register::XMM5);
}

#[test]
fn op_kind_roundtrips_for_every_kind() {
    let mut instr = Instruction::new();
    let kinds = [
        OpKind::Register,
        OpKind::NearBranch16,
        OpKind::NearBranch32,
        OpKind::NearBranch64,
        OpKind::FarBranch16,
        OpKind::FarBranch32,
        OpKind::Immediate8,
        OpKind::Immediate8_2nd,
        OpKind::Immediate16,
        OpKind::Immediate32,
        OpKind::Immediate64,
        OpKind::Immediate8to16,
        OpKind::Immediate8to32,
        OpKind::Immediate8to64,
        OpKind::Immediate32to64,
        OpKind::MemorySegSI,
        OpKind::MemorySegESI,
        OpKind::MemorySegRSI,
        OpKind::MemorySegDI,
        OpKind::MemorySegEDI,
        OpKind::MemorySegRDI,
        OpKind::MemoryESDI,
        OpKind::MemoryESEDI,
        OpKind::MemoryESRDI,
        OpKind::Memory64,
        OpKind::Memory,
    ];
    for &k in kinds.iter() {
        instr.set_op0_kind(k);
        assert_eq!(instr.op0_kind(), k);
        instr.set_op3_kind(k);
        assert_eq!(instr.op3_kind(), k);
        instr.set_op_kind(1, k);
        assert_eq!(instr.op_kind(1), k);
    }
    instr.set_op_kind(4, OpKind::Immediate8);
    assert_eq!(instr.op_kind(4), OpKind::Immediate8);
}

#[test]
fn ip_roundtrips_and_wrapping() {
    let mut instr = Instruction::new();
    instr.set_len(4);
    assert_eq!(instr.len(), 4);
    instr.set_ip(0x1000);
    assert_eq!(instr.ip(), 0x1000);
    assert_eq!(instr.next_ip(), 0x1004);
    instr.set_ip16(0x2000);
    assert_eq!(instr.ip16(), 0x2000);
    assert_eq!(instr.next_ip16(), 0x2004);
    instr.set_ip32(0x3000_0000);
    assert_eq!(instr.ip32(), 0x3000_0000);
    assert_eq!(instr.next_ip32(), 0x3000_0004);
    instr.set_next_ip(2);
    assert_eq!(instr.ip(), 2u64.wrapping_sub(4));
    instr.set_next_ip(0xFFFF_FFFF_FFFF_FFFF);
    instr.set_ip(instr.ip());
    assert_eq!(instr.next_ip(), 0xFFFF_FFFF_FFFF_FFFF);
}

#[test]
fn prefix_flags_roundtrip_and_are_independent() {
    let mut instr = Instruction::new();
    instr.set_has_lock_prefix(true);
    instr.set_has_repe_prefix(true);
    assert!(instr.has_lock_prefix());
    assert!(instr.has_repe_prefix());
    assert!(instr.has_rep_prefix());
    instr.set_has_repne_prefix(true);
    instr.set_has_xacquire_prefix(true);
    instr.set_has_xrelease_prefix(true);
    assert!(instr.has_lock_prefix());
    assert!(instr.has_repe_prefix());
    assert!(instr.has_repne_prefix());
    assert!(instr.has_xacquire_prefix());
    assert!(instr.has_xrelease_prefix());
    instr.set_has_rep_prefix(false);
    assert!(!instr.has_repe_prefix());
    assert!(instr.has_lock_prefix());
    assert!(instr.has_repne_prefix());
    instr.set_has_lock_prefix(false);
    assert!(!instr.has_lock_prefix());
    assert!(instr.has_xacquire_prefix());
}

#[test]
fn setting_one_field_leaves_others_alone() {
    let mut instr = Instruction::new();
    instr.set_code(Code::DeclareQword);
    instr.set_op0_register(Register::EAX);
    instr.set_memory_displacement(0x55);
    instr.set_opmask(Register::K2);
    instr.set_len(7);
    instr.set_memory_index_scale(4);
    instr.set_code_size(CodeSize::Code32);
    assert_eq!(instr.code(), Code::DeclareQword);
    assert_eq!(instr.op0_register(), Register::EAX);
    assert_eq!(instr.memory_displacement(), 0x55);
    assert_eq!(instr.opmask(), Register::K2);
    assert_eq!(instr.len(), 7);
    assert_eq!(instr.memory_index_scale(), 4);
    assert_eq!(instr.code_size(), CodeSize::Code32);
}

#[test]
fn equality_ignores_bookkeeping() {
    let mut a = Instruction::new();
    a.set_code(Code::Mov_r32_rm32);
    a.set_op0_register(Register::EAX);
    a.set_op1_kind(OpKind::Memory);
    a.set_memory_base(Register::ECX);
    let mut b = a;
    a.set_len(3);
    b.set_len(5);
    a.set_code_size(CodeSize::Code32);
    b.set_code_size(CodeSize::Code64);
    assert!(a == b);
    assert!(!a.eq_all_bits(b));
    b.set_len(3);
    b.set_code_size(CodeSize::Code32);
    assert!(a.eq_all_bits(b));
    b.set_memory_base(Register::EDX);
    assert!(a != b);
}

#[test]
fn displ_size_roundtrip_with_bucketing() {
    let mut instr = Instruction::new();
    for &v in [0i32, 1, 2, 4, 8].iter() {
        instr.set_memory_displ_size(v);
        assert_eq!(instr.memory_displ_size(), v);
    }
    instr.set_memory_displ_size(3);
    let got = instr.memory_displ_size();
    assert!(got == 0 || got == 1 || got == 2 || got == 4 || got == 8);
    assert_eq!(got, 8);
}

#[test]
fn scale_roundtrip_with_bucketing() {
    let mut instr = Instruction::new();
    for &v in [1i32, 2, 4, 8].iter() {
        instr.set_memory_index_scale(v);
        assert_eq!(instr.memory_index_scale(), v);
    }
    instr.set_memory_index_scale(3);
    assert_eq!(instr.memory_index_scale(), 8);
}

#[test]
fn opmask_and_masking_mode_scenario() {
    let mut instr = Instruction::new();
    instr.set_opmask(Register::K3);
    instr.set_zeroing_masking(true);
    assert!(instr.has_opmask());
    assert_eq!(instr.opmask(), Register::K3);
    assert!(instr.zeroing_masking());
    assert!(!instr.merging_masking());
    instr.set_merging_masking(true);
    assert!(!instr.zeroing_masking());
    assert!(instr.merging_masking());
}

#[test]
fn opmask_k0_reads_back_as_none() {
    let mut instr = Instruction::new();
    for i in 1u8..=7 {
        let k = Register::from_number(173 + i);
        instr.set_opmask(k);
        assert_eq!(instr.opmask(), k);
        assert!(instr.has_opmask());
    }
    instr.set_opmask(Register::K0);
    assert_eq!(instr.opmask(), Register::None_);
    assert!(!instr.has_opmask());
    instr.set_opmask(Register::None_);
    assert_eq!(instr.opmask(), Register::None_);
}

#[test]
fn rounding_control_and_sae_roundtrip() {
    let mut instr = Instruction::new();
    let modes = [
        RoundingControl::None_,
        RoundingControl::RoundToNearest,
        RoundingControl::RoundDown,
        RoundingControl::RoundUp,
        RoundingControl::RoundTowardZero,
    ];
    for &m in modes.iter() {
        instr.set_rounding_control(m);
        assert_eq!(instr.rounding_control(), m);
    }
    instr.set_suppress_all_exceptions(true);
    assert!(instr.suppress_all_exceptions());
    instr.set_suppress_all_exceptions(false);
    assert!(!instr.suppress_all_exceptions());
}

#[test]
fn segment_prefix_roundtrip_and_memory_segment_rule() {
    let mut instr = Instruction::new();
    let segs = [
        Register::ES,
        Register::CS,
        Register::SS,
        Register::DS,
        Register::FS,
        Register::GS,
    ];
    for &s in segs.iter() {
        instr.set_segment_prefix(s);
        assert_eq!(instr.segment_prefix(), s);
        assert_eq!(instr.memory_segment(), s);
    }
    instr.set_segment_prefix(Register::None_);
    assert_eq!(instr.segment_prefix(), Register::None_);
    assert_eq!(instr.memory_segment(), Register::DS);
    instr.set_memory_base(Register::EBP);
    assert_eq!(instr.memory_segment(), Register::SS);
    instr.set_memory_base(Register::RSP);
    assert_eq!(instr.memory_segment(), Register::SS);
    instr.set_memory_base(Register::BP);
    assert_eq!(instr.memory_segment(), Register::SS);
    instr.set_memory_base(Register::EAX);
    assert_eq!(instr.memory_segment(), Register::DS);
    instr.set_segment_prefix(Register::FS);
    assert_eq!(instr.memory_segment(), Register::FS);
}

#[test]
fn memory_displacement64_sign_extends() {
    let mut instr = Instruction::new();
    instr.set_memory_displacement(0x10);
    assert_eq!(instr.memory_displacement64(), 0x10);
    instr.set_memory_displacement(0x8000_0000);
    assert_eq!(instr.memory_displacement64(), 0xFFFF_FFFF_8000_0000);
}
