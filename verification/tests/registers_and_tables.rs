use iced_x86::Code;
use iced_x86::Instruction;
use iced_x86::MemorySize;
use iced_x86::Mnemonic;
use iced_x86::Register;
use iced_x86::FIRST_BROADCAST_MEMORY_SIZE;
use iced_x86::NUMBER_OF_MEMORY_SIZES;
use iced_x86::NUMBER_OF_REGISTERS;

#[test]
fn register_add_steps_within_a_class() {
    assert_eq!(Register::AL.add(19), Register::R15L);
    assert_eq!(Register::AL.add(1), Register::CL);
    assert_eq!(Register::EAX.add(1), Register::ECX);
    assert_eq!(Register::EAX.add(2), Register::EDX);
    assert_eq!(Register::XMM0.add(15), Register::XMM15);
    assert_eq!(Register::K1.add(6), Register::K7);
    assert_eq!(Register::None_.add(0), Register::None_);
}

#[test]
fn register_sub_steps_within_a_class() {
    assert_eq!(Register::R15L.sub(19), Register::AL);
    assert_eq!(Register::ECX.sub(1), Register::EDX.sub(2));
    assert_eq!(Register::ZMM31.sub(31), Register::ZMM0);
}

#[test]
fn register_number_roundtrip_over_the_whole_space() {
    for n in 0u32..NUMBER_OF_REGISTERS {
        let r = Register::from_number(n as u8);
        assert_eq!(r.number() as u32, n);
    }
    assert_eq!(Register::from_number(255), Register::None_);
}

#[test]
fn memory_size_table_consistency() {
    for n in 0u32..NUMBER_OF_MEMORY_SIZES {
        let m = MemorySize::from_number(n as u8);
        assert_eq!(m.number() as u32, n);
        let info = m.info();
        assert!(info.element_size() <= info.size());
        assert_eq!(info.memory_size(), m);
        assert_eq!(m.size(), info.size());
        assert_eq!(m.element_size(), info.element_size());
        assert_eq!(m.element_type(), info.element_type());
        assert_eq!(m.is_signed(), info.is_signed());
        assert_eq!(m.is_packed(), info.is_packed());
        assert_eq!(m.is_packed(), info.element_size() < info.size());
        if !m.is_packed() {
            assert_eq!(m.element_count(), 1);
        } else {
            assert_eq!(m.element_count(), info.size() / info.element_size());
        }
        assert_eq!(m.is_broadcast(), n >= FIRST_BROADCAST_MEMORY_SIZE);
        assert_eq!(m.is_broadcast(), info.is_broadcast());
    }
}

#[test]
fn memory_size_sample_values() {
    assert_eq!(MemorySize::UInt8.size(), 1);
    assert_eq!(MemorySize::UInt64.size(), 8);
    assert_eq!(MemorySize::Packed128_Float32.size(), 16);
    assert_eq!(MemorySize::Packed128_Float32.element_size(), 4);
    assert_eq!(MemorySize::Packed128_Float32.element_count(), 4);
    assert_eq!(MemorySize::Packed128_Float32.element_type(), MemorySize::Float32);
    assert!(MemorySize::Packed128_Float32.is_packed());
    assert!(MemorySize::Packed128_Float32.is_signed());
    assert!(!MemorySize::Packed128_Float32.is_broadcast());
    assert!(MemorySize::Broadcast64_UInt32.is_broadcast());
    assert!(!MemorySize::Broadcast64_UInt32.is_signed());
    assert_eq!(MemorySize::Unknown.size(), 0);
    assert_eq!(MemorySize::Unknown.element_count(), 1);
    assert_eq!(
        MemorySize::Packed32_BFloat16.info().element_type_info().size(),
        MemorySize::BFloat16.size()
    );
}

#[test]
fn mnemonic_and_op_count_follow_the_code() {
    let mut instr = Instruction::new();
    instr.set_code(Code::DeclareByte);
    assert_eq!(instr.mnemonic(), Mnemonic::Db);
    assert_eq!(instr.op_count(), 1);
    instr.set_code(Code::DeclareWord);
    assert_eq!(instr.mnemonic(), Mnemonic::Dw);
    instr.set_code(Code::DeclareDword);
    assert_eq!(instr.mnemonic(), Mnemonic::Dd);
    instr.set_code(Code::DeclareQword);
    assert_eq!(instr.mnemonic(), Mnemonic::Dq);
    instr.set_code(Code::Mov_r32_rm32);
    assert_eq!(instr.mnemonic(), Mnemonic::Mov);
    assert_eq!(instr.op_count(), 2);
    instr.set_code(Code::Push_r64);
    assert_eq!(instr.op_count(), 1);
    instr.set_code(Code::EVEX_Vaddps_zmm_k1z_zmm_zmmm512b32);
    assert_eq!(instr.mnemonic(), Mnemonic::Vaddps);
    assert_eq!(instr.op_count(), 3);
    instr.set_code(Code::EVEX_Vpgatherdd_zmm_k1_vm32z);
    assert_eq!(instr.mnemonic(), Mnemonic::Vpgatherdd);
    assert_eq!(instr.op_count(), 2);
}

#[test]
fn memory_size_table_doubles_on_broadcast() {
    let mut instr = Instruction::new();
    instr.set_code(Code::EVEX_Vaddps_zmm_k1z_zmm_zmmm512b32);
    assert_eq!(instr.memory_size(), MemorySize::Packed512_Float32);
    instr.set_is_broadcast(true);
    assert!(instr.is_broadcast());
    assert_eq!(instr.memory_size(), MemorySize::Broadcast512_Float32);
    instr.set_is_broadcast(false);
    assert_eq!(instr.memory_size(), MemorySize::Packed512_Float32);
    instr.set_code(Code::DeclareWord);
    assert_eq!(instr.memory_size(), MemorySize::UInt16);
    instr.set_code(Code::INVALID);
    assert_eq!(instr.memory_size(), MemorySize::Unknown);
}

#[test]
fn vsib_classification_scenario() {
    let mut instr = Instruction::new();
    instr.set_code(Code::EVEX_Vpgatherdd_zmm_k1_vm32z);
    assert_eq!(instr.vsib(), Some(false));
    assert!(instr.is_vsib());
    assert!(instr.is_vsib32());
    assert!(!instr.is_vsib64());
    instr.set_code(Code::EVEX_Vpgatherqq_zmm_k1_vm64z);
    assert_eq!(instr.vsib(), Some(true));
    assert!(instr.is_vsib());
    assert!(!instr.is_vsib32());
    assert!(instr.is_vsib64());
    instr.set_code(Code::Mov_r32_rm32);
    assert_eq!(instr.vsib(), None);
    assert!(!instr.is_vsib());
    assert!(!instr.is_vsib32());
    assert!(!instr.is_vsib64());
    instr.set_code(Code::VEX_Vpgatherdd_xmm_vm32x_xmm);
    assert_eq!(instr.vsib(), Some(false));
    instr.set_code(Code::EVEX_Vscatterpf1qpd_vm64z_k1);
    assert_eq!(instr.vsib(), Some(true));
}
