use iced_x86::Code;
use iced_x86::CodeSize;
use iced_x86::Instruction;
use iced_x86::OpKind;
use iced_x86::Register;

#[test]
fn address_size_follows_register_class_then_displ_then_code_size() {
    assert_eq!(
        Instruction::get_address_size_in_bytes(Register::RAX, Register::None_, 0, CodeSize::Unknown),
        8
    );
    assert_eq!(
        Instruction::get_address_size_in_bytes(Register::None_, Register::R15, 0, CodeSize::Unknown),
        8
    );
    assert_eq!(
        Instruction::get_address_size_in_bytes(Register::RIP, Register::None_, 0, CodeSize::Code16),
        8
    );
    assert_eq!(
        Instruction::get_address_size_in_bytes(Register::EAX, Register::None_, 0, CodeSize::Unknown),
        4
    );
    assert_eq!(
        Instruction::get_address_size_in_bytes(Register::None_, Register::R15D, 0, CodeSize::Unknown),
        4
    );
    assert_eq!(
        Instruction::get_address_size_in_bytes(Register::EIP, Register::None_, 0, CodeSize::Code16),
        4
    );
    assert_eq!(
        Instruction::get_address_size_in_bytes(Register::BX, Register::None_, 0, CodeSize::Unknown),
        2
    );
    assert_eq!(
        Instruction::get_address_size_in_bytes(Register::None_, Register::SI, 0, CodeSize::Unknown),
        2
    );
    assert_eq!(
        Instruction::get_address_size_in_bytes(Register::None_, Register::None_, 4, CodeSize::Code16),
        4
    );
    assert_eq!(
        Instruction::get_address_size_in_bytes(Register::None_, Register::None_, 8, CodeSize::Code16),
        8
    );
    assert_eq!(
        Instruction::get_address_size_in_bytes(Register::None_, Register::None_, 1, CodeSize::Code16),
        2
    );
    assert_eq!(
        Instruction::get_address_size_in_bytes(Register::None_, Register::None_, 0, CodeSize::Code32),
        4
    );
    assert_eq!(
        Instruction::get_address_size_in_bytes(Register::None_, Register::None_, 0, CodeSize::Code64),
        8
    );
    assert_eq!(
        Instruction::get_address_size_in_bytes(Register::None_, Register::None_, 0, CodeSize::Unknown),
        8
    );
}

#[test]
fn ip_relative_memory_address_follows_base() {
    let mut instr = Instruction::new();
    instr.set_len(6);
    instr.set_next_ip(0x7000);
    instr.set_memory_base(Register::RIP);
    instr.set_memory_displacement(0x10);
    assert!(instr.is_ip_relative_memory_operand());
    assert_eq!(instr.ip_relative_memory_address(), 0x7010);
    instr.set_memory_displacement(0xFFFF_FFF0);
    assert_eq!(instr.ip_relative_memory_address(), 0x6FF0);
    instr.set_memory_base(Register::EIP);
    instr.set_next_ip(0x1_0000_0010);
    instr.set_memory_displacement(0x10);
    assert!(instr.is_ip_relative_memory_operand());
    assert_eq!(instr.ip_relative_memory_address(), 0x20);
    instr.set_memory_base(Register::RBX);
    assert!(!instr.is_ip_relative_memory_operand());
}

fn resolver(reg: Register, _element_index: i32, _element_size: i32) -> u64 {
    match reg {
        Register::DS => 0,
        Register::SS => 0x100,
        Register::ES => 0x200,
        Register::FS => 0x10_0000,
        Register::RCX => 0x1000,
        Register::RDX => 0x10,
        Register::RBP => 0x2000,
        Register::SI => 0x1234,
        Register::ESI => 0x1111_2222,
        Register::RDI => 0x9999_0000_0000_1111,
        Register::ZMM3 => 0x80,
        Register::EBX => 0x3000,
        _ => 0,
    }
}

#[test]
fn virtual_address_of_non_memory_operand_is_zero() {
    let mut instr = Instruction::new();
    instr.set_op0_kind(OpKind::Immediate32);
    assert_eq!(instr.virtual_address(0, 0, resolver), 0);
    instr.set_op0_kind(OpKind::Register);
    assert_eq!(instr.virtual_address(0, 0, resolver), 0);
}

#[test]
fn virtual_address_of_string_operands() {
    let mut instr = Instruction::new();
    instr.set_op0_kind(OpKind::MemorySegSI);
    assert_eq!(instr.virtual_address(0, 0, resolver), 0x1234);
    instr.set_segment_prefix(Register::FS);
    assert_eq!(instr.virtual_address(0, 0, resolver), 0x10_1234);
    instr.set_segment_prefix(Register::None_);
    instr.set_op0_kind(OpKind::MemorySegESI);
    assert_eq!(instr.virtual_address(0, 0, resolver), 0x1111_2222);
    instr.set_op0_kind(OpKind::MemoryESRDI);
    assert_eq!(instr.virtual_address(0, 0, resolver), 0x9999_0000_0000_1311);
}

#[test]
fn virtual_address_of_memory64_operand() {
    let mut instr = Instruction::new();
    instr.set_op0_kind(OpKind::Memory64);
    instr.set_memory_address64(0x1_0000_0000);
    assert_eq!(instr.virtual_address(0, 0, resolver), 0x1_0000_0000);
    instr.set_segment_prefix(Register::FS);
    assert_eq!(instr.virtual_address(0, 0, resolver), 0x1_0010_0000);
}

#[test]
fn virtual_address_of_general_memory_operand() {
    let mut instr = Instruction::new();
    instr.set_op0_kind(OpKind::Memory);
    instr.set_memory_base(Register::RCX);
    instr.set_memory_index(Register::RDX);
    instr.set_memory_index_scale(4);
    instr.set_memory_displacement(0x20);
    assert_eq!(instr.virtual_address(0, 0, resolver), 0x1000 + 0x10 * 4 + 0x20);
}

#[test]
fn virtual_address_masks_to_the_address_width() {
    let mut instr = Instruction::new();
    instr.set_op0_kind(OpKind::Memory);
    instr.set_memory_base(Register::EBX);
    instr.set_memory_displacement(0xFFFF_FFF0);
    // 32-bit addressing: the sum wraps inside 32 bits before the segment
    // base is added.
    assert_eq!(instr.virtual_address(0, 0, resolver), (0x3000u64 + 0xFFFF_FFF0) & 0xFFFF_FFFF);
}

#[test]
fn virtual_address_resolves_rip_base_to_next_ip() {
    let mut instr = Instruction::new();
    instr.set_op0_kind(OpKind::Memory);
    instr.set_memory_base(Register::RIP);
    instr.set_next_ip(0x7000);
    instr.set_memory_displacement(0x10);
    assert_eq!(instr.virtual_address(0, 0, resolver), 0x7010);
}

#[test]
fn virtual_address_of_vsib_operand_scales_the_element() {
    let mut instr = Instruction::new();
    instr.set_code(Code::EVEX_Vpgatherdd_zmm_k1_vm32z);
    instr.set_op0_kind(OpKind::Memory);
    instr.set_memory_base(Register::RBP);
    instr.set_memory_index(Register::ZMM3);
    instr.set_memory_index_scale(4);
    // Base RBP selects the SS segment by the implicit default-segment rule.
    assert_eq!(
        instr.virtual_address(0, 2, resolver),
        0x100 + 0x2000 + (0x80u64 << 2)
    );
}

#[test]
fn virtual_address_masks_to_sixteen_bits_with_bx_base() {
    let mut instr = Instruction::new();
    instr.set_op0_kind(OpKind::Memory);
    instr.set_memory_base(Register::BX);
    instr.set_memory_displacement(0xFFF0);
    // resolver(BX) is 0 and 16-bit addressing wraps inside 16 bits.
    assert_eq!(instr.virtual_address(0, 0, resolver), 0xFFF0);
    instr.set_memory_displacement(0x1_FFF0);
    assert_eq!(instr.virtual_address(0, 0, resolver), 0xFFF0);
}
