use iced_x86::Code;
use iced_x86::Instruction;

#[test]
fn declare_data_len_roundtrip() {
    let mut instr = Instruction::new();
    instr.set_code(Code::DeclareByte);
    for n in 1i32..=16 {
        instr.set_declare_data_len(n);
        assert_eq!(instr.declare_data_len(), n);
    }
}

#[test]
fn declare_byte_values_roundtrip_all_indexes() {
    let mut instr = Instruction::new();
    instr.set_code(Code::DeclareByte);
    instr.set_declare_data_len(16);
    for i in 0i32..16 {
        instr.set_declare_byte_value(i, (i * 3 + 7) as u8);
    }
    for i in 0i32..16 {
        assert_eq!(instr.get_declare_byte_value(i), (i * 3 + 7) as u8);
    }
    for i in 0i32..16 {
        instr.set_declare_byte_value(i, 0xFF);
        assert_eq!(instr.get_declare_byte_value(i), 0xFF);
        instr.set_declare_byte_value(i, 0);
        assert_eq!(instr.get_declare_byte_value(i), 0);
    }
}

#[test]
fn declare_byte_value_i8_stores_the_byte() {
    let mut instr = Instruction::new();
    instr.set_code(Code::DeclareByte);
    instr.set_declare_byte_value_i8(5, -1);
    assert_eq!(instr.get_declare_byte_value(5), 0xFF);
}

#[test]
fn declare_word_values_roundtrip_all_indexes() {
    let mut instr = Instruction::new();
    instr.set_code(Code::DeclareWord);
    instr.set_declare_data_len(8);
    for i in 0i32..8 {
        instr.set_declare_word_value(i, (0x1111u32.wrapping_mul(i as u32 + 1)) as u16);
    }
    for i in 0i32..8 {
        assert_eq!(
            instr.get_declare_word_value(i),
            (0x1111u32.wrapping_mul(i as u32 + 1)) as u16
        );
    }
    instr.set_declare_word_value_i16(7, -2);
    assert_eq!(instr.get_declare_word_value(7), 0xFFFE);
}

#[test]
fn declare_dword_values_roundtrip_all_indexes() {
    let mut instr = Instruction::new();
    instr.set_code(Code::DeclareDword);
    instr.set_declare_data_len(4);
    let values = [0xDEAD_BEEFu32, 0x0123_4567, 0xFFFF_FFFF, 0x8000_0001];
    for i in 0i32..4 {
        instr.set_declare_dword_value(i, values[i as usize]);
    }
    for i in 0i32..4 {
        assert_eq!(instr.get_declare_dword_value(i), values[i as usize]);
    }
    instr.set_declare_dword_value_i32(0, -1);
    assert_eq!(instr.get_declare_dword_value(0), 0xFFFF_FFFF);
}

#[test]
fn declare_qword_values_roundtrip_both_indexes() {
    let mut instr = Instruction::new();
    instr.set_code(Code::DeclareQword);
    instr.set_declare_data_len(2);
    instr.set_declare_qword_value(0, 0x0123_4567_89AB_CDEF);
    instr.set_declare_qword_value(1, 0xFEDC_BA98_7654_3210);
    assert_eq!(instr.get_declare_qword_value(0), 0x0123_4567_89AB_CDEF);
    assert_eq!(instr.get_declare_qword_value(1), 0xFEDC_BA98_7654_3210);
    instr.set_declare_qword_value_i64(1, -2);
    assert_eq!(instr.get_declare_qword_value(1), 0xFFFF_FFFF_FFFF_FFFE);
}

#[test]
fn declare_bytes_compose_into_words_dwords_and_qwords() {
    let mut instr = Instruction::new();
    instr.set_code(Code::DeclareByte);
    instr.set_declare_data_len(16);
    for i in 0i32..16 {
        instr.set_declare_byte_value(i, i as u8 + 1);
    }
    assert_eq!(instr.get_declare_word_value(0), 0x0201);
    assert_eq!(instr.get_declare_word_value(7), 0x100F);
    assert_eq!(instr.get_declare_dword_value(0), 0x0403_0201);
    assert_eq!(instr.get_declare_dword_value(3), 0x100F_0E0D);
    assert_eq!(instr.get_declare_qword_value(0), 0x0807_0605_0403_0201);
    assert_eq!(instr.get_declare_qword_value(1), 0x100F_0E0D_0C0B_0A09);
}
