use sim86::base::{IPInc8, ImmToAcc, ImmToRegMem, RegMemEitherWay};
use sim86::bytestream::ByteStream;
use sim86::data::{create_word, Data, DataArg, Displacement, RelativeJump};
use sim86::instruction::Mnemonic;
use sim86::mov::{Mov, MovAccToMem, MovImmToReg, MovImmToRegMem, MovMemToAcc};
use sim86::register::{RegType, Register};
use sim86::target::{MemoryAddress, SegmentRegister, Target};
use sim86::text::{dec_u64, hex_field_u64, hex_u64};
use sim86::EmuError;

#[test]
fn bytestream_yields_bytes_in_order() {
    let mut s = ByteStream::new(vec![1, 2, 3]);
    assert_eq!(s.get_iptr(), 0);
    assert_eq!(s.next(), Ok(1));
    assert_eq!(s.next(), Ok(2));
    assert_eq!(s.get_iptr(), 2);
    assert_eq!(s.maybe_next(), Some(3));
    assert_eq!(s.maybe_next(), None);
    assert_eq!(s.next(), Err(EmuError::UnexpectedEndOfInput));
    assert_eq!(s.get_iptr(), 3);
}

#[test]
fn create_word_is_little_endian() {
    assert_eq!(create_word(0x34, 0x12), 0x1234);
    assert_eq!(create_word(0xFF, 0x00), 0x00FF);
    assert_eq!(create_word(0x00, 0xFF), 0xFF00);
}

#[test]
fn data_parse_reads_byte_word_and_sign_extended_forms() {
    let mut s = ByteStream::new(vec![0x07]);
    assert_eq!(Data::parse(&mut s, false, false), Ok(Data::Byte(0x07)));

    let mut s = ByteStream::new(vec![0x34, 0x12]);
    assert_eq!(Data::parse(&mut s, true, false), Ok(Data::Word(0x1234)));

    let mut s = ByteStream::new(vec![0xFF]);
    assert_eq!(Data::parse(&mut s, true, true), Ok(Data::Word(0xFFFF)));

    let mut s = ByteStream::new(vec![0x7F]);
    assert_eq!(Data::parse(&mut s, true, true), Ok(Data::Word(0x007F)));

    let mut s = ByteStream::new(vec![0x34]);
    assert_eq!(Data::parse(&mut s, true, false), Err(EmuError::UnexpectedEndOfInput));
}

#[test]
fn data_renders_its_decimal_value() {
    assert_eq!(Data::Byte(7).render(), "7");
    assert_eq!(Data::Word(1000).render(), "1000");
    assert_eq!(Data::to_word(0xFF, 0xFF).render(), "65535");
}

#[test]
fn data_arg_renders_size_tag_only_when_explicit() {
    assert_eq!(DataArg { explicit: true, data: Data::Byte(7) }.render(), "byte 7");
    assert_eq!(DataArg { explicit: true, data: Data::Word(597) }.render(), "word 597");
    assert_eq!(DataArg { explicit: false, data: Data::Word(597) }.render(), "597");
}

#[test]
fn displacement_renders_signed_byte_and_unsigned_word() {
    assert_eq!(Displacement::Byte(4).render(), "+ 4");
    assert_eq!(Displacement::Byte(0xFB).render(), "- 5");
    assert_eq!(Displacement::Byte(0x80).render(), "- 128");
    assert_eq!(Displacement::to_word(0xFB, 0xFF).render(), "+ 65531");
}

#[test]
fn relative_jump_renders_dollar_notation() {
    assert_eq!(RelativeJump { offset: 2 }.render(), "$+2");
    assert_eq!(RelativeJump { offset: -2 }.render(), "$-2");
    assert_eq!(RelativeJump { offset: 0 }.render(), "$+0");
}

#[test]
fn decimal_and_hex_rendering() {
    assert_eq!(dec_u64(0), "0");
    assert_eq!(dec_u64(65535), "65535");
    assert_eq!(hex_u64(0), "0");
    assert_eq!(hex_u64(255), "ff");
    assert_eq!(hex_u64(0x1234), "1234");
    assert_eq!(hex_field_u64(5), "0005");
    assert_eq!(hex_field_u64(0x1234), "1234");
    assert_eq!(hex_field_u64(0x12345), "12345");
}

#[test]
fn register_names_and_classes() {
    assert_eq!(Register::AX.as_str(), "ax");
    assert_eq!(Register::AL.as_str(), "al");
    assert_eq!(Register::AL.as_wide_str(), "ax");
    assert_eq!(Register::CH.as_wide_str(), "cx");
    assert_eq!(Register::SP.as_wide_str(), "sp");
    assert_eq!(Register::DS.as_str(), "ds");
    assert!(matches!(Register::AL.get_type(), RegType::Low));
    assert!(matches!(Register::BH.get_type(), RegType::High));
    assert!(matches!(Register::SI.get_type(), RegType::Wide));
    assert!(matches!(Register::CS.get_type(), RegType::Wide));
}

#[test]
fn register_slots_alias_by_letter() {
    assert_eq!(Register::AL.get_reg_ix(), Register::AX.get_reg_ix());
    assert_eq!(Register::AH.get_reg_ix(), Register::AX.get_reg_ix());
    assert_eq!(Register::BL.get_reg_ix(), Register::BX.get_reg_ix());
    assert_ne!(Register::AX.get_reg_ix(), Register::BX.get_reg_ix());
    for r in [Register::SP, Register::BP, Register::SI, Register::DI, Register::ES] {
        assert!(r.get_reg_ix() < 12);
    }
}

#[test]
fn register_from_codes() {
    assert_eq!(Register::from_reg(0, true), Ok(Register::AX));
    assert_eq!(Register::from_reg(0, false), Ok(Register::AL));
    assert_eq!(Register::from_reg(0b100, false), Ok(Register::AH));
    assert_eq!(Register::from_reg(0b111, true), Ok(Register::DI));
    assert_eq!(Register::from_reg(8, true), Err(EmuError::UnsupportedOpcode(8)));
    assert_eq!(Register::from_sr(0b00), Ok(Register::ES));
    assert_eq!(Register::from_sr(0b11), Ok(Register::DS));
    assert_eq!(Register::from_sr(4), Err(EmuError::UnsupportedOpcode(4)));
}

#[test]
fn segment_register_from_codes() {
    assert_eq!(SegmentRegister::from(0), Ok(SegmentRegister::ES));
    assert_eq!(SegmentRegister::from(1), Ok(SegmentRegister::CS));
    assert_eq!(SegmentRegister::from(2), Ok(SegmentRegister::SS));
    assert_eq!(SegmentRegister::from(3), Ok(SegmentRegister::DS));
    assert_eq!(SegmentRegister::from(4), Err(EmuError::UnsupportedOpcode(4)));
}

#[test]
fn target_parse_register_mode() {
    let mut s = ByteStream::new(vec![]);
    assert_eq!(Target::parse(&mut s, 0xD9, true), Ok(Target::Register(Register::CX)));
}

#[test]
fn target_parse_direct_mode() {
    let mut s = ByteStream::new(vec![0x10, 0x00]);
    assert_eq!(
        Target::parse(&mut s, 0x06, true),
        Ok(Target::Memory(MemoryAddress::Direct(Data::Word(16))))
    );
}

#[test]
fn target_parse_collapses_zero_displacement() {
    let mut s = ByteStream::new(vec![0x00]);
    assert_eq!(
        Target::parse(&mut s, 0x46, true),
        Ok(Target::Memory(MemoryAddress::Reg(Register::BP)))
    );
}

#[test]
fn target_parse_truncated_displacement() {
    let mut s = ByteStream::new(vec![0x10]);
    assert_eq!(Target::parse(&mut s, 0x86, true), Err(EmuError::UnexpectedEndOfInput));
}

#[test]
fn memory_address_renders_all_forms() {
    assert_eq!(MemoryAddress::Direct(Data::Word(16)).render(), "[16]");
    assert_eq!(MemoryAddress::Reg(Register::BP).render(), "[bp]");
    assert_eq!(MemoryAddress::RegnReg(Register::BX, Register::SI).render(), "[bx + si]");
    assert_eq!(
        MemoryAddress::RegnData(Register::BP, Displacement::Byte(4)).render(),
        "[bp + 4]"
    );
    assert_eq!(
        MemoryAddress::RegnRegnData(Register::BX, Register::DI, Displacement::Byte(0xFE)).render(),
        "[bx + di - 2]"
    );
}

#[test]
fn mnemonic_spellings() {
    assert_eq!(Mnemonic::Add.as_str(), "add");
    assert_eq!(Mnemonic::Loopnz.as_str(), "loopnz");
    assert_eq!(Mnemonic::Jcxz.as_str(), "jcxz");
}

#[test]
fn reg_mem_either_way_struct_parse() {
    let mut s = ByteStream::new(vec![0xD9]);
    let v = RegMemEitherWay::parse(0x89, &mut s).unwrap();
    assert_eq!(v.destination, Target::Register(Register::CX));
    assert_eq!(v.source, Target::Register(Register::BX));
}

#[test]
fn imm_to_reg_mem_struct_parse() {
    let mut s = ByteStream::new(vec![0xFF]);
    let v = ImmToRegMem::parse(0x83, 0xC1, &mut s, true).unwrap();
    assert_eq!(v.destination, Target::Register(Register::CX));
    assert_eq!(v.data, DataArg { explicit: false, data: Data::Word(0xFFFF) });
}

#[test]
fn imm_to_acc_struct_parse() {
    let mut s = ByteStream::new(vec![0xE8, 0x03]);
    let v = ImmToAcc::parse(0x05, &mut s).unwrap();
    assert_eq!(v.destination, Register::AX);
    assert_eq!(v.data, Data::Word(1000));
}

#[test]
fn ip_inc8_struct_parse() {
    assert_eq!(IPInc8::parse(0x00).offset, 2);
    assert_eq!(IPInc8::parse(0xFC).offset, -2);
    assert_eq!(IPInc8::parse(0x7F).offset, 129);
}

#[test]
fn mov_struct_parse() {
    let mut s = ByteStream::new(vec![0xD8]);
    let v = Mov::parse(0x88, &mut s).unwrap();
    assert_eq!(v.destination, Target::Register(Register::AL));
    assert_eq!(v.source, Target::Register(Register::BL));
}

#[test]
fn mov_imm_to_reg_struct_parse() {
    let mut s = ByteStream::new(vec![0x05, 0x00]);
    let v = MovImmToReg::parse(0xB8, &mut s).unwrap();
    assert_eq!(v.destination, Register::AX);
    assert_eq!(v.data, Data::Word(5));
}

#[test]
fn mov_imm_to_reg_mem_struct_parse() {
    let mut s = ByteStream::new(vec![0x06, 0x10, 0x00, 0x07]);
    let v = MovImmToRegMem::parse(0xC6, &mut s).unwrap();
    assert_eq!(v.destination, Target::Memory(MemoryAddress::Direct(Data::Word(16))));
    assert_eq!(v.data, DataArg { explicit: true, data: Data::Byte(7) });
}

#[test]
fn mov_accumulator_struct_parses() {
    let mut s = ByteStream::new(vec![0x0F, 0x00]);
    let v = MovAccToMem::parse(0xA3, &mut s).unwrap();
    assert_eq!(v.mov.destination, Target::Memory(MemoryAddress::Direct(Data::Word(15))));
    assert_eq!(v.mov.source, Target::Register(Register::AX));

    let mut s = ByteStream::new(vec![0xFB, 0x09]);
    let v = MovMemToAcc::parse(0xA1, &mut s).unwrap();
    assert_eq!(v.mov.destination, Target::Register(Register::AX));
    assert_eq!(v.mov.source, Target::Memory(MemoryAddress::Direct(Data::Word(2555))));
}

#[test]
fn mov_parse_mem_reads_direct_address() {
    let mut s = ByteStream::new(vec![0x10, 0x00]);
    assert_eq!(
        sim86::mov::parse_mem(0xA1, &mut s),
        Ok(Target::Memory(MemoryAddress::Direct(Data::Word(16))))
    );
    // A byte-width opcode reads the same two-byte address.
    let mut s = ByteStream::new(vec![0x34, 0x12]);
    assert_eq!(
        sim86::mov::parse_mem(0xA0, &mut s),
        Ok(Target::Memory(MemoryAddress::Direct(Data::Word(0x1234))))
    );
}

#[test]
fn mov_byte_accumulator_struct_parses() {
    let mut s = ByteStream::new(vec![0x34, 0x12]);
    let v = MovAccToMem::parse(0xA2, &mut s).unwrap();
    assert_eq!(v.mov.destination, Target::Memory(MemoryAddress::Direct(Data::Word(0x1234))));
    assert_eq!(v.mov.source, Target::Register(Register::AL));

    let mut s = ByteStream::new(vec![0x34, 0x12]);
    let v = MovMemToAcc::parse(0xA0, &mut s).unwrap();
    assert_eq!(v.mov.destination, Target::Register(Register::AL));
    assert_eq!(v.mov.source, Target::Memory(MemoryAddress::Direct(Data::Word(0x1234))));
}
