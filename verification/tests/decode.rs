use sim86::bytestream::ByteStream;
use sim86::instruction::{Inst, Mnemonic, Operand};
use sim86::EmuError;

fn parse_all(bytes: Vec<u8>) -> Vec<Inst> {
    let mut stream = ByteStream::new(bytes);
    let mut out = Vec::new();
    while let Some(i) = Inst::parse(&mut stream).expect("decode failed") {
        out.push(i);
    }
    out
}

fn parse_one_text(bytes: Vec<u8>) -> String {
    let is = parse_all(bytes);
    assert_eq!(is.len(), 1);
    is[0].render()
}

#[test]
fn decode_mov_register_to_register() {
    assert_eq!(parse_one_text(vec![0x89, 0xD9]), "mov cx, bx");
}

#[test]
fn decode_mov_register_alias_other_direction() {
    // The same instruction written with the direction bit the other way.
    assert_eq!(parse_one_text(vec![0x8B, 0xCB]), "mov cx, bx");
}

#[test]
fn decode_mov_byte_registers() {
    assert_eq!(parse_one_text(vec![0x88, 0xD8]), "mov al, bl");
}

#[test]
fn decode_mov_memory_no_displacement() {
    assert_eq!(parse_one_text(vec![0x8A, 0x00]), "mov al, [bx + si]");
}

#[test]
fn decode_mov_memory_byte_displacement() {
    assert_eq!(parse_one_text(vec![0x8B, 0x56, 0x04]), "mov dx, [bp + 4]");
}

#[test]
fn decode_mov_memory_negative_byte_displacement() {
    assert_eq!(parse_one_text(vec![0x8B, 0x5E, 0xFB]), "mov bx, [bp - 5]");
}

#[test]
fn decode_zero_byte_displacement_collapses() {
    // Mode 01 with a zero displacement renders as the bare base form.
    assert_eq!(parse_one_text(vec![0x8B, 0x46, 0x00]), "mov ax, [bp]");
}

#[test]
fn decode_zero_word_displacement_collapses() {
    assert_eq!(parse_one_text(vec![0x8B, 0x86, 0x00, 0x00]), "mov ax, [bp]");
}

#[test]
fn decode_mov_memory_word_displacement() {
    assert_eq!(parse_one_text(vec![0x8B, 0x86, 0x34, 0x12]), "mov ax, [bp + 4660]");
}

#[test]
fn decode_word_displacement_always_renders_plus() {
    // A word displacement keeps its literal `+` even when the 16-bit
    // pattern would read as negative.
    assert_eq!(parse_one_text(vec![0x8B, 0x9E, 0xFB, 0xFF]), "mov bx, [bp + 65531]");
}

#[test]
fn decode_mov_direct_address() {
    assert_eq!(parse_one_text(vec![0x8B, 0x1E, 0x10, 0x00]), "mov bx, [16]");
}

#[test]
fn decode_mov_immediate_to_register() {
    assert_eq!(parse_one_text(vec![0xB8, 0x05, 0x00]), "mov ax, 5");
}

#[test]
fn decode_mov_immediate_to_byte_register() {
    assert_eq!(parse_one_text(vec![0xB1, 0x0C]), "mov cl, 12");
}

#[test]
fn decode_mov_immediate_to_memory_explicit_size() {
    assert_eq!(parse_one_text(vec![0xC6, 0x06, 0x10, 0x00, 0x07]), "mov [16], byte 7");
}

#[test]
fn decode_mov_word_immediate_to_memory() {
    assert_eq!(
        parse_one_text(vec![0xC7, 0x84, 0x42, 0x00, 0x55, 0x02]),
        "mov [si + 66], word 597"
    );
}

#[test]
fn decode_mov_memory_to_accumulator() {
    assert_eq!(parse_one_text(vec![0xA1, 0xFB, 0x09]), "mov ax, [2555]");
}

#[test]
fn decode_mov_accumulator_to_memory() {
    assert_eq!(parse_one_text(vec![0xA3, 0x0F, 0x00]), "mov [15], ax");
}

#[test]
fn decode_mov_memory_to_byte_accumulator() {
    // Width bit clear: the accumulator is AL, the direct address is still
    // a full 16-bit word.
    assert_eq!(parse_one_text(vec![0xA0, 0x34, 0x12]), "mov al, [4660]");
}

#[test]
fn decode_mov_byte_accumulator_to_memory() {
    assert_eq!(parse_one_text(vec![0xA2, 0x34, 0x12]), "mov [4660], al");
}

#[test]
fn decode_truncated_direct_address() {
    // A byte-width accumulator move still needs two address bytes.
    let mut stream = ByteStream::new(vec![0xA0, 0x34]);
    assert_eq!(Inst::parse(&mut stream), Err(EmuError::UnexpectedEndOfInput));
}

#[test]
fn decode_mov_register_to_segment() {
    assert_eq!(parse_one_text(vec![0x8E, 0xD8]), "mov ds, ax");
}

#[test]
fn decode_mov_segment_to_register() {
    assert_eq!(parse_one_text(vec![0x8C, 0xD8]), "mov ax, ds");
}

#[test]
fn decode_add_register_forms() {
    assert_eq!(parse_one_text(vec![0x01, 0xD9]), "add cx, bx");
    assert_eq!(parse_one_text(vec![0x03, 0x5E, 0x00]), "add bx, [bp]");
}

#[test]
fn decode_add_immediate_to_accumulator() {
    assert_eq!(parse_one_text(vec![0x04, 0x09]), "add al, 9");
    assert_eq!(parse_one_text(vec![0x05, 0xE8, 0x03]), "add ax, 1000");
}

#[test]
fn decode_sub_and_cmp_families() {
    assert_eq!(parse_one_text(vec![0x29, 0xD9]), "sub cx, bx");
    assert_eq!(parse_one_text(vec![0x2C, 0x05]), "sub al, 5");
    assert_eq!(parse_one_text(vec![0x39, 0xD9]), "cmp cx, bx");
    assert_eq!(parse_one_text(vec![0x3D, 0xE8, 0x03]), "cmp ax, 1000");
}

#[test]
fn decode_immediate_group_add_sub_cmp() {
    // The shared immediate-group prefix dispatches on the second byte's
    // sub-opcode field.
    assert_eq!(parse_one_text(vec![0x83, 0xC1, 0x08]), "add cx, 8");
    assert_eq!(parse_one_text(vec![0x83, 0xE9, 0x08]), "sub cx, 8");
    assert_eq!(parse_one_text(vec![0x83, 0xF9, 0x08]), "cmp cx, 8");
}

#[test]
fn decode_immediate_group_sign_extension() {
    // Width bit set with the sign bit: one data byte, sign-extended.
    assert_eq!(parse_one_text(vec![0x83, 0xC1, 0xFF]), "add cx, 65535");
}

#[test]
fn decode_immediate_group_without_sign_extension() {
    // Width bit set, sign bit clear: a full word of immediate data.
    assert_eq!(parse_one_text(vec![0x81, 0xC1, 0xE8, 0x03]), "add cx, 1000");
}

#[test]
fn decode_immediate_group_unknown_sub_opcode() {
    let mut stream = ByteStream::new(vec![0x80, 0x0B, 0x01]);
    assert_eq!(Inst::parse(&mut stream), Err(EmuError::UnsupportedOpcode(0x0B)));
}

#[test]
fn decode_conditional_jumps() {
    assert_eq!(parse_one_text(vec![0x74, 0x00]), "je $+2");
    assert_eq!(parse_one_text(vec![0x75, 0xFC]), "jnz $-2");
    assert_eq!(parse_one_text(vec![0x7C, 0x10]), "jl $+18");
    assert_eq!(parse_one_text(vec![0x77, 0x7F]), "ja $+129");
}

#[test]
fn decode_loops_and_jcxz() {
    assert_eq!(parse_one_text(vec![0xE2, 0xF8]), "loop $-6");
    assert_eq!(parse_one_text(vec![0xE1, 0x00]), "loopz $+2");
    assert_eq!(parse_one_text(vec![0xE0, 0x01]), "loopnz $+3");
    assert_eq!(parse_one_text(vec![0xE3, 0xFE]), "jcxz $+0");
}

#[test]
fn decode_all_jump_mnemonics() {
    let cases: Vec<(u8, &str)> = vec![
        (0x74, "je"),
        (0x7C, "jl"),
        (0x75, "jnz"),
        (0x7E, "jle"),
        (0x72, "jb"),
        (0x76, "jbe"),
        (0x7A, "jp"),
        (0x70, "jo"),
        (0x78, "js"),
        (0x7D, "jnl"),
        (0x7F, "jg"),
        (0x73, "jnb"),
        (0x77, "ja"),
        (0x7B, "jnp"),
        (0x71, "jno"),
        (0x79, "jns"),
    ];
    for (op, name) in cases {
        assert_eq!(parse_one_text(vec![op, 0x00]), format!("{} $+2", name));
    }
}

#[test]
fn decode_clean_end_of_stream() {
    let mut stream = ByteStream::new(vec![]);
    assert_eq!(Inst::parse(&mut stream), Ok(None));
}

#[test]
fn decode_unsupported_opcode() {
    let mut stream = ByteStream::new(vec![0xF4]);
    assert_eq!(Inst::parse(&mut stream), Err(EmuError::UnsupportedOpcode(0xF4)));
}

#[test]
fn decode_truncated_after_opcode() {
    // An opcode that needs an addressing-mode byte, with nothing after it.
    let mut stream = ByteStream::new(vec![0x89]);
    assert_eq!(Inst::parse(&mut stream), Err(EmuError::UnexpectedEndOfInput));
}

#[test]
fn decode_truncated_displacement() {
    let mut stream = ByteStream::new(vec![0x8B, 0x86, 0x34]);
    assert_eq!(Inst::parse(&mut stream), Err(EmuError::UnexpectedEndOfInput));
}

#[test]
fn decode_truncated_immediate() {
    let mut stream = ByteStream::new(vec![0xB8, 0x05]);
    assert_eq!(Inst::parse(&mut stream), Err(EmuError::UnexpectedEndOfInput));
}

#[test]
fn decode_several_instructions_in_sequence() {
    let is = parse_all(vec![0xB8, 0x05, 0x00, 0x01, 0xD8, 0x75, 0xFC]);
    let texts: Vec<String> = is.iter().map(|i| i.render()).collect();
    assert_eq!(texts, vec!["mov ax, 5", "add ax, bx", "jnz $-2"]);
}

#[test]
fn decode_operand_structure_of_mov_immediate() {
    let is = parse_all(vec![0xB8, 0x05, 0x00]);
    assert_eq!(is[0].mnemonic, Mnemonic::Mov);
    match is[0].operands {
        (Some(Operand::Register(r)), Some(Operand::Data(d))) => {
            assert_eq!(r, sim86::register::Register::AX);
            assert_eq!(d, sim86::data::Data::Word(5));
        }
        ref other => panic!("unexpected operands: {:?}", other),
    }
}
