use sim86::bytestream::ByteStream;
use sim86::computer::{Computer, ExeResult, Flags};
use sim86::register::Register;
use sim86::EmuError;

fn machine(bytes: Vec<u8>, print_ip: bool) -> Computer {
    Computer::new(ByteStream::new(bytes), print_ip)
}

fn step(c: &mut Computer) -> ExeResult {
    c.execute_instruction().expect("execution failed")
}

#[test]
fn scenario_mov_ax_immediate() {
    // Bytes 10111000 00000101 00000000: `mov ax, 5` against a zeroed file.
    let mut c = machine(vec![0xB8, 0x05, 0x00], false);
    match step(&mut c) {
        ExeResult::Success(inst, update) => {
            assert_eq!(inst.render(), "mov ax, 5");
            let ru = update.reg_update.expect("expected a register delta");
            assert_eq!(ru.reg, Register::AX);
            assert_eq!(ru.from_val, 0x0);
            assert_eq!(ru.to_val, 0x5);
            assert_eq!(update.flag_update, None);
            assert_eq!(update.print(false), "ax:0x0->0x5");
        }
        ExeResult::Halt => panic!("halted too early"),
    }
    assert_eq!(c.get_register(Register::AX), 5);
    assert_eq!(step(&mut c), ExeResult::Halt);
}

#[test]
fn scenario_mov_then_add_wraps_in_low_byte() {
    // mov bl, 42; mov al, bl; add al, 0xFF: AL ends at BL - 1 mod 256.
    let mut c = machine(vec![0xB3, 0x2A, 0x88, 0xD8, 0x04, 0xFF], false);
    step(&mut c);
    step(&mut c);
    assert_eq!(c.get_register(Register::AL), 42);
    step(&mut c);
    assert_eq!(c.get_register(Register::AL), 41);
    // The 16-bit result 0x0129 drives the flags, but only its low byte
    // lands in AL; AH stays untouched.
    assert_eq!(c.get_register(Register::AH), 0);
    assert_eq!(c.get_register(Register::AX), 41);
    let f = c.get_flags();
    assert!(!f.sign);
    assert!(!f.zero);
    assert!(!f.parity); // 0x29 has three set bits
}

#[test]
fn flag_results_for_known_values() {
    let cases: Vec<(u16, bool, bool, bool)> = vec![
        // (result, sign, zero, parity)
        (0x0000, false, true, true),
        (0x0001, false, false, false),
        (0x8000, true, false, true),
        (0xFFFF, true, false, true),
        (0x0080, false, false, false),
    ];
    for (result, sign, zero, parity) in cases {
        let mut c = machine(vec![], false);
        c.update_flags(result);
        let f = c.get_flags();
        assert_eq!(f.sign, sign, "sign for {:#x}", result);
        assert_eq!(f.zero, zero, "zero for {:#x}", result);
        assert_eq!(f.parity, parity, "parity for {:#x}", result);
    }
}

#[test]
fn cmp_leaves_register_but_sets_flags_like_sub() {
    // mov cx, 5; mov bx, 5; cmp cx, bx
    let mut cmp = machine(vec![0xB9, 0x05, 0x00, 0xBB, 0x05, 0x00, 0x39, 0xD9], false);
    step(&mut cmp);
    step(&mut cmp);
    step(&mut cmp);
    assert_eq!(cmp.get_register(Register::CX), 5);

    // The same program with sub: the register changes, the flags match.
    let mut sub = machine(vec![0xB9, 0x05, 0x00, 0xBB, 0x05, 0x00, 0x29, 0xD9], false);
    step(&mut sub);
    step(&mut sub);
    step(&mut sub);
    assert_eq!(sub.get_register(Register::CX), 0);
    assert_eq!(cmp.get_flags(), sub.get_flags());
    assert!(cmp.get_flags().zero);
}

#[test]
fn cmp_reports_no_register_delta() {
    let mut c = machine(vec![0x39, 0xD9], false);
    match step(&mut c) {
        ExeResult::Success(_, update) => {
            assert_eq!(update.reg_update, None);
            assert!(update.flag_update.is_some());
        }
        ExeResult::Halt => panic!("halted too early"),
    }
}

#[test]
fn writing_al_preserves_ah() {
    // mov ax, 0x1234; mov al, 0x56; mov ah, 0x78
    let mut c = machine(vec![0xB8, 0x34, 0x12, 0xB0, 0x56, 0xB4, 0x78], false);
    step(&mut c);
    assert_eq!(c.get_register(Register::AX), 0x1234);
    step(&mut c);
    assert_eq!(c.get_register(Register::AX), 0x1256);
    assert_eq!(c.get_register(Register::AH), 0x12);
    step(&mut c);
    assert_eq!(c.get_register(Register::AX), 0x7856);
    assert_eq!(c.get_register(Register::AL), 0x56);
}

#[test]
fn mov_between_byte_registers_masks_correctly() {
    // mov bx, 0xABCD; mov al, bl; mov ah, bh
    let mut c = machine(vec![0xBB, 0xCD, 0xAB, 0x88, 0xD8, 0x88, 0xFC], false);
    step(&mut c);
    step(&mut c);
    assert_eq!(c.get_register(Register::AL), 0xCD);
    step(&mut c);
    assert_eq!(c.get_register(Register::AH), 0xAB);
    assert_eq!(c.get_register(Register::AX), 0xABCD);
}

#[test]
fn arithmetic_wraps_at_sixteen_bits() {
    // mov ax, 0xFFFF; add ax, 2
    let mut c = machine(vec![0xB8, 0xFF, 0xFF, 0x05, 0x02, 0x00], false);
    step(&mut c);
    step(&mut c);
    assert_eq!(c.get_register(Register::AX), 1);
    assert!(!c.get_flags().zero);
}

#[test]
fn update_print_includes_ip_when_asked() {
    let mut c = machine(vec![0xB8, 0x05, 0x00], true);
    match step(&mut c) {
        ExeResult::Success(_, update) => {
            assert_eq!(update.ip_update, Some((0, 3)));
            assert_eq!(update.print(true), "ax:0x0->0x5 ip:0x0->0x3");
            assert_eq!(update.print(false), "ax:0x0->0x5");
        }
        ExeResult::Halt => panic!("halted too early"),
    }
}

#[test]
fn update_print_shows_flag_change() {
    // mov ax, 5; sub ax, ax
    let mut c = machine(vec![0xB8, 0x05, 0x00, 0x29, 0xC0], false);
    step(&mut c);
    match step(&mut c) {
        ExeResult::Success(_, update) => {
            assert_eq!(update.print(false), "ax:0x5->0x0 flags:->PZ");
        }
        ExeResult::Halt => panic!("halted too early"),
    }
}

#[test]
fn flags_render_in_fixed_order() {
    let f = Flags { sign: true, parity: true, zero: true };
    assert_eq!(f.render(), "SPZ");
    let f = Flags { sign: false, parity: true, zero: true };
    assert_eq!(f.render(), "PZ");
    let f = Flags { sign: false, parity: false, zero: false };
    assert_eq!(f.render(), "");
}

#[test]
fn register_dump_lists_nonzero_wide_registers() {
    // mov ax, 5; mov bx, 0x1234
    let mut c = machine(vec![0xB8, 0x05, 0x00, 0xBB, 0x34, 0x12], false);
    step(&mut c);
    step(&mut c);
    assert_eq!(
        c.render_registers(6),
        "\nFinal registers:\n      ax: 0x0005 (5)\n      bx: 0x1234 (4660)\n\n"
    );
}

#[test]
fn register_dump_includes_ip_and_flags() {
    // mov ax, 5; sub ax, ax — leaves parity and zero set, ax back at zero.
    let mut c = machine(vec![0xB8, 0x05, 0x00, 0x29, 0xC0], true);
    step(&mut c);
    step(&mut c);
    assert_eq!(
        c.render_registers(5),
        "\nFinal registers:\n      ip: 0x0005 (5)\n   flags: PZ\n\n"
    );
}

#[test]
fn truncated_program_fails_without_state_change() {
    // A lone opcode byte that needs an addressing-mode second byte.
    let mut c = machine(vec![0x89], false);
    assert_eq!(c.execute_instruction(), Err(EmuError::UnexpectedEndOfInput));
    for r in [Register::AX, Register::BX, Register::CX, Register::DX] {
        assert_eq!(c.get_register(r), 0);
    }
    assert_eq!(c.get_flags(), Flags { sign: false, parity: false, zero: false });
}

#[test]
fn unsupported_opcode_surfaces_the_byte() {
    let mut c = machine(vec![0xF4], false);
    assert_eq!(c.execute_instruction(), Err(EmuError::UnsupportedOpcode(0xF4)));
}

#[test]
fn jump_is_decoded_but_not_executed() {
    let mut c = machine(vec![0x74, 0x00], false);
    assert_eq!(c.execute_instruction(), Err(EmuError::InvalidOperandCombination));
}

#[test]
fn memory_destination_is_rejected_by_the_engine() {
    // mov [16], bx decodes fine but the engine has no memory to write.
    let mut c = machine(vec![0x89, 0x1E, 0x10, 0x00], false);
    assert_eq!(c.execute_instruction(), Err(EmuError::InvalidOperandCombination));
    assert_eq!(c.get_register(Register::BX), 0);
}

#[test]
fn segment_register_mov_executes_as_register_mov() {
    // mov ax, 16; mov ds, ax
    let mut c = machine(vec![0xB8, 0x10, 0x00, 0x8E, 0xD8], false);
    step(&mut c);
    step(&mut c);
    assert_eq!(c.get_register(Register::DS), 16);
}

#[test]
fn immediate_group_executes_with_sign_extension() {
    // mov cx, 2; add cx, -1 (sign-extended byte)
    let mut c = machine(vec![0xB9, 0x02, 0x00, 0x83, 0xC1, 0xFF], false);
    step(&mut c);
    step(&mut c);
    assert_eq!(c.get_register(Register::CX), 1);
}
