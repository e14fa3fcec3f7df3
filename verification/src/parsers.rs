use vstd::prelude::*;

use crate::bytestream::ByteStream;
use crate::data::{spec_data, spec_data_len, Data, DataArg, RelativeJump};
use crate::instruction::{spec_operand_of_target, Operand, Operands};
use crate::register::Register;
use crate::target::{spec_ea_disp_len, spec_target, MemoryAddress, Target};
use crate::EmuError;

verus! {

/// The register/memory either-way families: the second byte is the
/// addressing-mode byte, its `reg` field names the other operand, bit 1 of
/// the first byte picks which of the two is the destination and bit 0 picks
/// the width. `None` means the stream ran out.
pub open spec fn spec_reg_mem_either_way(bytes: Seq<u8>, pos: nat, b1: u8) -> Option<
    (Operands, nat),
> {
    if pos < bytes.len() {
        let b2 = bytes[pos as int];
        let n = spec_ea_disp_len(b2);
        if pos + 1 + n <= bytes.len() {
            let is_wide = b1 & 1 == 1;
            let reg = Target::Register(Register::spec_from_reg((b2 >> 3) & 7, is_wide));
            let target = spec_target(
                b2,
                is_wide,
                bytes.subrange(pos as int + 1, pos as int + 1 + n as int),
            );
            let ops: Operands = if b1 & 2 != 0 {
                (Some(spec_operand_of_target(reg)), Some(spec_operand_of_target(target)))
            } else {
                (Some(spec_operand_of_target(target)), Some(spec_operand_of_target(reg)))
            };
            Some((ops, (pos + 1 + n) as nat))
        } else {
            None
        }
    } else {
        None
    }
}

pub fn parse_reg_mem_either_way(byte_1: u8, bytes: &mut ByteStream) -> (r: Result<
    Operands,
    EmuError,
>)
    requires
        old(bytes).wf(),
    ensures
        final(bytes).wf(),
        final(bytes).data() == old(bytes).data(),
        match spec_reg_mem_either_way(old(bytes).data(), old(bytes).pos(), byte_1) {
            Some((ops, n)) => r == Ok::<Operands, EmuError>(ops) && final(bytes).pos() == n,
            None => r == Err::<Operands, EmuError>(EmuError::UnexpectedEndOfInput) && final(bytes).pos() == old(bytes).data().len(),
        },
{
    let byte_2 = bytes.next()?;
    proof {
        crate::lemma_field_bounds(byte_2);
    }
    let is_wide = (byte_1 & 0b1) == 1;
    let reg = Target::Register(Register::from_reg((byte_2 >> 3) & 0b111, is_wide)?);
    let target = Target::parse(bytes, byte_2, is_wide)?;

    let (destination, source) = if (byte_1 & 0b10) != 0 {
        (reg, target)
    } else {
        (target, reg)
    };

    Ok((Some(Operand::from(destination)), Some(Operand::from(source))))
}

/// The immediate-to-register/memory families: the destination comes from the
/// addressing-mode byte (consumed by the caller), the immediate follows the
/// displacement. The immediate is sign-extended from one byte only when the
/// caller allows it and the first byte's sign bit is set.
pub open spec fn spec_imm_to_reg_mem(
    bytes: Seq<u8>,
    pos: nat,
    b1: u8,
    b2: u8,
    check_sign_bit: bool,
) -> Option<(Operands, nat)> {
    let is_wide = b1 & 1 == 1;
    let sign = check_sign_bit && b1 & 2 != 0;
    let n = spec_ea_disp_len(b2);
    let dl = spec_data_len(is_wide, sign);
    if pos + n + dl <= bytes.len() {
        let target = spec_target(b2, is_wide, bytes.subrange(pos as int, pos as int + n as int));
        let explicit = target is Memory;
        let data = spec_data(bytes, pos + n, is_wide, sign);
        Some(
            (
                (
                    Some(spec_operand_of_target(target)),
                    Some(Operand::DataArg(DataArg { explicit, data })),
                ),
                (pos + n + dl) as nat,
            ),
        )
    } else {
        None
    }
}

pub fn parse_imm_to_reg_mem(byte_1: u8, byte_2: u8, bytes: &mut ByteStream, check_sign_bit: bool) -> (r:
    Result<Operands, EmuError>)
    requires
        old(bytes).wf(),
    ensures
        final(bytes).wf(),
        final(bytes).data() == old(bytes).data(),
        match spec_imm_to_reg_mem(
            old(bytes).data(),
            old(bytes).pos(),
            byte_1,
            byte_2,
            check_sign_bit,
        ) {
            Some((ops, n)) => r == Ok::<Operands, EmuError>(ops) && final(bytes).pos() == n,
            None => r == Err::<Operands, EmuError>(EmuError::UnexpectedEndOfInput) && final(bytes).pos() == old(bytes).data().len(),
        },
{
    let is_wide = byte_1 & 0b1 == 1;
    let destination = Target::parse(bytes, byte_2, is_wide)?;
    let explicit = matches!(&destination, Target::Memory(_));
    let data = Data::parse(bytes, is_wide, check_sign_bit && byte_1 & 0b10 != 0)?;
    Ok((Some(Operand::from(destination)), Some(Operand::DataArg(DataArg { explicit, data }))))
}

/// The short immediate-to-accumulator forms: the destination is AX or AL by
/// the width bit, the immediate follows directly.
pub open spec fn spec_imm_to_acc(bytes: Seq<u8>, pos: nat, b1: u8) -> Option<(Operands, nat)> {
    let is_wide = b1 & 1 != 0;
    let dl = spec_data_len(is_wide, false);
    if pos + dl <= bytes.len() {
        let dest = if is_wide {
            Register::AX
        } else {
            Register::AL
        };
        Some(
            (
                (
                    Some(Operand::Register(dest)),
                    Some(Operand::Data(spec_data(bytes, pos, is_wide, false))),
                ),
                (pos + dl) as nat,
            ),
        )
    } else {
        None
    }
}

pub fn parse_imm_to_acc(byte_1: u8, bytes: &mut ByteStream) -> (r: Result<Operands, EmuError>)
    requires
        old(bytes).wf(),
    ensures
        final(bytes).wf(),
        final(bytes).data() == old(bytes).data(),
        match spec_imm_to_acc(old(bytes).data(), old(bytes).pos(), byte_1) {
            Some((ops, n)) => r == Ok::<Operands, EmuError>(ops) && final(bytes).pos() == n,
            None => r == Err::<Operands, EmuError>(EmuError::UnexpectedEndOfInput) && final(bytes).pos() == old(bytes).data().len(),
        },
{
    let is_wide = (byte_1 & 0b1) != 0;
    let destination = if is_wide {
        Register::AX
    } else {
        Register::AL
    };
    let data = Data::parse(bytes, is_wide, false)?;
    Ok((Some(Operand::Register(destination)), Some(Operand::Data(data))))
}

/// A jump displacement byte normalized to count from the next instruction:
/// the signed byte plus the two bytes of the jump encoding itself.
pub open spec fn spec_jump_offset(b: u8) -> i16 {
    if b < 128 {
        (b + 2) as i16
    } else {
        (b - 256 + 2) as i16
    }
}

pub open spec fn spec_ip_inc_8(b: u8) -> Operands {
    (Some(Operand::RelativeJump(RelativeJump { offset: spec_jump_offset(b) })), None)
}

pub fn parse_ip_inc_8(byte: u8) -> (r: Operands)
    ensures
        r == spec_ip_inc_8(byte),
{
    let signed: i16 = if byte >= 128 {
        byte as i16 - 256
    } else {
        byte as i16
    };
    (Some(Operand::RelativeJump(RelativeJump { offset: signed + 2 })), None)
}

/// The move-immediate-to-register form: the register comes from the low
/// three bits of the first byte, the width from bit 3.
pub open spec fn spec_mov_imm_to_reg(bytes: Seq<u8>, pos: nat, b1: u8) -> Option<
    (Operands, nat),
> {
    let is_wide = b1 & 8 != 0;
    let dl = spec_data_len(is_wide, false);
    if pos + dl <= bytes.len() {
        Some(
            (
                (
                    Some(Operand::Register(Register::spec_from_reg(b1 & 7, is_wide))),
                    Some(Operand::Data(spec_data(bytes, pos, is_wide, false))),
                ),
                (pos + dl) as nat,
            ),
        )
    } else {
        None
    }
}

pub fn parse_mov_imm_to_reg(byte_1: u8, bytes: &mut ByteStream) -> (r: Result<Operands, EmuError>)
    requires
        old(bytes).wf(),
    ensures
        final(bytes).wf(),
        final(bytes).data() == old(bytes).data(),
        match spec_mov_imm_to_reg(old(bytes).data(), old(bytes).pos(), byte_1) {
            Some((ops, n)) => r == Ok::<Operands, EmuError>(ops) && final(bytes).pos() == n,
            None => r == Err::<Operands, EmuError>(EmuError::UnexpectedEndOfInput) && final(bytes).pos() == old(bytes).data().len(),
        },
{
    proof {
        crate::lemma_field_bounds(byte_1);
    }
    let is_wide = (byte_1 & 0b1000) != 0;
    let destination = Register::from_reg(byte_1 & 0b111, is_wide)?;
    let data = Data::parse(bytes, is_wide, false)?;
    Ok((Some(Operand::Register(destination)), Some(Operand::Data(data))))
}

/// A direct absolute address operand, as used by the short accumulator
/// move forms: always a 16-bit address, two stream bytes little-endian.
pub open spec fn spec_parse_mem(bytes: Seq<u8>, pos: nat) -> Option<(MemoryAddress, nat)> {
    if pos + 2 <= bytes.len() {
        Some((MemoryAddress::Direct(spec_data(bytes, pos, true, false)), (pos + 2) as nat))
    } else {
        None
    }
}

pub fn parse_mem(byte_1: u8, bytes: &mut ByteStream) -> (r: Result<MemoryAddress, EmuError>)
    requires
        old(bytes).wf(),
    ensures
        final(bytes).wf(),
        final(bytes).data() == old(bytes).data(),
        match spec_parse_mem(old(bytes).data(), old(bytes).pos()) {
            Some((m, n)) => r == Ok::<MemoryAddress, EmuError>(m) && final(bytes).pos() == n,
            None => r == Err::<MemoryAddress, EmuError>(EmuError::UnexpectedEndOfInput) && final(bytes).pos() == old(bytes).data().len(),
        },
{
    let data = Data::parse(bytes, true, false)?;
    Ok(MemoryAddress::Direct(data))
}

/// The accumulator named by the width bit of a short accumulator move: the
/// word register AX when it is set, the byte register AL when it is clear.
pub open spec fn spec_accumulator(b1: u8) -> Register {
    if b1 & 1 == 1 {
        Register::AX
    } else {
        Register::AL
    }
}

/// The accumulator-to-memory move: a direct address destination, the
/// accumulator (AX or AL by the width bit) as source.
pub open spec fn spec_mov_acc_to_mem(bytes: Seq<u8>, pos: nat, b1: u8) -> Option<
    (Operands, nat),
> {
    match spec_parse_mem(bytes, pos) {
        Some((m, n)) => Some(
            (
                (
                    Some(Operand::MemoryAddress(m)),
                    Some(Operand::Register(spec_accumulator(b1))),
                ),
                n,
            ),
        ),
        None => None,
    }
}

pub fn parse_mov_acc_to_mem(byte_1: u8, bytes: &mut ByteStream) -> (r: Result<Operands, EmuError>)
    requires
        old(bytes).wf(),
    ensures
        final(bytes).wf(),
        final(bytes).data() == old(bytes).data(),
        match spec_mov_acc_to_mem(old(bytes).data(), old(bytes).pos(), byte_1) {
            Some((ops, n)) => r == Ok::<Operands, EmuError>(ops) && final(bytes).pos() == n,
            None => r == Err::<Operands, EmuError>(EmuError::UnexpectedEndOfInput) && final(bytes).pos() == old(bytes).data().len(),
        },
{
    let m = parse_mem(byte_1, bytes)?;
    let acc = if (byte_1 & 0b1) == 1 {
        Register::AX
    } else {
        Register::AL
    };
    Ok((Some(Operand::MemoryAddress(m)), Some(Operand::Register(acc))))
}

/// The memory-to-accumulator move: the accumulator (AX or AL by the width
/// bit) as destination, a direct address source.
pub open spec fn spec_mov_mem_to_acc(bytes: Seq<u8>, pos: nat, b1: u8) -> Option<
    (Operands, nat),
> {
    match spec_parse_mem(bytes, pos) {
        Some((m, n)) => Some(
            (
                (
                    Some(Operand::Register(spec_accumulator(b1))),
                    Some(Operand::MemoryAddress(m)),
                ),
                n,
            ),
        ),
        None => None,
    }
}

pub fn parse_mov_mem_to_acc(byte_1: u8, bytes: &mut ByteStream) -> (r: Result<Operands, EmuError>)
    requires
        old(bytes).wf(),
    ensures
        final(bytes).wf(),
        final(bytes).data() == old(bytes).data(),
        match spec_mov_mem_to_acc(old(bytes).data(), old(bytes).pos(), byte_1) {
            Some((ops, n)) => r == Ok::<Operands, EmuError>(ops) && final(bytes).pos() == n,
            None => r == Err::<Operands, EmuError>(EmuError::UnexpectedEndOfInput) && final(bytes).pos() == old(bytes).data().len(),
        },
{
    let m = parse_mem(byte_1, bytes)?;
    let acc = if (byte_1 & 0b1) == 1 {
        Register::AX
    } else {
        Register::AL
    };
    Ok((Some(Operand::Register(acc)), Some(Operand::MemoryAddress(m))))
}

/// The segment-register-to-register/memory move: the `sr` field of the
/// addressing-mode byte names the segment register, the rest of the byte
/// names the other (always wide) operand.
pub open spec fn spec_sm_to_rm(bytes: Seq<u8>, pos: nat) -> Option<(Operands, nat)> {
    if pos < bytes.len() {
        let b = bytes[pos as int];
        let n = spec_ea_disp_len(b);
        if pos + 1 + n <= bytes.len() {
            let target = spec_target(b, true, bytes.subrange(pos as int + 1, pos as int + 1 + n as int));
            let sr = Register::spec_from_sr((b >> 3) & 3);
            Some(
                (
                    (Some(spec_operand_of_target(target)), Some(Operand::Register(sr))),
                    (pos + 1 + n) as nat,
                ),
            )
        } else {
            None
        }
    } else {
        None
    }
}

pub fn parse_sm_to_rm(bytes: &mut ByteStream) -> (r: Result<Operands, EmuError>)
    requires
        old(bytes).wf(),
    ensures
        final(bytes).wf(),
        final(bytes).data() == old(bytes).data(),
        match spec_sm_to_rm(old(bytes).data(), old(bytes).pos()) {
            Some((ops, n)) => r == Ok::<Operands, EmuError>(ops) && final(bytes).pos() == n,
            None => r == Err::<Operands, EmuError>(EmuError::UnexpectedEndOfInput) && final(bytes).pos() == old(bytes).data().len(),
        },
{
    let b = bytes.next()?;
    proof {
        crate::lemma_field_bounds(b);
    }
    let sr = Register::from_sr((b >> 3) & 0b11)?;
    let t = Target::parse(bytes, b, true)?;
    Ok((Some(Operand::from(t)), Some(Operand::Register(sr))))
}

/// The register/memory-to-segment-register move: the same encoding with the
/// operands the other way round.
pub open spec fn spec_rm_to_sm(bytes: Seq<u8>, pos: nat) -> Option<(Operands, nat)> {
    match spec_sm_to_rm(bytes, pos) {
        Some(((a, b), n)) => Some(((b, a), n)),
        None => None,
    }
}

pub fn parse_rm_to_sm(bytes: &mut ByteStream) -> (r: Result<Operands, EmuError>)
    requires
        old(bytes).wf(),
    ensures
        final(bytes).wf(),
        final(bytes).data() == old(bytes).data(),
        match spec_rm_to_sm(old(bytes).data(), old(bytes).pos()) {
            Some((ops, n)) => r == Ok::<Operands, EmuError>(ops) && final(bytes).pos() == n,
            None => r == Err::<Operands, EmuError>(EmuError::UnexpectedEndOfInput) && final(bytes).pos() == old(bytes).data().len(),
        },
{
    let (a, b) = parse_sm_to_rm(bytes)?;
    Ok((b, a))
}

} // verus!
