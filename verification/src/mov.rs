use vstd::prelude::*;

use crate::bytestream::ByteStream;
use crate::data::{Data, DataArg};
use crate::instruction::{spec_operand_of_target, Operand};
use crate::parsers::{
    spec_imm_to_reg_mem, spec_mov_acc_to_mem, spec_mov_imm_to_reg, spec_mov_mem_to_acc,
    spec_parse_mem, spec_reg_mem_either_way,
};
use crate::register::Register;
use crate::target::Target;
use crate::EmuError;

verus! {

/// A move between a register and a register/memory operand, kept as the
/// pair of decoded targets.
#[derive(Clone, Copy, PartialEq, Eq, Structural, Debug)]
pub struct Mov {
    pub destination: Target,
    pub source: Target,
}

impl Mov {
    pub fn parse(byte_1: u8, bytes: &mut ByteStream) -> (r: Result<Self, EmuError>)
        requires
            old(bytes).wf(),
        ensures
            final(bytes).wf(),
            final(bytes).data() == old(bytes).data(),
            match spec_reg_mem_either_way(old(bytes).data(), old(bytes).pos(), byte_1) {
                Some((ops, n)) => {
                    &&& final(bytes).pos() == n
                    &&& r matches Ok(v)
                    &&& ops.0 == Some( spec_operand_of_target(v.destination), )
                    &&& ops.1 == Some(spec_operand_of_target(v.source))
                },
                None => r == Err::<Mov, EmuError>(EmuError::UnexpectedEndOfInput) && final(bytes).pos() == old(bytes).data().len(),
            },
    {
        let byte_2 = bytes.next()?;
        proof {
            crate::lemma_field_bounds(byte_2);
        }
        let is_wide = (byte_1 & 0b1) == 1;
        let reg = Target::Register(Register::from_reg((byte_2 >> 3) & 0b111, is_wide)?);
        let target = Target::parse(bytes, byte_2, is_wide)?;

        let (destination, source) = if (byte_1 & 0b10) != 0 {
            (reg, target)
        } else {
            (target, reg)
        };

        Ok(Mov { destination, source })
    }
}

/// A move of an immediate into a register named by the opcode byte itself.
#[derive(Clone, Copy, PartialEq, Eq, Structural, Debug)]
pub struct MovImmToReg {
    pub destination: Register,
    pub data: Data,
}

impl MovImmToReg {
    pub fn parse(byte_1: u8, bytes: &mut ByteStream) -> (r: Result<Self, EmuError>)
        requires
            old(bytes).wf(),
        ensures
            final(bytes).wf(),
            final(bytes).data() == old(bytes).data(),
            match spec_mov_imm_to_reg(old(bytes).data(), old(bytes).pos(), byte_1) {
                Some((ops, n)) => {
                    &&& final(bytes).pos() == n
                    &&& r matches Ok(v)
                    &&& ops.0 == Some( Operand::Register(v.destination), )
                    &&& ops.1 == Some(Operand::Data(v.data))
                },
                None => r == Err::<MovImmToReg, EmuError>(EmuError::UnexpectedEndOfInput) && final(bytes).pos() == old(bytes).data().len(),
            },
    {
        proof {
            crate::lemma_field_bounds(byte_1);
        }
        let is_wide = (byte_1 & 0b1000) != 0;
        let destination = Register::from_reg(byte_1 & 0b111, is_wide)?;
        let data = Data::parse(bytes, is_wide, false)?;
        Ok(MovImmToReg { destination, data })
    }
}

/// A move of an immediate into a register/memory destination; the decoder
/// reads the addressing-mode byte itself.
#[derive(Clone, Copy, PartialEq, Eq, Structural, Debug)]
pub struct MovImmToRegMem {
    pub destination: Target,
    pub data: DataArg,
}

impl MovImmToRegMem {
    pub fn parse(byte_1: u8, bytes: &mut ByteStream) -> (r: Result<Self, EmuError>)
        requires
            old(bytes).wf(),
        ensures
            final(bytes).wf(),
            final(bytes).data() == old(bytes).data(),
            if old(bytes).pos() < old(bytes).data().len() {
                match spec_imm_to_reg_mem(
                    old(bytes).data(),
                    old(bytes).pos() + 1,
                    byte_1,
                    old(bytes).data()[old(bytes).pos() as int],
                    false,
                ) {
                    Some((ops, n)) => {
                    &&& final(bytes).pos() == n
                    &&& r matches Ok(v)
                    &&& ops.0 == Some( spec_operand_of_target(v.destination), )
                    &&& ops.1 == Some(Operand::DataArg(v.data))
                },
                    None => r == Err::<MovImmToRegMem, EmuError>(EmuError::UnexpectedEndOfInput)
                        && final(bytes).pos() == old(bytes).data().len(),
                }
            } else {
                r == Err::<MovImmToRegMem, EmuError>(EmuError::UnexpectedEndOfInput) && final(bytes).pos() == old(bytes).data().len()
            },
    {
        let is_wide = byte_1 & 0b1 == 1;
        let byte_2 = bytes.next()?;
        let destination = Target::parse(bytes, byte_2, is_wide)?;
        let explicit = matches!(&destination, Target::Memory(_));
        let data = Data::parse(bytes, is_wide, false)?;
        Ok(Self { destination, data: DataArg { explicit, data } })
    }
}

/// The short accumulator-to-direct-address move.
#[derive(Clone, Copy, PartialEq, Eq, Structural, Debug)]
pub struct MovAccToMem {
    pub mov: Mov,
}

impl MovAccToMem {
    pub fn parse(byte_1: u8, bytes: &mut ByteStream) -> (r: Result<Self, EmuError>)
        requires
            old(bytes).wf(),
        ensures
            final(bytes).wf(),
            final(bytes).data() == old(bytes).data(),
            match spec_mov_acc_to_mem(old(bytes).data(), old(bytes).pos(), byte_1) {
                Some((ops, n)) => {
                    &&& final(bytes).pos() == n
                    &&& r matches Ok(v)
                    &&& ops.0 == Some( spec_operand_of_target(v.mov.destination), )
                    &&& ops.1 == Some(spec_operand_of_target(v.mov.source))
                },
                None => r == Err::<MovAccToMem, EmuError>(EmuError::UnexpectedEndOfInput) && final(bytes).pos() == old(bytes).data().len(),
            },
    {
        let destination = parse_mem(byte_1, bytes)?;
        let acc = if (byte_1 & 0b1) == 1 {
            Register::AX
        } else {
            Register::AL
        };
        Ok(Self { mov: Mov { destination, source: Target::Register(acc) } })
    }
}

/// The short direct-address-to-accumulator move.
#[derive(Clone, Copy, PartialEq, Eq, Structural, Debug)]
pub struct MovMemToAcc {
    pub mov: Mov,
}

impl MovMemToAcc {
    pub fn parse(byte_1: u8, bytes: &mut ByteStream) -> (r: Result<Self, EmuError>)
        requires
            old(bytes).wf(),
        ensures
            final(bytes).wf(),
            final(bytes).data() == old(bytes).data(),
            match spec_mov_mem_to_acc(old(bytes).data(), old(bytes).pos(), byte_1) {
                Some((ops, n)) => {
                    &&& final(bytes).pos() == n
                    &&& r matches Ok(v)
                    &&& ops.0 == Some( spec_operand_of_target(v.mov.destination), )
                    &&& ops.1 == Some(spec_operand_of_target(v.mov.source))
                },
                None => r == Err::<MovMemToAcc, EmuError>(EmuError::UnexpectedEndOfInput) && final(bytes).pos() == old(bytes).data().len(),
            },
    {
        let source = parse_mem(byte_1, bytes)?;
        let acc = if (byte_1 & 0b1) == 1 {
            Register::AX
        } else {
            Register::AL
        };
        Ok(Self { mov: Mov { destination: Target::Register(acc), source } })
    }
}

/// A direct-address operand as a target, for the short accumulator moves:
/// always a 16-bit absolute address, two stream bytes little-endian.
pub fn parse_mem(byte_1: u8, bytes: &mut ByteStream) -> (r: Result<Target, EmuError>)
    requires
        old(bytes).wf(),
    ensures
        final(bytes).wf(),
        final(bytes).data() == old(bytes).data(),
        match spec_parse_mem(old(bytes).data(), old(bytes).pos()) {
            Some((m, n)) => r == Ok::<Target, EmuError>(Target::Memory(m)) && final(bytes).pos()
                == n,
            None => r == Err::<Target, EmuError>(EmuError::UnexpectedEndOfInput) && final(bytes).pos() == old(bytes).data().len(),
        },
{
    let data = Data::parse(bytes, true, false)?;
    Ok(Target::Memory(crate::target::MemoryAddress::Direct(data)))
}

} // verus!
