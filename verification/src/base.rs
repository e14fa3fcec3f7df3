use vstd::prelude::*;

use crate::bytestream::ByteStream;
use crate::data::{Data, DataArg};
use crate::instruction::spec_operand_of_target;
use crate::parsers::{spec_imm_to_acc, spec_imm_to_reg_mem, spec_jump_offset, spec_reg_mem_either_way};
use crate::register::Register;
use crate::target::Target;
use crate::EmuError;

verus! {

/// A register/memory either-way instruction body, kept as the pair of
/// decoded targets.
#[derive(Clone, Copy, PartialEq, Eq, Structural, Debug)]
pub struct RegMemEitherWay {
    pub destination: Target,
    pub source: Target,
}

impl RegMemEitherWay {
    pub fn parse(byte_1: u8, bytes: &mut ByteStream) -> (r: Result<Self, EmuError>)
        requires
            old(bytes).wf(),
        ensures
            final(bytes).wf(),
            final(bytes).data() == old(bytes).data(),
            match spec_reg_mem_either_way(old(bytes).data(), old(bytes).pos(), byte_1) {
                Some((ops, n)) => {
                    &&& final(bytes).pos() == n
                    &&& r matches Ok(v)
                    &&& ops.0 == Some( spec_operand_of_target(v.destination), )
                    &&& ops.1 == Some(spec_operand_of_target(v.source))
                },
                None => r == Err::<RegMemEitherWay, EmuError>(EmuError::UnexpectedEndOfInput)
                    && final(bytes).pos() == old(bytes).data().len(),
            },
    {
        let byte_2 = bytes.next()?;
        proof {
            crate::lemma_field_bounds(byte_2);
        }
        let is_wide = (byte_1 & 0b1) == 1;
        let reg = Target::Register(Register::from_reg((byte_2 >> 3) & 0b111, is_wide)?);
        let target = Target::parse(bytes, byte_2, is_wide)?;

        let (destination, source) = if (byte_1 & 0b10) != 0 {
            (reg, target)
        } else {
            (target, reg)
        };

        Ok(Self { destination, source })
    }
}

/// An immediate-to-register/memory instruction body: the decoded
/// destination and the immediate with its explicit-size flag.
#[derive(Clone, Copy, PartialEq, Eq, Structural, Debug)]
pub struct ImmToRegMem {
    pub destination: Target,
    pub data: DataArg,
}

impl ImmToRegMem {
    pub fn parse(byte_1: u8, byte_2: u8, bytes: &mut ByteStream, check_sign_bit: bool) -> (r:
        Result<Self, EmuError>)
        requires
            old(bytes).wf(),
        ensures
            final(bytes).wf(),
            final(bytes).data() == old(bytes).data(),
            match spec_imm_to_reg_mem(
                old(bytes).data(),
                old(bytes).pos(),
                byte_1,
                byte_2,
                check_sign_bit,
            ) {
                Some((ops, n)) => {
                    &&& final(bytes).pos() == n
                    &&& r matches Ok(v)
                    &&& ops.0 == Some( spec_operand_of_target(v.destination), )
                    &&& ops.1 == Some(crate::instruction::Operand::DataArg(v.data))
                },
                None => r == Err::<ImmToRegMem, EmuError>(EmuError::UnexpectedEndOfInput) && final(bytes).pos() == old(bytes).data().len(),
            },
    {
        let is_wide = byte_1 & 0b1 == 1;
        let destination = Target::parse(bytes, byte_2, is_wide)?;
        let explicit = matches!(&destination, Target::Memory(_));
        let data = Data::parse(bytes, is_wide, check_sign_bit && byte_1 & 0b10 != 0)?;
        Ok(Self { destination, data: DataArg { explicit, data } })
    }
}

/// An immediate-to-accumulator instruction body.
#[derive(Clone, Copy, PartialEq, Eq, Structural, Debug)]
pub struct ImmToAcc {
    pub destination: Register,
    pub data: Data,
}

impl ImmToAcc {
    pub fn parse(byte_1: u8, bytes: &mut ByteStream) -> (r: Result<Self, EmuError>)
        requires
            old(bytes).wf(),
        ensures
            final(bytes).wf(),
            final(bytes).data() == old(bytes).data(),
            match spec_imm_to_acc(old(bytes).data(), old(bytes).pos(), byte_1) {
                Some((ops, n)) => {
                    &&& final(bytes).pos() == n
                    &&& r matches Ok(v)
                    &&& ops.0 == Some( crate::instruction::Operand::Register(v.destination), )
                    &&& ops.1 == Some(crate::instruction::Operand::Data(v.data))
                },
                None => r == Err::<ImmToAcc, EmuError>(EmuError::UnexpectedEndOfInput) && final(bytes).pos() == old(bytes).data().len(),
            },
    {
        let is_wide = (byte_1 & 0b1) != 0;
        let destination = if is_wide {
            Register::AX
        } else {
            Register::AL
        };
        let data = Data::parse(bytes, is_wide, false)?;
        Ok(Self { destination, data })
    }
}

/// A one-byte jump displacement, normalized to count from the next
/// instruction.
#[derive(Clone, Copy, PartialEq, Eq, Structural, Debug)]
pub struct IPInc8 {
    pub offset: i16,
}

impl IPInc8 {
    pub fn parse(byte: u8) -> (r: Self)
        ensures
            r.offset == spec_jump_offset(byte),
    {
        let signed: i16 = if byte >= 128 {
            byte as i16 - 256
        } else {
            byte as i16
        };
        Self { offset: signed + 2 }
    }
}

} // verus!
