use vstd::prelude::*;

use crate::bytestream::ByteStream;
use crate::data::{Data, DataArg, RelativeJump};
use crate::parsers::{
    parse_imm_to_acc, parse_imm_to_reg_mem, parse_ip_inc_8, parse_mov_acc_to_mem,
    parse_mov_imm_to_reg, parse_mov_mem_to_acc, parse_reg_mem_either_way, parse_rm_to_sm,
    parse_sm_to_rm, spec_imm_to_acc, spec_imm_to_reg_mem, spec_ip_inc_8, spec_mov_acc_to_mem,
    spec_mov_imm_to_reg, spec_mov_mem_to_acc, spec_reg_mem_either_way, spec_rm_to_sm,
    spec_sm_to_rm,
};
use crate::register::Register;
use crate::target::{MemoryAddress, Target};
use crate::EmuError;

verus! {

/// The closed set of mnemonics this decoder recognizes.
#[derive(Clone, Copy, PartialEq, Eq, Structural, Debug)]
pub enum Mnemonic {
    Add,
    Mov,
    Sub,
    Cmp,
    Jnz,
    Je,
    Jl,
    Jle,
    Jb,
    Jbe,
    Jp,
    Jo,
    Js,
    Jnl,
    Jg,
    Jnb,
    Ja,
    Jnp,
    Jno,
    Jns,
    Loop,
    Loopz,
    Loopnz,
    Jcxz,
}

impl Mnemonic {
    /// The mnemonic's lower-case assembly spelling.
    pub open spec fn spec_name(self) -> Seq<char> {
        match self {
            Mnemonic::Add => "add"@,
            Mnemonic::Mov => "mov"@,
            Mnemonic::Sub => "sub"@,
            Mnemonic::Cmp => "cmp"@,
            Mnemonic::Jnz => "jnz"@,
            Mnemonic::Je => "je"@,
            Mnemonic::Jl => "jl"@,
            Mnemonic::Jle => "jle"@,
            Mnemonic::Jb => "jb"@,
            Mnemonic::Jbe => "jbe"@,
            Mnemonic::Jp => "jp"@,
            Mnemonic::Jo => "jo"@,
            Mnemonic::Js => "js"@,
            Mnemonic::Jnl => "jnl"@,
            Mnemonic::Jg => "jg"@,
            Mnemonic::Jnb => "jnb"@,
            Mnemonic::Ja => "ja"@,
            Mnemonic::Jnp => "jnp"@,
            Mnemonic::Jno => "jno"@,
            Mnemonic::Jns => "jns"@,
            Mnemonic::Loop => "loop"@,
            Mnemonic::Loopz => "loopz"@,
            Mnemonic::Loopnz => "loopnz"@,
            Mnemonic::Jcxz => "jcxz"@,
        }
    }

    pub fn as_str(&self) -> (r: &'static str)
        ensures
            r@ == self.spec_name(),
    {
        match self {
            Mnemonic::Add => "add",
            Mnemonic::Mov => "mov",
            Mnemonic::Sub => "sub",
            Mnemonic::Cmp => "cmp",
            Mnemonic::Jnz => "jnz",
            Mnemonic::Je => "je",
            Mnemonic::Jl => "jl",
            Mnemonic::Jle => "jle",
            Mnemonic::Jb => "jb",
            Mnemonic::Jbe => "jbe",
            Mnemonic::Jp => "jp",
            Mnemonic::Jo => "jo",
            Mnemonic::Js => "js",
            Mnemonic::Jnl => "jnl",
            Mnemonic::Jg => "jg",
            Mnemonic::Jnb => "jnb",
            Mnemonic::Ja => "ja",
            Mnemonic::Jnp => "jnp",
            Mnemonic::Jno => "jno",
            Mnemonic::Jns => "jns",
            Mnemonic::Loop => "loop",
            Mnemonic::Loopz => "loopz",
            Mnemonic::Loopnz => "loopnz",
            Mnemonic::Jcxz => "jcxz",
        }
    }
}

/// A decoded operand.
#[derive(Clone, Copy, PartialEq, Eq, Structural, Debug)]
pub enum Operand {
    Register(Register),
    MemoryAddress(MemoryAddress),
    DataArg(DataArg),
    Data(Data),
    RelativeJump(RelativeJump),
}

/// The operand a `Target` stands for.
pub open spec fn spec_operand_of_target(t: Target) -> Operand {
    match t {
        Target::Register(register) => Operand::Register(register),
        Target::Memory(memory_address) => Operand::MemoryAddress(memory_address),
    }
}

impl Operand {
    pub fn from(t: Target) -> (r: Self)
        ensures
            r == spec_operand_of_target(t),
    {
        match t {
            Target::Register(register) => Self::Register(register),
            Target::Memory(memory_address) => Self::MemoryAddress(memory_address),
        }
    }

    /// The operand's rendered text, by variant.
    pub open spec fn spec_text(self) -> Seq<char> {
        match self {
            Operand::Register(r) => r.spec_name(),
            Operand::MemoryAddress(m) => m.spec_text(),
            Operand::DataArg(d) => d.spec_text(),
            Operand::Data(d) => d.spec_text(),
            Operand::RelativeJump(j) => j.spec_text(),
        }
    }

    pub fn render(&self) -> (s: String)
        ensures
            s@ == self.spec_text(),
    {
        match self {
            Operand::Register(r) => String::from_str(r.as_str()),
            Operand::MemoryAddress(m) => m.render(),
            Operand::DataArg(d) => d.render(),
            Operand::Data(d) => d.render(),
            Operand::RelativeJump(j) => j.render(),
        }
    }
}

/// The ordered operand pair of an instruction: destination, then source.
pub type Operands = (Option<Operand>, Option<Operand>);

/// A decoded instruction: a mnemonic plus up to two operands.
#[derive(Clone, Copy, PartialEq, Eq, Debug)]
pub struct Inst {
    pub mnemonic: Mnemonic,
    pub operands: Operands,
}

/// Attaches a mnemonic to a parsed operand pair; a missing pair means the
/// stream ran out.
pub open spec fn spec_with_ops(m: Mnemonic, o: Option<(Operands, nat)>) -> Result<
    Option<(Inst, nat)>,
    EmuError,
> {
    match o {
        Some((ops, n)) => Ok(Some((Inst { mnemonic: m, operands: ops }, n))),
        None => Err(EmuError::UnexpectedEndOfInput),
    }
}

/// A jump or loop instruction: one displacement byte follows the opcode.
pub open spec fn spec_jump_inst(m: Mnemonic, bytes: Seq<u8>, p: nat) -> Result<
    Option<(Inst, nat)>,
    EmuError,
> {
    if p < bytes.len() {
        Ok(Some((Inst { mnemonic: m, operands: spec_ip_inc_8(bytes[p as int]) }, (p + 1) as nat)))
    } else {
        Err(EmuError::UnexpectedEndOfInput)
    }
}

/// The whole decode table: what one instruction starting at `pos` decodes
/// to. `Ok(None)` is clean end of stream; otherwise the result carries the
/// instruction and the position just past it. The guards are tried in the
/// same fixed priority order the decoder uses: short, more specific bit
/// masks before broader ones.
pub open spec fn spec_parse_inst(bytes: Seq<u8>, pos: nat) -> Result<
    Option<(Inst, nat)>,
    EmuError,
> {
    if pos >= bytes.len() {
        Ok(None)
    } else {
        let b = bytes[pos as int];
        let p = (pos + 1) as nat;
        if b >> 2 == 0b000000 {
            spec_with_ops(Mnemonic::Add, spec_reg_mem_either_way(bytes, p, b))
        } else if b >> 1 == 0b0000010 {
            spec_with_ops(Mnemonic::Add, spec_imm_to_acc(bytes, p, b))
        } else if b >> 2 == 0b100010 {
            spec_with_ops(Mnemonic::Mov, spec_reg_mem_either_way(bytes, p, b))
        } else if b >> 4 == 0b1011 {
            spec_with_ops(Mnemonic::Mov, spec_mov_imm_to_reg(bytes, p, b))
        } else if b >> 1 == 0b1100011 {
            if p < bytes.len() {
                spec_with_ops(
                    Mnemonic::Mov,
                    spec_imm_to_reg_mem(bytes, (p + 1) as nat, b, bytes[p as int], false),
                )
            } else {
                Err(EmuError::UnexpectedEndOfInput)
            }
        } else if b >> 1 == 0b1010000 {
            spec_with_ops(Mnemonic::Mov, spec_mov_mem_to_acc(bytes, p, b))
        } else if b >> 1 == 0b1010001 {
            spec_with_ops(Mnemonic::Mov, spec_mov_acc_to_mem(bytes, p, b))
        } else if b == 0b10001110 {
            spec_with_ops(Mnemonic::Mov, spec_rm_to_sm(bytes, p))
        } else if b == 0b10001100 {
            spec_with_ops(Mnemonic::Mov, spec_sm_to_rm(bytes, p))
        } else if b >> 2 == 0b001010 {
            spec_with_ops(Mnemonic::Sub, spec_reg_mem_either_way(bytes, p, b))
        } else if b >> 1 == 0b0010110 {
            spec_with_ops(Mnemonic::Sub, spec_imm_to_acc(bytes, p, b))
        } else if b >> 2 == 0b001110 {
            spec_with_ops(Mnemonic::Cmp, spec_reg_mem_either_way(bytes, p, b))
        } else if b >> 1 == 0b0011110 {
            spec_with_ops(Mnemonic::Cmp, spec_imm_to_acc(bytes, p, b))
        } else if b >> 2 == 0b100000 {
            if p < bytes.len() {
                let b2 = bytes[p as int];
                let op = (b2 >> 3) & 7;
                if op == 0b000 {
                    spec_with_ops(
                        Mnemonic::Add,
                        spec_imm_to_reg_mem(bytes, (p + 1) as nat, b, b2, true),
                    )
                } else if op == 0b101 {
                    spec_with_ops(
                        Mnemonic::Sub,
                        spec_imm_to_reg_mem(bytes, (p + 1) as nat, b, b2, true),
                    )
                } else if op == 0b111 {
                    spec_with_ops(
                        Mnemonic::Cmp,
                        spec_imm_to_reg_mem(bytes, (p + 1) as nat, b, b2, true),
                    )
                } else {
                    Err(EmuError::UnsupportedOpcode(b2))
                }
            } else {
                Err(EmuError::UnexpectedEndOfInput)
            }
        } else if b == 0b01110100 {
            spec_jump_inst(Mnemonic::Je, bytes, p)
        } else if b == 0b01111100 {
            spec_jump_inst(Mnemonic::Jl, bytes, p)
        } else if b == 0b01110101 {
            spec_jump_inst(Mnemonic::Jnz, bytes, p)
        } else if b == 0b01111110 {
            spec_jump_inst(Mnemonic::Jle, bytes, p)
        } else if b == 0b01110010 {
            spec_jump_inst(Mnemonic::Jb, bytes, p)
        } else if b == 0b01110110 {
            spec_jump_inst(Mnemonic::Jbe, bytes, p)
        } else if b == 0b01111010 {
            spec_jump_inst(Mnemonic::Jp, bytes, p)
        } else if b == 0b01110000 {
            spec_jump_inst(Mnemonic::Jo, bytes, p)
        } else if b == 0b01111000 {
            spec_jump_inst(Mnemonic::Js, bytes, p)
        } else if b == 0b01111101 {
            spec_jump_inst(Mnemonic::Jnl, bytes, p)
        } else if b == 0b01111111 {
            spec_jump_inst(Mnemonic::Jg, bytes, p)
        } else if b == 0b01110011 {
            spec_jump_inst(Mnemonic::Jnb, bytes, p)
        } else if b == 0b01110111 {
            spec_jump_inst(Mnemonic::Ja, bytes, p)
        } else if b == 0b01111011 {
            spec_jump_inst(Mnemonic::Jnp, bytes, p)
        } else if b == 0b01110001 {
            spec_jump_inst(Mnemonic::Jno, bytes, p)
        } else if b == 0b01111001 {
            spec_jump_inst(Mnemonic::Jns, bytes, p)
        } else if b == 0b11100010 {
            spec_jump_inst(Mnemonic::Loop, bytes, p)
        } else if b == 0b11100001 {
            spec_jump_inst(Mnemonic::Loopz, bytes, p)
        } else if b == 0b11100000 {
            spec_jump_inst(Mnemonic::Loopnz, bytes, p)
        } else if b == 0b11100011 {
            spec_jump_inst(Mnemonic::Jcxz, bytes, p)
        } else {
            Err(EmuError::UnsupportedOpcode(b))
        }
    }
}

impl Inst {
    pub fn new(mnemonic: Mnemonic, op1: Option<Operand>, op2: Option<Operand>) -> (r: Self)
        ensures
            r == (Inst { mnemonic, operands: (op1, op2) }),
    {
        Self { mnemonic, operands: (op1, op2) }
    }

    /// The instruction's rendered assembly line: the mnemonic, then the
    /// destination and source operands separated as `dest, src`.
    pub open spec fn spec_text(self) -> Seq<char> {
        self.mnemonic.spec_name() + (match self.operands.0 {
            Some(op) => " "@ + op.spec_text(),
            None => Seq::<char>::empty(),
        }) + (match self.operands.1 {
            Some(op) => ", "@ + op.spec_text(),
            None => Seq::<char>::empty(),
        })
    }

    pub fn render(&self) -> (s: String)
        ensures
            s@ == self.spec_text(),
    {
        let mut s = String::from_str(self.mnemonic.as_str());
        if let Some(op) = &self.operands.0 {
            s.append(" ");
            let t = op.render();
            s.append(t.as_str());
        }
        if let Some(op) = &self.operands.1 {
            s.append(", ");
            let t = op.render();
            s.append(t.as_str());
        }
        s
    }

    /// Decodes one instruction from the stream, per the decode table
    /// `spec_parse_inst`. Returns `Ok(None)` only on clean end of stream
    /// before any byte is consumed; a stream that runs out mid-instruction
    /// fails with `UnexpectedEndOfInput`, and a first byte (or an
    /// immediate-group second byte) matching no pattern fails with
    /// `UnsupportedOpcode`.
    #[verifier::rlimit(50)]
    pub fn parse(bytes: &mut ByteStream) -> (r: Result<Option<Self>, EmuError>)
        requires
            old(bytes).wf(),
        ensures
            final(bytes).wf(),
            final(bytes).data() == old(bytes).data(),
            final(bytes).pos() >= old(bytes).pos(),
            match spec_parse_inst(old(bytes).data(), old(bytes).pos()) {
                Ok(decoded) => match decoded {
                    None => r == Ok::<Option<Inst>, EmuError>(None) && final(bytes).pos() == old(bytes).pos(),
                    Some((i, n)) => r == Ok::<Option<Inst>, EmuError>(Some(i)) && final(bytes).pos() == n,
                },
                Err(e) => r == Err::<Option<Inst>, EmuError>(e) && (e
                    == EmuError::UnexpectedEndOfInput ==> final(bytes).pos() == old(bytes).data().len()),
            },
    {
        let byte_1 = match bytes.maybe_next() {
            Some(b) => b,
            None => {
                return Ok(None);
            },
        };

        let (mnemonic, ops): (Mnemonic, Operands) = if byte_1 >> 2 == 0b000000 {
            (Mnemonic::Add, parse_reg_mem_either_way(byte_1, bytes)?)
        } else if byte_1 >> 1 == 0b0000010 {
            (Mnemonic::Add, parse_imm_to_acc(byte_1, bytes)?)
        } else if byte_1 >> 2 == 0b100010 {
            (Mnemonic::Mov, parse_reg_mem_either_way(byte_1, bytes)?)
        } else if byte_1 >> 4 == 0b1011 {
            (Mnemonic::Mov, parse_mov_imm_to_reg(byte_1, bytes)?)
        } else if byte_1 >> 1 == 0b1100011 {
            let byte_2 = bytes.next()?;
            (Mnemonic::Mov, parse_imm_to_reg_mem(byte_1, byte_2, bytes, false)?)
        } else if byte_1 >> 1 == 0b1010000 {
            (Mnemonic::Mov, parse_mov_mem_to_acc(byte_1, bytes)?)
        } else if byte_1 >> 1 == 0b1010001 {
            (Mnemonic::Mov, parse_mov_acc_to_mem(byte_1, bytes)?)
        } else if byte_1 == 0b10001110 {
            (Mnemonic::Mov, parse_rm_to_sm(bytes)?)
        } else if byte_1 == 0b10001100 {
            (Mnemonic::Mov, parse_sm_to_rm(bytes)?)
        } else if byte_1 >> 2 == 0b001010 {
            (Mnemonic::Sub, parse_reg_mem_either_way(byte_1, bytes)?)
        } else if byte_1 >> 1 == 0b0010110 {
            (Mnemonic::Sub, parse_imm_to_acc(byte_1, bytes)?)
        } else if byte_1 >> 2 == 0b001110 {
            (Mnemonic::Cmp, parse_reg_mem_either_way(byte_1, bytes)?)
        } else if byte_1 >> 1 == 0b0011110 {
            (Mnemonic::Cmp, parse_imm_to_acc(byte_1, bytes)?)
        } else if byte_1 >> 2 == 0b100000 {
            let byte_2 = bytes.next()?;
            let op = (byte_2 >> 3) & 0b111;
            if op == 0b000 {
                (Mnemonic::Add, parse_imm_to_reg_mem(byte_1, byte_2, bytes, true)?)
            } else if op == 0b101 {
                (Mnemonic::Sub, parse_imm_to_reg_mem(byte_1, byte_2, bytes, true)?)
            } else if op == 0b111 {
                (Mnemonic::Cmp, parse_imm_to_reg_mem(byte_1, byte_2, bytes, true)?)
            } else {
                return Err(EmuError::UnsupportedOpcode(byte_2));
            }
        } else if byte_1 == 0b01110100 {
            (Mnemonic::Je, parse_ip_inc_8(bytes.next()?))
        } else if byte_1 == 0b01111100 {
            (Mnemonic::Jl, parse_ip_inc_8(bytes.next()?))
        } else if byte_1 == 0b01110101 {
            (Mnemonic::Jnz, parse_ip_inc_8(bytes.next()?))
        } else if byte_1 == 0b01111110 {
            (Mnemonic::Jle, parse_ip_inc_8(bytes.next()?))
        } else if byte_1 == 0b01110010 {
            (Mnemonic::Jb, parse_ip_inc_8(bytes.next()?))
        } else if byte_1 == 0b01110110 {
            (Mnemonic::Jbe, parse_ip_inc_8(bytes.next()?))
        } else if byte_1 == 0b01111010 {
            (Mnemonic::Jp, parse_ip_inc_8(bytes.next()?))
        } else if byte_1 == 0b01110000 {
            (Mnemonic::Jo, parse_ip_inc_8(bytes.next()?))
        } else if byte_1 == 0b01111000 {
            (Mnemonic::Js, parse_ip_inc_8(bytes.next()?))
        } else if byte_1 == 0b01111101 {
            (Mnemonic::Jnl, parse_ip_inc_8(bytes.next()?))
        } else if byte_1 == 0b01111111 {
            (Mnemonic::Jg, parse_ip_inc_8(bytes.next()?))
        } else if byte_1 == 0b01110011 {
            (Mnemonic::Jnb, parse_ip_inc_8(bytes.next()?))
        } else if byte_1 == 0b01110111 {
            (Mnemonic::Ja, parse_ip_inc_8(bytes.next()?))
        } else if byte_1 == 0b01111011 {
            (Mnemonic::Jnp, parse_ip_inc_8(bytes.next()?))
        } else if byte_1 == 0b01110001 {
            (Mnemonic::Jno, parse_ip_inc_8(bytes.next()?))
        } else if byte_1 == 0b01111001 {
            (Mnemonic::Jns, parse_ip_inc_8(bytes.next()?))
        } else if byte_1 == 0b11100010 {
            (Mnemonic::Loop, parse_ip_inc_8(bytes.next()?))
        } else if byte_1 == 0b11100001 {
            (Mnemonic::Loopz, parse_ip_inc_8(bytes.next()?))
        } else if byte_1 == 0b11100000 {
            (Mnemonic::Loopnz, parse_ip_inc_8(bytes.next()?))
        } else if byte_1 == 0b11100011 {
            (Mnemonic::Jcxz, parse_ip_inc_8(bytes.next()?))
        } else {
            return Err(EmuError::UnsupportedOpcode(byte_1));
        };

        Ok(Some(Self::new(mnemonic, ops.0, ops.1)))
    }
}

} // verus!
