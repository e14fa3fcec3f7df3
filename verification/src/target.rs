use vstd::prelude::*;

use crate::bytestream::ByteStream;
use crate::data::{spec_data, spec_word_le, Data, Displacement};
use crate::register::Register;
use crate::EmuError;

verus! {

/// One of the five 8086 effective-address forms.
#[derive(Clone, Copy, PartialEq, Eq, Structural, Debug)]
pub enum MemoryAddress {
    Direct(Data),
    RegnReg(Register, Register),
    Reg(Register),
    RegnData(Register, Displacement),
    RegnRegnData(Register, Register, Displacement),
}

impl MemoryAddress {
    /// The rendered text: the addressing expression in square brackets,
    /// spaced as NASM writes it.
    pub open spec fn spec_text(self) -> Seq<char> {
        match self {
            MemoryAddress::Direct(d) => "["@ + d.spec_text() + "]"@,
            MemoryAddress::RegnReg(r1, r2) => "["@ + r1.spec_name() + " + "@ + r2.spec_name()
                + "]"@,
            MemoryAddress::Reg(r) => "["@ + r.spec_name() + "]"@,
            MemoryAddress::RegnData(r, d) => "["@ + r.spec_name() + " "@ + d.spec_text() + "]"@,
            MemoryAddress::RegnRegnData(r1, r2, d) => "["@ + r1.spec_name() + " + "@
                + r2.spec_name() + " "@ + d.spec_text() + "]"@,
        }
    }

    pub fn render(&self) -> (s: String)
        ensures
            s@ == self.spec_text(),
    {
        let mut s = String::from_str("[");
        match self {
            MemoryAddress::Direct(d) => {
                let v = d.render();
                s.append(v.as_str());
            },
            MemoryAddress::RegnReg(r1, r2) => {
                s.append(r1.as_str());
                s.append(" + ");
                s.append(r2.as_str());
            },
            MemoryAddress::Reg(r) => {
                s.append(r.as_str());
            },
            MemoryAddress::RegnData(r, d) => {
                s.append(r.as_str());
                s.append(" ");
                let v = d.render();
                s.append(v.as_str());
            },
            MemoryAddress::RegnRegnData(r1, r2, d) => {
                s.append(r1.as_str());
                s.append(" + ");
                s.append(r2.as_str());
                s.append(" ");
                let v = d.render();
                s.append(v.as_str());
            },
        }
        s.append("]");
        s
    }
}

/// A segment register named by the 2-bit `sr` field of the segment move
/// encodings.
#[derive(Clone, Copy, PartialEq, Eq, Structural, Debug)]
pub enum SegmentRegister {
    ES,
    CS,
    SS,
    DS,
}

impl SegmentRegister {
    pub open spec fn spec_from(sr: u8) -> SegmentRegister
        recommends
            sr < 4,
    {
        if sr == 0 {
            SegmentRegister::ES
        } else if sr == 1 {
            SegmentRegister::CS
        } else if sr == 2 {
            SegmentRegister::SS
        } else {
            SegmentRegister::DS
        }
    }

    pub fn from(sr: u8) -> (r: Result<Self, EmuError>)
        ensures
            sr < 4 ==> r == Ok::<SegmentRegister, EmuError>(Self::spec_from(sr)),
            sr >= 4 ==> r == Err::<SegmentRegister, EmuError>(EmuError::UnsupportedOpcode(sr)),
    {
        match sr {
            0b00 => Ok(Self::ES),
            0b01 => Ok(Self::CS),
            0b10 => Ok(Self::SS),
            0b11 => Ok(Self::DS),
            _ => Err(EmuError::UnsupportedOpcode(sr)),
        }
    }
}

/// Either operand position of an instruction: a register, or a decoded
/// memory addressing expression.
#[derive(Clone, Copy, PartialEq, Eq, Structural, Debug)]
pub enum Target {
    Register(Register),
    Memory(MemoryAddress),
}

/// How many displacement bytes follow the addressing-mode byte: none for
/// register mode, one for mode 01, two for mode 10, and two for the
/// direct-address special case of mode 00 with `r/m` 110.
pub open spec fn spec_ea_disp_len(byte2: u8) -> nat {
    let md = byte2 >> 6;
    let rm = byte2 & 7;
    if md == 0 {
        if rm == 6 {
            2
        } else {
            0
        }
    } else if md == 1 {
        1
    } else if md == 2 {
        2
    } else {
        0
    }
}

/// The base/index pairing of the fixed 8086 table, without a displacement.
/// This is the table for modes 01 and 10 (where `r/m` 110 means BP); in mode
/// 00 the `r/m` 110 row is replaced by a direct address.
pub open spec fn spec_ea_base(rm: u8) -> MemoryAddress
    recommends
        rm < 8,
{
    if rm == 0 {
        MemoryAddress::RegnReg(Register::BX, Register::SI)
    } else if rm == 1 {
        MemoryAddress::RegnReg(Register::BX, Register::DI)
    } else if rm == 2 {
        MemoryAddress::RegnReg(Register::BP, Register::SI)
    } else if rm == 3 {
        MemoryAddress::RegnReg(Register::BP, Register::DI)
    } else if rm == 4 {
        MemoryAddress::Reg(Register::SI)
    } else if rm == 5 {
        MemoryAddress::Reg(Register::DI)
    } else if rm == 6 {
        MemoryAddress::Reg(Register::BP)
    } else {
        MemoryAddress::Reg(Register::BX)
    }
}

/// The same table with a nonzero displacement attached.
pub open spec fn spec_ea_disp(rm: u8, disp: Displacement) -> MemoryAddress
    recommends
        rm < 8,
{
    if rm == 0 {
        MemoryAddress::RegnRegnData(Register::BX, Register::SI, disp)
    } else if rm == 1 {
        MemoryAddress::RegnRegnData(Register::BX, Register::DI, disp)
    } else if rm == 2 {
        MemoryAddress::RegnRegnData(Register::BP, Register::SI, disp)
    } else if rm == 3 {
        MemoryAddress::RegnRegnData(Register::BP, Register::DI, disp)
    } else if rm == 4 {
        MemoryAddress::RegnData(Register::SI, disp)
    } else if rm == 5 {
        MemoryAddress::RegnData(Register::DI, disp)
    } else if rm == 6 {
        MemoryAddress::RegnData(Register::BP, disp)
    } else {
        MemoryAddress::RegnData(Register::BX, disp)
    }
}

/// The operand denoted by an addressing-mode byte together with its
/// displacement bytes `d`. A displacement that reads as zero collapses to
/// the bare base/index form, mirroring what canonical disassemblers emit.
pub open spec fn spec_target(byte2: u8, is_wide: bool, d: Seq<u8>) -> Target
    recommends
        d.len() == spec_ea_disp_len(byte2),
{
    let md = byte2 >> 6;
    let rm = byte2 & 7;
    if md == 3 {
        Target::Register(Register::spec_from_reg(rm, is_wide))
    } else if md == 0 {
        if rm == 6 {
            Target::Memory(MemoryAddress::Direct(Data::Word(spec_word_le(d[0], d[1]))))
        } else {
            Target::Memory(spec_ea_base(rm))
        }
    } else if md == 1 {
        if d[0] == 0 {
            Target::Memory(spec_ea_base(rm))
        } else {
            Target::Memory(spec_ea_disp(rm, Displacement::Byte(d[0])))
        }
    } else {
        if d[0] == 0 && d[1] == 0 {
            Target::Memory(spec_ea_base(rm))
        } else {
            Target::Memory(spec_ea_disp(rm, Displacement::Word(spec_word_le(d[0], d[1]))))
        }
    }
}

impl Target {
    /// Decodes the addressing-mode byte `byte_2` (already consumed by the
    /// caller) and reads whatever displacement bytes it calls for.
    pub fn parse(bytes: &mut ByteStream, byte_2: u8, is_wide: bool) -> (r: Result<Self, EmuError>)
        requires
            old(bytes).wf(),
        ensures
            final(bytes).wf(),
            final(bytes).data() == old(bytes).data(),
            ({
                let n = spec_ea_disp_len(byte_2);
                if old(bytes).pos() + n <= old(bytes).data().len() {
                    r == Ok::<Target, EmuError>(
                        spec_target(
                            byte_2,
                            is_wide,
                            old(bytes).data().subrange(
                                old(bytes).pos() as int,
                                old(bytes).pos() + n as int,
                            ),
                        ),
                    ) && final(bytes).pos() == old(bytes).pos() + n
                } else {
                    r == Err::<Target, EmuError>(EmuError::UnexpectedEndOfInput)
                        && final(bytes).pos() == old(bytes).data().len()
                }
            }),
    {
        let mod_val = byte_2 >> 6;
        let r_m = byte_2 & 0b111;
        proof {
            crate::lemma_field_bounds(byte_2);
        }

        if mod_val == 0b11 {
            return Ok(Self::Register(Register::from_reg(r_m, is_wide)?));
        }

        if mod_val == 0b00 {
            let m = if r_m == 0b110 {
                let b1 = bytes.next()?;
                let b2 = bytes.next()?;
                MemoryAddress::Direct(Data::to_word(b1, b2))
            } else {
                match r_m {
                    0b000 => MemoryAddress::RegnReg(Register::BX, Register::SI),
                    0b001 => MemoryAddress::RegnReg(Register::BX, Register::DI),
                    0b010 => MemoryAddress::RegnReg(Register::BP, Register::SI),
                    0b011 => MemoryAddress::RegnReg(Register::BP, Register::DI),
                    0b100 => MemoryAddress::Reg(Register::SI),
                    0b101 => MemoryAddress::Reg(Register::DI),
                    _ => MemoryAddress::Reg(Register::BX),
                }
            };
            return Ok(Self::Memory(m));
        }

        let displacement = if mod_val == 0b01 {
            let d = bytes.next()?;
            if d == 0 {
                None
            } else {
                Some(Displacement::Byte(d))
            }
        } else {
            let b1 = bytes.next()?;
            let b2 = bytes.next()?;
            if b1 == 0 && b2 == 0 {
                None
            } else {
                Some(Displacement::to_word(b1, b2))
            }
        };

        let mem_address = if let Some(disp) = displacement {
            match r_m {
                0b000 => MemoryAddress::RegnRegnData(Register::BX, Register::SI, disp),
                0b001 => MemoryAddress::RegnRegnData(Register::BX, Register::DI, disp),
                0b010 => MemoryAddress::RegnRegnData(Register::BP, Register::SI, disp),
                0b011 => MemoryAddress::RegnRegnData(Register::BP, Register::DI, disp),
                0b100 => MemoryAddress::RegnData(Register::SI, disp),
                0b101 => MemoryAddress::RegnData(Register::DI, disp),
                0b110 => MemoryAddress::RegnData(Register::BP, disp),
                _ => MemoryAddress::RegnData(Register::BX, disp),
            }
        } else {
            match r_m {
                0b000 => MemoryAddress::RegnReg(Register::BX, Register::SI),
                0b001 => MemoryAddress::RegnReg(Register::BX, Register::DI),
                0b010 => MemoryAddress::RegnReg(Register::BP, Register::SI),
                0b011 => MemoryAddress::RegnReg(Register::BP, Register::DI),
                0b100 => MemoryAddress::Reg(Register::SI),
                0b101 => MemoryAddress::Reg(Register::DI),
                0b110 => MemoryAddress::Reg(Register::BP),
                _ => MemoryAddress::Reg(Register::BX),
            }
        };

        Ok(Self::Memory(mem_address))
    }
}

} // verus!
