use vstd::prelude::*;

use crate::EmuError;

verus! {

/// Storage class of a register: which part of its backing 16-bit slot the
/// register covers.
#[derive(Clone, Copy, PartialEq, Eq, Structural, Debug)]
pub enum RegType {
    Low,
    High,
    Wide,
}

/// The twenty named 8086 registers this model knows: the eight byte
/// sub-registers, the eight word registers and the four segment registers.
#[derive(Clone, Copy, PartialEq, Eq, Structural, Debug)]
pub enum Register {
    // byte
    AL,
    BL,
    CL,
    DL,
    AH,
    BH,
    CH,
    DH,
    // word
    AX,
    BX,
    CX,
    DX,
    SP,
    BP,
    SI,
    DI,
    // segment
    ES,
    CS,
    SS,
    DS,
}

impl Register {
    /// The register's lower-case assembly name.
    pub open spec fn spec_name(self) -> Seq<char> {
        match self {
            Register::AX => "ax"@,
            Register::AL => "al"@,
            Register::CX => "cx"@,
            Register::CL => "cl"@,
            Register::DX => "dx"@,
            Register::DL => "dl"@,
            Register::BX => "bx"@,
            Register::BL => "bl"@,
            Register::SP => "sp"@,
            Register::AH => "ah"@,
            Register::BP => "bp"@,
            Register::CH => "ch"@,
            Register::SI => "si"@,
            Register::DH => "dh"@,
            Register::DI => "di"@,
            Register::BH => "bh"@,
            Register::ES => "es"@,
            Register::CS => "cs"@,
            Register::SS => "ss"@,
            Register::DS => "ds"@,
        }
    }

    /// The name of the full-width register backed by the same slot; for a
    /// wide or segment register this is its own name.
    pub open spec fn spec_wide_name(self) -> Seq<char> {
        match self {
            Register::AL | Register::AH => "ax"@,
            Register::BL | Register::BH => "bx"@,
            Register::CL | Register::CH => "cx"@,
            Register::DL | Register::DH => "dx"@,
            _ => self.spec_name(),
        }
    }

    /// The storage class of the register.
    pub open spec fn class(self) -> RegType {
        match self {
            Register::AL | Register::CL | Register::DL | Register::BL => RegType::Low,
            Register::AH | Register::CH | Register::DH | Register::BH => RegType::High,
            _ => RegType::Wide,
        }
    }

    /// Which of the twelve 16-bit slots of the register file backs this
    /// register. The low, high and wide registers of one letter share a slot.
    pub open spec fn slot(self) -> int {
        match self {
            Register::AL | Register::AH | Register::AX => 0,
            Register::BL | Register::BH | Register::BX => 1,
            Register::CL | Register::CH | Register::CX => 2,
            Register::DL | Register::DH | Register::DX => 3,
            Register::SP => 4,
            Register::BP => 5,
            Register::SI => 6,
            Register::DI => 7,
            Register::ES => 8,
            Register::CS => 9,
            Register::SS => 10,
            Register::DS => 11,
        }
    }

    pub fn as_str(&self) -> (r: &'static str)
        ensures
            r@ == self.spec_name(),
    {
        match self {
            Register::AX => "ax",
            Register::AL => "al",
            Register::CX => "cx",
            Register::CL => "cl",
            Register::DX => "dx",
            Register::DL => "dl",
            Register::BX => "bx",
            Register::BL => "bl",
            Register::SP => "sp",
            Register::AH => "ah",
            Register::BP => "bp",
            Register::CH => "ch",
            Register::SI => "si",
            Register::DH => "dh",
            Register::DI => "di",
            Register::BH => "bh",
            Register::ES => "es",
            Register::CS => "cs",
            Register::SS => "ss",
            Register::DS => "ds",
        }
    }

    pub fn as_wide_str(&self) -> (r: &'static str)
        ensures
            r@ == self.spec_wide_name(),
    {
        match self {
            Register::AL | Register::AH => "ax",
            Register::BL | Register::BH => "bx",
            Register::CL | Register::CH => "cx",
            Register::DL | Register::DH => "dx",
            _ => self.as_str(),
        }
    }

    /// The general register selected by a 3-bit `reg` or `r/m` field together
    /// with the width bit, per the fixed 8086 table. Meaningful only for
    /// codes below 8.
    pub open spec fn spec_from_reg(reg: u8, is_wide: bool) -> Register
        recommends
            reg < 8,
    {
        if is_wide {
            if reg == 0 {
                Register::AX
            } else if reg == 1 {
                Register::CX
            } else if reg == 2 {
                Register::DX
            } else if reg == 3 {
                Register::BX
            } else if reg == 4 {
                Register::SP
            } else if reg == 5 {
                Register::BP
            } else if reg == 6 {
                Register::SI
            } else {
                Register::DI
            }
        } else {
            if reg == 0 {
                Register::AL
            } else if reg == 1 {
                Register::CL
            } else if reg == 2 {
                Register::DL
            } else if reg == 3 {
                Register::BL
            } else if reg == 4 {
                Register::AH
            } else if reg == 5 {
                Register::CH
            } else if reg == 6 {
                Register::DH
            } else {
                Register::BH
            }
        }
    }

    pub fn from_reg(reg: u8, is_wide: bool) -> (r: Result<Self, EmuError>)
        ensures
            reg < 8 ==> r == Ok::<Register, EmuError>(Self::spec_from_reg(reg, is_wide)),
            reg >= 8 ==> r == Err::<Register, EmuError>(EmuError::UnsupportedOpcode(reg)),
    {
        Ok(
            match (is_wide, reg) {
                (true, 0b000) => Self::AX,
                (false, 0b000) => Self::AL,
                (true, 0b001) => Self::CX,
                (false, 0b001) => Self::CL,
                (true, 0b010) => Self::DX,
                (false, 0b010) => Self::DL,
                (true, 0b011) => Self::BX,
                (false, 0b011) => Self::BL,
                (true, 0b100) => Self::SP,
                (false, 0b100) => Self::AH,
                (true, 0b101) => Self::BP,
                (false, 0b101) => Self::CH,
                (true, 0b110) => Self::SI,
                (false, 0b110) => Self::DH,
                (true, 0b111) => Self::DI,
                (false, 0b111) => Self::BH,
                _ => {
                    return Err(EmuError::UnsupportedOpcode(reg));
                },
            },
        )
    }

    /// The segment register selected by a 2-bit `sr` field. Meaningful only
    /// for codes below 4.
    pub open spec fn spec_from_sr(sr: u8) -> Register
        recommends
            sr < 4,
    {
        if sr == 0 {
            Register::ES
        } else if sr == 1 {
            Register::CS
        } else if sr == 2 {
            Register::SS
        } else {
            Register::DS
        }
    }

    pub fn from_sr(sr: u8) -> (r: Result<Self, EmuError>)
        ensures
            sr < 4 ==> r == Ok::<Register, EmuError>(Self::spec_from_sr(sr)),
            sr >= 4 ==> r == Err::<Register, EmuError>(EmuError::UnsupportedOpcode(sr)),
    {
        match sr {
            0b00 => Ok(Self::ES),
            0b01 => Ok(Self::CS),
            0b10 => Ok(Self::SS),
            0b11 => Ok(Self::DS),
            _ => Err(EmuError::UnsupportedOpcode(sr)),
        }
    }

    pub fn get_type(&self) -> (t: RegType)
        ensures
            t == self.class(),
    {
        match self {
            Register::AL | Register::CL | Register::DL | Register::BL => RegType::Low,
            Register::AH | Register::CH | Register::DH | Register::BH => RegType::High,
            _ => RegType::Wide,
        }
    }

    pub fn get_reg_ix(&self) -> (ix: usize)
        ensures
            ix == self.slot(),
            ix < 12,
    {
        match self {
            Register::AL | Register::AH | Register::AX => 0,
            Register::BL | Register::BH | Register::BX => 1,
            Register::CL | Register::CH | Register::CX => 2,
            Register::DL | Register::DH | Register::DX => 3,
            Register::SP => 4,
            Register::BP => 5,
            Register::SI => 6,
            Register::DI => 7,
            Register::ES => 8,
            Register::CS => 9,
            Register::SS => 10,
            Register::DS => 11,
        }
    }
}

} // verus!
