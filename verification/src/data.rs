use vstd::prelude::*;

use crate::bytestream::ByteStream;
use crate::text::{dec_u64, spec_dec};
use crate::EmuError;

verus! {

/// The 16-bit word assembled little-endian from two stream bytes.
pub open spec fn spec_word_le(lo: u8, hi: u8) -> u16 {
    (hi * 256 + lo) as u16
}

/// An 8-bit immediate widened to 16 bits by replicating its sign bit.
pub open spec fn spec_sign_extend(b: u8) -> u16 {
    if b < 128 {
        b as u16
    } else {
        (b + 0xFF00) as u16
    }
}

/// How many stream bytes an immediate occupies: two for a plain word, one
/// for a byte or for a sign-extended word.
pub open spec fn spec_data_len(is_wide: bool, sign_bit: bool) -> nat {
    if is_wide && !sign_bit {
        2
    } else {
        1
    }
}

/// The immediate read at `pos`: a little-endian word, a sign-extended word,
/// or a single byte.
pub open spec fn spec_data(bytes: Seq<u8>, pos: nat, is_wide: bool, sign_bit: bool) -> Data
    recommends
        pos + spec_data_len(is_wide, sign_bit) <= bytes.len(),
{
    if !is_wide {
        Data::Byte(bytes[pos as int])
    } else if sign_bit {
        Data::Word(spec_sign_extend(bytes[pos as int]))
    } else {
        Data::Word(spec_word_le(bytes[pos as int], bytes[pos as int + 1]))
    }
}

/// An immediate value.
#[derive(Clone, Copy, PartialEq, Eq, Structural, Debug)]
pub enum Data {
    Byte(u8),
    Word(u16),
}

impl Data {
    /// The immediate as a 16-bit value; a byte is zero-extended.
    pub open spec fn spec_value(self) -> u16 {
        match self {
            Data::Byte(x) => x as u16,
            Data::Word(x) => x,
        }
    }

    /// Reads an immediate from the stream: two bytes little-endian when wide,
    /// one sign-extended byte when wide with the sign bit set, one byte
    /// otherwise.
    pub fn parse(bytes: &mut ByteStream, is_wide: bool, sign_bit: bool) -> (r: Result<
        Self,
        EmuError,
    >)
        requires
            old(bytes).wf(),
        ensures
            final(bytes).wf(),
            final(bytes).data() == old(bytes).data(),
            if old(bytes).pos() + spec_data_len(is_wide, sign_bit) <= old(bytes).data().len() {
                r == Ok::<Data, EmuError>(
                    spec_data(old(bytes).data(), old(bytes).pos(), is_wide, sign_bit),
                ) && final(bytes).pos() == old(bytes).pos() + spec_data_len(is_wide, sign_bit)
            } else {
                r == Err::<Data, EmuError>(EmuError::UnexpectedEndOfInput) && final(bytes).pos()
                    == old(bytes).data().len()
            },
    {
        match (is_wide, sign_bit) {
            (true, false) => {
                let b1 = bytes.next()?;
                let b2 = bytes.next()?;
                Ok(Data::to_word(b1, b2))
            },
            (true, true) => {
                let b = bytes.next()?;
                let v: u16 = if b >= 128 {
                    b as u16 + 0xFF00
                } else {
                    b as u16
                };
                Ok(Data::Word(v))
            },
            (false, _) => Ok(Data::Byte(bytes.next()?)),
        }
    }

    pub fn to_word(b1: u8, b2: u8) -> (r: Self)
        ensures
            r == Data::Word(spec_word_le(b1, b2)),
    {
        Data::Word(create_word(b1, b2))
    }

    pub fn value(&self) -> (v: u16)
        ensures
            v == self.spec_value(),
    {
        match self {
            Data::Byte(x) => *x as u16,
            Data::Word(x) => *x,
        }
    }

    /// The immediate's rendered text: its value in decimal.
    pub open spec fn spec_text(self) -> Seq<char> {
        spec_dec(self.spec_value() as nat)
    }

    pub fn render(&self) -> (s: String)
        ensures
            s@ == self.spec_text(),
    {
        dec_u64(self.value() as u64)
    }
}

/// An immediate together with the flag that forces an explicit `byte`/`word`
/// size tag in the rendered text, used when the destination is a memory
/// operand whose size a register operand cannot reveal.
#[derive(Clone, Copy, PartialEq, Eq, Structural, Debug)]
pub struct DataArg {
    pub explicit: bool,
    pub data: Data,
}

impl DataArg {
    /// The rendered text: the value, prefixed by an explicit `byte` or
    /// `word` size tag when the operand carries one.
    pub open spec fn spec_text(self) -> Seq<char> {
        if self.explicit {
            (match self.data {
                Data::Byte(_) => "byte "@,
                Data::Word(_) => "word "@,
            }) + self.data.spec_text()
        } else {
            self.data.spec_text()
        }
    }

    pub fn render(&self) -> (s: String)
        ensures
            s@ == self.spec_text(),
    {
        if self.explicit {
            let mut s = String::from_str(
                match self.data {
                    Data::Byte(_) => "byte ",
                    Data::Word(_) => "word ",
                },
            );
            let v = self.data.render();
            s.append(v.as_str());
            s
        } else {
            self.data.render()
        }
    }
}

/// A signed offset used inside a memory address: one byte, or one
/// little-endian word.
#[derive(Clone, Copy, PartialEq, Eq, Structural, Debug)]
pub enum Displacement {
    Byte(u8),
    Word(u16),
}

impl Displacement {
    pub fn to_word(b1: u8, b2: u8) -> (r: Self)
        ensures
            r == Displacement::Word(spec_word_le(b1, b2)),
    {
        Displacement::Word(create_word(b1, b2))
    }

    /// The rendered text inside a memory operand: a byte displacement as a
    /// signed value with its sign spelled out, a word displacement always
    /// with a literal `+` even when its 16-bit pattern would read as
    /// negative (a rendering choice kept as observed).
    pub open spec fn spec_text(self) -> Seq<char> {
        match self {
            Displacement::Byte(x) => if x < 128 {
                "+ "@ + spec_dec(x as nat)
            } else {
                "- "@ + spec_dec((256 - x) as nat)
            },
            Displacement::Word(x) => "+ "@ + spec_dec(x as nat),
        }
    }

    pub fn render(&self) -> (s: String)
        ensures
            s@ == self.spec_text(),
    {
        match self {
            Displacement::Byte(x) => {
                if *x < 128 {
                    let mut s = String::from_str("+ ");
                    let v = dec_u64(*x as u64);
                    s.append(v.as_str());
                    s
                } else {
                    let mut s = String::from_str("- ");
                    let v = dec_u64(256 - (*x as u64));
                    s.append(v.as_str());
                    s
                }
            },
            Displacement::Word(x) => {
                let mut s = String::from_str("+ ");
                let v = dec_u64(*x as u64);
                s.append(v.as_str());
                s
            },
        }
    }
}

/// A jump displacement, normalized to be relative to the address of the
/// next instruction: the stored offset is the stream byte plus the two bytes
/// of the jump encoding itself.
#[derive(Clone, Copy, PartialEq, Eq, Structural, Debug)]
pub struct RelativeJump {
    pub offset: i16,
}

impl RelativeJump {
    /// The rendered text: assembler `$+N` / `$-N` notation for the offset
    /// from the current instruction's own address.
    pub open spec fn spec_text(self) -> Seq<char> {
        if self.offset >= 0 {
            "$+"@ + spec_dec(self.offset as nat)
        } else {
            "$-"@ + spec_dec((-self.offset) as nat)
        }
    }

    pub fn render(&self) -> (s: String)
        ensures
            s@ == self.spec_text(),
    {
        let off: i32 = self.offset as i32;
        if off >= 0 {
            let mut s = String::from_str("$+");
            let v = dec_u64(off as u64);
            s.append(v.as_str());
            s
        } else {
            let mut s = String::from_str("$-");
            let v = dec_u64((-off) as u64);
            s.append(v.as_str());
            s
        }
    }
}

pub fn create_word(b1: u8, b2: u8) -> (r: u16)
    ensures
        r == spec_word_le(b1, b2),
{
    (b2 as u16) * 256 + (b1 as u16)
}

} // verus!
