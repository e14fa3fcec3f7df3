use vstd::prelude::*;

pub mod base;
pub mod bytestream;
pub mod computer;
pub mod data;
pub mod instruction;
pub mod mov;
pub mod parsers;
pub mod properties;
pub mod register;
pub mod target;
pub mod text;

verus! {

/// The ways a decode or simulation run can fail. Every failure is fatal for
/// the run: decoding is a single forward pass and never resumes after an
/// error.
#[derive(Clone, Copy, PartialEq, Eq, Structural, Debug)]
pub enum EmuError {
    /// The byte stream ran out in the middle of an instruction.
    UnexpectedEndOfInput,
    /// A byte matched no known opcode bit pattern; carries the offending byte.
    UnsupportedOpcode(u8),
    /// The execution engine was handed an instruction/operand shape it does
    /// not model.
    InvalidOperandCombination,
}

/// Field extraction from an instruction byte always yields small values:
/// the 2-bit mode field, 3-bit register fields and 2-bit segment field.
pub proof fn lemma_field_bounds(b: u8)
    ensures
        b >> 6 < 4,
        b & 7 < 8,
        (b >> 3) & 7 < 8,
        (b >> 3) & 3 < 4,
{
    assert(b >> 6 < 4 && b & 7 < 8 && (b >> 3) & 7 < 8 && (b >> 3) & 3 < 4) by (bit_vector);
}

} // verus!
