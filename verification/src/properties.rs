use vstd::prelude::*;

use crate::computer::{spec_read_slot, spec_step, spec_write_slot, Flags};
use crate::instruction::{spec_parse_inst, Inst, Mnemonic, Operands};
use crate::parsers::spec_reg_mem_either_way;
use crate::register::{RegType, Register};
use crate::target::{spec_ea_disp_len, spec_target};
use crate::EmuError;

verus! {

/// Law: sub-register aliasing. Writing the low-byte register of a slot
/// leaves the high byte exactly as it was and puts the written value
/// (truncated to a byte) in the low byte; a high-byte write is the mirror
/// image. This holds for every prior slot state and every written value.
pub proof fn lemma_sub_register_aliasing(slot: u16, v: u16)
    ensures
        spec_read_slot(spec_write_slot(slot, RegType::Low, v), RegType::High) == spec_read_slot(
            slot,
            RegType::High,
        ),
        spec_read_slot(spec_write_slot(slot, RegType::Low, v), RegType::Low) == v & 0xFF,
        spec_read_slot(spec_write_slot(slot, RegType::High, v), RegType::Low) == spec_read_slot(
            slot,
            RegType::Low,
        ),
        spec_read_slot(spec_write_slot(slot, RegType::High, v), RegType::High) == v & 0xFF,
{
    assert((((slot & 0xFF00) + (v & 0xFF)) as u16) >> 8 == slot >> 8) by (bit_vector);
    assert((((slot & 0xFF00) + (v & 0xFF)) as u16) & 0xFF == v & 0xFF) by (bit_vector);
    assert(((((v & 0xFF) << 8) + (slot & 0xFF)) as u16) & 0xFF == slot & 0xFF) by (bit_vector);
    assert(((((v & 0xFF) << 8) + (slot & 0xFF)) as u16) >> 8 == v & 0xFF) by (bit_vector);
}

/// Law: `Cmp` never mutates any register, and recomputes the flags exactly
/// as `Sub` does with the same operands: the two are modeled on the same
/// operand shapes, produce the same flag state and the same flag delta, and
/// `Cmp` leaves the register file and the register delta empty.
pub proof fn lemma_cmp_flags_match_sub(regs: Seq<u16>, flags: Flags, ops: Operands)
    ensures
        match (
            spec_step(regs, flags, Inst { mnemonic: Mnemonic::Cmp, operands: ops }),
            spec_step(regs, flags, Inst { mnemonic: Mnemonic::Sub, operands: ops }),
        ) {
            (Some((cregs, cflags, cru, cfu)), Some((sregs, sflags, sru, sfu))) => {
                &&& cregs == regs
                &&& cru is None
                &&& cflags == sflags
                &&& cfu == sfu
            },
            (None, None) => true,
            _ => false,
        },
{
}

/// Law: a lone opcode byte that calls for an addressing-mode second byte,
/// with nothing after it, fails to decode with `UnexpectedEndOfInput`. (The
/// execution engine's own contract adds that a failed decode leaves the
/// register file and flags untouched.)
pub proof fn lemma_truncated_modrm_fails(b: u8)
    requires
        b >> 2 == 0b000000 || b >> 2 == 0b100010 || b >> 1 == 0b1100011 || b == 0b10001110 || b
            == 0b10001100 || b >> 2 == 0b001010 || b >> 2 == 0b001110 || b >> 2 == 0b100000,
    ensures
        spec_parse_inst(seq![b], 0) == Err::<Option<(Inst, nat)>, EmuError>(
            EmuError::UnexpectedEndOfInput,
        ),
{
    assert(seq![b].len() == 1);
    assert(seq![b][0] == b);
}

/// The register-selection table is injective: two codes that name the same
/// register are the same code with the same width bit.
pub proof fn lemma_from_reg_injective(c1: u8, w1: bool, c2: u8, w2: bool)
    requires
        c1 < 8,
        c2 < 8,
        Register::spec_from_reg(c1, w1) == Register::spec_from_reg(c2, w2),
    ensures
        c1 == c2,
        w1 == w2,
{
}

/// The addressing-mode table is injective once a written-out zero
/// displacement (which collapses to the displacement-free form) is set
/// aside: two mode bytes with their displacement bytes that decode to the
/// same operand agree on the mode field, the `r/m` field and every
/// displacement byte; in register mode they also agree on the width bit.
pub proof fn lemma_target_injective(b1: u8, w1: bool, d1: Seq<u8>, b2: u8, w2: bool, d2: Seq<u8>)
    requires
        d1.len() == spec_ea_disp_len(b1),
        d2.len() == spec_ea_disp_len(b2),
        b1 >> 6 == 1 ==> d1[0] != 0,
        b1 >> 6 == 2 ==> !(d1[0] == 0 && d1[1] == 0),
        b2 >> 6 == 1 ==> d2[0] != 0,
        b2 >> 6 == 2 ==> !(d2[0] == 0 && d2[1] == 0),
        spec_target(b1, w1, d1) == spec_target(b2, w2, d2),
    ensures
        b1 >> 6 == b2 >> 6,
        b1 & 7 == b2 & 7,
        d1 =~= d2,
        b1 >> 6 == 3 ==> w1 == w2,
{
    crate::lemma_field_bounds(b1);
    crate::lemma_field_bounds(b2);
    if b1 >> 6 == 3 {
        lemma_from_reg_injective(b1 & 7, w1, b2 & 7, w2);
    }
}

/// Law: decode uniqueness for the register/memory either-way form. Two
/// complete encodings of the same instruction family that decode to the
/// same operand pair are byte-for-byte identical, once the two documented
/// alias families are set aside: a written-out zero displacement in mode 01
/// or 10 (which collapses to the displacement-free rendering), and the
/// register-to-register form, which the direction bit lets one write both
/// ways round.
pub proof fn lemma_either_way_unique(e1: Seq<u8>, e2: Seq<u8>, ops: Operands)
    requires
        e1.len() >= 2,
        e2.len() >= 2,
        e1[0] >> 2 == e2[0] >> 2,
        spec_reg_mem_either_way(e1, 1, e1[0]) == Some::<(Operands, nat)>((ops, e1.len() as nat)),
        spec_reg_mem_either_way(e2, 1, e2[0]) == Some::<(Operands, nat)>((ops, e2.len() as nat)),
        e1[0] & 2 == e2[0] & 2 || e1[1] >> 6 != 3 || e2[1] >> 6 != 3,
        e1[1] >> 6 == 1 ==> e1[2] != 0,
        e1[1] >> 6 == 2 ==> !(e1[2] == 0 && e1[3] == 0),
        e2[1] >> 6 == 1 ==> e2[2] != 0,
        e2[1] >> 6 == 2 ==> !(e2[2] == 0 && e2[3] == 0),
    ensures
        e1 =~= e2,
{
    let b1 = e1[0];
    let s1 = e1[1];
    let b2 = e2[0];
    let s2 = e2[1];
    crate::lemma_field_bounds(s1);
    crate::lemma_field_bounds(s2);
    let w1 = b1 & 1 == 1;
    let w2 = b2 & 1 == 1;
    let n1 = spec_ea_disp_len(s1);
    let n2 = spec_ea_disp_len(s2);
    let d1 = e1.subrange(2, 2 + n1 as int);
    let d2 = e2.subrange(2, 2 + n2 as int);
    assert(e1.len() == 2 + n1);
    assert(e2.len() == 2 + n2);
    let t1 = spec_target(s1, w1, d1);
    let t2 = spec_target(s2, w2, d2);
    let r1 = Register::spec_from_reg((s1 >> 3) & 7, w1);
    let r2 = Register::spec_from_reg((s2 >> 3) & 7, w2);

    if (b1 & 2 != 0) == (b2 & 2 != 0) {
        assert(r1 == r2);
        assert(t1 == t2);
        lemma_from_reg_injective((s1 >> 3) & 7, w1, (s2 >> 3) & 7, w2);
        lemma_target_injective(s1, w1, d1, s2, w2, d2);
        assert(b1 & 2 == b2 & 2) by (bit_vector)
            requires
                (b1 & 2 != 0) == (b2 & 2 != 0),
        ;
        assert(b1 & 1 == b2 & 1) by (bit_vector)
            requires
                (b1 & 1 == 1) == (b2 & 1 == 1),
        ;
        assert(b1 == b2) by (bit_vector)
            requires
                b1 >> 2 == b2 >> 2,
                b1 & 2 == b2 & 2,
                b1 & 1 == b2 & 1,
        ;
        assert(s1 == s2) by (bit_vector)
            requires
                s1 >> 6 == s2 >> 6,
                (s1 >> 3) & 7 == (s2 >> 3) & 7,
                s1 & 7 == s2 & 7,
        ;
        assert forall|i: int| 0 <= i < e1.len() implies e1[i] == e2[i] by {
            if i >= 2 {
                assert(e1[i] == d1[i - 2]);
                assert(e2[i] == d2[i - 2]);
            }
        }
    } else {
        // The operand pairs line up crosswise, so each encoding's register
        // operand equals the other's decoded target: both targets are
        // registers, which is the excluded register-to-register alias.
        assert(t1 is Register && t2 is Register);
        assert(s1 >> 6 == 3 && s2 >> 6 == 3);
        assert(false);
    }
}

} // verus!
