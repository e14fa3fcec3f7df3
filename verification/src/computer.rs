use vstd::prelude::*;

use vstd::pervasive::unreached;

use crate::bytestream::ByteStream;
use crate::instruction::{spec_parse_inst, Inst, Mnemonic, Operand};
use crate::register::{RegType, Register};
use crate::text::{dec_u64, hex_field_u64, hex_u64, spec_dec, spec_hex, spec_hex_field};
use crate::EmuError;

verus! {

/// The three status flags the execution engine models, recomputed after
/// every arithmetic instruction.
#[derive(Clone, Copy, PartialEq, Eq, Structural, Debug)]
pub struct Flags {
    pub sign: bool,
    pub parity: bool,
    pub zero: bool,
}

impl Flags {
    pub open spec fn spec_empty() -> Flags {
        Flags { sign: false, parity: false, zero: false }
    }

    pub fn empty() -> (r: Flags)
        ensures
            r == Flags::spec_empty(),
    {
        Flags { sign: false, parity: false, zero: false }
    }

    pub open spec fn spec_is_empty(self) -> bool {
        !self.sign && !self.parity && !self.zero
    }

    pub fn is_empty(&self) -> (r: bool)
        ensures
            r == self.spec_is_empty(),
    {
        !self.sign && !self.parity && !self.zero
    }

    /// The rendered flag letters, in the fixed order S, P, Z, with unset
    /// flags omitted.
    pub open spec fn spec_text(self) -> Seq<char> {
        (if self.sign {
            "S"@
        } else {
            Seq::<char>::empty()
        }) + (if self.parity {
            "P"@
        } else {
            Seq::<char>::empty()
        }) + (if self.zero {
            "Z"@
        } else {
            Seq::<char>::empty()
        })
    }

    pub fn render(&self) -> (s: String)
        ensures
            s@ == self.spec_text(),
    {
        let mut s = String::new();
        if self.sign {
            s.append("S");
        }
        if self.parity {
            s.append("P");
        }
        if self.zero {
            s.append("Z");
        }
        s
    }
}

/// Count of set bits in the binary expansion of `n`.
pub open spec fn spec_popcount(n: nat) -> nat
    decreases n,
{
    if n == 0 {
        0
    } else {
        n % 2 + spec_popcount(n / 2)
    }
}

proof fn lemma_popcount_le(n: nat)
    ensures
        spec_popcount(n) <= n,
    decreases n,
{
    if n > 0 {
        lemma_popcount_le(n / 2);
    }
}

proof fn lemma_popcount_pos(n: nat)
    requires
        n > 0,
    ensures
        spec_popcount(n) >= 1,
    decreases n,
{
    if n % 2 == 0 {
        lemma_popcount_pos(n / 2);
    }
}

/// The flags an arithmetic result sets: Sign is bit 15 of the result, Zero
/// is a zero result, Parity is an even number of set bits in the low byte.
pub open spec fn spec_flags_of(result: u16) -> Flags {
    Flags {
        sign: result >= 0x8000,
        parity: spec_popcount((result % 256) as nat) % 2 == 0,
        zero: result == 0,
    }
}

/// Whether the low byte of `b` has an even number of set bits.
fn parity_even(b: u8) -> (r: bool)
    ensures
        r == (spec_popcount(b as nat) % 2 == 0),
{
    let mut x = b;
    let mut ones: u8 = 0;
    proof {
        lemma_popcount_le(b as nat);
    }
    while x > 0
        invariant
            ones + spec_popcount(x as nat) == spec_popcount(b as nat),
            spec_popcount(b as nat) <= 255,
        decreases x,
    {
        proof {
            lemma_popcount_pos(x as nat);
        }
        ones = ones + x % 2;
        x = x / 2;
    }
    ones % 2 == 0
}

/// The visible value of a register given its slot's 16-bit word: the low
/// byte, the high byte, or the whole word, by storage class.
pub open spec fn spec_read_slot(v: u16, class: RegType) -> u16 {
    match class {
        RegType::Low => v & 0xFF,
        RegType::High => v >> 8,
        RegType::Wide => v,
    }
}

/// A slot's word after writing `x` to a register of the given class: a
/// low-byte write preserves the high byte, a high-byte write preserves the
/// low byte, a wide write replaces the whole word. A value wider than the
/// register is truncated to it.
pub open spec fn spec_write_slot(v: u16, class: RegType, x: u16) -> u16 {
    match class {
        RegType::Low => ((v & 0xFF00) + (x & 0xFF)) as u16,
        RegType::High => (((x & 0xFF) << 8) + (v & 0xFF)) as u16,
        RegType::Wide => x,
    }
}

proof fn lemma_mask_bounds(v: u16, x: u16)
    ensures
        v & 0xFF00 <= 0xFF00,
        v & 0xFF <= 0xFF,
        x & 0xFF <= 0xFF,
        (x & 0xFF) << 8 <= 0xFF00,
{
    assert(v & 0xFF00 <= 0xFF00 && v & 0xFF <= 0xFF && x & 0xFF <= 0xFF && (x & 0xFF) << 8
        <= 0xFF00) by (bit_vector);
}

/// The 16-bit result of one arithmetic mnemonic: wrapping addition for
/// `Add`, wrapping subtraction for `Sub` and `Cmp`.
pub open spec fn spec_arith(m: Mnemonic, a: u16, b: u16) -> u16
    recommends
        m == Mnemonic::Add || m == Mnemonic::Sub || m == Mnemonic::Cmp,
{
    match m {
        Mnemonic::Add => vstd::wrapping::u16_specs::wrapping_add(a, b),
        Mnemonic::Sub | Mnemonic::Cmp => vstd::wrapping::u16_specs::wrapping_sub(a, b),
        _ => 0,
    }
}

/// A register delta: which register an instruction wrote, and the backing
/// slot's full 16-bit word before and after.
#[derive(Clone, Copy, PartialEq, Eq, Structural, Debug)]
pub struct RegUpdate {
    pub reg: Register,
    pub from_val: u16,
    pub to_val: u16,
}

impl RegUpdate {
    /// The rendered delta: the wide name of the touched slot and its word
    /// before and after, in hexadecimal.
    pub open spec fn spec_text(self) -> Seq<char> {
        self.reg.spec_wide_name() + ":0x"@ + spec_hex(self.from_val as nat) + "->0x"@ + spec_hex(
            self.to_val as nat,
        )
    }

    pub fn render(&self) -> (s: String)
        ensures
            s@ == self.spec_text(),
    {
        let mut s = String::from_str(self.reg.as_wide_str());
        s.append(":0x");
        let f = hex_u64(self.from_val as u64);
        s.append(f.as_str());
        s.append("->0x");
        let t = hex_u64(self.to_val as u64);
        s.append(t.as_str());
        s
    }
}

/// The delta record one executed instruction produces: an optional register
/// change, an optional flag change, and the instruction-pointer move.
#[derive(Clone, Copy, PartialEq, Eq, Debug)]
pub struct Update {
    pub reg_update: Option<RegUpdate>,
    pub flag_update: Option<(Flags, Flags)>,
    pub ip_update: Option<(u64, u64)>,
}

/// One joined part of a delta line: a space separates it from what came
/// before, unless nothing came before.
pub open spec fn spec_join_part(acc: Seq<char>, part: Option<Seq<char>>) -> Seq<char> {
    match part {
        Some(t) => if acc.len() == 0 {
            t
        } else {
            acc + " "@ + t
        },
        None => acc,
    }
}

/// The rendered instruction-pointer move.
pub open spec fn spec_ip_text(from: u64, to: u64) -> Seq<char> {
    "ip:0x"@ + spec_hex(from as nat) + "->0x"@ + spec_hex(to as nat)
}

/// The rendered flag change.
pub open spec fn spec_flag_change_text(from: Flags, to: Flags) -> Seq<char> {
    "flags:"@ + from.spec_text() + "->"@ + to.spec_text()
}

impl Update {
    pub open spec fn spec_empty() -> Update {
        Update { reg_update: None, flag_update: None, ip_update: None }
    }

    pub fn empty() -> (r: Update)
        ensures
            r == Update::spec_empty(),
    {
        Update { reg_update: None, flag_update: None, ip_update: None }
    }

    /// The whole delta line: the register change, then (when asked for) the
    /// instruction-pointer move, then the flag change, space-separated with
    /// absent parts left out.
    pub open spec fn spec_print(self, print_ip: bool) -> Seq<char> {
        let p1 = spec_join_part(
            Seq::<char>::empty(),
            match self.reg_update {
                Some(ru) => Some(ru.spec_text()),
                None => None,
            },
        );
        let p2 = spec_join_part(
            p1,
            if print_ip {
                match self.ip_update {
                    Some((from, to)) => Some(spec_ip_text(from, to)),
                    None => None,
                }
            } else {
                None
            },
        );
        spec_join_part(
            p2,
            match self.flag_update {
                Some((from, to)) => Some(spec_flag_change_text(from, to)),
                None => None,
            },
        )
    }

    pub fn print(&self, print_ip: bool) -> (s: String)
        ensures
            s@ == self.spec_print(print_ip),
    {
        let mut s = String::new();
        if let Some(ru) = &self.reg_update {
            let t = ru.render();
            append_part(&mut s, t.as_str());
        }
        if print_ip {
            if let Some((from, to)) = &self.ip_update {
                let mut t = String::from_str("ip:0x");
                let f = hex_u64(*from);
                t.append(f.as_str());
                t.append("->0x");
                let v = hex_u64(*to);
                t.append(v.as_str());
                append_part(&mut s, t.as_str());
            }
        }
        if let Some((from, to)) = &self.flag_update {
            let mut t = String::from_str("flags:");
            let f = from.render();
            t.append(f.as_str());
            t.append("->");
            let v = to.render();
            t.append(v.as_str());
            append_part(&mut s, t.as_str());
        }
        s
    }
}

/// Appends one delta part, separating it with a space from anything already
/// present.
fn append_part(s: &mut String, part: &str)
    ensures
        final(s)@ == spec_join_part(old(s)@, Some(part@)),
{
    if s.as_str().is_empty() {
        s.append(part);
    } else {
        s.append(" ");
        s.append(part);
    }
}

/// One line of the final register dump; a slot holding zero is left out.
pub open spec fn spec_reg_dump_line(r: Register, val: u16) -> Seq<char> {
    if val > 0 {
        "      "@ + r.spec_name() + ": 0x"@ + spec_hex_field(val as nat) + " ("@ + spec_dec(
            val as nat,
        ) + ")\n"@
    } else {
        Seq::<char>::empty()
    }
}

/// The whole final dump: every nonzero wide-class register in declaration
/// order, then the instruction pointer when asked for, then the flags when
/// any is set.
pub open spec fn spec_register_dump(regs: Seq<u16>, flags: Flags, show_ip: bool, ip: u64) -> Seq<
    char,
> {
    "\nFinal registers:\n"@ + spec_reg_dump_line(Register::AX, regs[0]) + spec_reg_dump_line(
        Register::BX,
        regs[1],
    ) + spec_reg_dump_line(Register::CX, regs[2]) + spec_reg_dump_line(Register::DX, regs[3])
        + spec_reg_dump_line(Register::SP, regs[4]) + spec_reg_dump_line(Register::BP, regs[5])
        + spec_reg_dump_line(Register::SI, regs[6]) + spec_reg_dump_line(Register::DI, regs[7])
        + spec_reg_dump_line(Register::ES, regs[8]) + spec_reg_dump_line(Register::CS, regs[9])
        + spec_reg_dump_line(Register::SS, regs[10]) + spec_reg_dump_line(Register::DS, regs[11])
        + (if show_ip {
        "      ip: 0x"@ + spec_hex_field(ip as nat) + " ("@ + spec_dec(ip as nat) + ")\n"@
    } else {
        Seq::<char>::empty()
    }) + (if !flags.spec_is_empty() {
        "   flags: "@ + flags.spec_text() + "\n"@
    } else {
        Seq::<char>::empty()
    }) + "\n"@
}

/// Appends one register dump line for a nonzero slot value.
fn append_reg_line(s: &mut String, r: Register, val: u16)
    ensures
        final(s)@ == old(s)@ + spec_reg_dump_line(r, val),
{
    if val > 0 {
        s.append("      ");
        s.append(r.as_str());
        s.append(": 0x");
        let h = hex_field_u64(val as u64);
        s.append(h.as_str());
        s.append(" (");
        let d = dec_u64(val as u64);
        s.append(d.as_str());
        s.append(")\n");
    }
}

/// What one step of the simulation produced: a decoded instruction and its
/// delta record, or a halt on clean end of the program.
#[derive(Clone, Copy, PartialEq, Debug)]
pub enum ExeResult {
    Halt,
    Success(Inst, Update),
}

/// The value an operand contributes as an arithmetic or move source, when
/// the engine models it: a literal immediate, or a register read.
pub open spec fn spec_src_value(regs: Seq<u16>, source: Operand) -> Option<u16> {
    match source {
        Operand::Register(r) => Some(spec_read_slot(regs[r.slot()], r.class())),
        Operand::DataArg(d) => Some(d.data.spec_value()),
        Operand::Data(d) => Some(d.spec_value()),
        _ => None,
    }
}

/// The effect of writing `v` to register `r`: the new register file and the
/// recorded register delta.
pub open spec fn spec_apply_write(regs: Seq<u16>, r: Register, v: u16) -> (Seq<u16>, RegUpdate) {
    let slot_old = regs[r.slot()];
    let slot_new = spec_write_slot(slot_old, r.class(), v);
    (regs.update(r.slot(), slot_new), RegUpdate { reg: r, from_val: slot_old, to_val: slot_new })
}

/// What executing one decoded instruction does to the machine: the new
/// register file, the new flags, the register delta and the flag delta.
/// `None` when the engine does not model the instruction/operand shape:
/// only register-destination `Mov`/`Add`/`Sub`/`Cmp` with a register or
/// immediate source are modeled.
pub open spec fn spec_step(regs: Seq<u16>, flags: Flags, i: Inst) -> Option<
    (Seq<u16>, Flags, Option<RegUpdate>, Option<(Flags, Flags)>),
> {
    match i.operands {
        (Some(dest), Some(source)) => match i.mnemonic {
            Mnemonic::Mov => match (dest, source) {
                (Operand::Register(r), Operand::Data(d)) => {
                    let (regs2, ru) = spec_apply_write(regs, r, d.spec_value());
                    Some((regs2, flags, Some(ru), None))
                },
                (Operand::Register(r1), Operand::Register(r2)) => {
                    let (regs2, ru) = spec_apply_write(
                        regs,
                        r1,
                        spec_read_slot(regs[r2.slot()], r2.class()),
                    );
                    Some((regs2, flags, Some(ru), None))
                },
                _ => None,
            },
            Mnemonic::Add | Mnemonic::Sub | Mnemonic::Cmp => match dest {
                Operand::Register(r) => match spec_src_value(regs, source) {
                    Some(b) => {
                        let a = spec_read_slot(regs[r.slot()], r.class());
                        let res = spec_arith(i.mnemonic, a, b);
                        let flags2 = spec_flags_of(res);
                        let fd = if flags2 != flags {
                            Some((flags, flags2))
                        } else {
                            None
                        };
                        if i.mnemonic == Mnemonic::Cmp {
                            Some((regs, flags2, None, fd))
                        } else {
                            let (regs2, ru) = spec_apply_write(regs, r, res);
                            Some((regs2, flags2, Some(ru), fd))
                        }
                    },
                    None => None,
                },
                _ => None,
            },
            _ => None,
        },
        _ => None,
    }
}

/// The execution engine: a 12-slot register file, the flag set, the program
/// it reads instructions from, and the delta record of the step in progress.
pub struct Computer {
    program: ByteStream,
    registers: Vec<u16>,
    flags: Flags,
    last_update: Update,
    print_ip: bool,
}

impl Computer {
    pub closed spec fn regs(self) -> Seq<u16> {
        self.registers@
    }

    pub closed spec fn flag_state(self) -> Flags {
        self.flags
    }

    pub closed spec fn prog_data(self) -> Seq<u8> {
        self.program.data()
    }

    pub closed spec fn prog_pos(self) -> nat {
        self.program.pos()
    }

    pub closed spec fn pending(self) -> Update {
        self.last_update
    }

    pub closed spec fn show_ip(self) -> bool {
        self.print_ip
    }

    pub closed spec fn wf(self) -> bool {
        self.regs().len() == 12 && self.program.wf()
    }

    /// A fresh machine: all registers zero, no flags set, the program not
    /// yet started.
    pub fn new(program: ByteStream, print_ip: bool) -> (r: Self)
        requires
            program.wf(),
        ensures
            r.wf(),
            r.regs() =~= Seq::new(12, |i: int| 0u16),
            r.flag_state() == Flags::spec_empty(),
            r.prog_data() == program.data(),
            r.prog_pos() == program.pos(),
            r.pending() == Update::spec_empty(),
            r.show_ip() == print_ip,
    {
        let registers: Vec<u16> = vec![0, 0, 0, 0, 0, 0, 0, 0, 0, 0, 0, 0];
        proof {
            assert(registers@ =~= Seq::new(12, |i: int| 0u16));
        }
        Self { program, registers, flags: Flags::empty(), last_update: Update::empty(), print_ip }
    }

    /// The register's visible value: its slot word masked by storage class.
    pub fn get_register(&self, reg: Register) -> (v: u16)
        requires
            self.wf(),
        ensures
            v == spec_read_slot(self.regs()[reg.slot()], reg.class()),
    {
        let val = self.registers[reg.get_reg_ix()];
        match reg.get_type() {
            RegType::Low => val & 0xFF,
            RegType::High => val >> 8,
            RegType::Wide => val,
        }
    }

    /// The final register dump as text: every nonzero wide-class register,
    /// the instruction pointer when this machine was asked to show it, and
    /// the flags when any is set.
    #[verifier::rlimit(100)]
    pub fn render_registers(&self, ip: u64) -> (s: String)
        requires
            self.wf(),
        ensures
            s@ == spec_register_dump(self.regs(), self.flag_state(), self.show_ip(), ip),
    {
        let mut s = String::from_str("\nFinal registers:\n");
        append_reg_line(&mut s, Register::AX, self.get_register(Register::AX));
        append_reg_line(&mut s, Register::BX, self.get_register(Register::BX));
        append_reg_line(&mut s, Register::CX, self.get_register(Register::CX));
        append_reg_line(&mut s, Register::DX, self.get_register(Register::DX));
        append_reg_line(&mut s, Register::SP, self.get_register(Register::SP));
        append_reg_line(&mut s, Register::BP, self.get_register(Register::BP));
        append_reg_line(&mut s, Register::SI, self.get_register(Register::SI));
        append_reg_line(&mut s, Register::DI, self.get_register(Register::DI));
        append_reg_line(&mut s, Register::ES, self.get_register(Register::ES));
        append_reg_line(&mut s, Register::CS, self.get_register(Register::CS));
        append_reg_line(&mut s, Register::SS, self.get_register(Register::SS));
        append_reg_line(&mut s, Register::DS, self.get_register(Register::DS));
        if self.print_ip {
            s.append("      ip: 0x");
            let h = hex_field_u64(ip);
            s.append(h.as_str());
            s.append(" (");
            let d = dec_u64(ip);
            s.append(d.as_str());
            s.append(")\n");
        }
        if !self.flags.is_empty() {
            s.append("   flags: ");
            let f = self.flags.render();
            s.append(f.as_str());
            s.append("\n");
        }
        s.append("\n");
        proof {
            assert(s@ =~= spec_register_dump(self.regs(), self.flag_state(), self.show_ip(), ip));
        }
        s
    }

    /// The instruction pointer: how far into the program the machine has
    /// read.
    pub fn get_iptr(&self) -> (r: u64)
        ensures
            r as nat == self.prog_pos(),
    {
        self.program.get_iptr()
    }

    /// The current flag set.
    pub fn get_flags(&self) -> (f: Flags)
        ensures
            f == self.flag_state(),
    {
        self.flags
    }

    /// Writes a register, preserving the other half of its slot per the
    /// storage-class masking rule, and records the register delta.
    pub fn update_register(&mut self, reg: Register, to_val: u16)
        requires
            old(self).wf(),
        ensures
            final(self).wf(),
            final(self).regs() == old(self).regs().update(
                reg.slot(),
                spec_write_slot(old(self).regs()[reg.slot()], reg.class(), to_val),
            ),
            final(self).flag_state() == old(self).flag_state(),
            final(self).prog_data() == old(self).prog_data(),
            final(self).prog_pos() == old(self).prog_pos(),
            final(self).show_ip() == old(self).show_ip(),
            final(self).pending() == (Update {
                reg_update: Some(
                    RegUpdate {
                        reg,
                        from_val: old(self).regs()[reg.slot()],
                        to_val: spec_write_slot(old(self).regs()[reg.slot()], reg.class(), to_val),
                    },
                ),
                ..old(self).pending()
            }),
    {
        let ix = reg.get_reg_ix();
        let from_val = self.registers[ix];
        proof {
            lemma_mask_bounds(from_val, to_val);
        }
        let new_val = match reg.get_type() {
            RegType::Low => (from_val & 0xFF00) + (to_val & 0xFF),
            RegType::High => ((to_val & 0xFF) << 8) + (from_val & 0xFF),
            RegType::Wide => to_val,
        };
        self.registers.set(ix, new_val);
        self.last_update.reg_update = Some(RegUpdate { reg, from_val, to_val: new_val });
    }

    /// Recomputes the flags from an arithmetic result and records the flag
    /// delta if they changed.
    pub fn update_flags(&mut self, result: u16)
        requires
            old(self).wf(),
        ensures
            final(self).wf(),
            final(self).flag_state() == spec_flags_of(result),
            final(self).regs() == old(self).regs(),
            final(self).prog_data() == old(self).prog_data(),
            final(self).prog_pos() == old(self).prog_pos(),
            final(self).show_ip() == old(self).show_ip(),
            final(self).pending() == (Update {
                flag_update: if old(self).flag_state() != spec_flags_of(result) {
                    Some((old(self).flag_state(), spec_flags_of(result)))
                } else {
                    old(self).pending().flag_update
                },
                ..old(self).pending()
            }),
    {
        let flags_before = self.flags;
        let low = (result % 256) as u8;
        self.flags = Flags { sign: result >= 0x8000, parity: parity_even(low), zero: result == 0 };
        if !(flags_before == self.flags) {
            self.last_update.flag_update = Some((flags_before, self.flags));
        }
    }

    /// Reads the first operand register, applies the arithmetic mnemonic to
    /// it and the resolved source value, and recomputes the flags from the
    /// result. Does not write any register.
    pub fn do_op(&mut self, a: &Register, b: u16, m: Mnemonic) -> (res: u16)
        requires
            old(self).wf(),
            m == Mnemonic::Add || m == Mnemonic::Sub || m == Mnemonic::Cmp,
        ensures
            final(self).wf(),
            res == spec_arith(m, spec_read_slot(old(self).regs()[a.slot()], a.class()), b),
            final(self).flag_state() == spec_flags_of(res),
            final(self).regs() == old(self).regs(),
            final(self).prog_data() == old(self).prog_data(),
            final(self).prog_pos() == old(self).prog_pos(),
            final(self).show_ip() == old(self).show_ip(),
            final(self).pending() == (Update {
                flag_update: if old(self).flag_state() != spec_flags_of(res) {
                    Some((old(self).flag_state(), spec_flags_of(res)))
                } else {
                    old(self).pending().flag_update
                },
                ..old(self).pending()
            }),
    {
        let a_val = self.get_register(*a);
        let res = match m {
            Mnemonic::Add => a_val.wrapping_add(b),
            Mnemonic::Sub | Mnemonic::Cmp => a_val.wrapping_sub(b),
            _ => unreached(),
        };
        self.update_flags(res);
        res
    }

    /// Records the instruction-pointer move of the step in progress.
    pub fn update_ip(&mut self, ip_before: u64, ip_after: u64)
        requires
            old(self).wf(),
        ensures
            final(self).wf(),
            final(self).regs() == old(self).regs(),
            final(self).flag_state() == old(self).flag_state(),
            final(self).prog_data() == old(self).prog_data(),
            final(self).prog_pos() == old(self).prog_pos(),
            final(self).show_ip() == old(self).show_ip(),
            final(self).pending() == (Update {
                ip_update: Some((ip_before, ip_after)),
                ..old(self).pending()
            }),
    {
        self.last_update.ip_update = Some((ip_before, ip_after));
    }

    /// Decodes one instruction from the program and applies it: `Halt` on
    /// clean end of stream, otherwise the instruction together with its
    /// delta record. A decode error, or an instruction/operand shape the
    /// engine does not model, aborts the step with the registers and flags
    /// untouched.
    pub fn execute_instruction(&mut self) -> (r: Result<ExeResult, EmuError>)
        requires
            old(self).wf(),
        ensures
            final(self).wf(),
            final(self).prog_data() == old(self).prog_data(),
            final(self).show_ip() == old(self).show_ip(),
            match spec_parse_inst(old(self).prog_data(), old(self).prog_pos()) {
                Ok(decoded) => match decoded {
                    None => r == Ok::<ExeResult, EmuError>(ExeResult::Halt) && final(self).regs()
                        == old(self).regs() && final(self).flag_state() == old(self).flag_state()
                        && final(self).prog_pos() == old(self).prog_pos(),
                    Some((i, n)) => final(self).prog_pos() == n && match spec_step(
                        old(self).regs(),
                        old(self).flag_state(),
                        i,
                    ) {
                        Some((regs2, flags2, ru, fu)) => final(self).regs() == regs2 && final(self).flag_state() == flags2 && r == Ok::<ExeResult, EmuError>(
                            ExeResult::Success(
                                i,
                                Update {
                                    reg_update: ru,
                                    flag_update: fu,
                                    ip_update: Some(
                                        (old(self).prog_pos() as u64, n as u64),
                                    ),
                                },
                            ),
                        ),
                        None => r == Err::<ExeResult, EmuError>(EmuError::InvalidOperandCombination)
                            && final(self).regs() == old(self).regs() && final(self).flag_state()
                            == old(self).flag_state(),
                    },
                },
                Err(e) => r == Err::<ExeResult, EmuError>(e) && final(self).regs() == old(self).regs() && final(self).flag_state() == old(self).flag_state(),
            },
    {
        self.last_update = Update::empty();
        let ip_before = self.program.get_iptr();
        let i = match Inst::parse(&mut self.program) {
            Ok(Some(i)) => i,
            Ok(None) => {
                return Ok(ExeResult::Halt);
            },
            Err(e) => {
                return Err(e);
            },
        };
        let ip_after = self.program.get_iptr();
        self.update_ip(ip_before, ip_after);

        let (dest, source) = match i.operands {
            (Some(dest), Some(source)) => (dest, source),
            _ => {
                return Err(EmuError::InvalidOperandCombination);
            },
        };

        match i.mnemonic {
            Mnemonic::Mov => match (dest, source) {
                (Operand::Register(r), Operand::Data(d)) => {
                    let v = d.value();
                    self.update_register(r, v);
                },
                (Operand::Register(r1), Operand::Register(r2)) => {
                    let v = self.get_register(r2);
                    self.update_register(r1, v);
                },
                _ => {
                    return Err(EmuError::InvalidOperandCombination);
                },
            },
            Mnemonic::Sub | Mnemonic::Cmp | Mnemonic::Add => {
                let r = match dest {
                    Operand::Register(r) => r,
                    _ => {
                        return Err(EmuError::InvalidOperandCombination);
                    },
                };
                let b = match source {
                    Operand::Register(r2) => self.get_register(r2),
                    Operand::DataArg(d) => d.data.value(),
                    Operand::Data(d) => d.value(),
                    _ => {
                        return Err(EmuError::InvalidOperandCombination);
                    },
                };
                let res = self.do_op(&r, b, i.mnemonic);
                if !matches!(i.mnemonic, Mnemonic::Cmp) {
                    self.update_register(r, res);
                }
            },
            _ => {
                return Err(EmuError::InvalidOperandCombination);
            },
        }

        Ok(ExeResult::Success(i, self.last_update))
    }
}

} // verus!
