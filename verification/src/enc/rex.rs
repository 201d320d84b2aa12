use vstd::prelude::*;
use crate::enc::modrm::rm_pos;
use crate::enc::modrm::spec_reg_opr;
use crate::enc::modrm::spec_rm_opr;
use crate::shr::ast::Instruction;
use crate::shr::ast::Operand;
use crate::shr::size::Size;

verus! {

/// REX.W: the instruction works on 64 bits and does not do so by default.
/// That is the case where an operand is a 64-bit general-purpose register,
/// or 64-bit memory that stands for one, unless the mnemonic defaults to 64
/// bits or destination or source is a segment, control or debug register.
pub open spec fn spec_rex_w(ins: Instruction) -> bool {
    let n = ins.oprs@.len() as int;
    !ins.mnem.spec_defaults_to_64bit() && !ins.spec_uses_sr() && !ins.spec_uses_cr()
        && !ins.spec_uses_dr() && (
    ins.spec_has_gpr_size(Size::Qword, n) || ((!ins.mnem.spec_is_simd() || ins.mnem.spec_wide_mem())
        && ins.spec_has_mem_size(Size::Qword, n)))
}

/// Computes `spec_rex_w`.
pub fn rex_w(ins: &Instruction) -> (r: bool)
    ensures
        r == spec_rex_w(*ins),
{
    !ins.mnem.defaults_to_64bit() && !ins.uses_sr() && !ins.uses_cr() && !ins.uses_dr() && (ins.has_gpr_size(
        Size::Qword,
    ) || ((!ins.mnem.is_simd() || ins.mnem.wide_mem()) && ins.has_mem_size(Size::Qword)))
}

/// REX.R: the register in the `reg` field has a number of eight or more.
pub open spec fn spec_rex_r(ins: Instruction, rev: bool) -> bool {
    match spec_reg_opr(ins, rev) {
        Some(o) => o.spec_is_extended(),
        None => false,
    }
}

/// REX.X: the index register of the memory operand has a number of eight or
/// more.
pub open spec fn spec_rex_x(ins: Instruction, rev: bool) -> bool {
    match spec_rm_opr(ins, rev) {
        Some(o) => match o.spec_mem() {
            Some(m) => m.spec_needs_rex().1,
            None => false,
        },
        None => false,
    }
}

/// REX.B: the register in the `r/m` field, or the base register of the
/// memory operand there, has a number of eight or more.
pub open spec fn spec_rex_b(ins: Instruction, rev: bool) -> bool {
    match spec_rm_opr(ins, rev) {
        Some(o) => match o.spec_mem() {
            Some(m) => m.spec_needs_rex().0,
            None => o.spec_is_extended(),
        },
        None => false,
    }
}

/// Whether an operand is a register that cannot be named without REX.
pub open spec fn opt_needs_rex(o: Option<Operand>) -> bool {
    match o {
        Some(Operand::Reg(r)) => r.spec_needs_rex(),
        _ => false,
    }
}

/// One for `true`, zero for `false`.
pub open spec fn bit(b: bool) -> u8 {
    if b {
        1
    } else {
        0
    }
}

/// The REX byte `0100 WRXB`, where the instruction takes one: where one of
/// the four bits is set, or the destination or source is a register that
/// only REX can name.
pub open spec fn spec_gen_rex(ins: Instruction, rev: bool) -> Option<u8> {
    let w = spec_rex_w(ins);
    let r = spec_rex_r(ins, rev);
    let x = spec_rex_x(ins, rev);
    let b = spec_rex_b(ins, rev);
    if w || r || x || b || opt_needs_rex(ins.spec_dst()) || opt_needs_rex(ins.spec_src()) {
        Some((0x40 + 8 * bit(w) + 4 * bit(r) + 2 * bit(x) + bit(b)) as u8)
    } else {
        None
    }
}

fn needs_rex_opt(o: Option<&Operand>) -> (r: bool)
    ensures
        o is Some ==> r == opt_needs_rex(Some(*o.unwrap())),
        o is None ==> !r,
{
    match o {
        Some(Operand::Reg(r)) => r.needs_rex(),
        _ => false,
    }
}

/// Computes `spec_gen_rex`.
pub fn gen_rex(ins: &Instruction, rev: bool) -> (res: Option<u8>)
    ensures
        res == spec_gen_rex(*ins, rev),
        res is Some ==> 0x40 <= res.unwrap() <= 0x4f,
{
    let p = rm_pos(ins, rev);
    let w = rex_w(ins);
    let r = match ins.opr(1 - p) {
        Some(o) => o.is_extended(),
        None => false,
    };
    let (b, x): (bool, bool) = match ins.opr(p) {
        Some(o) => match o.mem() {
            Some(m) => m.needs_rex(),
            None => (o.is_extended(), false),
        },
        None => (false, false),
    };
    if w || r || x || b || needs_rex_opt(ins.dst()) || needs_rex_opt(ins.src()) {
        let wb: u8 = if w { 1 } else { 0 };
        let rb: u8 = if r { 1 } else { 0 };
        let xb: u8 = if x { 1 } else { 0 };
        let bb: u8 = if b { 1 } else { 0 };
        Some(0x40 + 8 * wb + 4 * rb + 2 * xb + bb)
    } else {
        None
    }
}

} // verus!
