use vstd::prelude::*;
use crate::shr::ast::Instruction;
use crate::shr::ast::Operand;

verus! {

/// Whether an optional operand is memory.
pub open spec fn opt_is_mem(o: Option<Operand>) -> bool {
    match o {
        Some(o) => o.spec_is_mem(),
        None => false,
    }
}

/// The position, 0 or 1, of the operand that the `r/m` field of ModR/M
/// names. It is the destination, or with `rev` the source; but where the
/// other of the two is memory and this one is not, it is the other.
pub open spec fn spec_rm_pos(ins: Instruction, rev: bool) -> int {
    let a: int = if rev {
        1
    } else {
        0
    };
    if opt_is_mem(ins.spec_opr(1 - a)) && !opt_is_mem(ins.spec_opr(a)) {
        1 - a
    } else {
        a
    }
}

/// The operand that the `r/m` field names.
pub open spec fn spec_rm_opr(ins: Instruction, rev: bool) -> Option<Operand> {
    ins.spec_opr(spec_rm_pos(ins, rev))
}

/// The operand that the `reg` field names.
pub open spec fn spec_reg_opr(ins: Instruction, rev: bool) -> Option<Operand> {
    ins.spec_opr(1 - spec_rm_pos(ins, rev))
}

/// Computes `spec_rm_pos`.
pub fn rm_pos(ins: &Instruction, rev: bool) -> (r: usize)
    ensures
        r == spec_rm_pos(*ins, rev),
        r <= 1,
{
    let a: usize = if rev {
        1
    } else {
        0
    };
    let other_mem = match ins.opr(1 - a) {
        Some(o) => o.is_mem(),
        None => false,
    };
    let this_mem = match ins.opr(a) {
        Some(o) => o.is_mem(),
        None => false,
    };
    if other_mem && !this_mem {
        1 - a
    } else {
        a
    }
}

/// The three bits by which a ModR/M field names an operand: the low bits of
/// a register's number, the `r/m` bits of a memory expression, 0 for
/// anything else.
pub open spec fn spec_gen_rmreg(op: Option<Operand>) -> u8 {
    match op {
        Some(o) => match o.spec_reg() {
            Some(r) => r.spec_to_byte(),
            None => match o.spec_mem() {
                Some(m) => m.spec_rm_bits(),
                None => 0,
            },
        },
        None => 0,
    }
}

/// The three bits by which a ModR/M field names an operand.
pub fn gen_rmreg(op: Option<&Operand>) -> (r: u8)
    ensures
        op is Some ==> r == spec_gen_rmreg(Some(*op.unwrap())),
        op is None ==> r == 0,
        r < 8,
{
    match op {
        Some(o) => match o.reg() {
            Some(r) => r.to_byte(),
            None => match o.mem() {
                Some(m) => m.rm_bits(),
                None => 0,
            },
        },
        None => 0,
    }
}

/// The `mod` field: that of the memory expression where `r/m` names memory,
/// else 11.
pub open spec fn spec_mod_bits(ins: Instruction, rev: bool) -> u8 {
    match spec_rm_opr(ins, rev) {
        Some(o) => match o.spec_mem() {
            Some(m) => m.spec_mod_bits(),
            None => 3,
        },
        None => 3,
    }
}

/// The ModR/M byte of an instruction. `reg` overrides the `reg` field, as an
/// opcode extension does; `rm` overrides the `r/m` field where that names no
/// memory.
pub open spec fn spec_gen_modrm(ins: Instruction, reg: Option<u8>, rm: Option<u8>, rev: bool) -> u8 {
    let reg_bits: u8 = match reg {
        Some(v) => v,
        None => spec_gen_rmreg(spec_reg_opr(ins, rev)),
    };
    let rm_bits: u8 = if opt_is_mem(spec_rm_opr(ins, rev)) {
        spec_gen_rmreg(spec_rm_opr(ins, rev))
    } else {
        match rm {
            Some(v) => v,
            None => spec_gen_rmreg(spec_rm_opr(ins, rev)),
        }
    };
    (spec_mod_bits(ins, rev) * 64 + reg_bits * 8 + rm_bits) as u8
}

/// Computes `spec_gen_modrm`.
pub fn gen_modrm(ins: &Instruction, reg: Option<u8>, rm: Option<u8>, rev: bool) -> (r: u8)
    requires
        reg is Some ==> reg.unwrap() < 8,
        rm is Some ==> rm.unwrap() < 8,
    ensures
        r == spec_gen_modrm(*ins, reg, rm, rev),
{
    let p = rm_pos(ins, rev);
    let rm_o = ins.opr(p);
    let reg_o = ins.opr(1 - p);
    let (md, rm_mem): (u8, bool) = match rm_o {
        Some(o) => match o.mem() {
            Some(m) => (m.mod_bits(), true),
            None => (3, false),
        },
        None => (3, false),
    };
    let reg_bits: u8 = match reg {
        Some(v) => v,
        None => gen_rmreg(reg_o),
    };
    let rm_bits: u8 = if rm_mem {
        gen_rmreg(rm_o)
    } else {
        match rm {
            Some(v) => v,
            None => gen_rmreg(rm_o),
        }
    };
    md * 64 + reg_bits * 8 + rm_bits
}

} // verus!
