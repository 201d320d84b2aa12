use vstd::prelude::*;
use crate::enc::api::GenAPI;
use crate::enc::api::OpOrd;
use crate::enc::modrm::gen_rmreg;
use crate::enc::modrm::opt_is_mem;
use crate::enc::modrm::spec_gen_rmreg;
use crate::enc::rex::bit;
use crate::shr::ast::IVariant;
use crate::shr::ast::Instruction;
use crate::shr::ast::Operand;
use crate::shr::ins::Mnemonic;

verus! {

pub const TWO_BYTE_PFX: u8 = 0xC5;

pub const THREE_BYTE_PFX: u8 = 0xC4;

/// The extension bits that an operand asks of a VEX prefix: the first for
/// the register itself or the base of a memory expression, the second for
/// the index of a memory expression.
pub open spec fn spec_needs_vex3(op: Option<Operand>) -> (bool, bool) {
    match op {
        Some(Operand::Reg(r)) => (r.spec_needs_rex(), false),
        Some(Operand::Mem(m)) => m.spec_needs_rex(),
        _ => (false, false),
    }
}

/// The extension bits that an operand asks of a VEX prefix.
pub fn needs_vex3(op: Option<&Operand>) -> (r: (bool, bool))
    ensures
        op is Some ==> r == spec_needs_vex3(Some(*op.unwrap())),
        op is None ==> r == (false, false),
{
    match op {
        Some(Operand::Reg(r)) => (r.needs_rex(), false),
        Some(Operand::Mem(m)) => m.needs_rex(),
        _ => (false, false),
    }
}

/// The bits of `bits` that are not set in `num`.
pub fn andn(num: u8, bits: u8) -> (r: u8)
    ensures
        r == !num & bits,
{
    !num & bits
}

/// The field VEX.vvvv for an operand: the four-bit number of a register,
/// inverted; 1111 for anything else.
pub open spec fn spec_gen_vex4v(op: Option<Operand>) -> u8 {
    match op {
        Some(Operand::Reg(r)) => (15 - (8 * bit(r.spec_needs_rex()) + r.spec_to_byte())) as u8,
        _ => 0b1111,
    }
}

/// The field VEX.vvvv for an operand.
pub fn gen_vex4v(op: Option<&Operand>) -> (r: u8)
    ensures
        op is Some ==> r == spec_gen_vex4v(Some(*op.unwrap())),
        op is None ==> r == 0b1111,
        r < 16,
{
    match op {
        Some(Operand::Reg(r)) => {
            let hi: u8 = if r.needs_rex() {
                8
            } else {
                0
            };
            let n: u8 = hi + r.to_byte();
            assert(!n & 0b0000_1111 == 15 - n) by (bit_vector)
                requires
                    n < 16,
            ;
            andn(n, 0b0000_1111)
        },
        _ => 0b1111,
    }
}

/// A two-byte VEX prefix: C5h, then the bits R, vvvv, L and pp.
pub open spec fn spec_vex2(vexr: bool, ssrc: u8, vlength: bool, pp: u8) -> Seq<u8> {
    seq![TWO_BYTE_PFX, (128 * bit(vexr) + 8 * ssrc + 4 * bit(vlength) + pp) as u8]
}

/// A three-byte VEX prefix: C4h, then the bits R, X, B and the map, then
/// the bits W, vvvv, L and pp.
pub open spec fn spec_vex3(vexr: bool, vexx: bool, vexb: bool, map: u8, we: bool, ssrc: u8, vlength: bool, pp: u8) -> Seq<u8> {
    seq![
        THREE_BYTE_PFX,
        (128 * bit(vexr) + 64 * bit(vexx) + 32 * bit(vexb) + map) as u8,
        (128 * bit(we) + 8 * ssrc + 4 * bit(vlength) + pp) as u8,
    ]
}

/// A two-byte VEX prefix.
pub fn vex2(vexr: bool, ssrc: u8, vlength: bool, pp: u8) -> (r: [u8; 2])
    requires
        ssrc < 16,
        pp < 4,
    ensures
        r@ == spec_vex2(vexr, ssrc, vlength, pp),
{
    let rb: u8 = if vexr { 128 } else { 0 };
    let lb: u8 = if vlength { 4 } else { 0 };
    let r = [TWO_BYTE_PFX, rb + 8 * ssrc + lb + pp];
    assert(r@ =~= spec_vex2(vexr, ssrc, vlength, pp));
    r
}

fn vex3(vexr: bool, vexx: bool, vexb: bool, map: u8, we: bool, ssrc: u8, vlength: bool, pp: u8) -> (r: Vec<u8>)
    requires
        ssrc < 16,
        pp < 4,
        map < 32,
    ensures
        r@ == spec_vex3(vexr, vexx, vexb, map, we, ssrc, vlength, pp),
{
    let rb: u8 = if vexr { 128 } else { 0 };
    let xb: u8 = if vexx { 64 } else { 0 };
    let bb: u8 = if vexb { 32 } else { 0 };
    let wb: u8 = if we { 128 } else { 0 };
    let lb: u8 = if vlength { 4 } else { 0 };
    let mut r: Vec<u8> = Vec::new();
    r.push(THREE_BYTE_PFX);
    r.push(rb + xb + bb + map);
    r.push(wb + 8 * ssrc + lb + pp);
    assert(r@ =~= spec_vex3(vexr, vexx, vexb, map, we, ssrc, vlength, pp));
    r
}

fn vex2_vec(vexr: bool, ssrc: u8, vlength: bool, pp: u8) -> (r: Vec<u8>)
    requires
        ssrc < 16,
        pp < 4,
    ensures
        r@ == spec_vex2(vexr, ssrc, vlength, pp),
{
    let a = vex2(vexr, ssrc, vlength, pp);
    let mut r: Vec<u8> = Vec::new();
    r.push(a[0]);
    r.push(a[1]);
    assert(r@ =~= a@);
    r
}

/// The operands that fill ModR/M.reg, ModR/M.rm and VEX.vvvv, in this
/// order, for an operand order of a description.
pub open spec fn spec_vex_roles(ins: Instruction, ord: Seq<OpOrd>) -> (Option<Operand>, Option<Operand>, Option<Operand>) {
    let d = ins.spec_dst();
    let s = ins.spec_src();
    let t = ins.spec_src2();
    match (ord[0], ord[1], ord[2]) {
        (OpOrd::VEX_VVVV, OpOrd::MODRM_REG, OpOrd::MODRM_RM) => (s, t, d),
        (OpOrd::VEX_VVVV, OpOrd::MODRM_RM, OpOrd::MODRM_REG) => (t, s, d),
        (OpOrd::MODRM_REG, OpOrd::VEX_VVVV, OpOrd::MODRM_RM) => (d, t, s),
        (OpOrd::MODRM_RM, OpOrd::VEX_VVVV, OpOrd::MODRM_REG) => (t, d, s),
        (OpOrd::MODRM_RM, OpOrd::MODRM_REG, OpOrd::VEX_VVVV) => (s, d, t),
        (OpOrd::MODRM_REG, OpOrd::MODRM_RM, OpOrd::VEX_VVVV) => (d, s, t),
        (OpOrd::VEX_VVVV, OpOrd::MODRM_REG, _) => (s, None, d),
        (OpOrd::VEX_VVVV, OpOrd::MODRM_RM, _) => (None, s, d),
        _ => (t, d, s),
    }
}

/// The vector length of an instruction under a description: the one that
/// the description fixes, else whether the operands are YMM.
pub open spec fn spec_vex_length(ins: Instruction, ctx: GenAPI) -> bool {
    match ctx.vex_vlength {
        Some(l) => l,
        None => ins.spec_which_variant() == IVariant::YMM,
    }
}

/// Whether an opcode map takes the three-byte prefix.
pub open spec fn wide_map(map: u8) -> bool {
    map == 0b00011 || map == 0b00010
}

/// The VEX prefix of an instruction under a description. It has three bytes
/// where the operand in ModR/M.rm asks for an extension bit, the map is that
/// of 0F 38 or 0F 3A, or VEX.W is set; else two. The bits R, X and B are
/// stored inverted.
pub open spec fn spec_vex(ins: Instruction, ctx: GenAPI) -> Seq<u8> {
    let (reg, rm, v) = spec_vex_roles(ins, ctx.ord@);
    let vvvv = spec_gen_vex4v(v);
    let b = spec_needs_vex3(rm);
    let r = spec_needs_vex3(reg).0;
    let l = spec_vex_length(ins, ctx);
    let map = ctx.map_select.unwrap();
    let we = ctx.vex_we.unwrap();
    if b.0 || b.1 || wide_map(map) || we {
        spec_vex3(!r, !b.1, !b.0, map, we, vvvv, l, ctx.pp.unwrap())
    } else {
        spec_vex2(!r, vvvv, l, ctx.pp.unwrap())
    }
}

/// The view of an optional reference to an operand.
pub open spec fn opr_view(o: Option<&Operand>) -> Option<Operand> {
    match o {
        Some(o) => Some(*o),
        None => None,
    }
}

/// The VEX prefix of an instruction under a description.
pub fn vex(ins: &Instruction, ctx: &GenAPI) -> (r: Option<Vec<u8>>)
    requires
        ctx.pp is Some && ctx.pp.unwrap() < 4,
        ctx.map_select is Some && ctx.map_select.unwrap() < 32,
        ctx.vex_we is Some,
    ensures
        r is Some,
        r.unwrap()@ == spec_vex(*ins, *ctx),
{
    let ord = ctx.get_ord();
    let d = ins.dst();
    let s = ins.src();
    let t = ins.src2();
    let (modrm_reg, modrm_rm, vex_opr): (Option<&Operand>, Option<&Operand>, Option<&Operand>) = match (
        ord[0],
        ord[1],
        ord[2],
    ) {
        (OpOrd::VEX_VVVV, OpOrd::MODRM_REG, OpOrd::MODRM_RM) => (s, t, d),
        (OpOrd::VEX_VVVV, OpOrd::MODRM_RM, OpOrd::MODRM_REG) => (t, s, d),
        (OpOrd::MODRM_REG, OpOrd::VEX_VVVV, OpOrd::MODRM_RM) => (d, t, s),
        (OpOrd::MODRM_RM, OpOrd::VEX_VVVV, OpOrd::MODRM_REG) => (t, d, s),
        (OpOrd::MODRM_RM, OpOrd::MODRM_REG, OpOrd::VEX_VVVV) => (s, d, t),
        (OpOrd::MODRM_REG, OpOrd::MODRM_RM, OpOrd::VEX_VVVV) => (d, s, t),
        (OpOrd::VEX_VVVV, OpOrd::MODRM_REG, _) => (s, None, d),
        (OpOrd::VEX_VVVV, OpOrd::MODRM_RM, _) => (None, s, d),
        _ => (t, d, s),
    };
    assert((opr_view(modrm_reg), opr_view(modrm_rm), opr_view(vex_opr)) == spec_vex_roles(*ins, ctx.ord@));
    let vvvv = gen_vex4v(vex_opr);
    let pp = match ctx.get_pp() {
        Some(p) => p,
        None => 0,
    };
    let map_select = match ctx.get_map_select() {
        Some(m) => m,
        None => 0,
    };
    let vex_we = match ctx.get_vex_we() {
        Some(w) => w,
        None => false,
    };
    let vlength = match ctx.get_vex_vlength() {
        Some(l) => l,
        None => ins.which_variant() == IVariant::YMM,
    };
    let vex_b = needs_vex3(modrm_rm);
    let vex_r = needs_vex3(modrm_reg).0;
    if (vex_b.0 || vex_b.1) || (map_select == 0b00011 || map_select == 0b00010) || vex_we {
        Some(vex3(!vex_r, !vex_b.1, !vex_b.0, map_select, vex_we, vvvv, vlength, pp))
    } else {
        Some(vex2_vec(!vex_r, vvvv, vlength, pp))
    }
}

/// The two bits that stand for a mandatory prefix: 01 for 66h, 10 for F3h,
/// 11 for F2h; bits that are given as such stay.
pub open spec fn spec_pp_bits(pp: u8) -> u8 {
    if pp == 0x66 {
        0b01
    } else if pp == 0xF3 {
        0b10
    } else if pp == 0xF2 {
        0b11
    } else {
        pp
    }
}

/// The five bits that stand for an opcode map: 1 for 0Fh, 2 for 0F 38h,
/// 3 for 0F 3Ah; bits that are given as such stay.
pub open spec fn spec_map_bits(map: u8) -> u8 {
    if map == 0x0F {
        0b00001
    } else if map == 0x38 {
        0b00010
    } else if map == 0x3A {
        0b00011
    } else {
        map
    }
}

/// Whether an operand asks for either extension bit.
pub open spec fn asks_ext(op: Option<Operand>) -> bool {
    spec_needs_vex3(op).0 || spec_needs_vex3(op).1
}

/// The VEX prefix for given operands. The field vvvv names the source
/// where there is a second source that is no immediate. The operand in
/// ModR/M.reg is the destination where `modrm_reg_is_dst` says so, else the
/// last source; the other of the two stands in ModR/M.rm. The prefix has
/// three bytes where the operand in ModR/M.rm asks for an extension bit,
/// the map is that of 0F 38 or 0F 3A, or VEX.W is set.
pub open spec fn spec_gen_vex_norm(
    ins: Instruction,
    pp: u8,
    map_select: u8,
    modrm_reg_is_dst: bool,
    vex_we: bool,
    dst: Option<Operand>,
    src: Option<Operand>,
    src2: Option<Operand>,
) -> Seq<u8> {
    let ssrc: u8 = if src2 is Some && !(src2 matches Some(Operand::Imm(_))) {
        spec_gen_vex4v(src)
    } else {
        0b1111
    };
    let l = ins.spec_which_variant() == IVariant::YMM || ins.mnem == Mnemonic::VEXTRACTF128;
    let map = spec_map_bits(map_select);
    let last = if src2 is Some {
        src2
    } else {
        src
    };
    let (reg, rm) = if modrm_reg_is_dst {
        (dst, last)
    } else {
        (last, dst)
    };
    let b = spec_needs_vex3(rm);
    if b.0 || b.1 || wide_map(map) || vex_we {
        spec_vex3(!asks_ext(reg), !b.1, !b.0, map, vex_we, ssrc, l, spec_pp_bits(pp))
    } else {
        spec_vex2(!asks_ext(reg), ssrc, l, spec_pp_bits(pp))
    }
}

/// The VEX prefix for given operands.
pub fn gen_vex_norm(
    ins: &Instruction,
    pp: u8,
    map_select: u8,
    modrm_reg_is_dst: bool,
    vex_we: bool,
    dst: Option<&Operand>,
    src: Option<&Operand>,
    src2: Option<&Operand>,
) -> (r: Option<Vec<u8>>)
    requires
        spec_pp_bits(pp) < 4,
        spec_map_bits(map_select) < 32,
    ensures
        r is Some,
        r.unwrap()@ == spec_gen_vex_norm(
            *ins,
            pp,
            map_select,
            modrm_reg_is_dst,
            vex_we,
            opr_view(dst),
            opr_view(src),
            opr_view(src2),
        ),
{
    let ssrc: u8 = match src2 {
        Some(Operand::Imm(_)) => 0b1111,
        Some(_) => vvvv_of(src),
        None => 0b1111,
    };
    let pp: u8 = if pp == 0x66 {
        0b01
    } else if pp == 0xF3 {
        0b10
    } else if pp == 0xF2 {
        0b11
    } else {
        pp
    };
    let vlength = ins.which_variant() == IVariant::YMM || ins.mnem == Mnemonic::VEXTRACTF128;
    let map_select: u8 = if map_select == 0x0F {
        0b00001
    } else if map_select == 0x38 {
        0b00010
    } else if map_select == 0x3A {
        0b00011
    } else {
        map_select
    };
    let last = if src2.is_some() {
        src2
    } else {
        src
    };
    let (reg, rm): (Option<&Operand>, Option<&Operand>) = if modrm_reg_is_dst {
        (dst, last)
    } else {
        (last, dst)
    };
    let nvex_reg = ext_bits(reg);
    let vexb = ext_bits(rm);
    let vexr = !(nvex_reg.0 || nvex_reg.1);
    if vexb.0 || vexb.1 || (map_select == 0b00011 || map_select == 0b00010) || vex_we {
        Some(vex3(vexr, !vexb.1, !vexb.0, map_select, vex_we, ssrc, vlength, pp))
    } else {
        Some(vex2_vec(vexr, ssrc, vlength, pp))
    }
}

/// The VEX prefix for the operands of the instruction.
pub fn gen_vex(ins: &Instruction, pp: u8, map_select: u8, modrm_reg_is_dst: bool, vex_we: bool) -> (r: Option<
    Vec<u8>,
>)
    requires
        spec_pp_bits(pp) < 4,
        spec_map_bits(map_select) < 32,
    ensures
        r is Some,
        r.unwrap()@ == spec_gen_vex_norm(
            *ins,
            pp,
            map_select,
            modrm_reg_is_dst,
            vex_we,
            ins.spec_dst(),
            ins.spec_src(),
            ins.spec_src2(),
        ),
{
    gen_vex_norm(ins, pp, map_select, modrm_reg_is_dst, vex_we, ins.dst(), ins.src(), ins.src2())
}

/// The `mod` field of a VEX-encoded instruction: that of the first operand
/// that takes a SIB byte, else that of the destination or the second source
/// where one of them is memory, else 11.
pub open spec fn spec_vex_mod(ins: Instruction, dst: Option<Operand>, src2: Option<Operand>) -> u8 {
    match ins.spec_get_sib_idx() {
        Some(i) => ins.oprs@[i as int].spec_mem().unwrap().spec_mod_bits(),
        None => if opt_is_mem(dst) {
            dst.unwrap().spec_mem().unwrap().spec_mod_bits()
        } else if opt_is_mem(src2) {
            src2.unwrap().spec_mem().unwrap().spec_mod_bits()
        } else {
            3
        },
    }
}

/// Whether the destination stands in ModR/M.reg: where the caller says so,
/// for VINSERTF128, and, without an override of the field, where the second
/// source is memory.
pub open spec fn spec_vex_reg_is_dst(
    ins: Instruction,
    reg: Option<u8>,
    modrm_reg_is_dst: bool,
    src2: Option<Operand>,
) -> bool {
    modrm_reg_is_dst || ins.mnem == Mnemonic::VINSERTF128 || (reg is None && opt_is_mem(src2))
}

/// The ModR/M byte of a VEX-encoded instruction for a given destination and
/// second source. `reg` and `rm` override their fields; the field `r/m` is
/// 100 where an operand takes a SIB byte.
pub open spec fn spec_vex_modrm_norm(
    ins: Instruction,
    reg: Option<u8>,
    rm: Option<u8>,
    modrm_reg_is_dst: bool,
    dst: Option<Operand>,
    src2: Option<Operand>,
) -> u8 {
    let flag = spec_vex_reg_is_dst(ins, reg, modrm_reg_is_dst, src2);
    let reg_bits: u8 = match reg {
        Some(v) => v,
        None => if flag {
            spec_gen_rmreg(dst)
        } else {
            spec_gen_rmreg(src2)
        },
    };
    let rm_bits: u8 = if ins.spec_uses_sib() {
        0b100
    } else {
        match rm {
            Some(v) => v,
            None => if flag {
                spec_gen_rmreg(src2)
            } else {
                spec_gen_rmreg(dst)
            },
        }
    };
    (spec_vex_mod(ins, dst, src2) * 64 + reg_bits * 8 + rm_bits) as u8
}

fn mem_mod(o: Option<&Operand>) -> (r: Option<u8>)
    ensures
        r is Some == opt_is_mem(opr_view(o)),
        r is Some ==> r.unwrap() == opr_view(o).unwrap().spec_mem().unwrap().spec_mod_bits(),
        r is Some ==> r.unwrap() < 3,
{
    match o {
        Some(o) => match o.mem() {
            Some(m) => Some(m.mod_bits()),
            None => None,
        },
        None => None,
    }
}

fn is_mem_opt(o: Option<&Operand>) -> (r: bool)
    ensures
        r == opt_is_mem(opr_view(o)),
{
    match o {
        Some(o) => o.is_mem(),
        None => false,
    }
}

fn ext_bits(o: Option<&Operand>) -> (r: (bool, bool))
    ensures
        r == spec_needs_vex3(opr_view(o)),
{
    needs_vex3(o)
}

fn vvvv_of(o: Option<&Operand>) -> (r: u8)
    ensures
        r == spec_gen_vex4v(opr_view(o)),
        r < 16,
{
    gen_vex4v(o)
}

fn rmreg(o: Option<&Operand>) -> (r: u8)
    ensures
        r == spec_gen_rmreg(opr_view(o)),
        r < 8,
{
    gen_rmreg(o)
}

/// The ModR/M byte of a VEX-encoded instruction for a given destination and
/// second source.
pub fn vex_modrm_norm(
    ins: &Instruction,
    reg: Option<u8>,
    rm: Option<u8>,
    modrm_reg_is_dst: bool,
    dst: Option<&Operand>,
    src2: Option<&Operand>,
) -> (r: u8)
    requires
        reg is Some ==> reg.unwrap() < 8,
        rm is Some ==> rm.unwrap() < 8,
    ensures
        r == spec_vex_modrm_norm(*ins, reg, rm, modrm_reg_is_dst, opr_view(dst), opr_view(src2)),
{
    let mod_: u8 = match ins.get_sib_idx() {
        Some(sibidx) => match mem_mod(ins.opr(sibidx)) {
            Some(m) => m,
            None => 0b11,
        },
        None => match mem_mod(dst) {
            Some(m) => m,
            None => match mem_mod(src2) {
                Some(m) => m,
                None => 0b11,
            },
        },
    };
    let mut modrm_reg_is_dst = modrm_reg_is_dst;
    if ins.mnem == Mnemonic::VINSERTF128 {
        modrm_reg_is_dst = true;
    }
    let reg_bits: u8 = match reg {
        Some(v) => v,
        None => {
            if modrm_reg_is_dst {
                rmreg(dst)
            } else {
                if is_mem_opt(src2) {
                    modrm_reg_is_dst = true;
                    rmreg(dst)
                } else {
                    rmreg(src2)
                }
            }
        },
    };
    let rm_bits: u8 = if ins.uses_sib() {
        0b100
    } else {
        match rm {
            Some(v) => v,
            None => if modrm_reg_is_dst {
                rmreg(src2)
            } else {
                rmreg(dst)
            },
        }
    };
    mod_ * 64 + reg_bits * 8 + rm_bits
}

/// The ModR/M byte of a VEX-encoded instruction.
pub fn vex_modrm(ins: &Instruction, reg: Option<u8>, rm: Option<u8>, modrm_reg_is_dst: bool) -> (r: u8)
    requires
        reg is Some ==> reg.unwrap() < 8,
        rm is Some ==> rm.unwrap() < 8,
    ensures
        r == spec_vex_modrm_norm(*ins, reg, rm, modrm_reg_is_dst, ins.spec_dst(), ins.spec_src2()),
{
    vex_modrm_norm(ins, reg, rm, modrm_reg_is_dst, ins.dst(), ins.src2())
}

} // verus!
