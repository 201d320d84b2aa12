use vstd::prelude::*;
use crate::enc::disp::gen_disp;
use crate::enc::disp::spec_disp_bytes;
use crate::enc::modrm::gen_modrm;
use crate::enc::modrm::rm_pos;
use crate::enc::modrm::spec_gen_modrm;
use crate::enc::modrm::spec_rm_opr;
use crate::enc::rex::gen_rex;
use crate::enc::rex::rex_w;
use crate::enc::rex::spec_gen_rex;
use crate::enc::rex::spec_rex_w;
use crate::enc::sib::gen_sib;
use crate::enc::sib::spec_gen_sib;
use crate::shr::ast::Instruction;
use crate::shr::ast::Operand;
use crate::shr::ins::Mnemonic;
use crate::enc::simd::spec_simd_kind;
use crate::enc::simd::gen_simd;
use crate::enc::simd::simd_form;
use crate::enc::simd::spec_gen_simd;
use crate::enc::simd::spec_simd_form;
use crate::shr::ast::opt_size;
use crate::shr::num::Number;
use crate::shr::reg::Register;
use crate::shr::reloc::RCategory;
use crate::shr::reloc::RType;
use crate::shr::reloc::Relocation;
use crate::shr::reloc::RelocationView;
use crate::shr::size::Size;

verus! {

/// The sequence of the byte that an option holds; empty for none.
pub open spec fn opt_seq(o: Option<u8>) -> Seq<u8> {
    match o {
        Some(b) => seq![b],
        None => Seq::empty(),
    }
}

/// The first of two options that holds a byte.
pub open spec fn first_of(a: Option<u8>, b: Option<u8>) -> Option<u8> {
    match a {
        Some(_) => a,
        None => b,
    }
}

/// The width of the data that an operand contributes to the operand size:
/// that of a general-purpose register and that of memory.
pub open spec fn spec_data_size(op: Operand) -> Option<Size> {
    match op.spec_gpr() {
        Some(r) => Some(r.spec_size()),
        None => if op.spec_is_mem() {
            Some(op.spec_size())
        } else {
            None
        },
    }
}

/// The operand-size prefix 66h that an operand asks for: its data is 16 bits
/// wide in 32- or 64-bit mode, or 32 bits wide in 16-bit mode, and REX.W is
/// not set.
pub open spec fn spec_gen_size_ovr(ins: Instruction, op: Operand, bits: u8, rexw: bool) -> Option<u8> {
    match spec_data_size(op) {
        Some(s) => if !rexw && ((bits == 16 && s == Size::Dword) || (bits != 16 && s == Size::Word)) {
            Some(0x66u8)
        } else {
            None
        },
        None => None,
    }
}

/// Computes `spec_gen_size_ovr`.
pub fn gen_size_ovr(ins: &Instruction, op: &Operand, bits: u8, rexw: bool) -> (r: Option<u8>)
    ensures
        r == spec_gen_size_ovr(*ins, *op, bits, rexw),
{
    let ds: Option<Size> = match op.gpr() {
        Some(r) => Some(r.size()),
        None => if op.is_mem() {
            Some(op.size())
        } else {
            None
        },
    };
    match ds {
        Some(s) => if !rexw && ((bits == 16 && s == Size::Dword) || (bits != 16 && s == Size::Word)) {
            Some(0x66)
        } else {
            None
        },
        None => None,
    }
}

/// The address-size prefix 67h that an operand asks for: it is memory whose
/// address registers are not as wide as the mode's addresses.
pub open spec fn spec_gen_addr_ovr(op: Operand, bits: u8) -> Option<u8> {
    match op.spec_mem() {
        Some(m) => match m.spec_addr_size() {
            Some(s) => if (bits == 64 && s == Size::Dword) || (bits == 32 && s == Size::Word) || (bits
                == 16 && s == Size::Dword) {
                Some(0x67u8)
            } else {
                None
            },
            None => None,
        },
        None => None,
    }
}

/// Computes `spec_gen_addr_ovr`.
pub fn gen_addr_ovr(op: &Operand, bits: u8) -> (r: Option<u8>)
    ensures
        r == spec_gen_addr_ovr(*op, bits),
{
    match op.mem() {
        Some(m) => match m.addr_size() {
            Some(s) => if (bits == 64 && s == Size::Dword) || (bits == 32 && s == Size::Word) || (bits
                == 16 && s == Size::Dword) {
                Some(0x67)
            } else {
                None
            },
            None => None,
        },
        None => None,
    }
}

/// The segment-override prefix of an operand: one byte for each of the six
/// segment registers, where the operand is memory with a segment.
pub open spec fn spec_gen_segm_pref_op(op: Operand) -> Option<u8> {
    match op {
        Operand::Segment(s) => match s.segment {
            Register::CS => Some(0x2Eu8),
            Register::SS => Some(0x36u8),
            Register::DS => Some(0x3Eu8),
            Register::ES => Some(0x26u8),
            Register::FS => Some(0x64u8),
            Register::GS => Some(0x65u8),
            _ => None,
        },
        _ => None,
    }
}

/// Computes `spec_gen_segm_pref_op`.
pub fn gen_segm_pref_op(op: &Operand) -> (r: Option<u8>)
    ensures
        r == spec_gen_segm_pref_op(*op),
{
    match op {
        Operand::Segment(s) => match s.segment {
            Register::CS => Some(0x2E),
            Register::SS => Some(0x36),
            Register::DS => Some(0x3E),
            Register::ES => Some(0x26),
            Register::FS => Some(0x64),
            Register::GS => Some(0x65),
            _ => None,
        },
        _ => None,
    }
}

/// What an optional operand asks for by `f`; nothing where there is none.
pub open spec fn on_opt(o: Option<Operand>, f: spec_fn(Operand) -> Option<u8>) -> Option<u8> {
    match o {
        Some(o) => f(o),
        None => None,
    }
}

/// The segment-override prefix of an instruction: that of the destination,
/// else that of the source.
pub open spec fn spec_gen_segm_pref(ins: Instruction) -> Option<u8> {
    first_of(
        on_opt(ins.spec_dst(), |o: Operand| spec_gen_segm_pref_op(o)),
        on_opt(ins.spec_src(), |o: Operand| spec_gen_segm_pref_op(o)),
    )
}

/// Computes `spec_gen_segm_pref`.
pub fn gen_segm_pref(ins: &Instruction) -> (r: Option<u8>)
    ensures
        r == spec_gen_segm_pref(*ins),
{
    if let Some(d) = ins.dst() {
        if let Some(s) = gen_segm_pref_op(d) {
            return Some(s);
        }
    }
    if let Some(d) = ins.src() {
        if let Some(s) = gen_segm_pref_op(d) {
            return Some(s);
        }
    }
    None
}

/// The operand-size prefix of an instruction: at most one 66h, asked for by
/// the destination or the source.
pub open spec fn spec_size_pref(ins: Instruction, bits: u8) -> Option<u8> {
    let rexw = bits == 64 && spec_rex_w(ins);
    first_of(
        on_opt(ins.spec_dst(), |o: Operand| spec_gen_size_ovr(ins, o, bits, rexw)),
        on_opt(ins.spec_src(), |o: Operand| spec_gen_size_ovr(ins, o, bits, rexw)),
    )
}

/// The address-size prefix of an instruction: at most one 67h, asked for by
/// the destination or the source.
pub open spec fn spec_addr_pref(ins: Instruction, bits: u8) -> Option<u8> {
    first_of(
        on_opt(ins.spec_dst(), |o: Operand| spec_gen_addr_ovr(o, bits)),
        on_opt(ins.spec_src(), |o: Operand| spec_gen_addr_ovr(o, bits)),
    )
}

/// The REX byte as it is emitted: only in 64-bit mode.
pub open spec fn spec_rex_pref(ins: Instruction, bits: u8, rev: bool) -> Option<u8> {
    if bits == 64 {
        spec_gen_rex(ins, rev)
    } else {
        None
    }
}

/// The bytes before the opcode: operand-size prefix, address-size prefix,
/// segment override, REX.
pub open spec fn spec_prefixes(ins: Instruction, bits: u8, rev: bool) -> Seq<u8> {
    opt_seq(spec_size_pref(ins, bits)) + opt_seq(spec_addr_pref(ins, bits)) + opt_seq(
        spec_gen_segm_pref(ins),
    ) + opt_seq(spec_rex_pref(ins, bits, rev))
}

/// The prefixes of an instruction followed by its opcode.
pub open spec fn spec_gen_base(ins: Instruction, opc: Seq<u8>, bits: u8, rev: bool) -> Seq<u8> {
    spec_prefixes(ins, bits, rev) + opc
}

fn size_pref(ins: &Instruction, bits: u8) -> (r: Option<u8>)
    ensures
        r == spec_size_pref(*ins, bits),
{
    let rexw = bits == 64 && rex_w(ins);
    if let Some(d) = ins.dst() {
        if let Some(s) = gen_size_ovr(ins, d, bits, rexw) {
            return Some(s);
        }
    }
    if let Some(d) = ins.src() {
        if let Some(s) = gen_size_ovr(ins, d, bits, rexw) {
            return Some(s);
        }
    }
    None
}

fn addr_pref(ins: &Instruction, bits: u8) -> (r: Option<u8>)
    ensures
        r == spec_addr_pref(*ins, bits),
{
    if let Some(d) = ins.dst() {
        if let Some(s) = gen_addr_ovr(d, bits) {
            return Some(s);
        }
    }
    if let Some(d) = ins.src() {
        if let Some(s) = gen_addr_ovr(d, bits) {
            return Some(s);
        }
    }
    None
}

fn push_opt(v: &mut Vec<u8>, o: Option<u8>)
    ensures
        final(v)@ == old(v)@ + opt_seq(o),
{
    if let Some(b) = o {
        v.push(b);
    }
}

/// Computes `spec_gen_base`.
pub fn gen_base(ins: &Instruction, opc: &[u8], bits: u8, rev: bool) -> (out: Vec<u8>)
    ensures
        out@ == spec_gen_base(*ins, opc@, bits, rev),
        opc@.len() <= out@.len() <= opc@.len() + 4,
{
    let mut base: Vec<u8> = Vec::new();
    push_opt(&mut base, size_pref(ins, bits));
    push_opt(&mut base, addr_pref(ins, bits));
    push_opt(&mut base, gen_segm_pref(ins));
    let rex = if bits == 64 {
        gen_rex(ins, rev)
    } else {
        None
    };
    push_opt(&mut base, rex);
    base.extend_from_slice(opc);
    base
}

/// A base followed by an immediate.
pub open spec fn spec_bs_imm(ins: Instruction, opc: Seq<u8>, imm: Seq<u8>, bits: u8, rev: bool) -> Seq<u8> {
    spec_gen_base(ins, opc, bits, rev) + imm
}

/// Computes `spec_bs_imm`.
pub fn bs_imm(ins: &Instruction, opc: &[u8], imm: &[u8], bits: u8, rev: bool) -> (out: Vec<u8>)
    ensures
        out@ == spec_bs_imm(*ins, opc@, imm@, bits, rev),
        opc@.len() + imm@.len() <= out@.len() <= opc@.len() + imm@.len() + 4,
{
    let mut b = gen_base(ins, opc, bits, rev);
    b.extend_from_slice(imm);
    b
}

/// `imm` followed by as many zero bytes as it lacks to `size`.
pub open spec fn spec_extend_imm(imm: Seq<u8>, size: u8) -> Seq<u8> {
    if imm.len() < size {
        imm + Seq::new((size - imm.len()) as nat, |i: int| 0u8)
    } else {
        imm
    }
}

/// Computes `spec_extend_imm`.
pub fn extend_imm(imm: &mut Vec<u8>, size: u8)
    ensures
        final(imm)@ == spec_extend_imm(old(imm)@, size),
{
    let n = size as usize;
    while imm.len() < n
        invariant
            n == size,
            old(imm)@.len() <= imm@.len(),
            old(imm)@.len() < n ==> imm@.len() <= n,
            old(imm)@.len() >= n ==> imm@.len() == old(imm)@.len(),
            imm@ =~= old(imm)@ + Seq::new((imm@.len() - old(imm)@.len()) as nat, |i: int| 0u8),
        decreases n - imm@.len(),
    {
        imm.push(0)
    }
    assert(imm@ =~= spec_extend_imm(old(imm)@, size));
}

/// What follows the opcode where the instruction has a ModR/M byte: that
/// byte, then the SIB byte and the displacement of the operand that `r/m`
/// names.
pub open spec fn spec_modrm_tail(ins: Instruction, reg: Option<u8>, rm: Option<u8>, rev: bool) -> Seq<u8> {
    seq![spec_gen_modrm(ins, reg, rm, rev)] + match spec_rm_opr(ins, rev) {
        Some(o) => opt_seq(spec_gen_sib(o)) + spec_disp_bytes(o),
        None => Seq::empty(),
    }
}

/// The sequence that an optional byte vector stands for; empty for none.
pub open spec fn opt_bytes(o: Option<Vec<u8>>) -> Seq<u8> {
    match o {
        Some(v) => v@,
        None => Seq::empty(),
    }
}

/// An instruction in the general layout: prefixes, opcode, then ModR/M with
/// SIB and displacement where `modrm.0` asks for them, then the immediate.
pub open spec fn spec_gen_ins(
    ins: Instruction,
    opc: Seq<u8>,
    modrm: (bool, Option<u8>, Option<u8>),
    imm: Seq<u8>,
    bits: u8,
    rev: bool,
) -> Seq<u8> {
    spec_gen_base(ins, opc, bits, rev) + (if modrm.0 {
        spec_modrm_tail(ins, modrm.1, modrm.2, rev)
    } else {
        Seq::empty()
    }) + imm
}

fn modrm_tail(ins: &Instruction, reg: Option<u8>, rm: Option<u8>, rev: bool) -> (out: Vec<u8>)
    requires
        reg is Some ==> reg.unwrap() < 8,
        rm is Some ==> rm.unwrap() < 8,
    ensures
        out@ == spec_modrm_tail(*ins, reg, rm, rev),
        1 <= out@.len() <= 6,
{
    let mut out: Vec<u8> = Vec::new();
    out.push(gen_modrm(ins, reg, rm, rev));
    if let Some(o) = ins.opr(rm_pos(ins, rev)) {
        push_opt(&mut out, gen_sib(o));
        if let Some(mut d) = gen_disp(o) {
            out.append(&mut d);
        }
    }
    out
}

/// Computes `spec_gen_ins`.
pub fn gen_ins(
    ins: &Instruction,
    opc: &[u8],
    modrm: (bool, Option<u8>, Option<u8>),
    imm: Option<Vec<u8>>,
    bits: u8,
    rev: bool,
) -> (out: Vec<u8>)
    requires
        modrm.1 is Some ==> modrm.1.unwrap() < 8,
        modrm.2 is Some ==> modrm.2.unwrap() < 8,
    ensures
        out@ == spec_gen_ins(*ins, opc@, modrm, opt_bytes(imm), bits, rev),
        opc@.len() + opt_bytes(imm).len() <= out@.len() <= opc@.len() + opt_bytes(imm).len() + 10,
        modrm.0 ==> out@.len() > opc@.len() + opt_bytes(imm).len(),
{
    let mut base = gen_base(ins, opc, bits, rev);
    if modrm.0 {
        let mut t = modrm_tail(ins, modrm.1, modrm.2, rev);
        base.append(&mut t);
    }
    if let Some(mut imm) = imm {
        base.append(&mut imm);
    }
    base
}

/// An instruction in the general layout behind a mandatory prefix. Where
/// the prefix is 66h and the operands ask for 66h as well, it stands once.
pub open spec fn spec_gen_ins_wpref(
    ins: Instruction,
    opc: Seq<u8>,
    modrm: (bool, Option<u8>, Option<u8>),
    imm: Seq<u8>,
    pref: u8,
    bits: u8,
    rev: bool,
) -> Seq<u8> {
    if pref == 0x66 && spec_size_pref(ins, bits) is Some {
        spec_gen_ins(ins, opc, modrm, imm, bits, rev)
    } else {
        seq![pref] + spec_gen_ins(ins, opc, modrm, imm, bits, rev)
    }
}

/// Computes `spec_gen_ins_wpref`.
pub fn gen_ins_wpref(
    ins: &Instruction,
    opc: &[u8],
    modrm: (bool, Option<u8>, Option<u8>),
    imm: Option<Vec<u8>>,
    pref: u8,
    bits: u8,
    rev: bool,
) -> (out: Vec<u8>)
    requires
        modrm.1 is Some ==> modrm.1.unwrap() < 8,
        modrm.2 is Some ==> modrm.2.unwrap() < 8,
    ensures
        out@ == spec_gen_ins_wpref(*ins, opc@, modrm, opt_bytes(imm), pref, bits, rev),
        opc@.len() + opt_bytes(imm).len() + 1 <= out@.len() <= opc@.len() + opt_bytes(imm).len() + 11,
{
    let mut rest = gen_ins(ins, opc, modrm, imm, bits, rev);
    if pref == 0x66 && size_pref(ins, bits).is_some() {
        rest
    } else {
        let mut base: Vec<u8> = Vec::new();
        base.push(pref);
        base.append(&mut rest);
        base
    }
}

/// Whether an operand is a register of any kind or memory.
pub open spec fn is_rm(o: Operand) -> bool {
    o is Reg || o.spec_is_mem()
}

/// Whether a register is one of the six segment registers.
pub open spec fn is_seg(r: Register) -> bool {
    r == Register::CS || r == Register::SS || r == Register::DS || r == Register::ES || r
        == Register::FS || r == Register::GS
}

/// The inputs that `ins_pop` encodes: a destination that is a register, one
/// of the six segment registers, or memory.
pub open spec fn can_pop(ins: Instruction) -> bool {
    match ins.spec_dst() {
        Some(Operand::Reg(_)) | Some(Operand::Mem(_)) | Some(Operand::Segment(_)) => true,
        Some(Operand::SegReg(r)) => is_seg(r),
        _ => false,
    }
}

/// POP: `58+r` for a register, the one- or two-byte opcodes of the segment
/// registers (a NOP for CS, which cannot be popped), `8F /0` for memory.
pub open spec fn spec_ins_pop(ins: Instruction, bits: u8) -> Seq<u8> {
    match ins.spec_dst() {
        Some(Operand::Reg(r)) => spec_gen_base(ins, [(0x58 + r.spec_to_byte()) as u8]@, bits, false),
        Some(Operand::SegReg(r)) => match r {
            Register::DS => seq![0x1Fu8],
            Register::ES => seq![0x07u8],
            Register::SS => seq![0x17u8],
            Register::FS => seq![0x0Fu8, 0xA1u8],
            Register::GS => seq![0x0Fu8, 0xA9u8],
            _ => seq![0x90u8],
        },
        _ => spec_gen_ins(ins, [0x8Fu8]@, (true, Some(0u8), None), Seq::empty(), bits, false),
    }
}

/// Computes `spec_ins_pop`.
pub fn ins_pop(ins: &Instruction, bits: u8) -> (out: Vec<u8>)
    requires
        can_pop(*ins),
    ensures
        out@ == spec_ins_pop(*ins, bits),
        1 <= out@.len() <= 11,
{
    match ins.dst() {
        Some(Operand::Reg(r)) => gen_base(ins, &[0x58 + r.to_byte()], bits, false),
        Some(Operand::SegReg(r)) => match r {
            Register::DS => vec![0x1F],
            Register::ES => vec![0x07],
            Register::SS => vec![0x17],
            Register::FS => vec![0x0F, 0xA1],
            Register::GS => vec![0x0F, 0xA9],
            _ => vec![0x90],
        },
        _ => gen_ins(ins, &[0x8F], (true, Some(0), None), None, bits, false),
    }
}

/// The inputs that `ins_push` encodes: a destination that is a register, one
/// of the six segment registers, an immediate, or memory.
pub open spec fn can_push(ins: Instruction) -> bool {
    match ins.spec_dst() {
        Some(Operand::Reg(_)) | Some(Operand::Mem(_)) | Some(Operand::Segment(_)) | Some(
            Operand::Imm(_),
        ) => true,
        Some(Operand::SegReg(r)) => is_seg(r),
        _ => false,
    }
}

/// PUSH: `50+r` for a register, the opcodes of the segment registers, `6A ib`
/// for an immediate that fits a signed byte and `68 id` for any other, `FF /6`
/// for memory.
pub open spec fn spec_ins_push(ins: Instruction, bits: u8) -> Seq<u8> {
    match ins.spec_dst() {
        Some(Operand::Reg(r)) => spec_gen_base(ins, [(0x50 + r.spec_to_byte()) as u8]@, bits, false),
        Some(Operand::SegReg(r)) => match r {
            Register::CS => seq![0x0Eu8],
            Register::SS => seq![0x16u8],
            Register::DS => seq![0x1Eu8],
            Register::ES => seq![0x06u8],
            Register::FS => seq![0x0Fu8, 0xA0u8],
            _ => seq![0x0Fu8, 0xA8u8],
        },
        Some(Operand::Imm(n)) => if n.spec_fits_i8() {
            seq![0x6Au8] + n.spec_low_bytes(1)
        } else {
            seq![0x68u8] + n.spec_low_bytes(4)
        },
        _ => spec_gen_ins(ins, [0xFFu8]@, (true, Some(6u8), None), Seq::empty(), bits, false),
    }
}

/// Computes `spec_ins_push`.
pub fn ins_push(ins: &Instruction, bits: u8) -> (out: Vec<u8>)
    requires
        can_push(*ins),
    ensures
        out@ == spec_ins_push(*ins, bits),
        1 <= out@.len() <= 11,
{
    match ins.dst() {
        Some(Operand::Reg(r)) => gen_base(ins, &[0x50 + r.to_byte()], bits, false),
        Some(Operand::SegReg(r)) => match r {
            Register::CS => vec![0x0E],
            Register::SS => vec![0x16],
            Register::DS => vec![0x1E],
            Register::ES => vec![0x06],
            Register::FS => vec![0x0F, 0xA0],
            _ => vec![0x0F, 0xA8],
        },
        Some(Operand::Imm(nb)) => {
            if nb.fits_i8() {
                let mut opc: Vec<u8> = vec![0x6A];
                let mut x = nb.low_bytes(1);
                opc.append(&mut x);
                opc
            } else {
                let mut b: Vec<u8> = vec![0x68];
                let mut x = nb.low_bytes(4);
                b.append(&mut x);
                b
            }
        },
        _ => gen_ins(ins, &[0xFF], (true, Some(6), None), None, bits, false),
    }
}

/// The number of immediate bytes of a word, double-word or quad-word
/// operation: two for a word, four for the others.
pub open spec fn spec_imm_width(sz: Size) -> u8 {
    if sz == Size::Word {
        2
    } else {
        4
    }
}

fn imm_width(sz: Size) -> (r: u8)
    ensures
        r == spec_imm_width(sz),
{
    if sz == Size::Word {
        2
    } else {
        4
    }
}

/// The inputs that `ins_mov` encodes. Both operands are there, the width of
/// a general-purpose operand is one of byte, word, double word and quad
/// word, and the pair is one of: register from segment, control or debug
/// register; register from immediate, register or memory; control or debug
/// register from anything; segment register from register or memory; memory
/// from register, segment register or immediate.
pub open spec fn can_mov(ins: Instruction) -> bool {
    match (ins.spec_dst(), ins.spec_src()) {
        (Some(d), Some(s)) => match d {
            Operand::Reg(_) => match s {
                Operand::SegReg(_) | Operand::CtrReg(_) | Operand::DbgReg(_) => true,
                Operand::Imm(_) | Operand::Reg(_) | Operand::Mem(_) | Operand::Segment(_) => d.spec_size().spec_is_gpr_width(),
                _ => false,
            },
            Operand::CtrReg(_) | Operand::DbgReg(_) => true,
            Operand::SegReg(_) => is_rm(s),
            Operand::Mem(_) | Operand::Segment(_) => (s is Reg || s is Imm || s is SegReg)
                && ins.spec_size().spec_is_gpr_width(),
            _ => false,
        },
        _ => false,
    }
}

/// MOV of an immediate into a register: `B0+r ib` for a byte, `B8+r iw` and
/// `B8+r id` for a word and a double word; for a quad word `C7 /0 id` where
/// the value fits a signed double word, else `B8+r` with all eight bytes.
pub open spec fn spec_mov_reg_imm(ins: Instruction, r: Register, n: Number, bits: u8) -> Seq<u8> {
    match r.spec_size() {
        Size::Byte => spec_bs_imm(ins, [(0xB0 + r.spec_to_byte()) as u8]@, n.spec_low_bytes(1), bits, false),
        Size::Word => spec_bs_imm(ins, [(0xB8 + r.spec_to_byte()) as u8]@, n.spec_low_bytes(2), bits, false),
        Size::Dword => spec_bs_imm(ins, [(0xB8 + r.spec_to_byte()) as u8]@, n.spec_low_bytes(4), bits, false),
        _ => if n.spec_fits_i32() {
            spec_gen_ins(ins, [0xC7u8]@, (true, Some(0u8), None), n.spec_low_bytes(4), bits, false)
        } else {
            spec_bs_imm(ins, [(0xB8 + r.spec_to_byte()) as u8]@, n.spec_low_bytes(8), bits, false)
        },
    }
}

/// MOV, by the kinds of its operands. Between general-purpose operands the
/// opcode is `88`/`89` where the source is a register and `8A`/`8B` where it
/// is memory, the first of each pair for bytes; an immediate goes to memory
/// by `C6 /0 ib` or `C7 /0` with two or four bytes.
pub open spec fn spec_ins_mov(ins: Instruction, bits: u8) -> Seq<u8> {
    let d = ins.spec_dst().unwrap();
    let s = ins.spec_src().unwrap();
    let none = (true, None::<u8>, None::<u8>);
    let e = Seq::<u8>::empty();
    let byte = ins.spec_size() == Size::Byte;
    match d {
        Operand::Reg(r) => match s {
            Operand::SegReg(_) => spec_gen_ins(ins, [0x8Cu8]@, none, e, bits, false),
            Operand::CtrReg(_) => spec_gen_ins(ins, [0x0Fu8, 0x20u8]@, none, e, bits, false),
            Operand::DbgReg(_) => spec_gen_ins(ins, [0x0Fu8, 0x21u8]@, none, e, bits, false),
            Operand::Imm(n) => spec_mov_reg_imm(ins, r, n, bits),
            Operand::Reg(_) => spec_gen_ins(ins, [if byte { 0x88u8 } else { 0x89u8 }]@, none, e, bits, false),
            _ => spec_gen_ins(ins, [if byte { 0x8Au8 } else { 0x8Bu8 }]@, none, e, bits, false),
        },
        Operand::CtrReg(_) => spec_gen_ins(ins, [0x0Fu8, 0x22u8]@, none, e, bits, true),
        Operand::DbgReg(_) => spec_gen_ins(ins, [0x0Fu8, 0x23u8]@, none, e, bits, true),
        Operand::SegReg(_) => spec_gen_ins(ins, [0x8Eu8]@, none, e, bits, true),
        _ => match s {
            Operand::Imm(n) => if byte {
                spec_gen_ins(ins, [0xC6u8]@, (true, Some(0u8), None), n.spec_low_bytes(1), bits, false)
            } else {
                spec_gen_ins(
                    ins,
                    [0xC7u8]@,
                    (true, Some(0u8), None),
                    n.spec_low_bytes(spec_imm_width(ins.spec_size()) as nat),
                    bits,
                    false,
                )
            },
            Operand::SegReg(_) => spec_gen_ins(ins, [0x8Cu8]@, none, e, bits, false),
            _ => spec_gen_ins(ins, [if byte { 0x88u8 } else { 0x89u8 }]@, none, e, bits, false),
        },
    }
}

fn mov_reg_imm(ins: &Instruction, r: Register, n: Number, bits: u8) -> (out: Vec<u8>)
    ensures
        out@ == spec_mov_reg_imm(*ins, r, n, bits),
        2 <= out@.len() <= 15,
{
    match r.size() {
        Size::Byte => bs_imm(ins, &[0xB0 + r.to_byte()], n.low_bytes(1).as_slice(), bits, false),
        Size::Word => bs_imm(ins, &[0xB8 + r.to_byte()], n.low_bytes(2).as_slice(), bits, false),
        Size::Dword => bs_imm(ins, &[0xB8 + r.to_byte()], n.low_bytes(4).as_slice(), bits, false),
        _ => if n.fits_i32() {
            gen_ins(ins, &[0xC7], (true, Some(0), None), Some(n.low_bytes(4)), bits, false)
        } else {
            bs_imm(ins, &[0xB8 + r.to_byte()], n.low_bytes(8).as_slice(), bits, false)
        },
    }
}

/// Computes `spec_ins_mov`.
pub fn ins_mov(ins: &Instruction, bits: u8) -> (out: Vec<u8>)
    requires
        can_mov(*ins),
    ensures
        out@ == spec_ins_mov(*ins, bits),
        2 <= out@.len() <= 15,
{
    let none: (bool, Option<u8>, Option<u8>) = (true, None, None);
    let byte = ins.size() == Size::Byte;
    match (ins.dst(), ins.src()) {
        (Some(d), Some(s)) => match d {
            Operand::Reg(r) => match s {
                Operand::SegReg(_) => gen_ins(ins, &[0x8C], none, None, bits, false),
                Operand::CtrReg(_) => gen_ins(ins, &[0x0F, 0x20], none, None, bits, false),
                Operand::DbgReg(_) => gen_ins(ins, &[0x0F, 0x21], none, None, bits, false),
                Operand::Imm(n) => mov_reg_imm(ins, *r, *n, bits),
                Operand::Reg(_) => gen_ins(ins, &[if byte { 0x88 } else { 0x89 }], none, None, bits, false),
                _ => gen_ins(ins, &[if byte { 0x8A } else { 0x8B }], none, None, bits, false),
            },
            Operand::CtrReg(_) => gen_ins(ins, &[0x0F, 0x22], none, None, bits, true),
            Operand::DbgReg(_) => gen_ins(ins, &[0x0F, 0x23], none, None, bits, true),
            Operand::SegReg(_) => gen_ins(ins, &[0x8E], none, None, bits, true),
            _ => match s {
                Operand::Imm(n) => if byte {
                    gen_ins(ins, &[0xC6], (true, Some(0), None), Some(n.low_bytes(1)), bits, false)
                } else {
                    gen_ins(
                        ins,
                        &[0xC7],
                        (true, Some(0), None),
                        Some(n.low_bytes(imm_width(ins.size()))),
                        bits,
                        false,
                    )
                },
                Operand::SegReg(_) => gen_ins(ins, &[0x8C], none, None, bits, false),
                _ => gen_ins(ins, &[if byte { 0x88 } else { 0x89 }], none, None, bits, false),
            },
        },
        _ => Vec::new(),
    }
}

/// Whether an operand is the byte accumulator AL.
pub open spec fn is_al(o: Operand) -> bool {
    o matches Operand::Reg(Register::AL)
}

/// Whether an operand is one of the accumulators AX, EAX and RAX.
pub open spec fn is_wide_acc(o: Operand) -> bool {
    o matches Operand::Reg(r) && (r == Register::AX || r == Register::EAX || r == Register::RAX)
}

fn al(o: &Operand) -> (r: bool)
    ensures
        r == is_al(*o),
{
    match o {
        Operand::Reg(Register::AL) => true,
        _ => false,
    }
}

fn wide_acc(o: &Operand) -> (r: bool)
    ensures
        r == is_wide_acc(*o),
{
    match o {
        Operand::Reg(Register::AX) | Operand::Reg(Register::EAX) | Operand::Reg(Register::RAX) => true,
        _ => false,
    }
}

/// The inputs that the two-operand arithmetic and logic family encodes:
/// register or memory with an immediate, register with register or memory,
/// memory with register, at one of the four general-purpose widths.
pub open spec fn can_add_like(ins: Instruction) -> bool {
    match (ins.spec_dst(), ins.spec_src()) {
        (Some(d), Some(s)) => ins.spec_size().spec_is_gpr_width() && ((is_rm(d) && s is Imm) || (d is Reg
            && is_rm(s)) || (d.spec_is_mem() && s is Reg)),
        _ => false,
    }
}

/// The two-operand arithmetic and logic family. `opc` holds the nine
/// opcodes of the mnemonic, `ext` its opcode extension.
///
/// With an immediate: for bytes `opc[0] ib` into AL and `opc[2] /ext ib`
/// elsewhere; for the wider operations `opc[4] /ext ib` where the value fits
/// a signed byte, else `opc[1]` into AX, EAX and RAX and `opc[3] /ext`
/// elsewhere, with two immediate bytes for a word and four otherwise.
/// Without one: `opc[5]`/`opc[6]` where the source is a register and
/// `opc[7]`/`opc[8]` where it is memory, the first of each pair for bytes.
pub open spec fn spec_add_like_ins(ins: Instruction, opc: Seq<u8>, ext: u8, bits: u8) -> Seq<u8> {
    let d = ins.spec_dst().unwrap();
    let s = ins.spec_src().unwrap();
    let sz = ins.spec_size();
    let e = Seq::<u8>::empty();
    match s {
        Operand::Imm(n) => if sz == Size::Byte {
            if is_al(d) {
                spec_bs_imm(ins, [opc[0]]@, n.spec_low_bytes(1), bits, false)
            } else {
                spec_gen_ins(ins, [opc[2]]@, (true, Some(ext), None), n.spec_low_bytes(1), bits, false)
            }
        } else if n.spec_fits_i8() {
            spec_gen_ins(ins, [opc[4]]@, (true, Some(ext), None), n.spec_low_bytes(1), bits, false)
        } else if is_wide_acc(d) {
            spec_bs_imm(ins, [opc[1]]@, n.spec_low_bytes(spec_imm_width(sz) as nat), bits, false)
        } else {
            spec_gen_ins(
                ins,
                [opc[3]]@,
                (true, Some(ext), None),
                n.spec_low_bytes(spec_imm_width(sz) as nat),
                bits,
                false,
            )
        },
        _ => if s.spec_is_mem() {
            spec_gen_ins(ins, [if sz == Size::Byte { opc[7] } else { opc[8] }]@, (true, None, None), e, bits, false)
        } else {
            spec_gen_ins(ins, [if sz == Size::Byte { opc[5] } else { opc[6] }]@, (true, None, None), e, bits, false)
        },
    }
}

/// Computes `spec_add_like_ins`.
pub fn add_like_ins(ins: &Instruction, opc: &[u8; 9], ovrreg: u8, bits: u8) -> (out: Vec<u8>)
    requires
        can_add_like(*ins),
        ovrreg < 8,
    ensures
        out@ == spec_add_like_ins(*ins, opc@, ovrreg, bits),
        2 <= out@.len() <= 15,
{
    let sz = ins.size();
    match (ins.dst(), ins.src()) {
        (Some(d), Some(s)) => match s {
            Operand::Imm(n) => if sz == Size::Byte {
                if al(d) {
                    bs_imm(ins, &[opc[0]], n.low_bytes(1).as_slice(), bits, false)
                } else {
                    gen_ins(ins, &[opc[2]], (true, Some(ovrreg), None), Some(n.low_bytes(1)), bits, false)
                }
            } else if n.fits_i8() {
                gen_ins(ins, &[opc[4]], (true, Some(ovrreg), None), Some(n.low_bytes(1)), bits, false)
            } else if wide_acc(d) {
                bs_imm(ins, &[opc[1]], n.low_bytes(imm_width(sz)).as_slice(), bits, false)
            } else {
                gen_ins(
                    ins,
                    &[opc[3]],
                    (true, Some(ovrreg), None),
                    Some(n.low_bytes(imm_width(sz))),
                    bits,
                    false,
                )
            },
            _ => if s.is_mem() {
                gen_ins(ins, &[if sz == Size::Byte { opc[7] } else { opc[8] }], (true, None, None), None, bits, false)
            } else {
                gen_ins(ins, &[if sz == Size::Byte { opc[5] } else { opc[6] }], (true, None, None), None, bits, false)
            },
        },
        _ => Vec::new(),
    }
}

/// The nine opcodes of the comparison, in the order of the arithmetic family.
pub open spec fn compare_opcodes() -> Seq<u8> {
    [0x3Cu8, 0x3Du8, 0x80u8, 0x81u8, 0x83u8, 0x38u8, 0x39u8, 0x3Au8, 0x3Bu8]@
}

/// CMP: the arithmetic and logic family with the opcodes of the comparison and
/// the opcode extension 7.
pub fn ins_cmp(ins: &Instruction, bits: u8) -> (out: Vec<u8>)
    requires
        can_add_like(*ins),
    ensures
        out@ == spec_add_like_ins(*ins, compare_opcodes(), 7, bits),
        2 <= out@.len() <= 15,
{
    add_like_ins(ins, &[0x3C, 0x3D, 0x80, 0x81, 0x83, 0x38, 0x39, 0x3A, 0x3B], 7, bits)
}

/// The inputs that `ins_test` encodes: register or memory with an immediate
/// or a register, at one of the four general-purpose widths.
pub open spec fn can_test(ins: Instruction) -> bool {
    match (ins.spec_dst(), ins.spec_src()) {
        (Some(d), Some(s)) => ins.spec_size().spec_is_gpr_width() && is_rm(d) && (s is Imm || s is Reg),
        _ => false,
    }
}

/// TEST. With an immediate: `A8 ib` into AL and `F6 /0 ib` into other bytes;
/// `A9` into AX, EAX and RAX and `F7 /0` elsewhere, with two immediate bytes
/// for a word and four otherwise. With a register: `84`, or `85` for the
/// wider operations.
pub open spec fn spec_ins_test(ins: Instruction, bits: u8) -> Seq<u8> {
    let d = ins.spec_dst().unwrap();
    let s = ins.spec_src().unwrap();
    let sz = ins.spec_size();
    match s {
        Operand::Imm(n) => if sz == Size::Byte {
            if is_al(d) {
                spec_bs_imm(ins, [0xA8u8]@, n.spec_low_bytes(1), bits, false)
            } else {
                spec_gen_ins(ins, [0xF6u8]@, (true, Some(0u8), None), n.spec_low_bytes(1), bits, false)
            }
        } else if is_wide_acc(d) {
            spec_bs_imm(ins, [0xA9u8]@, n.spec_low_bytes(spec_imm_width(sz) as nat), bits, false)
        } else {
            spec_gen_ins(
                ins,
                [0xF7u8]@,
                (true, Some(0u8), None),
                n.spec_low_bytes(spec_imm_width(sz) as nat),
                bits,
                false,
            )
        },
        _ => spec_gen_ins(
            ins,
            [if sz == Size::Byte { 0x84u8 } else { 0x85u8 }]@,
            (true, None, None),
            Seq::empty(),
            bits,
            false,
        ),
    }
}

/// Computes `spec_ins_test`.
pub fn ins_test(ins: &Instruction, bits: u8) -> (out: Vec<u8>)
    requires
        can_test(*ins),
    ensures
        out@ == spec_ins_test(*ins, bits),
        2 <= out@.len() <= 15,
{
    let sz = ins.size();
    match (ins.dst(), ins.src()) {
        (Some(d), Some(s)) => match s {
            Operand::Imm(n) => if sz == Size::Byte {
                if al(d) {
                    bs_imm(ins, &[0xA8], n.low_bytes(1).as_slice(), bits, false)
                } else {
                    gen_ins(ins, &[0xF6], (true, Some(0), None), Some(n.low_bytes(1)), bits, false)
                }
            } else if wide_acc(d) {
                bs_imm(ins, &[0xA9], n.low_bytes(imm_width(sz)).as_slice(), bits, false)
            } else {
                gen_ins(ins, &[0xF7], (true, Some(0), None), Some(n.low_bytes(imm_width(sz))), bits, false)
            },
            _ => gen_ins(ins, &[if sz == Size::Byte { 0x84 } else { 0x85 }], (true, None, None), None, bits, false),
        },
        _ => Vec::new(),
    }
}

/// The inputs that `ins_imul` encodes: at least a destination.
pub open spec fn can_imul(ins: Instruction) -> bool {
    ins.spec_dst() is Some
}

/// IMUL. With one operand `F6 /5`, or `F7 /5` for the wider operations. With
/// a third operand that is an immediate, `6B /r ib` where the value fits a
/// signed byte, else `69 /r` with two immediate bytes for a word and four
/// otherwise. Else `0F AF /r`. The destination stands in the `reg` field.
pub open spec fn spec_ins_imul(ins: Instruction, bits: u8) -> Seq<u8> {
    let none = (true, None::<u8>, None::<u8>);
    match ins.spec_src() {
        None => spec_gen_ins(
            ins,
            [if ins.spec_size() == Size::Byte { 0xF6u8 } else { 0xF7u8 }]@,
            (true, Some(5u8), None),
            Seq::empty(),
            bits,
            false,
        ),
        Some(_) => match ins.spec_src2() {
            Some(Operand::Imm(n)) => if n.spec_fits_i8() {
                spec_gen_ins(ins, [0x6Bu8]@, none, n.spec_low_bytes(1), bits, true)
            } else {
                spec_gen_ins(ins, [0x69u8]@, none, n.spec_low_bytes(spec_imm_width(ins.spec_size()) as nat), bits, true)
            },
            _ => spec_gen_ins(ins, [0x0Fu8, 0xAFu8]@, none, Seq::empty(), bits, true),
        },
    }
}

/// Computes `spec_ins_imul`.
pub fn ins_imul(ins: &Instruction, bits: u8) -> (out: Vec<u8>)
    requires
        can_imul(*ins),
    ensures
        out@ == spec_ins_imul(*ins, bits),
        2 <= out@.len() <= 15,
{
    let none: (bool, Option<u8>, Option<u8>) = (true, None, None);
    match ins.src() {
        None => gen_ins(
            ins,
            &[if ins.size() == Size::Byte { 0xF6 } else { 0xF7 }],
            (true, Some(5), None),
            None,
            bits,
            false,
        ),
        Some(_) => match ins.src2() {
            Some(Operand::Imm(n)) => if n.fits_i8() {
                gen_ins(ins, &[0x6B], none, Some(n.low_bytes(1)), bits, true)
            } else {
                gen_ins(ins, &[0x69], none, Some(n.low_bytes(imm_width(ins.size()))), bits, true)
            },
            _ => gen_ins(ins, &[0x0F, 0xAF], none, None, bits, true),
        },
    }
}

/// The inputs that the shift family encodes: a destination, and a source
/// that is the register CL or an immediate.
pub open spec fn can_shllike(ins: Instruction) -> bool {
    ins.spec_dst() is Some && match ins.spec_src() {
        Some(Operand::Reg(r)) => r == Register::CL,
        Some(Operand::Imm(_)) => true,
        _ => false,
    }
}

/// The shift family. `opc` holds, for bytes and then for the wider
/// operations, the opcodes of the shift by one, by CL and by an immediate
/// byte; `ext` is the opcode extension of the mnemonic.
pub open spec fn spec_ins_shllike(ins: Instruction, opc: Seq<u8>, ext: u8, bits: u8) -> Seq<u8> {
    let w: int = if opt_size(ins.spec_dst()) == Size::Byte {
        0
    } else {
        3
    };
    match ins.spec_src() {
        Some(Operand::Imm(n)) => if n.spec_value() == 1 {
            spec_gen_ins(ins, [opc[w]]@, (true, Some(ext), None), Seq::empty(), bits, false)
        } else {
            spec_gen_ins(ins, [opc[w + 2]]@, (true, Some(ext), None), n.spec_low_bytes(1), bits, false)
        },
        _ => spec_gen_ins(ins, [opc[w + 1]]@, (true, Some(ext), None), Seq::empty(), bits, false),
    }
}

fn is_one(n: &Number) -> (r: bool)
    ensures
        r == (n.spec_value() == 1),
{
    match n {
        Number::UInt8(v) => *v == 1,
        Number::UInt16(v) => *v == 1,
        Number::UInt32(v) => *v == 1,
        Number::UInt64(v) => *v == 1,
        Number::Int8(v) => *v == 1,
        Number::Int16(v) => *v == 1,
        Number::Int32(v) => *v == 1,
        Number::Int64(v) => *v == 1,
    }
}

/// Computes `spec_ins_shllike`.
pub fn ins_shllike(ins: &Instruction, opc: &[u8; 6], ovr: u8, bits: u8) -> (out: Vec<u8>)
    requires
        can_shllike(*ins),
        ovr < 8,
    ensures
        out@ == spec_ins_shllike(*ins, opc@, ovr, bits),
        2 <= out@.len() <= 12,
{
    let w: usize = match ins.dst() {
        Some(d) => if d.size() == Size::Byte {
            0
        } else {
            3
        },
        None => 3,
    };
    match ins.src() {
        Some(Operand::Imm(n)) => if is_one(n) {
            gen_ins(ins, &[opc[w]], (true, Some(ovr), None), None, bits, false)
        } else {
            gen_ins(ins, &[opc[w + 2]], (true, Some(ovr), None), Some(n.low_bytes(1)), bits, false)
        },
        _ => gen_ins(ins, &[opc[w + 1]], (true, Some(ovr), None), None, bits, false),
    }
}

/// A one-operand instruction with an opcode extension: `opc[0]` for bytes,
/// `opc[1]` for the wider operations.
pub open spec fn spec_ins_inclike(ins: Instruction, opc: Seq<u8>, ext: u8, bits: u8) -> Seq<u8> {
    spec_gen_ins(
        ins,
        [if opt_size(ins.spec_dst()) == Size::Byte { opc[0] } else { opc[1] }]@,
        (true, Some(ext), None),
        Seq::empty(),
        bits,
        false,
    )
}

/// Computes `spec_ins_inclike`.
pub fn ins_inclike(ins: &Instruction, opc: &[u8; 2], ovr: u8, bits: u8) -> (out: Vec<u8>)
    requires
        ovr < 8,
    ensures
        out@ == spec_ins_inclike(*ins, opc@, ovr, bits),
        2 <= out@.len() <= 11,
{
    let byte = match ins.dst() {
        Some(d) => d.size() == Size::Byte,
        None => false,
    };
    gen_ins(ins, &[if byte { opc[0] } else { opc[1] }], (true, Some(ovr), None), None, bits, false)
}

/// The opcodes of the one-operand multiplications and divisions.
pub open spec fn divmul_opcodes() -> Seq<u8> {
    [0xF6u8, 0xF7u8]@
}

/// The one-operand multiplications and divisions: `F6 /ext` for bytes,
/// `F7 /ext` for the wider operations.
pub fn ins_divmul(ins: &Instruction, ovr: u8, bits: u8) -> (out: Vec<u8>)
    requires
        ovr < 8,
    ensures
        out@ == spec_ins_inclike(*ins, divmul_opcodes(), ovr, bits),
        2 <= out@.len() <= 11,
{
    ins_inclike(ins, &[0xF6, 0xF7], ovr, bits)
}

/// The inputs that `ins_lea` encodes: a register and a symbol.
pub open spec fn can_lea(ins: Instruction) -> bool {
    ins.spec_dst() matches Some(Operand::Reg(_)) && ins.spec_src() matches Some(Operand::SymbolRef(_))
}

/// LEA of a symbol: `8D /r` with `mod` 00 and `r/m` 100, the SIB byte 25h
/// that stands for a bare 32-bit address, and four zero bytes for the linker
/// to fill.
pub open spec fn spec_ins_lea(ins: Instruction, bits: u8) -> Seq<u8> {
    spec_gen_base(ins, [0x8Du8]@, bits, true) + seq![
        (4 + 8 * ins.spec_dst().unwrap().spec_reg().unwrap().spec_to_byte()) as u8,
        0x25u8,
        0u8,
        0u8,
        0u8,
        0u8,
    ]
}

/// The relocation of a LEA: the signed 32-bit address of the symbol, four
/// bytes wide, where the zero bytes stand.
pub open spec fn spec_lea_reloc(ins: Instruction, bits: u8) -> RelocationView {
    RelocationView {
        rtype: RType::S32,
        symbol: ins.spec_src().unwrap()->SymbolRef_0@,
        offset: (spec_gen_base(ins, [0x8Du8]@, bits, true).len() + 2) as u64,
        addend: 0,
        size: 4,
        catg: RCategory::Lea,
    }
}

/// Computes `spec_ins_lea`.
pub fn ins_lea(ins: &Instruction, bits: u8) -> (out: (Vec<u8>, Option<Relocation>))
    requires
        can_lea(*ins),
    ensures
        out.0@ == spec_ins_lea(*ins, bits),
        out.1 is Some,
        out.1.unwrap()@ == spec_lea_reloc(*ins, bits),
        7 <= out.0@.len() <= 11,
        out.1.unwrap().offset + 4 == out.0@.len(),
{
    let mut base = gen_base(ins, &[0x8D], bits, true);
    let modrm: u8 = match ins.dst() {
        Some(Operand::Reg(r)) => 4 + 8 * r.to_byte(),
        _ => 4,
    };
    let blen = base.len();
    base.push(modrm);
    base.push(0x25);
    base.push(0);
    base.push(0);
    base.push(0);
    base.push(0);
    let symbol: String = match ins.src() {
        Some(Operand::SymbolRef(s)) => s.clone(),
        _ => String::new(),
    };
    let rel = Relocation {
        rtype: RType::S32,
        symbol,
        offset: (blen + 2) as u64,
        addend: 0,
        size: 4,
        catg: RCategory::Lea,
    };
    (base, Some(rel))
}

/// The inputs that the jump family encodes: a symbol, or a register or
/// memory where the mnemonic has an indirect form.
pub open spec fn can_jmplike(ins: Instruction, opc: Seq<u8>) -> bool {
    match ins.spec_dst() {
        Some(Operand::SymbolRef(_)) => true,
        Some(d) => is_rm(d) && opc.len() > 0,
        None => false,
    }
}

/// The jump family. To a symbol: the opcode `rel` of the 32-bit relative
/// form and four zero bytes for the linker to fill. To a register or memory:
/// the opcode `ind` with the opcode extension `ext`.
pub open spec fn spec_ins_jmplike(ins: Instruction, rel: Seq<u8>, ind: Seq<u8>, ext: u8, bits: u8) -> Seq<u8> {
    match ins.spec_dst() {
        Some(Operand::SymbolRef(_)) => rel + seq![0u8, 0u8, 0u8, 0u8],
        _ => spec_gen_ins(ins, ind, (true, Some(ext), None), Seq::empty(), bits, false),
    }
}

/// The relocation of a jump to a symbol: relative to the next instruction,
/// hence the addend -4, four bytes wide, right behind the opcode.
pub open spec fn spec_jmplike_reloc(ins: Instruction, rel: Seq<u8>) -> Option<RelocationView> {
    match ins.spec_dst() {
        Some(Operand::SymbolRef(s)) => Some(
            RelocationView {
                rtype: RType::PCRel32,
                symbol: s@,
                offset: rel.len() as u64,
                addend: -4i32,
                size: 4,
                catg: RCategory::Jump,
            },
        ),
        _ => None,
    }
}

/// The view of an optional relocation.
pub open spec fn reloc_view(r: Option<Relocation>) -> Option<RelocationView> {
    match r {
        Some(r) => Some(r@),
        None => None,
    }
}

/// Encodes a jump or call: to a symbol by the relative form with its
/// relocation, to a register or memory by the indirect form.
pub fn ins_jmplike(ins: &Instruction, rel: &[u8], ind: &[u8], addt: u8, bits: u8) -> (out: (
    Vec<u8>,
    Option<Relocation>,
))
    requires
        can_jmplike(*ins, ind@),
        !(ins.spec_dst() matches Some(Operand::SymbolRef(_))) ==> addt < 8,
    ensures
        out.0@ == spec_ins_jmplike(*ins, rel@, ind@, addt, bits),
        reloc_view(out.1) == spec_jmplike_reloc(*ins, rel@),
        1 <= out.0@.len() <= rel@.len() + ind@.len() + 10,
{
    match ins.dst() {
        Some(Operand::SymbolRef(s)) => {
            let r = Relocation {
                rtype: RType::PCRel32,
                symbol: s.clone(),
                offset: rel.len() as u64,
                addend: -4i32,
                size: 4,
                catg: RCategory::Jump,
            };
            let mut opc: Vec<u8> = Vec::new();
            opc.extend_from_slice(rel);
            opc.push(0);
            opc.push(0);
            opc.push(0);
            opc.push(0);
            (opc, Some(r))
        },
        _ => (gen_ins(ins, ind, (true, Some(addt), None), None, bits, false), None),
    }
}

/// The bytes of an instruction that is encoded the same whatever its
/// operands; none for any other mnemonic.
pub open spec fn spec_fixed_bytes(m: Mnemonic) -> Option<Seq<u8>> {
    match m {
        Mnemonic::RET => Some(seq![0xC3u8]),
        Mnemonic::SYSCALL => Some(seq![0x0Fu8, 0x05u8]),
        Mnemonic::NOP => Some(seq![0x90u8]),
        Mnemonic::PUSHF | Mnemonic::PUSHFD | Mnemonic::PUSHFQ => Some(seq![0x9Cu8]),
        Mnemonic::POPF | Mnemonic::POPFD | Mnemonic::POPFQ => Some(seq![0x9Du8]),
        Mnemonic::PAUSE => Some(seq![0xF3u8, 0x90u8]),
        Mnemonic::MWAIT => Some(seq![0x0Fu8, 0x01u8, 0xC9u8]),
        Mnemonic::MONITOR => Some(seq![0x0Fu8, 0x01u8, 0xC8u8]),
        Mnemonic::MFENCE => Some(seq![0x0Fu8, 0xAEu8, 0xF0u8]),
        Mnemonic::LFENCE => Some(seq![0x0Fu8, 0xAEu8, 0xE8u8]),
        Mnemonic::EMMS => Some(seq![0x0Fu8, 0x77u8]),
        _ => None,
    }
}

fn fixed_bytes(m: Mnemonic) -> (r: Option<Vec<u8>>)
    ensures
        r is Some == spec_fixed_bytes(m) is Some,
        r is Some ==> r.unwrap()@ == spec_fixed_bytes(m).unwrap(),
        r is Some ==> 1 <= r.unwrap()@.len() <= 3,
{
    match m {
        Mnemonic::RET => Some(vec![0xC3]),
        Mnemonic::SYSCALL => Some(vec![0x0F, 0x05]),
        Mnemonic::NOP => Some(vec![0x90]),
        Mnemonic::PUSHF | Mnemonic::PUSHFD | Mnemonic::PUSHFQ => Some(vec![0x9C]),
        Mnemonic::POPF | Mnemonic::POPFD | Mnemonic::POPFQ => Some(vec![0x9D]),
        Mnemonic::PAUSE => Some(vec![0xF3, 0x90]),
        Mnemonic::MWAIT => Some(vec![0x0F, 0x01, 0xC9]),
        Mnemonic::MONITOR => Some(vec![0x0F, 0x01, 0xC8]),
        Mnemonic::MFENCE => Some(vec![0x0F, 0xAE, 0xF0]),
        Mnemonic::LFENCE => Some(vec![0x0F, 0xAE, 0xE8]),
        Mnemonic::EMMS => Some(vec![0x0F, 0x77]),
        _ => None,
    }
}

/// The nine opcodes of a mnemonic of the arithmetic and logic family, in
/// the order that `spec_add_like_ins` reads them.
pub open spec fn arith_opcodes(m: Mnemonic) -> Seq<u8> {
    match m {
        Mnemonic::ADD => [0x04u8, 0x05u8, 0x80u8, 0x81u8, 0x83u8, 0x00u8, 0x01u8, 0x02u8, 0x03u8]@,
        Mnemonic::OR => [0x0Cu8, 0x0Du8, 0x80u8, 0x81u8, 0x83u8, 0x08u8, 0x09u8, 0x0Au8, 0x0Bu8]@,
        Mnemonic::AND => [0x24u8, 0x25u8, 0x80u8, 0x81u8, 0x83u8, 0x20u8, 0x21u8, 0x22u8, 0x23u8]@,
        Mnemonic::SUB => [0x2Cu8, 0x2Du8, 0x80u8, 0x81u8, 0x83u8, 0x28u8, 0x29u8, 0x2Au8, 0x2Bu8]@,
        Mnemonic::XOR => [0x34u8, 0x35u8, 0x80u8, 0x81u8, 0x83u8, 0x30u8, 0x31u8, 0x32u8, 0x33u8]@,
        _ => compare_opcodes(),
    }
}

/// The opcode extension of a mnemonic that has one.
pub open spec fn opcode_ext(m: Mnemonic) -> u8 {
    match m {
        Mnemonic::ADD | Mnemonic::INC => 0,
        Mnemonic::OR | Mnemonic::DEC => 1,
        Mnemonic::NOT | Mnemonic::CALL => 2,
        Mnemonic::NEG => 3,
        Mnemonic::AND | Mnemonic::SAL | Mnemonic::SHL | Mnemonic::MUL | Mnemonic::JMP => 4,
        Mnemonic::SUB | Mnemonic::SHR => 5,
        Mnemonic::XOR | Mnemonic::DIV => 6,
        Mnemonic::CMP | Mnemonic::SAR | Mnemonic::IDIV | Mnemonic::CLFLUSH => 7,
        _ => 0,
    }
}

/// The six opcodes of the shift family.
pub open spec fn shift_opcodes() -> Seq<u8> {
    [0xD0u8, 0xD2u8, 0xC0u8, 0xD1u8, 0xD3u8, 0xC1u8]@
}

/// The opcodes of INC and DEC.
pub open spec fn incdec_opcodes() -> Seq<u8> {
    [0xFEu8, 0xFFu8]@
}

/// Whether a mnemonic is a jump or a call.
pub open spec fn is_jump(m: Mnemonic) -> bool {
    match m {
        Mnemonic::JMP | Mnemonic::CALL | Mnemonic::JE | Mnemonic::JZ | Mnemonic::JNE | Mnemonic::JNZ
        | Mnemonic::JL | Mnemonic::JLE | Mnemonic::JG | Mnemonic::JGE => true,
        _ => false,
    }
}

/// The opcode of the 32-bit relative form of a jump or call.
pub open spec fn jump_rel(m: Mnemonic) -> Seq<u8> {
    match m {
        Mnemonic::JMP => [0xE9u8]@,
        Mnemonic::CALL => [0xE8u8]@,
        Mnemonic::JE | Mnemonic::JZ => [0x0Fu8, 0x84u8]@,
        Mnemonic::JNE | Mnemonic::JNZ => [0x0Fu8, 0x85u8]@,
        Mnemonic::JL => [0x0Fu8, 0x8Cu8]@,
        Mnemonic::JLE => [0x0Fu8, 0x8Eu8]@,
        Mnemonic::JG => [0x0Fu8, 0x8Fu8]@,
        _ => [0x0Fu8, 0x8Du8]@,
    }
}

/// The opcode of the indirect form of a jump or call; empty where the
/// mnemonic has none.
pub open spec fn jump_ind(m: Mnemonic) -> Seq<u8> {
    match m {
        Mnemonic::JMP | Mnemonic::CALL => [0xFFu8]@,
        _ => Seq::empty(),
    }
}

/// Whether one of the operands is a symbol.
pub open spec fn has_symbol(ins: Instruction) -> bool {
    exists|i: int| 0 <= i < ins.oprs@.len() && ins.oprs@[i] is SymbolRef
}

/// Whether the instruction is one that turns a symbol into a relocation: a
/// jump or call whose destination is the symbol, or LEA.
pub open spec fn takes_symbol(ins: Instruction) -> bool {
    (is_jump(ins.mnem) && ins.spec_dst() matches Some(Operand::SymbolRef(_))) || ins.mnem
        == Mnemonic::LEA
}

/// Whether a mnemonic belongs to a family with a shape of operands of its
/// own.
pub open spec fn has_family(m: Mnemonic) -> bool {
    match m {
        Mnemonic::PUSH | Mnemonic::POP | Mnemonic::MOV | Mnemonic::ADD | Mnemonic::OR | Mnemonic::AND
        | Mnemonic::SUB | Mnemonic::XOR | Mnemonic::CMP | Mnemonic::SAL | Mnemonic::SHL | Mnemonic::SHR
        | Mnemonic::SAR | Mnemonic::TEST | Mnemonic::INC | Mnemonic::DEC | Mnemonic::NOT | Mnemonic::NEG
        | Mnemonic::DIV | Mnemonic::IDIV | Mnemonic::MUL | Mnemonic::CLFLUSH | Mnemonic::IMUL
        | Mnemonic::JMP | Mnemonic::CALL | Mnemonic::JE | Mnemonic::JZ | Mnemonic::JNE | Mnemonic::JNZ
        | Mnemonic::JL | Mnemonic::JLE | Mnemonic::JG | Mnemonic::JGE | Mnemonic::LEA => true,
        _ => false,
    }
}

/// Whether the operands of an instruction with a family have a shape that
/// the family encodes.
pub open spec fn family_takes(ins: Instruction) -> bool {
    match ins.mnem {
        Mnemonic::PUSH => can_push(ins),
        Mnemonic::POP => can_pop(ins),
        Mnemonic::MOV => can_mov(ins),
        Mnemonic::ADD | Mnemonic::OR | Mnemonic::AND | Mnemonic::SUB | Mnemonic::XOR | Mnemonic::CMP => can_add_like(
            ins,
        ),
        Mnemonic::SAL | Mnemonic::SHL | Mnemonic::SHR | Mnemonic::SAR => can_shllike(ins),
        Mnemonic::TEST => can_test(ins),
        Mnemonic::IMUL => can_imul(ins),
        Mnemonic::JMP | Mnemonic::CALL | Mnemonic::JE | Mnemonic::JZ | Mnemonic::JNE | Mnemonic::JNZ
        | Mnemonic::JL | Mnemonic::JLE | Mnemonic::JG | Mnemonic::JGE => can_jmplike(
            ins,
            jump_ind(ins.mnem),
        ),
        Mnemonic::LEA => can_lea(ins),
        _ => true,
    }
}

/// The instructions that `compile_instruction` encodes. The mnemonic is one
/// that the encoder knows, the operands have a shape that its family
/// encodes, and a symbol stands only where it becomes a relocation.
pub open spec fn encodable(ins: Instruction) -> bool {
    (has_symbol(ins) ==> takes_symbol(ins)) && (if has_family(ins.mnem) {
        family_takes(ins)
    } else {
        can_comp_rest(ins)
    })
}

/// The bytes of an instruction in a mode of `bits` bits.
pub open spec fn spec_compile(ins: Instruction, bits: u8) -> Seq<u8> {
    let m = ins.mnem;
    match m {
        Mnemonic::PUSH => spec_ins_push(ins, bits),
        Mnemonic::POP => spec_ins_pop(ins, bits),
        Mnemonic::MOV => spec_ins_mov(ins, bits),
        Mnemonic::ADD | Mnemonic::OR | Mnemonic::AND | Mnemonic::SUB | Mnemonic::XOR | Mnemonic::CMP => spec_add_like_ins(
            ins,
            arith_opcodes(m),
            opcode_ext(m),
            bits,
        ),
        Mnemonic::SAL | Mnemonic::SHL | Mnemonic::SHR | Mnemonic::SAR => spec_ins_shllike(
            ins,
            shift_opcodes(),
            opcode_ext(m),
            bits,
        ),
        Mnemonic::TEST => spec_ins_test(ins, bits),
        Mnemonic::INC | Mnemonic::DEC | Mnemonic::NOT | Mnemonic::NEG | Mnemonic::DIV | Mnemonic::IDIV
        | Mnemonic::MUL => spec_ins_inclike(ins, unary_opcodes(m), opcode_ext(m), bits),
        Mnemonic::IMUL => spec_ins_imul(ins, bits),
        Mnemonic::JMP | Mnemonic::CALL | Mnemonic::JE | Mnemonic::JZ | Mnemonic::JNE | Mnemonic::JNZ
        | Mnemonic::JL | Mnemonic::JLE | Mnemonic::JG | Mnemonic::JGE => spec_ins_jmplike(
            ins,
            jump_rel(m),
            jump_ind(m),
            opcode_ext(m),
            bits,
        ),
        Mnemonic::LEA => spec_ins_lea(ins, bits),
        Mnemonic::CLFLUSH => spec_gen_ins(
            ins,
            [0x0Fu8, 0xAEu8]@,
            (true, Some(7u8), None),
            Seq::empty(),
            bits,
            false,
        ),
        _ => spec_comp_rest(ins, bits),
    }
}

/// The relocation of an instruction: that of a jump or call to a symbol and
/// that of LEA; none for any other instruction.
pub open spec fn spec_reloc(ins: Instruction, bits: u8) -> Option<RelocationView> {
    if is_jump(ins.mnem) {
        spec_jmplike_reloc(ins, jump_rel(ins.mnem))
    } else if ins.mnem == Mnemonic::LEA {
        Some(spec_lea_reloc(ins, bits))
    } else {
        None
    }
}

fn comp_arith(ins: &Instruction, bits: u8) -> (out: Vec<u8>)
    requires
        can_add_like(*ins),
        ins.mnem == Mnemonic::ADD || ins.mnem == Mnemonic::OR || ins.mnem == Mnemonic::AND || ins.mnem
            == Mnemonic::SUB || ins.mnem == Mnemonic::XOR,
    ensures
        out@ == spec_add_like_ins(*ins, arith_opcodes(ins.mnem), opcode_ext(ins.mnem), bits),
        2 <= out@.len() <= 15,
{
    match ins.mnem {
        Mnemonic::ADD => add_like_ins(ins, &[0x04, 0x05, 0x80, 0x81, 0x83, 0x00, 0x01, 0x02, 0x03], 0, bits),
        Mnemonic::OR => add_like_ins(ins, &[0x0C, 0x0D, 0x80, 0x81, 0x83, 0x08, 0x09, 0x0A, 0x0B], 1, bits),
        Mnemonic::AND => add_like_ins(ins, &[0x24, 0x25, 0x80, 0x81, 0x83, 0x20, 0x21, 0x22, 0x23], 4, bits),
        Mnemonic::SUB => add_like_ins(ins, &[0x2C, 0x2D, 0x80, 0x81, 0x83, 0x28, 0x29, 0x2A, 0x2B], 5, bits),
        _ => add_like_ins(ins, &[0x34, 0x35, 0x80, 0x81, 0x83, 0x30, 0x31, 0x32, 0x33], 6, bits),
    }
}

fn comp_shift(ins: &Instruction, bits: u8) -> (out: Vec<u8>)
    requires
        can_shllike(*ins),
        ins.mnem == Mnemonic::SAL || ins.mnem == Mnemonic::SHL || ins.mnem == Mnemonic::SHR || ins.mnem
            == Mnemonic::SAR,
    ensures
        out@ == spec_ins_shllike(*ins, shift_opcodes(), opcode_ext(ins.mnem), bits),
        2 <= out@.len() <= 15,
{
    match ins.mnem {
        Mnemonic::SAL | Mnemonic::SHL => ins_shllike(ins, &[0xD0, 0xD2, 0xC0, 0xD1, 0xD3, 0xC1], 4, bits),
        Mnemonic::SHR => ins_shllike(ins, &[0xD0, 0xD2, 0xC0, 0xD1, 0xD3, 0xC1], 5, bits),
        _ => ins_shllike(ins, &[0xD0, 0xD2, 0xC0, 0xD1, 0xD3, 0xC1], 7, bits),
    }
}

/// Whether a mnemonic is one of the one-operand instructions with an opcode
/// extension.
pub open spec fn is_unary(m: Mnemonic) -> bool {
    m == Mnemonic::INC || m == Mnemonic::DEC || m == Mnemonic::NOT || m == Mnemonic::NEG || m
        == Mnemonic::DIV || m == Mnemonic::IDIV || m == Mnemonic::MUL
}

/// The two opcodes of a one-operand instruction.
pub open spec fn unary_opcodes(m: Mnemonic) -> Seq<u8> {
    if m == Mnemonic::INC || m == Mnemonic::DEC {
        incdec_opcodes()
    } else {
        divmul_opcodes()
    }
}

fn comp_unary(ins: &Instruction, bits: u8) -> (out: Vec<u8>)
    requires
        is_unary(ins.mnem),
    ensures
        out@ == spec_ins_inclike(*ins, unary_opcodes(ins.mnem), opcode_ext(ins.mnem), bits),
        2 <= out@.len() <= 15,
{
    match ins.mnem {
        Mnemonic::INC => ins_inclike(ins, &[0xFE, 0xFF], 0, bits),
        Mnemonic::DEC => ins_inclike(ins, &[0xFE, 0xFF], 1, bits),
        Mnemonic::NOT => ins_inclike(ins, &[0xF6, 0xF7], 2, bits),
        Mnemonic::NEG => ins_inclike(ins, &[0xF6, 0xF7], 3, bits),
        Mnemonic::DIV => ins_divmul(ins, 6, bits),
        Mnemonic::IDIV => ins_divmul(ins, 7, bits),
        _ => ins_divmul(ins, 4, bits),
    }
}

fn comp_jump(ins: &Instruction, bits: u8) -> (out: (Vec<u8>, Option<Relocation>))
    requires
        is_jump(ins.mnem),
        can_jmplike(*ins, jump_ind(ins.mnem)),
    ensures
        out.0@ == spec_ins_jmplike(*ins, jump_rel(ins.mnem), jump_ind(ins.mnem), opcode_ext(ins.mnem), bits),
        reloc_view(out.1) == spec_jmplike_reloc(*ins, jump_rel(ins.mnem)),
        1 <= out.0@.len() <= 15,
{
    match ins.mnem {
        Mnemonic::JMP => ins_jmplike(ins, &[0xE9], &[0xFF], 4, bits),
        Mnemonic::CALL => ins_jmplike(ins, &[0xE8], &[0xFF], 2, bits),
        Mnemonic::JE | Mnemonic::JZ => ins_jmplike(ins, &[0x0F, 0x84], &[], 0, bits),
        Mnemonic::JNE | Mnemonic::JNZ => ins_jmplike(ins, &[0x0F, 0x85], &[], 0, bits),
        Mnemonic::JL => ins_jmplike(ins, &[0x0F, 0x8C], &[], 0, bits),
        Mnemonic::JLE => ins_jmplike(ins, &[0x0F, 0x8E], &[], 0, bits),
        Mnemonic::JG => ins_jmplike(ins, &[0x0F, 0x8F], &[], 0, bits),
        _ => ins_jmplike(ins, &[0x0F, 0x8D], &[], 0, bits),
    }
}

/// What `spec_compile` gives for the mnemonics that have no family of their
/// own: the fixed bytes, or the vector form.
pub open spec fn spec_comp_rest(ins: Instruction, bits: u8) -> Seq<u8> {
    match spec_fixed_bytes(ins.mnem) {
        Some(b) => b,
        None => match spec_simd_form(&ins) {
            Some(d) => spec_gen_simd(ins, d, bits),
            None => Seq::empty(),
        },
    }
}

/// The inputs that `spec_comp_rest` encodes: the mnemonic has fixed bytes
/// or is a vector mnemonic.
pub open spec fn can_comp_rest(ins: Instruction) -> bool {
    spec_fixed_bytes(ins.mnem) is Some || spec_simd_kind(ins.mnem) is Some
}

fn comp_rest(ins: &Instruction, bits: u8) -> (out: Vec<u8>)
    requires
        can_comp_rest(*ins),
    ensures
        out@ == spec_comp_rest(*ins, bits),
        1 <= out@.len() <= 15,
{
    match fixed_bytes(ins.mnem) {
        Some(b) => b,
        None => match simd_form(ins) {
            Some(d) => gen_simd(ins, d, bits),
            None => Vec::new(),
        },
    }
}

/// Encodes one instruction in a mode of `bits` bits: its bytes, and the
/// relocation where it refers to a symbol.
pub fn compile_instruction(ins: &Instruction, bits: u8) -> (out: (Vec<u8>, Option<Relocation>))
    requires
        encodable(*ins),
    ensures
        out.0@ == spec_compile(*ins, bits),
        reloc_view(out.1) == spec_reloc(*ins, bits),
        1 <= out.0@.len() <= 15,
{
    match ins.mnem {
        Mnemonic::PUSH => (ins_push(ins, bits), None),
        Mnemonic::POP => (ins_pop(ins, bits), None),
        Mnemonic::MOV => (ins_mov(ins, bits), None),
        Mnemonic::ADD | Mnemonic::OR | Mnemonic::AND | Mnemonic::SUB | Mnemonic::XOR => (comp_arith(ins, bits), None),
        Mnemonic::CMP => (ins_cmp(ins, bits), None),
        Mnemonic::SAL | Mnemonic::SHL | Mnemonic::SHR | Mnemonic::SAR => (comp_shift(ins, bits), None),
        Mnemonic::TEST => (ins_test(ins, bits), None),
        Mnemonic::INC | Mnemonic::DEC | Mnemonic::NOT | Mnemonic::NEG | Mnemonic::DIV | Mnemonic::IDIV
        | Mnemonic::MUL => (comp_unary(ins, bits), None),
        Mnemonic::IMUL => (ins_imul(ins, bits), None),
        Mnemonic::JMP | Mnemonic::CALL | Mnemonic::JE | Mnemonic::JZ | Mnemonic::JNE | Mnemonic::JNZ
        | Mnemonic::JL | Mnemonic::JLE | Mnemonic::JG | Mnemonic::JGE => comp_jump(ins, bits),
        Mnemonic::LEA => ins_lea(ins, bits),
        Mnemonic::CLFLUSH => (gen_ins(ins, &[0x0F, 0xAE], (true, Some(7), None), None, bits, false), None),
        _ => (comp_rest(ins, bits), None),
    }
}

} // verus!
