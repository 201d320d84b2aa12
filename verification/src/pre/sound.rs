use vstd::prelude::*;
use crate::enc::bounds::lemma_compile_len;
use crate::enc::comp::can_add_like;
use crate::enc::comp::can_mov;
use crate::enc::comp::can_test;
use crate::enc::comp::encodable;
use crate::enc::comp::has_symbol;
use crate::enc::comp::is_jump;
use crate::enc::comp::is_unary;
use crate::enc::comp::spec_compile;
use crate::enc::comp::spec_fixed_bytes;
use crate::enc::rex::spec_gen_rex;
use crate::pre::chk::is_forbidden;
use crate::pre::chk::is_shift;
use crate::pre::chk::spec_check_ins;
use crate::pre::chk::spec_check_ins32bit;
use crate::pre::chk::spec_check_ins64bit;
use crate::pre::chk::spec_ot_chk;
use crate::pre::chk::spec_rule32;
use crate::pre::chk::spec_rule64;
use crate::pre::chk::spec_shift_chk;
use crate::pre::chk::Rule;
use crate::pre::rules::admitted;
use crate::pre::rules::lemma_class;
use crate::pre::rules::lemma_no_symbol;
use crate::pre::rules::lemma_ot_passed;
use crate::pre::rules::needed_upto;
use crate::pre::rules::of_some_class;
use crate::pre::shared::lemma_shr_checked;
use crate::shr::ast::Instruction;
use crate::shr::atype::AType;
use crate::shr::atype::AType::M16;
use crate::shr::atype::AType::M32;
use crate::shr::atype::AType::M64;
use crate::shr::atype::AType::M8;
use crate::shr::atype::AType::R16;
use crate::shr::atype::AType::R32;
use crate::shr::atype::AType::R64;
use crate::shr::atype::AType::R8;
use crate::shr::ins::Mnemonic;

verus! {

/// Whether `r` is the rule that one of the two modes has for `m`.
pub open spec fn rule_of(m: Mnemonic, r: Rule) -> bool {
    (spec_rule64(m) is Some && r == spec_rule64(m).unwrap()) || (spec_rule32(m) is Some && r
        == spec_rule32(m).unwrap())
}

/// The operands of an instruction that a rule admits are each of one of
/// the classes that their slot names.
proof fn lemma_classes(ins: &Instruction, r: Rule)
    requires
        ins.wf(),
        admitted(ins, r.slots, r.forb),
    ensures
        forall|k: int| 0 <= k < ins.oprs@.len() ==> of_some_class(#[trigger] ins.oprs@[k], r.slots@[k].0),
{
    assert forall|k: int| 0 <= k < ins.oprs@.len() implies of_some_class(
        #[trigger] ins.oprs@[k],
        r.slots@[k].0,
    ) by {
        lemma_class(ins.oprs@[k], r.slots@[k].0);
    }
}

/// What the rules of PUSH and POP let pass, the encoder takes.
proof fn lemma_push_pop(ins: &Instruction, r: Rule)
    requires
        ins.wf(),
        ins.mnem == Mnemonic::PUSH || ins.mnem == Mnemonic::POP,
        rule_of(ins.mnem, r),
        spec_ot_chk(ins, r.slots, r.forb, &[]) is None,
    ensures
        encodable(*ins),
{
    lemma_ot_passed(ins, r.slots, r.forb, &[]);
    lemma_no_symbol(ins, r.slots, r.forb);
    lemma_classes(ins, r);
    assert(needed_upto(r.slots, 0));
    assert(of_some_class(ins.oprs@[0], r.slots@[0].0));
}

/// What the rules of the arithmetic and logic family let pass, the encoder
/// takes.
proof fn lemma_arith(ins: &Instruction, r: Rule)
    requires
        ins.wf(),
        ins.mnem == Mnemonic::ADD || ins.mnem == Mnemonic::OR || ins.mnem == Mnemonic::AND || ins.mnem
            == Mnemonic::SUB || ins.mnem == Mnemonic::XOR || ins.mnem == Mnemonic::CMP,
        rule_of(ins.mnem, r),
        spec_ot_chk(ins, r.slots, r.forb, &[]) is None,
    ensures
        encodable(*ins),
{
    lemma_ot_passed(ins, r.slots, r.forb, &[]);
    lemma_no_symbol(ins, r.slots, r.forb);
    lemma_classes(ins, r);
    assert(needed_upto(r.slots, 0));
    assert(needed_upto(r.slots, 1));
    assert(ins.oprs@.len() == 2);
    let d = ins.oprs@[0];
    let s = ins.oprs@[1];
    assert(of_some_class(d, r.slots@[0].0));
    assert(of_some_class(s, r.slots@[1].0));
    assert(d is Reg || d.spec_is_mem());
    assert(s is Reg || s.spec_is_mem() || s is Imm);
    assert(r.forb@[0] == (AType::MA, AType::MA));
    assert(!(d.spec_is_mem() && s.spec_is_mem()));
    assert(ins.spec_size().spec_is_gpr_width());
    assert(can_add_like(*ins));
}

/// What the rules of TEST let pass, the encoder takes.
proof fn lemma_test(ins: &Instruction, r: Rule)
    requires
        ins.wf(),
        ins.mnem == Mnemonic::TEST,
        rule_of(ins.mnem, r),
        spec_ot_chk(ins, r.slots, r.forb, &[]) is None,
    ensures
        encodable(*ins),
{
    lemma_ot_passed(ins, r.slots, r.forb, &[]);
    lemma_no_symbol(ins, r.slots, r.forb);
    lemma_classes(ins, r);
    assert(needed_upto(r.slots, 0));
    assert(needed_upto(r.slots, 1));
    assert(ins.oprs@.len() == 2);
    let d = ins.oprs@[0];
    let s = ins.oprs@[1];
    assert(of_some_class(d, r.slots@[0].0));
    assert(of_some_class(s, r.slots@[1].0));
    assert(d is Reg || d.spec_is_mem());
    assert(s is Reg || s is Imm);
    assert(ins.spec_size().spec_is_gpr_width());
    assert(can_test(*ins));
}

/// What the rules of the one-operand instructions and of IMUL let pass, the
/// encoder takes.
proof fn lemma_unary(ins: &Instruction, r: Rule)
    requires
        ins.wf(),
        is_unary(ins.mnem) || ins.mnem == Mnemonic::IMUL,
        rule_of(ins.mnem, r),
        spec_ot_chk(ins, r.slots, r.forb, &[]) is None,
    ensures
        encodable(*ins),
{
    lemma_ot_passed(ins, r.slots, r.forb, &[]);
    lemma_no_symbol(ins, r.slots, r.forb);
    assert(needed_upto(r.slots, 0));
}

/// What the rules of the jumps and calls let pass, the encoder takes.
proof fn lemma_jump(ins: &Instruction, r: Rule)
    requires
        ins.wf(),
        is_jump(ins.mnem),
        rule_of(ins.mnem, r),
        spec_ot_chk(ins, r.slots, r.forb, &[]) is None,
    ensures
        encodable(*ins),
{
    lemma_ot_passed(ins, r.slots, r.forb, &[]);
    lemma_classes(ins, r);
    assert(needed_upto(r.slots, 0));
    assert(ins.oprs@.len() == 1);
    assert(of_some_class(ins.oprs@[0], r.slots@[0].0));
}

/// What the rules of LEA let pass, the encoder takes.
proof fn lemma_lea(ins: &Instruction, r: Rule)
    requires
        ins.wf(),
        ins.mnem == Mnemonic::LEA,
        rule_of(ins.mnem, r),
        spec_ot_chk(ins, r.slots, r.forb, &[]) is None,
    ensures
        encodable(*ins),
{
    lemma_ot_passed(ins, r.slots, r.forb, &[]);
    lemma_classes(ins, r);
    assert(needed_upto(r.slots, 0));
    assert(needed_upto(r.slots, 1));
    assert(ins.oprs@.len() == 2);
    assert(of_some_class(ins.oprs@[0], r.slots@[0].0));
    assert(of_some_class(ins.oprs@[1], r.slots@[1].0));
}

/// What the rules of the instructions without operands let pass, the
/// encoder takes.
proof fn lemma_bare(ins: &Instruction, r: Rule)
    requires
        ins.wf(),
        spec_fixed_bytes(ins.mnem) is Some,
        rule_of(ins.mnem, r),
        spec_ot_chk(ins, r.slots, r.forb, &[]) is None,
    ensures
        encodable(*ins),
{
    lemma_ot_passed(ins, r.slots, r.forb, &[]);
    lemma_no_symbol(ins, r.slots, r.forb);
}

/// What the check of the shifts lets pass, the encoder takes.
proof fn lemma_shift(ins: &Instruction, accepted: &[AType])
    requires
        ins.wf(),
        is_shift(ins.mnem),
        spec_shift_chk(ins, accepted) is None,
        forall|j: int| 0 <= j < accepted@.len() ==> #[trigger] accepted@[j] != AType::Symbol,
    ensures
        encodable(*ins),
{
    assert(ins.oprs@.len() == 2);
    lemma_class(ins.oprs@[0], accepted);
    if has_symbol(*ins) {
        let i = choose|i: int| 0 <= i < ins.oprs@.len() && ins.oprs@[i] is SymbolRef;
        assert(i == 0 || i == 1);
    }
}

/// What the 64-bit rule of MOV lets pass, the encoder takes.
proof fn lemma_mov64(ins: &Instruction)
    requires
        ins.wf(),
        ins.mnem == Mnemonic::MOV,
        spec_ot_chk(ins, spec_rule64(ins.mnem).unwrap().slots, spec_rule64(ins.mnem).unwrap().forb, &[]) is None,
    ensures
        encodable(*ins),
{
    let r = spec_rule64(ins.mnem).unwrap();
    lemma_ot_passed(ins, r.slots, r.forb, &[]);
    lemma_no_symbol(ins, r.slots, r.forb);
    lemma_classes(ins, r);
    assert(needed_upto(r.slots, 0));
    assert(needed_upto(r.slots, 1));
    assert(ins.oprs@.len() == 2);
    let d = ins.oprs@[0];
    let s = ins.oprs@[1];
    assert(of_some_class(d, r.slots@[0].0));
    assert(of_some_class(s, r.slots@[1].0));
    assert(d is Reg || d.spec_is_mem() || d is SegReg || d is CtrReg || d is DbgReg);
    assert(s is Reg || s.spec_is_mem() || s is Imm || s is SegReg || s is CtrReg || s is DbgReg);
    assert(!is_forbidden(r.forb, d.spec_atype(), s.spec_atype()));
    assert(r.forb@[34] == (AType::SR, AType::SR));
    assert(r.forb@[28] == (AType::SR, AType::CR));
    assert(r.forb@[29] == (AType::SR, AType::DR));
    assert(r.forb@[7] == (AType::SR, AType::IA));
    assert(r.forb@[0] == (AType::MA, AType::MA));
    assert(r.forb@[18] == (AType::MA, AType::CR));
    assert(r.forb@[27] == (AType::MA, AType::DR));
    if d is SegReg {
        assert(s is Reg || s.spec_is_mem());
    }
    if d.spec_is_mem() {
        assert(s is Reg || s is Imm || s is SegReg);
        assert(ins.spec_size().spec_is_gpr_width());
    }
    assert(can_mov(*ins));
}

/// What the 32-bit rule of MOV lets pass, the encoder takes.
proof fn lemma_mov32(ins: &Instruction)
    requires
        ins.wf(),
        ins.mnem == Mnemonic::MOV,
        spec_ot_chk(ins, spec_rule32(ins.mnem).unwrap().slots, spec_rule32(ins.mnem).unwrap().forb, &[]) is None,
    ensures
        encodable(*ins),
{
    let r = spec_rule32(ins.mnem).unwrap();
    lemma_ot_passed(ins, r.slots, r.forb, &[]);
    lemma_no_symbol(ins, r.slots, r.forb);
    lemma_classes(ins, r);
    assert(needed_upto(r.slots, 0));
    assert(needed_upto(r.slots, 1));
    assert(ins.oprs@.len() == 2);
    let d = ins.oprs@[0];
    let s = ins.oprs@[1];
    assert(of_some_class(d, r.slots@[0].0));
    assert(of_some_class(s, r.slots@[1].0));
    assert(d is Reg || d.spec_is_mem() || d is SegReg || d is CtrReg || d is DbgReg);
    assert(s is Reg || s.spec_is_mem() || s is Imm || s is SegReg || s is CtrReg || s is DbgReg);
    assert(!is_forbidden(r.forb, d.spec_atype(), s.spec_atype()));
    assert(r.forb@[30] == (AType::SR, AType::SR));
    assert(r.forb@[24] == (AType::SR, AType::CR));
    assert(r.forb@[25] == (AType::SR, AType::DR));
    assert(r.forb@[7] == (AType::SR, AType::IA));
    assert(r.forb@[0] == (AType::MA, AType::MA));
    assert(r.forb@[16] == (AType::MA, AType::CR));
    assert(r.forb@[23] == (AType::MA, AType::DR));
    if d is SegReg {
        assert(s is Reg || s.spec_is_mem());
    }
    if d.spec_is_mem() {
        assert(s is Reg || s is Imm || s is SegReg);
        assert(ins.spec_size().spec_is_gpr_width());
    }
    assert(can_mov(*ins));
}

/// What the rules of 64-bit mode let pass, the encoder takes.
pub proof fn lemma_checked64(ins: &Instruction)
    requires
        ins.wf(),
        spec_check_ins64bit(ins) is None,
    ensures
        encodable(*ins),
{
    let m = ins.mnem;
    if is_shift(m) {
        lemma_shift(ins, &[R8, R16, R32, R64, M8, M16, M32, M64]);
    } else if spec_rule64(m) is Some {
        let r = spec_rule64(m).unwrap();
        if m == Mnemonic::PUSH || m == Mnemonic::POP {
            lemma_push_pop(ins, r);
        } else if m == Mnemonic::MOV {
            lemma_mov64(ins);
        } else if m == Mnemonic::TEST {
            lemma_test(ins, r);
        } else if is_unary(m) || m == Mnemonic::IMUL {
            lemma_unary(ins, r);
        } else if is_jump(m) {
            lemma_jump(ins, r);
        } else if m == Mnemonic::LEA {
            lemma_lea(ins, r);
        } else if spec_fixed_bytes(m) is Some {
            lemma_bare(ins, r);
        } else {
            lemma_arith(ins, r);
        }
    } else {
        lemma_shr_checked(ins);
    }
}

/// What the rules of 32-bit mode let pass, the encoder takes.
pub proof fn lemma_checked32(ins: &Instruction)
    requires
        ins.wf(),
        spec_check_ins32bit(ins) is None,
    ensures
        encodable(*ins),
{
    let m = ins.mnem;
    if is_shift(m) {
        lemma_shift(ins, &[R8, R16, R32, M8, M16, M32]);
    } else if m == Mnemonic::MOVQ || m == Mnemonic::SYSCALL {
    } else if spec_rule32(m) is Some {
        let r = spec_rule32(m).unwrap();
        if m == Mnemonic::PUSH || m == Mnemonic::POP {
            lemma_push_pop(ins, r);
        } else if m == Mnemonic::MOV {
            lemma_mov32(ins);
        } else if m == Mnemonic::TEST {
            lemma_test(ins, r);
        } else if is_unary(m) || m == Mnemonic::IMUL {
            lemma_unary(ins, r);
        } else if is_jump(m) {
            lemma_jump(ins, r);
        } else if m == Mnemonic::LEA {
            lemma_lea(ins, r);
        } else if spec_fixed_bytes(m) is Some {
            lemma_bare(ins, r);
        } else {
            lemma_arith(ins, r);
        }
    } else {
        lemma_shr_checked(ins);
    }
}

/// Every well-formed instruction that the checker lets pass, in 32- or
/// 64-bit mode, is one that the encoder takes, and it comes out as at least
/// one byte and at most fifteen, the longest that an x86 instruction may be.
pub proof fn lemma_checked_is_encodable(ins: Instruction, bits: u8)
    requires
        ins.wf(),
        bits == 32 || bits == 64,
        spec_check_ins(&ins, Some(bits)) is None,
    ensures
        encodable(ins),
        1 <= spec_compile(ins, bits).len() <= 15,
{
    if bits == 64 {
        lemma_checked64(&ins);
    } else {
        lemma_checked32(&ins);
    }
    lemma_compile_len(ins, bits);
}

/// 32-bit mode refuses MOVQ and SYSCALL, whatever their operands, and
/// every instruction that would take a REX prefix.
pub proof fn lemma_mode_gating(ins: &Instruction)
    requires
        ins.mnem == Mnemonic::MOVQ || ins.mnem == Mnemonic::SYSCALL || spec_gen_rex(*ins, false) is Some,
    ensures
        spec_check_ins32bit(ins) is Some,
{
}

} // verus!
