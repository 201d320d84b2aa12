use vstd::prelude::*;
use crate::enc::comp::arith_opcodes;
use crate::enc::comp::can_add_like;
use crate::enc::comp::can_jmplike;
use crate::enc::comp::can_lea;
use crate::enc::comp::can_mov;
use crate::enc::comp::can_pop;
use crate::enc::comp::can_push;
use crate::enc::comp::can_test;
use crate::enc::comp::encodable;
use crate::enc::comp::has_symbol;
use crate::enc::comp::jump_ind;
use crate::enc::comp::jump_rel;
use crate::enc::comp::opcode_ext;
use crate::enc::comp::shift_opcodes;
use crate::enc::comp::spec_add_like_ins;
use crate::enc::comp::spec_bs_imm;
use crate::enc::comp::spec_compile;
use crate::enc::comp::spec_fixed_bytes;
use crate::enc::comp::spec_gen_ins;
use crate::enc::comp::spec_gen_ins_wpref;
use crate::enc::comp::spec_ins_imul;
use crate::enc::comp::spec_ins_inclike;
use crate::enc::comp::spec_ins_jmplike;
use crate::enc::comp::spec_ins_lea;
use crate::enc::comp::spec_ins_mov;
use crate::enc::comp::spec_ins_pop;
use crate::enc::comp::spec_ins_push;
use crate::enc::comp::spec_ins_shllike;
use crate::enc::comp::spec_ins_test;
use crate::enc::comp::spec_jmplike_reloc;
use crate::enc::comp::spec_lea_reloc;
use crate::enc::comp::spec_prefixes;
use crate::enc::comp::spec_reloc;
use crate::enc::comp::unary_opcodes;
use crate::enc::simd::Simd;
use crate::enc::simd::spec_gen_simd;
use crate::enc::simd::spec_simd_form;
use crate::enc::simd::spec_simd_imm;
use crate::shr::ast::Instruction;
use crate::shr::ins::Mnemonic;

verus! {

/// At most four bytes stand before the opcode.
pub proof fn lemma_prefixes_len(ins: Instruction, bits: u8, rev: bool)
    ensures
        spec_prefixes(ins, bits, rev).len() <= 4,
{
}

/// The general layout adds at most ten bytes to opcode and immediate: four
/// prefixes, ModR/M, SIB and four bytes of displacement. Where it has a
/// ModR/M byte it adds at least one.
pub proof fn lemma_gen_ins_len(
    ins: Instruction,
    opc: Seq<u8>,
    modrm: (bool, Option<u8>, Option<u8>),
    imm: Seq<u8>,
    bits: u8,
    rev: bool,
)
    ensures
        opc.len() + imm.len() <= spec_gen_ins(ins, opc, modrm, imm, bits, rev).len() <= opc.len()
            + imm.len() + 10,
        modrm.0 ==> spec_gen_ins(ins, opc, modrm, imm, bits, rev).len() > opc.len() + imm.len(),
{
    lemma_prefixes_len(ins, bits, rev);
}

/// A mandatory prefix adds at most one byte more.
pub proof fn lemma_gen_ins_wpref_len(
    ins: Instruction,
    opc: Seq<u8>,
    modrm: (bool, Option<u8>, Option<u8>),
    imm: Seq<u8>,
    pref: u8,
    bits: u8,
    rev: bool,
)
    ensures
        opc.len() + imm.len() <= spec_gen_ins_wpref(ins, opc, modrm, imm, pref, bits, rev).len()
            <= opc.len() + imm.len() + 11,
        modrm.0 ==> spec_gen_ins_wpref(ins, opc, modrm, imm, pref, bits, rev).len() > opc.len()
            + imm.len(),
{
    lemma_gen_ins_len(ins, opc, modrm, imm, bits, rev);
}

/// A base with an immediate adds at most four bytes to the two.
pub proof fn lemma_bs_imm_len(ins: Instruction, opc: Seq<u8>, imm: Seq<u8>, bits: u8, rev: bool)
    ensures
        opc.len() + imm.len() <= spec_bs_imm(ins, opc, imm, bits, rev).len() <= opc.len() + imm.len()
            + 4,
{
    lemma_prefixes_len(ins, bits, rev);
}

/// POP comes out as one to fifteen bytes.
pub proof fn lemma_pop_len(ins: Instruction, bits: u8)
    requires
        can_pop(ins),
    ensures
        1 <= spec_ins_pop(ins, bits).len() <= 15,
{
    lemma_prefixes_len(ins, bits, false);
    lemma_gen_ins_len(ins, [0x8Fu8]@, (true, Some(0u8), None), Seq::empty(), bits, false);
}

/// PUSH comes out as one to fifteen bytes.
pub proof fn lemma_push_len(ins: Instruction, bits: u8)
    requires
        can_push(ins),
    ensures
        1 <= spec_ins_push(ins, bits).len() <= 15,
{
    lemma_prefixes_len(ins, bits, false);
    lemma_gen_ins_len(ins, [0xFFu8]@, (true, Some(6u8), None), Seq::empty(), bits, false);
}

/// MOV comes out as one to fifteen bytes.
pub proof fn lemma_mov_len(ins: Instruction, bits: u8)
    requires
        can_mov(ins),
    ensures
        1 <= spec_ins_mov(ins, bits).len() <= 15,
{
    assert forall|opc: Seq<u8>, m: (bool, Option<u8>, Option<u8>), imm: Seq<u8>, rev: bool|
        opc.len() + imm.len() <= (#[trigger] spec_gen_ins(ins, opc, m, imm, bits, rev)).len()
            <= opc.len() + imm.len() + 10 by {
        lemma_gen_ins_len(ins, opc, m, imm, bits, rev);
    }
    assert forall|opc: Seq<u8>, imm: Seq<u8>, rev: bool|
        opc.len() + imm.len() <= (#[trigger] spec_bs_imm(ins, opc, imm, bits, rev)).len() <= opc.len()
            + imm.len() + 4 by {
        lemma_bs_imm_len(ins, opc, imm, bits, rev);
    }
}

/// The arithmetic and logic family comes out as one to fifteen bytes.
pub proof fn lemma_add_like_len(ins: Instruction, opc: Seq<u8>, ext: u8, bits: u8)
    requires
        can_add_like(ins),
    ensures
        1 <= spec_add_like_ins(ins, opc, ext, bits).len() <= 15,
{
    assert forall|o: Seq<u8>, m: (bool, Option<u8>, Option<u8>), imm: Seq<u8>, rev: bool|
        o.len() + imm.len() <= (#[trigger] spec_gen_ins(ins, o, m, imm, bits, rev)).len() <= o.len()
            + imm.len() + 10 by {
        lemma_gen_ins_len(ins, o, m, imm, bits, rev);
    }
    assert forall|o: Seq<u8>, imm: Seq<u8>, rev: bool|
        o.len() + imm.len() <= (#[trigger] spec_bs_imm(ins, o, imm, bits, rev)).len() <= o.len()
            + imm.len() + 4 by {
        lemma_bs_imm_len(ins, o, imm, bits, rev);
    }
}

/// TEST comes out as one to fifteen bytes.
pub proof fn lemma_test_len(ins: Instruction, bits: u8)
    requires
        can_test(ins),
    ensures
        1 <= spec_ins_test(ins, bits).len() <= 15,
{
    assert forall|o: Seq<u8>, m: (bool, Option<u8>, Option<u8>), imm: Seq<u8>, rev: bool|
        o.len() + imm.len() <= (#[trigger] spec_gen_ins(ins, o, m, imm, bits, rev)).len() <= o.len()
            + imm.len() + 10 by {
        lemma_gen_ins_len(ins, o, m, imm, bits, rev);
    }
    assert forall|o: Seq<u8>, imm: Seq<u8>, rev: bool|
        o.len() + imm.len() <= (#[trigger] spec_bs_imm(ins, o, imm, bits, rev)).len() <= o.len()
            + imm.len() + 4 by {
        lemma_bs_imm_len(ins, o, imm, bits, rev);
    }
}

/// IMUL comes out as one to fifteen bytes.
pub proof fn lemma_imul_len(ins: Instruction, bits: u8)
    ensures
        1 <= spec_ins_imul(ins, bits).len() <= 15,
{
    assert forall|o: Seq<u8>, m: (bool, Option<u8>, Option<u8>), imm: Seq<u8>, rev: bool|
        o.len() + imm.len() <= (#[trigger] spec_gen_ins(ins, o, m, imm, bits, rev)).len() <= o.len()
            + imm.len() + 10 by {
        lemma_gen_ins_len(ins, o, m, imm, bits, rev);
    }
}

/// The shift family comes out as one to fifteen bytes.
pub proof fn lemma_shllike_len(ins: Instruction, opc: Seq<u8>, ext: u8, bits: u8)
    ensures
        1 <= spec_ins_shllike(ins, opc, ext, bits).len() <= 15,
{
    assert forall|o: Seq<u8>, m: (bool, Option<u8>, Option<u8>), imm: Seq<u8>, rev: bool|
        o.len() + imm.len() <= (#[trigger] spec_gen_ins(ins, o, m, imm, bits, rev)).len() <= o.len()
            + imm.len() + 10 by {
        lemma_gen_ins_len(ins, o, m, imm, bits, rev);
    }
}

/// The one-operand instructions come out as one to fifteen bytes.
pub proof fn lemma_inclike_len(ins: Instruction, opc: Seq<u8>, ext: u8, bits: u8)
    ensures
        1 <= spec_ins_inclike(ins, opc, ext, bits).len() <= 15,
{
    assert forall|o: Seq<u8>, m: (bool, Option<u8>, Option<u8>), imm: Seq<u8>, rev: bool|
        o.len() + imm.len() <= (#[trigger] spec_gen_ins(ins, o, m, imm, bits, rev)).len() <= o.len()
            + imm.len() + 10 by {
        lemma_gen_ins_len(ins, o, m, imm, bits, rev);
    }
}

/// LEA comes out as seven to eleven bytes, of which the last four are the
/// field of its relocation.
pub proof fn lemma_lea_len(ins: Instruction, bits: u8)
    requires
        can_lea(ins),
    ensures
        7 <= spec_ins_lea(ins, bits).len() <= 11,
        spec_lea_reloc(ins, bits).offset + 4 == spec_ins_lea(ins, bits).len(),
{
    lemma_prefixes_len(ins, bits, true);
}

/// The jump family comes out as one to fifteen bytes; the field of the
/// relocation of a jump to a symbol is its last four bytes.
pub proof fn lemma_jmplike_len(ins: Instruction, rel: Seq<u8>, ind: Seq<u8>, ext: u8, bits: u8)
    requires
        can_jmplike(ins, ind),
        1 <= rel.len() <= 2,
        ind.len() <= 1,
    ensures
        1 <= spec_ins_jmplike(ins, rel, ind, ext, bits).len() <= 15,
        spec_jmplike_reloc(ins, rel) matches Some(r) ==> r.offset + 4 == spec_ins_jmplike(
            ins,
            rel,
            ind,
            ext,
            bits,
        ).len(),
{
    lemma_gen_ins_len(ins, ind, (true, Some(ext), None), Seq::empty(), bits, false);
}

/// A vector instruction comes out as three to fifteen bytes.
pub proof fn lemma_simd_len(ins: Instruction, d: Simd, bits: u8)
    ensures
        3 <= spec_gen_simd(ins, d, bits).len() <= 15,
{
    lemma_gen_ins_len(ins, d.spec_opcode(), (true, d.ext, None), spec_simd_imm(ins, d), bits, d.rev);
    lemma_gen_ins_wpref_len(
        ins,
        d.spec_opcode(),
        (true, d.ext, None),
        spec_simd_imm(ins, d),
        d.pfx,
        bits,
        d.rev,
    );
}

/// Every instruction that the encoder takes comes out as at least one byte
/// and at most fifteen, the longest that an x86 instruction may be.
pub proof fn lemma_compile_len(ins: Instruction, bits: u8)
    requires
        encodable(ins),
    ensures
        1 <= spec_compile(ins, bits).len() <= 15,
{
    let m = ins.mnem;
    match m {
        Mnemonic::PUSH => lemma_push_len(ins, bits),
        Mnemonic::POP => lemma_pop_len(ins, bits),
        Mnemonic::MOV => lemma_mov_len(ins, bits),
        Mnemonic::ADD | Mnemonic::OR | Mnemonic::AND | Mnemonic::SUB | Mnemonic::XOR | Mnemonic::CMP => lemma_add_like_len(
            ins,
            arith_opcodes(m),
            opcode_ext(m),
            bits,
        ),
        Mnemonic::SAL | Mnemonic::SHL | Mnemonic::SHR | Mnemonic::SAR => lemma_shllike_len(
            ins,
            shift_opcodes(),
            opcode_ext(m),
            bits,
        ),
        Mnemonic::TEST => lemma_test_len(ins, bits),
        Mnemonic::INC | Mnemonic::DEC | Mnemonic::NOT | Mnemonic::NEG | Mnemonic::DIV | Mnemonic::IDIV
        | Mnemonic::MUL => lemma_inclike_len(ins, unary_opcodes(m), opcode_ext(m), bits),
        Mnemonic::IMUL => lemma_imul_len(ins, bits),
        Mnemonic::JMP | Mnemonic::CALL | Mnemonic::JE | Mnemonic::JZ | Mnemonic::JNE | Mnemonic::JNZ
        | Mnemonic::JL | Mnemonic::JLE | Mnemonic::JG | Mnemonic::JGE => lemma_jmplike_len(
            ins,
            jump_rel(m),
            jump_ind(m),
            opcode_ext(m),
            bits,
        ),
        Mnemonic::LEA => lemma_lea_len(ins, bits),
        Mnemonic::CLFLUSH => lemma_gen_ins_len(
            ins,
            [0x0Fu8, 0xAEu8]@,
            (true, Some(7u8), None),
            Seq::empty(),
            bits,
            false,
        ),
        _ => {
            if spec_fixed_bytes(m) is None {
                lemma_simd_len(ins, spec_simd_form(&ins).unwrap(), bits);
            }
        },
    }
}

/// An instruction that holds a symbol gives exactly one relocation. Its
/// field is four bytes wide and ends where the instruction ends.
pub proof fn lemma_symbol_relocated(ins: Instruction, bits: u8)
    requires
        encodable(ins),
        has_symbol(ins),
    ensures
        spec_reloc(ins, bits) is Some,
        spec_reloc(ins, bits).unwrap().size == 4,
        spec_reloc(ins, bits).unwrap().offset + spec_reloc(ins, bits).unwrap().size == spec_compile(
            ins,
            bits,
        ).len(),
{
    let m = ins.mnem;
    if m == Mnemonic::LEA {
        lemma_lea_len(ins, bits);
    } else {
        lemma_jmplike_len(ins, jump_rel(m), jump_ind(m), opcode_ext(m), bits);
    }
}

/// The field that a relocation names lies within the bytes of its
/// instruction, and is four bytes wide.
pub proof fn lemma_reloc_within(ins: Instruction, bits: u8)
    requires
        encodable(ins),
        spec_reloc(ins, bits) is Some,
    ensures
        spec_reloc(ins, bits).unwrap().offset + spec_reloc(ins, bits).unwrap().size <= spec_compile(
            ins,
            bits,
        ).len(),
        spec_reloc(ins, bits).unwrap().size == 4,
        spec_compile(ins, bits).len() <= 15,
{
    lemma_compile_len(ins, bits);
    let m = ins.mnem;
    if m == Mnemonic::LEA {
        lemma_lea_len(ins, bits);
    } else {
        lemma_jmplike_len(ins, jump_rel(m), jump_ind(m), opcode_ext(m), bits);
    }
}

} // verus!
