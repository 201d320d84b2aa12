use vstd::prelude::*;
use crate::enc::comp::arith_opcodes;
use crate::enc::comp::can_add_like;
use crate::enc::comp::has_family;
use crate::enc::comp::is_jump;
use crate::enc::comp::opcode_ext;
use crate::enc::comp::spec_compile;
use crate::enc::comp::spec_fixed_bytes;
use crate::enc::comp::spec_gen_ins;
use crate::enc::comp::spec_prefixes;
use crate::enc::comp::spec_reloc;
use crate::enc::comp::spec_size_pref;
use crate::enc::rex::spec_gen_rex;
use crate::enc::rex::spec_rex_w;
use crate::enc::simd::spec_simd_form;
use crate::enc::simd::spec_simd_imm;
use crate::enc::simd::spec_simd_kind;
use crate::shr::ast::IVariant;
use crate::shr::ast::Instruction;
use crate::shr::ast::Operand;
use crate::shr::ast::opt_size;
use crate::shr::ins::Mnemonic;
use crate::shr::reg::Purpose;
use crate::shr::reloc::RType;
use crate::shr::size::Size;

verus! {

/// A jump or call to a symbol gives a relocation relative to the next
/// instruction: its addend is -4, it is four bytes wide, and the four bytes
/// that it names are zero.
pub proof fn lemma_jump_relocation(ins: Instruction, bits: u8)
    requires
        is_jump(ins.mnem),
        ins.spec_dst() matches Some(Operand::SymbolRef(_)),
    ensures
        spec_reloc(ins, bits) is Some,
        spec_reloc(ins, bits).unwrap().rtype == RType::PCRel32,
        spec_reloc(ins, bits).unwrap().addend == -4,
        spec_reloc(ins, bits).unwrap().size == 4,
        spec_reloc(ins, bits).unwrap().symbol == ins.spec_dst().unwrap()->SymbolRef_0@,
        spec_reloc(ins, bits).unwrap().offset + 4 == spec_compile(ins, bits).len(),
        forall|k: int|
            spec_reloc(ins, bits).unwrap().offset <= k < spec_reloc(ins, bits).unwrap().offset + 4
                ==> spec_compile(ins, bits)[k] == 0,
{
}

/// Whether a mnemonic is of the arithmetic and logic family.
pub open spec fn is_arith(m: Mnemonic) -> bool {
    m == Mnemonic::ADD || m == Mnemonic::OR || m == Mnemonic::AND || m == Mnemonic::SUB || m
        == Mnemonic::XOR || m == Mnemonic::CMP
}

/// In the arithmetic and logic family, an immediate that fits a signed byte
/// goes to a word, double word or quad word by the form `83 /ext ib`,
/// whatever the destination.
pub proof fn lemma_short_immediate(ins: Instruction, bits: u8)
    requires
        is_arith(ins.mnem),
        can_add_like(ins),
        ins.spec_src() matches Some(Operand::Imm(n)) && n.spec_fits_i8(),
        ins.spec_size() == Size::Word || ins.spec_size() == Size::Dword || ins.spec_size()
            == Size::Qword,
    ensures
        spec_compile(ins, bits) == spec_gen_ins(
            ins,
            [0x83u8]@,
            (true, Some(opcode_ext(ins.mnem)), None),
            ins.spec_src().unwrap()->Imm_0.spec_low_bytes(1),
            bits,
            false,
        ),
{
    assert(arith_opcodes(ins.mnem)[4] == 0x83u8);
    assert([arith_opcodes(ins.mnem)[4]]@ =~= [0x83u8]@);
}

/// Whether a byte is a REX prefix with the bit W set.
pub open spec fn is_rex_w(b: u8) -> bool {
    0x48 <= b <= 0x4f
}

/// A mnemonic that works on 64 bits by default, given operands of 64 bits,
/// takes neither REX.W nor the operand-size prefix: no byte before its
/// opcode is 66h or a REX byte with W set.
pub proof fn lemma_default_64(ins: Instruction, rev: bool)
    requires
        ins.mnem.spec_defaults_to_64bit(),
        opt_size(ins.spec_dst()) == Size::Qword,
        ins.spec_src() is None || opt_size(ins.spec_src()) == Size::Qword,
    ensures
        !spec_rex_w(ins),
        spec_size_pref(ins, 64) is None,
        spec_gen_rex(ins, rev) matches Some(b) ==> !is_rex_w(b),
        forall|k: int|
            0 <= k < spec_prefixes(ins, 64, rev).len() ==> spec_prefixes(ins, 64, rev)[k] != 0x66
                && !is_rex_w(spec_prefixes(ins, 64, rev)[k]),
{
}

/// Whether a mnemonic is one that MMX and SSE share.
pub open spec fn is_shared(m: Mnemonic) -> bool {
    spec_simd_kind(m) matches Some(k) && (k is Dual || k is Shift)
}

/// Whether an operand, where there is one, is one that a vector
/// instruction works on: an MMX or XMM register, memory of 64 or 128 bits or
/// of a width that is not given, or an immediate.
pub open spec fn vector_operand(o: Option<Operand>) -> bool {
    match o {
        Some(Operand::Reg(r)) => r.spec_purpose() == Purpose::Mmx || r.spec_purpose() == Purpose::F128,
        Some(Operand::Imm(_)) => true,
        Some(o) => o.spec_is_mem() && (o.spec_size() == Size::Qword || o.spec_size() == Size::Xword
            || o.spec_size() == Size::Any || o.spec_size() == Size::Unknown),
        None => true,
    }
}

/// A mnemonic that MMX and SSE share is encoded in the general layout with
/// an opcode that begins with 0Fh. On MMX operands no 66h stands before that
/// opcode; on XMM operands the instruction begins with 66h.
pub proof fn lemma_shared_prefix(ins: Instruction, bits: u8)
    requires
        is_shared(ins.mnem),
        vector_operand(ins.spec_dst()),
        vector_operand(ins.spec_src()),
    ensures
        spec_simd_form(&ins) is Some,
        spec_simd_form(&ins).unwrap().spec_opcode()[0] == 0x0F,
        ins.spec_which_variant() == IVariant::MMX ==> spec_compile(ins, bits) == spec_gen_ins(
            ins,
            spec_simd_form(&ins).unwrap().spec_opcode(),
            (true, spec_simd_form(&ins).unwrap().ext, None),
            spec_simd_imm(ins, spec_simd_form(&ins).unwrap()),
            bits,
            spec_simd_form(&ins).unwrap().rev,
        ) && forall|k: int|
            0 <= k < spec_prefixes(ins, bits, spec_simd_form(&ins).unwrap().rev).len() ==> spec_prefixes(
                ins,
                bits,
                spec_simd_form(&ins).unwrap().rev,
            )[k] != 0x66,
        ins.spec_which_variant() == IVariant::XMM ==> spec_compile(ins, bits) == seq![0x66u8]
            + spec_gen_ins(
            ins,
            spec_simd_form(&ins).unwrap().spec_opcode(),
            (true, spec_simd_form(&ins).unwrap().ext, None),
            spec_simd_imm(ins, spec_simd_form(&ins).unwrap()),
            bits,
            spec_simd_form(&ins).unwrap().rev,
        ),
{
    lemma_shared_known(ins.mnem);
}

/// A mnemonic that MMX and SSE share has no family and no fixed bytes.
proof fn lemma_shared_known(m: Mnemonic)
    requires
        is_shared(m),
    ensures
        !has_family(m),
        spec_fixed_bytes(m) is None,
{
}

/// The bytes of an instruction are a function of the instruction and the
/// mode: whatever is encoded twice comes out the same.
pub proof fn lemma_same_twice(ins: Instruction, bits: u8, first: Seq<u8>, second: Seq<u8>)
    requires
        first == spec_compile(ins, bits),
        second == spec_compile(ins, bits),
    ensures
        first == second,
{
}

} // verus!
