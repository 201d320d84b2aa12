use vstd::prelude::*;
use crate::enc::comp::has_symbol;
use crate::enc::comp::is_seg;
use crate::pre::chk::Optional;
use crate::pre::chk::is_forbidden;
use crate::pre::chk::sizes_fit;
use crate::pre::chk::slot_error;
use crate::pre::chk::slot_takes;
use crate::pre::chk::slots_error;
use crate::pre::chk::spec_find;
use crate::pre::chk::spec_ot_chk;
use crate::pre::chk::squeezed_type;
use crate::shr::ast::Instruction;
use crate::shr::ast::Operand;
use crate::shr::atype::AType;
use crate::shr::ins::Mnemonic;
use crate::shr::reg::Purpose;
use crate::shr::size::Size;

verus! {

/// Whether every slot that is looked at before slot `k` asks for its
/// operand.
pub open spec fn needed_upto(ops: &[(&[AType], Optional)], k: int) -> bool {
    forall|j: int| 0 <= j <= k ==> (#[trigger] ops@[j]).1 == Optional::Needed
}

/// What holds of an instruction that a rule admits: it has no more
/// operands than the rule has slots, each operand is one that its slot
/// takes, an operand is there wherever its slot and all before it ask for
/// one, and destination and source are no forbidden pair.
pub open spec fn admitted(ins: &Instruction, ops: &[(&[AType], Optional)], forb: &[(AType, AType)]) -> bool {
    &&& ins.oprs@.len() <= ops@.len()
    &&& forall|k: int| 0 <= k < ins.oprs@.len() ==> slot_takes(#[trigger] ins.oprs@[k], ops@[k].0)
    &&& forall|k: int| 0 <= k < ops@.len() && needed_upto(ops, k) ==> k < ins.oprs@.len()
    &&& ins.oprs@.len() >= 2 ==> !is_forbidden(forb, ins.oprs@[0].spec_atype(), ins.oprs@[1].spec_atype())
    &&& ops@.len() == 2 && ins.oprs@.len() >= 2 ==> sizes_fit(ins.oprs@[0], ins.oprs@[1])
        || ins.mnem.spec_allows_diff_size()
}

/// Where the slots from `k` on give no error, none of them does.
proof fn lemma_slots_pass(ins: &Instruction, ops: &[(&[AType], Optional)], k: int, j: int)
    requires
        0 <= k <= j < ops@.len(),
        slots_error(ins, ops, k) is None,
    ensures
        slot_error(ins, ops, j) is None,
    decreases j - k,
{
    if k < j {
        lemma_slots_pass(ins, ops, k + 1, j);
    }
}

/// An instruction that passes the check against a rule is admitted by it.
pub proof fn lemma_ot_passed(
    ins: &Instruction,
    ops: &[(&[AType], Optional)],
    forb: &[(AType, AType)],
    addt: &[Mnemonic],
)
    requires
        spec_ot_chk(ins, ops, forb, addt) is None,
    ensures
        admitted(ins, ops, forb),
{
    assert forall|k: int| 0 <= k < ins.oprs@.len() implies slot_takes(#[trigger] ins.oprs@[k], ops@[k].0) by {
        lemma_slots_pass(ins, ops, 0, k);
    }
    assert forall|k: int| 0 <= k < ops@.len() && needed_upto(ops, k) implies k < ins.oprs@.len() by {
        if k >= ins.oprs@.len() {
            let m = ins.oprs@.len() as int;
            lemma_slots_pass(ins, ops, 0, m);
            assert(ops@[m].1 == Optional::Needed);
        }
    }
}

/// Whether no slot of a rule takes a symbol.
pub open spec fn no_symbol_slot(ops: &[(&[AType], Optional)]) -> bool {
    forall|k: int, j: int|
        0 <= k < ops@.len() && 0 <= j < ops@[k].0@.len() ==> #[trigger] ops@[k].0@[j] != AType::Symbol
}

/// An instruction that a rule without a symbol slot admits holds no symbol.
pub proof fn lemma_no_symbol(ins: &Instruction, ops: &[(&[AType], Optional)], forb: &[(AType, AType)])
    requires
        admitted(ins, ops, forb),
        no_symbol_slot(ops),
    ensures
        !has_symbol(*ins),
{
    if has_symbol(*ins) {
        let i = choose|i: int| 0 <= i < ins.oprs@.len() && ins.oprs@[i] is SymbolRef;
        assert(slot_takes(ins.oprs@[i], ops@[i].0));
        assert(squeezed_type(ins.oprs@[i]) is None);
        assert(spec_find(ops@[i].0, AType::Symbol));
        let j = choose|j: int| 0 <= j < ops@[i].0@.len() && (#[trigger] ops@[i].0@[j]).spec_accepts(AType::Symbol);
        assert(ops@[i].0@[j] == AType::Symbol);
    }
}

/// Whether an operand is of the class that a type names.
pub open spec fn of_class(t: AType, o: Operand) -> bool {
    match t {
        AType::R8 => o matches Operand::Reg(r) && r.spec_purpose() == Purpose::General && r.spec_size()
            == Size::Byte,
        AType::R16 => o matches Operand::Reg(r) && r.spec_purpose() == Purpose::General && r.spec_size()
            == Size::Word,
        AType::R32 => o matches Operand::Reg(r) && r.spec_purpose() == Purpose::General && r.spec_size()
            == Size::Dword,
        AType::R64 => o matches Operand::Reg(r) && r.spec_purpose() == Purpose::General && r.spec_size()
            == Size::Qword,
        AType::SR => o matches Operand::SegReg(r) && is_seg(r),
        AType::CR => o is CtrReg,
        AType::DR => o is DbgReg,
        AType::MMX => o matches Operand::Reg(r) && r.spec_purpose() == Purpose::Mmx,
        AType::XMM => o matches Operand::Reg(r) && r.spec_purpose() == Purpose::F128,
        AType::YMM => o matches Operand::Reg(r) && r.spec_purpose() == Purpose::F256,
        AType::Symbol => o is SymbolRef,
        AType::M8 => o.spec_is_mem() && (o.spec_size() == Size::Byte || o.spec_size() == Size::Any
            || o.spec_size() == Size::Unknown),
        AType::M16 => o.spec_is_mem() && (o.spec_size() == Size::Word || o.spec_size() == Size::Any
            || o.spec_size() == Size::Unknown),
        AType::M32 => o.spec_is_mem() && (o.spec_size() == Size::Dword || o.spec_size() == Size::Any
            || o.spec_size() == Size::Unknown),
        AType::M64 => o.spec_is_mem() && (o.spec_size() == Size::Qword || o.spec_size() == Size::Any
            || o.spec_size() == Size::Unknown),
        AType::M128 => o.spec_is_mem() && (o.spec_size() == Size::Xword || o.spec_size() == Size::Any
            || o.spec_size() == Size::Unknown),
        AType::M256 => o.spec_is_mem() && (o.spec_size() == Size::Yword || o.spec_size() == Size::Any
            || o.spec_size() == Size::Unknown),
        AType::MA => o.spec_is_mem(),
        AType::I8 | AType::I16 | AType::I32 | AType::I64 | AType::IA => o is Imm,
    }
}

/// Whether an operand is of one of the classes that a slot names.
pub open spec fn of_some_class(o: Operand, accepted: &[AType]) -> bool {
    exists|j: int| 0 <= j < accepted@.len() && of_class(#[trigger] accepted@[j], o)
}

/// A well-formed operand that a slot takes is of one of the classes that
/// the slot names.
pub proof fn lemma_class(o: Operand, accepted: &[AType])
    requires
        o.wf(),
        slot_takes(o, accepted),
    ensures
        of_some_class(o, accepted),
{
    if spec_find(accepted, o.spec_atype()) {
        let j = choose|j: int| 0 <= j < accepted@.len() && (#[trigger] accepted@[j]).spec_accepts(o.spec_atype());
        assert(of_class(accepted@[j], o));
    } else {
        let t = squeezed_type(o).unwrap();
        let j = choose|j: int| 0 <= j < accepted@.len() && (#[trigger] accepted@[j]).spec_accepts(t);
        assert(of_class(accepted@[j], o));
    }
}

} // verus!
