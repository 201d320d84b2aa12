use vstd::prelude::*;
use crate::enc::rex::gen_rex;
use crate::enc::rex::spec_gen_rex;
use crate::shr::ast::AST;
use crate::shr::ast::Instruction;
use crate::shr::ast::Label;
use crate::shr::ast::Operand;
use crate::shr::atype::AType;
use crate::shr::atype::AType::CR;
use crate::shr::atype::AType::DR;
use crate::shr::atype::AType::I16;
use crate::shr::atype::AType::I32;
use crate::shr::atype::AType::I64;
use crate::shr::atype::AType::I8;
use crate::shr::atype::AType::IA;
use crate::shr::atype::AType::M128;
use crate::shr::atype::AType::M16;
use crate::shr::atype::AType::M32;
use crate::shr::atype::AType::M64;
use crate::shr::atype::AType::M8;
use crate::shr::atype::AType::MA;
use crate::shr::atype::AType::MMX;
use crate::shr::atype::AType::R16;
use crate::shr::atype::AType::R32;
use crate::shr::atype::AType::R64;
use crate::shr::atype::AType::R8;
use crate::shr::atype::AType::SR;
use crate::shr::atype::AType::XMM;
use crate::shr::error::RASMError;
use crate::shr::error::RASMErrorView;
use crate::shr::error::error_no_tip;
use crate::shr::error::error_view;
use crate::shr::error::error_with_tip;
use crate::shr::ins::Mnemonic;
use crate::shr::reg::Purpose;
use crate::shr::reg::Register;
use crate::shr::size::Size;

verus! {

/// Whether a rule asks for an operand or only allows it.
#[derive(Clone, Copy, Debug, PartialEq, Eq, Structural)]
pub enum Optional {
    Needed,
    Optional,
}

/// The rule of a mnemonic: for each operand position the types that it
/// takes and whether an operand must stand there, and the pairs of types
/// that destination and source may not have together.
#[derive(Clone, Copy, Debug)]
pub struct Rule {
    pub slots: &'static [(&'static [AType], Optional)],
    pub forb: &'static [(AType, AType)],
}

/// Whether one of `items` accepts an operand of type `searched`.
pub open spec fn spec_find(items: &[AType], searched: AType) -> bool {
    exists|i: int| 0 <= i < items@.len() && (#[trigger] items@[i]).spec_accepts(searched)
}

/// Computes `spec_find`.
pub fn find(items: &[AType], searched: AType) -> (r: bool)
    ensures
        r == spec_find(items, searched),
{
    let mut i: usize = 0;
    while i < items.len()
        invariant
            i <= items@.len(),
            forall|j: int| 0 <= j < i ==> !(#[trigger] items@[j]).spec_accepts(searched),
        decreases items@.len() - i,
    {
        if items[i].accepts(searched) {
            return true;
        }
        i = i + 1;
    }
    false
}

/// Whether `searched` is one of `addts`.
pub open spec fn spec_find_bool(addts: &[Mnemonic], searched: Mnemonic) -> bool {
    exists|i: int| 0 <= i < addts@.len() && #[trigger] addts@[i] == searched
}

/// Computes `spec_find_bool`.
pub fn find_bool(addts: &[Mnemonic], searched: &Mnemonic) -> (r: bool)
    ensures
        r == spec_find_bool(addts, *searched),
{
    let mut i: usize = 0;
    while i < addts.len()
        invariant
            i <= addts@.len(),
            forall|j: int| 0 <= j < i ==> #[trigger] addts@[j] != *searched,
        decreases addts@.len() - i,
    {
        if addts[i] == *searched {
            return true;
        }
        i = i + 1;
    }
    false
}

/// The first of the modifiers from position `from` on that is not one of
/// `accpt`.
pub open spec fn first_forbidden(addt: Seq<Mnemonic>, accpt: &[Mnemonic], from: int) -> Option<Mnemonic>
    decreases addt.len() - from,
{
    if from < 0 || from >= addt.len() {
        None
    } else if !spec_find_bool(accpt, addt[from]) {
        Some(addt[from])
    } else {
        first_forbidden(addt, accpt, from + 1)
    }
}

/// The modifiers of an instruction are all among those that its rule
/// accepts; else an error at the instruction's line.
pub open spec fn spec_addt_chk(ins: &Instruction, accpt_addt: &[Mnemonic]) -> Option<RASMErrorView> {
    match ins.addt {
        Some(addt) => if first_forbidden(addt@, accpt_addt, 0) is Some {
            Some(error_no_tip(Some(ins.line), Some("Use of forbidden additional mnemonic")))
        } else {
            None
        },
        None => None,
    }
}

/// Computes `spec_addt_chk`.
pub fn addt_chk(ins: &Instruction, accpt_addt: &[Mnemonic]) -> (r: Option<RASMError>)
    ensures
        error_view(r) == spec_addt_chk(ins, accpt_addt),
{
    if let Some(addt) = &ins.addt {
        let n = addt.len();
        let mut i: usize = n;
        let mut bad = false;
        while i > 0
            invariant
                i <= n,
                n == addt@.len(),
                bad == first_forbidden(addt@, accpt_addt, i as int) is Some,
            decreases i,
        {
            i = i - 1;
            if !find_bool(accpt_addt, &addt[i]) {
                bad = true;
            }
        }
        if bad {
            return Some(RASMError::no_tip(Some(ins.line), Some("Use of forbidden additional mnemonic")));
        }
    }
    None
}

/// The type of an immediate by the smallest width that holds its value.
pub open spec fn squeezed_type(o: Operand) -> Option<AType> {
    match o {
        Operand::Imm(n) => Some(AType::spec_of_immediate(n.spec_squeezed_size())),
        _ => None,
    }
}

/// Whether a slot that accepts `accepted` takes `operand`: by its type, or,
/// for an immediate, by the type of the smallest width that holds its value.
pub open spec fn slot_takes(operand: Operand, accepted: &[AType]) -> bool {
    spec_find(accepted, operand.spec_atype()) || match squeezed_type(operand) {
        Some(t) => spec_find(accepted, t),
        None => false,
    }
}

/// The error for an operand at position `idx` that its slot does not take.
pub open spec fn type_error(idx: usize) -> RASMErrorView {
    if idx == 0 {
        error_with_tip(
            None,
            Some("Destination operand doesn't match any of expected types"),
            Some("Consider changing destination operand to expected type or removing instruction"),
        )
    } else if idx == 1 {
        error_with_tip(
            None,
            Some("Source operand doesn't match any of expected types"),
            Some("Consider changing source operand to expected type or removing instruction"),
        )
    } else {
        error_with_tip(
            None,
            Some("Operand doesn't match any of expected types"),
            Some("Consider changing operand to expected type or removing instruction"),
        )
    }
}

/// An operand is of a type that its slot takes; else an error without a
/// line.
pub open spec fn spec_type_check(operand: Operand, accepted: &[AType], idx: usize) -> Option<RASMErrorView> {
    if slot_takes(operand, accepted) {
        None
    } else {
        Some(type_error(idx))
    }
}

/// Computes `spec_type_check`.
pub fn type_check(operand: &Operand, accepted: &[AType], idx: usize) -> (r: Option<RASMError>)
    ensures
        error_view(r) == spec_type_check(*operand, accepted, idx),
{
    if find(accepted, operand.atype()) {
        return None;
    }
    if let Operand::Imm(n) = operand {
        if find(accepted, AType::of_immediate(n.squeezed_size())) {
            return None;
        }
    }
    if idx == 0 {
        Some(
            RASMError::with_tip(
                None,
                Some("Destination operand doesn't match any of expected types"),
                Some("Consider changing destination operand to expected type or removing instruction"),
            ),
        )
    } else if idx == 1 {
        Some(
            RASMError::with_tip(
                None,
                Some("Source operand doesn't match any of expected types"),
                Some("Consider changing source operand to expected type or removing instruction"),
            ),
        )
    } else {
        Some(
            RASMError::with_tip(
                None,
                Some("Operand doesn't match any of expected types"),
                Some("Consider changing operand to expected type or removing instruction"),
            ),
        )
    }
}

/// Destination and source are there exactly where `ops` asks for them; else
/// an error without a line.
pub open spec fn spec_operand_check(ins: &Instruction, ops: (bool, bool)) -> Option<RASMErrorView> {
    if ins.spec_dst() is Some && !ops.0 {
        Some(
            error_with_tip(
                None,
                Some("Unexpected destination operand found: expected none, found some"),
                Some("Consider removing destination operand"),
            ),
        )
    } else if ins.spec_dst() is None && ops.0 {
        Some(
            error_with_tip(
                None,
                Some("Expected destination operand, found nothing"),
                Some("Consider adding destination operand"),
            ),
        )
    } else if ins.spec_src() is Some && !ops.1 {
        Some(
            error_with_tip(
                None,
                Some("Unexpected source operand found: expected none, found some"),
                Some("Consider removing source operand"),
            ),
        )
    } else if ins.spec_src() is None && ops.1 {
        Some(
            error_with_tip(
                None,
                Some("Expected source operand, found nothing"),
                Some("Consider adding source operand"),
            ),
        )
    } else {
        None
    }
}

/// Computes `spec_operand_check`.
pub fn operand_check(ins: &Instruction, ops: (bool, bool)) -> (r: Option<RASMError>)
    ensures
        error_view(r) == spec_operand_check(ins, ops),
{
    let d = ins.dst().is_some();
    let s = ins.src().is_some();
    if d && !ops.0 {
        Some(
            RASMError::with_tip(
                None,
                Some("Unexpected destination operand found: expected none, found some"),
                Some("Consider removing destination operand"),
            ),
        )
    } else if !d && ops.0 {
        Some(
            RASMError::with_tip(
                None,
                Some("Expected destination operand, found nothing"),
                Some("Consider adding destination operand"),
            ),
        )
    } else if s && !ops.1 {
        Some(
            RASMError::with_tip(
                None,
                Some("Unexpected source operand found: expected none, found some"),
                Some("Consider removing source operand"),
            ),
        )
    } else if !s && ops.1 {
        Some(
            RASMError::with_tip(
                None,
                Some("Expected source operand, found nothing"),
                Some("Consider adding source operand"),
            ),
        )
    } else {
        None
    }
}

/// Whether registers of a class may stand beside a register of any width.
pub open spec fn width_free(p: Option<Purpose>) -> bool {
    p == Some(Purpose::Dbg) || p == Some(Purpose::Ctrl) || p == Some(Purpose::Sgmnt) || p == Some(
        Purpose::Mmx,
    ) || p == Some(Purpose::F128)
}

/// Whether the widths of destination and source go together. An immediate
/// must fit the destination by the smallest width that holds its value; two
/// memory operands must be equally wide; so must two registers, unless one
/// is a segment, control, debug, MMX or XMM register. A control register is
/// never held against the other operand, and a register is not held against
/// memory.
pub open spec fn sizes_fit(d: Operand, s: Operand) -> bool {
    let dt = d.spec_atype();
    let st = s.spec_atype();
    if d is CtrReg || s is CtrReg {
        true
    } else if (dt.spec_purpose() is Some || dt.spec_is_memory()) && s is Imm {
        s->Imm_0.spec_squeezed_size().spec_bytes() <= dt.spec_size().spec_bytes()
    } else if dt.spec_is_memory() && st.spec_is_memory() {
        dt.spec_size() == st.spec_size()
    } else if dt.spec_purpose() is Some && st.spec_purpose() is Some {
        dt.spec_size() == st.spec_size() || width_free(dt.spec_purpose()) || width_free(st.spec_purpose())
    } else {
        true
    }
}

/// The error for operands whose widths do not go together.
pub open spec fn size_error(ins: &Instruction) -> RASMErrorView {
    if ins.spec_src() matches Some(Operand::Imm(_)) {
        error_with_tip(
            Some(ins.line),
            Some("Tried to use immediate that is too large for destination operand"),
            Some("Consider changing immediate to fit inside destination operand"),
        )
    } else {
        error_with_tip(
            Some(ins.line),
            Some("Tried to use operand that cannot be used for destination operand"),
            Some("Consider changing operand to be as wide as destination operand"),
        )
    }
}

/// The widths of destination and source go together, or the mnemonic allows
/// them to differ; else an error at the instruction's line.
pub open spec fn spec_size_chk(ins: &Instruction) -> Option<RASMErrorView> {
    if sizes_fit(ins.spec_dst().unwrap(), ins.spec_src().unwrap()) || ins.mnem.spec_allows_diff_size() {
        None
    } else {
        Some(size_error(ins))
    }
}

fn fits(d: &Operand, s: &Operand) -> (r: bool)
    ensures
        r == sizes_fit(*d, *s),
{
    let dt = d.atype();
    let st = s.atype();
    let d_cr = match d {
        Operand::CtrReg(_) => true,
        _ => false,
    };
    let s_cr = match s {
        Operand::CtrReg(_) => true,
        _ => false,
    };
    if d_cr || s_cr {
        return true;
    }
    if dt.purpose().is_some() || dt.is_memory() {
        if let Operand::Imm(n) = s {
            return n.squeezed_size().bytes() <= dt.size().bytes();
        }
    }
    if dt.is_memory() && st.is_memory() {
        dt.size() == st.size()
    } else if dt.purpose().is_some() && st.purpose().is_some() {
        dt.size() == st.size() || free(dt.purpose()) || free(st.purpose())
    } else {
        true
    }
}

fn free(p: Option<Purpose>) -> (r: bool)
    ensures
        r == width_free(p),
{
    match p {
        Some(Purpose::Dbg) | Some(Purpose::Ctrl) | Some(Purpose::Sgmnt) | Some(Purpose::Mmx) | Some(
            Purpose::F128,
        ) => true,
        _ => false,
    }
}

/// Computes `spec_size_chk`.
pub fn size_chk(ins: &Instruction) -> (r: Option<RASMError>)
    requires
        ins.spec_dst() is Some,
        ins.spec_src() is Some,
    ensures
        error_view(r) == spec_size_chk(ins),
{
    match (ins.dst(), ins.src()) {
        (Some(d), Some(s)) => {
            if fits(d, s) || ins.mnem.allows_diff_size() {
                None
            } else {
                match s {
                    Operand::Imm(_) => Some(
                        RASMError::with_tip(
                            Some(ins.line),
                            Some("Tried to use immediate that is too large for destination operand"),
                            Some("Consider changing immediate to fit inside destination operand"),
                        ),
                    ),
                    _ => Some(
                        RASMError::with_tip(
                            Some(ins.line),
                            Some("Tried to use operand that cannot be used for destination operand"),
                            Some("Consider changing operand to be as wide as destination operand"),
                        ),
                    ),
                }
            }
        },
        _ => None,
    }
}

/// Whether a pair of `forb` names the types of destination and source.
pub open spec fn is_forbidden(forb: &[(AType, AType)], d: AType, s: AType) -> bool {
    exists|i: int|
        0 <= i < forb@.len() && (#[trigger] forb@[i]).0.spec_accepts(d) && forb@[i].1.spec_accepts(s)
}

/// The types of destination and source, where both are there, are no pair
/// that the rule forbids; else an error at the instruction's line.
pub open spec fn spec_forb_chk(ins: &Instruction, forb: &[(AType, AType)]) -> Option<RASMErrorView> {
    if ins.spec_dst() is Some && ins.spec_src() is Some && is_forbidden(
        forb,
        ins.spec_dst().unwrap().spec_atype(),
        ins.spec_src().unwrap().spec_atype(),
    ) {
        Some(
            error_no_tip(
                Some(ins.line),
                Some("Destination and Source operand have forbidden combination"),
            ),
        )
    } else {
        None
    }
}

/// Computes `spec_forb_chk`.
pub fn forb_chk(ins: &Instruction, forb: &[(AType, AType)]) -> (r: Option<RASMError>)
    ensures
        error_view(r) == spec_forb_chk(ins, forb),
{
    let dst_t = if let Some(dst) = ins.dst() {
        dst.atype()
    } else {
        return None;
    };
    let src_t = if let Some(src) = ins.src() {
        src.atype()
    } else {
        return None;
    };
    let mut i: usize = 0;
    while i < forb.len()
        invariant
            i <= forb@.len(),
            ins.spec_dst() is Some,
            ins.spec_src() is Some,
            dst_t == ins.spec_dst().unwrap().spec_atype(),
            src_t == ins.spec_src().unwrap().spec_atype(),
            forall|j: int|
                0 <= j < i ==> !((#[trigger] forb@[j]).0.spec_accepts(dst_t) && forb@[j].1.spec_accepts(
                    src_t,
                )),
        decreases forb@.len() - i,
    {
        if forb[i].0.accepts(dst_t) && forb[i].1.accepts(src_t) {
            assert(forb@[i as int].0.spec_accepts(dst_t) && forb@[i as int].1.spec_accepts(src_t));
            assert(is_forbidden(forb, dst_t, src_t));
            return Some(
                RASMError::no_tip(
                    Some(ins.line),
                    Some("Destination and Source operand have forbidden combination"),
                ),
            );
        }
        i = i + 1;
    }
    None
}

/// The error of the slot at position `k`, where it is looked at: an operand
/// that is there must be one that the slot takes, and one that is missing
/// must not be needed. A slot is looked at only where every operand before
/// it is there.
pub open spec fn slot_error(ins: &Instruction, ops: &[(&[AType], Optional)], k: int) -> Option<RASMErrorView> {
    if 0 <= k < ops@.len() && k <= ins.oprs@.len() {
        if k < ins.oprs@.len() {
            spec_type_check(ins.oprs@[k], ops@[k].0, k as usize)
        } else if ops@[k].1 == Optional::Needed {
            Some(error_no_tip(Some(ins.line), Some("Needed operand not found")))
        } else {
            None
        }
    } else {
        None
    }
}

/// The first error of the slots from position `k` on.
pub open spec fn slots_error(ins: &Instruction, ops: &[(&[AType], Optional)], k: int) -> Option<RASMErrorView>
    decreases ops@.len() - k,
{
    if k < 0 || k >= ops@.len() {
        None
    } else if slot_error(ins, ops, k) is Some {
        slot_error(ins, ops, k)
    } else {
        slots_error(ins, ops, k + 1)
    }
}

/// The check of an instruction against a rule, in this order: its
/// modifiers; that it has no more operands than the rule has slots; its
/// operands against the slots; the widths of destination and source, where
/// the rule has two slots; the forbidden pairs. The first error is the
/// result.
pub open spec fn spec_ot_chk(
    ins: &Instruction,
    ops: &[(&[AType], Optional)],
    forb: &[(AType, AType)],
    addt: &[Mnemonic],
) -> Option<RASMErrorView> {
    if spec_addt_chk(ins, addt) is Some {
        spec_addt_chk(ins, addt)
    } else if ops@.len() == 0 && ins.oprs@.len() > 0 {
        Some(
            error_no_tip(
                Some(ins.line),
                Some("Instruction doesn't accept any operand, but you tried to use one anyways"),
            ),
        )
    } else if ins.oprs@.len() > ops@.len() {
        Some(error_no_tip(Some(ins.line), Some("Instruction has more operands than it accepts")))
    } else if slots_error(ins, ops, 0) is Some {
        slots_error(ins, ops, 0)
    } else if ops@.len() == 2 && ins.oprs@.len() >= 2 && spec_size_chk(ins) is Some {
        spec_size_chk(ins)
    } else {
        spec_forb_chk(ins, forb)
    }
}

fn slots_chk(ins: &Instruction, ops: &[(&[AType], Optional)]) -> (r: Option<RASMError>)
    ensures
        error_view(r) == slots_error(ins, ops, 0),
{
    let mut idx: usize = 0;
    while idx < ops.len()
        invariant
            idx <= ops@.len(),
            idx <= ins.oprs@.len(),
            slots_error(ins, ops, 0) == slots_error(ins, ops, idx as int),
        decreases ops@.len() - idx,
    {
        if let Some(op) = ins.opr(idx) {
            if let Some(err) = type_check(op, ops[idx].0, idx) {
                return Some(err);
            }
        } else {
            if ops[idx].1 == Optional::Needed {
                return Some(RASMError::no_tip(Some(ins.line), Some("Needed operand not found")));
            } else {
                proof {
                    lemma_slots_past_operands(ins, ops, idx as int + 1);
                }
                return None;
            }
        }
        idx = idx + 1;
    }
    None
}

/// Past the first missing operand no slot is looked at.
proof fn lemma_slots_past_operands(ins: &Instruction, ops: &[(&[AType], Optional)], k: int)
    requires
        k > ins.oprs@.len(),
    ensures
        slots_error(ins, ops, k) is None,
    decreases ops@.len() - k,
{
    if k < ops@.len() {
        lemma_slots_past_operands(ins, ops, k + 1);
    }
}

/// Computes `spec_ot_chk`.
pub fn ot_chk(ins: &Instruction, ops: &[(&[AType], Optional)], forb: &[(AType, AType)], addt: &[Mnemonic]) -> (r:
    Option<RASMError>)
    ensures
        error_view(r) == spec_ot_chk(ins, ops, forb, addt),
{
    if let Some(err) = addt_chk(ins, addt) {
        return Some(err);
    }
    if ops.len() == 0 && ins.oprs.len() > 0 {
        return Some(
            RASMError::no_tip(
                Some(ins.line),
                Some("Instruction doesn't accept any operand, but you tried to use one anyways"),
            ),
        );
    }
    if ins.oprs.len() > ops.len() {
        return Some(RASMError::no_tip(Some(ins.line), Some("Instruction has more operands than it accepts")));
    }
    if let Some(err) = slots_chk(ins, ops) {
        return Some(err);
    }
    if ops.len() == 2 && ins.oprs.len() >= 2 {
        if let Some(err) = size_chk(ins) {
            return Some(err);
        }
    }
    forb_chk(ins, forb)
}

/// Whether the count of a shift is one that the family takes: the register
/// CL, or an immediate that a byte holds.
pub open spec fn shift_count_ok(s: Operand) -> bool {
    match s {
        Operand::Reg(r) => r == Register::CL,
        Operand::Imm(n) => n.spec_squeezed_size() == Size::Byte,
        _ => false,
    }
}

/// The check of a shift: destination and count are there and nothing
/// else, the destination is one that `accepted` takes, and the count is CL
/// or an immediate that a byte holds.
pub open spec fn spec_shift_chk(ins: &Instruction, accepted: &[AType]) -> Option<RASMErrorView> {
    if spec_operand_check(ins, (true, true)) is Some {
        spec_operand_check(ins, (true, true))
    } else if ins.oprs@.len() > 2 {
        Some(error_no_tip(Some(ins.line), Some("Instruction has more operands than it accepts")))
    } else if spec_type_check(ins.spec_dst().unwrap(), accepted, 0) is Some {
        spec_type_check(ins.spec_dst().unwrap(), accepted, 0)
    } else if shift_count_ok(ins.spec_src().unwrap()) {
        None
    } else if ins.spec_src().unwrap() is Imm {
        Some(
            error_with_tip(
                Some(ins.line),
                Some("Expected to found 8-bit number, found larger one instead"),
                Some("sal/shl/shr/sar expect 8-bit number (like 1) or cl register"),
            ),
        )
    } else {
        Some(
            error_with_tip(
                Some(ins.line),
                Some("Source operand type mismatch, expected 8-bit number or cl register"),
                Some("Consider changing source operand to 8-bit number or cl register"),
            ),
        )
    }
}

fn shift_chk(ins: &Instruction, accepted: &[AType]) -> (r: Option<RASMError>)
    ensures
        error_view(r) == spec_shift_chk(ins, accepted),
{
    if let Some(err) = operand_check(ins, (true, true)) {
        return Some(err);
    }
    if ins.oprs.len() > 2 {
        return Some(RASMError::no_tip(Some(ins.line), Some("Instruction has more operands than it accepts")));
    }
    match (ins.dst(), ins.src()) {
        (Some(d), Some(s)) => {
            if let Some(err) = type_check(d, accepted, 0) {
                return Some(err);
            }
            match s {
                Operand::Reg(Register::CL) => None,
                Operand::Imm(i) => {
                    if i.squeezed_size() == Size::Byte {
                        None
                    } else {
                        Some(
                            RASMError::with_tip(
                                Some(ins.line),
                                Some("Expected to found 8-bit number, found larger one instead"),
                                Some("sal/shl/shr/sar expect 8-bit number (like 1) or cl register"),
                            ),
                        )
                    }
                },
                _ => Some(
                    RASMError::with_tip(
                        Some(ins.line),
                        Some("Source operand type mismatch, expected 8-bit number or cl register"),
                        Some("Consider changing source operand to 8-bit number or cl register"),
                    ),
                ),
            }
        },
        _ => None,
    }
}

/// The rules that hold in both modes. A mnemonic without a rule here and
/// without one of its own in the mode at hand is not supported.
///
/// The rules name the operands that the instruction set gives a mnemonic.
/// So CLFLUSH takes a byte of memory and PAUSE nothing in either mode, MOVD
/// moves no XMM register to another in either mode, and MOVQ may move
/// between two registers of one file.
pub open spec fn spec_shr_rule(m: Mnemonic) -> Option<Rule> {
    match m {
        Mnemonic::CLFLUSH =>
            Some(Rule { slots: &[(&[M8], Optional::Needed)], forb: &[] }),
        Mnemonic::PAUSE | Mnemonic::LFENCE | Mnemonic::MFENCE | Mnemonic::MONITOR
        | Mnemonic::MWAIT | Mnemonic::EMMS =>
            Some(Rule { slots: &[], forb: &[] }),
        Mnemonic::CVTSS2SI =>
            Some(Rule { slots: &[(&[R32, R64], Optional::Needed), (&[XMM, M32], Optional::Needed)],
                forb: &[] }),
        Mnemonic::CVTPS2PI | Mnemonic::CVTTPS2PI =>
            Some(Rule { slots: &[(&[MMX], Optional::Needed), (&[XMM, M64], Optional::Needed)],
                forb: &[] }),
        Mnemonic::CVTPI2PS | Mnemonic::CVTPI2PD =>
            Some(Rule { slots: &[(&[XMM], Optional::Needed), (&[MMX, M64], Optional::Needed)],
                forb: &[] }),
        Mnemonic::CVTSI2SS | Mnemonic::CVTSI2SD =>
            Some(Rule { slots: &[(&[XMM], Optional::Needed), (&[R32, R64, M32, M64],
                Optional::Needed)], forb: &[] }),
        Mnemonic::CMPSS | Mnemonic::ROUNDSS | Mnemonic::INSERTPS =>
            Some(Rule { slots: &[(&[XMM], Optional::Needed), (&[XMM, M32], Optional::Needed),
                (&[I8], Optional::Needed)], forb: &[] }),
        Mnemonic::CMPPS | Mnemonic::SHUFPS | Mnemonic::CMPPD | Mnemonic::PSHUFLW
        | Mnemonic::PSHUFHW | Mnemonic::PSHUFD | Mnemonic::DPPS | Mnemonic::DPPD
        | Mnemonic::BLENDPS | Mnemonic::BLENDPD | Mnemonic::PBLENDW | Mnemonic::ROUNDPS
        | Mnemonic::ROUNDPD | Mnemonic::MPSADBW | Mnemonic::PCMPESTRI | Mnemonic::PCMPESTRM
        | Mnemonic::PCMPISTRM | Mnemonic::PCMPISTRI =>
            Some(Rule { slots: &[(&[XMM], Optional::Needed), (&[XMM, M128], Optional::Needed),
                (&[I8], Optional::Needed)], forb: &[] }),
        Mnemonic::CMPSD | Mnemonic::ROUNDSD =>
            Some(Rule { slots: &[(&[XMM], Optional::Needed), (&[XMM, M64], Optional::Needed),
                (&[I8], Optional::Needed)], forb: &[] }),
        Mnemonic::MOVHPS | Mnemonic::MOVLPS | Mnemonic::MOVLPD | Mnemonic::MOVHPD
        | Mnemonic::MOVSD =>
            Some(Rule { slots: &[(&[XMM, M64], Optional::Needed), (&[XMM, M64], Optional::Needed)],
                forb: &[(M64, M64)] }),
        Mnemonic::MOVLHPS | Mnemonic::MOVHLPS | Mnemonic::MASKMOVDQU =>
            Some(Rule { slots: &[(&[XMM], Optional::Needed), (&[XMM], Optional::Needed)],
                forb: &[] }),
        Mnemonic::MOVAPS | Mnemonic::MOVUPS | Mnemonic::MOVAPD | Mnemonic::MOVUPD
        | Mnemonic::MOVDQA =>
            Some(Rule { slots: &[(&[XMM, M128], Optional::Needed), (&[XMM, M128],
                Optional::Needed)], forb: &[(M128, M128)] }),
        Mnemonic::MOVSS =>
            Some(Rule { slots: &[(&[XMM, M32], Optional::Needed), (&[XMM, M32], Optional::Needed)],
                forb: &[(M32, M32)] }),
        Mnemonic::SQRTSS | Mnemonic::ADDSS | Mnemonic::SUBSS | Mnemonic::DIVSS
        | Mnemonic::MULSS | Mnemonic::RCPSS | Mnemonic::RSQRTSS | Mnemonic::MINSS
        | Mnemonic::MAXSS | Mnemonic::COMISS | Mnemonic::UCOMISS | Mnemonic::CVTSS2SD =>
            Some(Rule { slots: &[(&[XMM], Optional::Needed), (&[XMM, M32], Optional::Needed)],
                forb: &[] }),
        Mnemonic::ADDPS | Mnemonic::SUBPS | Mnemonic::DIVPS | Mnemonic::MULPS | Mnemonic::RCPPS
        | Mnemonic::SQRTPS | Mnemonic::RSQRTPS | Mnemonic::MINPS | Mnemonic::MAXPS
        | Mnemonic::ORPS | Mnemonic::ANDPS | Mnemonic::ANDNPS | Mnemonic::XORPS
        | Mnemonic::UNPCKLPS | Mnemonic::UNPCKHPS | Mnemonic::ADDPD | Mnemonic::SUBPD
        | Mnemonic::DIVPD | Mnemonic::MULPD | Mnemonic::SQRTPD | Mnemonic::MINPD
        | Mnemonic::MAXPD | Mnemonic::ORPD | Mnemonic::ANDPD | Mnemonic::ANDNPD
        | Mnemonic::XORPD | Mnemonic::CVTPS2DQ | Mnemonic::CVTTPS2DQ | Mnemonic::CVTDQ2PS
        | Mnemonic::CVTPD2PS | Mnemonic::PUNPCKHQDQ | Mnemonic::PUNPCKLQDQ | Mnemonic::ADDSUBPD
        | Mnemonic::ADDSUBPS | Mnemonic::HADDPD | Mnemonic::HADDPS | Mnemonic::HSUBPS
        | Mnemonic::HSUBPD | Mnemonic::MOVSLDUP | Mnemonic::MOVSHDUP | Mnemonic::PTEST
        | Mnemonic::PMAXSB | Mnemonic::PMAXSD | Mnemonic::PMAXUW | Mnemonic::PMINSD
        | Mnemonic::PMINSB | Mnemonic::PMINUW | Mnemonic::PMULDQ | Mnemonic::PMULLD
        | Mnemonic::PCMPEQQ | Mnemonic::PCMPGTQ | Mnemonic::BLENDVPS | Mnemonic::BLENDVPD
        | Mnemonic::PBLENDVB | Mnemonic::PACKUSDW | Mnemonic::PHMINPOSUW =>
            Some(Rule { slots: &[(&[XMM], Optional::Needed), (&[XMM, M128], Optional::Needed)],
                forb: &[] }),
        Mnemonic::SQRTSD | Mnemonic::ADDSD | Mnemonic::SUBSD | Mnemonic::DIVSD
        | Mnemonic::MULSD | Mnemonic::MINSD | Mnemonic::COMISD | Mnemonic::UCOMISD
        | Mnemonic::MAXSD | Mnemonic::CVTDQ2PD | Mnemonic::CVTPS2PD | Mnemonic::CVTSD2SS
        | Mnemonic::MOVDDUP =>
            Some(Rule { slots: &[(&[XMM], Optional::Needed), (&[XMM, M64], Optional::Needed)],
                forb: &[] }),
        Mnemonic::CVTPD2PI | Mnemonic::CVTTPD2PI =>
            Some(Rule { slots: &[(&[MMX], Optional::Needed), (&[XMM, M128], Optional::Needed)],
                forb: &[] }),
        Mnemonic::MOVDQ2Q =>
            Some(Rule { slots: &[(&[MMX], Optional::Needed), (&[XMM], Optional::Needed)],
                forb: &[] }),
        Mnemonic::MOVMSKPD =>
            Some(Rule { slots: &[(&[R32, R64], Optional::Needed), (&[XMM], Optional::Needed)],
                forb: &[] }),
        Mnemonic::CVTSD2SI | Mnemonic::CVTTSD2SI =>
            Some(Rule { slots: &[(&[R32, R64], Optional::Needed), (&[XMM, M64], Optional::Needed)],
                forb: &[] }),
        Mnemonic::MOVNTDQ | Mnemonic::MOVNTPD =>
            Some(Rule { slots: &[(&[M128], Optional::Needed), (&[XMM], Optional::Needed)],
                forb: &[] }),
        Mnemonic::MOVNTI =>
            Some(Rule { slots: &[(&[M32, M64], Optional::Needed), (&[R32, R64], Optional::Needed)],
                forb: &[] }),
        Mnemonic::MOVD =>
            Some(Rule { slots: &[(&[MMX, XMM, R32, M32], Optional::Needed), (&[MMX, XMM, R32, M32],
                Optional::Needed)], forb: &[(M32, M32), (R32, R32), (MMX, MMX), (XMM, XMM), (XMM,
                MMX), (MMX, XMM)] }),
        Mnemonic::MOVQ =>
            Some(Rule { slots: &[(&[MMX, XMM, R64, M64], Optional::Needed), (&[MMX, XMM, R64, M64],
                Optional::Needed)], forb: &[(M64, M64), (R64, R64), (XMM, MMX), (MMX, XMM)] }),
        Mnemonic::PSLLW | Mnemonic::PSLLD | Mnemonic::PSLLQ | Mnemonic::PSRLW | Mnemonic::PSRLD
        | Mnemonic::PSRLQ | Mnemonic::PSRAD | Mnemonic::PSRAW =>
            Some(Rule { slots: &[(&[MMX, XMM], Optional::Needed), (&[I8, MMX, XMM, M64, M128],
                Optional::Needed)], forb: &[(XMM, MMX), (MMX, XMM), (XMM, M64), (MMX, M128)] }),
        Mnemonic::PADDB | Mnemonic::PADDW | Mnemonic::PADDD | Mnemonic::PADDQ
        | Mnemonic::PADDSB | Mnemonic::PADDSW | Mnemonic::PSUBB | Mnemonic::PSUBW
        | Mnemonic::PSUBD | Mnemonic::PSUBQ | Mnemonic::PSUBSB | Mnemonic::PSUBSW
        | Mnemonic::PMULHW | Mnemonic::PMULLW | Mnemonic::PMULUDQ | Mnemonic::PMADDWD
        | Mnemonic::PCMPGTB | Mnemonic::PCMPGTW | Mnemonic::PCMPGTD | Mnemonic::PCMPEQB
        | Mnemonic::PCMPEQW | Mnemonic::PCMPEQD | Mnemonic::PACKSSWB | Mnemonic::PACKSSDW
        | Mnemonic::PACKUSWB | Mnemonic::PUNPCKLBW | Mnemonic::PUNPCKLWD | Mnemonic::PUNPCKLDQ
        | Mnemonic::PUNPCKHBW | Mnemonic::PUNPCKHWD | Mnemonic::PUNPCKHDQ | Mnemonic::PAND
        | Mnemonic::PANDN | Mnemonic::POR | Mnemonic::PXOR | Mnemonic::PABSW | Mnemonic::PABSD
        | Mnemonic::PABSB | Mnemonic::PSIGNW | Mnemonic::PSIGND | Mnemonic::PSIGNB
        | Mnemonic::PHSUBW | Mnemonic::PHSUBD | Mnemonic::PHADDW | Mnemonic::PHADDD
        | Mnemonic::PSHUFB | Mnemonic::PHSUBSW | Mnemonic::PHADDSW | Mnemonic::PMULHRSW
        | Mnemonic::PMADDUBSW =>
            Some(Rule { slots: &[(&[MMX, XMM], Optional::Needed), (&[MMX, XMM, M64, M128],
                Optional::Needed)], forb: &[(XMM, MMX), (MMX, XMM), (XMM, M64), (MMX, M128)] }),
        Mnemonic::PSLLDQ | Mnemonic::PSRLDQ =>
            Some(Rule { slots: &[(&[XMM], Optional::Needed), (&[I8], Optional::Needed)],
                forb: &[] }),
        Mnemonic::LDDQU | Mnemonic::MOVNTDQA =>
            Some(Rule { slots: &[(&[XMM], Optional::Needed), (&[M128], Optional::Needed)],
                forb: &[] }),
        Mnemonic::PALIGNR =>
            Some(Rule { slots: &[(&[MMX, XMM], Optional::Needed), (&[MMX, XMM, M64, M128],
                Optional::Needed), (&[I8], Optional::Needed)], forb: &[(XMM, MMX), (MMX, XMM),
                (XMM, M64), (MMX, M128)] }),
        Mnemonic::PINSRQ =>
            Some(Rule { slots: &[(&[XMM], Optional::Needed), (&[R64, M64], Optional::Needed),
                (&[I8], Optional::Needed)], forb: &[] }),
        Mnemonic::PINSRD =>
            Some(Rule { slots: &[(&[XMM], Optional::Needed), (&[R32, M32], Optional::Needed),
                (&[I8], Optional::Needed)], forb: &[] }),
        Mnemonic::PINSRB =>
            Some(Rule { slots: &[(&[XMM], Optional::Needed), (&[R32, M8], Optional::Needed),
                (&[I8], Optional::Needed)], forb: &[] }),
        Mnemonic::PEXTRB =>
            Some(Rule { slots: &[(&[R32, R64, M8], Optional::Needed), (&[XMM], Optional::Needed),
                (&[I8], Optional::Needed)], forb: &[] }),
        Mnemonic::PEXTRD =>
            Some(Rule { slots: &[(&[R32, M32], Optional::Needed), (&[XMM], Optional::Needed),
                (&[I8], Optional::Needed)], forb: &[] }),
        Mnemonic::PEXTRQ =>
            Some(Rule { slots: &[(&[R64, M64], Optional::Needed), (&[XMM], Optional::Needed),
                (&[I8], Optional::Needed)], forb: &[] }),
        Mnemonic::PEXTRW =>
            Some(Rule { slots: &[(&[R32, R64, M16], Optional::Needed), (&[XMM], Optional::Needed),
                (&[I8], Optional::Needed)], forb: &[] }),
        Mnemonic::EXTRACTPS =>
            Some(Rule { slots: &[(&[R32, R64, M32], Optional::Needed), (&[XMM], Optional::Needed),
                (&[I8], Optional::Needed)], forb: &[] }),
        Mnemonic::POPCNT =>
            Some(Rule { slots: &[(&[R16, R32, R64], Optional::Needed), (&[R16, M16, R32, M32, R64,
                M64], Optional::Needed)], forb: &[(R16, M32), (R16, M64), (R16, R32), (R16, R64),
                (R32, R16), (R32, R64), (R32, M16), (R32, M64), (R64, R16), (R64, R32), (R64, M16),
                (R64, M32)] }),
        Mnemonic::CRC32 =>
            Some(Rule { slots: &[(&[R32, R64], Optional::Needed), (&[R8, R16, R32, R64, M8, M16,
                M32, M64], Optional::Needed)], forb: &[] }),
        _ => None,
    }
}

/// Computes `spec_shr_rule`.
#[verifier::when_used_as_spec(spec_shr_rule)]
pub fn shr_rule(m: Mnemonic) -> (r: Option<Rule>)
    ensures
        r == spec_shr_rule(m),
{
    match m {
        Mnemonic::CLFLUSH =>
            Some(Rule { slots: &[(&[M8], Optional::Needed)], forb: &[] }),
        Mnemonic::PAUSE | Mnemonic::LFENCE | Mnemonic::MFENCE | Mnemonic::MONITOR
        | Mnemonic::MWAIT | Mnemonic::EMMS =>
            Some(Rule { slots: &[], forb: &[] }),
        Mnemonic::CVTSS2SI =>
            Some(Rule { slots: &[(&[R32, R64], Optional::Needed), (&[XMM, M32], Optional::Needed)],
                forb: &[] }),
        Mnemonic::CVTPS2PI | Mnemonic::CVTTPS2PI =>
            Some(Rule { slots: &[(&[MMX], Optional::Needed), (&[XMM, M64], Optional::Needed)],
                forb: &[] }),
        Mnemonic::CVTPI2PS | Mnemonic::CVTPI2PD =>
            Some(Rule { slots: &[(&[XMM], Optional::Needed), (&[MMX, M64], Optional::Needed)],
                forb: &[] }),
        Mnemonic::CVTSI2SS | Mnemonic::CVTSI2SD =>
            Some(Rule { slots: &[(&[XMM], Optional::Needed), (&[R32, R64, M32, M64],
                Optional::Needed)], forb: &[] }),
        Mnemonic::CMPSS | Mnemonic::ROUNDSS | Mnemonic::INSERTPS =>
            Some(Rule { slots: &[(&[XMM], Optional::Needed), (&[XMM, M32], Optional::Needed),
                (&[I8], Optional::Needed)], forb: &[] }),
        Mnemonic::CMPPS | Mnemonic::SHUFPS | Mnemonic::CMPPD | Mnemonic::PSHUFLW
        | Mnemonic::PSHUFHW | Mnemonic::PSHUFD | Mnemonic::DPPS | Mnemonic::DPPD
        | Mnemonic::BLENDPS | Mnemonic::BLENDPD | Mnemonic::PBLENDW | Mnemonic::ROUNDPS
        | Mnemonic::ROUNDPD | Mnemonic::MPSADBW | Mnemonic::PCMPESTRI | Mnemonic::PCMPESTRM
        | Mnemonic::PCMPISTRM | Mnemonic::PCMPISTRI =>
            Some(Rule { slots: &[(&[XMM], Optional::Needed), (&[XMM, M128], Optional::Needed),
                (&[I8], Optional::Needed)], forb: &[] }),
        Mnemonic::CMPSD | Mnemonic::ROUNDSD =>
            Some(Rule { slots: &[(&[XMM], Optional::Needed), (&[XMM, M64], Optional::Needed),
                (&[I8], Optional::Needed)], forb: &[] }),
        Mnemonic::MOVHPS | Mnemonic::MOVLPS | Mnemonic::MOVLPD | Mnemonic::MOVHPD
        | Mnemonic::MOVSD =>
            Some(Rule { slots: &[(&[XMM, M64], Optional::Needed), (&[XMM, M64], Optional::Needed)],
                forb: &[(M64, M64)] }),
        Mnemonic::MOVLHPS | Mnemonic::MOVHLPS | Mnemonic::MASKMOVDQU =>
            Some(Rule { slots: &[(&[XMM], Optional::Needed), (&[XMM], Optional::Needed)],
                forb: &[] }),
        Mnemonic::MOVAPS | Mnemonic::MOVUPS | Mnemonic::MOVAPD | Mnemonic::MOVUPD
        | Mnemonic::MOVDQA =>
            Some(Rule { slots: &[(&[XMM, M128], Optional::Needed), (&[XMM, M128],
                Optional::Needed)], forb: &[(M128, M128)] }),
        Mnemonic::MOVSS =>
            Some(Rule { slots: &[(&[XMM, M32], Optional::Needed), (&[XMM, M32], Optional::Needed)],
                forb: &[(M32, M32)] }),
        Mnemonic::SQRTSS | Mnemonic::ADDSS | Mnemonic::SUBSS | Mnemonic::DIVSS
        | Mnemonic::MULSS | Mnemonic::RCPSS | Mnemonic::RSQRTSS | Mnemonic::MINSS
        | Mnemonic::MAXSS | Mnemonic::COMISS | Mnemonic::UCOMISS | Mnemonic::CVTSS2SD =>
            Some(Rule { slots: &[(&[XMM], Optional::Needed), (&[XMM, M32], Optional::Needed)],
                forb: &[] }),
        Mnemonic::ADDPS | Mnemonic::SUBPS | Mnemonic::DIVPS | Mnemonic::MULPS | Mnemonic::RCPPS
        | Mnemonic::SQRTPS | Mnemonic::RSQRTPS | Mnemonic::MINPS | Mnemonic::MAXPS
        | Mnemonic::ORPS | Mnemonic::ANDPS | Mnemonic::ANDNPS | Mnemonic::XORPS
        | Mnemonic::UNPCKLPS | Mnemonic::UNPCKHPS | Mnemonic::ADDPD | Mnemonic::SUBPD
        | Mnemonic::DIVPD | Mnemonic::MULPD | Mnemonic::SQRTPD | Mnemonic::MINPD
        | Mnemonic::MAXPD | Mnemonic::ORPD | Mnemonic::ANDPD | Mnemonic::ANDNPD
        | Mnemonic::XORPD | Mnemonic::CVTPS2DQ | Mnemonic::CVTTPS2DQ | Mnemonic::CVTDQ2PS
        | Mnemonic::CVTPD2PS | Mnemonic::PUNPCKHQDQ | Mnemonic::PUNPCKLQDQ | Mnemonic::ADDSUBPD
        | Mnemonic::ADDSUBPS | Mnemonic::HADDPD | Mnemonic::HADDPS | Mnemonic::HSUBPS
        | Mnemonic::HSUBPD | Mnemonic::MOVSLDUP | Mnemonic::MOVSHDUP | Mnemonic::PTEST
        | Mnemonic::PMAXSB | Mnemonic::PMAXSD | Mnemonic::PMAXUW | Mnemonic::PMINSD
        | Mnemonic::PMINSB | Mnemonic::PMINUW | Mnemonic::PMULDQ | Mnemonic::PMULLD
        | Mnemonic::PCMPEQQ | Mnemonic::PCMPGTQ | Mnemonic::BLENDVPS | Mnemonic::BLENDVPD
        | Mnemonic::PBLENDVB | Mnemonic::PACKUSDW | Mnemonic::PHMINPOSUW =>
            Some(Rule { slots: &[(&[XMM], Optional::Needed), (&[XMM, M128], Optional::Needed)],
                forb: &[] }),
        Mnemonic::SQRTSD | Mnemonic::ADDSD | Mnemonic::SUBSD | Mnemonic::DIVSD
        | Mnemonic::MULSD | Mnemonic::MINSD | Mnemonic::COMISD | Mnemonic::UCOMISD
        | Mnemonic::MAXSD | Mnemonic::CVTDQ2PD | Mnemonic::CVTPS2PD | Mnemonic::CVTSD2SS
        | Mnemonic::MOVDDUP =>
            Some(Rule { slots: &[(&[XMM], Optional::Needed), (&[XMM, M64], Optional::Needed)],
                forb: &[] }),
        Mnemonic::CVTPD2PI | Mnemonic::CVTTPD2PI =>
            Some(Rule { slots: &[(&[MMX], Optional::Needed), (&[XMM, M128], Optional::Needed)],
                forb: &[] }),
        Mnemonic::MOVDQ2Q =>
            Some(Rule { slots: &[(&[MMX], Optional::Needed), (&[XMM], Optional::Needed)],
                forb: &[] }),
        Mnemonic::MOVMSKPD =>
            Some(Rule { slots: &[(&[R32, R64], Optional::Needed), (&[XMM], Optional::Needed)],
                forb: &[] }),
        Mnemonic::CVTSD2SI | Mnemonic::CVTTSD2SI =>
            Some(Rule { slots: &[(&[R32, R64], Optional::Needed), (&[XMM, M64], Optional::Needed)],
                forb: &[] }),
        Mnemonic::MOVNTDQ | Mnemonic::MOVNTPD =>
            Some(Rule { slots: &[(&[M128], Optional::Needed), (&[XMM], Optional::Needed)],
                forb: &[] }),
        Mnemonic::MOVNTI =>
            Some(Rule { slots: &[(&[M32, M64], Optional::Needed), (&[R32, R64], Optional::Needed)],
                forb: &[] }),
        Mnemonic::MOVD =>
            Some(Rule { slots: &[(&[MMX, XMM, R32, M32], Optional::Needed), (&[MMX, XMM, R32, M32],
                Optional::Needed)], forb: &[(M32, M32), (R32, R32), (MMX, MMX), (XMM, XMM), (XMM,
                MMX), (MMX, XMM)] }),
        Mnemonic::MOVQ =>
            Some(Rule { slots: &[(&[MMX, XMM, R64, M64], Optional::Needed), (&[MMX, XMM, R64, M64],
                Optional::Needed)], forb: &[(M64, M64), (R64, R64), (XMM, MMX), (MMX, XMM)] }),
        Mnemonic::PSLLW | Mnemonic::PSLLD | Mnemonic::PSLLQ | Mnemonic::PSRLW | Mnemonic::PSRLD
        | Mnemonic::PSRLQ | Mnemonic::PSRAD | Mnemonic::PSRAW =>
            Some(Rule { slots: &[(&[MMX, XMM], Optional::Needed), (&[I8, MMX, XMM, M64, M128],
                Optional::Needed)], forb: &[(XMM, MMX), (MMX, XMM), (XMM, M64), (MMX, M128)] }),
        Mnemonic::PADDB | Mnemonic::PADDW | Mnemonic::PADDD | Mnemonic::PADDQ
        | Mnemonic::PADDSB | Mnemonic::PADDSW | Mnemonic::PSUBB | Mnemonic::PSUBW
        | Mnemonic::PSUBD | Mnemonic::PSUBQ | Mnemonic::PSUBSB | Mnemonic::PSUBSW
        | Mnemonic::PMULHW | Mnemonic::PMULLW | Mnemonic::PMULUDQ | Mnemonic::PMADDWD
        | Mnemonic::PCMPGTB | Mnemonic::PCMPGTW | Mnemonic::PCMPGTD | Mnemonic::PCMPEQB
        | Mnemonic::PCMPEQW | Mnemonic::PCMPEQD | Mnemonic::PACKSSWB | Mnemonic::PACKSSDW
        | Mnemonic::PACKUSWB | Mnemonic::PUNPCKLBW | Mnemonic::PUNPCKLWD | Mnemonic::PUNPCKLDQ
        | Mnemonic::PUNPCKHBW | Mnemonic::PUNPCKHWD | Mnemonic::PUNPCKHDQ | Mnemonic::PAND
        | Mnemonic::PANDN | Mnemonic::POR | Mnemonic::PXOR | Mnemonic::PABSW | Mnemonic::PABSD
        | Mnemonic::PABSB | Mnemonic::PSIGNW | Mnemonic::PSIGND | Mnemonic::PSIGNB
        | Mnemonic::PHSUBW | Mnemonic::PHSUBD | Mnemonic::PHADDW | Mnemonic::PHADDD
        | Mnemonic::PSHUFB | Mnemonic::PHSUBSW | Mnemonic::PHADDSW | Mnemonic::PMULHRSW
        | Mnemonic::PMADDUBSW =>
            Some(Rule { slots: &[(&[MMX, XMM], Optional::Needed), (&[MMX, XMM, M64, M128],
                Optional::Needed)], forb: &[(XMM, MMX), (MMX, XMM), (XMM, M64), (MMX, M128)] }),
        Mnemonic::PSLLDQ | Mnemonic::PSRLDQ =>
            Some(Rule { slots: &[(&[XMM], Optional::Needed), (&[I8], Optional::Needed)],
                forb: &[] }),
        Mnemonic::LDDQU | Mnemonic::MOVNTDQA =>
            Some(Rule { slots: &[(&[XMM], Optional::Needed), (&[M128], Optional::Needed)],
                forb: &[] }),
        Mnemonic::PALIGNR =>
            Some(Rule { slots: &[(&[MMX, XMM], Optional::Needed), (&[MMX, XMM, M64, M128],
                Optional::Needed), (&[I8], Optional::Needed)], forb: &[(XMM, MMX), (MMX, XMM),
                (XMM, M64), (MMX, M128)] }),
        Mnemonic::PINSRQ =>
            Some(Rule { slots: &[(&[XMM], Optional::Needed), (&[R64, M64], Optional::Needed),
                (&[I8], Optional::Needed)], forb: &[] }),
        Mnemonic::PINSRD =>
            Some(Rule { slots: &[(&[XMM], Optional::Needed), (&[R32, M32], Optional::Needed),
                (&[I8], Optional::Needed)], forb: &[] }),
        Mnemonic::PINSRB =>
            Some(Rule { slots: &[(&[XMM], Optional::Needed), (&[R32, M8], Optional::Needed),
                (&[I8], Optional::Needed)], forb: &[] }),
        Mnemonic::PEXTRB =>
            Some(Rule { slots: &[(&[R32, R64, M8], Optional::Needed), (&[XMM], Optional::Needed),
                (&[I8], Optional::Needed)], forb: &[] }),
        Mnemonic::PEXTRD =>
            Some(Rule { slots: &[(&[R32, M32], Optional::Needed), (&[XMM], Optional::Needed),
                (&[I8], Optional::Needed)], forb: &[] }),
        Mnemonic::PEXTRQ =>
            Some(Rule { slots: &[(&[R64, M64], Optional::Needed), (&[XMM], Optional::Needed),
                (&[I8], Optional::Needed)], forb: &[] }),
        Mnemonic::PEXTRW =>
            Some(Rule { slots: &[(&[R32, R64, M16], Optional::Needed), (&[XMM], Optional::Needed),
                (&[I8], Optional::Needed)], forb: &[] }),
        Mnemonic::EXTRACTPS =>
            Some(Rule { slots: &[(&[R32, R64, M32], Optional::Needed), (&[XMM], Optional::Needed),
                (&[I8], Optional::Needed)], forb: &[] }),
        Mnemonic::POPCNT =>
            Some(Rule { slots: &[(&[R16, R32, R64], Optional::Needed), (&[R16, M16, R32, M32, R64,
                M64], Optional::Needed)], forb: &[(R16, M32), (R16, M64), (R16, R32), (R16, R64),
                (R32, R16), (R32, R64), (R32, M16), (R32, M64), (R64, R16), (R64, R32), (R64, M16),
                (R64, M32)] }),
        Mnemonic::CRC32 =>
            Some(Rule { slots: &[(&[R32, R64], Optional::Needed), (&[R8, R16, R32, R64, M8, M16,
                M32, M64], Optional::Needed)], forb: &[] }),
        _ => None,
    }
}

/// The rules that hold in 64-bit mode only.
pub open spec fn spec_rule64(m: Mnemonic) -> Option<Rule> {
    match m {
        Mnemonic::PUSH =>
            Some(Rule { slots: &[(&[R16, R64, M16, M64, I8, I16, I32, SR], Optional::Needed)],
                forb: &[] }),
        Mnemonic::POP =>
            Some(Rule { slots: &[(&[R16, R64, M16, M64, SR], Optional::Needed)], forb: &[] }),
        Mnemonic::MOV =>
            Some(Rule { slots: &[(&[R8, R16, R32, R64, M8, M16, M32, M64, SR, CR, DR],
                Optional::Needed), (&[R8, R16, R32, R64, M8, M16, M32, M64, I8, I16, I32, I64, SR,
                CR, DR], Optional::Needed)], forb: &[(MA, MA), (R32, SR), (M32, SR), (M8, SR), (R8,
                SR), (SR, R32), (SR, R8), (SR, IA), (SR, M32), (SR, M8), (CR, IA), (CR, R8), (CR,
                R16), (CR, R32), (R32, CR), (R16, CR), (R8, CR), (CR, MA), (MA, CR), (DR, IA), (DR,
                R8), (DR, R16), (DR, R32), (R32, DR), (R16, DR), (R8, DR), (DR, MA), (MA, DR), (SR,
                CR), (SR, DR), (CR, SR), (CR, DR), (DR, SR), (DR, CR), (SR, SR), (DR, DR), (CR,
                CR)] }),
        Mnemonic::SUB | Mnemonic::ADD | Mnemonic::CMP | Mnemonic::AND | Mnemonic::OR
        | Mnemonic::XOR =>
            Some(Rule { slots: &[(&[R8, R16, R32, R64, M8, M16, M32, M64], Optional::Needed),
                (&[R8, R16, R32, R64, M8, M16, M32, M64, I8, I16, I32], Optional::Needed)],
                forb: &[(MA, MA)] }),
        Mnemonic::IMUL =>
            Some(Rule { slots: &[(&[R8, R16, R32, R64, M8, M16, M32, M64], Optional::Needed),
                (&[R16, R32, R64, M16, M32, M64], Optional::Optional), (&[I8, I16, I32],
                Optional::Optional)], forb: &[(MA, MA)] }),
        Mnemonic::TEST =>
            Some(Rule { slots: &[(&[R8, R16, R32, R64, M8, M16, M32, M64], Optional::Needed),
                (&[I8, I16, I32, R8, R16, R32, R64], Optional::Needed)], forb: &[] }),
        Mnemonic::DIV | Mnemonic::IDIV | Mnemonic::MUL | Mnemonic::DEC | Mnemonic::INC
        | Mnemonic::NEG | Mnemonic::NOT =>
            Some(Rule { slots: &[(&[R8, R16, R32, R64, M8, M16, M32, M64], Optional::Needed)],
                forb: &[] }),
        Mnemonic::JMP | Mnemonic::CALL =>
            Some(Rule { slots: &[(&[AType::Symbol, R64, M64], Optional::Needed)], forb: &[] }),
        Mnemonic::JE | Mnemonic::JNE | Mnemonic::JZ | Mnemonic::JNZ | Mnemonic::JL
        | Mnemonic::JLE | Mnemonic::JG | Mnemonic::JGE =>
            Some(Rule { slots: &[(&[AType::Symbol], Optional::Needed)], forb: &[] }),
        Mnemonic::LEA =>
            Some(Rule { slots: &[(&[R16, R32, R64], Optional::Needed), (&[AType::Symbol],
                Optional::Needed)], forb: &[] }),
        Mnemonic::SYSCALL | Mnemonic::RET | Mnemonic::NOP | Mnemonic::PUSHF | Mnemonic::POPF
        | Mnemonic::POPFQ | Mnemonic::PUSHFQ =>
            Some(Rule { slots: &[], forb: &[] }),
        _ => None,
    }
}

/// Computes `spec_rule64`.
#[verifier::when_used_as_spec(spec_rule64)]
pub fn rule64(m: Mnemonic) -> (r: Option<Rule>)
    ensures
        r == spec_rule64(m),
{
    match m {
        Mnemonic::PUSH =>
            Some(Rule { slots: &[(&[R16, R64, M16, M64, I8, I16, I32, SR], Optional::Needed)],
                forb: &[] }),
        Mnemonic::POP =>
            Some(Rule { slots: &[(&[R16, R64, M16, M64, SR], Optional::Needed)], forb: &[] }),
        Mnemonic::MOV =>
            Some(Rule { slots: &[(&[R8, R16, R32, R64, M8, M16, M32, M64, SR, CR, DR],
                Optional::Needed), (&[R8, R16, R32, R64, M8, M16, M32, M64, I8, I16, I32, I64, SR,
                CR, DR], Optional::Needed)], forb: &[(MA, MA), (R32, SR), (M32, SR), (M8, SR), (R8,
                SR), (SR, R32), (SR, R8), (SR, IA), (SR, M32), (SR, M8), (CR, IA), (CR, R8), (CR,
                R16), (CR, R32), (R32, CR), (R16, CR), (R8, CR), (CR, MA), (MA, CR), (DR, IA), (DR,
                R8), (DR, R16), (DR, R32), (R32, DR), (R16, DR), (R8, DR), (DR, MA), (MA, DR), (SR,
                CR), (SR, DR), (CR, SR), (CR, DR), (DR, SR), (DR, CR), (SR, SR), (DR, DR), (CR,
                CR)] }),
        Mnemonic::SUB | Mnemonic::ADD | Mnemonic::CMP | Mnemonic::AND | Mnemonic::OR
        | Mnemonic::XOR =>
            Some(Rule { slots: &[(&[R8, R16, R32, R64, M8, M16, M32, M64], Optional::Needed),
                (&[R8, R16, R32, R64, M8, M16, M32, M64, I8, I16, I32], Optional::Needed)],
                forb: &[(MA, MA)] }),
        Mnemonic::IMUL =>
            Some(Rule { slots: &[(&[R8, R16, R32, R64, M8, M16, M32, M64], Optional::Needed),
                (&[R16, R32, R64, M16, M32, M64], Optional::Optional), (&[I8, I16, I32],
                Optional::Optional)], forb: &[(MA, MA)] }),
        Mnemonic::TEST =>
            Some(Rule { slots: &[(&[R8, R16, R32, R64, M8, M16, M32, M64], Optional::Needed),
                (&[I8, I16, I32, R8, R16, R32, R64], Optional::Needed)], forb: &[] }),
        Mnemonic::DIV | Mnemonic::IDIV | Mnemonic::MUL | Mnemonic::DEC | Mnemonic::INC
        | Mnemonic::NEG | Mnemonic::NOT =>
            Some(Rule { slots: &[(&[R8, R16, R32, R64, M8, M16, M32, M64], Optional::Needed)],
                forb: &[] }),
        Mnemonic::JMP | Mnemonic::CALL =>
            Some(Rule { slots: &[(&[AType::Symbol, R64, M64], Optional::Needed)], forb: &[] }),
        Mnemonic::JE | Mnemonic::JNE | Mnemonic::JZ | Mnemonic::JNZ | Mnemonic::JL
        | Mnemonic::JLE | Mnemonic::JG | Mnemonic::JGE =>
            Some(Rule { slots: &[(&[AType::Symbol], Optional::Needed)], forb: &[] }),
        Mnemonic::LEA =>
            Some(Rule { slots: &[(&[R16, R32, R64], Optional::Needed), (&[AType::Symbol],
                Optional::Needed)], forb: &[] }),
        Mnemonic::SYSCALL | Mnemonic::RET | Mnemonic::NOP | Mnemonic::PUSHF | Mnemonic::POPF
        | Mnemonic::POPFQ | Mnemonic::PUSHFQ =>
            Some(Rule { slots: &[], forb: &[] }),
        _ => None,
    }
}

/// The rules that hold in 32-bit mode only.
pub open spec fn spec_rule32(m: Mnemonic) -> Option<Rule> {
    match m {
        Mnemonic::PUSH =>
            Some(Rule { slots: &[(&[R16, R32, M16, M32, I8, I16, I32, SR], Optional::Needed)],
                forb: &[] }),
        Mnemonic::POP =>
            Some(Rule { slots: &[(&[R16, R32, M16, M32, SR], Optional::Needed)], forb: &[] }),
        Mnemonic::MOV =>
            Some(Rule { slots: &[(&[R8, R16, R32, M8, M16, M32, SR, CR, DR], Optional::Needed),
                (&[R8, R16, R32, M8, M16, M32, I8, I16, I32, SR, CR, DR], Optional::Needed)],
                forb: &[(MA, MA), (R32, SR), (M32, SR), (M8, SR), (R8, SR), (SR, R32), (SR, R8),
                (SR, IA), (SR, M32), (SR, M8), (CR, IA), (CR, R8), (CR, R16), (R16, CR), (R8, CR),
                (CR, MA), (MA, CR), (DR, IA), (DR, R8), (DR, R16), (R16, DR), (R8, DR), (DR, MA),
                (MA, DR), (SR, CR), (SR, DR), (CR, SR), (CR, DR), (DR, SR), (DR, CR), (SR, SR),
                (DR, DR), (CR, CR)] }),
        Mnemonic::SUB | Mnemonic::ADD | Mnemonic::CMP | Mnemonic::AND | Mnemonic::OR
        | Mnemonic::XOR =>
            Some(Rule { slots: &[(&[R8, R16, R32, M8, M16, M32], Optional::Needed), (&[R8, R16,
                R32, M8, M16, M32, I8, I16, I32], Optional::Needed)], forb: &[(MA, MA)] }),
        Mnemonic::IMUL =>
            Some(Rule { slots: &[(&[R8, R16, R32, M8, M16, M32], Optional::Needed), (&[R16, R32,
                M16, M32], Optional::Optional), (&[I8, I16, I32], Optional::Optional)],
                forb: &[(MA, MA)] }),
        Mnemonic::TEST =>
            Some(Rule { slots: &[(&[R8, R16, R32, M8, M16, M32], Optional::Needed), (&[I8, I16,
                I32, R8, R16, R32], Optional::Needed)], forb: &[] }),
        Mnemonic::DIV | Mnemonic::IDIV | Mnemonic::MUL | Mnemonic::DEC | Mnemonic::INC
        | Mnemonic::NEG | Mnemonic::NOT =>
            Some(Rule { slots: &[(&[R8, R16, R32, M8, M16, M32], Optional::Needed)], forb: &[] }),
        Mnemonic::JMP | Mnemonic::CALL =>
            Some(Rule { slots: &[(&[AType::Symbol, R32, R16, M32, M16], Optional::Needed)],
                forb: &[] }),
        Mnemonic::JE | Mnemonic::JNE | Mnemonic::JZ | Mnemonic::JNZ | Mnemonic::JL
        | Mnemonic::JLE | Mnemonic::JG | Mnemonic::JGE =>
            Some(Rule { slots: &[(&[AType::Symbol], Optional::Needed)], forb: &[] }),
        Mnemonic::LEA =>
            Some(Rule { slots: &[(&[R16, R32], Optional::Needed), (&[AType::Symbol],
                Optional::Needed)], forb: &[] }),
        Mnemonic::RET | Mnemonic::NOP | Mnemonic::POPF | Mnemonic::POPFD | Mnemonic::PUSHF
        | Mnemonic::PUSHFD =>
            Some(Rule { slots: &[], forb: &[] }),
        _ => None,
    }
}

/// Computes `spec_rule32`.
#[verifier::when_used_as_spec(spec_rule32)]
pub fn rule32(m: Mnemonic) -> (r: Option<Rule>)
    ensures
        r == spec_rule32(m),
{
    match m {
        Mnemonic::PUSH =>
            Some(Rule { slots: &[(&[R16, R32, M16, M32, I8, I16, I32, SR], Optional::Needed)],
                forb: &[] }),
        Mnemonic::POP =>
            Some(Rule { slots: &[(&[R16, R32, M16, M32, SR], Optional::Needed)], forb: &[] }),
        Mnemonic::MOV =>
            Some(Rule { slots: &[(&[R8, R16, R32, M8, M16, M32, SR, CR, DR], Optional::Needed),
                (&[R8, R16, R32, M8, M16, M32, I8, I16, I32, SR, CR, DR], Optional::Needed)],
                forb: &[(MA, MA), (R32, SR), (M32, SR), (M8, SR), (R8, SR), (SR, R32), (SR, R8),
                (SR, IA), (SR, M32), (SR, M8), (CR, IA), (CR, R8), (CR, R16), (R16, CR), (R8, CR),
                (CR, MA), (MA, CR), (DR, IA), (DR, R8), (DR, R16), (R16, DR), (R8, DR), (DR, MA),
                (MA, DR), (SR, CR), (SR, DR), (CR, SR), (CR, DR), (DR, SR), (DR, CR), (SR, SR),
                (DR, DR), (CR, CR)] }),
        Mnemonic::SUB | Mnemonic::ADD | Mnemonic::CMP | Mnemonic::AND | Mnemonic::OR
        | Mnemonic::XOR =>
            Some(Rule { slots: &[(&[R8, R16, R32, M8, M16, M32], Optional::Needed), (&[R8, R16,
                R32, M8, M16, M32, I8, I16, I32], Optional::Needed)], forb: &[(MA, MA)] }),
        Mnemonic::IMUL =>
            Some(Rule { slots: &[(&[R8, R16, R32, M8, M16, M32], Optional::Needed), (&[R16, R32,
                M16, M32], Optional::Optional), (&[I8, I16, I32], Optional::Optional)],
                forb: &[(MA, MA)] }),
        Mnemonic::TEST =>
            Some(Rule { slots: &[(&[R8, R16, R32, M8, M16, M32], Optional::Needed), (&[I8, I16,
                I32, R8, R16, R32], Optional::Needed)], forb: &[] }),
        Mnemonic::DIV | Mnemonic::IDIV | Mnemonic::MUL | Mnemonic::DEC | Mnemonic::INC
        | Mnemonic::NEG | Mnemonic::NOT =>
            Some(Rule { slots: &[(&[R8, R16, R32, M8, M16, M32], Optional::Needed)], forb: &[] }),
        Mnemonic::JMP | Mnemonic::CALL =>
            Some(Rule { slots: &[(&[AType::Symbol, R32, R16, M32, M16], Optional::Needed)],
                forb: &[] }),
        Mnemonic::JE | Mnemonic::JNE | Mnemonic::JZ | Mnemonic::JNZ | Mnemonic::JL
        | Mnemonic::JLE | Mnemonic::JG | Mnemonic::JGE =>
            Some(Rule { slots: &[(&[AType::Symbol], Optional::Needed)], forb: &[] }),
        Mnemonic::LEA =>
            Some(Rule { slots: &[(&[R16, R32], Optional::Needed), (&[AType::Symbol],
                Optional::Needed)], forb: &[] }),
        Mnemonic::RET | Mnemonic::NOP | Mnemonic::POPF | Mnemonic::POPFD | Mnemonic::PUSHF
        | Mnemonic::PUSHFD =>
            Some(Rule { slots: &[], forb: &[] }),
        _ => None,
    }
}

/// Whether a mnemonic is one of the shifts.
pub open spec fn is_shift(m: Mnemonic) -> bool {
    m == Mnemonic::SAL || m == Mnemonic::SHL || m == Mnemonic::SHR || m == Mnemonic::SAR
}

/// The check of an instruction against a rule; none stands for a mnemonic
/// that is not supported.
pub open spec fn spec_rule_chk(ins: &Instruction, rule: Option<Rule>) -> Option<RASMErrorView> {
    match rule {
        Some(r) => spec_ot_chk(ins, r.slots, r.forb, &[]),
        None => Some(error_no_tip(Some(ins.line), Some("Tried to use currently unsupported instruction."))),
    }
}

/// The check of an instruction by the rules that hold in both modes.
pub open spec fn spec_shr_chk(ins: &Instruction) -> Option<RASMErrorView> {
    spec_rule_chk(ins, spec_shr_rule(ins.mnem))
}

/// Computes `spec_shr_chk`.
pub fn shr_chk(ins: &Instruction) -> (r: Option<RASMError>)
    ensures
        error_view(r) == spec_shr_chk(ins),
{
    match shr_rule(ins.mnem) {
        Some(r) => ot_chk(ins, r.slots, r.forb, &[]),
        None => Some(
            RASMError::no_tip(Some(ins.line), Some("Tried to use currently unsupported instruction.")),
        ),
    }
}

/// The check of an instruction in 32-bit mode, once it is known to take no
/// REX prefix: the shifts by their own check, MOVQ and SYSCALL not at all,
/// then the rule of the mode, then the rules of both modes.
pub open spec fn spec_rules32(ins: &Instruction) -> Option<RASMErrorView> {
    if is_shift(ins.mnem) {
        spec_shift_chk(ins, &[R8, R16, R32, M8, M16, M32])
    } else if ins.mnem == Mnemonic::MOVQ || ins.mnem == Mnemonic::SYSCALL {
        Some(error_no_tip(Some(ins.line), Some("Instruction unsupported in 32-bit mode")))
    } else if spec_rule32(ins.mnem) is Some {
        spec_rule_chk(ins, spec_rule32(ins.mnem))
    } else {
        spec_shr_chk(ins)
    }
}

/// The check of an instruction in 32-bit mode. An instruction that would
/// take a REX prefix is refused before any rule is looked at.
pub open spec fn spec_check_ins32bit(ins: &Instruction) -> Option<RASMErrorView> {
    if spec_gen_rex(*ins, false) is Some {
        Some(
            error_no_tip(
                Some(ins.line),
                Some(
                    "Instruction needs rex prefix, which is forbidden in protected/compat. mode (bits 32)",
                ),
            ),
        )
    } else {
        spec_rules32(ins)
    }
}

/// Computes `spec_check_ins32bit`.
pub fn check_ins32bit(ins: &Instruction) -> (r: Option<RASMError>)
    ensures
        error_view(r) == spec_check_ins32bit(ins),
{
    if gen_rex(ins, false).is_some() {
        return Some(
            RASMError::no_tip(
                Some(ins.line),
                Some(
                    "Instruction needs rex prefix, which is forbidden in protected/compat. mode (bits 32)",
                ),
            ),
        );
    }
    match ins.mnem {
        Mnemonic::SAL | Mnemonic::SHL | Mnemonic::SHR | Mnemonic::SAR => shift_chk(ins, &[R8, R16, R32, M8, M16, M32]),
        Mnemonic::MOVQ | Mnemonic::SYSCALL => Some(
            RASMError::no_tip(Some(ins.line), Some("Instruction unsupported in 32-bit mode")),
        ),
        _ => match rule32(ins.mnem) {
            Some(r) => ot_chk(ins, r.slots, r.forb, &[]),
            None => shr_chk(ins),
        },
    }
}

/// The check of an instruction in 64-bit mode: the shifts by their own
/// check, then the rule of the mode, then the rules of both modes.
pub open spec fn spec_check_ins64bit(ins: &Instruction) -> Option<RASMErrorView> {
    if is_shift(ins.mnem) {
        spec_shift_chk(ins, &[R8, R16, R32, R64, M8, M16, M32, M64])
    } else if spec_rule64(ins.mnem) is Some {
        spec_rule_chk(ins, spec_rule64(ins.mnem))
    } else {
        spec_shr_chk(ins)
    }
}

/// Computes `spec_check_ins64bit`.
pub fn check_ins64bit(ins: &Instruction) -> (r: Option<RASMError>)
    ensures
        error_view(r) == spec_check_ins64bit(ins),
{
    match ins.mnem {
        Mnemonic::SAL | Mnemonic::SHL | Mnemonic::SHR | Mnemonic::SAR => shift_chk(ins, &[R8, R16, R32, R64, M8, M16, M32, M64]),
        _ => match rule64(ins.mnem) {
            Some(r) => ot_chk(ins, r.slots, r.forb, &[]),
            None => shr_chk(ins),
        },
    }
}

/// The check of one instruction in a mode of `bits` bits: the rules of
/// 64-bit mode for 64, those of 32-bit mode for anything else.
pub open spec fn spec_check_ins(ins: &Instruction, bits: Option<u8>) -> Option<RASMErrorView> {
    if bits == Some(64u8) {
        spec_check_ins64bit(ins)
    } else {
        spec_check_ins32bit(ins)
    }
}

/// The diagnostics of the first `n` instructions of a label, each at the
/// line of its instruction.
pub open spec fn label_errors(inst: Seq<Instruction>, bits: Option<u8>, n: int) -> Seq<RASMErrorView>
    decreases n,
{
    if n <= 0 {
        Seq::empty()
    } else {
        match spec_check_ins(&inst[n - 1], bits) {
            Some(e) => label_errors(inst, bits, n - 1).push(e.at_line(inst[n - 1].line)),
            None => label_errors(inst, bits, n - 1),
        }
    }
}

/// The views of a run of diagnostics.
pub open spec fn error_views(e: Seq<RASMError>) -> Seq<RASMErrorView> {
    e.map_values(|x: RASMError| x@)
}

/// What `check_ast` reports for one label: its name and its diagnostics.
pub open spec fn report_view(r: (String, Vec<RASMError>)) -> (Seq<char>, Seq<RASMErrorView>) {
    (r.0@, error_views(r.1@))
}

/// The reports of the first `n` labels: one for each label that has a
/// diagnostic, in the order of the labels.
pub open spec fn file_errors(labels: Seq<Label>, bits: Option<u8>, n: int) -> Seq<(Seq<char>, Seq<RASMErrorView>)>
    decreases n,
{
    if n <= 0 {
        Seq::empty()
    } else {
        let e = label_errors(labels[n - 1].inst@, bits, labels[n - 1].inst@.len() as int);
        if e.len() > 0 {
            file_errors(labels, bits, n - 1).push((labels[n - 1].name@, e))
        } else {
            file_errors(labels, bits, n - 1)
        }
    }
}

fn check_label(label: &Label, bits: Option<u8>) -> (errs: Vec<RASMError>)
    ensures
        error_views(errs@) == label_errors(label.inst@, bits, label.inst@.len() as int),
{
    let mut errs: Vec<RASMError> = Vec::new();
    let mut i: usize = 0;
    while i < label.inst.len()
        invariant
            i <= label.inst@.len(),
            error_views(errs@) =~= label_errors(label.inst@, bits, i as int),
        decreases label.inst@.len() - i,
    {
        let inst = &label.inst[i];
        let res = if bits == Some(64) {
            check_ins64bit(inst)
        } else {
            check_ins32bit(inst)
        };
        if let Some(mut err) = res {
            err.set_line(inst.line);
            errs.push(err);
        }
        i = i + 1;
    }
    errs
}

/// Checks every instruction of every label. The result is none where no
/// instruction has a diagnostic; else, for each label that has one, its name
/// with its diagnostics in the order of its instructions.
pub fn check_ast(file: &AST) -> (r: Option<Vec<(String, Vec<RASMError>)>>)
    ensures
        r is None <==> file_errors(file.labels@, file.bits, file.labels@.len() as int).len() == 0,
        r is Some ==> r.unwrap()@.map_values(|x: (String, Vec<RASMError>)| report_view(x)) == file_errors(
            file.labels@,
            file.bits,
            file.labels@.len() as int,
        ),
{
    let mut errors: Vec<(String, Vec<RASMError>)> = Vec::new();
    let mut i: usize = 0;
    while i < file.labels.len()
        invariant
            i <= file.labels@.len(),
            errors@.map_values(|x: (String, Vec<RASMError>)| report_view(x)) =~= file_errors(
                file.labels@,
                file.bits,
                i as int,
            ),
        decreases file.labels@.len() - i,
    {
        let label = &file.labels[i];
        let errs = check_label(label, file.bits);
        if errs.len() > 0 {
            errors.push((label.name.clone(), errs));
        }
        i = i + 1;
    }
    if errors.len() == 0 {
        None
    } else {
        Some(errors)
    }
}

} // verus!
