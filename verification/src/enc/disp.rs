use vstd::prelude::*;
use crate::shr::ast::Operand;

verus! {

/// The displacement bytes of a memory operand, empty where it has none or
/// the operand is not memory.
pub open spec fn spec_disp_bytes(op: Operand) -> Seq<u8> {
    match op.spec_mem() {
        Some(m) => m.spec_disp(),
        None => Seq::empty(),
    }
}

/// The displacement of a memory operand, where it has one.
pub open spec fn spec_gen_disp(op: Operand) -> Option<Seq<u8>> {
    if spec_disp_bytes(op).len() > 0 {
        Some(spec_disp_bytes(op))
    } else {
        None
    }
}

/// The displacement of a memory operand, where it has one.
pub fn gen_disp(op: &Operand) -> (r: Option<Vec<u8>>)
    ensures
        r is Some == spec_gen_disp(*op) is Some,
        r is Some ==> r.unwrap()@ == spec_gen_disp(*op).unwrap(),
        r is Some ==> r.unwrap()@.len() == 1 || r.unwrap()@.len() == 4,
{
    match op.mem() {
        Some(m) => {
            let d = m.disp();
            if d.len() > 0 {
                Some(d)
            } else {
                None
            }
        },
        None => None,
    }
}

} // verus!
