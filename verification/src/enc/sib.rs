use vstd::prelude::*;
use crate::shr::ast::Operand;

verus! {

/// The SIB byte of a memory operand, where it takes one; none for any other
/// operand.
pub open spec fn spec_gen_sib(op: Operand) -> Option<u8> {
    match op.spec_mem() {
        Some(m) => m.spec_sib(),
        None => None,
    }
}

/// Computes `spec_gen_sib`.
pub fn gen_sib(op: &Operand) -> (r: Option<u8>)
    ensures
        r == spec_gen_sib(*op),
{
    match op.mem() {
        Some(m) => m.sib(),
        None => None,
    }
}

} // verus!
