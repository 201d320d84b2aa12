use vstd::prelude::*;
use crate::shr::atype::AType;
use crate::shr::mem::Mem;
use crate::shr::reg::Register;

verus! {

/// A memory expression with a segment override.
#[derive(Clone, Copy, Debug, PartialEq, Eq, Structural)]
pub struct Segment {
    pub segment: Register,
    pub address: Mem,
}

impl Segment {
    /// The abstract type of the operand: memory of the addressed width.
    pub open spec fn spec_atype(self) -> AType {
        AType::spec_of_memory(self.address.spec_size())
    }

    /// Computes `spec_atype`.
    #[verifier::when_used_as_spec(spec_atype)]
    pub fn atype(self) -> (r: AType)
        ensures
            r == self.spec_atype(),
    {
        AType::of_memory(self.address.size())
    }
}

} // verus!
