use vstd::prelude::*;

verus! {

/// How the linker computes the value that it patches in.
#[derive(Clone, Copy, Debug, PartialEq, Eq, Structural)]
pub enum RType {
    PCRel32,
    S32,
    A32,
    A64,
}

/// What kind of code or data a relocation belongs to.
#[derive(Clone, Copy, Debug, PartialEq, Eq, Structural)]
pub enum RCategory {
    Jump,
    Lea,
    Data,
}

/// A request to the linker to patch `size` bytes at `offset` with the address
/// of `symbol`, adjusted by `addend`.
#[derive(Clone, Debug)]
pub struct Relocation {
    pub rtype: RType,
    pub symbol: String,
    pub offset: u64,
    pub addend: i32,
    pub size: u8,
    pub catg: RCategory,
}

/// A relocation with its symbol's name as a sequence of characters.
pub struct RelocationView {
    pub rtype: RType,
    pub symbol: Seq<char>,
    pub offset: u64,
    pub addend: i32,
    pub size: u8,
    pub catg: RCategory,
}

impl View for Relocation {
    type V = RelocationView;

    open spec fn view(&self) -> RelocationView {
        RelocationView {
            rtype: self.rtype,
            symbol: self.symbol@,
            offset: self.offset,
            addend: self.addend,
            size: self.size,
            catg: self.catg,
        }
    }
}

impl Relocation {
    /// A copy of the relocation.
    pub fn clone_relocation(&self) -> (r: Relocation)
        ensures
            r@ == self@,
    {
        Relocation {
            rtype: self.rtype,
            symbol: self.symbol.clone(),
            offset: self.offset,
            addend: self.addend,
            size: self.size,
            catg: self.catg,
        }
    }
}

impl RelocationView {
    /// The same relocation, `by` bytes further into its section.
    pub open spec fn shifted(self, by: int) -> RelocationView {
        RelocationView {
            rtype: self.rtype,
            symbol: self.symbol,
            offset: (self.offset + by) as u64,
            addend: self.addend,
            size: self.size,
            catg: self.catg,
        }
    }
}

} // verus!
