use vstd::prelude::*;
use crate::shr::num::Number;
use crate::shr::symbol::Visibility;

verus! {

/// What a variable of a data section holds.
#[derive(Clone, Debug)]
pub enum VarContent {
    Number(Number),
    String(Vec<u8>),
    Uninit,
}

/// What a variable holds, with the bytes of a string as a sequence.
pub enum VarContentView {
    Number(Number),
    String(Seq<u8>),
    Uninit,
}

impl View for VarContent {
    type V = VarContentView;

    open spec fn view(&self) -> VarContentView {
        match self {
            VarContent::Number(n) => VarContentView::Number(*n),
            VarContent::String(s) => VarContentView::String(s@),
            VarContent::Uninit => VarContentView::Uninit,
        }
    }
}

impl VarContent {
    /// The bytes that the content puts into its section: those of a number in
    /// its own width, those of a string as they are, none where nothing was
    /// initialised.
    pub open spec fn spec_bytes(self) -> Seq<u8> {
        match self {
            VarContent::Number(n) => n.spec_split_into_bytes(),
            VarContent::String(s) => s@,
            VarContent::Uninit => Seq::empty(),
        }
    }

    /// A copy of the content.
    pub fn copy(&self) -> (r: VarContent)
        ensures
            r@ == self@,
    {
        match self {
            VarContent::Number(n) => VarContent::Number(*n),
            VarContent::String(s) => VarContent::String(s.clone()),
            VarContent::Uninit => VarContent::Uninit,
        }
    }

    /// Computes `spec_bytes`.
    pub fn bytes(&self) -> (out: Vec<u8>)
        ensures
            out@ == self.spec_bytes(),
    {
        match self {
            VarContent::Number(n) => n.split_into_bytes(),
            VarContent::String(s) => s.clone(),
            VarContent::Uninit => Vec::new(),
        }
    }
}

/// A variable of a data section.
#[derive(Clone, Debug)]
pub struct Variable {
    pub name: String,
    pub size: u32,
    pub visibility: Visibility,
    pub content: VarContent,
}

} // verus!
