use vstd::prelude::*;
use crate::shr::var::VarContent;
use crate::shr::var::VarContentView;

verus! {

/// What a symbol names.
#[derive(Clone, Copy, Debug, PartialEq, Eq, Structural)]
pub enum SymbolType {
    NoType,
    Object,
    Func,
}

/// Who can see a symbol.
#[derive(Clone, Copy, Debug, PartialEq, Eq, Structural)]
pub enum Visibility {
    Local,
    Global,
    Weak,
}

/// An entry of a section's symbol table.
#[derive(Clone, Debug)]
pub struct Symbol {
    pub name: String,
    pub offset: u64,
    pub size: Option<u32>,
    pub sindex: u16,
    pub stype: SymbolType,
    pub visibility: Visibility,
    pub content: Option<VarContent>,
    pub addend: i64,
    pub addt: u8,
}

/// A symbol with its name and its content as what they stand for.
pub struct SymbolView {
    pub name: Seq<char>,
    pub offset: u64,
    pub size: Option<u32>,
    pub sindex: u16,
    pub stype: SymbolType,
    pub visibility: Visibility,
    pub content: Option<VarContentView>,
    pub addend: i64,
    pub addt: u8,
}

impl View for Symbol {
    type V = SymbolView;

    open spec fn view(&self) -> SymbolView {
        SymbolView {
            name: self.name@,
            offset: self.offset,
            size: self.size,
            sindex: self.sindex,
            stype: self.stype,
            visibility: self.visibility,
            content: match self.content {
                Some(c) => Some(c@),
                None => None,
            },
            addend: self.addend,
            addt: self.addt,
        }
    }
}

impl SymbolView {
    /// The same symbol, seen by every object file.
    pub open spec fn global(self) -> SymbolView {
        SymbolView {
            name: self.name,
            offset: self.offset,
            size: self.size,
            sindex: self.sindex,
            stype: self.stype,
            visibility: Visibility::Global,
            content: self.content,
            addend: self.addend,
            addt: self.addt,
        }
    }
}

} // verus!
