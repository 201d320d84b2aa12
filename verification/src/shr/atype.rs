use vstd::prelude::*;
use crate::shr::reg::Purpose;
use crate::shr::size::Size;

verus! {

/// The abstract type of an operand, as the checker's rules name it: general
/// registers and memory by width, immediates by width, the special register
/// classes, and symbols. `MA` and `IA` stand for memory and immediates of any
/// width.
#[allow(non_camel_case_types)]
#[derive(Clone, Copy, Debug, PartialEq, Eq, Structural)]
pub enum AType {
    R8,
    R16,
    R32,
    R64,
    M8,
    M16,
    M32,
    M64,
    M128,
    M256,
    MA,
    I8,
    I16,
    I32,
    I64,
    IA,
    SR,
    CR,
    DR,
    MMX,
    XMM,
    YMM,
    Symbol,
}

impl AType {
    /// Whether the type is one of memory.
    pub open spec fn spec_is_memory(self) -> bool {
        match self {
            AType::M8 | AType::M16 | AType::M32 | AType::M64 | AType::M128 | AType::M256 | AType::MA => true,
            _ => false,
        }
    }

    /// Computes `spec_is_memory`.
    #[verifier::when_used_as_spec(spec_is_memory)]
    pub fn is_memory(self) -> (r: bool)
        ensures
            r == self.spec_is_memory(),
    {
        match self {
            AType::M8 | AType::M16 | AType::M32 | AType::M64 | AType::M128 | AType::M256 | AType::MA => true,
            _ => false,
        }
    }

    /// Whether the type is one of immediates.
    pub open spec fn spec_is_immediate(self) -> bool {
        match self {
            AType::I8 | AType::I16 | AType::I32 | AType::I64 | AType::IA => true,
            _ => false,
        }
    }

    /// Computes `spec_is_immediate`.
    #[verifier::when_used_as_spec(spec_is_immediate)]
    pub fn is_immediate(self) -> (r: bool)
        ensures
            r == self.spec_is_immediate(),
    {
        match self {
            AType::I8 | AType::I16 | AType::I32 | AType::I64 | AType::IA => true,
            _ => false,
        }
    }

    /// The register class, where the type is one of registers.
    pub open spec fn spec_purpose(self) -> Option<Purpose> {
        match self {
            AType::R8 | AType::R16 | AType::R32 | AType::R64 => Some(Purpose::General),
            AType::SR => Some(Purpose::Sgmnt),
            AType::CR => Some(Purpose::Ctrl),
            AType::DR => Some(Purpose::Dbg),
            AType::MMX => Some(Purpose::Mmx),
            AType::XMM => Some(Purpose::F128),
            AType::YMM => Some(Purpose::F256),
            _ => None,
        }
    }

    /// Computes `spec_purpose`.
    #[verifier::when_used_as_spec(spec_purpose)]
    pub fn purpose(self) -> (r: Option<Purpose>)
        ensures
            r == self.spec_purpose(),
    {
        match self {
            AType::R8 | AType::R16 | AType::R32 | AType::R64 => Some(Purpose::General),
            AType::SR => Some(Purpose::Sgmnt),
            AType::CR => Some(Purpose::Ctrl),
            AType::DR => Some(Purpose::Dbg),
            AType::MMX => Some(Purpose::Mmx),
            AType::XMM => Some(Purpose::F128),
            AType::YMM => Some(Purpose::F256),
            _ => None,
        }
    }

    /// The width that the type stands for; `Any` where it names none.
    pub open spec fn spec_size(self) -> Size {
        match self {
            AType::R8 | AType::M8 | AType::I8 => Size::Byte,
            AType::R16 | AType::M16 | AType::I16 | AType::SR => Size::Word,
            AType::R32 | AType::M32 | AType::I32 => Size::Dword,
            AType::R64 | AType::M64 | AType::I64 | AType::CR | AType::DR | AType::MMX => Size::Qword,
            AType::M128 | AType::XMM => Size::Xword,
            AType::M256 | AType::YMM => Size::Yword,
            AType::MA | AType::IA | AType::Symbol => Size::Any,
        }
    }

    /// Computes `spec_size`.
    #[verifier::when_used_as_spec(spec_size)]
    pub fn size(self) -> (r: Size)
        ensures
            r == self.spec_size(),
    {
        match self {
            AType::R8 | AType::M8 | AType::I8 => Size::Byte,
            AType::R16 | AType::M16 | AType::I16 | AType::SR => Size::Word,
            AType::R32 | AType::M32 | AType::I32 => Size::Dword,
            AType::R64 | AType::M64 | AType::I64 | AType::CR | AType::DR | AType::MMX => Size::Qword,
            AType::M128 | AType::XMM => Size::Xword,
            AType::M256 | AType::YMM => Size::Yword,
            AType::MA | AType::IA | AType::Symbol => Size::Any,
        }
    }

    /// Whether a rule that names `self` accepts an operand of type `other`:
    /// the two are equal, or both are memory, or both immediates, and one of
    /// them is of any width.
    pub open spec fn spec_accepts(self, other: AType) -> bool {
        self == other || (self.spec_is_memory() && other.spec_is_memory() && (self == AType::MA
            || other == AType::MA)) || (self.spec_is_immediate() && other.spec_is_immediate() && (
        self == AType::IA || other == AType::IA))
    }

    /// Computes `spec_accepts`.
    #[verifier::when_used_as_spec(spec_accepts)]
    pub fn accepts(self, other: AType) -> (r: bool)
        ensures
            r == self.spec_accepts(other),
    {
        self == other || (self.is_memory() && other.is_memory() && (self == AType::MA || other
            == AType::MA)) || (self.is_immediate() && other.is_immediate() && (self == AType::IA
            || other == AType::IA))
    }

    /// The type of memory of the given width.
    pub open spec fn spec_of_memory(s: Size) -> AType {
        match s {
            Size::Byte => AType::M8,
            Size::Word => AType::M16,
            Size::Dword => AType::M32,
            Size::Qword => AType::M64,
            Size::Xword => AType::M128,
            Size::Yword => AType::M256,
            Size::Unknown | Size::Any => AType::MA,
        }
    }

    /// The type of memory of the given width.
    pub fn of_memory(s: Size) -> (r: AType)
        ensures
            r == AType::spec_of_memory(s),
    {
        match s {
            Size::Byte => AType::M8,
            Size::Word => AType::M16,
            Size::Dword => AType::M32,
            Size::Qword => AType::M64,
            Size::Xword => AType::M128,
            Size::Yword => AType::M256,
            Size::Unknown | Size::Any => AType::MA,
        }
    }

    /// The type of an immediate of the given width.
    pub open spec fn spec_of_immediate(s: Size) -> AType {
        match s {
            Size::Byte => AType::I8,
            Size::Word => AType::I16,
            Size::Dword => AType::I32,
            Size::Qword => AType::I64,
            _ => AType::IA,
        }
    }

    /// The type of an immediate of the given width.
    pub fn of_immediate(s: Size) -> (r: AType)
        ensures
            r == AType::spec_of_immediate(s),
    {
        match s {
            Size::Byte => AType::I8,
            Size::Word => AType::I16,
            Size::Dword => AType::I32,
            Size::Qword => AType::I64,
            _ => AType::IA,
        }
    }

    /// The type of a register of the given class and width.
    pub open spec fn spec_of_register(p: Purpose, s: Size) -> AType {
        match p {
            Purpose::General => match s {
                Size::Byte => AType::R8,
                Size::Word => AType::R16,
                Size::Dword => AType::R32,
                _ => AType::R64,
            },
            Purpose::Sgmnt => AType::SR,
            Purpose::Ctrl => AType::CR,
            Purpose::Dbg => AType::DR,
            Purpose::Mmx => AType::MMX,
            Purpose::F128 => AType::XMM,
            Purpose::F256 => AType::YMM,
        }
    }

    /// The type of a register of the given class and width.
    pub fn of_register(p: Purpose, s: Size) -> (r: AType)
        ensures
            r == AType::spec_of_register(p, s),
    {
        match p {
            Purpose::General => match s {
                Size::Byte => AType::R8,
                Size::Word => AType::R16,
                Size::Dword => AType::R32,
                _ => AType::R64,
            },
            Purpose::Sgmnt => AType::SR,
            Purpose::Ctrl => AType::CR,
            Purpose::Dbg => AType::DR,
            Purpose::Mmx => AType::MMX,
            Purpose::F128 => AType::XMM,
            Purpose::F256 => AType::YMM,
        }
    }
}

} // verus!
