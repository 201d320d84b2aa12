use vstd::prelude::*;

verus! {

/// Width of an operand, or a marker where no width is known.
#[derive(Clone, Copy, Debug, PartialEq, Eq, Structural)]
pub enum Size {
    Unknown,
    Byte,
    Word,
    Dword,
    Qword,
    Xword,
    Yword,
    Any,
}

impl Size {
    /// Number of bytes an operand of this width occupies; 0 where no width is known.
    pub open spec fn spec_bytes(self) -> u8 {
        match self {
            Size::Byte => 1,
            Size::Word => 2,
            Size::Dword => 4,
            Size::Qword => 8,
            Size::Xword => 16,
            Size::Yword => 32,
            Size::Unknown | Size::Any => 0,
        }
    }

    /// Computes `spec_bytes`.
    #[verifier::when_used_as_spec(spec_bytes)]
    pub fn bytes(self) -> (r: u8)
        ensures
            r == self.spec_bytes(),
    {
        match self {
            Size::Byte => 1,
            Size::Word => 2,
            Size::Dword => 4,
            Size::Qword => 8,
            Size::Xword => 16,
            Size::Yword => 32,
            Size::Unknown | Size::Any => 0,
        }
    }

    /// Two widths agree when they are equal or one of them is `Any`.
    pub open spec fn spec_agrees(self, other: Size) -> bool {
        self == other || self == Size::Any || other == Size::Any
    }

    /// Computes `spec_agrees`.
    #[verifier::when_used_as_spec(spec_agrees)]
    pub fn agrees(self, other: Size) -> (r: bool)
        ensures
            r == self.spec_agrees(other),
    {
        self == other || self == Size::Any || other == Size::Any
    }

    /// One of the four general-purpose widths.
    pub open spec fn spec_is_gpr_width(self) -> bool {
        self == Size::Byte || self == Size::Word || self == Size::Dword || self == Size::Qword
    }

    /// Computes `spec_is_gpr_width`.
    #[verifier::when_used_as_spec(spec_is_gpr_width)]
    pub fn is_gpr_width(self) -> (r: bool)
        ensures
            r == self.spec_is_gpr_width(),
    {
        self == Size::Byte || self == Size::Word || self == Size::Dword || self == Size::Qword
    }
}

} // verus!
