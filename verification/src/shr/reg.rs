use vstd::prelude::*;
use crate::shr::size::Size;

verus! {

/// What a register is for.
#[derive(Clone, Copy, Debug, PartialEq, Eq, Structural)]
pub enum Purpose {
    General,
    Sgmnt,
    Ctrl,
    Dbg,
    Mmx,
    F128,
    F256,
}

/// The registers that an operand can name.
#[allow(non_camel_case_types)]
#[derive(Clone, Copy, Debug, PartialEq, Eq, Structural)]
pub enum Register {
    AL, CL, DL, BL, SPL, BPL, SIL, DIL, R8B, R9B, R10B, R11B, R12B, R13B, R14B, R15B, AX, CX,
    DX, BX, SP, BP, SI, DI, R8W, R9W, R10W, R11W, R12W, R13W, R14W, R15W, EAX, ECX, EDX, EBX,
    ESP, EBP, ESI, EDI, R8D, R9D, R10D, R11D, R12D, R13D, R14D, R15D, RAX, RCX, RDX, RBX, RSP,
    RBP, RSI, RDI, R8, R9, R10, R11, R12, R13, R14, R15, ES, CS, SS, DS, FS, GS, CR0, CR1, CR2,
    CR3, CR4, CR5, CR6, CR7, CR8, DR0, DR1, DR2, DR3, DR4, DR5, DR6, DR7, MM0, MM1, MM2, MM3,
    MM4, MM5, MM6, MM7, XMM0, XMM1, XMM2, XMM3, XMM4, XMM5, XMM6, XMM7, XMM8, XMM9, XMM10,
    XMM11, XMM12, XMM13, XMM14, XMM15, YMM0, YMM1, YMM2, YMM3, YMM4, YMM5, YMM6, YMM7, YMM8,
    YMM9, YMM10, YMM11, YMM12, YMM13, YMM14, YMM15,
}

impl Register {
    /// The class of the register.
    pub open spec fn spec_purpose(self) -> Purpose {
        match self {
            Register::AL | Register::CL | Register::DL | Register::BL | Register::SPL
            | Register::BPL | Register::SIL | Register::DIL | Register::R8B | Register::R9B
            | Register::R10B | Register::R11B | Register::R12B | Register::R13B
            | Register::R14B | Register::R15B | Register::AX | Register::CX | Register::DX
            | Register::BX | Register::SP | Register::BP | Register::SI | Register::DI
            | Register::R8W | Register::R9W | Register::R10W | Register::R11W | Register::R12W
            | Register::R13W | Register::R14W | Register::R15W | Register::EAX | Register::ECX
            | Register::EDX | Register::EBX | Register::ESP | Register::EBP | Register::ESI
            | Register::EDI | Register::R8D | Register::R9D | Register::R10D | Register::R11D
            | Register::R12D | Register::R13D | Register::R14D | Register::R15D | Register::RAX
            | Register::RCX | Register::RDX | Register::RBX | Register::RSP | Register::RBP
            | Register::RSI | Register::RDI | Register::R8 | Register::R9 | Register::R10
            | Register::R11 | Register::R12 | Register::R13 | Register::R14 | Register::R15 => Purpose::General,
            Register::ES | Register::CS | Register::SS | Register::DS | Register::FS
            | Register::GS => Purpose::Sgmnt,
            Register::CR0 | Register::CR1 | Register::CR2 | Register::CR3 | Register::CR4
            | Register::CR5 | Register::CR6 | Register::CR7 | Register::CR8 => Purpose::Ctrl,
            Register::DR0 | Register::DR1 | Register::DR2 | Register::DR3 | Register::DR4
            | Register::DR5 | Register::DR6 | Register::DR7 => Purpose::Dbg,
            Register::MM0 | Register::MM1 | Register::MM2 | Register::MM3 | Register::MM4
            | Register::MM5 | Register::MM6 | Register::MM7 => Purpose::Mmx,
            Register::XMM0 | Register::XMM1 | Register::XMM2 | Register::XMM3 | Register::XMM4
            | Register::XMM5 | Register::XMM6 | Register::XMM7 | Register::XMM8
            | Register::XMM9 | Register::XMM10 | Register::XMM11 | Register::XMM12
            | Register::XMM13 | Register::XMM14 | Register::XMM15 => Purpose::F128,
            Register::YMM0 | Register::YMM1 | Register::YMM2 | Register::YMM3 | Register::YMM4
            | Register::YMM5 | Register::YMM6 | Register::YMM7 | Register::YMM8
            | Register::YMM9 | Register::YMM10 | Register::YMM11 | Register::YMM12
            | Register::YMM13 | Register::YMM14 | Register::YMM15 => Purpose::F256,
        }
    }

    /// Computes `spec_purpose`.
    #[verifier::when_used_as_spec(spec_purpose)]
    pub fn purpose(self) -> (r: Purpose)
        ensures
            r == self.spec_purpose(),
    {
        match self {
            Register::AL | Register::CL | Register::DL | Register::BL | Register::SPL
            | Register::BPL | Register::SIL | Register::DIL | Register::R8B | Register::R9B
            | Register::R10B | Register::R11B | Register::R12B | Register::R13B
            | Register::R14B | Register::R15B | Register::AX | Register::CX | Register::DX
            | Register::BX | Register::SP | Register::BP | Register::SI | Register::DI
            | Register::R8W | Register::R9W | Register::R10W | Register::R11W | Register::R12W
            | Register::R13W | Register::R14W | Register::R15W | Register::EAX | Register::ECX
            | Register::EDX | Register::EBX | Register::ESP | Register::EBP | Register::ESI
            | Register::EDI | Register::R8D | Register::R9D | Register::R10D | Register::R11D
            | Register::R12D | Register::R13D | Register::R14D | Register::R15D | Register::RAX
            | Register::RCX | Register::RDX | Register::RBX | Register::RSP | Register::RBP
            | Register::RSI | Register::RDI | Register::R8 | Register::R9 | Register::R10
            | Register::R11 | Register::R12 | Register::R13 | Register::R14 | Register::R15 => Purpose::General,
            Register::ES | Register::CS | Register::SS | Register::DS | Register::FS
            | Register::GS => Purpose::Sgmnt,
            Register::CR0 | Register::CR1 | Register::CR2 | Register::CR3 | Register::CR4
            | Register::CR5 | Register::CR6 | Register::CR7 | Register::CR8 => Purpose::Ctrl,
            Register::DR0 | Register::DR1 | Register::DR2 | Register::DR3 | Register::DR4
            | Register::DR5 | Register::DR6 | Register::DR7 => Purpose::Dbg,
            Register::MM0 | Register::MM1 | Register::MM2 | Register::MM3 | Register::MM4
            | Register::MM5 | Register::MM6 | Register::MM7 => Purpose::Mmx,
            Register::XMM0 | Register::XMM1 | Register::XMM2 | Register::XMM3 | Register::XMM4
            | Register::XMM5 | Register::XMM6 | Register::XMM7 | Register::XMM8
            | Register::XMM9 | Register::XMM10 | Register::XMM11 | Register::XMM12
            | Register::XMM13 | Register::XMM14 | Register::XMM15 => Purpose::F128,
            Register::YMM0 | Register::YMM1 | Register::YMM2 | Register::YMM3 | Register::YMM4
            | Register::YMM5 | Register::YMM6 | Register::YMM7 | Register::YMM8
            | Register::YMM9 | Register::YMM10 | Register::YMM11 | Register::YMM12
            | Register::YMM13 | Register::YMM14 | Register::YMM15 => Purpose::F256,
        }
    }

    /// The width of the register.
    pub open spec fn spec_size(self) -> Size {
        match self {
            Register::AL | Register::CL | Register::DL | Register::BL | Register::SPL
            | Register::BPL | Register::SIL | Register::DIL | Register::R8B | Register::R9B
            | Register::R10B | Register::R11B | Register::R12B | Register::R13B
            | Register::R14B | Register::R15B => Size::Byte,
            Register::AX | Register::CX | Register::DX | Register::BX | Register::SP
            | Register::BP | Register::SI | Register::DI | Register::R8W | Register::R9W
            | Register::R10W | Register::R11W | Register::R12W | Register::R13W
            | Register::R14W | Register::R15W | Register::ES | Register::CS | Register::SS
            | Register::DS | Register::FS | Register::GS => Size::Word,
            Register::EAX | Register::ECX | Register::EDX | Register::EBX | Register::ESP
            | Register::EBP | Register::ESI | Register::EDI | Register::R8D | Register::R9D
            | Register::R10D | Register::R11D | Register::R12D | Register::R13D
            | Register::R14D | Register::R15D => Size::Dword,
            Register::RAX | Register::RCX | Register::RDX | Register::RBX | Register::RSP
            | Register::RBP | Register::RSI | Register::RDI | Register::R8 | Register::R9
            | Register::R10 | Register::R11 | Register::R12 | Register::R13 | Register::R14
            | Register::R15 | Register::CR0 | Register::CR1 | Register::CR2 | Register::CR3
            | Register::CR4 | Register::CR5 | Register::CR6 | Register::CR7 | Register::CR8
            | Register::DR0 | Register::DR1 | Register::DR2 | Register::DR3 | Register::DR4
            | Register::DR5 | Register::DR6 | Register::DR7 | Register::MM0 | Register::MM1
            | Register::MM2 | Register::MM3 | Register::MM4 | Register::MM5 | Register::MM6
            | Register::MM7 => Size::Qword,
            Register::XMM0 | Register::XMM1 | Register::XMM2 | Register::XMM3 | Register::XMM4
            | Register::XMM5 | Register::XMM6 | Register::XMM7 | Register::XMM8
            | Register::XMM9 | Register::XMM10 | Register::XMM11 | Register::XMM12
            | Register::XMM13 | Register::XMM14 | Register::XMM15 => Size::Xword,
            Register::YMM0 | Register::YMM1 | Register::YMM2 | Register::YMM3 | Register::YMM4
            | Register::YMM5 | Register::YMM6 | Register::YMM7 | Register::YMM8
            | Register::YMM9 | Register::YMM10 | Register::YMM11 | Register::YMM12
            | Register::YMM13 | Register::YMM14 | Register::YMM15 => Size::Yword,
        }
    }

    /// Computes `spec_size`.
    #[verifier::when_used_as_spec(spec_size)]
    pub fn size(self) -> (r: Size)
        ensures
            r == self.spec_size(),
    {
        match self {
            Register::AL | Register::CL | Register::DL | Register::BL | Register::SPL
            | Register::BPL | Register::SIL | Register::DIL | Register::R8B | Register::R9B
            | Register::R10B | Register::R11B | Register::R12B | Register::R13B
            | Register::R14B | Register::R15B => Size::Byte,
            Register::AX | Register::CX | Register::DX | Register::BX | Register::SP
            | Register::BP | Register::SI | Register::DI | Register::R8W | Register::R9W
            | Register::R10W | Register::R11W | Register::R12W | Register::R13W
            | Register::R14W | Register::R15W | Register::ES | Register::CS | Register::SS
            | Register::DS | Register::FS | Register::GS => Size::Word,
            Register::EAX | Register::ECX | Register::EDX | Register::EBX | Register::ESP
            | Register::EBP | Register::ESI | Register::EDI | Register::R8D | Register::R9D
            | Register::R10D | Register::R11D | Register::R12D | Register::R13D
            | Register::R14D | Register::R15D => Size::Dword,
            Register::RAX | Register::RCX | Register::RDX | Register::RBX | Register::RSP
            | Register::RBP | Register::RSI | Register::RDI | Register::R8 | Register::R9
            | Register::R10 | Register::R11 | Register::R12 | Register::R13 | Register::R14
            | Register::R15 | Register::CR0 | Register::CR1 | Register::CR2 | Register::CR3
            | Register::CR4 | Register::CR5 | Register::CR6 | Register::CR7 | Register::CR8
            | Register::DR0 | Register::DR1 | Register::DR2 | Register::DR3 | Register::DR4
            | Register::DR5 | Register::DR6 | Register::DR7 | Register::MM0 | Register::MM1
            | Register::MM2 | Register::MM3 | Register::MM4 | Register::MM5 | Register::MM6
            | Register::MM7 => Size::Qword,
            Register::XMM0 | Register::XMM1 | Register::XMM2 | Register::XMM3 | Register::XMM4
            | Register::XMM5 | Register::XMM6 | Register::XMM7 | Register::XMM8
            | Register::XMM9 | Register::XMM10 | Register::XMM11 | Register::XMM12
            | Register::XMM13 | Register::XMM14 | Register::XMM15 => Size::Xword,
            Register::YMM0 | Register::YMM1 | Register::YMM2 | Register::YMM3 | Register::YMM4
            | Register::YMM5 | Register::YMM6 | Register::YMM7 | Register::YMM8
            | Register::YMM9 | Register::YMM10 | Register::YMM11 | Register::YMM12
            | Register::YMM13 | Register::YMM14 | Register::YMM15 => Size::Yword,
        }
    }

    /// The four-bit number of the register within its class.
    pub open spec fn spec_index(self) -> u8 {
        match self {
            Register::AL | Register::AX | Register::EAX | Register::RAX | Register::ES
            | Register::CR0 | Register::DR0 | Register::MM0 | Register::XMM0 | Register::YMM0 => 0,
            Register::CL | Register::CX | Register::ECX | Register::RCX | Register::CS
            | Register::CR1 | Register::DR1 | Register::MM1 | Register::XMM1 | Register::YMM1 => 1,
            Register::DL | Register::DX | Register::EDX | Register::RDX | Register::SS
            | Register::CR2 | Register::DR2 | Register::MM2 | Register::XMM2 | Register::YMM2 => 2,
            Register::BL | Register::BX | Register::EBX | Register::RBX | Register::DS
            | Register::CR3 | Register::DR3 | Register::MM3 | Register::XMM3 | Register::YMM3 => 3,
            Register::SPL | Register::SP | Register::ESP | Register::RSP | Register::FS
            | Register::CR4 | Register::DR4 | Register::MM4 | Register::XMM4 | Register::YMM4 => 4,
            Register::BPL | Register::BP | Register::EBP | Register::RBP | Register::GS
            | Register::CR5 | Register::DR5 | Register::MM5 | Register::XMM5 | Register::YMM5 => 5,
            Register::SIL | Register::SI | Register::ESI | Register::RSI | Register::CR6
            | Register::DR6 | Register::MM6 | Register::XMM6 | Register::YMM6 => 6,
            Register::DIL | Register::DI | Register::EDI | Register::RDI | Register::CR7
            | Register::DR7 | Register::MM7 | Register::XMM7 | Register::YMM7 => 7,
            Register::R8B | Register::R8W | Register::R8D | Register::R8 | Register::CR8
            | Register::XMM8 | Register::YMM8 => 8,
            Register::R9B | Register::R9W | Register::R9D | Register::R9 | Register::XMM9
            | Register::YMM9 => 9,
            Register::R10B | Register::R10W | Register::R10D | Register::R10 | Register::XMM10
            | Register::YMM10 => 10,
            Register::R11B | Register::R11W | Register::R11D | Register::R11 | Register::XMM11
            | Register::YMM11 => 11,
            Register::R12B | Register::R12W | Register::R12D | Register::R12 | Register::XMM12
            | Register::YMM12 => 12,
            Register::R13B | Register::R13W | Register::R13D | Register::R13 | Register::XMM13
            | Register::YMM13 => 13,
            Register::R14B | Register::R14W | Register::R14D | Register::R14 | Register::XMM14
            | Register::YMM14 => 14,
            Register::R15B | Register::R15W | Register::R15D | Register::R15 | Register::XMM15
            | Register::YMM15 => 15,
        }
    }

    /// Computes `spec_index`.
    #[verifier::when_used_as_spec(spec_index)]
    pub fn index(self) -> (r: u8)
        ensures
            r == self.spec_index(),
            r < 16,
    {
        match self {
            Register::AL | Register::AX | Register::EAX | Register::RAX | Register::ES
            | Register::CR0 | Register::DR0 | Register::MM0 | Register::XMM0 | Register::YMM0 => 0,
            Register::CL | Register::CX | Register::ECX | Register::RCX | Register::CS
            | Register::CR1 | Register::DR1 | Register::MM1 | Register::XMM1 | Register::YMM1 => 1,
            Register::DL | Register::DX | Register::EDX | Register::RDX | Register::SS
            | Register::CR2 | Register::DR2 | Register::MM2 | Register::XMM2 | Register::YMM2 => 2,
            Register::BL | Register::BX | Register::EBX | Register::RBX | Register::DS
            | Register::CR3 | Register::DR3 | Register::MM3 | Register::XMM3 | Register::YMM3 => 3,
            Register::SPL | Register::SP | Register::ESP | Register::RSP | Register::FS
            | Register::CR4 | Register::DR4 | Register::MM4 | Register::XMM4 | Register::YMM4 => 4,
            Register::BPL | Register::BP | Register::EBP | Register::RBP | Register::GS
            | Register::CR5 | Register::DR5 | Register::MM5 | Register::XMM5 | Register::YMM5 => 5,
            Register::SIL | Register::SI | Register::ESI | Register::RSI | Register::CR6
            | Register::DR6 | Register::MM6 | Register::XMM6 | Register::YMM6 => 6,
            Register::DIL | Register::DI | Register::EDI | Register::RDI | Register::CR7
            | Register::DR7 | Register::MM7 | Register::XMM7 | Register::YMM7 => 7,
            Register::R8B | Register::R8W | Register::R8D | Register::R8 | Register::CR8
            | Register::XMM8 | Register::YMM8 => 8,
            Register::R9B | Register::R9W | Register::R9D | Register::R9 | Register::XMM9
            | Register::YMM9 => 9,
            Register::R10B | Register::R10W | Register::R10D | Register::R10 | Register::XMM10
            | Register::YMM10 => 10,
            Register::R11B | Register::R11W | Register::R11D | Register::R11 | Register::XMM11
            | Register::YMM11 => 11,
            Register::R12B | Register::R12W | Register::R12D | Register::R12 | Register::XMM12
            | Register::YMM12 => 12,
            Register::R13B | Register::R13W | Register::R13D | Register::R13 | Register::XMM13
            | Register::YMM13 => 13,
            Register::R14B | Register::R14W | Register::R14D | Register::R14 | Register::XMM14
            | Register::YMM14 => 14,
            Register::R15B | Register::R15W | Register::R15D | Register::R15 | Register::XMM15
            | Register::YMM15 => 15,
        }
    }

    /// The low three bits of the register's number, as they stand in ModR/M, SIB
    /// and opcode bytes.
    pub open spec fn spec_to_byte(self) -> u8 {
        if self.spec_index() >= 8 {
            (self.spec_index() - 8) as u8
        } else {
            self.spec_index()
        }
    }

    /// Computes `spec_to_byte`.
    #[verifier::when_used_as_spec(spec_to_byte)]
    pub fn to_byte(self) -> (r: u8)
        ensures
            r == self.spec_to_byte(),
            r < 8,
    {
        let i: u8 = self.index();
        if i >= 8 {
            i - 8
        } else {
            i
        }
    }

    /// Whether naming the register takes a REX or VEX extension bit: the upper
    /// eight of a class, and the byte registers SPL, BPL, SIL and DIL.
    pub open spec fn spec_needs_rex(self) -> bool {
        match self {
            Register::R8B | Register::R9B | Register::R10B | Register::R11B | Register::R12B
            | Register::R13B | Register::R14B | Register::R15B | Register::R8W | Register::R9W
            | Register::R10W | Register::R11W | Register::R12W | Register::R13W
            | Register::R14W | Register::R15W | Register::R8D | Register::R9D | Register::R10D
            | Register::R11D | Register::R12D | Register::R13D | Register::R14D
            | Register::R15D | Register::R8 | Register::R9 | Register::R10 | Register::R11
            | Register::R12 | Register::R13 | Register::R14 | Register::R15 | Register::CR8
            | Register::XMM8 | Register::XMM9 | Register::XMM10 | Register::XMM11
            | Register::XMM12 | Register::XMM13 | Register::XMM14 | Register::XMM15
            | Register::YMM8 | Register::YMM9 | Register::YMM10 | Register::YMM11
            | Register::YMM12 | Register::YMM13 | Register::YMM14 | Register::YMM15
            | Register::SPL | Register::BPL | Register::SIL | Register::DIL => true,
            _ => false,
        }
    }

    /// Computes `spec_needs_rex`.
    #[verifier::when_used_as_spec(spec_needs_rex)]
    pub fn needs_rex(self) -> (r: bool)
        ensures
            r == self.spec_needs_rex(),
    {
        match self {
            Register::R8B | Register::R9B | Register::R10B | Register::R11B | Register::R12B
            | Register::R13B | Register::R14B | Register::R15B | Register::R8W | Register::R9W
            | Register::R10W | Register::R11W | Register::R12W | Register::R13W
            | Register::R14W | Register::R15W | Register::R8D | Register::R9D | Register::R10D
            | Register::R11D | Register::R12D | Register::R13D | Register::R14D
            | Register::R15D | Register::R8 | Register::R9 | Register::R10 | Register::R11
            | Register::R12 | Register::R13 | Register::R14 | Register::R15 | Register::CR8
            | Register::XMM8 | Register::XMM9 | Register::XMM10 | Register::XMM11
            | Register::XMM12 | Register::XMM13 | Register::XMM14 | Register::XMM15
            | Register::YMM8 | Register::YMM9 | Register::YMM10 | Register::YMM11
            | Register::YMM12 | Register::YMM13 | Register::YMM14 | Register::YMM15
            | Register::SPL | Register::BPL | Register::SIL | Register::DIL => true,
            _ => false,
        }
    }

    /// Whether the register's number is eight or more, so that its fourth bit
    /// goes into a REX or VEX prefix.
    pub open spec fn spec_is_extended(self) -> bool {
        self.spec_index() >= 8
    }

    /// Computes `spec_is_extended`.
    #[verifier::when_used_as_spec(spec_is_extended)]
    pub fn is_extended(self) -> (r: bool)
        ensures
            r == self.spec_is_extended(),
    {
        self.index() >= 8
    }
}

} // verus!
