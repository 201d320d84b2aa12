use vstd::prelude::*;
use crate::shr::num::le_bytes;
use crate::shr::num::pattern_bytes;
use crate::shr::reg::Register;
use crate::shr::size::Size;

verus! {

/// The factor by which an index register is multiplied.
#[derive(Clone, Copy, Debug, PartialEq, Eq, Structural)]
pub enum Scale {
    One,
    Two,
    Four,
    Eight,
}

impl Scale {
    /// The two bits that stand for the factor in a SIB byte.
    pub open spec fn spec_bits(self) -> u8 {
        match self {
            Scale::One => 0,
            Scale::Two => 1,
            Scale::Four => 2,
            Scale::Eight => 3,
        }
    }

    /// Computes `spec_bits`.
    #[verifier::when_used_as_spec(spec_bits)]
    pub fn bits(self) -> (r: u8)
        ensures
            r == self.spec_bits(),
            r < 4,
    {
        match self {
            Scale::One => 0,
            Scale::Two => 1,
            Scale::Four => 2,
            Scale::Eight => 3,
        }
    }

    /// The factor itself: 1, 2, 4 or 8.
    pub open spec fn spec_factor(self) -> u8 {
        match self {
            Scale::One => 1,
            Scale::Two => 2,
            Scale::Four => 4,
            Scale::Eight => 8,
        }
    }

    /// Computes `spec_factor`.
    #[verifier::when_used_as_spec(spec_factor)]
    pub fn factor(self) -> (r: u8)
        ensures
            r == self.spec_factor(),
    {
        match self {
            Scale::One => 1,
            Scale::Two => 2,
            Scale::Four => 4,
            Scale::Eight => 8,
        }
    }
}

/// A memory expression. The last field of every variant is the width of the
/// data that the expression addresses.
#[derive(Clone, Copy, Debug, PartialEq, Eq, Structural)]
pub enum Mem {
    Offset(i32, Size),
    Base(Register, Size),
    BaseOffset(Register, i32, Size),
    Index(Register, Scale, Size),
    IndexOffset(Register, i32, Scale, Size),
    SIB(Register, Register, Scale, Size),
    SIBOffset(Register, Register, Scale, i32, Size),
}

impl Mem {
    /// The width of the addressed data.
    pub open spec fn spec_size(self) -> Size {
        match self {
            Mem::Offset(_, s) => s,
            Mem::Base(_, s) => s,
            Mem::BaseOffset(_, _, s) => s,
            Mem::Index(_, _, s) => s,
            Mem::IndexOffset(_, _, _, s) => s,
            Mem::SIB(_, _, _, s) => s,
            Mem::SIBOffset(_, _, _, _, s) => s,
        }
    }

    /// Computes `spec_size`.
    #[verifier::when_used_as_spec(spec_size)]
    pub fn size(self) -> (r: Size)
        ensures
            r == self.spec_size(),
    {
        match self {
            Mem::Offset(_, s) => s,
            Mem::Base(_, s) => s,
            Mem::BaseOffset(_, _, s) => s,
            Mem::Index(_, _, s) => s,
            Mem::IndexOffset(_, _, _, s) => s,
            Mem::SIB(_, _, _, s) => s,
            Mem::SIBOffset(_, _, _, _, s) => s,
        }
    }

    /// The base register, where the expression has one.
    pub open spec fn spec_base(self) -> Option<Register> {
        match self {
            Mem::Base(b, _) => Some(b),
            Mem::BaseOffset(b, _, _) => Some(b),
            Mem::SIB(b, _, _, _) => Some(b),
            Mem::SIBOffset(b, _, _, _, _) => Some(b),
            _ => None,
        }
    }

    /// Computes `spec_base`.
    #[verifier::when_used_as_spec(spec_base)]
    pub fn base(self) -> (r: Option<Register>)
        ensures
            r == self.spec_base(),
    {
        match self {
            Mem::Base(b, _) => Some(b),
            Mem::BaseOffset(b, _, _) => Some(b),
            Mem::SIB(b, _, _, _) => Some(b),
            Mem::SIBOffset(b, _, _, _, _) => Some(b),
            _ => None,
        }
    }

    /// The index register with its scale, where the expression has one.
    pub open spec fn spec_index(self) -> Option<(Register, Scale)> {
        match self {
            Mem::Index(i, s, _) => Some((i, s)),
            Mem::IndexOffset(i, _, s, _) => Some((i, s)),
            Mem::SIB(_, i, s, _) => Some((i, s)),
            Mem::SIBOffset(_, i, s, _, _) => Some((i, s)),
            _ => None,
        }
    }

    /// Computes `spec_index`.
    #[verifier::when_used_as_spec(spec_index)]
    pub fn index(self) -> (r: Option<(Register, Scale)>)
        ensures
            r == self.spec_index(),
    {
        match self {
            Mem::Index(i, s, _) => Some((i, s)),
            Mem::IndexOffset(i, _, s, _) => Some((i, s)),
            Mem::SIB(_, i, s, _) => Some((i, s)),
            Mem::SIBOffset(_, i, s, _, _) => Some((i, s)),
            _ => None,
        }
    }

    /// The displacement that was written, where one was.
    pub open spec fn spec_offset(self) -> Option<i32> {
        match self {
            Mem::Offset(d, _) => Some(d),
            Mem::BaseOffset(_, d, _) => Some(d),
            Mem::IndexOffset(_, d, _, _) => Some(d),
            Mem::SIBOffset(_, _, _, d, _) => Some(d),
            _ => None,
        }
    }

    /// Computes `spec_offset`.
    #[verifier::when_used_as_spec(spec_offset)]
    pub fn offset(self) -> (r: Option<i32>)
        ensures
            r == self.spec_offset(),
    {
        match self {
            Mem::Offset(d, _) => Some(d),
            Mem::BaseOffset(_, d, _) => Some(d),
            Mem::IndexOffset(_, d, _, _) => Some(d),
            Mem::SIBOffset(_, _, _, d, _) => Some(d),
            _ => None,
        }
    }

    /// Whether the expression uses an index register.
    pub open spec fn spec_is_sib(self) -> bool {
        self.spec_index() is Some
    }

    /// Computes `spec_is_sib`.
    #[verifier::when_used_as_spec(spec_is_sib)]
    pub fn is_sib(self) -> (r: bool)
        ensures
            r == self.spec_is_sib(),
    {
        self.index().is_some()
    }

    /// Whether a SIB byte follows ModR/M: with an index register, with a base
    /// whose low bits are 100 (RSP, R12), and with no register at all.
    pub open spec fn spec_needs_sib(self) -> bool {
        match self.spec_base() {
            Some(b) => self.spec_is_sib() || b.spec_to_byte() == 4,
            None => true,
        }
    }

    /// Computes `spec_needs_sib`.
    #[verifier::when_used_as_spec(spec_needs_sib)]
    pub fn needs_sib(self) -> (r: bool)
        ensures
            r == self.spec_needs_sib(),
    {
        match self.base() {
            Some(b) => self.is_sib() || b.to_byte() == 4,
            None => true,
        }
    }

    /// Which extension bits the expression asks for: the first for its base
    /// register, the second for its index register.
    pub open spec fn spec_needs_rex(self) -> (bool, bool) {
        (
            match self.spec_base() {
                Some(b) => b.spec_is_extended(),
                None => false,
            },
            match self.spec_index() {
                Some((i, _)) => i.spec_is_extended(),
                None => false,
            },
        )
    }

    /// Computes `spec_needs_rex`.
    #[verifier::when_used_as_spec(spec_needs_rex)]
    pub fn needs_rex(self) -> (r: (bool, bool))
        ensures
            r == self.spec_needs_rex(),
    {
        let b = match self.base() {
            Some(b) => b.is_extended(),
            None => false,
        };
        let x = match self.index() {
            Some((i, _)) => i.is_extended(),
            None => false,
        };
        (b, x)
    }

    /// The number of displacement bytes: four without a base register; with
    /// one, none where no displacement was written (one zero byte when the
    /// base's low bits are 101, as for RBP and R13), one where it fits a signed
    /// byte, four otherwise.
    pub open spec fn spec_disp_len(self) -> u8 {
        match self.spec_base() {
            None => 4,
            Some(b) => match self.spec_offset() {
                None => if b.spec_to_byte() == 5 {
                    1
                } else {
                    0
                },
                Some(d) => if -0x80 <= d <= 0x7f {
                    1
                } else {
                    4
                },
            },
        }
    }

    /// Computes `spec_disp_len`.
    #[verifier::when_used_as_spec(spec_disp_len)]
    pub fn disp_len(self) -> (r: u8)
        ensures
            r == self.spec_disp_len(),
            r == 0 || r == 1 || r == 4,
    {
        match self.base() {
            None => 4,
            Some(b) => match self.offset() {
                None => if b.to_byte() == 5 {
                    1
                } else {
                    0
                },
                Some(d) => if -0x80 <= d && d <= 0x7f {
                    1
                } else {
                    4
                },
            },
        }
    }

    /// The `mod` field of ModR/M for this expression.
    pub open spec fn spec_mod_bits(self) -> u8 {
        match self.spec_base() {
            None => 0,
            Some(_) => if self.spec_disp_len() == 0 {
                0
            } else if self.spec_disp_len() == 1 {
                1
            } else {
                2
            },
        }
    }

    /// Computes `spec_mod_bits`.
    #[verifier::when_used_as_spec(spec_mod_bits)]
    pub fn mod_bits(self) -> (r: u8)
        ensures
            r == self.spec_mod_bits(),
            r < 3,
    {
        match self.base() {
            None => 0,
            Some(_) => {
                let l: u8 = self.disp_len();
                if l == 0 {
                    0
                } else if l == 1 {
                    1
                } else {
                    2
                }
            },
        }
    }

    /// The `r/m` field of ModR/M for this expression: 100 where a SIB byte
    /// follows, else the low bits of the base register.
    pub open spec fn spec_rm_bits(self) -> u8 {
        if self.spec_needs_sib() {
            4
        } else {
            self.spec_base().unwrap().spec_to_byte()
        }
    }

    /// Computes `spec_rm_bits`.
    #[verifier::when_used_as_spec(spec_rm_bits)]
    pub fn rm_bits(self) -> (r: u8)
        ensures
            r == self.spec_rm_bits(),
            r < 8,
    {
        if self.needs_sib() {
            4
        } else {
            match self.base() {
                Some(b) => b.to_byte(),
                None => 4,
            }
        }
    }

    /// The SIB byte, where one follows ModR/M: scale, index and base, with
    /// 100 for a missing index and 101 for a missing base.
    pub open spec fn spec_sib(self) -> Option<u8> {
        if self.spec_needs_sib() {
            let (x, s): (u8, u8) = match self.spec_index() {
                Some((i, s)) => (i.spec_to_byte(), s.spec_bits()),
                None => (4u8, 0u8),
            };
            let b: u8 = match self.spec_base() {
                Some(b) => b.spec_to_byte(),
                None => 5u8,
            };
            Some((s * 64 + x * 8 + b) as u8)
        } else {
            None
        }
    }

    /// Computes `spec_sib`.
    #[verifier::when_used_as_spec(spec_sib)]
    pub fn sib(self) -> (r: Option<u8>)
        ensures
            r == self.spec_sib(),
    {
        if self.needs_sib() {
            let (x, s): (u8, u8) = match self.index() {
                Some((i, s)) => (i.to_byte(), s.bits()),
                None => (4u8, 0u8),
            };
            let b: u8 = match self.base() {
                Some(b) => b.to_byte(),
                None => 5u8,
            };
            Some(s * 64 + x * 8 + b)
        } else {
            None
        }
    }

    /// The displacement as a 64-bit pattern; zero where none was written.
    pub open spec fn spec_disp_pattern(self) -> u64 {
        match self.spec_offset() {
            Some(d) => (d as i64) as u64,
            None => 0,
        }
    }

    /// The displacement bytes that follow ModR/M and SIB, least significant
    /// first.
    pub open spec fn spec_disp(self) -> Seq<u8> {
        le_bytes(self.spec_disp_pattern(), self.spec_disp_len() as nat)
    }

    /// The displacement bytes of the expression.
    pub fn disp(self) -> (out: Vec<u8>)
        ensures
            out@ == self.spec_disp(),
            out@.len() == self.spec_disp_len(),
    {
        let p: u64 = match self.offset() {
            Some(d) => (d as i64) as u64,
            None => 0,
        };
        pattern_bytes(p, self.disp_len())
    }

    /// The width of the registers that form the address, where there are any.
    pub open spec fn spec_addr_size(self) -> Option<Size> {
        match self.spec_base() {
            Some(b) => Some(b.spec_size()),
            None => match self.spec_index() {
                Some((i, _)) => Some(i.spec_size()),
                None => None,
            },
        }
    }

    /// Computes `spec_addr_size`.
    #[verifier::when_used_as_spec(spec_addr_size)]
    pub fn addr_size(self) -> (r: Option<Size>)
        ensures
            r == self.spec_addr_size(),
    {
        match self.base() {
            Some(b) => Some(b.size()),
            None => match self.index() {
                Some((i, _)) => Some(i.size()),
                None => None,
            },
        }
    }
}

} // verus!
