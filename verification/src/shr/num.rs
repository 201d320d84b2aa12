use vstd::prelude::*;
use crate::shr::size::Size;

verus! {

/// An immediate value together with the width and signedness it was written in.
#[derive(Clone, Copy, Debug, PartialEq, Eq, Structural)]
pub enum Number {
    UInt8(u8),
    UInt16(u16),
    UInt32(u32),
    UInt64(u64),
    Int8(i8),
    Int16(i16),
    Int32(i32),
    Int64(i64),
}

/// Byte `i` of a 64-bit pattern, counted from the least significant one.
pub open spec fn byte_of(p: u64, i: int) -> u8 {
    ((p >> ((8 * i) as u64)) & 0xff) as u8
}

/// The `n` low bytes of a 64-bit pattern, least significant first.
pub open spec fn le_bytes(p: u64, n: nat) -> Seq<u8> {
    Seq::new(n, |i: int| byte_of(p, i))
}

/// The smallest unsigned width that holds `v`.
pub open spec fn unsigned_width(v: u64) -> Size {
    if v <= 0xff {
        Size::Byte
    } else if v <= 0xffff {
        Size::Word
    } else if v <= 0xffff_ffff {
        Size::Dword
    } else {
        Size::Qword
    }
}

/// The smallest signed width that holds `v`.
pub open spec fn signed_width(v: i64) -> Size {
    if -0x80 <= v <= 0x7f {
        Size::Byte
    } else if -0x8000 <= v <= 0x7fff {
        Size::Word
    } else if -0x8000_0000 <= v <= 0x7fff_ffff {
        Size::Dword
    } else {
        Size::Qword
    }
}

/// Writes the `n` low bytes of `p`, least significant first.
pub fn pattern_bytes(p: u64, n: u8) -> (out: Vec<u8>)
    requires
        n <= 8,
    ensures
        out@ == le_bytes(p, n as nat),
{
    let mut out: Vec<u8> = Vec::new();
    let mut i: u8 = 0;
    while i < n
        invariant
            i <= n <= 8,
            out@ == le_bytes(p, i as nat),
        decreases n - i,
    {
        let sh: u64 = 8 * (i as u64);
        let b: u8 = ((p >> sh) & 0xff) as u8;
        out.push(b);
        i = i + 1;
    }
    out
}

impl Number {
    /// The mathematical value.
    pub open spec fn spec_value(self) -> int {
        match self {
            Number::UInt8(v) => v as int,
            Number::UInt16(v) => v as int,
            Number::UInt32(v) => v as int,
            Number::UInt64(v) => v as int,
            Number::Int8(v) => v as int,
            Number::Int16(v) => v as int,
            Number::Int32(v) => v as int,
            Number::Int64(v) => v as int,
        }
    }

    /// The width the number was written in.
    pub open spec fn spec_size(self) -> Size {
        match self {
            Number::UInt8(_) | Number::Int8(_) => Size::Byte,
            Number::UInt16(_) | Number::Int16(_) => Size::Word,
            Number::UInt32(_) | Number::Int32(_) => Size::Dword,
            Number::UInt64(_) | Number::Int64(_) => Size::Qword,
        }
    }

    /// Computes `spec_size`.
    #[verifier::when_used_as_spec(spec_size)]
    pub fn size(self) -> (r: Size)
        ensures
            r == self.spec_size(),
    {
        match self {
            Number::UInt8(_) | Number::Int8(_) => Size::Byte,
            Number::UInt16(_) | Number::Int16(_) => Size::Word,
            Number::UInt32(_) | Number::Int32(_) => Size::Dword,
            Number::UInt64(_) | Number::Int64(_) => Size::Qword,
        }
    }

    /// The value of an unsigned number, widened to 64 bits.
    pub open spec fn spec_get_uint(self) -> Option<u64> {
        match self {
            Number::UInt8(v) => Some(v as u64),
            Number::UInt16(v) => Some(v as u64),
            Number::UInt32(v) => Some(v as u64),
            Number::UInt64(v) => Some(v),
            _ => None,
        }
    }

    /// Computes `spec_get_uint`.
    #[verifier::when_used_as_spec(spec_get_uint)]
    pub fn get_uint(self) -> (r: Option<u64>)
        ensures
            r == self.spec_get_uint(),
    {
        match self {
            Number::UInt8(v) => Some(v as u64),
            Number::UInt16(v) => Some(v as u64),
            Number::UInt32(v) => Some(v as u64),
            Number::UInt64(v) => Some(v),
            _ => None,
        }
    }

    /// The value of a signed number, widened to 64 bits.
    pub open spec fn spec_get_int(self) -> Option<i64> {
        match self {
            Number::Int8(v) => Some(v as i64),
            Number::Int16(v) => Some(v as i64),
            Number::Int32(v) => Some(v as i64),
            Number::Int64(v) => Some(v),
            _ => None,
        }
    }

    /// Computes `spec_get_int`.
    #[verifier::when_used_as_spec(spec_get_int)]
    pub fn get_int(self) -> (r: Option<i64>)
        ensures
            r == self.spec_get_int(),
    {
        match self {
            Number::Int8(v) => Some(v as i64),
            Number::Int16(v) => Some(v as i64),
            Number::Int32(v) => Some(v as i64),
            Number::Int64(v) => Some(v),
            _ => None,
        }
    }

    /// The narrowest unsigned number with the value `v`.
    pub open spec fn spec_squeeze_u64(v: u64) -> Number {
        match unsigned_width(v) {
            Size::Byte => Number::UInt8(v as u8),
            Size::Word => Number::UInt16(v as u16),
            Size::Dword => Number::UInt32(v as u32),
            _ => Number::UInt64(v),
        }
    }

    /// The narrowest unsigned number with the value `v`.
    pub fn squeeze_u64(v: u64) -> (r: Number)
        ensures
            r == Number::spec_squeeze_u64(v),
            r.spec_value() == v,
            r.spec_size() == unsigned_width(v),
    {
        if v <= 0xff {
            Number::UInt8(v as u8)
        } else if v <= 0xffff {
            Number::UInt16(v as u16)
        } else if v <= 0xffff_ffff {
            Number::UInt32(v as u32)
        } else {
            Number::UInt64(v)
        }
    }

    /// The narrowest signed number with the value `v`.
    pub open spec fn spec_squeeze_i64(v: i64) -> Number {
        match signed_width(v) {
            Size::Byte => Number::Int8(v as i8),
            Size::Word => Number::Int16(v as i16),
            Size::Dword => Number::Int32(v as i32),
            _ => Number::Int64(v),
        }
    }

    /// The narrowest signed number with the value `v`.
    pub fn squeeze_i64(v: i64) -> (r: Number)
        ensures
            r == Number::spec_squeeze_i64(v),
            r.spec_value() == v,
            r.spec_size() == signed_width(v),
    {
        if -0x80 <= v && v <= 0x7f {
            Number::Int8(v as i8)
        } else if -0x8000 <= v && v <= 0x7fff {
            Number::Int16(v as i16)
        } else if -0x8000_0000 <= v && v <= 0x7fff_ffff {
            Number::Int32(v as i32)
        } else {
            Number::Int64(v)
        }
    }

    /// The smallest width that represents the value without loss, in the
    /// number's own signedness.
    pub open spec fn spec_squeezed_size(self) -> Size {
        match self.spec_get_uint() {
            Some(u) => unsigned_width(u),
            None => signed_width(self.spec_get_int().unwrap()),
        }
    }

    /// Computes `spec_squeezed_size`.
    #[verifier::when_used_as_spec(spec_squeezed_size)]
    pub fn squeezed_size(self) -> (r: Size)
        ensures
            r == self.spec_squeezed_size(),
            r.spec_is_gpr_width(),
            r.spec_bytes() <= self.spec_size().spec_bytes(),
    {
        match self.get_uint() {
            Some(u) => Number::squeeze_u64(u).size(),
            None => match self.get_int() {
                Some(i) => Number::squeeze_i64(i).size(),
                None => Size::Qword,
            },
        }
    }

    /// Whether the value lies in the range of a signed byte.
    pub open spec fn spec_fits_i8(self) -> bool {
        -0x80 <= self.spec_value() <= 0x7f
    }

    /// Computes `spec_fits_i8`.
    #[verifier::when_used_as_spec(spec_fits_i8)]
    pub fn fits_i8(self) -> (r: bool)
        ensures
            r == self.spec_fits_i8(),
    {
        match self {
            Number::UInt8(v) => v <= 0x7f,
            Number::UInt16(v) => v <= 0x7f,
            Number::UInt32(v) => v <= 0x7f,
            Number::UInt64(v) => v <= 0x7f,
            Number::Int8(_) => true,
            Number::Int16(v) => -0x80 <= v && v <= 0x7f,
            Number::Int32(v) => -0x80 <= v && v <= 0x7f,
            Number::Int64(v) => -0x80 <= v && v <= 0x7f,
        }
    }

    /// Whether the value lies in the range of a signed double word.
    pub open spec fn spec_fits_i32(self) -> bool {
        -0x8000_0000 <= self.spec_value() <= 0x7fff_ffff
    }

    /// Computes `spec_fits_i32`.
    #[verifier::when_used_as_spec(spec_fits_i32)]
    pub fn fits_i32(self) -> (r: bool)
        ensures
            r == self.spec_fits_i32(),
    {
        match self {
            Number::UInt8(_) | Number::UInt16(_) => true,
            Number::UInt32(v) => v <= 0x7fff_ffff,
            Number::UInt64(v) => v <= 0x7fff_ffff,
            Number::Int8(_) | Number::Int16(_) | Number::Int32(_) => true,
            Number::Int64(v) => -0x8000_0000 <= v && v <= 0x7fff_ffff,
        }
    }

    /// The value as a 64-bit two's-complement pattern: unsigned numbers are
    /// zero-extended, signed ones sign-extended.
    pub open spec fn spec_pattern(self) -> u64 {
        match self {
            Number::UInt8(v) => v as u64,
            Number::UInt16(v) => v as u64,
            Number::UInt32(v) => v as u64,
            Number::UInt64(v) => v,
            Number::Int8(v) => (v as i64) as u64,
            Number::Int16(v) => (v as i64) as u64,
            Number::Int32(v) => (v as i64) as u64,
            Number::Int64(v) => v as u64,
        }
    }

    /// Computes `spec_pattern`.
    #[verifier::when_used_as_spec(spec_pattern)]
    pub fn pattern(self) -> (r: u64)
        ensures
            r == self.spec_pattern(),
    {
        match self {
            Number::UInt8(v) => v as u64,
            Number::UInt16(v) => v as u64,
            Number::UInt32(v) => v as u64,
            Number::UInt64(v) => v,
            Number::Int8(v) => (v as i64) as u64,
            Number::Int16(v) => (v as i64) as u64,
            Number::Int32(v) => (v as i64) as u64,
            Number::Int64(v) => v as u64,
        }
    }

    /// The `n` low bytes of the value, least significant first.
    pub open spec fn spec_low_bytes(self, n: nat) -> Seq<u8> {
        le_bytes(self.spec_pattern(), n)
    }

    /// The `n` low bytes of the value, least significant first.
    pub fn low_bytes(self, n: u8) -> (out: Vec<u8>)
        requires
            n <= 8,
        ensures
            out@ == self.spec_low_bytes(n as nat),
            out@.len() == n,
    {
        pattern_bytes(self.pattern(), n)
    }

    /// The bytes of the number in the width it was written in, least
    /// significant first.
    pub open spec fn spec_split_into_bytes(self) -> Seq<u8> {
        self.spec_low_bytes(self.spec_size().spec_bytes() as nat)
    }

    /// The bytes of the number in the width it was written in.
    pub fn split_into_bytes(self) -> (out: Vec<u8>)
        ensures
            out@ == self.spec_split_into_bytes(),
            out@.len() == self.spec_size().spec_bytes(),
    {
        self.low_bytes(self.size().bytes())
    }
}

/// 256 to the power `i`, for the eight bytes of a 64-bit pattern.
pub open spec fn byte_weight(i: int) -> int {
    if i == 0 {
        0x1
    } else if i == 1 {
        0x100
    } else if i == 2 {
        0x1_0000
    } else if i == 3 {
        0x100_0000
    } else if i == 4 {
        0x1_0000_0000
    } else if i == 5 {
        0x100_0000_0000
    } else if i == 6 {
        0x1_0000_0000_0000
    } else {
        0x100_0000_0000_0000
    }
}

/// Byte `i` of a pattern is the digit of weight 256 to the `i` of the
/// number that the pattern stands for.
pub proof fn lemma_byte_is_digit(p: u64, i: int)
    requires
        0 <= i < 8,
    ensures
        byte_of(p, i) == (p as int / byte_weight(i)) % 256,
{
    assert(((p >> 0u64) & 0xff) == (p / 0x1) % 0x100) by (bit_vector);
    assert(((p >> 8u64) & 0xff) == (p / 0x100) % 0x100) by (bit_vector);
    assert(((p >> 16u64) & 0xff) == (p / 0x1_0000) % 0x100) by (bit_vector);
    assert(((p >> 24u64) & 0xff) == (p / 0x100_0000) % 0x100) by (bit_vector);
    assert(((p >> 32u64) & 0xff) == (p / 0x1_0000_0000) % 0x100) by (bit_vector);
    assert(((p >> 40u64) & 0xff) == (p / 0x100_0000_0000) % 0x100) by (bit_vector);
    assert(((p >> 48u64) & 0xff) == (p / 0x1_0000_0000_0000) % 0x100) by (bit_vector);
    assert(((p >> 56u64) & 0xff) == (p / 0x100_0000_0000_0000) % 0x100) by (bit_vector);
    assert(((8 * i) as u64) == 8 * i);
}

/// The pattern of a number is its value where that is not negative, and
/// its value plus 2 to the 64 where it is: the two's complement.
pub proof fn lemma_pattern_is_value(n: Number)
    ensures
        n.spec_value() >= 0 ==> n.spec_pattern() == n.spec_value(),
        n.spec_value() < 0 ==> n.spec_pattern() == n.spec_value() + 0x1_0000_0000_0000_0000,
{
    match n {
        Number::Int8(v) => {
            let w = v as i64;
            assert(w >= 0 ==> w as u64 == w) by (bit_vector);
            assert(w < 0 ==> w as u64 == w + 0x1_0000_0000_0000_0000) by (bit_vector);
        },
        Number::Int16(v) => {
            let w = v as i64;
            assert(w >= 0 ==> w as u64 == w) by (bit_vector);
            assert(w < 0 ==> w as u64 == w + 0x1_0000_0000_0000_0000) by (bit_vector);
        },
        Number::Int32(v) => {
            let w = v as i64;
            assert(w >= 0 ==> w as u64 == w) by (bit_vector);
            assert(w < 0 ==> w as u64 == w + 0x1_0000_0000_0000_0000) by (bit_vector);
        },
        Number::Int64(v) => {
            assert(v >= 0 ==> v as u64 == v) by (bit_vector);
            assert(v < 0 ==> v as u64 == v + 0x1_0000_0000_0000_0000) by (bit_vector);
        },
        _ => {},
    }
}

} // verus!
