use vstd::prelude::*;
use crate::enc::comp::gen_ins;
use crate::enc::comp::gen_ins_wpref;
use crate::enc::comp::spec_gen_ins;
use crate::enc::comp::spec_gen_ins_wpref;
use crate::shr::ast::IVariant;
use crate::shr::ast::Instruction;
use crate::shr::ast::Operand;
use crate::shr::ins::Mnemonic;
use crate::shr::reg::Purpose;
use crate::shr::size::Size;

verus! {

/// How one form of a vector instruction is encoded.
#[derive(Clone, Copy, Debug)]
pub struct Simd {
    /// The mandatory prefix 66h, F2h or F3h; 0 where the form has none.
    pub pfx: u8,
    /// The byte that selects the opcode map behind 0Fh: 38h or 3Ah; 0 for the
    /// map of 0Fh itself.
    pub map: u8,
    /// The opcode within its map.
    pub op: u8,
    /// Whether the destination stands in the `reg` field of ModR/M.
    pub rev: bool,
    /// The opcode extension in the `reg` field, where the form has one.
    pub ext: Option<u8>,
    /// The position of the operand that gives the immediate byte, where the
    /// form has one.
    pub imm: Option<usize>,
}

/// Whether an optional operand is a register of the MMX or XMM file.
pub open spec fn opt_is_vector(o: Option<Operand>) -> bool {
    match o {
        Some(Operand::Reg(r)) => r.spec_purpose() == Purpose::Mmx || r.spec_purpose() == Purpose::F128,
        _ => false,
    }
}

/// Whether an optional operand is a general-purpose register.
pub open spec fn opt_is_gpr(o: Option<Operand>) -> bool {
    match o {
        Some(o) => o.spec_gpr() is Some,
        None => false,
    }
}

fn is_vector(o: Option<&Operand>) -> (r: bool)
    ensures
        o is Some ==> r == opt_is_vector(Some(*o.unwrap())),
        o is None ==> !r,
{
    match o {
        Some(Operand::Reg(r)) => r.purpose() == Purpose::Mmx || r.purpose() == Purpose::F128,
        _ => false,
    }
}

fn is_gpr(o: Option<&Operand>) -> (r: bool)
    ensures
        o is Some ==> r == opt_is_gpr(Some(*o.unwrap())),
        o is None ==> !r,
{
    match o {
        Some(o) => o.gpr().is_some(),
        None => false,
    }
}

impl Simd {
    /// A form that reads: the destination in `reg`, the source in `r/m`,
    /// an immediate byte as third operand where `imm` says so.
    pub open spec fn spec_load(pfx: u8, map: u8, op: u8, imm: bool) -> Simd {
        Simd { pfx, map, op, rev: true, ext: None, imm: if imm { Some(2usize) } else { None } }
    }

    /// Computes `spec_load`.
    #[verifier::when_used_as_spec(spec_load)]
    pub fn load(pfx: u8, map: u8, op: u8, imm: bool) -> (r: Simd)
        ensures
            r == Simd::spec_load(pfx, map, op, imm),
    {
        Simd { pfx, map, op, rev: true, ext: None, imm: if imm { Some(2usize) } else { None } }
    }

    /// A form that writes: the destination in `r/m`, the source in `reg`.
    pub open spec fn spec_store(pfx: u8, map: u8, op: u8, imm: bool) -> Simd {
        Simd { pfx, map, op, rev: false, ext: None, imm: if imm { Some(2usize) } else { None } }
    }

    /// Computes `spec_store`.
    #[verifier::when_used_as_spec(spec_store)]
    pub fn store(pfx: u8, map: u8, op: u8, imm: bool) -> (r: Simd)
        ensures
            r == Simd::spec_store(pfx, map, op, imm),
    {
        Simd { pfx, map, op, rev: false, ext: None, imm: if imm { Some(2usize) } else { None } }
    }

    /// A form with an opcode extension and an immediate byte as second
    /// operand.
    pub open spec fn spec_extended(pfx: u8, op: u8, ext: u8) -> Simd {
        Simd { pfx, map: 0, op, rev: false, ext: Some(ext), imm: Some(1usize) }
    }

    /// Computes `spec_extended`.
    #[verifier::when_used_as_spec(spec_extended)]
    pub fn extended(pfx: u8, op: u8, ext: u8) -> (r: Simd)
        ensures
            r == Simd::spec_extended(pfx, op, ext),
    {
        Simd { pfx, map: 0, op, rev: false, ext: Some(ext), imm: Some(1usize) }
    }

    /// The prefix of a mnemonic that MMX and SSE share: 66h on XMM operands,
    /// none on MMX operands.
    pub open spec fn spec_dual(ins: &Instruction) -> u8 {
        if ins.spec_which_variant() == IVariant::XMM {
            0x66
        } else {
            0
        }
    }

    /// Computes `spec_dual`.
    #[verifier::when_used_as_spec(spec_dual)]
    pub fn dual(ins: &Instruction) -> (r: u8)
        ensures
            r == Simd::spec_dual(ins),
    {
        if ins.which_variant() == IVariant::XMM {
            0x66
        } else {
            0
        }
    }

    /// A move with one opcode for each direction: `store` where the
    /// destination is memory, else `load`.
    pub open spec fn spec_moving(ins: &Instruction, pfx: u8, load: u8, store: u8) -> Simd {
        if ins.spec_dst() is Some && ins.spec_dst().unwrap().spec_is_mem() {
            Simd::spec_store(pfx, 0, store, false)
        } else {
            Simd::spec_load(pfx, 0, load, false)
        }
    }

    /// Computes `spec_moving`.
    #[verifier::when_used_as_spec(spec_moving)]
    pub fn moving(ins: &Instruction, pfx: u8, load: u8, store: u8) -> (r: Simd)
        ensures
            r == Simd::spec_moving(ins, pfx, load, store),
    {
        let to_mem = match ins.dst() {
            Some(d) => d.is_mem(),
            None => false,
        };
        if to_mem {
            Simd::store(pfx, 0, store, false)
        } else {
            Simd::load(pfx, 0, load, false)
        }
    }

    /// A packed shift: by an immediate byte `by_imm` with the opcode
    /// extension `ext`, by a register or memory `by_reg`.
    pub open spec fn spec_shift(ins: &Instruction, by_reg: u8, by_imm: u8, ext: u8) -> Simd {
        if ins.spec_src() matches Some(Operand::Imm(_)) {
            Simd::spec_extended(Simd::spec_dual(ins), by_imm, ext)
        } else {
            Simd::spec_load(Simd::spec_dual(ins), 0, by_reg, false)
        }
    }

    /// Computes `spec_shift`.
    #[verifier::when_used_as_spec(spec_shift)]
    pub fn shift(ins: &Instruction, by_reg: u8, by_imm: u8, ext: u8) -> (r: Simd)
        ensures
            r == Simd::spec_shift(ins, by_reg, by_imm, ext),
    {
        let imm = match ins.src() {
            Some(Operand::Imm(_)) => true,
            _ => false,
        };
        if imm {
            Simd::extended(Simd::dual(ins), by_imm, ext)
        } else {
            Simd::load(Simd::dual(ins), 0, by_reg, false)
        }
    }

    /// The opcode of CRC32: F0h for a byte source, F1h for a wider one.
    pub open spec fn spec_crc_opcode(ins: &Instruction) -> u8 {
        if ins.spec_src() is Some && ins.spec_src().unwrap().spec_size() == Size::Byte {
            0xF0
        } else {
            0xF1
        }
    }

    /// Computes `spec_crc_opcode`.
    #[verifier::when_used_as_spec(spec_crc_opcode)]
    pub fn crc_opcode(ins: &Instruction) -> (r: u8)
        ensures
            r == Simd::spec_crc_opcode(ins),
    {
        let byte = match ins.src() {
            Some(s) => s.size() == Size::Byte,
            None => false,
        };
        if byte {
            0xF0
        } else {
            0xF1
        }
    }

    /// MOVD, and MOVQ where `quad` is set. With a general-purpose register
    /// on one side, or for MOVD, the opcode is 6Eh towards the vector
    /// register and 7Eh away from it, behind 66h for XMM. MOVQ between
    /// vector registers and memory is `0F 6F` / `0F 7F` for MMX and
    /// `F3 0F 7E` / `66 0F D6` for XMM, the first of each pair where the
    /// destination is a register.
    pub open spec fn spec_transfer(ins: &Instruction, quad: bool) -> Simd {
        let into = opt_is_vector(ins.spec_dst());
        if !quad || opt_is_gpr(ins.spec_dst()) || opt_is_gpr(ins.spec_src()) {
            if into {
                Simd::spec_load(Simd::spec_dual(ins), 0, 0x6E, false)
            } else {
                Simd::spec_store(Simd::spec_dual(ins), 0, 0x7E, false)
            }
        } else if ins.spec_which_variant() == IVariant::XMM {
            if into {
                Simd::spec_load(0xF3, 0, 0x7E, false)
            } else {
                Simd::spec_store(0x66, 0, 0xD6, false)
            }
        } else {
            if into {
                Simd::spec_load(0, 0, 0x6F, false)
            } else {
                Simd::spec_store(0, 0, 0x7F, false)
            }
        }
    }

    /// Computes `spec_transfer`.
    #[verifier::when_used_as_spec(spec_transfer)]
    pub fn transfer(ins: &Instruction, quad: bool) -> (r: Simd)
        ensures
            r == Simd::spec_transfer(ins, quad),
    {
        let into = is_vector(ins.dst());
        if !quad || is_gpr(ins.dst()) || is_gpr(ins.src()) {
            if into {
                Simd::load(Simd::dual(ins), 0, 0x6E, false)
            } else {
                Simd::store(Simd::dual(ins), 0, 0x7E, false)
            }
        } else if ins.which_variant() == IVariant::XMM {
            if into {
                Simd::load(0xF3, 0, 0x7E, false)
            } else {
                Simd::store(0x66, 0, 0xD6, false)
            }
        } else {
            if into {
                Simd::load(0, 0, 0x6F, false)
            } else {
                Simd::store(0, 0, 0x7F, false)
            }
        }
    }

    /// The opcode bytes of the form: 0Fh, the map byte where there is one,
    /// and the opcode.
    pub open spec fn spec_opcode(self) -> Seq<u8> {
        if self.map == 0 {
            [0x0Fu8, self.op]@
        } else {
            [0x0Fu8, self.map, self.op]@
        }
    }
}

/// How the forms of a vector mnemonic come about.
#[derive(Clone, Copy, Debug)]
pub enum SimdKind {
    /// One form that reads.
    Load { pfx: u8, map: u8, op: u8, imm: bool },
    /// One form that writes.
    Store { pfx: u8, map: u8, op: u8, imm: bool },
    /// A move with one opcode for each direction.
    Moving { pfx: u8, load: u8, store: u8 },
    /// One form that reads, shared by MMX and SSE.
    Dual { map: u8, op: u8, imm: bool },
    /// A packed shift, by a register or by an immediate.
    Shift { by_reg: u8, by_imm: u8, ext: u8 },
    /// One form with an opcode extension and an immediate.
    Extended { pfx: u8, op: u8, ext: u8 },
    /// CRC32.
    Crc,
    /// MOVD, and MOVQ where `quad` is set.
    Transfer { quad: bool },
}

impl SimdKind {
    /// Whether an opcode extension of the kind is one that ModR/M can hold.
    pub open spec fn wf(self) -> bool {
        match self {
            SimdKind::Shift { ext, .. } => ext < 8,
            SimdKind::Extended { ext, .. } => ext < 8,
            _ => true,
        }
    }

    /// The form of an instruction of this kind.
    pub open spec fn spec_form(self, ins: &Instruction) -> Simd {
        match self {
            SimdKind::Load { pfx, map, op, imm } => Simd::spec_load(pfx, map, op, imm),
            SimdKind::Store { pfx, map, op, imm } => Simd::spec_store(pfx, map, op, imm),
            SimdKind::Moving { pfx, load, store } => Simd::spec_moving(ins, pfx, load, store),
            SimdKind::Dual { map, op, imm } => Simd::spec_load(Simd::spec_dual(ins), map, op, imm),
            SimdKind::Shift { by_reg, by_imm, ext } => Simd::spec_shift(ins, by_reg, by_imm, ext),
            SimdKind::Extended { pfx, op, ext } => Simd::spec_extended(pfx, op, ext),
            SimdKind::Crc => Simd::spec_load(0xF2, 0x38, Simd::spec_crc_opcode(ins), false),
            SimdKind::Transfer { quad } => Simd::spec_transfer(ins, quad),
        }
    }

    /// Computes `spec_form`.
    #[verifier::when_used_as_spec(spec_form)]
    pub fn form(self, ins: &Instruction) -> (r: Simd)
        requires
            self.wf(),
        ensures
            r == self.spec_form(ins),
            r.ext is Some ==> r.ext.unwrap() < 8,
            r.imm is Some ==> r.imm.unwrap() <= 2,
    {
        match self {
            SimdKind::Load { pfx, map, op, imm } => Simd::load(pfx, map, op, imm),
            SimdKind::Store { pfx, map, op, imm } => Simd::store(pfx, map, op, imm),
            SimdKind::Moving { pfx, load, store } => Simd::moving(ins, pfx, load, store),
            SimdKind::Dual { map, op, imm } => Simd::load(Simd::dual(ins), map, op, imm),
            SimdKind::Shift { by_reg, by_imm, ext } => Simd::shift(ins, by_reg, by_imm, ext),
            SimdKind::Extended { pfx, op, ext } => Simd::extended(pfx, op, ext),
            SimdKind::Crc => Simd::load(0xF2, 0x38, Simd::crc_opcode(ins), false),
            SimdKind::Transfer { quad } => Simd::transfer(ins, quad),
        }
    }
}

/// The kind of a vector mnemonic; none for any other mnemonic.
pub open spec fn spec_simd_kind(m: Mnemonic) -> Option<SimdKind> {
    match m {
            Mnemonic::MOVSS => Some(SimdKind::Moving { pfx: 0xF3, load: 0x10, store: 0x11 }),
            Mnemonic::MOVHLPS => Some(SimdKind::Load { pfx: 0x00, map: 0x00, op: 0x12, imm: false }),
            Mnemonic::MOVLHPS => Some(SimdKind::Load { pfx: 0x00, map: 0x00, op: 0x16, imm: false }),
            Mnemonic::MOVAPS => Some(SimdKind::Moving { pfx: 0x00, load: 0x28, store: 0x29 }),
            Mnemonic::MOVUPS => Some(SimdKind::Moving { pfx: 0x00, load: 0x10, store: 0x11 }),
            Mnemonic::MOVLPS => Some(SimdKind::Moving { pfx: 0x00, load: 0x12, store: 0x13 }),
            Mnemonic::MOVHPS => Some(SimdKind::Moving { pfx: 0x00, load: 0x16, store: 0x17 }),
            Mnemonic::ADDPS => Some(SimdKind::Load { pfx: 0x00, map: 0x00, op: 0x58, imm: false }),
            Mnemonic::ADDSS => Some(SimdKind::Load { pfx: 0xF3, map: 0x00, op: 0x58, imm: false }),
            Mnemonic::ADDPD => Some(SimdKind::Load { pfx: 0x66, map: 0x00, op: 0x58, imm: false }),
            Mnemonic::ADDSD => Some(SimdKind::Load { pfx: 0xF2, map: 0x00, op: 0x58, imm: false }),
            Mnemonic::SUBPS => Some(SimdKind::Load { pfx: 0x00, map: 0x00, op: 0x5C, imm: false }),
            Mnemonic::SUBSS => Some(SimdKind::Load { pfx: 0xF3, map: 0x00, op: 0x5C, imm: false }),
            Mnemonic::SUBPD => Some(SimdKind::Load { pfx: 0x66, map: 0x00, op: 0x5C, imm: false }),
            Mnemonic::SUBSD => Some(SimdKind::Load { pfx: 0xF2, map: 0x00, op: 0x5C, imm: false }),
            Mnemonic::MULPS => Some(SimdKind::Load { pfx: 0x00, map: 0x00, op: 0x59, imm: false }),
            Mnemonic::MULSS => Some(SimdKind::Load { pfx: 0xF3, map: 0x00, op: 0x59, imm: false }),
            Mnemonic::MULPD => Some(SimdKind::Load { pfx: 0x66, map: 0x00, op: 0x59, imm: false }),
            Mnemonic::MULSD => Some(SimdKind::Load { pfx: 0xF2, map: 0x00, op: 0x59, imm: false }),
            Mnemonic::DIVPS => Some(SimdKind::Load { pfx: 0x00, map: 0x00, op: 0x5E, imm: false }),
            Mnemonic::DIVSS => Some(SimdKind::Load { pfx: 0xF3, map: 0x00, op: 0x5E, imm: false }),
            Mnemonic::DIVPD => Some(SimdKind::Load { pfx: 0x66, map: 0x00, op: 0x5E, imm: false }),
            Mnemonic::DIVSD => Some(SimdKind::Load { pfx: 0xF2, map: 0x00, op: 0x5E, imm: false }),
            Mnemonic::MINPS => Some(SimdKind::Load { pfx: 0x00, map: 0x00, op: 0x5D, imm: false }),
            Mnemonic::MINSS => Some(SimdKind::Load { pfx: 0xF3, map: 0x00, op: 0x5D, imm: false }),
            Mnemonic::MINPD => Some(SimdKind::Load { pfx: 0x66, map: 0x00, op: 0x5D, imm: false }),
            Mnemonic::MINSD => Some(SimdKind::Load { pfx: 0xF2, map: 0x00, op: 0x5D, imm: false }),
            Mnemonic::MAXPS => Some(SimdKind::Load { pfx: 0x00, map: 0x00, op: 0x5F, imm: false }),
            Mnemonic::MAXSS => Some(SimdKind::Load { pfx: 0xF3, map: 0x00, op: 0x5F, imm: false }),
            Mnemonic::MAXPD => Some(SimdKind::Load { pfx: 0x66, map: 0x00, op: 0x5F, imm: false }),
            Mnemonic::MAXSD => Some(SimdKind::Load { pfx: 0xF2, map: 0x00, op: 0x5F, imm: false }),
            Mnemonic::SQRTPS => Some(SimdKind::Load { pfx: 0x00, map: 0x00, op: 0x51, imm: false }),
            Mnemonic::SQRTSS => Some(SimdKind::Load { pfx: 0xF3, map: 0x00, op: 0x51, imm: false }),
            Mnemonic::SQRTPD => Some(SimdKind::Load { pfx: 0x66, map: 0x00, op: 0x51, imm: false }),
            Mnemonic::SQRTSD => Some(SimdKind::Load { pfx: 0xF2, map: 0x00, op: 0x51, imm: false }),
            Mnemonic::RSQRTPS => Some(SimdKind::Load { pfx: 0x00, map: 0x00, op: 0x52, imm: false }),
            Mnemonic::RSQRTSS => Some(SimdKind::Load { pfx: 0xF3, map: 0x00, op: 0x52, imm: false }),
            Mnemonic::RCPPS => Some(SimdKind::Load { pfx: 0x00, map: 0x00, op: 0x53, imm: false }),
            Mnemonic::RCPSS => Some(SimdKind::Load { pfx: 0xF3, map: 0x00, op: 0x53, imm: false }),
            Mnemonic::SHUFPS => Some(SimdKind::Load { pfx: 0x00, map: 0x00, op: 0xC6, imm: true }),
            Mnemonic::CMPPS => Some(SimdKind::Load { pfx: 0x00, map: 0x00, op: 0xC2, imm: true }),
            Mnemonic::CMPSS => Some(SimdKind::Load { pfx: 0xF3, map: 0x00, op: 0xC2, imm: true }),
            Mnemonic::CMPPD => Some(SimdKind::Load { pfx: 0x66, map: 0x00, op: 0xC2, imm: true }),
            Mnemonic::CMPSD => Some(SimdKind::Load { pfx: 0xF2, map: 0x00, op: 0xC2, imm: true }),
            Mnemonic::COMISS => Some(SimdKind::Load { pfx: 0x00, map: 0x00, op: 0x2F, imm: false }),
            Mnemonic::UCOMISS => Some(SimdKind::Load { pfx: 0x00, map: 0x00, op: 0x2E, imm: false }),
            Mnemonic::COMISD => Some(SimdKind::Load { pfx: 0x66, map: 0x00, op: 0x2F, imm: false }),
            Mnemonic::UCOMISD => Some(SimdKind::Load { pfx: 0x66, map: 0x00, op: 0x2E, imm: false }),
            Mnemonic::ORPS => Some(SimdKind::Load { pfx: 0x00, map: 0x00, op: 0x56, imm: false }),
            Mnemonic::ORPD => Some(SimdKind::Load { pfx: 0x66, map: 0x00, op: 0x56, imm: false }),
            Mnemonic::ANDPS => Some(SimdKind::Load { pfx: 0x00, map: 0x00, op: 0x54, imm: false }),
            Mnemonic::ANDPD => Some(SimdKind::Load { pfx: 0x66, map: 0x00, op: 0x54, imm: false }),
            Mnemonic::ANDNPS => Some(SimdKind::Load { pfx: 0x00, map: 0x00, op: 0x55, imm: false }),
            Mnemonic::ANDNPD => Some(SimdKind::Load { pfx: 0x66, map: 0x00, op: 0x55, imm: false }),
            Mnemonic::XORPS => Some(SimdKind::Load { pfx: 0x00, map: 0x00, op: 0x57, imm: false }),
            Mnemonic::XORPD => Some(SimdKind::Load { pfx: 0x66, map: 0x00, op: 0x57, imm: false }),
            Mnemonic::UNPCKLPS => Some(SimdKind::Load { pfx: 0x00, map: 0x00, op: 0x14, imm: false }),
            Mnemonic::UNPCKHPS => Some(SimdKind::Load { pfx: 0x00, map: 0x00, op: 0x15, imm: false }),
            Mnemonic::CVTSI2SS => Some(SimdKind::Load { pfx: 0xF3, map: 0x00, op: 0x2A, imm: false }),
            Mnemonic::CVTPS2PI => Some(SimdKind::Load { pfx: 0x00, map: 0x00, op: 0x2D, imm: false }),
            Mnemonic::CVTTPS2PI => Some(SimdKind::Load { pfx: 0x00, map: 0x00, op: 0x2C, imm: false }),
            Mnemonic::CVTPI2PS => Some(SimdKind::Load { pfx: 0x00, map: 0x00, op: 0x2A, imm: false }),
            Mnemonic::CVTSS2SI => Some(SimdKind::Load { pfx: 0xF3, map: 0x00, op: 0x2D, imm: false }),
            Mnemonic::MOVNTI => Some(SimdKind::Store { pfx: 0x00, map: 0x00, op: 0xC3, imm: false }),
            Mnemonic::MOVNTPD => Some(SimdKind::Store { pfx: 0x66, map: 0x00, op: 0x2B, imm: false }),
            Mnemonic::MOVNTDQ => Some(SimdKind::Store { pfx: 0x66, map: 0x00, op: 0xE7, imm: false }),
            Mnemonic::MOVAPD => Some(SimdKind::Moving { pfx: 0x66, load: 0x28, store: 0x29 }),
            Mnemonic::MOVUPD => Some(SimdKind::Moving { pfx: 0x66, load: 0x10, store: 0x11 }),
            Mnemonic::MOVLPD => Some(SimdKind::Moving { pfx: 0x66, load: 0x12, store: 0x13 }),
            Mnemonic::MOVHPD => Some(SimdKind::Moving { pfx: 0x66, load: 0x16, store: 0x17 }),
            Mnemonic::MOVSD => Some(SimdKind::Moving { pfx: 0xF2, load: 0x10, store: 0x11 }),
            Mnemonic::MOVDQA => Some(SimdKind::Moving { pfx: 0x66, load: 0x6F, store: 0x7F }),
            Mnemonic::MOVDQ2Q => Some(SimdKind::Load { pfx: 0xF2, map: 0x00, op: 0xD6, imm: false }),
            Mnemonic::MOVMSKPD => Some(SimdKind::Load { pfx: 0x66, map: 0x00, op: 0x50, imm: false }),
            Mnemonic::MASKMOVDQU => Some(SimdKind::Load { pfx: 0x66, map: 0x00, op: 0xF7, imm: false }),
            Mnemonic::CVTPD2PI => Some(SimdKind::Load { pfx: 0x66, map: 0x00, op: 0x2D, imm: false }),
            Mnemonic::CVTPI2PD => Some(SimdKind::Load { pfx: 0x66, map: 0x00, op: 0x2A, imm: false }),
            Mnemonic::CVTPS2DQ => Some(SimdKind::Load { pfx: 0x66, map: 0x00, op: 0x5B, imm: false }),
            Mnemonic::CVTDQ2PS => Some(SimdKind::Load { pfx: 0x00, map: 0x00, op: 0x5B, imm: false }),
            Mnemonic::CVTDQ2PD => Some(SimdKind::Load { pfx: 0xF3, map: 0x00, op: 0xE6, imm: false }),
            Mnemonic::CVTSD2SI => Some(SimdKind::Load { pfx: 0xF2, map: 0x00, op: 0x2D, imm: false }),
            Mnemonic::CVTSI2SD => Some(SimdKind::Load { pfx: 0xF2, map: 0x00, op: 0x2A, imm: false }),
            Mnemonic::CVTTPS2DQ => Some(SimdKind::Load { pfx: 0xF3, map: 0x00, op: 0x5B, imm: false }),
            Mnemonic::CVTTSD2SI => Some(SimdKind::Load { pfx: 0xF2, map: 0x00, op: 0x2C, imm: false }),
            Mnemonic::CVTTPD2PI => Some(SimdKind::Load { pfx: 0x66, map: 0x00, op: 0x2C, imm: false }),
            Mnemonic::CVTPS2PD => Some(SimdKind::Load { pfx: 0x00, map: 0x00, op: 0x5A, imm: false }),
            Mnemonic::CVTPD2PS => Some(SimdKind::Load { pfx: 0x66, map: 0x00, op: 0x5A, imm: false }),
            Mnemonic::CVTSS2SD => Some(SimdKind::Load { pfx: 0xF3, map: 0x00, op: 0x5A, imm: false }),
            Mnemonic::CVTSD2SS => Some(SimdKind::Load { pfx: 0xF2, map: 0x00, op: 0x5A, imm: false }),
            Mnemonic::PSHUFLW => Some(SimdKind::Load { pfx: 0xF2, map: 0x00, op: 0x70, imm: true }),
            Mnemonic::PSHUFHW => Some(SimdKind::Load { pfx: 0xF3, map: 0x00, op: 0x70, imm: true }),
            Mnemonic::PSHUFD => Some(SimdKind::Load { pfx: 0x66, map: 0x00, op: 0x70, imm: true }),
            Mnemonic::PSLLDQ => Some(SimdKind::Extended { pfx: 0x66, op: 0x73, ext: 7 }),
            Mnemonic::PSRLDQ => Some(SimdKind::Extended { pfx: 0x66, op: 0x73, ext: 3 }),
            Mnemonic::PUNPCKHQDQ => Some(SimdKind::Load { pfx: 0x66, map: 0x00, op: 0x6D, imm: false }),
            Mnemonic::PUNPCKLQDQ => Some(SimdKind::Load { pfx: 0x66, map: 0x00, op: 0x6C, imm: false }),
            Mnemonic::MOVD => Some(SimdKind::Transfer { quad: false }),
            Mnemonic::MOVQ => Some(SimdKind::Transfer { quad: true }),
            Mnemonic::PADDB => Some(SimdKind::Dual { map: 0x00, op: 0xFC, imm: false }),
            Mnemonic::PADDW => Some(SimdKind::Dual { map: 0x00, op: 0xFD, imm: false }),
            Mnemonic::PADDD => Some(SimdKind::Dual { map: 0x00, op: 0xFE, imm: false }),
            Mnemonic::PADDQ => Some(SimdKind::Dual { map: 0x00, op: 0xD4, imm: false }),
            Mnemonic::PADDSB => Some(SimdKind::Dual { map: 0x00, op: 0xEC, imm: false }),
            Mnemonic::PADDSW => Some(SimdKind::Dual { map: 0x00, op: 0xED, imm: false }),
            Mnemonic::PSUBB => Some(SimdKind::Dual { map: 0x00, op: 0xF8, imm: false }),
            Mnemonic::PSUBW => Some(SimdKind::Dual { map: 0x00, op: 0xF9, imm: false }),
            Mnemonic::PSUBD => Some(SimdKind::Dual { map: 0x00, op: 0xFA, imm: false }),
            Mnemonic::PSUBQ => Some(SimdKind::Dual { map: 0x00, op: 0xFB, imm: false }),
            Mnemonic::PSUBSB => Some(SimdKind::Dual { map: 0x00, op: 0xE8, imm: false }),
            Mnemonic::PSUBSW => Some(SimdKind::Dual { map: 0x00, op: 0xE9, imm: false }),
            Mnemonic::PMULLW => Some(SimdKind::Dual { map: 0x00, op: 0xD5, imm: false }),
            Mnemonic::PMULHW => Some(SimdKind::Dual { map: 0x00, op: 0xE5, imm: false }),
            Mnemonic::PMULUDQ => Some(SimdKind::Dual { map: 0x00, op: 0xF4, imm: false }),
            Mnemonic::PMADDWD => Some(SimdKind::Dual { map: 0x00, op: 0xF5, imm: false }),
            Mnemonic::PCMPEQB => Some(SimdKind::Dual { map: 0x00, op: 0x74, imm: false }),
            Mnemonic::PCMPEQW => Some(SimdKind::Dual { map: 0x00, op: 0x75, imm: false }),
            Mnemonic::PCMPEQD => Some(SimdKind::Dual { map: 0x00, op: 0x76, imm: false }),
            Mnemonic::PCMPGTB => Some(SimdKind::Dual { map: 0x00, op: 0x64, imm: false }),
            Mnemonic::PCMPGTW => Some(SimdKind::Dual { map: 0x00, op: 0x65, imm: false }),
            Mnemonic::PCMPGTD => Some(SimdKind::Dual { map: 0x00, op: 0x66, imm: false }),
            Mnemonic::PACKUSWB => Some(SimdKind::Dual { map: 0x00, op: 0x67, imm: false }),
            Mnemonic::PACKSSWB => Some(SimdKind::Dual { map: 0x00, op: 0x63, imm: false }),
            Mnemonic::PACKSSDW => Some(SimdKind::Dual { map: 0x00, op: 0x6B, imm: false }),
            Mnemonic::PUNPCKLBW => Some(SimdKind::Dual { map: 0x00, op: 0x60, imm: false }),
            Mnemonic::PUNPCKLWD => Some(SimdKind::Dual { map: 0x00, op: 0x61, imm: false }),
            Mnemonic::PUNPCKLDQ => Some(SimdKind::Dual { map: 0x00, op: 0x62, imm: false }),
            Mnemonic::PUNPCKHBW => Some(SimdKind::Dual { map: 0x00, op: 0x68, imm: false }),
            Mnemonic::PUNPCKHWD => Some(SimdKind::Dual { map: 0x00, op: 0x69, imm: false }),
            Mnemonic::PUNPCKHDQ => Some(SimdKind::Dual { map: 0x00, op: 0x6A, imm: false }),
            Mnemonic::POR => Some(SimdKind::Dual { map: 0x00, op: 0xEB, imm: false }),
            Mnemonic::PAND => Some(SimdKind::Dual { map: 0x00, op: 0xDB, imm: false }),
            Mnemonic::PANDN => Some(SimdKind::Dual { map: 0x00, op: 0xDF, imm: false }),
            Mnemonic::PXOR => Some(SimdKind::Dual { map: 0x00, op: 0xEF, imm: false }),
            Mnemonic::PSLLW => Some(SimdKind::Shift { by_reg: 0xF1, by_imm: 0x71, ext: 6 }),
            Mnemonic::PSLLD => Some(SimdKind::Shift { by_reg: 0xF2, by_imm: 0x72, ext: 6 }),
            Mnemonic::PSLLQ => Some(SimdKind::Shift { by_reg: 0xF3, by_imm: 0x73, ext: 6 }),
            Mnemonic::PSRLW => Some(SimdKind::Shift { by_reg: 0xD1, by_imm: 0x71, ext: 2 }),
            Mnemonic::PSRLD => Some(SimdKind::Shift { by_reg: 0xD2, by_imm: 0x72, ext: 2 }),
            Mnemonic::PSRLQ => Some(SimdKind::Shift { by_reg: 0xD3, by_imm: 0x73, ext: 2 }),
            Mnemonic::PSRAW => Some(SimdKind::Shift { by_reg: 0xE1, by_imm: 0x71, ext: 4 }),
            Mnemonic::PSRAD => Some(SimdKind::Shift { by_reg: 0xE2, by_imm: 0x72, ext: 4 }),
            Mnemonic::ADDSUBPD => Some(SimdKind::Load { pfx: 0x66, map: 0x00, op: 0xD0, imm: false }),
            Mnemonic::ADDSUBPS => Some(SimdKind::Load { pfx: 0xF2, map: 0x00, op: 0xD0, imm: false }),
            Mnemonic::HADDPD => Some(SimdKind::Load { pfx: 0x66, map: 0x00, op: 0x7C, imm: false }),
            Mnemonic::HADDPS => Some(SimdKind::Load { pfx: 0xF2, map: 0x00, op: 0x7C, imm: false }),
            Mnemonic::HSUBPD => Some(SimdKind::Load { pfx: 0x66, map: 0x00, op: 0x7D, imm: false }),
            Mnemonic::HSUBPS => Some(SimdKind::Load { pfx: 0xF2, map: 0x00, op: 0x7D, imm: false }),
            Mnemonic::MOVSLDUP => Some(SimdKind::Load { pfx: 0xF3, map: 0x00, op: 0x12, imm: false }),
            Mnemonic::MOVSHDUP => Some(SimdKind::Load { pfx: 0xF3, map: 0x00, op: 0x16, imm: false }),
            Mnemonic::MOVDDUP => Some(SimdKind::Load { pfx: 0xF2, map: 0x00, op: 0x12, imm: false }),
            Mnemonic::LDDQU => Some(SimdKind::Load { pfx: 0xF2, map: 0x00, op: 0xF0, imm: false }),
            Mnemonic::PABSB => Some(SimdKind::Dual { map: 0x38, op: 0x1C, imm: false }),
            Mnemonic::PABSW => Some(SimdKind::Dual { map: 0x38, op: 0x1D, imm: false }),
            Mnemonic::PABSD => Some(SimdKind::Dual { map: 0x38, op: 0x1E, imm: false }),
            Mnemonic::PSIGNB => Some(SimdKind::Dual { map: 0x38, op: 0x08, imm: false }),
            Mnemonic::PSIGNW => Some(SimdKind::Dual { map: 0x38, op: 0x09, imm: false }),
            Mnemonic::PSIGND => Some(SimdKind::Dual { map: 0x38, op: 0x0A, imm: false }),
            Mnemonic::PSHUFB => Some(SimdKind::Dual { map: 0x38, op: 0x00, imm: false }),
            Mnemonic::PHADDW => Some(SimdKind::Dual { map: 0x38, op: 0x01, imm: false }),
            Mnemonic::PHADDD => Some(SimdKind::Dual { map: 0x38, op: 0x02, imm: false }),
            Mnemonic::PHADDSW => Some(SimdKind::Dual { map: 0x38, op: 0x03, imm: false }),
            Mnemonic::PHSUBW => Some(SimdKind::Dual { map: 0x38, op: 0x05, imm: false }),
            Mnemonic::PHSUBD => Some(SimdKind::Dual { map: 0x38, op: 0x06, imm: false }),
            Mnemonic::PHSUBSW => Some(SimdKind::Dual { map: 0x38, op: 0x07, imm: false }),
            Mnemonic::PMULHRSW => Some(SimdKind::Dual { map: 0x38, op: 0x0B, imm: false }),
            Mnemonic::PMADDUBSW => Some(SimdKind::Dual { map: 0x38, op: 0x04, imm: false }),
            Mnemonic::PALIGNR => Some(SimdKind::Dual { map: 0x3A, op: 0x0F, imm: true }),
            Mnemonic::DPPS => Some(SimdKind::Load { pfx: 0x66, map: 0x3A, op: 0x40, imm: true }),
            Mnemonic::DPPD => Some(SimdKind::Load { pfx: 0x66, map: 0x3A, op: 0x41, imm: true }),
            Mnemonic::PTEST => Some(SimdKind::Load { pfx: 0x66, map: 0x38, op: 0x17, imm: false }),
            Mnemonic::PINSRB => Some(SimdKind::Load { pfx: 0x66, map: 0x3A, op: 0x20, imm: true }),
            Mnemonic::PINSRD | Mnemonic::PINSRQ => Some(SimdKind::Load { pfx: 0x66, map: 0x3A, op: 0x22, imm: true }),
            Mnemonic::PMAXSB => Some(SimdKind::Load { pfx: 0x66, map: 0x38, op: 0x3C, imm: false }),
            Mnemonic::PMAXSD => Some(SimdKind::Load { pfx: 0x66, map: 0x38, op: 0x3D, imm: false }),
            Mnemonic::PMAXUW => Some(SimdKind::Load { pfx: 0x66, map: 0x38, op: 0x3E, imm: false }),
            Mnemonic::PMINSB => Some(SimdKind::Load { pfx: 0x66, map: 0x38, op: 0x38, imm: false }),
            Mnemonic::PMINSD => Some(SimdKind::Load { pfx: 0x66, map: 0x38, op: 0x39, imm: false }),
            Mnemonic::PMINUW => Some(SimdKind::Load { pfx: 0x66, map: 0x38, op: 0x3A, imm: false }),
            Mnemonic::PMULDQ => Some(SimdKind::Load { pfx: 0x66, map: 0x38, op: 0x28, imm: false }),
            Mnemonic::PMULLD => Some(SimdKind::Load { pfx: 0x66, map: 0x38, op: 0x40, imm: false }),
            Mnemonic::BLENDPS => Some(SimdKind::Load { pfx: 0x66, map: 0x3A, op: 0x0C, imm: true }),
            Mnemonic::BLENDPD => Some(SimdKind::Load { pfx: 0x66, map: 0x3A, op: 0x0D, imm: true }),
            Mnemonic::PBLENDW => Some(SimdKind::Load { pfx: 0x66, map: 0x3A, op: 0x0E, imm: true }),
            Mnemonic::PCMPEQQ => Some(SimdKind::Load { pfx: 0x66, map: 0x38, op: 0x29, imm: false }),
            Mnemonic::ROUNDPS => Some(SimdKind::Load { pfx: 0x66, map: 0x3A, op: 0x08, imm: true }),
            Mnemonic::ROUNDPD => Some(SimdKind::Load { pfx: 0x66, map: 0x3A, op: 0x09, imm: true }),
            Mnemonic::ROUNDSS => Some(SimdKind::Load { pfx: 0x66, map: 0x3A, op: 0x0A, imm: true }),
            Mnemonic::ROUNDSD => Some(SimdKind::Load { pfx: 0x66, map: 0x3A, op: 0x0B, imm: true }),
            Mnemonic::MPSADBW => Some(SimdKind::Load { pfx: 0x66, map: 0x3A, op: 0x42, imm: true }),
            Mnemonic::PCMPGTQ => Some(SimdKind::Load { pfx: 0x66, map: 0x38, op: 0x37, imm: false }),
            Mnemonic::BLENDVPS => Some(SimdKind::Load { pfx: 0x66, map: 0x38, op: 0x14, imm: false }),
            Mnemonic::BLENDVPD => Some(SimdKind::Load { pfx: 0x66, map: 0x38, op: 0x15, imm: false }),
            Mnemonic::PBLENDVB => Some(SimdKind::Load { pfx: 0x66, map: 0x38, op: 0x10, imm: false }),
            Mnemonic::INSERTPS => Some(SimdKind::Load { pfx: 0x66, map: 0x3A, op: 0x21, imm: true }),
            Mnemonic::PACKUSDW => Some(SimdKind::Load { pfx: 0x66, map: 0x38, op: 0x2B, imm: false }),
            Mnemonic::MOVNTDQA => Some(SimdKind::Load { pfx: 0x66, map: 0x38, op: 0x2A, imm: false }),
            Mnemonic::PCMPESTRM => Some(SimdKind::Load { pfx: 0x66, map: 0x3A, op: 0x60, imm: true }),
            Mnemonic::PCMPESTRI => Some(SimdKind::Load { pfx: 0x66, map: 0x3A, op: 0x61, imm: true }),
            Mnemonic::PCMPISTRM => Some(SimdKind::Load { pfx: 0x66, map: 0x3A, op: 0x62, imm: true }),
            Mnemonic::PCMPISTRI => Some(SimdKind::Load { pfx: 0x66, map: 0x3A, op: 0x63, imm: true }),
            Mnemonic::PHMINPOSUW => Some(SimdKind::Load { pfx: 0x66, map: 0x38, op: 0x41, imm: false }),
            Mnemonic::PEXTRW => Some(SimdKind::Store { pfx: 0x66, map: 0x3A, op: 0x15, imm: true }),
            Mnemonic::PEXTRB => Some(SimdKind::Store { pfx: 0x66, map: 0x3A, op: 0x14, imm: true }),
            Mnemonic::PEXTRD | Mnemonic::PEXTRQ => Some(SimdKind::Store { pfx: 0x66, map: 0x3A, op: 0x16, imm: true }),
            Mnemonic::EXTRACTPS => Some(SimdKind::Store { pfx: 0x66, map: 0x3A, op: 0x17, imm: true }),
            Mnemonic::CRC32 => Some(SimdKind::Crc),
            Mnemonic::POPCNT => Some(SimdKind::Load { pfx: 0xF3, map: 0x00, op: 0xB8, imm: false }),
            _ => None,
    }
}

/// Computes `spec_simd_kind`.
#[verifier::when_used_as_spec(spec_simd_kind)]
pub fn simd_kind(m: Mnemonic) -> (r: Option<SimdKind>)
    ensures
        r == spec_simd_kind(m),
        r is Some ==> r.unwrap().wf(),
{
    match m {
            Mnemonic::MOVSS => Some(SimdKind::Moving { pfx: 0xF3, load: 0x10, store: 0x11 }),
            Mnemonic::MOVHLPS => Some(SimdKind::Load { pfx: 0x00, map: 0x00, op: 0x12, imm: false }),
            Mnemonic::MOVLHPS => Some(SimdKind::Load { pfx: 0x00, map: 0x00, op: 0x16, imm: false }),
            Mnemonic::MOVAPS => Some(SimdKind::Moving { pfx: 0x00, load: 0x28, store: 0x29 }),
            Mnemonic::MOVUPS => Some(SimdKind::Moving { pfx: 0x00, load: 0x10, store: 0x11 }),
            Mnemonic::MOVLPS => Some(SimdKind::Moving { pfx: 0x00, load: 0x12, store: 0x13 }),
            Mnemonic::MOVHPS => Some(SimdKind::Moving { pfx: 0x00, load: 0x16, store: 0x17 }),
            Mnemonic::ADDPS => Some(SimdKind::Load { pfx: 0x00, map: 0x00, op: 0x58, imm: false }),
            Mnemonic::ADDSS => Some(SimdKind::Load { pfx: 0xF3, map: 0x00, op: 0x58, imm: false }),
            Mnemonic::ADDPD => Some(SimdKind::Load { pfx: 0x66, map: 0x00, op: 0x58, imm: false }),
            Mnemonic::ADDSD => Some(SimdKind::Load { pfx: 0xF2, map: 0x00, op: 0x58, imm: false }),
            Mnemonic::SUBPS => Some(SimdKind::Load { pfx: 0x00, map: 0x00, op: 0x5C, imm: false }),
            Mnemonic::SUBSS => Some(SimdKind::Load { pfx: 0xF3, map: 0x00, op: 0x5C, imm: false }),
            Mnemonic::SUBPD => Some(SimdKind::Load { pfx: 0x66, map: 0x00, op: 0x5C, imm: false }),
            Mnemonic::SUBSD => Some(SimdKind::Load { pfx: 0xF2, map: 0x00, op: 0x5C, imm: false }),
            Mnemonic::MULPS => Some(SimdKind::Load { pfx: 0x00, map: 0x00, op: 0x59, imm: false }),
            Mnemonic::MULSS => Some(SimdKind::Load { pfx: 0xF3, map: 0x00, op: 0x59, imm: false }),
            Mnemonic::MULPD => Some(SimdKind::Load { pfx: 0x66, map: 0x00, op: 0x59, imm: false }),
            Mnemonic::MULSD => Some(SimdKind::Load { pfx: 0xF2, map: 0x00, op: 0x59, imm: false }),
            Mnemonic::DIVPS => Some(SimdKind::Load { pfx: 0x00, map: 0x00, op: 0x5E, imm: false }),
            Mnemonic::DIVSS => Some(SimdKind::Load { pfx: 0xF3, map: 0x00, op: 0x5E, imm: false }),
            Mnemonic::DIVPD => Some(SimdKind::Load { pfx: 0x66, map: 0x00, op: 0x5E, imm: false }),
            Mnemonic::DIVSD => Some(SimdKind::Load { pfx: 0xF2, map: 0x00, op: 0x5E, imm: false }),
            Mnemonic::MINPS => Some(SimdKind::Load { pfx: 0x00, map: 0x00, op: 0x5D, imm: false }),
            Mnemonic::MINSS => Some(SimdKind::Load { pfx: 0xF3, map: 0x00, op: 0x5D, imm: false }),
            Mnemonic::MINPD => Some(SimdKind::Load { pfx: 0x66, map: 0x00, op: 0x5D, imm: false }),
            Mnemonic::MINSD => Some(SimdKind::Load { pfx: 0xF2, map: 0x00, op: 0x5D, imm: false }),
            Mnemonic::MAXPS => Some(SimdKind::Load { pfx: 0x00, map: 0x00, op: 0x5F, imm: false }),
            Mnemonic::MAXSS => Some(SimdKind::Load { pfx: 0xF3, map: 0x00, op: 0x5F, imm: false }),
            Mnemonic::MAXPD => Some(SimdKind::Load { pfx: 0x66, map: 0x00, op: 0x5F, imm: false }),
            Mnemonic::MAXSD => Some(SimdKind::Load { pfx: 0xF2, map: 0x00, op: 0x5F, imm: false }),
            Mnemonic::SQRTPS => Some(SimdKind::Load { pfx: 0x00, map: 0x00, op: 0x51, imm: false }),
            Mnemonic::SQRTSS => Some(SimdKind::Load { pfx: 0xF3, map: 0x00, op: 0x51, imm: false }),
            Mnemonic::SQRTPD => Some(SimdKind::Load { pfx: 0x66, map: 0x00, op: 0x51, imm: false }),
            Mnemonic::SQRTSD => Some(SimdKind::Load { pfx: 0xF2, map: 0x00, op: 0x51, imm: false }),
            Mnemonic::RSQRTPS => Some(SimdKind::Load { pfx: 0x00, map: 0x00, op: 0x52, imm: false }),
            Mnemonic::RSQRTSS => Some(SimdKind::Load { pfx: 0xF3, map: 0x00, op: 0x52, imm: false }),
            Mnemonic::RCPPS => Some(SimdKind::Load { pfx: 0x00, map: 0x00, op: 0x53, imm: false }),
            Mnemonic::RCPSS => Some(SimdKind::Load { pfx: 0xF3, map: 0x00, op: 0x53, imm: false }),
            Mnemonic::SHUFPS => Some(SimdKind::Load { pfx: 0x00, map: 0x00, op: 0xC6, imm: true }),
            Mnemonic::CMPPS => Some(SimdKind::Load { pfx: 0x00, map: 0x00, op: 0xC2, imm: true }),
            Mnemonic::CMPSS => Some(SimdKind::Load { pfx: 0xF3, map: 0x00, op: 0xC2, imm: true }),
            Mnemonic::CMPPD => Some(SimdKind::Load { pfx: 0x66, map: 0x00, op: 0xC2, imm: true }),
            Mnemonic::CMPSD => Some(SimdKind::Load { pfx: 0xF2, map: 0x00, op: 0xC2, imm: true }),
            Mnemonic::COMISS => Some(SimdKind::Load { pfx: 0x00, map: 0x00, op: 0x2F, imm: false }),
            Mnemonic::UCOMISS => Some(SimdKind::Load { pfx: 0x00, map: 0x00, op: 0x2E, imm: false }),
            Mnemonic::COMISD => Some(SimdKind::Load { pfx: 0x66, map: 0x00, op: 0x2F, imm: false }),
            Mnemonic::UCOMISD => Some(SimdKind::Load { pfx: 0x66, map: 0x00, op: 0x2E, imm: false }),
            Mnemonic::ORPS => Some(SimdKind::Load { pfx: 0x00, map: 0x00, op: 0x56, imm: false }),
            Mnemonic::ORPD => Some(SimdKind::Load { pfx: 0x66, map: 0x00, op: 0x56, imm: false }),
            Mnemonic::ANDPS => Some(SimdKind::Load { pfx: 0x00, map: 0x00, op: 0x54, imm: false }),
            Mnemonic::ANDPD => Some(SimdKind::Load { pfx: 0x66, map: 0x00, op: 0x54, imm: false }),
            Mnemonic::ANDNPS => Some(SimdKind::Load { pfx: 0x00, map: 0x00, op: 0x55, imm: false }),
            Mnemonic::ANDNPD => Some(SimdKind::Load { pfx: 0x66, map: 0x00, op: 0x55, imm: false }),
            Mnemonic::XORPS => Some(SimdKind::Load { pfx: 0x00, map: 0x00, op: 0x57, imm: false }),
            Mnemonic::XORPD => Some(SimdKind::Load { pfx: 0x66, map: 0x00, op: 0x57, imm: false }),
            Mnemonic::UNPCKLPS => Some(SimdKind::Load { pfx: 0x00, map: 0x00, op: 0x14, imm: false }),
            Mnemonic::UNPCKHPS => Some(SimdKind::Load { pfx: 0x00, map: 0x00, op: 0x15, imm: false }),
            Mnemonic::CVTSI2SS => Some(SimdKind::Load { pfx: 0xF3, map: 0x00, op: 0x2A, imm: false }),
            Mnemonic::CVTPS2PI => Some(SimdKind::Load { pfx: 0x00, map: 0x00, op: 0x2D, imm: false }),
            Mnemonic::CVTTPS2PI => Some(SimdKind::Load { pfx: 0x00, map: 0x00, op: 0x2C, imm: false }),
            Mnemonic::CVTPI2PS => Some(SimdKind::Load { pfx: 0x00, map: 0x00, op: 0x2A, imm: false }),
            Mnemonic::CVTSS2SI => Some(SimdKind::Load { pfx: 0xF3, map: 0x00, op: 0x2D, imm: false }),
            Mnemonic::MOVNTI => Some(SimdKind::Store { pfx: 0x00, map: 0x00, op: 0xC3, imm: false }),
            Mnemonic::MOVNTPD => Some(SimdKind::Store { pfx: 0x66, map: 0x00, op: 0x2B, imm: false }),
            Mnemonic::MOVNTDQ => Some(SimdKind::Store { pfx: 0x66, map: 0x00, op: 0xE7, imm: false }),
            Mnemonic::MOVAPD => Some(SimdKind::Moving { pfx: 0x66, load: 0x28, store: 0x29 }),
            Mnemonic::MOVUPD => Some(SimdKind::Moving { pfx: 0x66, load: 0x10, store: 0x11 }),
            Mnemonic::MOVLPD => Some(SimdKind::Moving { pfx: 0x66, load: 0x12, store: 0x13 }),
            Mnemonic::MOVHPD => Some(SimdKind::Moving { pfx: 0x66, load: 0x16, store: 0x17 }),
            Mnemonic::MOVSD => Some(SimdKind::Moving { pfx: 0xF2, load: 0x10, store: 0x11 }),
            Mnemonic::MOVDQA => Some(SimdKind::Moving { pfx: 0x66, load: 0x6F, store: 0x7F }),
            Mnemonic::MOVDQ2Q => Some(SimdKind::Load { pfx: 0xF2, map: 0x00, op: 0xD6, imm: false }),
            Mnemonic::MOVMSKPD => Some(SimdKind::Load { pfx: 0x66, map: 0x00, op: 0x50, imm: false }),
            Mnemonic::MASKMOVDQU => Some(SimdKind::Load { pfx: 0x66, map: 0x00, op: 0xF7, imm: false }),
            Mnemonic::CVTPD2PI => Some(SimdKind::Load { pfx: 0x66, map: 0x00, op: 0x2D, imm: false }),
            Mnemonic::CVTPI2PD => Some(SimdKind::Load { pfx: 0x66, map: 0x00, op: 0x2A, imm: false }),
            Mnemonic::CVTPS2DQ => Some(SimdKind::Load { pfx: 0x66, map: 0x00, op: 0x5B, imm: false }),
            Mnemonic::CVTDQ2PS => Some(SimdKind::Load { pfx: 0x00, map: 0x00, op: 0x5B, imm: false }),
            Mnemonic::CVTDQ2PD => Some(SimdKind::Load { pfx: 0xF3, map: 0x00, op: 0xE6, imm: false }),
            Mnemonic::CVTSD2SI => Some(SimdKind::Load { pfx: 0xF2, map: 0x00, op: 0x2D, imm: false }),
            Mnemonic::CVTSI2SD => Some(SimdKind::Load { pfx: 0xF2, map: 0x00, op: 0x2A, imm: false }),
            Mnemonic::CVTTPS2DQ => Some(SimdKind::Load { pfx: 0xF3, map: 0x00, op: 0x5B, imm: false }),
            Mnemonic::CVTTSD2SI => Some(SimdKind::Load { pfx: 0xF2, map: 0x00, op: 0x2C, imm: false }),
            Mnemonic::CVTTPD2PI => Some(SimdKind::Load { pfx: 0x66, map: 0x00, op: 0x2C, imm: false }),
            Mnemonic::CVTPS2PD => Some(SimdKind::Load { pfx: 0x00, map: 0x00, op: 0x5A, imm: false }),
            Mnemonic::CVTPD2PS => Some(SimdKind::Load { pfx: 0x66, map: 0x00, op: 0x5A, imm: false }),
            Mnemonic::CVTSS2SD => Some(SimdKind::Load { pfx: 0xF3, map: 0x00, op: 0x5A, imm: false }),
            Mnemonic::CVTSD2SS => Some(SimdKind::Load { pfx: 0xF2, map: 0x00, op: 0x5A, imm: false }),
            Mnemonic::PSHUFLW => Some(SimdKind::Load { pfx: 0xF2, map: 0x00, op: 0x70, imm: true }),
            Mnemonic::PSHUFHW => Some(SimdKind::Load { pfx: 0xF3, map: 0x00, op: 0x70, imm: true }),
            Mnemonic::PSHUFD => Some(SimdKind::Load { pfx: 0x66, map: 0x00, op: 0x70, imm: true }),
            Mnemonic::PSLLDQ => Some(SimdKind::Extended { pfx: 0x66, op: 0x73, ext: 7 }),
            Mnemonic::PSRLDQ => Some(SimdKind::Extended { pfx: 0x66, op: 0x73, ext: 3 }),
            Mnemonic::PUNPCKHQDQ => Some(SimdKind::Load { pfx: 0x66, map: 0x00, op: 0x6D, imm: false }),
            Mnemonic::PUNPCKLQDQ => Some(SimdKind::Load { pfx: 0x66, map: 0x00, op: 0x6C, imm: false }),
            Mnemonic::MOVD => Some(SimdKind::Transfer { quad: false }),
            Mnemonic::MOVQ => Some(SimdKind::Transfer { quad: true }),
            Mnemonic::PADDB => Some(SimdKind::Dual { map: 0x00, op: 0xFC, imm: false }),
            Mnemonic::PADDW => Some(SimdKind::Dual { map: 0x00, op: 0xFD, imm: false }),
            Mnemonic::PADDD => Some(SimdKind::Dual { map: 0x00, op: 0xFE, imm: false }),
            Mnemonic::PADDQ => Some(SimdKind::Dual { map: 0x00, op: 0xD4, imm: false }),
            Mnemonic::PADDSB => Some(SimdKind::Dual { map: 0x00, op: 0xEC, imm: false }),
            Mnemonic::PADDSW => Some(SimdKind::Dual { map: 0x00, op: 0xED, imm: false }),
            Mnemonic::PSUBB => Some(SimdKind::Dual { map: 0x00, op: 0xF8, imm: false }),
            Mnemonic::PSUBW => Some(SimdKind::Dual { map: 0x00, op: 0xF9, imm: false }),
            Mnemonic::PSUBD => Some(SimdKind::Dual { map: 0x00, op: 0xFA, imm: false }),
            Mnemonic::PSUBQ => Some(SimdKind::Dual { map: 0x00, op: 0xFB, imm: false }),
            Mnemonic::PSUBSB => Some(SimdKind::Dual { map: 0x00, op: 0xE8, imm: false }),
            Mnemonic::PSUBSW => Some(SimdKind::Dual { map: 0x00, op: 0xE9, imm: false }),
            Mnemonic::PMULLW => Some(SimdKind::Dual { map: 0x00, op: 0xD5, imm: false }),
            Mnemonic::PMULHW => Some(SimdKind::Dual { map: 0x00, op: 0xE5, imm: false }),
            Mnemonic::PMULUDQ => Some(SimdKind::Dual { map: 0x00, op: 0xF4, imm: false }),
            Mnemonic::PMADDWD => Some(SimdKind::Dual { map: 0x00, op: 0xF5, imm: false }),
            Mnemonic::PCMPEQB => Some(SimdKind::Dual { map: 0x00, op: 0x74, imm: false }),
            Mnemonic::PCMPEQW => Some(SimdKind::Dual { map: 0x00, op: 0x75, imm: false }),
            Mnemonic::PCMPEQD => Some(SimdKind::Dual { map: 0x00, op: 0x76, imm: false }),
            Mnemonic::PCMPGTB => Some(SimdKind::Dual { map: 0x00, op: 0x64, imm: false }),
            Mnemonic::PCMPGTW => Some(SimdKind::Dual { map: 0x00, op: 0x65, imm: false }),
            Mnemonic::PCMPGTD => Some(SimdKind::Dual { map: 0x00, op: 0x66, imm: false }),
            Mnemonic::PACKUSWB => Some(SimdKind::Dual { map: 0x00, op: 0x67, imm: false }),
            Mnemonic::PACKSSWB => Some(SimdKind::Dual { map: 0x00, op: 0x63, imm: false }),
            Mnemonic::PACKSSDW => Some(SimdKind::Dual { map: 0x00, op: 0x6B, imm: false }),
            Mnemonic::PUNPCKLBW => Some(SimdKind::Dual { map: 0x00, op: 0x60, imm: false }),
            Mnemonic::PUNPCKLWD => Some(SimdKind::Dual { map: 0x00, op: 0x61, imm: false }),
            Mnemonic::PUNPCKLDQ => Some(SimdKind::Dual { map: 0x00, op: 0x62, imm: false }),
            Mnemonic::PUNPCKHBW => Some(SimdKind::Dual { map: 0x00, op: 0x68, imm: false }),
            Mnemonic::PUNPCKHWD => Some(SimdKind::Dual { map: 0x00, op: 0x69, imm: false }),
            Mnemonic::PUNPCKHDQ => Some(SimdKind::Dual { map: 0x00, op: 0x6A, imm: false }),
            Mnemonic::POR => Some(SimdKind::Dual { map: 0x00, op: 0xEB, imm: false }),
            Mnemonic::PAND => Some(SimdKind::Dual { map: 0x00, op: 0xDB, imm: false }),
            Mnemonic::PANDN => Some(SimdKind::Dual { map: 0x00, op: 0xDF, imm: false }),
            Mnemonic::PXOR => Some(SimdKind::Dual { map: 0x00, op: 0xEF, imm: false }),
            Mnemonic::PSLLW => Some(SimdKind::Shift { by_reg: 0xF1, by_imm: 0x71, ext: 6 }),
            Mnemonic::PSLLD => Some(SimdKind::Shift { by_reg: 0xF2, by_imm: 0x72, ext: 6 }),
            Mnemonic::PSLLQ => Some(SimdKind::Shift { by_reg: 0xF3, by_imm: 0x73, ext: 6 }),
            Mnemonic::PSRLW => Some(SimdKind::Shift { by_reg: 0xD1, by_imm: 0x71, ext: 2 }),
            Mnemonic::PSRLD => Some(SimdKind::Shift { by_reg: 0xD2, by_imm: 0x72, ext: 2 }),
            Mnemonic::PSRLQ => Some(SimdKind::Shift { by_reg: 0xD3, by_imm: 0x73, ext: 2 }),
            Mnemonic::PSRAW => Some(SimdKind::Shift { by_reg: 0xE1, by_imm: 0x71, ext: 4 }),
            Mnemonic::PSRAD => Some(SimdKind::Shift { by_reg: 0xE2, by_imm: 0x72, ext: 4 }),
            Mnemonic::ADDSUBPD => Some(SimdKind::Load { pfx: 0x66, map: 0x00, op: 0xD0, imm: false }),
            Mnemonic::ADDSUBPS => Some(SimdKind::Load { pfx: 0xF2, map: 0x00, op: 0xD0, imm: false }),
            Mnemonic::HADDPD => Some(SimdKind::Load { pfx: 0x66, map: 0x00, op: 0x7C, imm: false }),
            Mnemonic::HADDPS => Some(SimdKind::Load { pfx: 0xF2, map: 0x00, op: 0x7C, imm: false }),
            Mnemonic::HSUBPD => Some(SimdKind::Load { pfx: 0x66, map: 0x00, op: 0x7D, imm: false }),
            Mnemonic::HSUBPS => Some(SimdKind::Load { pfx: 0xF2, map: 0x00, op: 0x7D, imm: false }),
            Mnemonic::MOVSLDUP => Some(SimdKind::Load { pfx: 0xF3, map: 0x00, op: 0x12, imm: false }),
            Mnemonic::MOVSHDUP => Some(SimdKind::Load { pfx: 0xF3, map: 0x00, op: 0x16, imm: false }),
            Mnemonic::MOVDDUP => Some(SimdKind::Load { pfx: 0xF2, map: 0x00, op: 0x12, imm: false }),
            Mnemonic::LDDQU => Some(SimdKind::Load { pfx: 0xF2, map: 0x00, op: 0xF0, imm: false }),
            Mnemonic::PABSB => Some(SimdKind::Dual { map: 0x38, op: 0x1C, imm: false }),
            Mnemonic::PABSW => Some(SimdKind::Dual { map: 0x38, op: 0x1D, imm: false }),
            Mnemonic::PABSD => Some(SimdKind::Dual { map: 0x38, op: 0x1E, imm: false }),
            Mnemonic::PSIGNB => Some(SimdKind::Dual { map: 0x38, op: 0x08, imm: false }),
            Mnemonic::PSIGNW => Some(SimdKind::Dual { map: 0x38, op: 0x09, imm: false }),
            Mnemonic::PSIGND => Some(SimdKind::Dual { map: 0x38, op: 0x0A, imm: false }),
            Mnemonic::PSHUFB => Some(SimdKind::Dual { map: 0x38, op: 0x00, imm: false }),
            Mnemonic::PHADDW => Some(SimdKind::Dual { map: 0x38, op: 0x01, imm: false }),
            Mnemonic::PHADDD => Some(SimdKind::Dual { map: 0x38, op: 0x02, imm: false }),
            Mnemonic::PHADDSW => Some(SimdKind::Dual { map: 0x38, op: 0x03, imm: false }),
            Mnemonic::PHSUBW => Some(SimdKind::Dual { map: 0x38, op: 0x05, imm: false }),
            Mnemonic::PHSUBD => Some(SimdKind::Dual { map: 0x38, op: 0x06, imm: false }),
            Mnemonic::PHSUBSW => Some(SimdKind::Dual { map: 0x38, op: 0x07, imm: false }),
            Mnemonic::PMULHRSW => Some(SimdKind::Dual { map: 0x38, op: 0x0B, imm: false }),
            Mnemonic::PMADDUBSW => Some(SimdKind::Dual { map: 0x38, op: 0x04, imm: false }),
            Mnemonic::PALIGNR => Some(SimdKind::Dual { map: 0x3A, op: 0x0F, imm: true }),
            Mnemonic::DPPS => Some(SimdKind::Load { pfx: 0x66, map: 0x3A, op: 0x40, imm: true }),
            Mnemonic::DPPD => Some(SimdKind::Load { pfx: 0x66, map: 0x3A, op: 0x41, imm: true }),
            Mnemonic::PTEST => Some(SimdKind::Load { pfx: 0x66, map: 0x38, op: 0x17, imm: false }),
            Mnemonic::PINSRB => Some(SimdKind::Load { pfx: 0x66, map: 0x3A, op: 0x20, imm: true }),
            Mnemonic::PINSRD | Mnemonic::PINSRQ => Some(SimdKind::Load { pfx: 0x66, map: 0x3A, op: 0x22, imm: true }),
            Mnemonic::PMAXSB => Some(SimdKind::Load { pfx: 0x66, map: 0x38, op: 0x3C, imm: false }),
            Mnemonic::PMAXSD => Some(SimdKind::Load { pfx: 0x66, map: 0x38, op: 0x3D, imm: false }),
            Mnemonic::PMAXUW => Some(SimdKind::Load { pfx: 0x66, map: 0x38, op: 0x3E, imm: false }),
            Mnemonic::PMINSB => Some(SimdKind::Load { pfx: 0x66, map: 0x38, op: 0x38, imm: false }),
            Mnemonic::PMINSD => Some(SimdKind::Load { pfx: 0x66, map: 0x38, op: 0x39, imm: false }),
            Mnemonic::PMINUW => Some(SimdKind::Load { pfx: 0x66, map: 0x38, op: 0x3A, imm: false }),
            Mnemonic::PMULDQ => Some(SimdKind::Load { pfx: 0x66, map: 0x38, op: 0x28, imm: false }),
            Mnemonic::PMULLD => Some(SimdKind::Load { pfx: 0x66, map: 0x38, op: 0x40, imm: false }),
            Mnemonic::BLENDPS => Some(SimdKind::Load { pfx: 0x66, map: 0x3A, op: 0x0C, imm: true }),
            Mnemonic::BLENDPD => Some(SimdKind::Load { pfx: 0x66, map: 0x3A, op: 0x0D, imm: true }),
            Mnemonic::PBLENDW => Some(SimdKind::Load { pfx: 0x66, map: 0x3A, op: 0x0E, imm: true }),
            Mnemonic::PCMPEQQ => Some(SimdKind::Load { pfx: 0x66, map: 0x38, op: 0x29, imm: false }),
            Mnemonic::ROUNDPS => Some(SimdKind::Load { pfx: 0x66, map: 0x3A, op: 0x08, imm: true }),
            Mnemonic::ROUNDPD => Some(SimdKind::Load { pfx: 0x66, map: 0x3A, op: 0x09, imm: true }),
            Mnemonic::ROUNDSS => Some(SimdKind::Load { pfx: 0x66, map: 0x3A, op: 0x0A, imm: true }),
            Mnemonic::ROUNDSD => Some(SimdKind::Load { pfx: 0x66, map: 0x3A, op: 0x0B, imm: true }),
            Mnemonic::MPSADBW => Some(SimdKind::Load { pfx: 0x66, map: 0x3A, op: 0x42, imm: true }),
            Mnemonic::PCMPGTQ => Some(SimdKind::Load { pfx: 0x66, map: 0x38, op: 0x37, imm: false }),
            Mnemonic::BLENDVPS => Some(SimdKind::Load { pfx: 0x66, map: 0x38, op: 0x14, imm: false }),
            Mnemonic::BLENDVPD => Some(SimdKind::Load { pfx: 0x66, map: 0x38, op: 0x15, imm: false }),
            Mnemonic::PBLENDVB => Some(SimdKind::Load { pfx: 0x66, map: 0x38, op: 0x10, imm: false }),
            Mnemonic::INSERTPS => Some(SimdKind::Load { pfx: 0x66, map: 0x3A, op: 0x21, imm: true }),
            Mnemonic::PACKUSDW => Some(SimdKind::Load { pfx: 0x66, map: 0x38, op: 0x2B, imm: false }),
            Mnemonic::MOVNTDQA => Some(SimdKind::Load { pfx: 0x66, map: 0x38, op: 0x2A, imm: false }),
            Mnemonic::PCMPESTRM => Some(SimdKind::Load { pfx: 0x66, map: 0x3A, op: 0x60, imm: true }),
            Mnemonic::PCMPESTRI => Some(SimdKind::Load { pfx: 0x66, map: 0x3A, op: 0x61, imm: true }),
            Mnemonic::PCMPISTRM => Some(SimdKind::Load { pfx: 0x66, map: 0x3A, op: 0x62, imm: true }),
            Mnemonic::PCMPISTRI => Some(SimdKind::Load { pfx: 0x66, map: 0x3A, op: 0x63, imm: true }),
            Mnemonic::PHMINPOSUW => Some(SimdKind::Load { pfx: 0x66, map: 0x38, op: 0x41, imm: false }),
            Mnemonic::PEXTRW => Some(SimdKind::Store { pfx: 0x66, map: 0x3A, op: 0x15, imm: true }),
            Mnemonic::PEXTRB => Some(SimdKind::Store { pfx: 0x66, map: 0x3A, op: 0x14, imm: true }),
            Mnemonic::PEXTRD | Mnemonic::PEXTRQ => Some(SimdKind::Store { pfx: 0x66, map: 0x3A, op: 0x16, imm: true }),
            Mnemonic::EXTRACTPS => Some(SimdKind::Store { pfx: 0x66, map: 0x3A, op: 0x17, imm: true }),
            Mnemonic::CRC32 => Some(SimdKind::Crc),
            Mnemonic::POPCNT => Some(SimdKind::Load { pfx: 0xF3, map: 0x00, op: 0xB8, imm: false }),
            _ => None,
    }
}

/// The form by which a vector instruction is encoded; none for any other
/// mnemonic.
pub open spec fn spec_simd_form(ins: &Instruction) -> Option<Simd> {
    match spec_simd_kind(ins.mnem) {
        Some(k) => Some(k.spec_form(ins)),
        None => None,
    }
}

/// Computes `spec_simd_form`.
#[verifier::when_used_as_spec(spec_simd_form)]
pub fn simd_form(ins: &Instruction) -> (r: Option<Simd>)
    ensures
        r == spec_simd_form(ins),
        r is Some ==> r.unwrap().ext is Some ==> r.unwrap().ext.unwrap() < 8,
        r is Some ==> r.unwrap().imm is Some ==> r.unwrap().imm.unwrap() <= 2,
{
    match simd_kind(ins.mnem) {
        Some(k) => Some(k.form(ins)),
        None => None,
    }
}

/// The immediate byte of a form: the low byte of the operand that gives it,
/// where that operand is an immediate.
pub open spec fn spec_simd_imm(ins: Instruction, d: Simd) -> Seq<u8> {
    match d.imm {
        Some(i) => match ins.spec_opr(i as int) {
            Some(Operand::Imm(n)) => n.spec_low_bytes(1),
            _ => Seq::empty(),
        },
        None => Seq::empty(),
    }
}

/// A vector instruction in the form `d`: the mandatory prefix, the general
/// layout with the form's opcode, and the immediate byte.
pub open spec fn spec_gen_simd(ins: Instruction, d: Simd, bits: u8) -> Seq<u8> {
    if d.pfx == 0 {
        spec_gen_ins(ins, d.spec_opcode(), (true, d.ext, None), spec_simd_imm(ins, d), bits, d.rev)
    } else {
        spec_gen_ins_wpref(
            ins,
            d.spec_opcode(),
            (true, d.ext, None),
            spec_simd_imm(ins, d),
            d.pfx,
            bits,
            d.rev,
        )
    }
}

fn simd_imm(ins: &Instruction, d: Simd) -> (r: Option<Vec<u8>>)
    ensures
        r is Some ==> r.unwrap()@ == spec_simd_imm(*ins, d) && r.unwrap()@.len() == 1,
        r is None ==> spec_simd_imm(*ins, d) == Seq::<u8>::empty(),
{
    match d.imm {
        Some(i) => match ins.opr(i) {
            Some(Operand::Imm(n)) => Some(n.low_bytes(1)),
            _ => None,
        },
        None => None,
    }
}

/// Encodes a vector instruction in the form `d`.
pub fn gen_simd(ins: &Instruction, d: Simd, bits: u8) -> (out: Vec<u8>)
    requires
        d.ext is Some ==> d.ext.unwrap() < 8,
    ensures
        out@ == spec_gen_simd(*ins, d, bits),
        3 <= out@.len() <= 15,
{
    let imm = simd_imm(ins, d);
    if d.map == 0 {
        if d.pfx == 0 {
            gen_ins(ins, &[0x0F, d.op], (true, d.ext, None), imm, bits, d.rev)
        } else {
            gen_ins_wpref(ins, &[0x0F, d.op], (true, d.ext, None), imm, d.pfx, bits, d.rev)
        }
    } else {
        if d.pfx == 0 {
            gen_ins(ins, &[0x0F, d.map, d.op], (true, d.ext, None), imm, bits, d.rev)
        } else {
            gen_ins_wpref(ins, &[0x0F, d.map, d.op], (true, d.ext, None), imm, d.pfx, bits, d.rev)
        }
    }
}

} // verus!
