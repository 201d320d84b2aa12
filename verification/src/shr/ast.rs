use vstd::prelude::*;
use crate::shr::atype::AType;
use crate::shr::ins::Mnemonic;
use crate::shr::mem::Mem;
use crate::shr::num::Number;
use crate::shr::reg::Purpose;
use crate::shr::reg::Register;
use crate::shr::segment::Segment;
use crate::shr::size::Size;
use crate::shr::var::Variable;

verus! {

/// One operand of an instruction.
#[derive(Clone, Debug)]
pub enum Operand {
    Reg(Register),
    SegReg(Register),
    CtrReg(Register),
    DbgReg(Register),
    Mem(Mem),
    Segment(Segment),
    Imm(Number),
    SymbolRef(String),
}

/// Which register file an instruction works on.
#[derive(Clone, Copy, Debug, PartialEq, Eq, Structural)]
pub enum IVariant {
    STD,
    MMX,
    XMM,
    YMM,
}

impl Operand {
    /// Whether the kind of the operand and the class of its register go
    /// together: a plain register operand names a general-purpose, MMX, XMM
    /// or YMM register, and a segment, control or debug register operand a
    /// register of that class.
    pub open spec fn wf(self) -> bool {
        match self {
            Operand::Reg(r) => r.spec_purpose() == Purpose::General || r.spec_purpose() == Purpose::Mmx
                || r.spec_purpose() == Purpose::F128 || r.spec_purpose() == Purpose::F256,
            Operand::SegReg(r) => r.spec_purpose() == Purpose::Sgmnt,
            Operand::CtrReg(r) => r.spec_purpose() == Purpose::Ctrl,
            Operand::DbgReg(r) => r.spec_purpose() == Purpose::Dbg,
            _ => true,
        }
    }

    /// Whether the operand is well formed.
    pub fn is_wf(&self) -> (r: bool)
        ensures
            r == self.wf(),
    {
        match self {
            Operand::Reg(r) => {
                let p = r.purpose();
                p == Purpose::General || p == Purpose::Mmx || p == Purpose::F128 || p == Purpose::F256
            },
            Operand::SegReg(r) => r.purpose() == Purpose::Sgmnt,
            Operand::CtrReg(r) => r.purpose() == Purpose::Ctrl,
            Operand::DbgReg(r) => r.purpose() == Purpose::Dbg,
            _ => true,
        }
    }

    /// The register that a register operand names.
    pub open spec fn spec_reg(self) -> Option<Register> {
        match self {
            Operand::Reg(r) | Operand::SegReg(r) | Operand::CtrReg(r) | Operand::DbgReg(r) => Some(r),
            _ => None,
        }
    }

    /// Computes `spec_reg`.
    pub fn reg(&self) -> (r: Option<Register>)
        ensures
            r == self.spec_reg(),
    {
        match self {
            Operand::Reg(r) | Operand::SegReg(r) | Operand::CtrReg(r) | Operand::DbgReg(r) => Some(*r),
            _ => None,
        }
    }

    /// The memory expression of a memory operand, with or without a segment.
    pub open spec fn spec_mem(self) -> Option<Mem> {
        match self {
            Operand::Mem(m) => Some(m),
            Operand::Segment(s) => Some(s.address),
            _ => None,
        }
    }

    /// Computes `spec_mem`.
    pub fn mem(&self) -> (r: Option<Mem>)
        ensures
            r == self.spec_mem(),
    {
        match self {
            Operand::Mem(m) => Some(*m),
            Operand::Segment(s) => Some(s.address),
            _ => None,
        }
    }

    /// Whether the operand is memory.
    pub open spec fn spec_is_mem(self) -> bool {
        self.spec_mem() is Some
    }

    /// Computes `spec_is_mem`.
    pub fn is_mem(&self) -> (r: bool)
        ensures
            r == self.spec_is_mem(),
    {
        self.mem().is_some()
    }

    /// The immediate that the operand holds.
    pub open spec fn spec_imm(self) -> Option<Number> {
        match self {
            Operand::Imm(n) => Some(n),
            _ => None,
        }
    }

    /// Computes `spec_imm`.
    pub fn imm(&self) -> (r: Option<Number>)
        ensures
            r == self.spec_imm(),
    {
        match self {
            Operand::Imm(n) => Some(*n),
            _ => None,
        }
    }

    /// The general-purpose register that the operand names.
    pub open spec fn spec_gpr(self) -> Option<Register> {
        match self {
            Operand::Reg(r) => if r.spec_purpose() == Purpose::General {
                Some(r)
            } else {
                None
            },
            _ => None,
        }
    }

    /// Computes `spec_gpr`.
    pub fn gpr(&self) -> (r: Option<Register>)
        ensures
            r == self.spec_gpr(),
    {
        match self {
            Operand::Reg(r) => if r.purpose() == Purpose::General {
                Some(*r)
            } else {
                None
            },
            _ => None,
        }
    }

    /// The width of the operand; `Any` for a symbol.
    pub open spec fn spec_size(self) -> Size {
        match self {
            Operand::Reg(r) | Operand::SegReg(r) | Operand::CtrReg(r) | Operand::DbgReg(r) => r.spec_size(),
            Operand::Mem(m) => m.spec_size(),
            Operand::Segment(s) => s.address.spec_size(),
            Operand::Imm(n) => n.spec_size(),
            Operand::SymbolRef(_) => Size::Any,
        }
    }

    /// Computes `spec_size`.
    pub fn size(&self) -> (r: Size)
        ensures
            r == self.spec_size(),
    {
        match self {
            Operand::Reg(r) | Operand::SegReg(r) | Operand::CtrReg(r) | Operand::DbgReg(r) => r.size(),
            Operand::Mem(m) => m.size(),
            Operand::Segment(s) => s.address.size(),
            Operand::Imm(n) => n.size(),
            Operand::SymbolRef(_) => Size::Any,
        }
    }

    /// The abstract type of the operand.
    pub open spec fn spec_atype(self) -> AType {
        match self {
            Operand::Reg(r) | Operand::SegReg(r) | Operand::CtrReg(r) | Operand::DbgReg(r) => AType::spec_of_register(
                r.spec_purpose(),
                r.spec_size(),
            ),
            Operand::Mem(m) => AType::spec_of_memory(m.spec_size()),
            Operand::Segment(s) => s.spec_atype(),
            Operand::Imm(n) => AType::spec_of_immediate(n.spec_size()),
            Operand::SymbolRef(_) => AType::Symbol,
        }
    }

    /// Computes `spec_atype`.
    pub fn atype(&self) -> (r: AType)
        ensures
            r == self.spec_atype(),
    {
        match self {
            Operand::Reg(r) | Operand::SegReg(r) | Operand::CtrReg(r) | Operand::DbgReg(r) => AType::of_register(
                r.purpose(),
                r.size(),
            ),
            Operand::Mem(m) => AType::of_memory(m.size()),
            Operand::Segment(s) => s.atype(),
            Operand::Imm(n) => AType::of_immediate(n.size()),
            Operand::SymbolRef(_) => AType::Symbol,
        }
    }

    /// Whether the register number of the operand is eight or more.
    pub open spec fn spec_is_extended(self) -> bool {
        match self.spec_reg() {
            Some(r) => r.spec_is_extended(),
            None => false,
        }
    }

    /// Computes `spec_is_extended`.
    pub fn is_extended(&self) -> (r: bool)
        ensures
            r == self.spec_is_extended(),
    {
        match self.reg() {
            Some(r) => r.is_extended(),
            None => false,
        }
    }
}

/// The size of an optional operand; `Unknown` where there is none.
pub open spec fn opt_size(o: Option<Operand>) -> Size {
    match o {
        Some(o) => o.spec_size(),
        None => Size::Unknown,
    }
}

/// An instruction as the parser hands it over.
#[derive(Clone, Debug)]
pub struct Instruction {
    pub mnem: Mnemonic,
    pub oprs: Vec<Operand>,
    pub line: usize,
    pub addt: Option<Vec<Mnemonic>>,
}

impl Instruction {
    /// Whether every operand is well formed.
    pub open spec fn wf(self) -> bool {
        forall|i: int| 0 <= i < self.oprs@.len() ==> (#[trigger] self.oprs@[i]).wf()
    }

    /// Whether every operand is well formed.
    pub fn is_wf(&self) -> (r: bool)
        ensures
            r == self.wf(),
    {
        let mut i: usize = 0;
        while i < self.oprs.len()
            invariant
                i <= self.oprs@.len(),
                forall|k: int| 0 <= k < i ==> (#[trigger] self.oprs@[k]).wf(),
            decreases self.oprs@.len() - i,
        {
            if !self.oprs[i].is_wf() {
                return false;
            }
            i = i + 1;
        }
        true
    }

    /// The operand at position `i`, if there is one.
    pub open spec fn spec_opr(self, i: int) -> Option<Operand> {
        if 0 <= i < self.oprs@.len() {
            Some(self.oprs@[i])
        } else {
            None
        }
    }

    /// The operand at position `i`, if there is one.
    pub fn opr(&self, i: usize) -> (r: Option<&Operand>)
        ensures
            r.is_some() == self.spec_opr(i as int).is_some(),
            r.is_some() ==> *r.unwrap() == self.spec_opr(i as int).unwrap(),
    {
        if i < self.oprs.len() {
            Some(&self.oprs[i])
        } else {
            None
        }
    }

    /// The destination: the first operand.
    pub open spec fn spec_dst(self) -> Option<Operand> {
        self.spec_opr(0)
    }

    /// The destination: the first operand.
    pub fn dst(&self) -> (r: Option<&Operand>)
        ensures
            r.is_some() == self.spec_dst().is_some(),
            r.is_some() ==> *r.unwrap() == self.spec_dst().unwrap(),
    {
        self.opr(0)
    }

    /// The source: the second operand.
    pub open spec fn spec_src(self) -> Option<Operand> {
        self.spec_opr(1)
    }

    /// The source: the second operand.
    pub fn src(&self) -> (r: Option<&Operand>)
        ensures
            r.is_some() == self.spec_src().is_some(),
            r.is_some() ==> *r.unwrap() == self.spec_src().unwrap(),
    {
        self.opr(1)
    }

    /// The second source: the third operand.
    pub open spec fn spec_src2(self) -> Option<Operand> {
        self.spec_opr(2)
    }

    /// The second source: the third operand.
    pub fn src2(&self) -> (r: Option<&Operand>)
        ensures
            r.is_some() == self.spec_src2().is_some(),
            r.is_some() ==> *r.unwrap() == self.spec_src2().unwrap(),
    {
        self.opr(2)
    }

    /// The width that the instruction works on: that of the destination, or
    /// that of the source where the destination names none.
    pub open spec fn spec_size(self) -> Size {
        let d = opt_size(self.spec_dst());
        if d == Size::Unknown || d == Size::Any {
            opt_size(self.spec_src())
        } else {
            d
        }
    }

    /// Computes `spec_size`.
    pub fn size(&self) -> (r: Size)
        ensures
            r == self.spec_size(),
    {
        let d = match self.dst() {
            Some(o) => o.size(),
            None => Size::Unknown,
        };
        if d == Size::Unknown || d == Size::Any {
            match self.src() {
                Some(o) => o.size(),
                None => Size::Unknown,
            }
        } else {
            d
        }
    }

    /// Whether one of the first `n` operands is a register of class `p`.
    pub open spec fn spec_has_purpose(self, p: Purpose, n: int) -> bool
        decreases n,
    {
        if n <= 0 {
            false
        } else {
            self.spec_has_purpose(p, n - 1) || match self.spec_opr(n - 1) {
                Some(Operand::Reg(r)) => r.spec_purpose() == p,
                _ => false,
            }
        }
    }

    /// Whether one of the first `n` operands is memory of width `s`.
    pub open spec fn spec_has_mem_size(self, s: Size, n: int) -> bool
        decreases n,
    {
        if n <= 0 {
            false
        } else {
            self.spec_has_mem_size(s, n - 1) || match self.spec_opr(n - 1) {
                Some(o) => o.spec_is_mem() && o.spec_size() == s,
                None => false,
            }
        }
    }

    /// Whether one of the first `n` operands is a general-purpose register of
    /// width `s`.
    pub open spec fn spec_has_gpr_size(self, s: Size, n: int) -> bool
        decreases n,
    {
        if n <= 0 {
            false
        } else {
            self.spec_has_gpr_size(s, n - 1) || match self.spec_opr(n - 1) {
                Some(o) => match o.spec_gpr() {
                    Some(r) => r.spec_size() == s,
                    None => false,
                },
                None => false,
            }
        }
    }

    /// Whether an operand is a register of class `p`.
    pub fn has_purpose(&self, p: Purpose) -> (r: bool)
        ensures
            r == self.spec_has_purpose(p, self.oprs@.len() as int),
    {
        let mut i: usize = 0;
        let mut found = false;
        while i < self.oprs.len()
            invariant
                i <= self.oprs@.len(),
                found == self.spec_has_purpose(p, i as int),
            decreases self.oprs@.len() - i,
        {
            match &self.oprs[i] {
                Operand::Reg(r) => {
                    if r.purpose() == p {
                        found = true;
                    }
                },
                _ => {},
            }
            i = i + 1;
        }
        found
    }

    /// Whether an operand is memory of width `s`.
    pub fn has_mem_size(&self, s: Size) -> (r: bool)
        ensures
            r == self.spec_has_mem_size(s, self.oprs@.len() as int),
    {
        let mut i: usize = 0;
        let mut found = false;
        while i < self.oprs.len()
            invariant
                i <= self.oprs@.len(),
                found == self.spec_has_mem_size(s, i as int),
            decreases self.oprs@.len() - i,
        {
            let o = &self.oprs[i];
            if o.is_mem() && o.size() == s {
                found = true;
            }
            i = i + 1;
        }
        found
    }

    /// Whether an operand is a general-purpose register of width `s`.
    pub fn has_gpr_size(&self, s: Size) -> (r: bool)
        ensures
            r == self.spec_has_gpr_size(s, self.oprs@.len() as int),
    {
        let mut i: usize = 0;
        let mut found = false;
        while i < self.oprs.len()
            invariant
                i <= self.oprs@.len(),
                found == self.spec_has_gpr_size(s, i as int),
            decreases self.oprs@.len() - i,
        {
            match self.oprs[i].gpr() {
                Some(r) => {
                    if r.size() == s {
                        found = true;
                    }
                },
                None => {},
            }
            i = i + 1;
        }
        found
    }

    /// The register file that the operands name: YMM before XMM before MMX;
    /// without such a register, the one that a memory operand's width points
    /// to.
    pub open spec fn spec_which_variant(self) -> IVariant {
        let n = self.oprs@.len() as int;
        if self.spec_has_purpose(Purpose::F256, n) {
            IVariant::YMM
        } else if self.spec_has_purpose(Purpose::F128, n) {
            IVariant::XMM
        } else if self.spec_has_purpose(Purpose::Mmx, n) {
            IVariant::MMX
        } else if self.spec_has_mem_size(Size::Yword, n) {
            IVariant::YMM
        } else if self.spec_has_mem_size(Size::Xword, n) {
            IVariant::XMM
        } else {
            IVariant::STD
        }
    }

    /// Computes `spec_which_variant`.
    pub fn which_variant(&self) -> (r: IVariant)
        ensures
            r == self.spec_which_variant(),
    {
        if self.has_purpose(Purpose::F256) {
            IVariant::YMM
        } else if self.has_purpose(Purpose::F128) {
            IVariant::XMM
        } else if self.has_purpose(Purpose::Mmx) {
            IVariant::MMX
        } else if self.has_mem_size(Size::Yword) {
            IVariant::YMM
        } else if self.has_mem_size(Size::Xword) {
            IVariant::XMM
        } else {
            IVariant::STD
        }
    }

    /// Whether the destination or the source is a control register.
    pub open spec fn spec_uses_cr(self) -> bool {
        self.spec_dst() matches Some(Operand::CtrReg(_)) || self.spec_src() matches Some(
            Operand::CtrReg(_),
        )
    }

    /// Computes `spec_uses_cr`.
    pub fn uses_cr(&self) -> (r: bool)
        ensures
            r == self.spec_uses_cr(),
    {
        let d = match self.dst() {
            Some(Operand::CtrReg(_)) => true,
            _ => false,
        };
        let s = match self.src() {
            Some(Operand::CtrReg(_)) => true,
            _ => false,
        };
        d || s
    }

    /// Whether the destination or the source is a segment register.
    pub open spec fn spec_uses_sr(self) -> bool {
        self.spec_dst() matches Some(Operand::SegReg(_)) || self.spec_src() matches Some(
            Operand::SegReg(_),
        )
    }

    /// Computes `spec_uses_sr`.
    pub fn uses_sr(&self) -> (r: bool)
        ensures
            r == self.spec_uses_sr(),
    {
        let d = match self.dst() {
            Some(Operand::SegReg(_)) => true,
            _ => false,
        };
        let s = match self.src() {
            Some(Operand::SegReg(_)) => true,
            _ => false,
        };
        d || s
    }

    /// Whether the destination or the source is a debug register.
    pub open spec fn spec_uses_dr(self) -> bool {
        self.spec_dst() matches Some(Operand::DbgReg(_)) || self.spec_src() matches Some(
            Operand::DbgReg(_),
        )
    }

    /// Computes `spec_uses_dr`.
    pub fn uses_dr(&self) -> (r: bool)
        ensures
            r == self.spec_uses_dr(),
    {
        let d = match self.dst() {
            Some(Operand::DbgReg(_)) => true,
            _ => false,
        };
        let s = match self.src() {
            Some(Operand::DbgReg(_)) => true,
            _ => false,
        };
        d || s
    }

    /// Whether the operand at `i` is memory that takes a SIB byte.
    pub open spec fn spec_sib_at(self, i: int) -> bool {
        match self.spec_opr(i) {
            Some(o) => match o.spec_mem() {
                Some(m) => m.spec_needs_sib(),
                None => false,
            },
            None => false,
        }
    }

    /// The position of the first operand at or after `from` that takes a SIB
    /// byte.
    pub open spec fn spec_sib_from(self, from: int) -> Option<usize>
        decreases self.oprs@.len() - from,
    {
        if from < 0 || from >= self.oprs@.len() {
            None
        } else if self.spec_sib_at(from) {
            Some(from as usize)
        } else {
            self.spec_sib_from(from + 1)
        }
    }

    /// The position of the first operand that takes a SIB byte.
    pub open spec fn spec_get_sib_idx(self) -> Option<usize> {
        self.spec_sib_from(0)
    }

    /// The position of the first operand that takes a SIB byte.
    pub fn get_sib_idx(&self) -> (r: Option<usize>)
        ensures
            r == self.spec_get_sib_idx(),
            r is Some ==> r.unwrap() < self.oprs@.len() && self.spec_sib_at(r.unwrap() as int),
    {
        let n = self.oprs.len();
        let mut i: usize = n;
        let mut r: Option<usize> = None;
        while i > 0
            invariant
                i <= n,
                n == self.oprs@.len(),
                r == self.spec_sib_from(i as int),
                r is Some ==> r.unwrap() < n && self.spec_sib_at(r.unwrap() as int),
            decreases i,
        {
            i = i - 1;
            let s = match self.oprs[i].mem() {
                Some(m) => m.needs_sib(),
                None => false,
            };
            if s {
                r = Some(i);
            }
        }
        r
    }

    /// Whether some operand takes a SIB byte.
    pub open spec fn spec_uses_sib(self) -> bool {
        self.spec_get_sib_idx() is Some
    }

    /// Computes `spec_uses_sib`.
    pub fn uses_sib(&self) -> (r: bool)
        ensures
            r == self.spec_uses_sib(),
    {
        self.get_sib_idx().is_some()
    }
}

/// A named run of instructions.
#[derive(Clone, Debug)]
pub struct Label {
    pub name: String,
    pub inst: Vec<Instruction>,
}

/// What the parser hands over for one source file.
#[derive(Clone, Debug)]
pub struct AST {
    pub bits: Option<u8>,
    pub labels: Vec<Label>,
    pub globals: Vec<String>,
    pub externs: Vec<String>,
    pub variables: Vec<Variable>,
}

} // verus!
