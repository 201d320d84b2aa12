use vstd::prelude::*;

verus! {

/// The instruction names that the assembler knows.
#[derive(Clone, Copy, Debug, PartialEq, Eq, Structural)]
pub enum Mnemonic {
    RET, SYSCALL, PUSH, POP, MOV, ADD, OR, AND, SUB, XOR, SAL, SHL, SHR, SAR, TEST, INC, DEC,
    NOT, NEG, CMP, IMUL, DIV, IDIV, MUL, JMP, CALL, JE, JZ, JNE, JNZ, JL, JLE, JG, JGE, LEA,
    NOP, PUSHF, PUSHFD, PUSHFQ, POPF, POPFD, POPFQ, CLFLUSH, PAUSE, MWAIT, MONITOR, MFENCE,
    LFENCE, EMMS, LOCK, REP, REPE, REPZ, REPNE, REPNZ, MOVSS, MOVHLPS, MOVLHPS, MOVAPS, MOVUPS,
    MOVLPS, MOVHPS, ADDPS, ADDSS, ADDPD, ADDSD, SUBPS, SUBSS, SUBPD, SUBSD, MULPS, MULSS,
    MULPD, MULSD, DIVPS, DIVSS, DIVPD, DIVSD, MINPS, MINSS, MINPD, MINSD, MAXPS, MAXSS, MAXPD,
    MAXSD, SQRTPS, SQRTSS, SQRTPD, SQRTSD, RSQRTPS, RSQRTSS, RCPPS, RCPSS, SHUFPS, CMPPS,
    CMPSS, CMPPD, CMPSD, COMISS, UCOMISS, COMISD, UCOMISD, ORPS, ORPD, ANDPS, ANDPD, ANDNPS,
    ANDNPD, XORPS, XORPD, UNPCKLPS, UNPCKHPS, CVTSI2SS, CVTPS2PI, CVTTPS2PI, CVTPI2PS,
    CVTSS2SI, MOVNTI, MOVNTPD, MOVNTDQ, MOVAPD, MOVUPD, MOVLPD, MOVHPD, MOVSD, MOVDQA, MOVDQ2Q,
    MOVMSKPD, MASKMOVDQU, CVTPD2PI, CVTPI2PD, CVTPS2DQ, CVTDQ2PS, CVTDQ2PD, CVTSD2SI, CVTSI2SD,
    CVTTPS2DQ, CVTTSD2SI, CVTTPD2PI, CVTPS2PD, CVTPD2PS, CVTSS2SD, CVTSD2SS, PSHUFLW, PSHUFHW,
    PSHUFD, PSLLDQ, PSRLDQ, PUNPCKHQDQ, PUNPCKLQDQ, MOVD, MOVQ, PADDB, PADDW, PADDD, PADDQ,
    PADDSB, PADDSW, PSUBB, PSUBW, PSUBD, PSUBQ, PSUBSB, PSUBSW, PMULLW, PMULHW, PMULUDQ,
    PMADDWD, PCMPEQB, PCMPEQW, PCMPEQD, PCMPGTB, PCMPGTW, PCMPGTD, PACKUSWB, PACKSSWB,
    PACKSSDW, PUNPCKLBW, PUNPCKLWD, PUNPCKLDQ, PUNPCKHBW, PUNPCKHWD, PUNPCKHDQ, POR, PAND,
    PANDN, PXOR, PSLLW, PSLLD, PSLLQ, PSRLW, PSRLD, PSRLQ, PSRAW, PSRAD, ADDSUBPD, ADDSUBPS,
    HADDPD, HADDPS, HSUBPD, HSUBPS, MOVSLDUP, MOVSHDUP, MOVDDUP, LDDQU, PABSB, PABSW, PABSD,
    PSIGNB, PSIGNW, PSIGND, PSHUFB, PHADDW, PHADDD, PHADDSW, PHSUBW, PHSUBD, PHSUBSW, PMULHRSW,
    PMADDUBSW, PALIGNR, DPPS, DPPD, PTEST, PINSRB, PINSRD, PINSRQ, PMAXSB, PMAXSD, PMAXUW,
    PMINSB, PMINSD, PMINUW, PMULDQ, PMULLD, BLENDPS, BLENDPD, PBLENDW, PCMPEQQ, ROUNDPS,
    ROUNDPD, ROUNDSS, ROUNDSD, MPSADBW, PCMPGTQ, BLENDVPS, BLENDVPD, PBLENDVB, INSERTPS,
    PACKUSDW, MOVNTDQA, PCMPESTRM, PCMPESTRI, PCMPISTRM, PCMPISTRI, PHMINPOSUW, PEXTRW, PEXTRB,
    PEXTRD, PEXTRQ, EXTRACTPS, CRC32, POPCNT, VEXTRACTF128, VINSERTF128, VPMAXUB,
}

impl Mnemonic {
    /// Whether the operand size is 64 bits in 64-bit mode without REX.W.
    pub open spec fn spec_defaults_to_64bit(self) -> bool {
        match self {
            Mnemonic::PUSH | Mnemonic::POP | Mnemonic::CALL | Mnemonic::JMP | Mnemonic::JE
            | Mnemonic::JZ | Mnemonic::JNE | Mnemonic::JNZ | Mnemonic::JL | Mnemonic::JLE
            | Mnemonic::JG | Mnemonic::JGE | Mnemonic::RET | Mnemonic::PUSHF | Mnemonic::PUSHFD
            | Mnemonic::PUSHFQ | Mnemonic::POPF | Mnemonic::POPFD | Mnemonic::POPFQ => true,
            _ => false,
        }
    }

    /// Computes `spec_defaults_to_64bit`.
    #[verifier::when_used_as_spec(spec_defaults_to_64bit)]
    pub fn defaults_to_64bit(self) -> (r: bool)
        ensures
            r == self.spec_defaults_to_64bit(),
    {
        match self {
            Mnemonic::PUSH | Mnemonic::POP | Mnemonic::CALL | Mnemonic::JMP | Mnemonic::JE
            | Mnemonic::JZ | Mnemonic::JNE | Mnemonic::JNZ | Mnemonic::JL | Mnemonic::JLE
            | Mnemonic::JG | Mnemonic::JGE | Mnemonic::RET | Mnemonic::PUSHF | Mnemonic::PUSHFD
            | Mnemonic::PUSHFQ | Mnemonic::POPF | Mnemonic::POPFD | Mnemonic::POPFQ => true,
            _ => false,
        }
    }

    /// Whether the instruction works on MMX or XMM registers, so that a 64-bit
    /// memory operand does not by itself ask for REX.W.
    pub open spec fn spec_is_simd(self) -> bool {
        match self {
            Mnemonic::MOVSS | Mnemonic::MOVHLPS | Mnemonic::MOVLHPS | Mnemonic::MOVAPS
            | Mnemonic::MOVUPS | Mnemonic::MOVLPS | Mnemonic::MOVHPS | Mnemonic::ADDPS
            | Mnemonic::ADDSS | Mnemonic::ADDPD | Mnemonic::ADDSD | Mnemonic::SUBPS
            | Mnemonic::SUBSS | Mnemonic::SUBPD | Mnemonic::SUBSD | Mnemonic::MULPS
            | Mnemonic::MULSS | Mnemonic::MULPD | Mnemonic::MULSD | Mnemonic::DIVPS
            | Mnemonic::DIVSS | Mnemonic::DIVPD | Mnemonic::DIVSD | Mnemonic::MINPS
            | Mnemonic::MINSS | Mnemonic::MINPD | Mnemonic::MINSD | Mnemonic::MAXPS
            | Mnemonic::MAXSS | Mnemonic::MAXPD | Mnemonic::MAXSD | Mnemonic::SQRTPS
            | Mnemonic::SQRTSS | Mnemonic::SQRTPD | Mnemonic::SQRTSD | Mnemonic::RSQRTPS
            | Mnemonic::RSQRTSS | Mnemonic::RCPPS | Mnemonic::RCPSS | Mnemonic::SHUFPS
            | Mnemonic::CMPPS | Mnemonic::CMPSS | Mnemonic::CMPPD | Mnemonic::CMPSD
            | Mnemonic::COMISS | Mnemonic::UCOMISS | Mnemonic::COMISD | Mnemonic::UCOMISD
            | Mnemonic::ORPS | Mnemonic::ORPD | Mnemonic::ANDPS | Mnemonic::ANDPD
            | Mnemonic::ANDNPS | Mnemonic::ANDNPD | Mnemonic::XORPS | Mnemonic::XORPD
            | Mnemonic::UNPCKLPS | Mnemonic::UNPCKHPS | Mnemonic::CVTSI2SS | Mnemonic::CVTPS2PI
            | Mnemonic::CVTTPS2PI | Mnemonic::CVTPI2PS | Mnemonic::CVTSS2SI | Mnemonic::MOVNTPD
            | Mnemonic::MOVNTDQ | Mnemonic::MOVAPD | Mnemonic::MOVUPD | Mnemonic::MOVLPD
            | Mnemonic::MOVHPD | Mnemonic::MOVSD | Mnemonic::MOVDQA | Mnemonic::MOVDQ2Q
            | Mnemonic::MOVMSKPD | Mnemonic::MASKMOVDQU | Mnemonic::CVTPD2PI
            | Mnemonic::CVTPI2PD | Mnemonic::CVTPS2DQ | Mnemonic::CVTDQ2PS | Mnemonic::CVTDQ2PD
            | Mnemonic::CVTSD2SI | Mnemonic::CVTSI2SD | Mnemonic::CVTTPS2DQ
            | Mnemonic::CVTTSD2SI | Mnemonic::CVTTPD2PI | Mnemonic::CVTPS2PD
            | Mnemonic::CVTPD2PS | Mnemonic::CVTSS2SD | Mnemonic::CVTSD2SS | Mnemonic::PSHUFLW
            | Mnemonic::PSHUFHW | Mnemonic::PSHUFD | Mnemonic::PSLLDQ | Mnemonic::PSRLDQ
            | Mnemonic::PUNPCKHQDQ | Mnemonic::PUNPCKLQDQ | Mnemonic::MOVD | Mnemonic::MOVQ
            | Mnemonic::PADDB | Mnemonic::PADDW | Mnemonic::PADDD | Mnemonic::PADDQ
            | Mnemonic::PADDSB | Mnemonic::PADDSW | Mnemonic::PSUBB | Mnemonic::PSUBW
            | Mnemonic::PSUBD | Mnemonic::PSUBQ | Mnemonic::PSUBSB | Mnemonic::PSUBSW
            | Mnemonic::PMULLW | Mnemonic::PMULHW | Mnemonic::PMULUDQ | Mnemonic::PMADDWD
            | Mnemonic::PCMPEQB | Mnemonic::PCMPEQW | Mnemonic::PCMPEQD | Mnemonic::PCMPGTB
            | Mnemonic::PCMPGTW | Mnemonic::PCMPGTD | Mnemonic::PACKUSWB | Mnemonic::PACKSSWB
            | Mnemonic::PACKSSDW | Mnemonic::PUNPCKLBW | Mnemonic::PUNPCKLWD
            | Mnemonic::PUNPCKLDQ | Mnemonic::PUNPCKHBW | Mnemonic::PUNPCKHWD
            | Mnemonic::PUNPCKHDQ | Mnemonic::POR | Mnemonic::PAND | Mnemonic::PANDN
            | Mnemonic::PXOR | Mnemonic::PSLLW | Mnemonic::PSLLD | Mnemonic::PSLLQ
            | Mnemonic::PSRLW | Mnemonic::PSRLD | Mnemonic::PSRLQ | Mnemonic::PSRAW
            | Mnemonic::PSRAD | Mnemonic::ADDSUBPD | Mnemonic::ADDSUBPS | Mnemonic::HADDPD
            | Mnemonic::HADDPS | Mnemonic::HSUBPD | Mnemonic::HSUBPS | Mnemonic::MOVSLDUP
            | Mnemonic::MOVSHDUP | Mnemonic::MOVDDUP | Mnemonic::LDDQU | Mnemonic::PABSB
            | Mnemonic::PABSW | Mnemonic::PABSD | Mnemonic::PSIGNB | Mnemonic::PSIGNW
            | Mnemonic::PSIGND | Mnemonic::PSHUFB | Mnemonic::PHADDW | Mnemonic::PHADDD
            | Mnemonic::PHADDSW | Mnemonic::PHSUBW | Mnemonic::PHSUBD | Mnemonic::PHSUBSW
            | Mnemonic::PMULHRSW | Mnemonic::PMADDUBSW | Mnemonic::PALIGNR | Mnemonic::DPPS
            | Mnemonic::DPPD | Mnemonic::PTEST | Mnemonic::PINSRB | Mnemonic::PINSRD
            | Mnemonic::PINSRQ | Mnemonic::PMAXSB | Mnemonic::PMAXSD | Mnemonic::PMAXUW
            | Mnemonic::PMINSB | Mnemonic::PMINSD | Mnemonic::PMINUW | Mnemonic::PMULDQ
            | Mnemonic::PMULLD | Mnemonic::BLENDPS | Mnemonic::BLENDPD | Mnemonic::PBLENDW
            | Mnemonic::PCMPEQQ | Mnemonic::ROUNDPS | Mnemonic::ROUNDPD | Mnemonic::ROUNDSS
            | Mnemonic::ROUNDSD | Mnemonic::MPSADBW | Mnemonic::PCMPGTQ | Mnemonic::BLENDVPS
            | Mnemonic::BLENDVPD | Mnemonic::PBLENDVB | Mnemonic::INSERTPS | Mnemonic::PACKUSDW
            | Mnemonic::MOVNTDQA | Mnemonic::PCMPESTRM | Mnemonic::PCMPESTRI
            | Mnemonic::PCMPISTRM | Mnemonic::PCMPISTRI | Mnemonic::PHMINPOSUW
            | Mnemonic::PEXTRW | Mnemonic::PEXTRB | Mnemonic::PEXTRD | Mnemonic::PEXTRQ
            | Mnemonic::EXTRACTPS => true,
            _ => false,
        }
    }

    /// Computes `spec_is_simd`.
    #[verifier::when_used_as_spec(spec_is_simd)]
    pub fn is_simd(self) -> (r: bool)
        ensures
            r == self.spec_is_simd(),
    {
        match self {
            Mnemonic::MOVSS | Mnemonic::MOVHLPS | Mnemonic::MOVLHPS | Mnemonic::MOVAPS
            | Mnemonic::MOVUPS | Mnemonic::MOVLPS | Mnemonic::MOVHPS | Mnemonic::ADDPS
            | Mnemonic::ADDSS | Mnemonic::ADDPD | Mnemonic::ADDSD | Mnemonic::SUBPS
            | Mnemonic::SUBSS | Mnemonic::SUBPD | Mnemonic::SUBSD | Mnemonic::MULPS
            | Mnemonic::MULSS | Mnemonic::MULPD | Mnemonic::MULSD | Mnemonic::DIVPS
            | Mnemonic::DIVSS | Mnemonic::DIVPD | Mnemonic::DIVSD | Mnemonic::MINPS
            | Mnemonic::MINSS | Mnemonic::MINPD | Mnemonic::MINSD | Mnemonic::MAXPS
            | Mnemonic::MAXSS | Mnemonic::MAXPD | Mnemonic::MAXSD | Mnemonic::SQRTPS
            | Mnemonic::SQRTSS | Mnemonic::SQRTPD | Mnemonic::SQRTSD | Mnemonic::RSQRTPS
            | Mnemonic::RSQRTSS | Mnemonic::RCPPS | Mnemonic::RCPSS | Mnemonic::SHUFPS
            | Mnemonic::CMPPS | Mnemonic::CMPSS | Mnemonic::CMPPD | Mnemonic::CMPSD
            | Mnemonic::COMISS | Mnemonic::UCOMISS | Mnemonic::COMISD | Mnemonic::UCOMISD
            | Mnemonic::ORPS | Mnemonic::ORPD | Mnemonic::ANDPS | Mnemonic::ANDPD
            | Mnemonic::ANDNPS | Mnemonic::ANDNPD | Mnemonic::XORPS | Mnemonic::XORPD
            | Mnemonic::UNPCKLPS | Mnemonic::UNPCKHPS | Mnemonic::CVTSI2SS | Mnemonic::CVTPS2PI
            | Mnemonic::CVTTPS2PI | Mnemonic::CVTPI2PS | Mnemonic::CVTSS2SI | Mnemonic::MOVNTPD
            | Mnemonic::MOVNTDQ | Mnemonic::MOVAPD | Mnemonic::MOVUPD | Mnemonic::MOVLPD
            | Mnemonic::MOVHPD | Mnemonic::MOVSD | Mnemonic::MOVDQA | Mnemonic::MOVDQ2Q
            | Mnemonic::MOVMSKPD | Mnemonic::MASKMOVDQU | Mnemonic::CVTPD2PI
            | Mnemonic::CVTPI2PD | Mnemonic::CVTPS2DQ | Mnemonic::CVTDQ2PS | Mnemonic::CVTDQ2PD
            | Mnemonic::CVTSD2SI | Mnemonic::CVTSI2SD | Mnemonic::CVTTPS2DQ
            | Mnemonic::CVTTSD2SI | Mnemonic::CVTTPD2PI | Mnemonic::CVTPS2PD
            | Mnemonic::CVTPD2PS | Mnemonic::CVTSS2SD | Mnemonic::CVTSD2SS | Mnemonic::PSHUFLW
            | Mnemonic::PSHUFHW | Mnemonic::PSHUFD | Mnemonic::PSLLDQ | Mnemonic::PSRLDQ
            | Mnemonic::PUNPCKHQDQ | Mnemonic::PUNPCKLQDQ | Mnemonic::MOVD | Mnemonic::MOVQ
            | Mnemonic::PADDB | Mnemonic::PADDW | Mnemonic::PADDD | Mnemonic::PADDQ
            | Mnemonic::PADDSB | Mnemonic::PADDSW | Mnemonic::PSUBB | Mnemonic::PSUBW
            | Mnemonic::PSUBD | Mnemonic::PSUBQ | Mnemonic::PSUBSB | Mnemonic::PSUBSW
            | Mnemonic::PMULLW | Mnemonic::PMULHW | Mnemonic::PMULUDQ | Mnemonic::PMADDWD
            | Mnemonic::PCMPEQB | Mnemonic::PCMPEQW | Mnemonic::PCMPEQD | Mnemonic::PCMPGTB
            | Mnemonic::PCMPGTW | Mnemonic::PCMPGTD | Mnemonic::PACKUSWB | Mnemonic::PACKSSWB
            | Mnemonic::PACKSSDW | Mnemonic::PUNPCKLBW | Mnemonic::PUNPCKLWD
            | Mnemonic::PUNPCKLDQ | Mnemonic::PUNPCKHBW | Mnemonic::PUNPCKHWD
            | Mnemonic::PUNPCKHDQ | Mnemonic::POR | Mnemonic::PAND | Mnemonic::PANDN
            | Mnemonic::PXOR | Mnemonic::PSLLW | Mnemonic::PSLLD | Mnemonic::PSLLQ
            | Mnemonic::PSRLW | Mnemonic::PSRLD | Mnemonic::PSRLQ | Mnemonic::PSRAW
            | Mnemonic::PSRAD | Mnemonic::ADDSUBPD | Mnemonic::ADDSUBPS | Mnemonic::HADDPD
            | Mnemonic::HADDPS | Mnemonic::HSUBPD | Mnemonic::HSUBPS | Mnemonic::MOVSLDUP
            | Mnemonic::MOVSHDUP | Mnemonic::MOVDDUP | Mnemonic::LDDQU | Mnemonic::PABSB
            | Mnemonic::PABSW | Mnemonic::PABSD | Mnemonic::PSIGNB | Mnemonic::PSIGNW
            | Mnemonic::PSIGND | Mnemonic::PSHUFB | Mnemonic::PHADDW | Mnemonic::PHADDD
            | Mnemonic::PHADDSW | Mnemonic::PHSUBW | Mnemonic::PHSUBD | Mnemonic::PHSUBSW
            | Mnemonic::PMULHRSW | Mnemonic::PMADDUBSW | Mnemonic::PALIGNR | Mnemonic::DPPS
            | Mnemonic::DPPD | Mnemonic::PTEST | Mnemonic::PINSRB | Mnemonic::PINSRD
            | Mnemonic::PINSRQ | Mnemonic::PMAXSB | Mnemonic::PMAXSD | Mnemonic::PMAXUW
            | Mnemonic::PMINSB | Mnemonic::PMINSD | Mnemonic::PMINUW | Mnemonic::PMULDQ
            | Mnemonic::PMULLD | Mnemonic::BLENDPS | Mnemonic::BLENDPD | Mnemonic::PBLENDW
            | Mnemonic::PCMPEQQ | Mnemonic::ROUNDPS | Mnemonic::ROUNDPD | Mnemonic::ROUNDSS
            | Mnemonic::ROUNDSD | Mnemonic::MPSADBW | Mnemonic::PCMPGTQ | Mnemonic::BLENDVPS
            | Mnemonic::BLENDVPD | Mnemonic::PBLENDVB | Mnemonic::INSERTPS | Mnemonic::PACKUSDW
            | Mnemonic::MOVNTDQA | Mnemonic::PCMPESTRM | Mnemonic::PCMPESTRI
            | Mnemonic::PCMPISTRM | Mnemonic::PCMPISTRI | Mnemonic::PHMINPOSUW
            | Mnemonic::PEXTRW | Mnemonic::PEXTRB | Mnemonic::PEXTRD | Mnemonic::PEXTRQ
            | Mnemonic::EXTRACTPS => true,
            _ => false,
        }
    }

    /// Whether a 64-bit memory operand of this vector instruction stands for a
    /// 64-bit general-purpose operand, which takes REX.W.
    pub open spec fn spec_wide_mem(self) -> bool {
        match self {
            Mnemonic::CVTSI2SS | Mnemonic::CVTSI2SD | Mnemonic::PINSRQ | Mnemonic::PEXTRQ => true,
            _ => false,
        }
    }

    /// Computes `spec_wide_mem`.
    #[verifier::when_used_as_spec(spec_wide_mem)]
    pub fn wide_mem(self) -> (r: bool)
        ensures
            r == self.spec_wide_mem(),
    {
        match self {
            Mnemonic::CVTSI2SS | Mnemonic::CVTSI2SD | Mnemonic::PINSRQ | Mnemonic::PEXTRQ => true,
            _ => false,
        }
    }

    /// Whether destination and source may differ in width.
    pub open spec fn spec_allows_diff_size(self) -> bool {
        match self {
            Mnemonic::CRC32 => true,
            _ => false,
        }
    }

    /// Computes `spec_allows_diff_size`.
    #[verifier::when_used_as_spec(spec_allows_diff_size)]
    pub fn allows_diff_size(self) -> (r: bool)
        ensures
            r == self.spec_allows_diff_size(),
    {
        match self {
            Mnemonic::CRC32 => true,
            _ => false,
        }
    }
}

} // verus!
