use vstd::prelude::*;
use crate::enc::comp::encodable;
use crate::enc::comp::has_family;
use crate::enc::comp::spec_fixed_bytes;
use crate::enc::simd::spec_simd_kind;
use crate::pre::rules::lemma_no_symbol;
use crate::pre::rules::lemma_ot_passed;
use crate::pre::rules::no_symbol_slot;
use crate::pre::chk::spec_shr_chk;
use crate::pre::chk::spec_shr_rule;
use crate::shr::ast::Instruction;
use crate::shr::ins::Mnemonic;

verus! {

/// The rule of CLFLUSH has no slot for a symbol, and the encoder knows
/// the mnemonic.
#[verifier::rlimit(50)]
proof fn lemma_plain_clflush(m: Mnemonic)
    requires
        m == Mnemonic::CLFLUSH,
    ensures
        spec_shr_rule(m) is Some,
        no_symbol_slot(spec_shr_rule(m).unwrap().slots),
        m == Mnemonic::CLFLUSH || (!has_family(m) && (spec_fixed_bytes(m) is Some || spec_simd_kind(m) is Some)),
{
}

/// The rule of PAUSE and of the others named has no slot for a symbol, and the encoder knows
/// the mnemonic.
#[verifier::rlimit(50)]
proof fn lemma_plain_pause(m: Mnemonic)
    requires
        m == Mnemonic::PAUSE || m == Mnemonic::LFENCE || m == Mnemonic::MFENCE
            || m == Mnemonic::MONITOR || m == Mnemonic::MWAIT || m == Mnemonic::EMMS,
    ensures
        spec_shr_rule(m) is Some,
        no_symbol_slot(spec_shr_rule(m).unwrap().slots),
        m == Mnemonic::CLFLUSH || (!has_family(m) && (spec_fixed_bytes(m) is Some || spec_simd_kind(m) is Some)),
{
}

/// The rule of CVTSS2SI has no slot for a symbol, and the encoder knows
/// the mnemonic.
#[verifier::rlimit(50)]
proof fn lemma_plain_cvtss2si(m: Mnemonic)
    requires
        m == Mnemonic::CVTSS2SI,
    ensures
        spec_shr_rule(m) is Some,
        no_symbol_slot(spec_shr_rule(m).unwrap().slots),
        m == Mnemonic::CLFLUSH || (!has_family(m) && (spec_fixed_bytes(m) is Some || spec_simd_kind(m) is Some)),
{
}

/// The rule of CVTPS2PI and of the others named has no slot for a symbol, and the encoder knows
/// the mnemonic.
#[verifier::rlimit(50)]
proof fn lemma_plain_cvtps2pi(m: Mnemonic)
    requires
        m == Mnemonic::CVTPS2PI || m == Mnemonic::CVTTPS2PI,
    ensures
        spec_shr_rule(m) is Some,
        no_symbol_slot(spec_shr_rule(m).unwrap().slots),
        m == Mnemonic::CLFLUSH || (!has_family(m) && (spec_fixed_bytes(m) is Some || spec_simd_kind(m) is Some)),
{
}

/// The rule of CVTPI2PS and of the others named has no slot for a symbol, and the encoder knows
/// the mnemonic.
#[verifier::rlimit(50)]
proof fn lemma_plain_cvtpi2ps(m: Mnemonic)
    requires
        m == Mnemonic::CVTPI2PS || m == Mnemonic::CVTPI2PD,
    ensures
        spec_shr_rule(m) is Some,
        no_symbol_slot(spec_shr_rule(m).unwrap().slots),
        m == Mnemonic::CLFLUSH || (!has_family(m) && (spec_fixed_bytes(m) is Some || spec_simd_kind(m) is Some)),
{
}

/// The rule of CVTSI2SS and of the others named has no slot for a symbol, and the encoder knows
/// the mnemonic.
#[verifier::rlimit(50)]
proof fn lemma_plain_cvtsi2ss(m: Mnemonic)
    requires
        m == Mnemonic::CVTSI2SS || m == Mnemonic::CVTSI2SD,
    ensures
        spec_shr_rule(m) is Some,
        no_symbol_slot(spec_shr_rule(m).unwrap().slots),
        m == Mnemonic::CLFLUSH || (!has_family(m) && (spec_fixed_bytes(m) is Some || spec_simd_kind(m) is Some)),
{
}

/// The rule of CMPSS and of the others named has no slot for a symbol, and the encoder knows
/// the mnemonic.
#[verifier::rlimit(50)]
proof fn lemma_plain_cmpss(m: Mnemonic)
    requires
        m == Mnemonic::CMPSS || m == Mnemonic::ROUNDSS || m == Mnemonic::INSERTPS,
    ensures
        spec_shr_rule(m) is Some,
        no_symbol_slot(spec_shr_rule(m).unwrap().slots),
        m == Mnemonic::CLFLUSH || (!has_family(m) && (spec_fixed_bytes(m) is Some || spec_simd_kind(m) is Some)),
{
}

/// The rule of CMPPS and of the others named has no slot for a symbol, and the encoder knows
/// the mnemonic.
#[verifier::rlimit(50)]
proof fn lemma_plain_cmpps(m: Mnemonic)
    requires
        m == Mnemonic::CMPPS || m == Mnemonic::SHUFPS || m == Mnemonic::CMPPD
            || m == Mnemonic::PSHUFLW || m == Mnemonic::PSHUFHW || m == Mnemonic::PSHUFD
            || m == Mnemonic::DPPS || m == Mnemonic::DPPD || m == Mnemonic::BLENDPS
            || m == Mnemonic::BLENDPD,
    ensures
        spec_shr_rule(m) is Some,
        no_symbol_slot(spec_shr_rule(m).unwrap().slots),
        m == Mnemonic::CLFLUSH || (!has_family(m) && (spec_fixed_bytes(m) is Some || spec_simd_kind(m) is Some)),
{
}

/// The rule of PBLENDW and of the others named has no slot for a symbol, and the encoder knows
/// the mnemonic.
#[verifier::rlimit(50)]
proof fn lemma_plain_pblendw(m: Mnemonic)
    requires
        m == Mnemonic::PBLENDW || m == Mnemonic::ROUNDPS || m == Mnemonic::ROUNDPD
            || m == Mnemonic::MPSADBW || m == Mnemonic::PCMPESTRI || m == Mnemonic::PCMPESTRM
            || m == Mnemonic::PCMPISTRM || m == Mnemonic::PCMPISTRI,
    ensures
        spec_shr_rule(m) is Some,
        no_symbol_slot(spec_shr_rule(m).unwrap().slots),
        m == Mnemonic::CLFLUSH || (!has_family(m) && (spec_fixed_bytes(m) is Some || spec_simd_kind(m) is Some)),
{
}

/// The rule of CMPSD and of the others named has no slot for a symbol, and the encoder knows
/// the mnemonic.
#[verifier::rlimit(50)]
proof fn lemma_plain_cmpsd(m: Mnemonic)
    requires
        m == Mnemonic::CMPSD || m == Mnemonic::ROUNDSD,
    ensures
        spec_shr_rule(m) is Some,
        no_symbol_slot(spec_shr_rule(m).unwrap().slots),
        m == Mnemonic::CLFLUSH || (!has_family(m) && (spec_fixed_bytes(m) is Some || spec_simd_kind(m) is Some)),
{
}

/// The rule of MOVHPS and of the others named has no slot for a symbol, and the encoder knows
/// the mnemonic.
#[verifier::rlimit(50)]
proof fn lemma_plain_movhps(m: Mnemonic)
    requires
        m == Mnemonic::MOVHPS || m == Mnemonic::MOVLPS || m == Mnemonic::MOVLPD
            || m == Mnemonic::MOVHPD || m == Mnemonic::MOVSD,
    ensures
        spec_shr_rule(m) is Some,
        no_symbol_slot(spec_shr_rule(m).unwrap().slots),
        m == Mnemonic::CLFLUSH || (!has_family(m) && (spec_fixed_bytes(m) is Some || spec_simd_kind(m) is Some)),
{
}

/// The rule of MOVLHPS and of the others named has no slot for a symbol, and the encoder knows
/// the mnemonic.
#[verifier::rlimit(50)]
proof fn lemma_plain_movlhps(m: Mnemonic)
    requires
        m == Mnemonic::MOVLHPS || m == Mnemonic::MOVHLPS || m == Mnemonic::MASKMOVDQU,
    ensures
        spec_shr_rule(m) is Some,
        no_symbol_slot(spec_shr_rule(m).unwrap().slots),
        m == Mnemonic::CLFLUSH || (!has_family(m) && (spec_fixed_bytes(m) is Some || spec_simd_kind(m) is Some)),
{
}

/// The rule of MOVAPS and of the others named has no slot for a symbol, and the encoder knows
/// the mnemonic.
#[verifier::rlimit(50)]
proof fn lemma_plain_movaps(m: Mnemonic)
    requires
        m == Mnemonic::MOVAPS || m == Mnemonic::MOVUPS || m == Mnemonic::MOVAPD
            || m == Mnemonic::MOVUPD || m == Mnemonic::MOVDQA,
    ensures
        spec_shr_rule(m) is Some,
        no_symbol_slot(spec_shr_rule(m).unwrap().slots),
        m == Mnemonic::CLFLUSH || (!has_family(m) && (spec_fixed_bytes(m) is Some || spec_simd_kind(m) is Some)),
{
}

/// The rule of MOVSS has no slot for a symbol, and the encoder knows
/// the mnemonic.
#[verifier::rlimit(50)]
proof fn lemma_plain_movss(m: Mnemonic)
    requires
        m == Mnemonic::MOVSS,
    ensures
        spec_shr_rule(m) is Some,
        no_symbol_slot(spec_shr_rule(m).unwrap().slots),
        m == Mnemonic::CLFLUSH || (!has_family(m) && (spec_fixed_bytes(m) is Some || spec_simd_kind(m) is Some)),
{
}

/// The rule of SQRTSS and of the others named has no slot for a symbol, and the encoder knows
/// the mnemonic.
#[verifier::rlimit(50)]
proof fn lemma_plain_sqrtss(m: Mnemonic)
    requires
        m == Mnemonic::SQRTSS || m == Mnemonic::ADDSS || m == Mnemonic::SUBSS
            || m == Mnemonic::DIVSS || m == Mnemonic::MULSS || m == Mnemonic::RCPSS
            || m == Mnemonic::RSQRTSS || m == Mnemonic::MINSS || m == Mnemonic::MAXSS
            || m == Mnemonic::COMISS,
    ensures
        spec_shr_rule(m) is Some,
        no_symbol_slot(spec_shr_rule(m).unwrap().slots),
        m == Mnemonic::CLFLUSH || (!has_family(m) && (spec_fixed_bytes(m) is Some || spec_simd_kind(m) is Some)),
{
}

/// The rule of UCOMISS and of the others named has no slot for a symbol, and the encoder knows
/// the mnemonic.
#[verifier::rlimit(50)]
proof fn lemma_plain_ucomiss(m: Mnemonic)
    requires
        m == Mnemonic::UCOMISS || m == Mnemonic::CVTSS2SD,
    ensures
        spec_shr_rule(m) is Some,
        no_symbol_slot(spec_shr_rule(m).unwrap().slots),
        m == Mnemonic::CLFLUSH || (!has_family(m) && (spec_fixed_bytes(m) is Some || spec_simd_kind(m) is Some)),
{
}

/// The rule of ADDPS and of the others named has no slot for a symbol, and the encoder knows
/// the mnemonic.
#[verifier::rlimit(50)]
proof fn lemma_plain_addps(m: Mnemonic)
    requires
        m == Mnemonic::ADDPS || m == Mnemonic::SUBPS || m == Mnemonic::DIVPS
            || m == Mnemonic::MULPS || m == Mnemonic::RCPPS || m == Mnemonic::SQRTPS
            || m == Mnemonic::RSQRTPS || m == Mnemonic::MINPS || m == Mnemonic::MAXPS
            || m == Mnemonic::ORPS,
    ensures
        spec_shr_rule(m) is Some,
        no_symbol_slot(spec_shr_rule(m).unwrap().slots),
        m == Mnemonic::CLFLUSH || (!has_family(m) && (spec_fixed_bytes(m) is Some || spec_simd_kind(m) is Some)),
{
}

/// The rule of ANDPS and of the others named has no slot for a symbol, and the encoder knows
/// the mnemonic.
#[verifier::rlimit(50)]
proof fn lemma_plain_andps(m: Mnemonic)
    requires
        m == Mnemonic::ANDPS || m == Mnemonic::ANDNPS || m == Mnemonic::XORPS
            || m == Mnemonic::UNPCKLPS || m == Mnemonic::UNPCKHPS || m == Mnemonic::ADDPD
            || m == Mnemonic::SUBPD || m == Mnemonic::DIVPD || m == Mnemonic::MULPD
            || m == Mnemonic::SQRTPD,
    ensures
        spec_shr_rule(m) is Some,
        no_symbol_slot(spec_shr_rule(m).unwrap().slots),
        m == Mnemonic::CLFLUSH || (!has_family(m) && (spec_fixed_bytes(m) is Some || spec_simd_kind(m) is Some)),
{
}

/// The rule of MINPD and of the others named has no slot for a symbol, and the encoder knows
/// the mnemonic.
#[verifier::rlimit(50)]
proof fn lemma_plain_minpd(m: Mnemonic)
    requires
        m == Mnemonic::MINPD || m == Mnemonic::MAXPD || m == Mnemonic::ORPD
            || m == Mnemonic::ANDPD || m == Mnemonic::ANDNPD || m == Mnemonic::XORPD
            || m == Mnemonic::CVTPS2DQ || m == Mnemonic::CVTTPS2DQ || m == Mnemonic::CVTDQ2PS
            || m == Mnemonic::CVTPD2PS,
    ensures
        spec_shr_rule(m) is Some,
        no_symbol_slot(spec_shr_rule(m).unwrap().slots),
        m == Mnemonic::CLFLUSH || (!has_family(m) && (spec_fixed_bytes(m) is Some || spec_simd_kind(m) is Some)),
{
}

/// The rule of PUNPCKHQDQ and of the others named has no slot for a symbol, and the encoder knows
/// the mnemonic.
#[verifier::rlimit(50)]
proof fn lemma_plain_punpckhqdq(m: Mnemonic)
    requires
        m == Mnemonic::PUNPCKHQDQ || m == Mnemonic::PUNPCKLQDQ || m == Mnemonic::ADDSUBPD
            || m == Mnemonic::ADDSUBPS || m == Mnemonic::HADDPD || m == Mnemonic::HADDPS
            || m == Mnemonic::HSUBPS || m == Mnemonic::HSUBPD || m == Mnemonic::MOVSLDUP
            || m == Mnemonic::MOVSHDUP,
    ensures
        spec_shr_rule(m) is Some,
        no_symbol_slot(spec_shr_rule(m).unwrap().slots),
        m == Mnemonic::CLFLUSH || (!has_family(m) && (spec_fixed_bytes(m) is Some || spec_simd_kind(m) is Some)),
{
}

/// The rule of PTEST and of the others named has no slot for a symbol, and the encoder knows
/// the mnemonic.
#[verifier::rlimit(50)]
proof fn lemma_plain_ptest(m: Mnemonic)
    requires
        m == Mnemonic::PTEST || m == Mnemonic::PMAXSB || m == Mnemonic::PMAXSD
            || m == Mnemonic::PMAXUW || m == Mnemonic::PMINSD || m == Mnemonic::PMINSB
            || m == Mnemonic::PMINUW || m == Mnemonic::PMULDQ || m == Mnemonic::PMULLD
            || m == Mnemonic::PCMPEQQ,
    ensures
        spec_shr_rule(m) is Some,
        no_symbol_slot(spec_shr_rule(m).unwrap().slots),
        m == Mnemonic::CLFLUSH || (!has_family(m) && (spec_fixed_bytes(m) is Some || spec_simd_kind(m) is Some)),
{
}

/// The rule of PCMPGTQ and of the others named has no slot for a symbol, and the encoder knows
/// the mnemonic.
#[verifier::rlimit(50)]
proof fn lemma_plain_pcmpgtq(m: Mnemonic)
    requires
        m == Mnemonic::PCMPGTQ || m == Mnemonic::BLENDVPS || m == Mnemonic::BLENDVPD
            || m == Mnemonic::PBLENDVB || m == Mnemonic::PACKUSDW || m == Mnemonic::PHMINPOSUW,
    ensures
        spec_shr_rule(m) is Some,
        no_symbol_slot(spec_shr_rule(m).unwrap().slots),
        m == Mnemonic::CLFLUSH || (!has_family(m) && (spec_fixed_bytes(m) is Some || spec_simd_kind(m) is Some)),
{
}

/// The rule of SQRTSD and of the others named has no slot for a symbol, and the encoder knows
/// the mnemonic.
#[verifier::rlimit(50)]
proof fn lemma_plain_sqrtsd(m: Mnemonic)
    requires
        m == Mnemonic::SQRTSD || m == Mnemonic::ADDSD || m == Mnemonic::SUBSD
            || m == Mnemonic::DIVSD || m == Mnemonic::MULSD || m == Mnemonic::MINSD
            || m == Mnemonic::COMISD || m == Mnemonic::UCOMISD || m == Mnemonic::MAXSD
            || m == Mnemonic::CVTDQ2PD,
    ensures
        spec_shr_rule(m) is Some,
        no_symbol_slot(spec_shr_rule(m).unwrap().slots),
        m == Mnemonic::CLFLUSH || (!has_family(m) && (spec_fixed_bytes(m) is Some || spec_simd_kind(m) is Some)),
{
}

/// The rule of CVTPS2PD and of the others named has no slot for a symbol, and the encoder knows
/// the mnemonic.
#[verifier::rlimit(50)]
proof fn lemma_plain_cvtps2pd(m: Mnemonic)
    requires
        m == Mnemonic::CVTPS2PD || m == Mnemonic::CVTSD2SS || m == Mnemonic::MOVDDUP,
    ensures
        spec_shr_rule(m) is Some,
        no_symbol_slot(spec_shr_rule(m).unwrap().slots),
        m == Mnemonic::CLFLUSH || (!has_family(m) && (spec_fixed_bytes(m) is Some || spec_simd_kind(m) is Some)),
{
}

/// The rule of CVTPD2PI and of the others named has no slot for a symbol, and the encoder knows
/// the mnemonic.
#[verifier::rlimit(50)]
proof fn lemma_plain_cvtpd2pi(m: Mnemonic)
    requires
        m == Mnemonic::CVTPD2PI || m == Mnemonic::CVTTPD2PI,
    ensures
        spec_shr_rule(m) is Some,
        no_symbol_slot(spec_shr_rule(m).unwrap().slots),
        m == Mnemonic::CLFLUSH || (!has_family(m) && (spec_fixed_bytes(m) is Some || spec_simd_kind(m) is Some)),
{
}

/// The rule of MOVDQ2Q has no slot for a symbol, and the encoder knows
/// the mnemonic.
#[verifier::rlimit(50)]
proof fn lemma_plain_movdq2q(m: Mnemonic)
    requires
        m == Mnemonic::MOVDQ2Q,
    ensures
        spec_shr_rule(m) is Some,
        no_symbol_slot(spec_shr_rule(m).unwrap().slots),
        m == Mnemonic::CLFLUSH || (!has_family(m) && (spec_fixed_bytes(m) is Some || spec_simd_kind(m) is Some)),
{
}

/// The rule of MOVMSKPD has no slot for a symbol, and the encoder knows
/// the mnemonic.
#[verifier::rlimit(50)]
proof fn lemma_plain_movmskpd(m: Mnemonic)
    requires
        m == Mnemonic::MOVMSKPD,
    ensures
        spec_shr_rule(m) is Some,
        no_symbol_slot(spec_shr_rule(m).unwrap().slots),
        m == Mnemonic::CLFLUSH || (!has_family(m) && (spec_fixed_bytes(m) is Some || spec_simd_kind(m) is Some)),
{
}

/// The rule of CVTSD2SI and of the others named has no slot for a symbol, and the encoder knows
/// the mnemonic.
#[verifier::rlimit(50)]
proof fn lemma_plain_cvtsd2si(m: Mnemonic)
    requires
        m == Mnemonic::CVTSD2SI || m == Mnemonic::CVTTSD2SI,
    ensures
        spec_shr_rule(m) is Some,
        no_symbol_slot(spec_shr_rule(m).unwrap().slots),
        m == Mnemonic::CLFLUSH || (!has_family(m) && (spec_fixed_bytes(m) is Some || spec_simd_kind(m) is Some)),
{
}

/// The rule of MOVNTDQ and of the others named has no slot for a symbol, and the encoder knows
/// the mnemonic.
#[verifier::rlimit(50)]
proof fn lemma_plain_movntdq(m: Mnemonic)
    requires
        m == Mnemonic::MOVNTDQ || m == Mnemonic::MOVNTPD,
    ensures
        spec_shr_rule(m) is Some,
        no_symbol_slot(spec_shr_rule(m).unwrap().slots),
        m == Mnemonic::CLFLUSH || (!has_family(m) && (spec_fixed_bytes(m) is Some || spec_simd_kind(m) is Some)),
{
}

/// The rule of MOVNTI has no slot for a symbol, and the encoder knows
/// the mnemonic.
#[verifier::rlimit(50)]
proof fn lemma_plain_movnti(m: Mnemonic)
    requires
        m == Mnemonic::MOVNTI,
    ensures
        spec_shr_rule(m) is Some,
        no_symbol_slot(spec_shr_rule(m).unwrap().slots),
        m == Mnemonic::CLFLUSH || (!has_family(m) && (spec_fixed_bytes(m) is Some || spec_simd_kind(m) is Some)),
{
}

/// The rule of MOVD has no slot for a symbol, and the encoder knows
/// the mnemonic.
#[verifier::rlimit(50)]
proof fn lemma_plain_movd(m: Mnemonic)
    requires
        m == Mnemonic::MOVD,
    ensures
        spec_shr_rule(m) is Some,
        no_symbol_slot(spec_shr_rule(m).unwrap().slots),
        m == Mnemonic::CLFLUSH || (!has_family(m) && (spec_fixed_bytes(m) is Some || spec_simd_kind(m) is Some)),
{
}

/// The rule of MOVQ has no slot for a symbol, and the encoder knows
/// the mnemonic.
#[verifier::rlimit(50)]
proof fn lemma_plain_movq(m: Mnemonic)
    requires
        m == Mnemonic::MOVQ,
    ensures
        spec_shr_rule(m) is Some,
        no_symbol_slot(spec_shr_rule(m).unwrap().slots),
        m == Mnemonic::CLFLUSH || (!has_family(m) && (spec_fixed_bytes(m) is Some || spec_simd_kind(m) is Some)),
{
}

/// The rule of PSLLW and of the others named has no slot for a symbol, and the encoder knows
/// the mnemonic.
#[verifier::rlimit(50)]
proof fn lemma_plain_psllw(m: Mnemonic)
    requires
        m == Mnemonic::PSLLW || m == Mnemonic::PSLLD || m == Mnemonic::PSLLQ
            || m == Mnemonic::PSRLW || m == Mnemonic::PSRLD || m == Mnemonic::PSRLQ
            || m == Mnemonic::PSRAD || m == Mnemonic::PSRAW,
    ensures
        spec_shr_rule(m) is Some,
        no_symbol_slot(spec_shr_rule(m).unwrap().slots),
        m == Mnemonic::CLFLUSH || (!has_family(m) && (spec_fixed_bytes(m) is Some || spec_simd_kind(m) is Some)),
{
}

/// The rule of PADDB and of the others named has no slot for a symbol, and the encoder knows
/// the mnemonic.
#[verifier::rlimit(50)]
proof fn lemma_plain_paddb(m: Mnemonic)
    requires
        m == Mnemonic::PADDB || m == Mnemonic::PADDW || m == Mnemonic::PADDD
            || m == Mnemonic::PADDQ || m == Mnemonic::PADDSB || m == Mnemonic::PADDSW
            || m == Mnemonic::PSUBB || m == Mnemonic::PSUBW || m == Mnemonic::PSUBD
            || m == Mnemonic::PSUBQ,
    ensures
        spec_shr_rule(m) is Some,
        no_symbol_slot(spec_shr_rule(m).unwrap().slots),
        m == Mnemonic::CLFLUSH || (!has_family(m) && (spec_fixed_bytes(m) is Some || spec_simd_kind(m) is Some)),
{
}

/// The rule of PSUBSB and of the others named has no slot for a symbol, and the encoder knows
/// the mnemonic.
#[verifier::rlimit(50)]
proof fn lemma_plain_psubsb(m: Mnemonic)
    requires
        m == Mnemonic::PSUBSB || m == Mnemonic::PSUBSW || m == Mnemonic::PMULHW
            || m == Mnemonic::PMULLW || m == Mnemonic::PMULUDQ || m == Mnemonic::PMADDWD
            || m == Mnemonic::PCMPGTB || m == Mnemonic::PCMPGTW || m == Mnemonic::PCMPGTD
            || m == Mnemonic::PCMPEQB,
    ensures
        spec_shr_rule(m) is Some,
        no_symbol_slot(spec_shr_rule(m).unwrap().slots),
        m == Mnemonic::CLFLUSH || (!has_family(m) && (spec_fixed_bytes(m) is Some || spec_simd_kind(m) is Some)),
{
}

/// The rule of PCMPEQW and of the others named has no slot for a symbol, and the encoder knows
/// the mnemonic.
#[verifier::rlimit(50)]
proof fn lemma_plain_pcmpeqw(m: Mnemonic)
    requires
        m == Mnemonic::PCMPEQW || m == Mnemonic::PCMPEQD || m == Mnemonic::PACKSSWB
            || m == Mnemonic::PACKSSDW || m == Mnemonic::PACKUSWB || m == Mnemonic::PUNPCKLBW
            || m == Mnemonic::PUNPCKLWD || m == Mnemonic::PUNPCKLDQ || m == Mnemonic::PUNPCKHBW
            || m == Mnemonic::PUNPCKHWD,
    ensures
        spec_shr_rule(m) is Some,
        no_symbol_slot(spec_shr_rule(m).unwrap().slots),
        m == Mnemonic::CLFLUSH || (!has_family(m) && (spec_fixed_bytes(m) is Some || spec_simd_kind(m) is Some)),
{
}

/// The rule of PUNPCKHDQ and of the others named has no slot for a symbol, and the encoder knows
/// the mnemonic.
#[verifier::rlimit(50)]
proof fn lemma_plain_punpckhdq(m: Mnemonic)
    requires
        m == Mnemonic::PUNPCKHDQ || m == Mnemonic::PAND || m == Mnemonic::PANDN
            || m == Mnemonic::POR || m == Mnemonic::PXOR || m == Mnemonic::PABSW
            || m == Mnemonic::PABSD || m == Mnemonic::PABSB || m == Mnemonic::PSIGNW
            || m == Mnemonic::PSIGND,
    ensures
        spec_shr_rule(m) is Some,
        no_symbol_slot(spec_shr_rule(m).unwrap().slots),
        m == Mnemonic::CLFLUSH || (!has_family(m) && (spec_fixed_bytes(m) is Some || spec_simd_kind(m) is Some)),
{
}

/// The rule of PSIGNB and of the others named has no slot for a symbol, and the encoder knows
/// the mnemonic.
#[verifier::rlimit(50)]
proof fn lemma_plain_psignb(m: Mnemonic)
    requires
        m == Mnemonic::PSIGNB || m == Mnemonic::PHSUBW || m == Mnemonic::PHSUBD
            || m == Mnemonic::PHADDW || m == Mnemonic::PHADDD || m == Mnemonic::PSHUFB
            || m == Mnemonic::PHSUBSW || m == Mnemonic::PHADDSW || m == Mnemonic::PMULHRSW
            || m == Mnemonic::PMADDUBSW,
    ensures
        spec_shr_rule(m) is Some,
        no_symbol_slot(spec_shr_rule(m).unwrap().slots),
        m == Mnemonic::CLFLUSH || (!has_family(m) && (spec_fixed_bytes(m) is Some || spec_simd_kind(m) is Some)),
{
}

/// The rule of PSLLDQ and of the others named has no slot for a symbol, and the encoder knows
/// the mnemonic.
#[verifier::rlimit(50)]
proof fn lemma_plain_pslldq(m: Mnemonic)
    requires
        m == Mnemonic::PSLLDQ || m == Mnemonic::PSRLDQ,
    ensures
        spec_shr_rule(m) is Some,
        no_symbol_slot(spec_shr_rule(m).unwrap().slots),
        m == Mnemonic::CLFLUSH || (!has_family(m) && (spec_fixed_bytes(m) is Some || spec_simd_kind(m) is Some)),
{
}

/// The rule of LDDQU and of the others named has no slot for a symbol, and the encoder knows
/// the mnemonic.
#[verifier::rlimit(50)]
proof fn lemma_plain_lddqu(m: Mnemonic)
    requires
        m == Mnemonic::LDDQU || m == Mnemonic::MOVNTDQA,
    ensures
        spec_shr_rule(m) is Some,
        no_symbol_slot(spec_shr_rule(m).unwrap().slots),
        m == Mnemonic::CLFLUSH || (!has_family(m) && (spec_fixed_bytes(m) is Some || spec_simd_kind(m) is Some)),
{
}

/// The rule of PALIGNR has no slot for a symbol, and the encoder knows
/// the mnemonic.
#[verifier::rlimit(50)]
proof fn lemma_plain_palignr(m: Mnemonic)
    requires
        m == Mnemonic::PALIGNR,
    ensures
        spec_shr_rule(m) is Some,
        no_symbol_slot(spec_shr_rule(m).unwrap().slots),
        m == Mnemonic::CLFLUSH || (!has_family(m) && (spec_fixed_bytes(m) is Some || spec_simd_kind(m) is Some)),
{
}

/// The rule of PINSRQ has no slot for a symbol, and the encoder knows
/// the mnemonic.
#[verifier::rlimit(50)]
proof fn lemma_plain_pinsrq(m: Mnemonic)
    requires
        m == Mnemonic::PINSRQ,
    ensures
        spec_shr_rule(m) is Some,
        no_symbol_slot(spec_shr_rule(m).unwrap().slots),
        m == Mnemonic::CLFLUSH || (!has_family(m) && (spec_fixed_bytes(m) is Some || spec_simd_kind(m) is Some)),
{
}

/// The rule of PINSRD has no slot for a symbol, and the encoder knows
/// the mnemonic.
#[verifier::rlimit(50)]
proof fn lemma_plain_pinsrd(m: Mnemonic)
    requires
        m == Mnemonic::PINSRD,
    ensures
        spec_shr_rule(m) is Some,
        no_symbol_slot(spec_shr_rule(m).unwrap().slots),
        m == Mnemonic::CLFLUSH || (!has_family(m) && (spec_fixed_bytes(m) is Some || spec_simd_kind(m) is Some)),
{
}

/// The rule of PINSRB has no slot for a symbol, and the encoder knows
/// the mnemonic.
#[verifier::rlimit(50)]
proof fn lemma_plain_pinsrb(m: Mnemonic)
    requires
        m == Mnemonic::PINSRB,
    ensures
        spec_shr_rule(m) is Some,
        no_symbol_slot(spec_shr_rule(m).unwrap().slots),
        m == Mnemonic::CLFLUSH || (!has_family(m) && (spec_fixed_bytes(m) is Some || spec_simd_kind(m) is Some)),
{
}

/// The rule of PEXTRB has no slot for a symbol, and the encoder knows
/// the mnemonic.
#[verifier::rlimit(50)]
proof fn lemma_plain_pextrb(m: Mnemonic)
    requires
        m == Mnemonic::PEXTRB,
    ensures
        spec_shr_rule(m) is Some,
        no_symbol_slot(spec_shr_rule(m).unwrap().slots),
        m == Mnemonic::CLFLUSH || (!has_family(m) && (spec_fixed_bytes(m) is Some || spec_simd_kind(m) is Some)),
{
}

/// The rule of PEXTRD has no slot for a symbol, and the encoder knows
/// the mnemonic.
#[verifier::rlimit(50)]
proof fn lemma_plain_pextrd(m: Mnemonic)
    requires
        m == Mnemonic::PEXTRD,
    ensures
        spec_shr_rule(m) is Some,
        no_symbol_slot(spec_shr_rule(m).unwrap().slots),
        m == Mnemonic::CLFLUSH || (!has_family(m) && (spec_fixed_bytes(m) is Some || spec_simd_kind(m) is Some)),
{
}

/// The rule of PEXTRQ has no slot for a symbol, and the encoder knows
/// the mnemonic.
#[verifier::rlimit(50)]
proof fn lemma_plain_pextrq(m: Mnemonic)
    requires
        m == Mnemonic::PEXTRQ,
    ensures
        spec_shr_rule(m) is Some,
        no_symbol_slot(spec_shr_rule(m).unwrap().slots),
        m == Mnemonic::CLFLUSH || (!has_family(m) && (spec_fixed_bytes(m) is Some || spec_simd_kind(m) is Some)),
{
}

/// The rule of PEXTRW has no slot for a symbol, and the encoder knows
/// the mnemonic.
#[verifier::rlimit(50)]
proof fn lemma_plain_pextrw(m: Mnemonic)
    requires
        m == Mnemonic::PEXTRW,
    ensures
        spec_shr_rule(m) is Some,
        no_symbol_slot(spec_shr_rule(m).unwrap().slots),
        m == Mnemonic::CLFLUSH || (!has_family(m) && (spec_fixed_bytes(m) is Some || spec_simd_kind(m) is Some)),
{
}

/// The rule of EXTRACTPS has no slot for a symbol, and the encoder knows
/// the mnemonic.
#[verifier::rlimit(50)]
proof fn lemma_plain_extractps(m: Mnemonic)
    requires
        m == Mnemonic::EXTRACTPS,
    ensures
        spec_shr_rule(m) is Some,
        no_symbol_slot(spec_shr_rule(m).unwrap().slots),
        m == Mnemonic::CLFLUSH || (!has_family(m) && (spec_fixed_bytes(m) is Some || spec_simd_kind(m) is Some)),
{
}

/// The rule of POPCNT has no slot for a symbol, and the encoder knows
/// the mnemonic.
#[verifier::rlimit(50)]
proof fn lemma_plain_popcnt(m: Mnemonic)
    requires
        m == Mnemonic::POPCNT,
    ensures
        spec_shr_rule(m) is Some,
        no_symbol_slot(spec_shr_rule(m).unwrap().slots),
        m == Mnemonic::CLFLUSH || (!has_family(m) && (spec_fixed_bytes(m) is Some || spec_simd_kind(m) is Some)),
{
}

/// The rule of CRC32 has no slot for a symbol, and the encoder knows
/// the mnemonic.
#[verifier::rlimit(50)]
proof fn lemma_plain_crc32(m: Mnemonic)
    requires
        m == Mnemonic::CRC32,
    ensures
        spec_shr_rule(m) is Some,
        no_symbol_slot(spec_shr_rule(m).unwrap().slots),
        m == Mnemonic::CLFLUSH || (!has_family(m) && (spec_fixed_bytes(m) is Some || spec_simd_kind(m) is Some)),
{
}

/// No rule of both modes has a slot for a symbol, and each belongs to a
/// mnemonic that the encoder knows.
proof fn lemma_shr_table(m: Mnemonic)
    requires
        spec_shr_rule(m) is Some,
    ensures
        no_symbol_slot(spec_shr_rule(m).unwrap().slots),
        m == Mnemonic::CLFLUSH || (!has_family(m) && (spec_fixed_bytes(m) is Some || spec_simd_kind(m) is Some)),
{
    match m {
        Mnemonic::CLFLUSH => lemma_plain_clflush(m),
        Mnemonic::PAUSE | Mnemonic::LFENCE | Mnemonic::MFENCE | Mnemonic::MONITOR
        | Mnemonic::MWAIT | Mnemonic::EMMS => lemma_plain_pause(m),
        Mnemonic::CVTSS2SI => lemma_plain_cvtss2si(m),
        Mnemonic::CVTPS2PI | Mnemonic::CVTTPS2PI => lemma_plain_cvtps2pi(m),
        Mnemonic::CVTPI2PS | Mnemonic::CVTPI2PD => lemma_plain_cvtpi2ps(m),
        Mnemonic::CVTSI2SS | Mnemonic::CVTSI2SD => lemma_plain_cvtsi2ss(m),
        Mnemonic::CMPSS | Mnemonic::ROUNDSS | Mnemonic::INSERTPS => lemma_plain_cmpss(m),
        Mnemonic::CMPPS | Mnemonic::SHUFPS | Mnemonic::CMPPD | Mnemonic::PSHUFLW
        | Mnemonic::PSHUFHW | Mnemonic::PSHUFD | Mnemonic::DPPS | Mnemonic::DPPD
        | Mnemonic::BLENDPS | Mnemonic::BLENDPD => lemma_plain_cmpps(m),
        Mnemonic::PBLENDW | Mnemonic::ROUNDPS | Mnemonic::ROUNDPD | Mnemonic::MPSADBW
        | Mnemonic::PCMPESTRI | Mnemonic::PCMPESTRM | Mnemonic::PCMPISTRM | Mnemonic::PCMPISTRI => lemma_plain_pblendw(m),
        Mnemonic::CMPSD | Mnemonic::ROUNDSD => lemma_plain_cmpsd(m),
        Mnemonic::MOVHPS | Mnemonic::MOVLPS | Mnemonic::MOVLPD | Mnemonic::MOVHPD
        | Mnemonic::MOVSD => lemma_plain_movhps(m),
        Mnemonic::MOVLHPS | Mnemonic::MOVHLPS | Mnemonic::MASKMOVDQU => lemma_plain_movlhps(m),
        Mnemonic::MOVAPS | Mnemonic::MOVUPS | Mnemonic::MOVAPD | Mnemonic::MOVUPD
        | Mnemonic::MOVDQA => lemma_plain_movaps(m),
        Mnemonic::MOVSS => lemma_plain_movss(m),
        Mnemonic::SQRTSS | Mnemonic::ADDSS | Mnemonic::SUBSS | Mnemonic::DIVSS
        | Mnemonic::MULSS | Mnemonic::RCPSS | Mnemonic::RSQRTSS | Mnemonic::MINSS
        | Mnemonic::MAXSS | Mnemonic::COMISS => lemma_plain_sqrtss(m),
        Mnemonic::UCOMISS | Mnemonic::CVTSS2SD => lemma_plain_ucomiss(m),
        Mnemonic::ADDPS | Mnemonic::SUBPS | Mnemonic::DIVPS | Mnemonic::MULPS | Mnemonic::RCPPS
        | Mnemonic::SQRTPS | Mnemonic::RSQRTPS | Mnemonic::MINPS | Mnemonic::MAXPS
        | Mnemonic::ORPS => lemma_plain_addps(m),
        Mnemonic::ANDPS | Mnemonic::ANDNPS | Mnemonic::XORPS | Mnemonic::UNPCKLPS
        | Mnemonic::UNPCKHPS | Mnemonic::ADDPD | Mnemonic::SUBPD | Mnemonic::DIVPD
        | Mnemonic::MULPD | Mnemonic::SQRTPD => lemma_plain_andps(m),
        Mnemonic::MINPD | Mnemonic::MAXPD | Mnemonic::ORPD | Mnemonic::ANDPD | Mnemonic::ANDNPD
        | Mnemonic::XORPD | Mnemonic::CVTPS2DQ | Mnemonic::CVTTPS2DQ | Mnemonic::CVTDQ2PS
        | Mnemonic::CVTPD2PS => lemma_plain_minpd(m),
        Mnemonic::PUNPCKHQDQ | Mnemonic::PUNPCKLQDQ | Mnemonic::ADDSUBPD | Mnemonic::ADDSUBPS
        | Mnemonic::HADDPD | Mnemonic::HADDPS | Mnemonic::HSUBPS | Mnemonic::HSUBPD
        | Mnemonic::MOVSLDUP | Mnemonic::MOVSHDUP => lemma_plain_punpckhqdq(m),
        Mnemonic::PTEST | Mnemonic::PMAXSB | Mnemonic::PMAXSD | Mnemonic::PMAXUW
        | Mnemonic::PMINSD | Mnemonic::PMINSB | Mnemonic::PMINUW | Mnemonic::PMULDQ
        | Mnemonic::PMULLD | Mnemonic::PCMPEQQ => lemma_plain_ptest(m),
        Mnemonic::PCMPGTQ | Mnemonic::BLENDVPS | Mnemonic::BLENDVPD | Mnemonic::PBLENDVB
        | Mnemonic::PACKUSDW | Mnemonic::PHMINPOSUW => lemma_plain_pcmpgtq(m),
        Mnemonic::SQRTSD | Mnemonic::ADDSD | Mnemonic::SUBSD | Mnemonic::DIVSD
        | Mnemonic::MULSD | Mnemonic::MINSD | Mnemonic::COMISD | Mnemonic::UCOMISD
        | Mnemonic::MAXSD | Mnemonic::CVTDQ2PD => lemma_plain_sqrtsd(m),
        Mnemonic::CVTPS2PD | Mnemonic::CVTSD2SS | Mnemonic::MOVDDUP => lemma_plain_cvtps2pd(m),
        Mnemonic::CVTPD2PI | Mnemonic::CVTTPD2PI => lemma_plain_cvtpd2pi(m),
        Mnemonic::MOVDQ2Q => lemma_plain_movdq2q(m),
        Mnemonic::MOVMSKPD => lemma_plain_movmskpd(m),
        Mnemonic::CVTSD2SI | Mnemonic::CVTTSD2SI => lemma_plain_cvtsd2si(m),
        Mnemonic::MOVNTDQ | Mnemonic::MOVNTPD => lemma_plain_movntdq(m),
        Mnemonic::MOVNTI => lemma_plain_movnti(m),
        Mnemonic::MOVD => lemma_plain_movd(m),
        Mnemonic::MOVQ => lemma_plain_movq(m),
        Mnemonic::PSLLW | Mnemonic::PSLLD | Mnemonic::PSLLQ | Mnemonic::PSRLW | Mnemonic::PSRLD
        | Mnemonic::PSRLQ | Mnemonic::PSRAD | Mnemonic::PSRAW => lemma_plain_psllw(m),
        Mnemonic::PADDB | Mnemonic::PADDW | Mnemonic::PADDD | Mnemonic::PADDQ
        | Mnemonic::PADDSB | Mnemonic::PADDSW | Mnemonic::PSUBB | Mnemonic::PSUBW
        | Mnemonic::PSUBD | Mnemonic::PSUBQ => lemma_plain_paddb(m),
        Mnemonic::PSUBSB | Mnemonic::PSUBSW | Mnemonic::PMULHW | Mnemonic::PMULLW
        | Mnemonic::PMULUDQ | Mnemonic::PMADDWD | Mnemonic::PCMPGTB | Mnemonic::PCMPGTW
        | Mnemonic::PCMPGTD | Mnemonic::PCMPEQB => lemma_plain_psubsb(m),
        Mnemonic::PCMPEQW | Mnemonic::PCMPEQD | Mnemonic::PACKSSWB | Mnemonic::PACKSSDW
        | Mnemonic::PACKUSWB | Mnemonic::PUNPCKLBW | Mnemonic::PUNPCKLWD | Mnemonic::PUNPCKLDQ
        | Mnemonic::PUNPCKHBW | Mnemonic::PUNPCKHWD => lemma_plain_pcmpeqw(m),
        Mnemonic::PUNPCKHDQ | Mnemonic::PAND | Mnemonic::PANDN | Mnemonic::POR | Mnemonic::PXOR
        | Mnemonic::PABSW | Mnemonic::PABSD | Mnemonic::PABSB | Mnemonic::PSIGNW
        | Mnemonic::PSIGND => lemma_plain_punpckhdq(m),
        Mnemonic::PSIGNB | Mnemonic::PHSUBW | Mnemonic::PHSUBD | Mnemonic::PHADDW
        | Mnemonic::PHADDD | Mnemonic::PSHUFB | Mnemonic::PHSUBSW | Mnemonic::PHADDSW
        | Mnemonic::PMULHRSW | Mnemonic::PMADDUBSW => lemma_plain_psignb(m),
        Mnemonic::PSLLDQ | Mnemonic::PSRLDQ => lemma_plain_pslldq(m),
        Mnemonic::LDDQU | Mnemonic::MOVNTDQA => lemma_plain_lddqu(m),
        Mnemonic::PALIGNR => lemma_plain_palignr(m),
        Mnemonic::PINSRQ => lemma_plain_pinsrq(m),
        Mnemonic::PINSRD => lemma_plain_pinsrd(m),
        Mnemonic::PINSRB => lemma_plain_pinsrb(m),
        Mnemonic::PEXTRB => lemma_plain_pextrb(m),
        Mnemonic::PEXTRD => lemma_plain_pextrd(m),
        Mnemonic::PEXTRQ => lemma_plain_pextrq(m),
        Mnemonic::PEXTRW => lemma_plain_pextrw(m),
        Mnemonic::EXTRACTPS => lemma_plain_extractps(m),
        Mnemonic::POPCNT => lemma_plain_popcnt(m),
        Mnemonic::CRC32 => lemma_plain_crc32(m),
        _ => {},
    }
}

/// What the rules of both modes let pass, the encoder takes.
pub proof fn lemma_shr_checked(ins: &Instruction)
    requires
        spec_shr_chk(ins) is None,
    ensures
        encodable(*ins),
{
    let r = spec_shr_rule(ins.mnem).unwrap();
    lemma_shr_table(ins.mnem);
    lemma_ot_passed(ins, r.slots, r.forb, &[]);
    lemma_no_symbol(ins, r.slots, r.forb);
}

} // verus!
