use rasmx86_64::enc::api::GenAPI;
use rasmx86_64::enc::api::OpOrd;
use rasmx86_64::enc::vex::andn;
use rasmx86_64::enc::vex::gen_vex;
use rasmx86_64::enc::vex::gen_vex4v;
use rasmx86_64::enc::vex::gen_vex_norm;
use rasmx86_64::enc::vex::needs_vex3;
use rasmx86_64::enc::vex::vex;
use rasmx86_64::enc::vex::vex2;
use rasmx86_64::enc::vex::vex_modrm;
use rasmx86_64::enc::vex::vex_modrm_norm;
use rasmx86_64::shr::ast::Instruction;
use rasmx86_64::shr::ast::Operand;
use rasmx86_64::shr::ins::Mnemonic;
use rasmx86_64::shr::mem::Mem;
use rasmx86_64::shr::num::Number;
use rasmx86_64::shr::reg::Register;
use rasmx86_64::shr::size::Size;

fn ins(mnem: Mnemonic, oprs: Vec<Operand>) -> Instruction {
    Instruction { mnem, oprs, line: 1, addt: None }
}

#[test]
fn vex_asserts() {
    let reg = gen_vex4v(Some(&Operand::Reg(Register::XMM9)));
    println!("{:08b}", reg);
    assert!(gen_vex4v(Some(&Operand::Reg(Register::XMM9))) == 0b0110);
    let reg = gen_vex4v(Some(&Operand::Reg(Register::XMM0)));
    println!("{:08b}", reg);
    assert!(gen_vex4v(Some(&Operand::Reg(Register::XMM0))) == 0b1111);
}

#[test]
fn vvvv_of_other_operands() {
    assert_eq!(gen_vex4v(None), 0b1111);
    assert_eq!(gen_vex4v(Some(&Operand::Imm(Number::UInt8(3)))), 0b1111);
    assert_eq!(gen_vex4v(Some(&Operand::Reg(Register::YMM15))), 0b0000);
    assert_eq!(gen_vex4v(Some(&Operand::Reg(Register::XMM7))), 0b1000);
}

#[test]
fn andn_clears_bits() {
    assert_eq!(andn(0b1001, 0b1111), 0b0110);
    assert_eq!(andn(1, 1), 0);
    assert_eq!(andn(0, 1), 1);
}

#[test]
fn extension_bits() {
    assert_eq!(needs_vex3(None), (false, false));
    assert_eq!(needs_vex3(Some(&Operand::Reg(Register::XMM3))), (false, false));
    assert_eq!(needs_vex3(Some(&Operand::Reg(Register::XMM12))), (true, false));
    let m = Operand::Mem(Mem::SIB(Register::RAX, Register::R9, rasmx86_64::shr::mem::Scale::One, Size::Xword));
    assert_eq!(needs_vex3(Some(&m)), (false, true));
}

#[test]
fn two_byte_prefix() {
    assert_eq!(vex2(true, 0b1111, false, 0), [0xC5, 0xF8]);
    assert_eq!(vex2(true, 0b1110, true, 1), [0xC5, 0xF5]);
    assert_eq!(vex2(false, 0, false, 3), [0xC5, 0x03]);
}

#[test]
fn vaddps_like_prefixes() {
    // three XMM operands in the map of 0Fh: C5 F0 for vvvv = xmm1
    let i = ins(
        Mnemonic::VPMAXUB,
        vec![Operand::Reg(Register::XMM0), Operand::Reg(Register::XMM1), Operand::Reg(Register::XMM2)],
    );
    assert_eq!(gen_vex(&i, 0, 0x0F, true, false), Some(vec![0xC5, 0xF0]));
    assert_eq!(gen_vex(&i, 0x66, 0x0F, true, false), Some(vec![0xC5, 0xF1]));
    // the maps of 0F 38 and 0F 3A take three bytes, whatever the mnemonic
    assert_eq!(gen_vex(&i, 0x66, 0x38, true, false), Some(vec![0xC4, 0xE2, 0x71]));
    assert_eq!(gen_vex(&i, 0x66, 0x3A, true, false), Some(vec![0xC4, 0xE3, 0x71]));
    let j = ins(
        Mnemonic::VINSERTF128,
        vec![Operand::Reg(Register::YMM0), Operand::Reg(Register::YMM1), Operand::Reg(Register::XMM2)],
    );
    assert_eq!(gen_vex(&j, 0x66, 0x3A, true, false), Some(vec![0xC4, 0xE3, 0x75]));
    // an extended register in ModR/M.rm takes three bytes
    let k = ins(
        Mnemonic::VPMAXUB,
        vec![Operand::Reg(Register::XMM0), Operand::Reg(Register::XMM1), Operand::Reg(Register::XMM10)],
    );
    assert_eq!(gen_vex(&k, 0x66, 0x0F, true, false), Some(vec![0xC4, 0xC1, 0x71]));
    // VEX.W takes three bytes
    assert_eq!(gen_vex(&i, 0xF3, 0x0F, true, true), Some(vec![0xC4, 0xE1, 0xF2]));
    assert_eq!(
        gen_vex_norm(&i, 0, 0x0F, true, false, i.dst(), i.src(), i.src2()),
        gen_vex(&i, 0, 0x0F, true, false)
    );
}

#[test]
fn prefix_by_description() {
    let i = ins(
        Mnemonic::VPMAXUB,
        vec![Operand::Reg(Register::XMM0), Operand::Reg(Register::XMM1), Operand::Reg(Register::XMM2)],
    );
    let ctx = GenAPI::new([OpOrd::MODRM_REG, OpOrd::VEX_VVVV, OpOrd::MODRM_RM]).vex(1, 1, false);
    assert_eq!(vex(&i, &ctx), Some(vec![0xC5, 0xF1]));
    let ctx = GenAPI::new([OpOrd::MODRM_REG, OpOrd::VEX_VVVV, OpOrd::MODRM_RM]).vex(1, 2, false).vlength(true);
    assert_eq!(vex(&i, &ctx), Some(vec![0xC4, 0xE2, 0x75]));
    let ctx = GenAPI::new([OpOrd::VEX_VVVV, OpOrd::MODRM_RM, OpOrd::NONE]).vex(0, 1, false);
    assert_eq!(vex(&i, &ctx), Some(vec![0xC5, 0xF8]));
}

#[test]
fn vex_modrm_bytes() {
    let i = ins(
        Mnemonic::VPMAXUB,
        vec![Operand::Reg(Register::XMM0), Operand::Reg(Register::XMM1), Operand::Reg(Register::XMM2)],
    );
    assert_eq!(vex_modrm(&i, None, None, true), 0xC2);
    assert_eq!(vex_modrm(&i, None, None, false), 0xD0);
    assert_eq!(vex_modrm(&i, Some(3), None, true), 0xDA);
    assert_eq!(vex_modrm(&i, None, Some(5), true), 0xC5);
    let m = ins(
        Mnemonic::VPMAXUB,
        vec![
            Operand::Reg(Register::XMM3),
            Operand::Reg(Register::XMM1),
            Operand::Mem(Mem::BaseOffset(Register::RAX, 8, Size::Xword)),
        ],
    );
    assert_eq!(vex_modrm(&m, None, None, false), 0x58);
    assert_eq!(vex_modrm_norm(&m, None, None, false, m.dst(), m.src2()), 0x58);
    let s = ins(
        Mnemonic::VPMAXUB,
        vec![
            Operand::Reg(Register::XMM3),
            Operand::Reg(Register::XMM1),
            Operand::Mem(Mem::Base(Register::RSP, Size::Xword)),
        ],
    );
    assert_eq!(vex_modrm(&s, None, None, true), 0x1C);
}
