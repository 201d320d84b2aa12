use rasmx86_64::enc::comp::compile_instruction;
use rasmx86_64::pre::chk::addt_chk;
use rasmx86_64::pre::chk::check_ast;
use rasmx86_64::pre::chk::check_ins32bit;
use rasmx86_64::pre::chk::check_ins64bit;
use rasmx86_64::pre::chk::find;
use rasmx86_64::pre::chk::find_bool;
use rasmx86_64::pre::chk::forb_chk;
use rasmx86_64::pre::chk::operand_check;
use rasmx86_64::pre::chk::ot_chk;
use rasmx86_64::pre::chk::shr_chk;
use rasmx86_64::pre::chk::size_chk;
use rasmx86_64::pre::chk::type_check;
use rasmx86_64::pre::chk::Optional;
use rasmx86_64::shr::ast::Instruction;
use rasmx86_64::shr::ast::Label;
use rasmx86_64::shr::ast::Operand;
use rasmx86_64::shr::ast::AST;
use rasmx86_64::shr::atype::AType;
use rasmx86_64::shr::error::ExceptionType;
use rasmx86_64::shr::error::RASMError;
use rasmx86_64::shr::ins::Mnemonic;
use rasmx86_64::shr::mem::Mem;
use rasmx86_64::shr::num::Number;
use rasmx86_64::shr::reg::Register;
use rasmx86_64::shr::size::Size;

fn ins(mnem: Mnemonic, oprs: Vec<Operand>) -> Instruction {
    Instruction { mnem, oprs, line: 7, addt: None }
}

fn reg(r: Register) -> Operand {
    Operand::Reg(r)
}

fn imm8(v: u8) -> Operand {
    Operand::Imm(Number::UInt8(v))
}

fn mem(r: Register, s: Size) -> Operand {
    Operand::Mem(Mem::Base(r, s))
}

fn msg(e: &Option<RASMError>) -> String {
    e.as_ref().unwrap().get_msg().unwrap().clone()
}

#[test]
fn scenarios_pass_the_checker() {
    let all = vec![
        ins(Mnemonic::MOV, vec![reg(Register::EAX), imm8(1)]),
        ins(Mnemonic::MOV, vec![reg(Register::RAX), imm8(1)]),
        ins(Mnemonic::ADD, vec![reg(Register::RAX), reg(Register::RBX)]),
        ins(Mnemonic::ADD, vec![reg(Register::R8), reg(Register::R9)]),
        ins(Mnemonic::SUB, vec![reg(Register::RSP), imm8(8)]),
        ins(Mnemonic::PUSH, vec![reg(Register::RBP)]),
        ins(Mnemonic::XOR, vec![reg(Register::EAX), reg(Register::EAX)]),
        ins(Mnemonic::LEA, vec![reg(Register::RDI), Operand::SymbolRef("msg".to_string())]),
        ins(Mnemonic::JMP, vec![Operand::SymbolRef("label".to_string())]),
        ins(Mnemonic::PADDW, vec![reg(Register::MM0), reg(Register::MM1)]),
        ins(Mnemonic::PADDW, vec![reg(Register::XMM0), reg(Register::XMM1)]),
        ins(Mnemonic::MOVSS, vec![reg(Register::XMM0), reg(Register::XMM1)]),
        ins(Mnemonic::RET, vec![]),
        ins(Mnemonic::SYSCALL, vec![]),
        ins(Mnemonic::SHL, vec![reg(Register::RAX), reg(Register::CL)]),
        ins(Mnemonic::SHL, vec![reg(Register::RAX), imm8(3)]),
        ins(Mnemonic::SHUFPS, vec![reg(Register::XMM0), reg(Register::XMM1), imm8(1)]),
        ins(Mnemonic::MOV, vec![mem(Register::RAX, Size::Dword), Operand::Imm(Number::UInt64(5))]),
        ins(Mnemonic::CLFLUSH, vec![mem(Register::RAX, Size::Byte)]),
    ];
    for i in &all {
        assert!(check_ins64bit(i).is_none());
        let (bytes, _) = compile_instruction(i, 64);
        assert!(!bytes.is_empty() && bytes.len() <= 15);
    }
}

#[test]
fn what_passes_in_32_bit_mode_is_encoded() {
    let all = vec![
        ins(Mnemonic::MOV, vec![reg(Register::EAX), imm8(1)]),
        ins(Mnemonic::ADD, vec![reg(Register::EAX), mem(Register::EBX, Size::Dword)]),
        ins(Mnemonic::PUSH, vec![reg(Register::EBP)]),
        ins(Mnemonic::JMP, vec![reg(Register::EAX)]),
        ins(Mnemonic::PADDW, vec![reg(Register::MM0), reg(Register::MM1)]),
        ins(Mnemonic::PUSHFD, vec![]),
    ];
    for i in &all {
        assert!(check_ins32bit(i).is_none());
        let (bytes, _) = compile_instruction(i, 32);
        assert!(!bytes.is_empty() && bytes.len() <= 15);
    }
}

#[test]
fn rex_is_refused_in_32_bit_mode() {
    let e = check_ins32bit(&ins(Mnemonic::MOV, vec![reg(Register::RAX), imm8(1)]));
    assert_eq!(
        msg(&e),
        "Instruction needs rex prefix, which is forbidden in protected/compat. mode (bits 32)"
    );
    assert_eq!(e.as_ref().unwrap().get_line(), Some(&7));
    assert_eq!(e.unwrap().get_type(), ExceptionType::Error);
    assert!(check_ins32bit(&ins(Mnemonic::MOV, vec![reg(Register::R8D), imm8(1)])).is_some());
    assert!(check_ins32bit(&ins(Mnemonic::MOV, vec![reg(Register::SIL), imm8(1)])).is_some());
    assert!(check_ins32bit(&ins(Mnemonic::ADDPS, vec![reg(Register::XMM8), reg(Register::XMM1)])).is_some());
}

#[test]
fn movq_is_refused_in_32_bit_mode() {
    let e = check_ins32bit(&ins(Mnemonic::MOVQ, vec![reg(Register::MM0), reg(Register::MM1)]));
    assert_eq!(msg(&e), "Instruction unsupported in 32-bit mode");
}

#[test]
fn syscall_is_refused_in_32_bit_mode() {
    let e = check_ins32bit(&ins(Mnemonic::SYSCALL, vec![]));
    assert_eq!(msg(&e), "Instruction unsupported in 32-bit mode");
    assert!(check_ins32bit(&ins(Mnemonic::SYSCALL, vec![reg(Register::EAX)])).is_some());
    assert!(check_ins64bit(&ins(Mnemonic::SYSCALL, vec![])).is_none());
    // 64-bit registers are refused also where they take no REX.W
    assert!(check_ins32bit(&ins(Mnemonic::PUSH, vec![reg(Register::RAX)])).is_some());
    assert!(check_ins32bit(&ins(Mnemonic::MOV, vec![reg(Register::RAX), Operand::SegReg(Register::DS)])).is_some());
    assert!(check_ins32bit(&ins(Mnemonic::MOV, vec![reg(Register::RAX), Operand::CtrReg(Register::CR0)])).is_some());
}

#[test]
fn unsupported_mnemonic() {
    let e = shr_chk(&ins(Mnemonic::VPMAXUB, vec![]));
    assert_eq!(msg(&e), "Tried to use currently unsupported instruction.");
    assert!(check_ins64bit(&ins(Mnemonic::LOCK, vec![])).is_some());
    assert!(check_ins32bit(&ins(Mnemonic::PUSHFQ, vec![])).is_some());
    assert!(check_ins64bit(&ins(Mnemonic::PUSHFD, vec![])).is_some());
}

#[test]
fn operand_type_mismatch() {
    let e = check_ins64bit(&ins(Mnemonic::PUSH, vec![reg(Register::EAX)]));
    assert_eq!(msg(&e), "Destination operand doesn't match any of expected types");
    assert_eq!(
        e.unwrap().get_tip().unwrap(),
        "Consider changing destination operand to expected type or removing instruction"
    );
    let e = check_ins64bit(&ins(Mnemonic::ADDPS, vec![reg(Register::XMM0), reg(Register::RAX)]));
    assert_eq!(msg(&e), "Source operand doesn't match any of expected types");
    let e = check_ins64bit(&ins(
        Mnemonic::SHUFPS,
        vec![reg(Register::XMM0), reg(Register::XMM1), reg(Register::XMM2)],
    ));
    assert_eq!(msg(&e), "Operand doesn't match any of expected types");
    // memory is no immediate
    assert!(check_ins64bit(&ins(Mnemonic::PUSH, vec![mem(Register::RAX, Size::Byte)])).is_some());
    // a symbol stands only where a rule names one
    assert!(check_ins64bit(&ins(Mnemonic::MOV, vec![reg(Register::RAX), Operand::SymbolRef("x".to_string())])).is_some());
}

#[test]
fn missing_and_surplus_operands() {
    let e = check_ins64bit(&ins(Mnemonic::PUSH, vec![]));
    assert_eq!(msg(&e), "Needed operand not found");
    let e = check_ins64bit(&ins(Mnemonic::RET, vec![reg(Register::RAX)]));
    assert_eq!(msg(&e), "Instruction doesn't accept any operand, but you tried to use one anyways");
    let e = check_ins64bit(&ins(Mnemonic::PUSH, vec![reg(Register::RAX), reg(Register::RBX)]));
    assert_eq!(msg(&e), "Instruction has more operands than it accepts");
    // optional operands may be missing
    assert!(check_ins64bit(&ins(Mnemonic::IMUL, vec![reg(Register::RAX)])).is_none());
    assert!(check_ins64bit(&ins(Mnemonic::IMUL, vec![reg(Register::RAX), reg(Register::RBX)])).is_none());
    assert!(
        check_ins64bit(&ins(Mnemonic::IMUL, vec![reg(Register::RAX), reg(Register::RBX), imm8(3)])).is_none()
    );
}

#[test]
fn size_mismatch() {
    let e = check_ins64bit(&ins(Mnemonic::MOV, vec![reg(Register::AL), Operand::Imm(Number::UInt16(0x1234))]));
    assert_eq!(msg(&e), "Tried to use immediate that is too large for destination operand");
    let e = check_ins64bit(&ins(Mnemonic::ADD, vec![reg(Register::RAX), reg(Register::EBX)]));
    assert_eq!(msg(&e), "Tried to use operand that cannot be used for destination operand");
    // a wide literal with a small value is squeezed
    assert!(
        check_ins64bit(&ins(Mnemonic::MOV, vec![reg(Register::AL), Operand::Imm(Number::UInt64(0x12))])).is_none()
    );
    // a control register is not held against the other operand
    assert!(
        check_ins64bit(&ins(Mnemonic::MOV, vec![reg(Register::RAX), Operand::CtrReg(Register::CR0)])).is_none()
    );
    // memory of unknown width with an immediate is ambiguous
    assert!(check_ins64bit(&ins(Mnemonic::MOV, vec![mem(Register::RAX, Size::Any), imm8(1)])).is_some());
    // memory of unknown width with a register is not
    assert!(
        check_ins64bit(&ins(Mnemonic::MOV, vec![mem(Register::RAX, Size::Any), reg(Register::EBX)])).is_none()
    );
}

#[test]
fn forbidden_pairs() {
    let e = check_ins64bit(&ins(
        Mnemonic::MOV,
        vec![mem(Register::RAX, Size::Qword), mem(Register::RBX, Size::Qword)],
    ));
    assert_eq!(msg(&e), "Destination and Source operand have forbidden combination");
    assert!(
        check_ins64bit(&ins(
            Mnemonic::MOV,
            vec![Operand::SegReg(Register::DS), Operand::SegReg(Register::ES)]
        ))
        .is_some()
    );
    assert!(
        check_ins64bit(&ins(Mnemonic::PADDW, vec![reg(Register::XMM0), reg(Register::MM1)])).is_some()
    );
    assert!(
        check_ins64bit(&ins(Mnemonic::PADDW, vec![reg(Register::MM0), mem(Register::RAX, Size::Xword)]))
            .is_some()
    );
}

#[test]
fn modifiers() {
    let mut i = ins(Mnemonic::ADD, vec![reg(Register::RAX), reg(Register::RBX)]);
    i.addt = Some(vec![Mnemonic::LOCK]);
    let e = check_ins64bit(&i);
    assert_eq!(msg(&e), "Use of forbidden additional mnemonic");
    assert!(addt_chk(&i, &[Mnemonic::LOCK]).is_none());
    assert!(addt_chk(&i, &[Mnemonic::REP]).is_some());
    i.addt = Some(vec![]);
    assert!(check_ins64bit(&i).is_none());
}

#[test]
fn shifts_are_checked() {
    let e = check_ins64bit(&ins(Mnemonic::SHL, vec![reg(Register::RAX), Operand::Imm(Number::UInt16(300))]));
    assert_eq!(msg(&e), "Expected to found 8-bit number, found larger one instead");
    let e = check_ins64bit(&ins(Mnemonic::SHL, vec![reg(Register::RAX), reg(Register::BL)]));
    assert_eq!(msg(&e), "Source operand type mismatch, expected 8-bit number or cl register");
    let e = check_ins64bit(&ins(Mnemonic::SHL, vec![reg(Register::RAX)]));
    assert_eq!(msg(&e), "Expected source operand, found nothing");
    let e = check_ins64bit(&ins(Mnemonic::SHL, vec![]));
    assert_eq!(msg(&e), "Expected destination operand, found nothing");
    let e = check_ins64bit(&ins(Mnemonic::SAR, vec![reg(Register::XMM0), imm8(1)]));
    assert_eq!(msg(&e), "Destination operand doesn't match any of expected types");
    let e = check_ins64bit(&ins(Mnemonic::SAR, vec![reg(Register::RAX), imm8(1), imm8(1)]));
    assert_eq!(msg(&e), "Instruction has more operands than it accepts");
    assert!(check_ins32bit(&ins(Mnemonic::SHR, vec![reg(Register::EAX), imm8(1)])).is_none());
}

#[test]
fn operand_presence() {
    let none = ins(Mnemonic::NOP, vec![]);
    let one = ins(Mnemonic::NOP, vec![reg(Register::RAX)]);
    let two = ins(Mnemonic::NOP, vec![reg(Register::RAX), reg(Register::RBX)]);
    assert!(operand_check(&none, (false, false)).is_none());
    assert!(operand_check(&one, (true, false)).is_none());
    assert!(operand_check(&two, (true, true)).is_none());
    assert_eq!(
        msg(&operand_check(&one, (false, false))),
        "Unexpected destination operand found: expected none, found some"
    );
    assert_eq!(
        msg(&operand_check(&two, (true, false))),
        "Unexpected source operand found: expected none, found some"
    );
    assert!(operand_check(&two, (true, false)).unwrap().get_line().is_none());
}

#[test]
fn helpers() {
    assert!(find(&[AType::R8, AType::M64], AType::M64));
    assert!(find(&[AType::R8, AType::M64], AType::MA));
    assert!(find(&[AType::MA], AType::M16));
    assert!(!find(&[AType::R8, AType::M64], AType::I8));
    assert!(!find(&[AType::I8], AType::M8));
    assert!(!find(&[], AType::M8));
    assert!(find_bool(&[Mnemonic::LOCK, Mnemonic::REP], &Mnemonic::REP));
    assert!(!find_bool(&[Mnemonic::LOCK], &Mnemonic::REP));
    assert!(type_check(&reg(Register::RAX), &[AType::R64], 0).is_none());
    assert!(type_check(&reg(Register::RAX), &[AType::R32], 0).is_some());
    assert!(type_check(&Operand::Imm(Number::UInt64(3)), &[AType::I8], 2).is_none());
    assert!(type_check(&Operand::Imm(Number::UInt64(300)), &[AType::I8], 2).is_some());
    let i = ins(Mnemonic::MOV, vec![reg(Register::RAX), reg(Register::EBX)]);
    assert!(size_chk(&i).is_some());
    assert!(forb_chk(&i, &[(AType::R64, AType::R32)]).is_some());
    assert!(forb_chk(&i, &[(AType::R32, AType::R64)]).is_none());
    assert!(ot_chk(&i, &[(&[AType::R64], Optional::Needed), (&[AType::R32], Optional::Needed)], &[], &[]).is_some());
    assert!(
        ot_chk(
            &i,
            &[
                (&[AType::R64], Optional::Needed),
                (&[AType::R32], Optional::Needed),
                (&[AType::I8], Optional::Optional)
            ],
            &[],
            &[]
        )
        .is_none()
    );
}

#[test]
fn whole_file() {
    let good = Label {
        name: "start".to_string(),
        inst: vec![ins(Mnemonic::PUSH, vec![reg(Register::RBP)]), ins(Mnemonic::RET, vec![])],
    };
    let mut bad1 = ins(Mnemonic::PUSH, vec![reg(Register::EAX)]);
    bad1.line = 11;
    let mut bad2 = ins(Mnemonic::RET, vec![reg(Register::EAX)]);
    bad2.line = 13;
    let bad = Label { name: "broken".to_string(), inst: vec![bad1, ins(Mnemonic::NOP, vec![]), bad2] };
    let file = AST {
        bits: Some(64),
        labels: vec![good.clone(), bad.clone(), good.clone()],
        globals: vec![],
        externs: vec![],
        variables: vec![],
    };
    let r = check_ast(&file).unwrap();
    assert_eq!(r.len(), 1);
    assert_eq!(r[0].0, "broken");
    assert_eq!(r[0].1.len(), 2);
    assert_eq!(r[0].1[0].get_line(), Some(&11));
    assert_eq!(r[0].1[1].get_line(), Some(&13));
    let clean = AST { bits: Some(64), labels: vec![good.clone()], globals: vec![], externs: vec![], variables: vec![] };
    assert!(check_ast(&clean).is_none());
    // anything but 64 is checked by the rules of 32-bit mode
    let narrow = AST { bits: None, labels: vec![good], globals: vec![], externs: vec![], variables: vec![] };
    assert!(check_ast(&narrow).is_some());
}

#[test]
fn errors() {
    let mut e = RASMError::no_tip(None, Some("m"));
    assert!(e.get_line().is_none());
    assert!(e.get_tip().is_none());
    assert_eq!(e.get_msg().unwrap(), "m");
    e.set_line(4);
    assert_eq!(e.get_line(), Some(&4));
    assert_eq!(e.get_msg().unwrap(), "m");
    let e = RASMError::with_tip(Some(2), None, Some("t"));
    assert_eq!(e.get_line(), Some(&2));
    assert!(e.get_msg().is_none());
    assert_eq!(e.get_tip().unwrap(), "t");
    assert_eq!(e.get_type(), ExceptionType::Error);
    assert_eq!(rasmx86_64::shr::error::Blank.to_string(), "");
}
