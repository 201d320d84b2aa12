use rasmx86_64::enc::comp::compile_instruction;
use rasmx86_64::enc::comp::extend_imm;
use rasmx86_64::enc::comp::gen_base;
use rasmx86_64::enc::comp::gen_ins;
use rasmx86_64::enc::comp::bs_imm;
use rasmx86_64::enc::comp::gen_ins_wpref;
use rasmx86_64::enc::modrm::gen_modrm;
use rasmx86_64::enc::rex::gen_rex;
use rasmx86_64::enc::sib::gen_sib;
use rasmx86_64::enc::disp::gen_disp;
use rasmx86_64::shr::ast::Instruction;
use rasmx86_64::shr::ast::Operand;
use rasmx86_64::shr::ins::Mnemonic;
use rasmx86_64::shr::mem::Mem;
use rasmx86_64::shr::mem::Scale;
use rasmx86_64::shr::num::Number;
use rasmx86_64::shr::reg::Register;
use rasmx86_64::shr::reloc::RCategory;
use rasmx86_64::shr::reloc::RType;
use rasmx86_64::shr::segment::Segment;
use rasmx86_64::shr::size::Size;

fn ins(mnem: Mnemonic, oprs: Vec<Operand>) -> Instruction {
    Instruction { mnem, oprs, line: 1, addt: None }
}

fn reg(r: Register) -> Operand {
    Operand::Reg(r)
}

fn imm8(v: u8) -> Operand {
    Operand::Imm(Number::UInt8(v))
}

fn sym(s: &str) -> Operand {
    Operand::SymbolRef(s.to_string())
}

fn enc(mnem: Mnemonic, oprs: Vec<Operand>) -> Vec<u8> {
    compile_instruction(&ins(mnem, oprs), 64).0
}

#[test]
fn mov_eax_1() {
    assert_eq!(enc(Mnemonic::MOV, vec![reg(Register::EAX), imm8(1)]), vec![0xB8, 0x01, 0x00, 0x00, 0x00]);
}

#[test]
fn mov_rax_1() {
    assert_eq!(
        enc(Mnemonic::MOV, vec![reg(Register::RAX), imm8(1)]),
        vec![0x48, 0xC7, 0xC0, 0x01, 0x00, 0x00, 0x00]
    );
}

#[test]
fn mov_rax_imm64() {
    assert_eq!(
        enc(Mnemonic::MOV, vec![reg(Register::RAX), Operand::Imm(Number::UInt64(0x1122334455667788))]),
        vec![0x48, 0xB8, 0x88, 0x77, 0x66, 0x55, 0x44, 0x33, 0x22, 0x11]
    );
}

#[test]
fn mov_r8d_imm() {
    assert_eq!(
        enc(Mnemonic::MOV, vec![reg(Register::R8D), imm8(1)]),
        vec![0x41, 0xB8, 0x01, 0x00, 0x00, 0x00]
    );
}

#[test]
fn mov_ax_imm() {
    assert_eq!(
        enc(Mnemonic::MOV, vec![reg(Register::AX), Operand::Imm(Number::UInt16(0x1234))]),
        vec![0x66, 0xB8, 0x34, 0x12]
    );
}

#[test]
fn mov_al_imm() {
    assert_eq!(enc(Mnemonic::MOV, vec![reg(Register::AL), imm8(0x7F)]), vec![0xB0, 0x7F]);
}

#[test]
fn mov_reg_reg_and_mem() {
    assert_eq!(enc(Mnemonic::MOV, vec![reg(Register::RAX), reg(Register::RBX)]), vec![0x48, 0x89, 0xD8]);
    assert_eq!(
        enc(Mnemonic::MOV, vec![reg(Register::RAX), Operand::Mem(Mem::Base(Register::RBX, Size::Qword))]),
        vec![0x48, 0x8B, 0x03]
    );
    assert_eq!(
        enc(Mnemonic::MOV, vec![Operand::Mem(Mem::Base(Register::RBX, Size::Qword)), reg(Register::RAX)]),
        vec![0x48, 0x89, 0x03]
    );
    assert_eq!(
        enc(
            Mnemonic::MOV,
            vec![Operand::Mem(Mem::BaseOffset(Register::RBP, -8, Size::Dword)), Operand::Imm(Number::UInt32(5))]
        ),
        vec![0xC7, 0x45, 0xF8, 0x05, 0x00, 0x00, 0x00]
    );
    assert_eq!(
        enc(Mnemonic::MOV, vec![Operand::Mem(Mem::Base(Register::RAX, Size::Byte)), imm8(5)]),
        vec![0xC6, 0x00, 0x05]
    );
}

#[test]
fn mov_control_and_segment_registers() {
    assert_eq!(
        enc(Mnemonic::MOV, vec![reg(Register::RAX), Operand::CtrReg(Register::CR0)]),
        vec![0x0F, 0x20, 0xC0]
    );
    assert_eq!(
        enc(Mnemonic::MOV, vec![Operand::CtrReg(Register::CR3), reg(Register::RAX)]),
        vec![0x0F, 0x22, 0xD8]
    );
    assert_eq!(
        enc(Mnemonic::MOV, vec![Operand::DbgReg(Register::DR7), reg(Register::RAX)]),
        vec![0x0F, 0x23, 0xF8]
    );
    assert_eq!(
        enc(Mnemonic::MOV, vec![reg(Register::AX), Operand::SegReg(Register::DS)]),
        vec![0x66, 0x8C, 0xD8]
    );
    assert_eq!(
        enc(Mnemonic::MOV, vec![Operand::SegReg(Register::ES), reg(Register::AX)]),
        vec![0x66, 0x8E, 0xC0]
    );
    // a move to or from a segment register takes no REX.W
    assert_eq!(enc(Mnemonic::MOV, vec![reg(Register::RAX), Operand::SegReg(Register::DS)]), vec![0x8C, 0xD8]);
    assert_eq!(enc(Mnemonic::MOV, vec![Operand::SegReg(Register::FS), reg(Register::RBX)]), vec![0x8E, 0xE3]);
    assert_eq!(
        enc(Mnemonic::MOV, vec![reg(Register::R9), Operand::SegReg(Register::DS)]),
        vec![0x41, 0x8C, 0xD9]
    );
}

#[test]
fn add_rax_rbx() {
    assert_eq!(enc(Mnemonic::ADD, vec![reg(Register::RAX), reg(Register::RBX)]), vec![0x48, 0x01, 0xD8]);
}

#[test]
fn add_r8_r9() {
    assert_eq!(enc(Mnemonic::ADD, vec![reg(Register::R8), reg(Register::R9)]), vec![0x4D, 0x01, 0xC8]);
}

#[test]
fn sub_rsp_8() {
    assert_eq!(enc(Mnemonic::SUB, vec![reg(Register::RSP), imm8(8)]), vec![0x48, 0x83, 0xEC, 0x08]);
}

#[test]
fn push_rbp() {
    assert_eq!(enc(Mnemonic::PUSH, vec![reg(Register::RBP)]), vec![0x55]);
}

#[test]
fn xor_eax_eax() {
    assert_eq!(enc(Mnemonic::XOR, vec![reg(Register::EAX), reg(Register::EAX)]), vec![0x31, 0xC0]);
}

#[test]
fn lea_rdi_msg() {
    let (bytes, rel) = compile_instruction(&ins(Mnemonic::LEA, vec![reg(Register::RDI), sym("msg")]), 64);
    assert_eq!(bytes, vec![0x48, 0x8D, 0x3C, 0x25, 0x00, 0x00, 0x00, 0x00]);
    let rel = rel.unwrap();
    assert_eq!(rel.rtype, RType::S32);
    assert_eq!(rel.offset, 4);
    assert_eq!(rel.size, 4);
    assert_eq!(rel.symbol, "msg");
    assert_eq!(rel.addend, 0);
    assert_eq!(rel.catg, RCategory::Lea);
}

#[test]
fn lea_extended_register() {
    let (bytes, rel) = compile_instruction(&ins(Mnemonic::LEA, vec![reg(Register::R9), sym("x")]), 64);
    assert_eq!(bytes, vec![0x4C, 0x8D, 0x0C, 0x25, 0x00, 0x00, 0x00, 0x00]);
    assert_eq!(rel.unwrap().offset, 4);
}

#[test]
fn jmp_label() {
    let (bytes, rel) = compile_instruction(&ins(Mnemonic::JMP, vec![sym("label")]), 64);
    assert_eq!(bytes, vec![0xE9, 0x00, 0x00, 0x00, 0x00]);
    let rel = rel.unwrap();
    assert_eq!(rel.rtype, RType::PCRel32);
    assert_eq!(rel.offset, 1);
    assert_eq!(rel.size, 4);
    assert_eq!(rel.addend, -4);
    assert_eq!(rel.symbol, "label");
    assert_eq!(rel.catg, RCategory::Jump);
}

#[test]
fn call_and_conditional_jumps() {
    let (bytes, rel) = compile_instruction(&ins(Mnemonic::CALL, vec![sym("f")]), 64);
    assert_eq!(bytes, vec![0xE8, 0, 0, 0, 0]);
    assert_eq!(rel.unwrap().offset, 1);
    for (m, op) in [
        (Mnemonic::JE, 0x84u8),
        (Mnemonic::JZ, 0x84),
        (Mnemonic::JNE, 0x85),
        (Mnemonic::JNZ, 0x85),
        (Mnemonic::JL, 0x8C),
        (Mnemonic::JLE, 0x8E),
        (Mnemonic::JG, 0x8F),
        (Mnemonic::JGE, 0x8D),
    ] {
        let (bytes, rel) = compile_instruction(&ins(m, vec![sym("t")]), 64);
        assert_eq!(bytes, vec![0x0F, op, 0, 0, 0, 0]);
        let rel = rel.unwrap();
        assert_eq!(rel.offset, 2);
        assert_eq!(rel.addend, -4);
        assert_eq!(rel.rtype, RType::PCRel32);
    }
}

#[test]
fn jmp_and_call_indirect() {
    let (bytes, rel) = compile_instruction(&ins(Mnemonic::JMP, vec![reg(Register::RAX)]), 64);
    assert_eq!(bytes, vec![0xFF, 0xE0]);
    assert!(rel.is_none());
    let (bytes, _) = compile_instruction(&ins(Mnemonic::CALL, vec![reg(Register::R11)]), 64);
    assert_eq!(bytes, vec![0x41, 0xFF, 0xD3]);
}

#[test]
fn paddw_mmx_and_xmm() {
    assert_eq!(enc(Mnemonic::PADDW, vec![reg(Register::MM0), reg(Register::MM1)]), vec![0x0F, 0xFD, 0xC1]);
    assert_eq!(
        enc(Mnemonic::PADDW, vec![reg(Register::XMM0), reg(Register::XMM1)]),
        vec![0x66, 0x0F, 0xFD, 0xC1]
    );
}

#[test]
fn movss_xmm0_xmm1() {
    assert_eq!(
        enc(Mnemonic::MOVSS, vec![reg(Register::XMM0), reg(Register::XMM1)]),
        vec![0xF3, 0x0F, 0x10, 0xC1]
    );
}

#[test]
fn movss_store() {
    assert_eq!(
        enc(Mnemonic::MOVSS, vec![Operand::Mem(Mem::Base(Register::RAX, Size::Dword)), reg(Register::XMM1)]),
        vec![0xF3, 0x0F, 0x11, 0x08]
    );
}

#[test]
fn fixed_encodings() {
    assert_eq!(enc(Mnemonic::RET, vec![]), vec![0xC3]);
    assert_eq!(enc(Mnemonic::SYSCALL, vec![]), vec![0x0F, 0x05]);
    assert_eq!(enc(Mnemonic::NOP, vec![]), vec![0x90]);
    assert_eq!(enc(Mnemonic::MFENCE, vec![]), vec![0x0F, 0xAE, 0xF0]);
    assert_eq!(enc(Mnemonic::LFENCE, vec![]), vec![0x0F, 0xAE, 0xE8]);
    assert_eq!(enc(Mnemonic::PAUSE, vec![]), vec![0xF3, 0x90]);
    assert_eq!(enc(Mnemonic::EMMS, vec![]), vec![0x0F, 0x77]);
    assert_eq!(enc(Mnemonic::PUSHFQ, vec![]), vec![0x9C]);
    assert_eq!(enc(Mnemonic::POPFQ, vec![]), vec![0x9D]);
    assert_eq!(enc(Mnemonic::MONITOR, vec![]), vec![0x0F, 0x01, 0xC8]);
    assert_eq!(enc(Mnemonic::MWAIT, vec![]), vec![0x0F, 0x01, 0xC9]);
}

#[test]
fn add_al_5() {
    assert_eq!(enc(Mnemonic::ADD, vec![reg(Register::AL), imm8(5)]), vec![0x04, 0x05]);
}

#[test]
fn arithmetic_immediate_forms() {
    // a byte register other than AL
    assert_eq!(enc(Mnemonic::ADD, vec![reg(Register::BL), imm8(5)]), vec![0x80, 0xC3, 0x05]);
    // the sign-extended byte form wins wherever the value fits
    assert_eq!(enc(Mnemonic::ADD, vec![reg(Register::EAX), imm8(5)]), vec![0x83, 0xC0, 0x05]);
    assert_eq!(enc(Mnemonic::ADD, vec![reg(Register::AX), imm8(5)]), vec![0x66, 0x83, 0xC0, 0x05]);
    assert_eq!(
        enc(Mnemonic::ADD, vec![reg(Register::ECX), Operand::Imm(Number::Int32(-1))]),
        vec![0x83, 0xC1, 0xFF]
    );
    // the accumulator form for what does not fit a signed byte
    assert_eq!(
        enc(Mnemonic::ADD, vec![reg(Register::EAX), Operand::Imm(Number::UInt32(0x12345678))]),
        vec![0x05, 0x78, 0x56, 0x34, 0x12]
    );
    assert_eq!(
        enc(Mnemonic::ADD, vec![reg(Register::AX), Operand::Imm(Number::UInt16(0x1234))]),
        vec![0x66, 0x05, 0x34, 0x12]
    );
    assert_eq!(
        enc(Mnemonic::SUB, vec![reg(Register::RAX), Operand::Imm(Number::UInt32(0x1000))]),
        vec![0x48, 0x2D, 0x00, 0x10, 0x00, 0x00]
    );
    // the general form
    assert_eq!(
        enc(Mnemonic::AND, vec![reg(Register::EBX), Operand::Imm(Number::UInt32(0x100))]),
        vec![0x81, 0xE3, 0x00, 0x01, 0x00, 0x00]
    );
    assert_eq!(
        enc(Mnemonic::OR, vec![reg(Register::BX), Operand::Imm(Number::UInt8(200))]),
        vec![0x66, 0x81, 0xCB, 0xC8, 0x00]
    );
    assert_eq!(
        enc(Mnemonic::XOR, vec![Operand::Mem(Mem::Base(Register::RAX, Size::Dword)), imm8(1)]),
        vec![0x83, 0x30, 0x01]
    );
}

#[test]
fn compare_uses_the_short_immediate_form() {
    assert_eq!(enc(Mnemonic::CMP, vec![reg(Register::RAX), imm8(7)]), vec![0x48, 0x83, 0xF8, 0x07]);
    assert_eq!(enc(Mnemonic::CMP, vec![reg(Register::AL), imm8(7)]), vec![0x3C, 0x07]);
    assert_eq!(
        enc(Mnemonic::CMP, vec![reg(Register::EAX), Operand::Imm(Number::UInt32(0x1000))]),
        vec![0x3D, 0x00, 0x10, 0x00, 0x00]
    );
    assert_eq!(enc(Mnemonic::CMP, vec![reg(Register::RAX), reg(Register::RBX)]), vec![0x48, 0x39, 0xD8]);
}

#[test]
fn arithmetic_with_memory_source() {
    assert_eq!(
        enc(Mnemonic::ADD, vec![reg(Register::RAX), Operand::Mem(Mem::Base(Register::RBX, Size::Qword))]),
        vec![0x48, 0x03, 0x03]
    );
    assert_eq!(
        enc(Mnemonic::ADD, vec![reg(Register::AL), Operand::Mem(Mem::Base(Register::RBX, Size::Byte))]),
        vec![0x02, 0x03]
    );
    assert_eq!(enc(Mnemonic::ADD, vec![reg(Register::AL), reg(Register::BL)]), vec![0x00, 0xD8]);
}

#[test]
fn test_forms() {
    assert_eq!(enc(Mnemonic::TEST, vec![reg(Register::AL), imm8(1)]), vec![0xA8, 0x01]);
    assert_eq!(
        enc(Mnemonic::TEST, vec![reg(Register::EAX), imm8(1)]),
        vec![0xA9, 0x01, 0x00, 0x00, 0x00]
    );
    assert_eq!(
        enc(Mnemonic::TEST, vec![reg(Register::EBX), imm8(1)]),
        vec![0xF7, 0xC3, 0x01, 0x00, 0x00, 0x00]
    );
    assert_eq!(enc(Mnemonic::TEST, vec![reg(Register::BL), imm8(1)]), vec![0xF6, 0xC3, 0x01]);
    assert_eq!(enc(Mnemonic::TEST, vec![reg(Register::RAX), reg(Register::RAX)]), vec![0x48, 0x85, 0xC0]);
    assert_eq!(enc(Mnemonic::TEST, vec![reg(Register::AL), reg(Register::AL)]), vec![0x84, 0xC0]);
}

#[test]
fn shifts() {
    assert_eq!(enc(Mnemonic::SHL, vec![reg(Register::RAX), imm8(1)]), vec![0x48, 0xD1, 0xE0]);
    assert_eq!(enc(Mnemonic::SAL, vec![reg(Register::EAX), imm8(4)]), vec![0xC1, 0xE0, 0x04]);
    assert_eq!(enc(Mnemonic::SHR, vec![reg(Register::AL), reg(Register::CL)]), vec![0xD2, 0xE8]);
    assert_eq!(enc(Mnemonic::SAR, vec![reg(Register::EBX), reg(Register::CL)]), vec![0xD3, 0xFB]);
    assert_eq!(enc(Mnemonic::SHR, vec![reg(Register::BL), imm8(1)]), vec![0xD0, 0xEB]);
    assert_eq!(enc(Mnemonic::SAR, vec![reg(Register::BL), imm8(3)]), vec![0xC0, 0xFB, 0x03]);
    assert_eq!(enc(Mnemonic::SHL, vec![reg(Register::AX), imm8(2)]), vec![0x66, 0xC1, 0xE0, 0x02]);
}

#[test]
fn one_operand_instructions() {
    assert_eq!(enc(Mnemonic::INC, vec![reg(Register::EAX)]), vec![0xFF, 0xC0]);
    assert_eq!(enc(Mnemonic::DEC, vec![reg(Register::RBX)]), vec![0x48, 0xFF, 0xCB]);
    assert_eq!(enc(Mnemonic::INC, vec![reg(Register::AL)]), vec![0xFE, 0xC0]);
    assert_eq!(enc(Mnemonic::NOT, vec![reg(Register::EAX)]), vec![0xF7, 0xD0]);
    assert_eq!(enc(Mnemonic::NEG, vec![reg(Register::RAX)]), vec![0x48, 0xF7, 0xD8]);
    assert_eq!(enc(Mnemonic::MUL, vec![reg(Register::ECX)]), vec![0xF7, 0xE1]);
    assert_eq!(enc(Mnemonic::DIV, vec![reg(Register::RCX)]), vec![0x48, 0xF7, 0xF1]);
    assert_eq!(enc(Mnemonic::IDIV, vec![reg(Register::CL)]), vec![0xF6, 0xF9]);
}

#[test]
fn imul_forms() {
    assert_eq!(enc(Mnemonic::IMUL, vec![reg(Register::ECX)]), vec![0xF7, 0xE9]);
    assert_eq!(enc(Mnemonic::IMUL, vec![reg(Register::RAX), reg(Register::RBX)]), vec![0x48, 0x0F, 0xAF, 0xC3]);
    assert_eq!(
        enc(Mnemonic::IMUL, vec![reg(Register::EAX), reg(Register::EBX), imm8(3)]),
        vec![0x6B, 0xC3, 0x03]
    );
    assert_eq!(
        enc(Mnemonic::IMUL, vec![reg(Register::EAX), reg(Register::EBX), Operand::Imm(Number::UInt32(0x1000))]),
        vec![0x69, 0xC3, 0x00, 0x10, 0x00, 0x00]
    );
}

#[test]
fn push_and_pop_forms() {
    assert_eq!(enc(Mnemonic::PUSH, vec![reg(Register::R12)]), vec![0x41, 0x54]);
    assert_eq!(enc(Mnemonic::POP, vec![reg(Register::RBP)]), vec![0x5D]);
    assert_eq!(enc(Mnemonic::POP, vec![reg(Register::R15)]), vec![0x41, 0x5F]);
    assert_eq!(enc(Mnemonic::PUSH, vec![reg(Register::AX)]), vec![0x66, 0x50]);
    assert_eq!(enc(Mnemonic::PUSH, vec![imm8(1)]), vec![0x6A, 0x01]);
    assert_eq!(enc(Mnemonic::PUSH, vec![imm8(200)]), vec![0x68, 0xC8, 0x00, 0x00, 0x00]);
    assert_eq!(
        enc(Mnemonic::PUSH, vec![Operand::Imm(Number::UInt32(0x12345678))]),
        vec![0x68, 0x78, 0x56, 0x34, 0x12]
    );
    assert_eq!(enc(Mnemonic::PUSH, vec![Operand::SegReg(Register::FS)]), vec![0x0F, 0xA0]);
    assert_eq!(enc(Mnemonic::PUSH, vec![Operand::SegReg(Register::CS)]), vec![0x0E]);
    assert_eq!(enc(Mnemonic::POP, vec![Operand::SegReg(Register::GS)]), vec![0x0F, 0xA9]);
    assert_eq!(enc(Mnemonic::POP, vec![Operand::SegReg(Register::DS)]), vec![0x1F]);
    assert_eq!(
        enc(Mnemonic::PUSH, vec![Operand::Mem(Mem::Base(Register::RAX, Size::Qword))]),
        vec![0xFF, 0x30]
    );
    assert_eq!(
        enc(Mnemonic::POP, vec![Operand::Mem(Mem::BaseOffset(Register::RBX, 8, Size::Qword))]),
        vec![0x8F, 0x43, 0x08]
    );
}

#[test]
fn memory_addressing() {
    // RSP as base takes a SIB byte
    assert_eq!(
        enc(Mnemonic::MOV, vec![reg(Register::RAX), Operand::Mem(Mem::Base(Register::RSP, Size::Qword))]),
        vec![0x48, 0x8B, 0x04, 0x24]
    );
    // RBP as base takes a zero displacement
    assert_eq!(
        enc(Mnemonic::MOV, vec![reg(Register::RAX), Operand::Mem(Mem::Base(Register::RBP, Size::Qword))]),
        vec![0x48, 0x8B, 0x45, 0x00]
    );
    // R13 likewise, with REX.B
    assert_eq!(
        enc(Mnemonic::MOV, vec![reg(Register::RAX), Operand::Mem(Mem::Base(Register::R13, Size::Qword))]),
        vec![0x49, 0x8B, 0x45, 0x00]
    );
    // a wide displacement
    assert_eq!(
        enc(
            Mnemonic::MOV,
            vec![reg(Register::EAX), Operand::Mem(Mem::BaseOffset(Register::RBX, 0x1234, Size::Dword))]
        ),
        vec![0x8B, 0x83, 0x34, 0x12, 0x00, 0x00]
    );
    // base, index and scale
    assert_eq!(
        enc(
            Mnemonic::MOV,
            vec![
                reg(Register::EAX),
                Operand::Mem(Mem::SIB(Register::RBX, Register::RCX, Scale::Four, Size::Dword))
            ]
        ),
        vec![0x8B, 0x04, 0x8B]
    );
    assert_eq!(
        enc(
            Mnemonic::MOV,
            vec![
                reg(Register::EAX),
                Operand::Mem(Mem::SIBOffset(Register::RBX, Register::R9, Scale::Eight, 16, Size::Dword))
            ]
        ),
        vec![0x42, 0x8B, 0x44, 0xCB, 0x10]
    );
    // index only
    assert_eq!(
        enc(
            Mnemonic::MOV,
            vec![reg(Register::EAX), Operand::Mem(Mem::Index(Register::RCX, Scale::Two, Size::Dword))]
        ),
        vec![0x8B, 0x04, 0x4D, 0x00, 0x00, 0x00, 0x00]
    );
    // a bare address
    assert_eq!(
        enc(Mnemonic::MOV, vec![reg(Register::EAX), Operand::Mem(Mem::Offset(0x1000, Size::Dword))]),
        vec![0x8B, 0x04, 0x25, 0x00, 0x10, 0x00, 0x00]
    );
}

#[test]
fn prefixes() {
    // a 32-bit address in 64-bit mode
    assert_eq!(
        enc(Mnemonic::MOV, vec![reg(Register::EAX), Operand::Mem(Mem::Base(Register::EBX, Size::Dword))]),
        vec![0x67, 0x8B, 0x03]
    );
    // a segment override
    let seg = Segment { segment: Register::FS, address: Mem::Base(Register::RAX, Size::Qword) };
    assert_eq!(
        enc(Mnemonic::MOV, vec![reg(Register::RAX), Operand::Segment(seg)]),
        vec![0x64, 0x48, 0x8B, 0x00]
    );
    // a word in memory
    assert_eq!(
        enc(Mnemonic::ADD, vec![Operand::Mem(Mem::Base(Register::RAX, Size::Word)), imm8(1)]),
        vec![0x66, 0x83, 0x00, 0x01]
    );
    // no REX in 32-bit mode
    assert_eq!(
        compile_instruction(&ins(Mnemonic::MOV, vec![reg(Register::EAX), reg(Register::EBX)]), 32).0,
        vec![0x89, 0xD8]
    );
    // a double word in 16-bit mode
    assert_eq!(
        compile_instruction(&ins(Mnemonic::MOV, vec![reg(Register::EAX), reg(Register::EBX)]), 16).0,
        vec![0x66, 0x89, 0xD8]
    );
}

#[test]
fn low_byte_registers_take_rex() {
    assert_eq!(enc(Mnemonic::MOV, vec![reg(Register::SIL), reg(Register::DIL)]), vec![0x40, 0x88, 0xFE]);
    assert_eq!(enc(Mnemonic::MOV, vec![reg(Register::AL), reg(Register::BL)]), vec![0x88, 0xD8]);
}

#[test]
fn vector_instructions() {
    assert_eq!(enc(Mnemonic::ADDPS, vec![reg(Register::XMM0), reg(Register::XMM1)]), vec![0x0F, 0x58, 0xC1]);
    assert_eq!(
        enc(Mnemonic::ADDSD, vec![reg(Register::XMM8), reg(Register::XMM1)]),
        vec![0xF2, 0x44, 0x0F, 0x58, 0xC1]
    );
    assert_eq!(
        enc(Mnemonic::ADDPD, vec![reg(Register::XMM0), reg(Register::XMM9)]),
        vec![0x66, 0x41, 0x0F, 0x58, 0xC1]
    );
    assert_eq!(
        enc(Mnemonic::SHUFPS, vec![reg(Register::XMM0), reg(Register::XMM1), imm8(0x1B)]),
        vec![0x0F, 0xC6, 0xC1, 0x1B]
    );
    assert_eq!(
        enc(Mnemonic::PSHUFB, vec![reg(Register::MM0), reg(Register::MM1)]),
        vec![0x0F, 0x38, 0x00, 0xC1]
    );
    assert_eq!(
        enc(Mnemonic::PSHUFB, vec![reg(Register::XMM0), reg(Register::XMM1)]),
        vec![0x66, 0x0F, 0x38, 0x00, 0xC1]
    );
    assert_eq!(
        enc(Mnemonic::PALIGNR, vec![reg(Register::XMM0), reg(Register::XMM1), imm8(4)]),
        vec![0x66, 0x0F, 0x3A, 0x0F, 0xC1, 0x04]
    );
    assert_eq!(
        enc(Mnemonic::PSLLW, vec![reg(Register::MM1), imm8(3)]),
        vec![0x0F, 0x71, 0xF1, 0x03]
    );
    assert_eq!(
        enc(Mnemonic::PSRLQ, vec![reg(Register::XMM2), reg(Register::XMM3)]),
        vec![0x66, 0x0F, 0xD3, 0xD3]
    );
    assert_eq!(
        enc(Mnemonic::PSLLDQ, vec![reg(Register::XMM1), imm8(2)]),
        vec![0x66, 0x0F, 0x73, 0xF9, 0x02]
    );
    assert_eq!(
        enc(Mnemonic::MOVAPS, vec![Operand::Mem(Mem::Base(Register::RAX, Size::Xword)), reg(Register::XMM2)]),
        vec![0x0F, 0x29, 0x10]
    );
    assert_eq!(
        enc(Mnemonic::CVTSI2SD, vec![reg(Register::XMM0), reg(Register::RAX)]),
        vec![0xF2, 0x48, 0x0F, 0x2A, 0xC0]
    );
    assert_eq!(
        enc(Mnemonic::POPCNT, vec![reg(Register::RAX), reg(Register::RBX)]),
        vec![0xF3, 0x48, 0x0F, 0xB8, 0xC3]
    );
    assert_eq!(
        enc(Mnemonic::POPCNT, vec![reg(Register::AX), reg(Register::BX)]),
        vec![0xF3, 0x66, 0x0F, 0xB8, 0xC3]
    );
    assert_eq!(
        enc(Mnemonic::CRC32, vec![reg(Register::EAX), reg(Register::BL)]),
        vec![0xF2, 0x0F, 0x38, 0xF0, 0xC3]
    );
    assert_eq!(
        enc(Mnemonic::PEXTRD, vec![reg(Register::EAX), reg(Register::XMM1), imm8(1)]),
        vec![0x66, 0x0F, 0x3A, 0x16, 0xC8, 0x01]
    );
    assert_eq!(
        enc(Mnemonic::CLFLUSH, vec![Operand::Mem(Mem::Base(Register::RAX, Size::Byte))]),
        vec![0x0F, 0xAE, 0x38]
    );
}

#[test]
fn movd_and_movq() {
    assert_eq!(enc(Mnemonic::MOVD, vec![reg(Register::MM0), reg(Register::EAX)]), vec![0x0F, 0x6E, 0xC0]);
    assert_eq!(
        enc(Mnemonic::MOVD, vec![reg(Register::EAX), reg(Register::XMM1)]),
        vec![0x66, 0x0F, 0x7E, 0xC8]
    );
    assert_eq!(
        enc(Mnemonic::MOVQ, vec![reg(Register::XMM0), reg(Register::RAX)]),
        vec![0x66, 0x48, 0x0F, 0x6E, 0xC0]
    );
    assert_eq!(
        enc(Mnemonic::MOVQ, vec![reg(Register::XMM0), reg(Register::XMM1)]),
        vec![0xF3, 0x0F, 0x7E, 0xC1]
    );
    assert_eq!(
        enc(Mnemonic::MOVQ, vec![Operand::Mem(Mem::Base(Register::RAX, Size::Qword)), reg(Register::XMM1)]),
        vec![0x66, 0x0F, 0xD6, 0x08]
    );
    assert_eq!(enc(Mnemonic::MOVQ, vec![reg(Register::MM0), reg(Register::MM1)]), vec![0x0F, 0x6F, 0xC1]);
    assert_eq!(
        enc(Mnemonic::MOVQ, vec![Operand::Mem(Mem::Base(Register::RAX, Size::Qword)), reg(Register::MM1)]),
        vec![0x0F, 0x7F, 0x08]
    );
}

#[test]
fn default_64_bit_mnemonics_take_no_rex_w() {
    for r in [Register::RAX, Register::RBX, Register::RSP, Register::RDI] {
        let b = enc(Mnemonic::PUSH, vec![reg(r)]);
        assert_eq!(b.len(), 1);
        let b = enc(Mnemonic::POP, vec![reg(r)]);
        assert_eq!(b.len(), 1);
        let b = enc(Mnemonic::JMP, vec![reg(r)]);
        assert_eq!(b[0], 0xFF);
        let b = enc(Mnemonic::CALL, vec![reg(r)]);
        assert_eq!(b[0], 0xFF);
    }
    assert_eq!(
        enc(Mnemonic::PUSH, vec![Operand::Mem(Mem::Base(Register::R8, Size::Qword))]),
        vec![0x41, 0xFF, 0x30]
    );
}

#[test]
fn encoding_twice_gives_the_same_bytes() {
    let i = ins(Mnemonic::ADD, vec![reg(Register::R8), Operand::Mem(Mem::BaseOffset(Register::RBX, 300, Size::Qword))]);
    let a = compile_instruction(&i, 64);
    let b = compile_instruction(&i, 64);
    assert_eq!(a.0, b.0);
    assert_eq!(a.0, vec![0x4C, 0x03, 0x83, 0x2C, 0x01, 0x00, 0x00]);
}

#[test]
fn byte_emitters() {
    let i = ins(Mnemonic::ADD, vec![reg(Register::R8), reg(Register::R9)]);
    assert_eq!(gen_rex(&i, false), Some(0x4D));
    assert_eq!(gen_rex(&i, true), Some(0x4D));
    assert_eq!(gen_modrm(&i, None, None, false), 0xC8);
    assert_eq!(gen_modrm(&i, None, None, true), 0xC1);
    assert_eq!(gen_modrm(&i, Some(5), None, false), 0xE8);
    assert_eq!(gen_modrm(&i, None, Some(3), false), 0xCB);
    let i = ins(Mnemonic::XOR, vec![reg(Register::EAX), reg(Register::EAX)]);
    assert_eq!(gen_rex(&i, false), None);
    let m = Operand::Mem(Mem::SIB(Register::RBX, Register::RCX, Scale::Four, Size::Dword));
    assert_eq!(gen_sib(&m), Some(0x8B));
    assert_eq!(gen_sib(&Operand::Mem(Mem::Index(Register::RCX, Scale::Two, Size::Dword))), Some(0x4D));
    assert_eq!(gen_sib(&Operand::Mem(Mem::Base(Register::RSP, Size::Dword))), Some(0x24));
    assert_eq!(gen_sib(&Operand::Mem(Mem::Base(Register::RAX, Size::Dword))), None);
    assert_eq!(gen_sib(&reg(Register::RAX)), None);
    assert_eq!(gen_disp(&Operand::Mem(Mem::BaseOffset(Register::RAX, -2, Size::Dword))), Some(vec![0xFE]));
    assert_eq!(
        gen_disp(&Operand::Mem(Mem::BaseOffset(Register::RAX, 128, Size::Dword))),
        Some(vec![0x80, 0, 0, 0])
    );
    assert_eq!(
        gen_disp(&Operand::Mem(Mem::BaseOffset(Register::RAX, -129, Size::Dword))),
        Some(vec![0x7F, 0xFF, 0xFF, 0xFF])
    );
    assert_eq!(gen_disp(&Operand::Mem(Mem::Base(Register::RAX, Size::Dword))), None);
    assert_eq!(gen_disp(&reg(Register::RAX)), None);
}

#[test]
fn layout_functions() {
    let i = ins(Mnemonic::ADD, vec![reg(Register::R8), reg(Register::R9)]);
    assert_eq!(gen_base(&i, &[0x01], 64, false), vec![0x4D, 0x01]);
    assert_eq!(gen_base(&i, &[0x01], 32, false), vec![0x01]);
    assert_eq!(bs_imm(&i, &[0x05], &[1, 2], 64, false), vec![0x4D, 0x05, 1, 2]);
    assert_eq!(gen_ins(&i, &[0x01], (true, None, None), None, 64, false), vec![0x4D, 0x01, 0xC8]);
    assert_eq!(gen_ins(&i, &[0x01], (false, None, None), Some(vec![9]), 64, false), vec![0x4D, 0x01, 9]);
    assert_eq!(
        gen_ins_wpref(&i, &[0x0F, 0x58], (true, None, None), None, 0xF3, 64, true),
        vec![0xF3, 0x4D, 0x0F, 0x58, 0xC1]
    );
    let mut v = vec![1u8];
    extend_imm(&mut v, 4);
    assert_eq!(v, vec![1, 0, 0, 0]);
    let mut v = vec![1u8, 2, 3];
    extend_imm(&mut v, 2);
    assert_eq!(v, vec![1, 2, 3]);
}

#[test]
fn mandatory_and_operand_size_prefix_stand_once() {
    let m = Operand::Mem(Mem::Base(Register::RAX, Size::Word));
    let b = enc(Mnemonic::PEXTRW, vec![m, reg(Register::XMM1), imm8(1)]);
    assert_eq!(b, vec![0x66, 0x0F, 0x3A, 0x15, 0x08, 0x01]);
}

#[test]
fn numbers() {
    assert_eq!(Number::Int8(-1).split_into_bytes(), vec![0xFF]);
    assert_eq!(Number::Int16(-2).split_into_bytes(), vec![0xFE, 0xFF]);
    assert_eq!(Number::UInt32(0x01020304).split_into_bytes(), vec![4, 3, 2, 1]);
    assert_eq!(Number::Int64(-1).split_into_bytes(), vec![0xFF; 8]);
    assert_eq!(Number::Int8(-1).low_bytes(4), vec![0xFF; 4]);
    assert_eq!(Number::UInt8(0xFF).low_bytes(4), vec![0xFF, 0, 0, 0]);
    assert_eq!(Number::squeeze_u64(255), Number::UInt8(255));
    assert_eq!(Number::squeeze_u64(256), Number::UInt16(256));
    assert_eq!(Number::squeeze_u64(0x1_0000), Number::UInt32(0x1_0000));
    assert_eq!(Number::squeeze_u64(0x1_0000_0000), Number::UInt64(0x1_0000_0000));
    assert_eq!(Number::squeeze_i64(-128), Number::Int8(-128));
    assert_eq!(Number::squeeze_i64(-129), Number::Int16(-129));
    assert_eq!(Number::squeeze_i64(128), Number::Int16(128));
    assert_eq!(Number::squeeze_i64(-0x8001), Number::Int32(-0x8001));
    assert_eq!(Number::squeeze_i64(0x8000_0000), Number::Int64(0x8000_0000));
    assert_eq!(Number::UInt64(5).squeezed_size(), Size::Byte);
    assert_eq!(Number::Int32(-70000).squeezed_size(), Size::Dword);
    assert!(Number::UInt8(127).fits_i8());
    assert!(!Number::UInt8(128).fits_i8());
    assert!(Number::Int64(-128).fits_i8());
    assert!(!Number::UInt32(0x8000_0000).fits_i32());
    assert!(Number::Int64(-0x8000_0000).fits_i32());
}

#[test]
fn registers() {
    assert_eq!(Register::R9.to_byte(), 1);
    assert_eq!(Register::R9.index(), 9);
    assert!(Register::R9.needs_rex());
    assert!(Register::SPL.needs_rex());
    assert!(!Register::SPL.is_extended());
    assert!(!Register::RDI.needs_rex());
    assert_eq!(Register::XMM15.to_byte(), 7);
    assert_eq!(Register::XMM15.size(), Size::Xword);
    assert_eq!(Register::MM3.size(), Size::Qword);
    assert_eq!(Register::GS.to_byte(), 5);
    assert_eq!(Register::CR8.to_byte(), 0);
    assert!(Register::CR8.needs_rex());
}
