use rasmx86_64::object::assemble;
use rasmx86_64::object::file_is_wf;
use rasmx86_64::shr::ast::Instruction;
use rasmx86_64::shr::ast::Label;
use rasmx86_64::shr::ast::Operand;
use rasmx86_64::shr::ast::AST;
use rasmx86_64::shr::ins::Mnemonic;
use rasmx86_64::shr::num::Number;
use rasmx86_64::shr::reg::Register;
use rasmx86_64::shr::symbol::SymbolType;
use rasmx86_64::shr::symbol::Visibility;
use rasmx86_64::shr::var::VarContent;
use rasmx86_64::shr::var::Variable;

fn ins(mnem: Mnemonic, oprs: Vec<Operand>, line: usize) -> Instruction {
    Instruction { mnem, oprs, line, addt: None }
}

fn hello() -> AST {
    AST {
        bits: Some(64),
        labels: vec![
            Label {
                name: "_start".to_string(),
                inst: vec![
                    ins(Mnemonic::LEA, vec![Operand::Reg(Register::RDI), Operand::SymbolRef("msg".to_string())], 1),
                    ins(Mnemonic::CALL, vec![Operand::SymbolRef("puts".to_string())], 2),
                    ins(Mnemonic::XOR, vec![Operand::Reg(Register::EDI), Operand::Reg(Register::EDI)], 3),
                    ins(Mnemonic::MOV, vec![Operand::Reg(Register::EAX), Operand::Imm(Number::UInt8(60))], 4),
                    ins(Mnemonic::SYSCALL, vec![], 5),
                ],
            },
            Label { name: "done".to_string(), inst: vec![ins(Mnemonic::RET, vec![], 6)] },
        ],
        globals: vec!["_start".to_string()],
        externs: vec!["puts".to_string()],
        variables: vec![Variable {
            name: "msg".to_string(),
            size: 3,
            visibility: Visibility::Local,
            content: VarContent::String(vec![b'h', b'i', 0]),
        }],
    }
}

#[test]
fn a_whole_file() {
    let file = hello();
    assert!(file_is_wf(&file));
    let o = assemble(&file).unwrap();
    assert_eq!(
        o.text,
        vec![
            0x48, 0x8D, 0x3C, 0x25, 0, 0, 0, 0, 0xE8, 0, 0, 0, 0, 0x31, 0xFF, 0xB8, 60, 0, 0, 0, 0x0F, 0x05, 0xC3
        ]
    );
    assert_eq!(o.data, vec![b'h', b'i', 0]);
    let names: Vec<&str> = o.symbols.iter().map(|s| s.name.as_str()).collect();
    assert_eq!(names, vec!["_start", "done", "msg", "puts"]);
    assert_eq!(o.symbols[0].offset, 0);
    assert_eq!(o.symbols[0].visibility, Visibility::Global);
    assert_eq!(o.symbols[0].sindex, 1);
    assert_eq!(o.symbols[1].offset, 22);
    assert_eq!(o.symbols[1].visibility, Visibility::Local);
    assert_eq!(o.symbols[2].sindex, 2);
    assert_eq!(o.symbols[2].stype, SymbolType::Object);
    assert_eq!(o.symbols[2].offset, 0);
    assert_eq!(o.symbols[3].sindex, 0);
    assert_eq!(o.symbols[3].visibility, Visibility::Global);
    assert_eq!(o.relocations.len(), 2);
    assert_eq!(o.relocations[0].symbol, "msg");
    assert_eq!(o.relocations[0].offset, 4);
    assert_eq!(o.relocations[1].symbol, "puts");
    assert_eq!(o.relocations[1].offset, 9);
}

#[test]
fn nothing_is_encoded_where_a_label_has_a_diagnostic() {
    let mut file = hello();
    file.labels[1].inst.push(ins(Mnemonic::PUSH, vec![Operand::Reg(Register::EAX)], 9));
    file.labels[1].inst.push(ins(Mnemonic::RET, vec![Operand::Reg(Register::EAX)], 10));
    let e = match assemble(&file) {
        Ok(_) => panic!("encoded a file with diagnostics"),
        Err(e) => e,
    };
    assert_eq!(e.len(), 1);
    assert_eq!(e[0].0, "done");
    assert_eq!(e[0].1.len(), 2);
    assert_eq!(e[0].1[0].get_line(), Some(&9));
    assert_eq!(e[0].1[1].get_line(), Some(&10));
}

#[test]
fn malformed_files_are_told_apart() {
    let mut file = hello();
    file.labels[0].inst.push(ins(Mnemonic::PUSH, vec![Operand::SegReg(Register::RAX)], 7));
    assert!(!file_is_wf(&file));
    let mut file = hello();
    file.labels[0].inst.push(ins(Mnemonic::PUSH, vec![Operand::Reg(Register::CS)], 7));
    assert!(!file_is_wf(&file));
    let mut file = hello();
    for _ in 0..5 {
        file.variables.push(Variable {
            name: "big".to_string(),
            size: u32::MAX,
            visibility: Visibility::Local,
            content: VarContent::Uninit,
        });
    }
    assert!(file_is_wf(&file));
    let o = assemble(&file).unwrap();
    assert_eq!(o.symbols[3].offset, 3);
    assert_eq!(o.symbols[4].offset, 3 + u32::MAX as u64);
}
