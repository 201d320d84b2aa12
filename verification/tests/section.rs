use rasmx86_64::cli::Cli;
use rasmx86_64::enc::section::compile_code;
use rasmx86_64::enc::section::compile_label;
use rasmx86_64::shr::ast::Label;
use rasmx86_64::enc::section::compile_section;
use rasmx86_64::enc::section::extern_trf;
use rasmx86_64::enc::section::make_globals;
use rasmx86_64::shr::ast::Instruction;
use rasmx86_64::shr::ast::Operand;
use rasmx86_64::shr::ins::Mnemonic;
use rasmx86_64::shr::num::Number;
use rasmx86_64::shr::reg::Register;
use rasmx86_64::shr::reloc::RType;
use rasmx86_64::shr::symbol::SymbolType;
use rasmx86_64::shr::symbol::Visibility;
use rasmx86_64::shr::var::VarContent;
use rasmx86_64::shr::var::Variable;

fn ins(mnem: Mnemonic, oprs: Vec<Operand>) -> Instruction {
    Instruction { mnem, oprs, line: 1, addt: None }
}

fn sym(s: &str) -> Operand {
    Operand::SymbolRef(s.to_string())
}

#[test]
fn label_bytes_and_relocations() {
    let lbl = vec![
        ins(Mnemonic::PUSH, vec![Operand::Reg(Register::RBP)]),
        ins(Mnemonic::LEA, vec![Operand::Reg(Register::RDI), sym("msg")]),
        ins(Mnemonic::CALL, vec![sym("puts")]),
        ins(Mnemonic::XOR, vec![Operand::Reg(Register::EAX), Operand::Reg(Register::EAX)]),
        ins(Mnemonic::JNE, vec![sym("again")]),
        ins(Mnemonic::RET, vec![]),
    ];
    let (bytes, relocs) = compile_label(&lbl, 64);
    assert_eq!(
        bytes,
        vec![
            0x55, 0x48, 0x8D, 0x3C, 0x25, 0, 0, 0, 0, 0xE8, 0, 0, 0, 0, 0x31, 0xC0, 0x0F, 0x85, 0, 0, 0, 0,
            0xC3
        ]
    );
    assert_eq!(bytes.len(), 1 + 8 + 5 + 2 + 6 + 1);
    assert_eq!(relocs.len(), 3);
    assert_eq!(relocs[0].symbol, "msg");
    assert_eq!(relocs[0].offset, 5);
    assert_eq!(relocs[0].rtype, RType::S32);
    assert_eq!(relocs[1].symbol, "puts");
    assert_eq!(relocs[1].offset, 10);
    assert_eq!(relocs[1].addend, -4);
    assert_eq!(relocs[2].symbol, "again");
    assert_eq!(relocs[2].offset, 18);
    for r in &relocs {
        assert!(r.offset as usize + r.size as usize <= bytes.len());
        assert_eq!(&bytes[r.offset as usize..r.offset as usize + 4], &[0, 0, 0, 0]);
    }
}

#[test]
fn empty_label() {
    let (bytes, relocs) = compile_label(&vec![], 64);
    assert!(bytes.is_empty());
    assert!(relocs.is_empty());
}

#[test]
fn data_section() {
    let a = Variable {
        name: "a".to_string(),
        size: 4,
        visibility: Visibility::Local,
        content: VarContent::Number(Number::UInt32(0x01020304)),
    };
    let b = Variable { name: "b".to_string(), size: 16, visibility: Visibility::Global, content: VarContent::Uninit };
    let c = Variable {
        name: "c".to_string(),
        size: 3,
        visibility: Visibility::Local,
        content: VarContent::String(vec![b'h', b'i', 0]),
    };
    let vars = vec![&a, &b, &c];
    let (bytes, symbols) = compile_section(&vars, 2, 9);
    assert_eq!(bytes, vec![4, 3, 2, 1, b'h', b'i', 0]);
    assert_eq!(symbols.len(), 3);
    assert_eq!(symbols[0].name, "a");
    assert_eq!(symbols[0].offset, 0);
    assert_eq!(symbols[0].size, Some(4));
    assert_eq!(symbols[0].sindex, 2);
    assert_eq!(symbols[0].addt, 9);
    assert_eq!(symbols[0].stype, SymbolType::Object);
    assert_eq!(symbols[0].content.as_ref().unwrap().bytes(), vec![4, 3, 2, 1]);
    assert_eq!(symbols[1].offset, 4);
    assert!(symbols[1].content.is_none());
    assert_eq!(symbols[1].visibility, Visibility::Global);
    assert_eq!(symbols[2].offset, 20);
    assert_eq!(symbols[2].size, Some(3));
    assert_eq!(symbols[2].visibility, Visibility::Local);
}

#[test]
fn externs_and_globals() {
    let mut symbols = extern_trf(&vec!["puts".to_string(), "exit".to_string()]);
    assert_eq!(symbols.len(), 2);
    assert_eq!(symbols[0].name, "puts");
    assert_eq!(symbols[1].name, "exit");
    for s in &symbols {
        assert_eq!(s.offset, 0);
        assert_eq!(s.size, None);
        assert_eq!(s.sindex, 0);
        assert_eq!(s.stype, SymbolType::NoType);
        assert_eq!(s.visibility, Visibility::Global);
        assert!(s.content.is_none());
    }
    symbols[0].visibility = Visibility::Local;
    symbols[1].visibility = Visibility::Weak;
    make_globals(&mut symbols, &vec!["main".to_string(), "puts".to_string()]);
    assert_eq!(symbols[0].visibility, Visibility::Global);
    assert_eq!(symbols[1].visibility, Visibility::Weak);
    assert_eq!(symbols[0].name, "puts");
    make_globals(&mut symbols, &vec![]);
    assert_eq!(symbols[1].visibility, Visibility::Weak);
}

#[test]
fn command_line() {
    let cli = Cli::new(
        vec!["rasm", "-i=in.asm", "-o=out.o", "--verbose", "-n", "k=v=w", "bare"]
            .into_iter()
            .map(|s| s.to_string())
            .collect(),
    );
    assert!(cli.verbose);
    assert!(cli.nocolor);
    assert!(!cli.debug);
    assert_eq!(cli.args.len(), 7);
    assert_eq!(cli.get_arg("-i"), Some("in.asm"));
    assert_eq!(cli.get_arg("-o"), Some("out.o"));
    assert_eq!(cli.get_arg("k"), Some("v=w"));
    assert_eq!(cli.get_arg("bare"), Some("bare"));
    assert_eq!(cli.get_arg("--verbose"), Some("--verbose"));
    assert_eq!(cli.get_arg("-x"), None);
    assert_eq!(cli.get_arg("in.asm"), None);
    let cli = Cli::new(vec!["-d".to_string(), "-v".to_string(), "--nocolor".to_string()]);
    assert!(cli.debug && cli.verbose && cli.nocolor);
    let cli = Cli::new(vec![]);
    assert!(!cli.debug && !cli.verbose && !cli.nocolor);
    assert_eq!(cli.get_arg("-i"), None);
}

#[test]
fn code_section() {
    let start = Label {
        name: "start".to_string(),
        inst: vec![
            ins(Mnemonic::PUSH, vec![Operand::Reg(Register::RBP)]),
            ins(Mnemonic::CALL, vec![sym("work")]),
            ins(Mnemonic::RET, vec![]),
        ],
    };
    let empty = Label { name: "empty".to_string(), inst: vec![] };
    let work = Label {
        name: "work".to_string(),
        inst: vec![
            ins(Mnemonic::LEA, vec![Operand::Reg(Register::RDI), sym("msg")]),
            ins(Mnemonic::JMP, vec![sym("start")]),
        ],
    };
    let (bytes, symbols, relocs) = compile_code(&vec![start, empty, work], 64, 1);
    assert_eq!(
        bytes,
        vec![0x55, 0xE8, 0, 0, 0, 0, 0xC3, 0x48, 0x8D, 0x3C, 0x25, 0, 0, 0, 0, 0xE9, 0, 0, 0, 0]
    );
    assert_eq!(symbols.len(), 3);
    assert_eq!(symbols[0].name, "start");
    assert_eq!(symbols[0].offset, 0);
    assert_eq!(symbols[1].name, "empty");
    assert_eq!(symbols[1].offset, 7);
    assert_eq!(symbols[2].name, "work");
    assert_eq!(symbols[2].offset, 7);
    for s in &symbols {
        assert_eq!(s.sindex, 1);
        assert_eq!(s.visibility, Visibility::Local);
        assert_eq!(s.stype, SymbolType::NoType);
    }
    assert_eq!(relocs.len(), 3);
    assert_eq!(relocs[0].symbol, "work");
    assert_eq!(relocs[0].offset, 2);
    assert_eq!(relocs[1].symbol, "msg");
    assert_eq!(relocs[1].offset, 11);
    assert_eq!(relocs[2].symbol, "start");
    assert_eq!(relocs[2].offset, 16);
    for r in &relocs {
        assert!(r.offset as usize + r.size as usize <= bytes.len());
    }
}
