use vstd::prelude::*;
use crate::enc::comp::encodable;
use crate::enc::section::code_bytes;
use crate::enc::section::code_fits;
use crate::enc::section::code_relocs;
use crate::enc::section::compile_code;
use crate::enc::section::compile_section;
use crate::enc::section::extern_symbol;
use crate::enc::section::extern_trf;
use crate::enc::section::is_global;
use crate::enc::section::label_symbol;
use crate::enc::section::make_globals;
use crate::enc::section::reloc_views;
use crate::enc::section::var_bytes;
use crate::enc::section::var_offset;
use crate::enc::section::var_symbol;
use crate::pre::chk::check_ast;
use crate::pre::chk::file_errors;
use crate::pre::chk::label_errors;
use crate::pre::chk::report_view;
use crate::pre::chk::spec_check_ins;
use crate::pre::sound::lemma_checked_is_encodable;
use crate::shr::ast::Instruction;
use crate::shr::ast::Label;
use crate::shr::ast::AST;
use crate::shr::error::RASMError;
use crate::shr::error::RASMErrorView;
use crate::shr::reloc::Relocation;
use crate::shr::symbol::Symbol;
use crate::shr::symbol::SymbolView;
use crate::shr::var::Variable;

verus! {

/// What the writer of an object file takes over: the bytes of the code
/// section and of the data section, the symbols of both followed by those
/// of the external names, and the relocations of the code.
pub struct Object {
    pub text: Vec<u8>,
    pub data: Vec<u8>,
    pub symbols: Vec<Symbol>,
    pub relocations: Vec<Relocation>,
}

/// The index of the code section in the object file.
pub const TEXT: u16 = 1;

/// The index of the data section in the object file.
pub const DATA: u16 = 2;

/// The mode in which a file is encoded: 64 bits where it says so, else 32.
pub open spec fn spec_mode(bits: Option<u8>) -> u8 {
    if bits == Some(64u8) {
        64
    } else {
        32
    }
}

/// The variables of a file, as `compile_section` takes them.
pub open spec fn var_refs<'a>(vars: &'a Vec<Variable>) -> Seq<&'a Variable> {
    Seq::new(vars@.len(), |i: int| &vars@[i])
}

/// Whether a file is one that `assemble` takes: the kind and the register
/// of every operand go together, and the sizes of the variables add up to
/// what an offset can hold.
pub open spec fn file_wf(file: AST) -> bool {
    &&& forall|i: int, j: int|
        0 <= i < file.labels@.len() && 0 <= j < file.labels@[i].inst@.len() ==> (
        #[trigger] file.labels@[i].inst@[j]).wf()
    &&& var_offset(var_refs(&file.variables), file.variables@.len() as int) <= u64::MAX
}

fn label_is_wf(label: &Label) -> (r: bool)
    ensures
        r == (forall|j: int| 0 <= j < label.inst@.len() ==> (#[trigger] label.inst@[j]).wf()),
{
    let mut j: usize = 0;
    while j < label.inst.len()
        invariant
            j <= label.inst@.len(),
            forall|k: int| 0 <= k < j ==> (#[trigger] label.inst@[k]).wf(),
        decreases label.inst@.len() - j,
    {
        if !label.inst[j].is_wf() {
            return false;
        }
        j = j + 1;
    }
    true
}

fn refs(vars: &Vec<Variable>) -> (r: Vec<&Variable>)
    ensures
        r@ == var_refs(vars),
{
    let mut r: Vec<&Variable> = Vec::new();
    let mut i: usize = 0;
    while i < vars.len()
        invariant
            i <= vars@.len(),
            r@ =~= var_refs(vars).subrange(0, i as int),
        decreases vars@.len() - i,
    {
        r.push(&vars[i]);
        i = i + 1;
    }
    assert(var_refs(vars).subrange(0, vars@.len() as int) =~= var_refs(vars));
    r
}

fn data_fits(vars: &Vec<&Variable>) -> (r: bool)
    ensures
        r == (var_offset(vars@, vars@.len() as int) <= u64::MAX),
{
    let mut total: u64 = 0;
    let mut i: usize = 0;
    while i < vars.len()
        invariant
            i <= vars@.len(),
            total == var_offset(vars@, i as int),
        decreases vars@.len() - i,
    {
        let size = vars[i].size as u64;
        if size > u64::MAX - total {
            proof {
                crate::enc::section::lemma_var_offset_grows(vars@, i as int + 1, vars@.len() as int);
            }
            return false;
        }
        total = total + size;
        i = i + 1;
    }
    true
}

/// Whether a file is one that `assemble` takes.
pub fn file_is_wf(file: &AST) -> (r: bool)
    ensures
        r == file_wf(*file),
{
    let mut i: usize = 0;
    while i < file.labels.len()
        invariant
            i <= file.labels@.len(),
            forall|k: int, j: int|
                0 <= k < i && 0 <= j < file.labels@[k].inst@.len() ==> (#[trigger] file.labels@[k].inst@[j]).wf(),
        decreases file.labels@.len() - i,
    {
        if !label_is_wf(&file.labels[i]) {
            return false;
        }
        i = i + 1;
    }
    let vars = refs(&file.variables);
    data_fits(&vars)
}

/// Where a label has no diagnostic, the checker lets each of its
/// instructions pass.
pub proof fn lemma_label_passed(inst: Seq<Instruction>, bits: Option<u8>, n: int, j: int)
    requires
        0 <= j < n <= inst.len(),
        label_errors(inst, bits, n).len() == 0,
    ensures
        spec_check_ins(&inst[j], bits) is None,
    decreases n,
{
    if j < n - 1 {
        lemma_label_passed(inst, bits, n - 1, j);
    }
}

/// Where a file has no diagnostic, the checker lets every instruction of
/// every label pass.
pub proof fn lemma_file_passed(labels: Seq<Label>, bits: Option<u8>, n: int, i: int, j: int)
    requires
        0 <= i < n <= labels.len(),
        0 <= j < labels[i].inst@.len(),
        file_errors(labels, bits, n).len() == 0,
    ensures
        spec_check_ins(&labels[i].inst@[j], bits) is None,
    decreases n,
{
    if i < n - 1 {
        lemma_file_passed(labels, bits, n - 1, i, j);
    } else {
        lemma_label_passed(labels[i].inst@, bits, labels[i].inst@.len() as int, j);
    }
}

/// The symbols of a file before the global names are marked: those of the
/// labels, then those of the variables, then those of the external names.
pub open spec fn file_symbols(file: AST) -> Seq<SymbolView> {
    let bits = spec_mode(file.bits);
    Seq::new(file.labels@.len(), |i: int| label_symbol(file.labels@, bits, i, TEXT)) + Seq::new(
        file.variables@.len(),
        |i: int| var_symbol(var_refs(&file.variables), i, DATA, 0),
    ) + Seq::new(file.externs@.len(), |i: int| extern_symbol(file.externs@[i]@))
}

/// A symbol as it leaves `assemble`: global where its name is one of
/// `globals`.
pub open spec fn marked(s: SymbolView, globals: Seq<String>) -> SymbolView {
    if is_global(globals, s.name) {
        s.global()
    } else {
        s
    }
}

/// The views of a run of symbols.
pub open spec fn symbol_views(s: Seq<Symbol>) -> Seq<SymbolView> {
    s.map_values(|x: Symbol| x@)
}

/// Checks a file and, where nothing is wrong with it, encodes it. Where any
/// label has a diagnostic, nothing is encoded and the diagnostics of all
/// labels are the result. Else the result holds the code of the labels in
/// their order, the data of the variables, a symbol for each label,
/// variable and external name, global where the file says so, and the
/// relocations of the code.
pub fn assemble(file: &AST) -> (r: Result<Object, Vec<(String, Vec<RASMError>)>>)
    requires
        file_wf(*file),
    ensures
        r is Ok <==> file_errors(file.labels@, file.bits, file.labels@.len() as int).len() == 0,
        r matches Err(e) ==> e@.map_values(|x: (String, Vec<RASMError>)| report_view(x)) == file_errors(
            file.labels@,
            file.bits,
            file.labels@.len() as int,
        ),
        r matches Ok(o) ==> {
            &&& o.text@ == code_bytes(file.labels@, spec_mode(file.bits), file.labels@.len() as int)
            &&& o.data@ == var_bytes(var_refs(&file.variables), file.variables@.len() as int)
            &&& reloc_views(o.relocations@) == code_relocs(
                file.labels@,
                spec_mode(file.bits),
                file.labels@.len() as int,
            )
            &&& symbol_views(o.symbols@) == file_symbols(*file).map_values(
                |s: SymbolView| marked(s, file.globals@),
            )
        },
{
    if let Some(errors) = check_ast(file) {
        return Err(errors);
    }
    let bits: u8 = if file.bits == Some(64) {
        64
    } else {
        32
    };
    proof {
        assert forall|i: int, j: int|
            0 <= i < file.labels@.len() && 0 <= j < file.labels@[i].inst@.len() implies encodable(
            #[trigger] file.labels@[i].inst@[j],
        ) by {
            lemma_file_passed(file.labels@, file.bits, file.labels@.len() as int, i, j);
            lemma_checked_is_encodable(file.labels@[i].inst@[j], bits);
        }
        assert(code_fits(file.labels@));
    }
    let (text, mut symbols, relocations) = compile_code(&file.labels, bits, TEXT);
    let vars = refs(&file.variables);
    let (data, mut data_symbols) = compile_section(&vars, DATA, 0);
    let mut externs = extern_trf(&file.externs);
    symbols.append(&mut data_symbols);
    symbols.append(&mut externs);
    assert(symbol_views(symbols@) =~= file_symbols(*file));
    make_globals(&mut symbols, &file.globals);
    assert(symbol_views(symbols@) =~= file_symbols(*file).map_values(|s: SymbolView| marked(s, file.globals@)));
    Ok(Object { text, data, symbols, relocations })
}

} // verus!
