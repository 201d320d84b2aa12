use vstd::prelude::*;
use crate::enc::bounds::lemma_reloc_within;
use crate::enc::comp::compile_instruction;
use crate::enc::comp::encodable;
use crate::enc::comp::spec_compile;
use crate::enc::comp::spec_reloc;
use crate::shr::ast::Instruction;
use crate::shr::ast::Label;
use crate::shr::reloc::Relocation;
use crate::shr::reloc::RelocationView;
use crate::shr::symbol::Symbol;
use crate::shr::symbol::SymbolType;
use crate::shr::symbol::SymbolView;
use crate::shr::symbol::Visibility;
use crate::shr::var::VarContent;
use crate::shr::var::Variable;

verus! {

/// Whether `name` is one of `globals`.
pub open spec fn is_global(globals: Seq<String>, name: Seq<char>) -> bool {
    exists|j: int| 0 <= j < globals.len() && #[trigger] globals[j]@ == name
}

fn global_named(globals: &Vec<String>, name: &String) -> (r: bool)
    ensures
        r == is_global(globals@, name@),
{
    let mut j: usize = 0;
    while j < globals.len()
        invariant
            j <= globals@.len(),
            forall|k: int| 0 <= k < j ==> #[trigger] globals@[k]@ != name@,
        decreases globals@.len() - j,
    {
        if globals[j] == *name {
            return true;
        }
        j = j + 1;
    }
    false
}

/// Makes every symbol global whose name is one of `globals`; all else stays.
pub fn make_globals(symbols: &mut Vec<Symbol>, globals: &Vec<String>)
    ensures
        final(symbols)@.len() == old(symbols)@.len(),
        forall|i: int|
            0 <= i < old(symbols)@.len() ==> (#[trigger] final(symbols)@[i]).content == old(
                symbols,
            )@[i].content && final(symbols)@[i].name == old(symbols)@[i].name,
        forall|i: int|
            0 <= i < old(symbols)@.len() ==> #[trigger] final(symbols)@[i]@ == (if is_global(
                globals@,
                old(symbols)@[i].name@,
            ) {
                old(symbols)@[i]@.global()
            } else {
                old(symbols)@[i]@
            }),
{
    let n = symbols.len();
    let mut i: usize = 0;
    while i < n
        invariant
            i <= n,
            n == old(symbols)@.len(),
            symbols@.len() == n,
            forall|k: int|
                0 <= k < i ==> #[trigger] symbols@[k]@ == (if is_global(globals@, old(symbols)@[k].name@) {
                    old(symbols)@[k]@.global()
                } else {
                    old(symbols)@[k]@
                }),
            forall|k: int| i <= k < n ==> symbols@[k] == old(symbols)@[k],
            forall|k: int|
                0 <= k < n ==> (#[trigger] symbols@[k]).content == old(symbols)@[k].content && symbols@[k].name
                    == old(symbols)@[k].name,
        decreases n - i,
    {
        if global_named(globals, &symbols[i].name) {
            symbols[i].visibility = Visibility::Global;
        }
        i = i + 1;
    }
}

/// The symbol that stands for an external name: undefined, global, at
/// offset 0 of section 0.
pub open spec fn extern_symbol(name: Seq<char>) -> SymbolView {
    SymbolView {
        name,
        offset: 0,
        size: None,
        sindex: 0,
        stype: SymbolType::NoType,
        visibility: Visibility::Global,
        content: None,
        addend: 0,
        addt: 0,
    }
}

/// One undefined global symbol for each external name, in their order.
pub fn extern_trf(externs: &Vec<String>) -> (symbols: Vec<Symbol>)
    ensures
        symbols@.len() == externs@.len(),
        forall|i: int| 0 <= i < externs@.len() ==> #[trigger] symbols@[i]@ == extern_symbol(externs@[i]@),
{
    let mut symbols: Vec<Symbol> = Vec::new();
    let mut i: usize = 0;
    while i < externs.len()
        invariant
            i <= externs@.len(),
            symbols@.len() == i,
            forall|k: int| 0 <= k < i ==> #[trigger] symbols@[k]@ == extern_symbol(externs@[k]@),
        decreases externs@.len() - i,
    {
        symbols.push(
            Symbol {
                name: externs[i].clone(),
                offset: 0,
                size: None,
                sindex: 0,
                stype: SymbolType::NoType,
                visibility: Visibility::Global,
                content: None,
                addend: 0,
                addt: 0,
            },
        );
        i = i + 1;
    }
    symbols
}

/// The sizes of the first `n` variables, added up: the offset at which
/// variable `n` stands in its section.
pub open spec fn var_offset(vars: Seq<&Variable>, n: int) -> int
    decreases n,
{
    if n <= 0 {
        0
    } else {
        var_offset(vars, n - 1) + vars[n - 1].size
    }
}

/// The bytes of the first `n` variables, one after the other.
pub open spec fn var_bytes(vars: Seq<&Variable>, n: int) -> Seq<u8>
    decreases n,
{
    if n <= 0 {
        Seq::empty()
    } else {
        var_bytes(vars, n - 1) + vars[n - 1].content.spec_bytes()
    }
}

/// The symbol of the variable at position `i` of a data section.
pub open spec fn var_symbol(vars: Seq<&Variable>, i: int, sindex: u16, addt: u8) -> SymbolView {
    SymbolView {
        name: vars[i].name@,
        offset: var_offset(vars, i) as u64,
        size: Some(vars[i].size),
        sindex,
        stype: SymbolType::Object,
        visibility: vars[i].visibility,
        content: match vars[i].content {
            VarContent::Uninit => None,
            c => Some(c@),
        },
        addend: 0,
        addt,
    }
}

/// Lays out a data section: the bytes of its variables in their order, and
/// for each an object symbol at the offset that the sizes before it add up
/// to. A variable without content reserves its size and gives no bytes.
pub fn compile_section(vars: &Vec<&Variable>, sindex: u16, addt: u8) -> (out: (Vec<u8>, Vec<Symbol>))
    requires
        var_offset(vars@, vars@.len() as int) <= u64::MAX,
    ensures
        out.0@ == var_bytes(vars@, vars@.len() as int),
        out.1@.len() == vars@.len(),
        forall|i: int| 0 <= i < vars@.len() ==> #[trigger] out.1@[i]@ == var_symbol(vars@, i, sindex, addt),
{
    let mut buf: Vec<u8> = Vec::new();
    let mut symbols: Vec<Symbol> = Vec::new();
    let mut offset: u64 = 0;
    let mut i: usize = 0;
    while i < vars.len()
        invariant
            i <= vars@.len(),
            offset == var_offset(vars@, i as int),
            var_offset(vars@, vars@.len() as int) <= u64::MAX,
            buf@ == var_bytes(vars@, i as int),
            symbols@.len() == i,
            forall|k: int| 0 <= k < i ==> #[trigger] symbols@[k]@ == var_symbol(vars@, k, sindex, addt),
        decreases vars@.len() - i,
    {
        let v = vars[i];
        proof {
            lemma_var_offset_grows(vars@, i as int + 1, vars@.len() as int);
        }
        let content = match &v.content {
            VarContent::Uninit => None,
            c => {
                let mut b = c.bytes();
                buf.append(&mut b);
                Some(c.copy())
            },
        };
        symbols.push(
            Symbol {
                name: v.name.clone(),
                size: Some(v.size),
                sindex,
                stype: SymbolType::Object,
                offset,
                content,
                visibility: v.visibility,
                addend: 0,
                addt,
            },
        );
        offset = offset + v.size as u64;
        i = i + 1;
    }
    (buf, symbols)
}

/// Offsets only grow along a section.
pub proof fn lemma_var_offset_grows(vars: Seq<&Variable>, a: int, b: int)
    requires
        a <= b,
    ensures
        var_offset(vars, a) <= var_offset(vars, b),
        0 <= var_offset(vars, a),
    decreases b,
{
    if a <= 0 {
        if b > 0 {
            lemma_var_offset_grows(vars, a, b - 1);
        }
    } else if a < b {
        lemma_var_offset_grows(vars, a, b - 1);
    } else {
        lemma_var_offset_grows(vars, a - 1, b - 1);
    }
}

/// The bytes of the first `n` instructions of a label, one after the other.
pub open spec fn label_bytes(lbl: Seq<Instruction>, bits: u8, n: int) -> Seq<u8>
    decreases n,
{
    if n <= 0 {
        Seq::empty()
    } else {
        label_bytes(lbl, bits, n - 1) + spec_compile(lbl[n - 1], bits)
    }
}

/// The relocations of the first `n` instructions of a label, each moved by
/// the number of bytes that stand before its instruction.
pub open spec fn label_relocs(lbl: Seq<Instruction>, bits: u8, n: int) -> Seq<RelocationView>
    decreases n,
{
    if n <= 0 {
        Seq::empty()
    } else {
        match spec_reloc(lbl[n - 1], bits) {
            Some(r) => label_relocs(lbl, bits, n - 1).push(r.shifted(label_bytes(lbl, bits, n - 1).len() as int)),
            None => label_relocs(lbl, bits, n - 1),
        }
    }
}

/// The lengths of the first `n` instructions of a label, added up.
pub open spec fn label_len(lbl: Seq<Instruction>, bits: u8, n: int) -> int
    decreases n,
{
    if n <= 0 {
        0
    } else {
        label_len(lbl, bits, n - 1) + spec_compile(lbl[n - 1], bits).len()
    }
}

/// The views of a run of relocations.
pub open spec fn reloc_views(r: Seq<Relocation>) -> Seq<RelocationView> {
    r.map_values(|x: Relocation| x@)
}

/// Encodes the instructions of a label one after the other and moves each
/// relocation by the offset of its instruction.
pub fn compile_label(lbl: &Vec<Instruction>, bits: u8) -> (out: (Vec<u8>, Vec<Relocation>))
    requires
        forall|i: int| 0 <= i < lbl@.len() ==> encodable(#[trigger] lbl@[i]),
    ensures
        out.0@ == label_bytes(lbl@, bits, lbl@.len() as int),
        reloc_views(out.1@) == label_relocs(lbl@, bits, lbl@.len() as int),
        out.0@.len() == label_len(lbl@, bits, lbl@.len() as int),
{
    let mut bytes: Vec<u8> = Vec::new();
    let mut reallocs: Vec<Relocation> = Vec::new();
    let mut i: usize = 0;
    while i < lbl.len()
        invariant
            i <= lbl@.len(),
            forall|k: int| 0 <= k < lbl@.len() ==> encodable(#[trigger] lbl@[k]),
            bytes@ == label_bytes(lbl@, bits, i as int),
            bytes@.len() == label_len(lbl@, bits, i as int),
            reloc_views(reallocs@) =~= label_relocs(lbl@, bits, i as int),
        decreases lbl@.len() - i,
    {
        let res = compile_instruction(&lbl[i], bits);
        let mut code = res.0;
        let before = bytes.len();
        bytes.append(&mut code);
        let total = bytes.len();
        if let Some(mut rl) = res.1 {
            assert(rl.offset + 4 <= total - before) by {
                lemma_reloc_within(lbl@[i as int], bits);
            }
            rl.offset = rl.offset + before as u64;
            reallocs.push(rl);
        }
        i = i + 1;
    }
    (bytes, reallocs)
}

/// The bytes of a label are as many as the lengths of its instructions add
/// up to.
pub proof fn lemma_label_len(lbl: Seq<Instruction>, bits: u8, n: int)
    ensures
        label_bytes(lbl, bits, n).len() == label_len(lbl, bits, n),
        0 <= label_len(lbl, bits, n),
    decreases n,
{
    if n > 0 {
        lemma_label_len(lbl, bits, n - 1);
    }
}

/// In a label whose bytes offsets can count, every instruction is at most
/// fifteen bytes long, and every relocation, moved to its place in the
/// label, names a field that lies within the bytes of the label.
pub proof fn lemma_label_layout(lbl: Seq<Instruction>, bits: u8, n: int)
    requires
        0 <= n <= lbl.len(),
        label_len(lbl, bits, n) <= u64::MAX,
        forall|i: int| 0 <= i < lbl.len() ==> encodable(#[trigger] lbl[i]),
    ensures
        label_bytes(lbl, bits, n).len() == label_len(lbl, bits, n),
        label_len(lbl, bits, n) <= 15 * n,
        label_relocs(lbl, bits, n).len() <= n,
        forall|k: int|
            0 <= k < label_relocs(lbl, bits, n).len() ==> (#[trigger] label_relocs(lbl, bits, n)[k]).offset
                + label_relocs(lbl, bits, n)[k].size <= label_bytes(lbl, bits, n).len(),
    decreases n,
{
    lemma_label_len(lbl, bits, n);
    if n > 0 {
        lemma_label_len(lbl, bits, n - 1);
        lemma_label_layout(lbl, bits, n - 1);
        let ins = lbl[n - 1];
        crate::enc::bounds::lemma_compile_len(ins, bits);
        if spec_reloc(ins, bits) is Some {
            lemma_reloc_within(ins, bits);
        }
    }
}

/// The bytes of the first `n` labels of a code section, one after the
/// other.
pub open spec fn code_bytes(labels: Seq<Label>, bits: u8, n: int) -> Seq<u8>
    decreases n,
{
    if n <= 0 {
        Seq::empty()
    } else {
        code_bytes(labels, bits, n - 1) + label_bytes(labels[n - 1].inst@, bits, labels[n - 1].inst@.len() as int)
    }
}

/// The relocations of the first `n` labels of a code section, each moved
/// by the number of bytes that stand before its label.
pub open spec fn code_relocs(labels: Seq<Label>, bits: u8, n: int) -> Seq<RelocationView>
    decreases n,
{
    if n <= 0 {
        Seq::empty()
    } else {
        code_relocs(labels, bits, n - 1) + label_relocs(
            labels[n - 1].inst@,
            bits,
            labels[n - 1].inst@.len() as int,
        ).map_values(|r: RelocationView| r.shifted(code_bytes(labels, bits, n - 1).len() as int))
    }
}

/// The symbol of the label at position `i` of a code section: local, at the
/// offset of its first byte.
pub open spec fn label_symbol(labels: Seq<Label>, bits: u8, i: int, sindex: u16) -> SymbolView {
    SymbolView {
        name: labels[i].name@,
        offset: code_bytes(labels, bits, i).len() as u64,
        size: None,
        sindex,
        stype: SymbolType::NoType,
        visibility: Visibility::Local,
        content: None,
        addend: 0,
        addt: 0,
    }
}

/// Whether a code section is one that `compile_code` lays out: every
/// instruction is one that the encoder takes.
pub open spec fn code_fits(labels: Seq<Label>) -> bool {
    forall|i: int, j: int|
        0 <= i < labels.len() && 0 <= j < labels[i].inst@.len() ==> encodable(#[trigger] labels[i].inst@[j])
}

/// The bytes of a code section only grow from label to label.
pub proof fn lemma_code_grows(labels: Seq<Label>, bits: u8, a: int, b: int)
    requires
        a <= b,
    ensures
        code_bytes(labels, bits, a).len() <= code_bytes(labels, bits, b).len(),
    decreases b - a,
{
    if a < b {
        lemma_code_grows(labels, bits, a, b - 1);
    }
}

/// In a code section whose bytes offsets can count, every relocation names
/// a field that lies within the section.
pub proof fn lemma_code_layout(labels: Seq<Label>, bits: u8, n: int)
    requires
        0 <= n <= labels.len(),
        code_fits(labels),
        code_bytes(labels, bits, n).len() <= u64::MAX,
    ensures
        forall|k: int|
            0 <= k < code_relocs(labels, bits, n).len() ==> (#[trigger] code_relocs(labels, bits, n)[k]).offset
                + code_relocs(labels, bits, n)[k].size <= code_bytes(labels, bits, n).len(),
    decreases n,
{
    if n > 0 {
        lemma_code_grows(labels, bits, n - 1, n);
        lemma_code_layout(labels, bits, n - 1);
        let l = labels[n - 1].inst@;
        assert forall|i: int| 0 <= i < l.len() implies encodable(#[trigger] l[i]) by {
            assert(encodable(labels[n - 1].inst@[i]));
        }
        lemma_label_len(l, bits, l.len() as int);
        lemma_label_layout(l, bits, l.len() as int);
    }
}

/// Lays out a code section: the bytes of its labels one after the other,
/// for each label a local symbol at the offset of its first byte, and the
/// relocations of all labels, each moved to its place in the section.
pub fn compile_code(labels: &Vec<Label>, bits: u8, sindex: u16) -> (out: (Vec<u8>, Vec<Symbol>, Vec<Relocation>))
    requires
        code_fits(labels@),
    ensures
        out.0@ == code_bytes(labels@, bits, labels@.len() as int),
        out.1@.len() == labels@.len(),
        forall|i: int|
            0 <= i < labels@.len() ==> #[trigger] out.1@[i]@ == label_symbol(labels@, bits, i, sindex),
        reloc_views(out.2@) == code_relocs(labels@, bits, labels@.len() as int),
{
    let mut bytes: Vec<u8> = Vec::new();
    let mut symbols: Vec<Symbol> = Vec::new();
    let mut relocs: Vec<Relocation> = Vec::new();
    let mut i: usize = 0;
    while i < labels.len()
        invariant
            i <= labels@.len(),
            code_fits(labels@),
            bytes@ == code_bytes(labels@, bits, i as int),
            symbols@.len() == i,
            forall|k: int| 0 <= k < i ==> #[trigger] symbols@[k]@ == label_symbol(labels@, bits, k, sindex),
            reloc_views(relocs@) =~= code_relocs(labels@, bits, i as int),
        decreases labels@.len() - i,
    {
        let label = &labels[i];
        proof {
            assert forall|j: int| 0 <= j < label.inst@.len() implies encodable(#[trigger] label.inst@[j]) by {
                assert(encodable(labels@[i as int].inst@[j]));
            }
        }
        let (mut code, mut rel) = compile_label(&label.inst, bits);
        let origin = bytes.len();
        let width = code.len();
        proof {
            lemma_label_layout(label.inst@, bits, label.inst@.len() as int);
        }
        symbols.push(
            Symbol {
                name: label.name.clone(),
                offset: origin as u64,
                size: None,
                sindex,
                stype: SymbolType::NoType,
                visibility: Visibility::Local,
                content: None,
                addend: 0,
                addt: 0,
            },
        );
        bytes.append(&mut code);
        let total = bytes.len();
        let ghost before = reloc_views(relocs@);
        let ghost these = reloc_views(rel@);
        let n = rel.len();
        let mut k: usize = 0;
        while k < n
            invariant
                k <= n,
                n == rel@.len(),
                origin + width == total,
                forall|j: int| k <= j < n ==> (#[trigger] rel@[j])@ == these[j],
                forall|j: int| 0 <= j < n ==> (#[trigger] these[j]).offset + these[j].size <= width,
                these.len() == n,
                forall|j: int| 0 <= j < k ==> (#[trigger] rel@[j])@ == these[j].shifted(origin as int),
            decreases n - k,
        {
            let mut r = rel[k].clone_relocation();
            r.offset = r.offset + origin as u64;
            rel.set(k, r);
            k = k + 1;
        }
        assert(reloc_views(rel@) =~= these.map_values(|r: RelocationView| r.shifted(origin as int)));
        relocs.append(&mut rel);
        assert(reloc_views(relocs@) =~= before + these.map_values(
            |r: RelocationView| r.shifted(origin as int),
        ));
        i = i + 1;
    }
    (bytes, symbols, relocs)
}

} // verus!
