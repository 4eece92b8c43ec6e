//! The outline of a document: the symbols that are written in it.
use vstd::prelude::*;

verus! {

use crate::ast::{Enum, EnumCase, Function, Item, Module, Struct, StructField, Type, type_text};
use crate::lsp::completion::{show_signature, signature_text};
use crate::lsp::position::{Range, name_range, name_selection_range, range_of, span_to_range};
use crate::model::{
    EnumCaseV, FunctionV, ItemV, StructFieldV, TypeV, enum_case_v, enum_cases_v, enum_v, function_v,
    functions_v, group_list_views, impl_block_v, item_v, macro_def_v, module_v, opt_type_v,
    struct_field_v, struct_fields_v, struct_v, trait_def_v, type_alias_v, var_decl_v,
};
use crate::text::{cat2, cat3, cat4, join, join_v, opt_str_v};
use crate::token::Span;

broadcast use group_list_views;

/// What a symbol stands for.
#[derive(Debug, Clone, Copy, PartialEq, Eq, Structural)]
pub enum SymbolKind {
    Function,
    Struct,
    Field,
    Enum,
    EnumMember,
    Interface,
    Method,
    Object,
    TypeParameter,
    Variable,
    Constant,
}

/// A symbol of an outline, with the symbols inside it.
#[derive(Debug)]
pub struct DocumentSymbol {
    pub name: String,
    pub detail: Option<String>,
    pub kind: SymbolKind,
    pub range: Range,
    pub selection_range: Range,
    pub children: Option<Vec<DocumentSymbol>>,
}

/// The model of a [`DocumentSymbol`].
#[verifier::ext_equal]
pub struct SymbolV {
    pub name: Seq<char>,
    pub detail: Option<Seq<char>>,
    pub kind: SymbolKind,
    pub range: Range,
    pub selection_range: Range,
    pub children: Option<Seq<SymbolV>>,
}

pub open spec fn symbol_v(s: DocumentSymbol) -> SymbolV
    decreases s,
{
    SymbolV {
        name: s.name@,
        detail: opt_str_v(s.detail),
        kind: s.kind,
        range: s.range,
        selection_range: s.selection_range,
        children: match s.children {
            None => None,
            Some(v) => Some(symbols_v(v@)),
        },
    }
}

pub open spec fn symbols_v(s: Seq<DocumentSymbol>) -> Seq<SymbolV>
    decreases s,
{
    Seq::new(
        s.len(),
        |i: int|
            if 0 <= i < s.len() {
                symbol_v(s[i])
            } else {
                arbitrary()
            },
    )
}

impl View for DocumentSymbol {
    type V = SymbolV;

    open spec fn view(&self) -> SymbolV {
        symbol_v(*self)
    }
}

proof fn lemma_symbols_push(s: Seq<DocumentSymbol>, x: DocumentSymbol)
    ensures
        symbols_v(s.push(x)) == symbols_v(s).push(symbol_v(x)),
{
    assert(symbols_v(s.push(x)) =~= symbols_v(s).push(symbol_v(x)));
}

/// A symbol at a place of a source.
pub open spec fn symbol_at(
    src: Seq<char>,
    span: Span,
    name: Seq<char>,
    detail: Option<Seq<char>>,
    kind: SymbolKind,
    children: Seq<SymbolV>,
) -> SymbolV {
    SymbolV {
        name,
        detail,
        kind,
        range: range_of(src, span),
        selection_range: name_range(src, span, name),
        children: if children.len() == 0 {
            None
        } else {
            Some(children)
        },
    }
}

/// A symbol at a place of a source.
pub fn make_symbol(
    source: &str,
    span: &Span,
    name: String,
    detail: Option<String>,
    kind: SymbolKind,
    children: Vec<DocumentSymbol>,
) -> (r: DocumentSymbol)
    ensures
        r@ == symbol_at(source@, *span, name@, opt_str_v(detail), kind, symbols_v(children@)),
{
    let range = span_to_range(source, span);
    let selection_range = name_selection_range(source, span, &name);
    let children = if children.len() == 0 {
        None
    } else {
        Some(children)
    };
    DocumentSymbol { name, detail, kind, range, selection_range, children }
}

/// The symbol of a function.
pub open spec fn function_symbol_of(src: Seq<char>, f: FunctionV, kind: SymbolKind) -> SymbolV {
    symbol_at(src, f.span, f.name, Some(signature_text(f)), kind, Seq::empty())
}

/// The symbol of a function.
pub fn function_symbol(f: &Function, source: &str, kind: SymbolKind) -> (r: DocumentSymbol)
    ensures
        r@ == function_symbol_of(source@, f@, kind),
{
    let ghost g = function_v(*f);
    let inner: Vec<DocumentSymbol> = Vec::new();
    make_symbol(source, &f.span, f.name.clone(), Some(show_signature(f)), kind, inner)
}

/// The symbols of the fields of a struct.
pub open spec fn field_symbols(src: Seq<char>, fields: Seq<StructFieldV>) -> Seq<SymbolV> {
    Seq::new(
        fields.len(),
        |i: int|
            symbol_at(
                src,
                fields[i].span,
                fields[i].name,
                Some(type_text(fields[i].ty)),
                SymbolKind::Field,
                Seq::empty(),
            ),
    )
}

/// The symbols of the cases of an enum.
pub open spec fn case_symbols(src: Seq<char>, cases: Seq<EnumCaseV>) -> Seq<SymbolV> {
    Seq::new(
        cases.len(),
        |i: int|
            symbol_at(
                src,
                cases[i].span,
                cases[i].name,
                opt_type_text(cases[i].payload),
                SymbolKind::EnumMember,
                Seq::empty(),
            ),
    )
}

pub open spec fn opt_type_text(t: Option<TypeV>) -> Option<Seq<char>> {
    match t {
        Some(t) => Some(type_text(t)),
        None => None,
    }
}

/// The symbols of methods.
pub open spec fn method_symbols(src: Seq<char>, fs: Seq<FunctionV>) -> Seq<SymbolV> {
    Seq::new(fs.len(), |i: int| function_symbol_of(src, fs[i], SymbolKind::Method))
}

/// The symbol of an item. A call of a macro has none.
pub open spec fn item_symbol(src: Seq<char>, x: ItemV) -> Option<SymbolV> {
    match x {
        ItemV::Function(f) => Some(function_symbol_of(src, f, SymbolKind::Function)),
        ItemV::Struct(s) => Some(
            symbol_at(
                src,
                s.span,
                s.name,
                None,
                SymbolKind::Struct,
                field_symbols(src, s.fields),
            ),
        ),
        ItemV::Enum(e) => Some(
            symbol_at(src, e.span, e.name, None, SymbolKind::Enum, case_symbols(src, e.cases)),
        ),
        ItemV::Trait(t) => Some(
            symbol_at(
                src,
                t.span,
                t.name,
                None,
                SymbolKind::Interface,
                method_symbols(src, t.methods),
            ),
        ),
        ItemV::Impl(b) => Some(
            symbol_at(
                src,
                b.span,
                "impl "@ + b.trait_name + " for "@ + type_text(b.target_type),
                None,
                SymbolKind::Object,
                method_symbols(src, b.methods),
            ),
        ),
        ItemV::TypeAlias(t) => Some(
            symbol_at(
                src,
                t.span,
                t.name,
                Some("type = "@ + type_text(t.ty)),
                SymbolKind::TypeParameter,
                Seq::empty(),
            ),
        ),
        ItemV::VarDecl(v) => Some(
            symbol_at(
                src,
                v.span,
                v.name,
                opt_type_text(v.ty),
                if v.is_mut {
                    SymbolKind::Variable
                } else {
                    SymbolKind::Constant
                },
                Seq::empty(),
            ),
        ),
        ItemV::Macro(m) => Some(
            symbol_at(
                src,
                m.span,
                m.name,
                Some("macro("@ + join_v(m.params, ", "@) + ")"@),
                SymbolKind::Function,
                Seq::empty(),
            ),
        ),
        ItemV::MacroCall(_) => None,
    }
}

/// The symbols of the items from `i` on.
pub open spec fn outline_from(src: Seq<char>, items: Seq<ItemV>, i: int) -> Seq<SymbolV>
    decreases items.len() - i,
{
    if i < 0 || i >= items.len() {
        Seq::empty()
    } else {
        (match item_symbol(src, items[i]) {
            Some(s) => seq![s],
            None => Seq::empty(),
        }) + outline_from(src, items, i + 1)
    }
}

fn show_opt_type(t: &Option<Type>) -> (r: Option<String>)
    ensures
        opt_str_v(r) == opt_type_text(opt_type_v(*t)),
{
    match t {
        Some(t) => Some(t.display()),
        None => None,
    }
}

fn symbols_of_fields(fields: &Vec<StructField>, source: &str) -> (r: Vec<DocumentSymbol>)
    ensures
        symbols_v(r@) == field_symbols(source@, struct_fields_v(fields@)),
{
    let ghost all = field_symbols(source@, struct_fields_v(fields@));
    let mut out: Vec<DocumentSymbol> = Vec::new();
    let mut i: usize = 0;
    while i < fields.len()
        invariant
            i <= fields.len(),
            all == field_symbols(source@, struct_fields_v(fields@)),
            symbols_v(out@) == all.take(i as int),
        decreases fields.len() - i,
    {
        let ghost fv = struct_field_v(fields[i as int]);
        let f = &fields[i];
        let inner: Vec<DocumentSymbol> = Vec::new();
        let ty = Some(f.ty.display());
        let s = make_symbol(source, &f.span, f.name.clone(), ty, SymbolKind::Field, inner);
        assert(s@ == all[i as int]);
        proof {
            lemma_symbols_push(out@, s);
        }
        out.push(s);
        assert(all.take(i + 1) =~= all.take(i as int).push(all[i as int]));
        i = i + 1;
    }
    assert(all.take(i as int) =~= all);
    out
}

fn symbols_of_cases(cases: &Vec<EnumCase>, source: &str) -> (r: Vec<DocumentSymbol>)
    ensures
        symbols_v(r@) == case_symbols(source@, enum_cases_v(cases@)),
{
    let ghost all = case_symbols(source@, enum_cases_v(cases@));
    let mut out: Vec<DocumentSymbol> = Vec::new();
    let mut i: usize = 0;
    while i < cases.len()
        invariant
            i <= cases.len(),
            all == case_symbols(source@, enum_cases_v(cases@)),
            symbols_v(out@) == all.take(i as int),
        decreases cases.len() - i,
    {
        let ghost cv = enum_case_v(cases[i as int]);
        let c = &cases[i];
        let inner: Vec<DocumentSymbol> = Vec::new();
        let ty = show_opt_type(&c.payload);
        let s = make_symbol(source, &c.span, c.name.clone(), ty, SymbolKind::EnumMember, inner);
        assert(s@ == all[i as int]);
        proof {
            lemma_symbols_push(out@, s);
        }
        out.push(s);
        assert(all.take(i + 1) =~= all.take(i as int).push(all[i as int]));
        i = i + 1;
    }
    assert(all.take(i as int) =~= all);
    out
}

fn symbols_of_methods(fs: &Vec<Function>, source: &str) -> (r: Vec<DocumentSymbol>)
    ensures
        symbols_v(r@) == method_symbols(source@, functions_v(fs@)),
{
    let ghost all = method_symbols(source@, functions_v(fs@));
    let mut out: Vec<DocumentSymbol> = Vec::new();
    let mut i: usize = 0;
    while i < fs.len()
        invariant
            i <= fs.len(),
            all == method_symbols(source@, functions_v(fs@)),
            symbols_v(out@) == all.take(i as int),
        decreases fs.len() - i,
    {
        let ghost fv = function_v(fs[i as int]);
        let s = function_symbol(&fs[i], source, SymbolKind::Method);
        assert(s@ == all[i as int]);
        proof {
            lemma_symbols_push(out@, s);
        }
        out.push(s);
        assert(all.take(i + 1) =~= all.take(i as int).push(all[i as int]));
        i = i + 1;
    }
    assert(all.take(i as int) =~= all);
    out
}

pub open spec fn opt_symbol_v(s: Option<DocumentSymbol>) -> Option<SymbolV> {
    match s {
        Some(s) => Some(s@),
        None => None,
    }
}

fn symbol_of_item(item: &Item, source: &str) -> (r: Option<DocumentSymbol>)
    ensures
        opt_symbol_v(r) == item_symbol(source@, item@),
{
    let ghost g = item_v(*item);
    let inner: Vec<DocumentSymbol> = Vec::new();
    let s = match item {
        Item::Function(f) => function_symbol(f, source, SymbolKind::Function),
        Item::Struct(s) => {
            let ghost sv = struct_v(*s);
            let fields = symbols_of_fields(&s.fields, source);
            make_symbol(source, &s.span, s.name.clone(), None, SymbolKind::Struct, fields)
        },
        Item::Enum(e) => {
            let ghost ev = enum_v(*e);
            let cases = symbols_of_cases(&e.cases, source);
            make_symbol(source, &e.span, e.name.clone(), None, SymbolKind::Enum, cases)
        },
        Item::Trait(t) => {
            let ghost tv = trait_def_v(*t);
            let methods = symbols_of_methods(&t.methods, source);
            make_symbol(source, &t.span, t.name.clone(), None, SymbolKind::Interface, methods)
        },
        Item::Impl(b) => {
            let ghost bv = impl_block_v(*b);
            let methods = symbols_of_methods(&b.methods, source);
            let name = cat4("impl ", &b.trait_name, " for ", &b.target_type.display());
            make_symbol(source, &b.span, name, None, SymbolKind::Object, methods)
        },
        Item::TypeAlias(t) => {
            let ghost tv = type_alias_v(*t);
            let detail = Some(cat2("type = ", &t.ty.display()));
            make_symbol(source, &t.span, t.name.clone(), detail, SymbolKind::TypeParameter, inner)
        },
        Item::VarDecl(v) => {
            let ghost vv = var_decl_v(*v);
            let kind = if v.is_mut {
                SymbolKind::Variable
            } else {
                SymbolKind::Constant
            };
            let detail = show_opt_type(&v.ty);
            make_symbol(source, &v.span, v.name.clone(), detail, kind, inner)
        },
        Item::Macro(m) => {
            let ghost mv = macro_def_v(*m);
            let detail = Some(cat3("macro(", &join(&m.params, ", "), ")"));
            make_symbol(source, &m.span, m.name.clone(), detail, SymbolKind::Function, inner)
        },
        Item::MacroCall(_) => {
            return None;
        },
    };
    Some(s)
}

/// The outline of a module.
pub fn build_document_symbols(module: &Module, source: &str) -> (r: Vec<DocumentSymbol>)
    ensures
        symbols_v(r@) == outline_from(source@, module@.items, 0),
{
    let ghost m = module_v(*module);
    let mut out: Vec<DocumentSymbol> = Vec::new();
    let mut i: usize = 0;
    assert(symbols_v(out@) + outline_from(source@, m.items, 0) =~= outline_from(
        source@,
        m.items,
        0,
    ));
    while i < module.items.len()
        invariant
            i <= module.items.len(),
            m == module_v(*module),
            symbols_v(out@) + outline_from(source@, m.items, i as int) == outline_from(
                source@,
                m.items,
                0,
            ),
        decreases module.items.len() - i,
    {
        let ghost before = symbols_v(out@);
        let ghost rest = outline_from(source@, m.items, i + 1);
        let ghost g = item_v(module.items[i as int]);
        assert(g == m.items[i as int]);
        match symbol_of_item(&module.items[i], source) {
            Some(s) => {
                proof {
                    lemma_symbols_push(out@, s);
                }
                out.push(s);
                assert(before + (seq![s@] + rest) =~= symbols_v(out@) + rest);
            },
            None => {
                assert(before + (Seq::<SymbolV>::empty() + rest) =~= before + rest);
            },
        }
        i = i + 1;
    }
    assert(symbols_v(out@) + Seq::<SymbolV>::empty() =~= symbols_v(out@));
    out
}


// ----------------------------------------------------------------------------- laws

/// The outline of a source has the symbols of its items in their order.
pub proof fn law_outline_in_order(src: Seq<char>, items: Seq<ItemV>, x: ItemV, i: int)
    requires
        0 <= i <= items.len(),
    ensures
        outline_from(src, items.push(x), i) == outline_from(src, items, i) + (match item_symbol(
            src,
            x,
        ) {
            Some(s) => seq![s],
            None => Seq::empty(),
        }),
    decreases items.len() - i,
{
    let more = items.push(x);
    if i < items.len() {
        assert(more[i] == items[i]);
        law_outline_in_order(src, items, x, i + 1);
        let rest = outline_from(src, items, i + 1);
        let last = match item_symbol(src, x) {
            Some(s) => seq![s],
            None => Seq::empty(),
        };
        match item_symbol(src, items[i]) {
            Some(s) => {
                assert(seq![s] + (rest + last) =~= seq![s] + rest + last);
            },
            None => {
                assert(Seq::<SymbolV>::empty() + (rest + last) =~= Seq::<SymbolV>::empty() + rest
                    + last);
            },
        }
    } else {
        assert(outline_from(src, more, i + 1) =~= Seq::empty());
        assert(outline_from(src, items, i) =~= Seq::empty());
    }
}

/// The symbol of a function, a struct or an enum has its name; below that of a struct stand
/// its fields with their types and below that of an enum its cases, in their order.
pub proof fn law_symbols_are_named(src: Seq<char>, x: ItemV)
    ensures
        x matches ItemV::Function(f) ==> (item_symbol(src, x) matches Some(s) && s.name == f.name
            && s.kind == SymbolKind::Function && s.children is None),
        x matches ItemV::Struct(t) ==> (item_symbol(src, x) matches Some(s) && s.name == t.name
            && s.kind == SymbolKind::Struct && (t.fields.len() == 0 <==> s.children is None) && (
        s.children matches Some(cs) ==> cs.len() == t.fields.len() && forall|k: int|
            0 <= k < cs.len() ==> (#[trigger] cs[k]).name == t.fields[k].name && cs[k].detail
                == Some(type_text(t.fields[k].ty)))),
        x matches ItemV::Enum(t) ==> (item_symbol(src, x) matches Some(s) && s.name == t.name
            && s.kind == SymbolKind::Enum && (t.cases.len() == 0 <==> s.children is None) && (
        s.children matches Some(cs) ==> cs.len() == t.cases.len() && forall|k: int|
            0 <= k < cs.len() ==> (#[trigger] cs[k]).name == t.cases[k].name)),
{
}

} // verus!
