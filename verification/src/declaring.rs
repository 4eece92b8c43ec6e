//! Reading declarations and modules back from how they are written.
use vstd::prelude::*;

verus! {

use crate::error::CompileErrorV;
use crate::grammar::{
    Input, g_alias, g_cases, g_enum, g_function, g_generic_names, g_generic_params, g_ident, g_impl,
    g_init, g_item, g_items, g_macro_def, g_macro_params, g_methods, g_module, g_opt_type, g_param,
    g_param_list, g_params, g_payload, g_return_type, g_struct, g_struct_fields, g_trait,
    g_trait_method, g_trait_methods, g_type_alias, g_var_decl, kind_at,
};
use crate::grammar_rules::{
    un_cases, un_function, un_generic_names, un_items, un_macro_params, un_methods, un_param,
    un_param_list, un_params, un_struct_fields, un_trait_methods,
};
use crate::model::{
    EnumCaseV, ExprKindV, FunctionV, GenericParamV, ImportV, ItemV, ParamV, StructFieldV, TypeV,
};
use crate::reading::{
    Term, are_statements, braced, is_grouped, kinds, lemma_at, lemma_begins, lemma_block,
    lemma_read, lemma_split, mean_all, means, rank,
};
use crate::round_trip::{args_kinds, is_readable, lemma_parse, path_kinds, stand_at, type_kinds};
use crate::token::TokenKindV;

/// A parameter as it is written: `~name: T = value`.
pub struct Slot {
    pub named: bool,
    pub name: Seq<char>,
    pub ty: TypeV,
    pub default: Option<Term>,
}

/// A method as it is written, with its body or without one.
pub struct Method {
    pub name: Seq<char>,
    pub generics: Seq<Seq<char>>,
    pub params: Seq<Slot>,
    pub ret: Option<TypeV>,
    pub body: Option<Seq<Term>>,
}

/// A declaration as it is written.
pub enum Decl {
    Function {
        is_pub: bool,
        name: Seq<char>,
        generics: Seq<Seq<char>>,
        params: Seq<Slot>,
        ret: Option<TypeV>,
        body: Seq<Term>,
    },
    Struct {
        is_pub: bool,
        name: Seq<char>,
        generics: Seq<Seq<char>>,
        fields: Seq<(Seq<char>, TypeV)>,
    },
    Enum {
        is_pub: bool,
        name: Seq<char>,
        generics: Seq<Seq<char>>,
        cases: Seq<(Seq<char>, Option<TypeV>)>,
    },
    Alias { name: Seq<char>, generics: Seq<Seq<char>>, ty: TypeV },
    Variable { is_mut: bool, name: Seq<char>, note: Option<TypeV>, value: Option<Term> },
    Trait {
        name: Seq<char>,
        generics: Seq<Seq<char>>,
        self_alias: Option<Seq<char>>,
        methods: Seq<Method>,
    },
    Impl {
        trait_name: Seq<char>,
        generics: Seq<Seq<char>>,
        target: TypeV,
        methods: Seq<Method>,
    },
    Macro { name: Seq<char>, names: Seq<Seq<char>>, body: Seq<Term> },
}

/// A parameter that can be read.
pub open spec fn is_slot(s: Slot) -> bool {
    &&& is_readable(s.ty)
    &&& s.default matches Some(t) ==> is_grouped(t) && rank(t) >= 0
}

/// A method whose types and terms can be read.
pub open spec fn is_method(m: Method) -> bool {
    &&& forall|j: int| 0 <= j < m.params.len() ==> is_slot(#[trigger] m.params[j])
    &&& m.ret matches Some(t) ==> is_readable(t)
    &&& m.body matches Some(b) ==> are_statements(b)
}

/// A declaration whose types and terms can be read.
pub open spec fn is_decl(d: Decl) -> bool {
    match d {
        Decl::Function { is_pub, name, generics, params, ret, body } => {
            &&& forall|j: int| 0 <= j < params.len() ==> is_slot(#[trigger] params[j])
            &&& ret matches Some(t) ==> is_readable(t)
            &&& are_statements(body)
        },
        Decl::Struct { is_pub, name, generics, fields } => forall|j: int|
            0 <= j < fields.len() ==> is_readable((#[trigger] fields[j]).1),
        Decl::Enum { is_pub, name, generics, cases } => forall|j: int|
            0 <= j < cases.len() ==> ((#[trigger] cases[j]).1 matches Some(t) ==> is_readable(t)),
        Decl::Alias { name, generics, ty } => is_readable(ty),
        Decl::Variable { is_mut, name, note, value } => {
            &&& note matches Some(t) ==> is_readable(t)
            &&& value matches Some(t) ==> is_grouped(t) && rank(t) >= 0
        },
        Decl::Trait { name, generics, self_alias, methods } => forall|j: int|
            0 <= j < methods.len() ==> is_method(#[trigger] methods[j]),
        Decl::Impl { trait_name, generics, target, methods } => {
            &&& is_readable(target)
            &&& forall|j: int|
                0 <= j < methods.len() ==> is_method(#[trigger] methods[j])
                    && methods[j].body is Some
        },
        Decl::Macro { name, names, body } => are_statements(body),
    }
}

/// The kinds of the tokens of `pub`, where it is written.
pub open spec fn pub_kinds(is_pub: bool) -> Seq<TokenKindV> {
    if is_pub {
        seq![TokenKindV::Pub]
    } else {
        Seq::empty()
    }
}

/// The kinds of the tokens of names from `j` on, with commas between them.
pub open spec fn names_kinds(ns: Seq<Seq<char>>, j: int) -> Seq<TokenKindV>
    decreases ns.len() - j,
{
    if 0 <= j < ns.len() {
        if j + 1 < ns.len() {
            seq![TokenKindV::Ident(ns[j]), TokenKindV::Comma] + names_kinds(ns, j + 1)
        } else {
            seq![TokenKindV::Ident(ns[j])]
        }
    } else {
        Seq::empty()
    }
}

/// The kinds of the tokens of type parameters.
pub open spec fn generics_kinds(ns: Seq<Seq<char>>) -> Seq<TokenKindV> {
    if ns.len() > 0 {
        seq![TokenKindV::LBracket] + names_kinds(ns, 0) + seq![TokenKindV::RBracket]
    } else {
        Seq::empty()
    }
}

/// The kinds of the tokens of a parameter.
pub open spec fn slot_kinds(s: Slot) -> Seq<TokenKindV> {
    (if s.named {
        seq![TokenKindV::Tilde]
    } else {
        Seq::empty()
    }) + seq![TokenKindV::Ident(s.name), TokenKindV::Colon] + type_kinds(s.ty) + match s.default {
        Some(t) => seq![TokenKindV::Eq] + kinds(t),
        None => Seq::empty(),
    }
}

/// The kinds of the tokens of the parameters from `j` on, with commas between them.
pub open spec fn slots_kinds(ss: Seq<Slot>, j: int) -> Seq<TokenKindV>
    decreases ss.len() - j,
{
    if 0 <= j < ss.len() {
        if j + 1 < ss.len() {
            slot_kinds(ss[j]) + seq![TokenKindV::Comma] + slots_kinds(ss, j + 1)
        } else {
            slot_kinds(ss[j])
        }
    } else {
        Seq::empty()
    }
}

/// The kinds of the tokens of a result type.
pub open spec fn ret_kinds(ret: Option<TypeV>) -> Seq<TokenKindV> {
    match ret {
        Some(t) => seq![TokenKindV::Arrow] + type_kinds(t),
        None => Seq::empty(),
    }
}

/// The kinds of the tokens of the fields from `j` on, each with a comma behind it.
pub open spec fn fields_kinds(fs: Seq<(Seq<char>, TypeV)>, j: int) -> Seq<TokenKindV>
    decreases fs.len() - j,
{
    if 0 <= j < fs.len() {
        seq![TokenKindV::Ident(fs[j].0), TokenKindV::Colon] + type_kinds(fs[j].1) + seq![
            TokenKindV::Comma,
        ] + fields_kinds(fs, j + 1)
    } else {
        Seq::empty()
    }
}

/// The kinds of the tokens of a payload.
pub open spec fn payload_kinds(t: Option<TypeV>) -> Seq<TokenKindV> {
    match t {
        Some(t) => seq![TokenKindV::LParen] + type_kinds(t) + seq![TokenKindV::RParen],
        None => Seq::empty(),
    }
}

/// The kinds of the tokens of the cases from `j` on, each with a comma behind it.
pub open spec fn cases_kinds(cs: Seq<(Seq<char>, Option<TypeV>)>, j: int) -> Seq<TokenKindV>
    decreases cs.len() - j,
{
    if 0 <= j < cs.len() {
        seq![TokenKindV::Case, TokenKindV::Ident(cs[j].0)] + payload_kinds(cs[j].1) + seq![
            TokenKindV::Comma,
        ] + cases_kinds(cs, j + 1)
    } else {
        Seq::empty()
    }
}

/// The kinds of the tokens of an annotation.
pub open spec fn note_kinds(t: Option<TypeV>) -> Seq<TokenKindV> {
    match t {
        Some(t) => seq![TokenKindV::Colon] + type_kinds(t),
        None => Seq::empty(),
    }
}

/// The kinds of the tokens of a value.
pub open spec fn value_kinds(t: Option<Term>) -> Seq<TokenKindV> {
    match t {
        Some(t) => seq![TokenKindV::Eq] + kinds(t),
        None => Seq::empty(),
    }
}

/// The kinds of the tokens of a method in front of its body.
pub open spec fn head_kinds(m: Method) -> Seq<TokenKindV> {
    seq![TokenKindV::Func, TokenKindV::Ident(m.name)] + generics_kinds(m.generics) + seq![
        TokenKindV::LParen,
    ] + slots_kinds(m.params, 0) + seq![TokenKindV::RParen] + ret_kinds(m.ret)
}

/// The kinds of the tokens of a method.
pub open spec fn method_kinds(m: Method) -> Seq<TokenKindV> {
    head_kinds(m) + match m.body {
        Some(b) => braced(b),
        None => seq![TokenKindV::Semicolon],
    }
}

/// The kinds of the tokens of the methods from `j` on.
pub open spec fn methods_kinds(ms: Seq<Method>, j: int) -> Seq<TokenKindV>
    decreases ms.len() - j,
{
    if 0 <= j < ms.len() {
        method_kinds(ms[j]) + methods_kinds(ms, j + 1)
    } else {
        Seq::empty()
    }
}

/// The kinds of the tokens of the name by which a trait calls its type.
pub open spec fn self_kinds(name: Option<Seq<char>>) -> Seq<TokenKindV> {
    match name {
        Some(n) => seq![TokenKindV::As, TokenKindV::Ident(n)],
        None => Seq::empty(),
    }
}

/// The kinds of the tokens of a declaration.
pub open spec fn decl_kinds(d: Decl) -> Seq<TokenKindV> {
    match d {
        Decl::Function { is_pub, name, generics, params, ret, body } => pub_kinds(is_pub) + seq![
            TokenKindV::Func,
            TokenKindV::Ident(name),
        ] + generics_kinds(generics) + seq![TokenKindV::LParen] + slots_kinds(params, 0) + seq![
            TokenKindV::RParen,
        ] + ret_kinds(ret) + braced(body),
        Decl::Struct { is_pub, name, generics, fields } => pub_kinds(is_pub) + seq![
            TokenKindV::Struct,
            TokenKindV::Ident(name),
        ] + generics_kinds(generics) + seq![TokenKindV::LBrace] + fields_kinds(fields, 0) + seq![
            TokenKindV::RBrace,
        ],
        Decl::Enum { is_pub, name, generics, cases } => pub_kinds(is_pub) + seq![
            TokenKindV::Enum,
            TokenKindV::Ident(name),
        ] + generics_kinds(generics) + seq![TokenKindV::LBrace] + cases_kinds(cases, 0) + seq![
            TokenKindV::RBrace,
        ],
        Decl::Alias { name, generics, ty } => seq![TokenKindV::Type, TokenKindV::Ident(name)]
            + generics_kinds(generics) + seq![TokenKindV::Eq] + type_kinds(ty) + seq![
            TokenKindV::Semicolon,
        ],
        Decl::Variable { is_mut, name, note, value } => seq![
            if is_mut {
                TokenKindV::Var
            } else {
                TokenKindV::Let
            },
            TokenKindV::Ident(name),
        ] + note_kinds(note) + value_kinds(value) + seq![TokenKindV::Semicolon],
        Decl::Trait { name, generics, self_alias, methods } => seq![
            TokenKindV::Trait,
            TokenKindV::Ident(name),
        ] + generics_kinds(generics) + self_kinds(self_alias) + seq![TokenKindV::LBrace]
            + methods_kinds(methods, 0) + seq![TokenKindV::RBrace],
        Decl::Impl { trait_name, generics, target, methods } => seq![
            TokenKindV::Impl,
            TokenKindV::Ident(trait_name),
        ] + generics_kinds(generics) + seq![TokenKindV::For] + type_kinds(target) + seq![
            TokenKindV::LBrace,
        ] + methods_kinds(methods, 0) + seq![TokenKindV::RBrace],
        Decl::Macro { name, names, body } => seq![
            TokenKindV::Macro,
            TokenKindV::Ident(name),
            TokenKindV::LParen,
        ] + names_kinds(names, 0) + seq![TokenKindV::RParen] + braced(body),
    }
}

/// The type parameters are these names.
pub open spec fn mean_names(gs: Seq<GenericParamV>, ns: Seq<Seq<char>>) -> bool {
    gs.len() == ns.len() && forall|j: int| 0 <= j < ns.len() ==> gs[j].name == #[trigger] ns[j]
}

/// The parameter is what is written.
pub open spec fn means_slot(x: ParamV, s: Slot) -> bool {
    &&& x.name == s.name
    &&& x.ty == s.ty
    &&& x.named == s.named
    &&& match (x.default, s.default) {
        (Some(e), Some(t)) => means(e, t),
        (None, None) => true,
        _ => false,
    }
}

pub open spec fn mean_slots(xs: Seq<ParamV>, ss: Seq<Slot>) -> bool {
    xs.len() == ss.len() && forall|j: int| 0 <= j < ss.len() ==> means_slot(xs[j], #[trigger] ss[j])
}

pub open spec fn mean_fields(xs: Seq<StructFieldV>, fs: Seq<(Seq<char>, TypeV)>) -> bool {
    xs.len() == fs.len() && forall|j: int|
        0 <= j < fs.len() ==> xs[j].name == (#[trigger] fs[j]).0 && xs[j].ty == fs[j].1
}

pub open spec fn mean_cases(xs: Seq<EnumCaseV>, cs: Seq<(Seq<char>, Option<TypeV>)>) -> bool {
    xs.len() == cs.len() && forall|j: int|
        0 <= j < cs.len() ==> xs[j].name == (#[trigger] cs[j]).0 && xs[j].payload == cs[j].1
}

/// The function is the method that is written.
pub open spec fn means_method(f: FunctionV, m: Method) -> bool {
    &&& f.name == m.name
    &&& mean_names(f.generics, m.generics)
    &&& mean_slots(f.params, m.params)
    &&& f.return_type == (match m.ret {
        Some(t) => t,
        None => TypeV::Unit,
    })
    &&& match m.body {
        Some(b) => mean_all(f.body.stmts, b),
        None => f.body.stmts.len() == 0,
    }
}

pub open spec fn mean_methods(fs: Seq<FunctionV>, ms: Seq<Method>) -> bool {
    fs.len() == ms.len() && forall|j: int|
        0 <= j < ms.len() ==> means_method(fs[j], #[trigger] ms[j])
}

/// The item is what is written.
pub open spec fn means_decl(x: ItemV, d: Decl) -> bool {
    match (x, d) {
        (ItemV::Function(f), Decl::Function { is_pub, name, generics, params, ret, body }) => {
            &&& f.is_pub == is_pub
            &&& f.name == name
            &&& mean_names(f.generics, generics)
            &&& mean_slots(f.params, params)
            &&& f.return_type == (match ret {
                Some(t) => t,
                None => TypeV::Unit,
            })
            &&& mean_all(f.body.stmts, body)
        },
        (ItemV::Struct(s), Decl::Struct { is_pub, name, generics, fields }) => {
            &&& s.is_pub == is_pub
            &&& s.name == name
            &&& mean_names(s.generics, generics)
            &&& mean_fields(s.fields, fields)
        },
        (ItemV::Enum(e), Decl::Enum { is_pub, name, generics, cases }) => {
            &&& e.is_pub == is_pub
            &&& e.name == name
            &&& mean_names(e.generics, generics)
            &&& mean_cases(e.cases, cases)
        },
        (ItemV::TypeAlias(a), Decl::Alias { name, generics, ty }) => {
            &&& a.name == name
            &&& mean_names(a.generics, generics)
            &&& a.ty == ty
        },
        (ItemV::VarDecl(v), Decl::Variable { is_mut, name, note, value }) => {
            &&& v.is_mut == is_mut
            &&& v.name == name
            &&& v.ty == note
            &&& match (v.value, value) {
                (Some(e), Some(t)) => means(e, t),
                (None, None) => true,
                _ => false,
            }
        },
        (ItemV::Trait(t), Decl::Trait { name, generics, self_alias, methods }) => {
            &&& t.name == name
            &&& mean_names(t.generics, generics)
            &&& t.self_alias == self_alias
            &&& mean_methods(t.methods, methods)
        },
        (ItemV::Impl(b), Decl::Impl { trait_name, generics, target, methods }) => {
            &&& b.trait_name == trait_name
            &&& mean_names(b.generics, generics)
            &&& b.target_type == target
            &&& mean_methods(b.methods, methods)
        },
        (ItemV::Macro(m), Decl::Macro { name, names, body }) => {
            &&& m.name == name
            &&& m.params == names
            &&& m.body.kind matches ExprKindV::Block(b) && mean_all(b.stmts, body)
        },
        _ => false,
    }
}

// ------------------------------------------------------------------------- parsing

proof fn lemma_names(i: Input, p: int, ns: Seq<Seq<char>>, j: int, acc: Seq<GenericParamV>) -> (gs:
    Seq<GenericParamV>)
    requires
        0 <= j < ns.len(),
        acc.len() == j,
        forall|k: int| 0 <= k < j ==> acc[k].name == #[trigger] ns[k],
        stand_at(i, p, names_kinds(ns, j)),
        kind_at(i, p + names_kinds(ns, j).len()) is RBracket,
    ensures
        mean_names(gs, ns),
        g_generic_names(i, p, acc) == Ok::<(Seq<GenericParamV>, int), CompileErrorV>(
            (gs, p + names_kinds(ns, j).len() + 1),
        ),
    decreases ns.len() - j,
{
    un_generic_names(i, p, acc);
    reveal(g_ident);
    let g = GenericParamV { name: ns[j], span: crate::grammar::span_of(i, p + 1) };
    lemma_at(i, p, names_kinds(ns, j), 0);
    if j + 1 < ns.len() {
        let head = seq![TokenKindV::Ident(ns[j]), TokenKindV::Comma];
        lemma_split(i, p, head, names_kinds(ns, j + 1));
        lemma_at(i, p, head, 1);
        lemma_names(i, p + 2, ns, j + 1, acc.push(g))
    } else {
        acc.push(g)
    }
}

proof fn lemma_generics(i: Input, p: int, ns: Seq<Seq<char>>) -> (gs: Seq<GenericParamV>)
    requires
        stand_at(i, p, generics_kinds(ns)),
        !(kind_at(i, p + generics_kinds(ns).len()) is LBracket),
    ensures
        mean_names(gs, ns),
        g_generic_params(i, p) == Ok::<(Seq<GenericParamV>, int), CompileErrorV>(
            (gs, p + generics_kinds(ns).len()),
        ),
{
    reveal(g_generic_params);
    if ns.len() > 0 {
        let open = seq![TokenKindV::LBracket];
        let close = seq![TokenKindV::RBracket];
        lemma_split(i, p, open + names_kinds(ns, 0), close);
        lemma_split(i, p, open, names_kinds(ns, 0));
        lemma_at(i, p, open, 0);
        lemma_at(i, p + 1 + names_kinds(ns, 0).len(), close, 0);
        lemma_names(i, p + 1, ns, 0, Seq::empty())
    } else {
        Seq::empty()
    }
}

proof fn lemma_slot(i: Input, p: int, s: Slot) -> (x: ParamV)
    requires
        is_slot(s),
        stand_at(i, p, slot_kinds(s)),
        kind_at(i, p + slot_kinds(s).len()) is Comma || kind_at(i, p + slot_kinds(s).len()) is RParen,
    ensures
        means_slot(x, s),
        g_param(i, p) == Ok::<(ParamV, int), CompileErrorV>((x, p + slot_kinds(s).len())),
        slot_kinds(s).len() > 0,
        !(kind_at(i, p) is RParen),
{
    un_param(i, p);
    reveal(g_ident);
    let mark = if s.named {
        seq![TokenKindV::Tilde]
    } else {
        Seq::<TokenKindV>::empty()
    };
    let head = seq![TokenKindV::Ident(s.name), TokenKindV::Colon];
    let value = match s.default {
        Some(t) => seq![TokenKindV::Eq] + kinds(t),
        None => Seq::<TokenKindV>::empty(),
    };
    lemma_split(i, p, mark + head + type_kinds(s.ty), value);
    lemma_split(i, p, mark + head, type_kinds(s.ty));
    lemma_split(i, p, mark, head);
    let q = p + mark.len();
    if s.named {
        lemma_at(i, p, mark, 0);
    }
    lemma_at(i, q, head, 0);
    lemma_at(i, q, head, 1);
    let r = q + 2 + type_kinds(s.ty).len();
    if let Some(t) = s.default {
        lemma_at(i, r, value, 0);
        lemma_split(i, r, seq![TokenKindV::Eq], kinds(t));
        lemma_begins(t);
        let e = lemma_read(i, r + 1, t);
    }
    lemma_parse(i, q + 2, s.ty);
    g_param(i, p)->Ok_0.0
}

proof fn lemma_slots(i: Input, p: int, ss: Seq<Slot>, j: int, acc: Seq<ParamV>) -> (xs: Seq<ParamV>)
    requires
        forall|k: int| 0 <= k < ss.len() ==> is_slot(#[trigger] ss[k]),
        0 <= j < ss.len(),
        acc.len() == j,
        forall|k: int| 0 <= k < j ==> means_slot(acc[k], #[trigger] ss[k]),
        stand_at(i, p, slots_kinds(ss, j)),
        kind_at(i, p + slots_kinds(ss, j).len()) is RParen,
    ensures
        mean_slots(xs, ss),
        g_param_list(i, p, acc) == Ok::<(Seq<ParamV>, int), CompileErrorV>(
            (xs, p + slots_kinds(ss, j).len()),
        ),
        slots_kinds(ss, j).len() > 0,
        !(kind_at(i, p) is RParen),
    decreases ss.len() - j,
{
    un_param_list(i, p, acc);
    if j + 1 < ss.len() {
        let comma = seq![TokenKindV::Comma];
        lemma_split(i, p, slot_kinds(ss[j]) + comma, slots_kinds(ss, j + 1));
        lemma_split(i, p, slot_kinds(ss[j]), comma);
        let m = p + slot_kinds(ss[j]).len();
        lemma_at(i, m, comma, 0);
        let x = lemma_slot(i, p, ss[j]);
        lemma_slots(i, m + 1, ss, j + 1, acc.push(x))
    } else {
        let x = lemma_slot(i, p, ss[j]);
        acc.push(x)
    }
}

proof fn lemma_params(i: Input, p: int, ss: Seq<Slot>) -> (xs: Seq<ParamV>)
    requires
        forall|k: int| 0 <= k < ss.len() ==> is_slot(#[trigger] ss[k]),
        stand_at(i, p, slots_kinds(ss, 0)),
        kind_at(i, p + slots_kinds(ss, 0).len()) is RParen,
        p + slots_kinds(ss, 0).len() < i.toks.len(),
    ensures
        mean_slots(xs, ss),
        g_params(i, p) == Ok::<(Seq<ParamV>, int), CompileErrorV>(
            (xs, p + slots_kinds(ss, 0).len() + 1),
        ),
{
    un_params(i, p);
    if ss.len() > 0 {
        lemma_slots(i, p, ss, 0, Seq::empty())
    } else {
        Seq::empty()
    }
}

proof fn lemma_fields(
    i: Input,
    p: int,
    fs: Seq<(Seq<char>, TypeV)>,
    j: int,
    acc: Seq<StructFieldV>,
) -> (xs: Seq<StructFieldV>)
    requires
        forall|k: int| 0 <= k < fs.len() ==> is_readable((#[trigger] fs[k]).1),
        0 <= j <= fs.len(),
        acc.len() == j,
        forall|k: int|
            0 <= k < j ==> acc[k].name == (#[trigger] fs[k]).0 && acc[k].ty == fs[k].1,
        stand_at(i, p, fields_kinds(fs, j)),
        kind_at(i, p + fields_kinds(fs, j).len()) is RBrace,
    ensures
        mean_fields(xs, fs),
        g_struct_fields(i, p, acc) == Ok::<(Seq<StructFieldV>, int), CompileErrorV>(
            (xs, p + fields_kinds(fs, j).len()),
        ),
    decreases fs.len() - j,
{
    un_struct_fields(i, p, acc);
    if j < fs.len() {
        reveal(g_ident);
        let head = seq![TokenKindV::Ident(fs[j].0), TokenKindV::Colon];
        let comma = seq![TokenKindV::Comma];
        let ty = fs[j].1;
        lemma_split(i, p, head + type_kinds(ty) + comma, fields_kinds(fs, j + 1));
        lemma_split(i, p, head + type_kinds(ty), comma);
        lemma_split(i, p, head, type_kinds(ty));
        lemma_at(i, p, head, 0);
        lemma_at(i, p, head, 1);
        let m = p + 2 + type_kinds(ty).len();
        lemma_at(i, m, comma, 0);
        lemma_parse(i, p + 2, ty);
        let x = StructFieldV { name: fs[j].0, ty, span: crate::grammar::span_of(i, p) };
        lemma_fields(i, m + 1, fs, j + 1, acc.push(x))
    } else {
        acc
    }
}

/// A type is not taken for a label: no single colon stands in it behind its first name.
proof fn lemma_no_label(i: Input, p: int, t: TypeV)
    requires
        is_readable(t),
        stand_at(i, p, type_kinds(t)),
        kind_at(i, p + type_kinds(t).len()) is RParen,
    ensures
        crate::grammar::skip_label(i, p) == p,
{
    if let TypeV::Path(path) = t {
        let segs = path.segments;
        let ks = type_kinds(t);
        assert(ks == path_kinds(segs, 0));
        let first = seq![TokenKindV::Ident(segs[0].name)];
        let args = args_kinds(segs[0].args);
        if segs[0].args.len() > 0 {
            assert(args[0] is LBracket);
            assert(ks[1] == args[0]);
            lemma_at(i, p, ks, 1);
        } else if segs.len() > 1 {
            assert(args =~= Seq::empty());
            assert(ks[1] is Colon);
            assert(ks[2] is Colon);
            lemma_at(i, p, ks, 2);
        } else {
            assert(args =~= Seq::empty());
            assert(ks.len() == 1);
        }
    } else {
        lemma_at_start(i, p, t);
    }
}

proof fn lemma_at_start(i: Input, p: int, t: TypeV)
    requires
        is_readable(t),
        !(t is Path),
        stand_at(i, p, type_kinds(t)),
    ensures
        !(kind_at(i, p) is Ident),
{
    let ks = type_kinds(t);
    match t {
        TypeV::GcRef(inner) => {
            assert(ks[0] is At);
        },
        TypeV::Function(ft) => {
            assert(ks[0] is LParen);
        },
        TypeV::Tuple(ts) => {
            assert(ks[0] is LParen);
        },
        _ => {
            assert(ks[0] is LParen);
        },
    }
    lemma_at(i, p, ks, 0);
}

proof fn lemma_cases(
    i: Input,
    p: int,
    cs: Seq<(Seq<char>, Option<TypeV>)>,
    j: int,
    acc: Seq<EnumCaseV>,
) -> (xs: Seq<EnumCaseV>)
    requires
        forall|k: int|
            0 <= k < cs.len() ==> ((#[trigger] cs[k]).1 matches Some(t) ==> is_readable(t)),
        0 <= j <= cs.len(),
        acc.len() == j,
        forall|k: int|
            0 <= k < j ==> acc[k].name == (#[trigger] cs[k]).0 && acc[k].payload == cs[k].1,
        stand_at(i, p, cases_kinds(cs, j)),
        kind_at(i, p + cases_kinds(cs, j).len()) is RBrace,
    ensures
        mean_cases(xs, cs),
        g_cases(i, p, acc) == Ok::<(Seq<EnumCaseV>, int), CompileErrorV>(
            (xs, p + cases_kinds(cs, j).len()),
        ),
    decreases cs.len() - j,
{
    un_cases(i, p, acc);
    if j < cs.len() {
        reveal(g_ident);
        reveal(g_payload);
        let head = seq![TokenKindV::Case, TokenKindV::Ident(cs[j].0)];
        let comma = seq![TokenKindV::Comma];
        let pay = payload_kinds(cs[j].1);
        lemma_split(i, p, head + pay + comma, cases_kinds(cs, j + 1));
        lemma_split(i, p, head + pay, comma);
        lemma_split(i, p, head, pay);
        lemma_at(i, p, head, 0);
        lemma_at(i, p, head, 1);
        let m = p + 2 + pay.len();
        lemma_at(i, m, comma, 0);
        if let Some(t) = cs[j].1 {
            let open = seq![TokenKindV::LParen];
            let close = seq![TokenKindV::RParen];
            lemma_split(i, p + 2, open + type_kinds(t), close);
            lemma_split(i, p + 2, open, type_kinds(t));
            lemma_at(i, p + 2, open, 0);
            lemma_at(i, p + 3 + type_kinds(t).len(), close, 0);
            lemma_parse(i, p + 3, t);
            lemma_no_label(i, p + 3, t);
        }
        let x = EnumCaseV {
            name: cs[j].0,
            payload: cs[j].1,
            span: crate::grammar::span_of(i, p),
        };
        lemma_cases(i, m + 1, cs, j + 1, acc.push(x))
    } else {
        acc
    }
}

proof fn lemma_function(i: Input, p: int, d: Decl) -> (f: FunctionV)
    requires
        is_decl(d),
        d is Function,
        stand_at(i, p, decl_kinds(d)),
    ensures
        means_decl(ItemV::Function(f), d),
        ({
            let at = p + pub_kinds(d->Function_is_pub).len();
            &&& kind_at(i, at) is Func
            &&& g_function(i, at, d->Function_is_pub) == Ok::<(FunctionV, int), CompileErrorV>(
                (f, p + decl_kinds(d).len()),
            )
        }),
{
    match d {
        Decl::Function { is_pub, name, generics, params, ret, body } => {
            let mark = pub_kinds(is_pub);
            let head = seq![TokenKindV::Func, TokenKindV::Ident(name)];
            let gs = generics_kinds(generics);
            let open = seq![TokenKindV::LParen];
            let ps = slots_kinds(params, 0);
            let close = seq![TokenKindV::RParen];
            let rt = ret_kinds(ret);
            lemma_split(i, p, mark + head + gs + open + ps + close + rt, braced(body));
            lemma_split(i, p, mark + head + gs + open + ps + close, rt);
            lemma_split(i, p, mark + head + gs + open + ps, close);
            lemma_split(i, p, mark + head + gs + open, ps);
            lemma_split(i, p, mark + head + gs, open);
            lemma_split(i, p, mark + head, gs);
            lemma_split(i, p, mark, head);
            let at = p + mark.len();
            let q = at + 2;
            let r = q + gs.len();
            let s = r + 1 + ps.len();
            let t = s + 1 + rt.len();
            lemma_at(i, at, head, 0);
            lemma_at(i, at, head, 1);
            lemma_at(i, r, open, 0);
            lemma_at(i, s, close, 0);
            lemma_at(i, t, braced(body), 0);
            let a = lemma_generics(i, q, generics);
            let b = lemma_params(i, r + 1, params);
            reveal(g_return_type);
            if let Some(ty) = ret {
                lemma_split(i, s + 1, seq![TokenKindV::Arrow], type_kinds(ty));
                lemma_at(i, s + 1, seq![TokenKindV::Arrow], 0);
                lemma_parse(i, s + 2, ty);
            }
            let c = lemma_block(i, t, body);
            un_function(i, at, is_pub);
            reveal(g_ident);
            g_function(i, at, is_pub)->Ok_0.0
        },
        _ => arbitrary(),
    }
}

/// What stands in front of the body of a method is read, up to the position `t`.
proof fn lemma_head(i: Input, p: int, m: Method) -> (r: (Seq<GenericParamV>, Seq<ParamV>))
    requires
        is_method(m),
        stand_at(i, p, method_kinds(m)),
    ensures
        ({
            let q = p + 2;
            let s = q + generics_kinds(m.generics).len();
            let u = s + 1 + slots_kinds(m.params, 0).len();
            let t = u + 1 + ret_kinds(m.ret).len();
            &&& kind_at(i, p) is Func
            &&& kind_at(i, p + 1) == TokenKindV::Ident(m.name)
            &&& g_generic_params(i, q) == Ok::<(Seq<GenericParamV>, int), CompileErrorV>((r.0, s))
            &&& mean_names(r.0, m.generics)
            &&& kind_at(i, s) is LParen
            &&& g_params(i, s + 1) == Ok::<(Seq<ParamV>, int), CompileErrorV>((r.1, u + 1))
            &&& mean_slots(r.1, m.params)
            &&& g_return_type(i, u + 1) == Ok::<(TypeV, int), CompileErrorV>(
                (
                    match m.ret {
                        Some(t) => t,
                        None => TypeV::Unit,
                    },
                    t,
                ),
            )
            &&& t == p + head_kinds(m).len()
            &&& stand_at(
                i,
                t,
                match m.body {
                    Some(b) => braced(b),
                    None => seq![TokenKindV::Semicolon],
                },
            )
        }),
{
    let head = seq![TokenKindV::Func, TokenKindV::Ident(m.name)];
    let gs = generics_kinds(m.generics);
    let open = seq![TokenKindV::LParen];
    let ps = slots_kinds(m.params, 0);
    let close = seq![TokenKindV::RParen];
    let rt = ret_kinds(m.ret);
    let end = match m.body {
        Some(b) => braced(b),
        None => seq![TokenKindV::Semicolon],
    };
    lemma_split(i, p, head_kinds(m), end);
    lemma_split(i, p, head + gs + open + ps + close, rt);
    lemma_split(i, p, head + gs + open + ps, close);
    lemma_split(i, p, head + gs + open, ps);
    lemma_split(i, p, head + gs, open);
    lemma_split(i, p, head, gs);
    let q = p + 2;
    let s = q + gs.len();
    let u = s + 1 + ps.len();
    let t = u + 1 + rt.len();
    lemma_at(i, p, head, 0);
    lemma_at(i, p, head, 1);
    lemma_at(i, s, open, 0);
    lemma_at(i, u, close, 0);
    lemma_at(i, t, end, 0);
    let a = lemma_generics(i, q, m.generics);
    let b = lemma_params(i, s + 1, m.params);
    reveal(g_return_type);
    if let Some(ty) = m.ret {
        lemma_split(i, u + 1, seq![TokenKindV::Arrow], type_kinds(ty));
        lemma_at(i, u + 1, seq![TokenKindV::Arrow], 0);
        lemma_parse(i, u + 2, ty);
    }
    (a, b)
}

proof fn lemma_trait_methods(i: Input, p: int, ms: Seq<Method>, j: int, acc: Seq<FunctionV>) -> (fs:
    Seq<FunctionV>)
    requires
        forall|k: int| 0 <= k < ms.len() ==> is_method(#[trigger] ms[k]),
        0 <= j <= ms.len(),
        acc.len() == j,
        forall|k: int| 0 <= k < j ==> means_method(acc[k], #[trigger] ms[k]),
        stand_at(i, p, methods_kinds(ms, j)),
        kind_at(i, p + methods_kinds(ms, j).len()) is RBrace,
    ensures
        mean_methods(fs, ms),
        g_trait_methods(i, p, acc) == Ok::<(Seq<FunctionV>, int), CompileErrorV>(
            (fs, p + methods_kinds(ms, j).len()),
        ),
    decreases ms.len() - j,
{
    un_trait_methods(i, p, acc);
    if j < ms.len() {
        let m = ms[j];
        lemma_split(i, p, method_kinds(m), methods_kinds(ms, j + 1));
        let (gs, ps) = lemma_head(i, p, m);
        let t = p + head_kinds(m).len();
        reveal(g_trait_method);
        reveal(g_ident);
        match m.body {
            Some(b) => {
                lemma_at(i, t, braced(b), 0);
                let c = lemma_block(i, t, b);
            },
            None => {
                lemma_at(i, t, seq![TokenKindV::Semicolon], 0);
            },
        }
        let f = g_trait_method(i, p)->Ok_0.0;
        assert(means_method(f, m));
        lemma_trait_methods(i, p + method_kinds(m).len(), ms, j + 1, acc.push(f))
    } else {
        acc
    }
}

proof fn lemma_methods(i: Input, p: int, ms: Seq<Method>, j: int, acc: Seq<FunctionV>) -> (fs: Seq<
    FunctionV,
>)
    requires
        forall|k: int|
            0 <= k < ms.len() ==> is_method(#[trigger] ms[k]) && ms[k].body is Some,
        0 <= j <= ms.len(),
        acc.len() == j,
        forall|k: int| 0 <= k < j ==> means_method(acc[k], #[trigger] ms[k]),
        stand_at(i, p, methods_kinds(ms, j)),
        kind_at(i, p + methods_kinds(ms, j).len()) is RBrace,
    ensures
        mean_methods(fs, ms),
        g_methods(i, p, acc) == Ok::<(Seq<FunctionV>, int), CompileErrorV>(
            (fs, p + methods_kinds(ms, j).len()),
        ),
    decreases ms.len() - j,
{
    un_methods(i, p, acc);
    if j < ms.len() {
        let m = ms[j];
        lemma_split(i, p, method_kinds(m), methods_kinds(ms, j + 1));
        let (gs, ps) = lemma_head(i, p, m);
        let t = p + head_kinds(m).len();
        un_function(i, p, false);
        reveal(g_ident);
        let b = m.body->Some_0;
        let c = lemma_block(i, t, b);
        let f = g_function(i, p, false)->Ok_0.0;
        assert(means_method(f, m));
        lemma_methods(i, p + method_kinds(m).len(), ms, j + 1, acc.push(f))
    } else {
        acc
    }
}

proof fn lemma_macro_params(i: Input, p: int, ns: Seq<Seq<char>>, j: int)
    requires
        0 <= j <= ns.len(),
        stand_at(i, p, names_kinds(ns, j)),
        kind_at(i, p + names_kinds(ns, j).len()) is RParen,
    ensures
        g_macro_params(i, p, ns.take(j)) == Ok::<(Seq<Seq<char>>, int), CompileErrorV>(
            (ns, p + names_kinds(ns, j).len()),
        ),
    decreases ns.len() - j,
{
    un_macro_params(i, p, ns.take(j));
    reveal(g_ident);
    if j < ns.len() {
        lemma_at(i, p, names_kinds(ns, j), 0);
        assert(ns.take(j).push(ns[j]) =~= ns.take(j + 1));
        if j + 1 < ns.len() {
            let head = seq![TokenKindV::Ident(ns[j]), TokenKindV::Comma];
            lemma_split(i, p, head, names_kinds(ns, j + 1));
            lemma_at(i, p, head, 1);
            lemma_macro_params(i, p + 2, ns, j + 1);
        } else {
            lemma_macro_params(i, p + 1, ns, j + 1);
        }
    } else {
        assert(ns.take(j) =~= ns);
    }
}

proof fn lemma_macro_item(i: Input, p: int, d: Decl) -> (x: ItemV)
    requires
        d is Macro,
        is_decl(d),
        stand_at(i, p, decl_kinds(d)),
    ensures
        means_decl(x, d),
        g_item(i, p) == Ok::<(ItemV, int), CompileErrorV>((x, p + decl_kinds(d).len())),
        decl_kinds(d).len() > 0,
        !(kind_at(i, p) is Eof),
        !(kind_at(i, p) is Import),
{
    reveal(g_item);
    match d {
        Decl::Macro { name, names, body } => {
            let head = seq![TokenKindV::Macro, TokenKindV::Ident(name), TokenKindV::LParen];
            let ns = names_kinds(names, 0);
            let close = seq![TokenKindV::RParen];
            lemma_split(i, p, head + ns + close, braced(body));
            lemma_split(i, p, head + ns, close);
            lemma_split(i, p, head, ns);
            let r = p + 3 + ns.len();
            lemma_at(i, p, head, 0);
            lemma_at(i, p, head, 1);
            lemma_at(i, p, head, 2);
            lemma_at(i, r, close, 0);
            lemma_at(i, r + 1, braced(body), 0);
            assert(braced(body)[0] is LBrace);
            assert(names.take(0) =~= Seq::empty());
            lemma_macro_params(i, p + 3, names, 0);
            let b = lemma_block(i, r + 1, body);
            reveal(g_macro_def);
            reveal(g_ident);
            g_item(i, p)->Ok_0.0
        },
        _ => arbitrary(),
    }
}

proof fn lemma_struct_item(i: Input, p: int, d: Decl) -> (x: ItemV)
    requires
        d is Struct,
        is_decl(d),
        stand_at(i, p, decl_kinds(d)),
    ensures
        means_decl(x, d),
        g_item(i, p) == Ok::<(ItemV, int), CompileErrorV>((x, p + decl_kinds(d).len())),
        decl_kinds(d).len() > 0,
        !(kind_at(i, p) is Eof),
        !(kind_at(i, p) is Import),
{
    reveal(g_item);
    match d {
        Decl::Struct { is_pub, name, generics, fields } => {
            let mark = pub_kinds(is_pub);
            let head = seq![TokenKindV::Struct, TokenKindV::Ident(name)];
            let gs = generics_kinds(generics);
            let open = seq![TokenKindV::LBrace];
            let fs = fields_kinds(fields, 0);
            let close = seq![TokenKindV::RBrace];
            lemma_split(i, p, mark + head + gs + open + fs, close);
            lemma_split(i, p, mark + head + gs + open, fs);
            lemma_split(i, p, mark + head + gs, open);
            lemma_split(i, p, mark + head, gs);
            lemma_split(i, p, mark, head);
            let at = p + mark.len();
            let r = at + 2 + gs.len();
            if is_pub {
                lemma_at(i, p, mark, 0);
            }
            lemma_at(i, at, head, 0);
            lemma_at(i, at, head, 1);
            lemma_at(i, r, open, 0);
            lemma_at(i, r + 1 + fs.len(), close, 0);
            let a = lemma_generics(i, at + 2, generics);
            let b = lemma_fields(i, r + 1, fields, 0, Seq::empty());
            reveal(g_struct);
            reveal(g_ident);
            g_item(i, p)->Ok_0.0
        },
        _ => arbitrary(),
    }
}

proof fn lemma_enum_item(i: Input, p: int, d: Decl) -> (x: ItemV)
    requires
        d is Enum,
        is_decl(d),
        stand_at(i, p, decl_kinds(d)),
    ensures
        means_decl(x, d),
        g_item(i, p) == Ok::<(ItemV, int), CompileErrorV>((x, p + decl_kinds(d).len())),
        decl_kinds(d).len() > 0,
        !(kind_at(i, p) is Eof),
        !(kind_at(i, p) is Import),
{
    reveal(g_item);
    match d {
        Decl::Enum { is_pub, name, generics, cases } => {
            let mark = pub_kinds(is_pub);
            let head = seq![TokenKindV::Enum, TokenKindV::Ident(name)];
            let gs = generics_kinds(generics);
            let open = seq![TokenKindV::LBrace];
            let cs = cases_kinds(cases, 0);
            let close = seq![TokenKindV::RBrace];
            lemma_split(i, p, mark + head + gs + open + cs, close);
            lemma_split(i, p, mark + head + gs + open, cs);
            lemma_split(i, p, mark + head + gs, open);
            lemma_split(i, p, mark + head, gs);
            lemma_split(i, p, mark, head);
            let at = p + mark.len();
            let r = at + 2 + gs.len();
            if is_pub {
                lemma_at(i, p, mark, 0);
            }
            lemma_at(i, at, head, 0);
            lemma_at(i, at, head, 1);
            lemma_at(i, r, open, 0);
            lemma_at(i, r + 1 + cs.len(), close, 0);
            let a = lemma_generics(i, at + 2, generics);
            let b = lemma_cases(i, r + 1, cases, 0, Seq::empty());
            reveal(g_enum);
            reveal(g_ident);
            g_item(i, p)->Ok_0.0
        },
        _ => arbitrary(),
    }
}

proof fn lemma_alias_item(i: Input, p: int, d: Decl) -> (x: ItemV)
    requires
        d is Alias,
        is_decl(d),
        stand_at(i, p, decl_kinds(d)),
    ensures
        means_decl(x, d),
        g_item(i, p) == Ok::<(ItemV, int), CompileErrorV>((x, p + decl_kinds(d).len())),
        decl_kinds(d).len() > 0,
        !(kind_at(i, p) is Eof),
        !(kind_at(i, p) is Import),
{
    reveal(g_item);
    match d {
        Decl::Alias { name, generics, ty } => {
            let head = seq![TokenKindV::Type, TokenKindV::Ident(name)];
            let gs = generics_kinds(generics);
            let sign = seq![TokenKindV::Eq];
            let end = seq![TokenKindV::Semicolon];
            lemma_split(i, p, head + gs + sign + type_kinds(ty), end);
            lemma_split(i, p, head + gs + sign, type_kinds(ty));
            lemma_split(i, p, head + gs, sign);
            lemma_split(i, p, head, gs);
            let r = p + 2 + gs.len();
            lemma_at(i, p, head, 0);
            lemma_at(i, p, head, 1);
            lemma_at(i, r, sign, 0);
            lemma_at(i, r + 1 + type_kinds(ty).len(), end, 0);
            let a = lemma_generics(i, p + 2, generics);
            lemma_parse(i, r + 1, ty);
            reveal(g_type_alias);
            reveal(g_ident);
            g_item(i, p)->Ok_0.0
        },
        _ => arbitrary(),
    }
}

proof fn lemma_variable_item(i: Input, p: int, d: Decl) -> (x: ItemV)
    requires
        d is Variable,
        is_decl(d),
        stand_at(i, p, decl_kinds(d)),
    ensures
        means_decl(x, d),
        g_item(i, p) == Ok::<(ItemV, int), CompileErrorV>((x, p + decl_kinds(d).len())),
        decl_kinds(d).len() > 0,
        !(kind_at(i, p) is Eof),
        !(kind_at(i, p) is Import),
{
    reveal(g_item);
    match d {
        Decl::Variable { is_mut, name, note, value } => {
            let head = seq![
                if is_mut {
                    TokenKindV::Var
                } else {
                    TokenKindV::Let
                },
                TokenKindV::Ident(name),
            ];
            let typed = note_kinds(note);
            let set = value_kinds(value);
            let end = seq![TokenKindV::Semicolon];
            lemma_split(i, p, head + typed + set, end);
            lemma_split(i, p, head + typed, set);
            lemma_split(i, p, head, typed);
            let r = p + 2 + typed.len();
            let s = r + set.len();
            lemma_at(i, p, head, 0);
            lemma_at(i, p, head, 1);
            lemma_at(i, s, end, 0);
            if let Some(t) = value {
                lemma_split(i, r, seq![TokenKindV::Eq], kinds(t));
                lemma_at(i, r, seq![TokenKindV::Eq], 0);
                lemma_begins(t);
                let e = lemma_read(i, r + 1, t);
            }
            if let Some(t) = note {
                lemma_split(i, p + 2, seq![TokenKindV::Colon], type_kinds(t));
                lemma_at(i, p + 2, seq![TokenKindV::Colon], 0);
                lemma_parse(i, p + 3, t);
            }
            reveal(g_var_decl);
            reveal(g_opt_type);
            reveal(g_init);
            reveal(g_ident);
            g_item(i, p)->Ok_0.0
        },
        _ => arbitrary(),
    }
}

proof fn lemma_trait_item(i: Input, p: int, d: Decl) -> (x: ItemV)
    requires
        d is Trait,
        is_decl(d),
        stand_at(i, p, decl_kinds(d)),
    ensures
        means_decl(x, d),
        g_item(i, p) == Ok::<(ItemV, int), CompileErrorV>((x, p + decl_kinds(d).len())),
        decl_kinds(d).len() > 0,
        !(kind_at(i, p) is Eof),
        !(kind_at(i, p) is Import),
{
    reveal(g_item);
    match d {
        Decl::Trait { name, generics, self_alias, methods } => {
            let head = seq![TokenKindV::Trait, TokenKindV::Ident(name)];
            let gs = generics_kinds(generics);
            let own = self_kinds(self_alias);
            let open = seq![TokenKindV::LBrace];
            let ms = methods_kinds(methods, 0);
            let close = seq![TokenKindV::RBrace];
            lemma_split(i, p, head + gs + own + open + ms, close);
            lemma_split(i, p, head + gs + own + open, ms);
            lemma_split(i, p, head + gs + own, open);
            lemma_split(i, p, head + gs, own);
            lemma_split(i, p, head, gs);
            let r = p + 2 + gs.len();
            let s = r + own.len();
            lemma_at(i, p, head, 0);
            lemma_at(i, p, head, 1);
            lemma_at(i, s, open, 0);
            lemma_at(i, s + 1 + ms.len(), close, 0);
            if self_alias is Some {
                lemma_at(i, r, own, 0);
                lemma_at(i, r, own, 1);
            }
            let a = lemma_generics(i, p + 2, generics);
            let b = lemma_trait_methods(i, s + 1, methods, 0, Seq::empty());
            reveal(g_trait);
            reveal(g_alias);
            reveal(g_ident);
            g_item(i, p)->Ok_0.0
        },
        _ => arbitrary(),
    }
}

proof fn lemma_impl_item(i: Input, p: int, d: Decl) -> (x: ItemV)
    requires
        d is Impl,
        is_decl(d),
        stand_at(i, p, decl_kinds(d)),
    ensures
        means_decl(x, d),
        g_item(i, p) == Ok::<(ItemV, int), CompileErrorV>((x, p + decl_kinds(d).len())),
        decl_kinds(d).len() > 0,
        !(kind_at(i, p) is Eof),
        !(kind_at(i, p) is Import),
{
    reveal(g_item);
    match d {
        Decl::Impl { trait_name, generics, target, methods } => {
            let head = seq![TokenKindV::Impl, TokenKindV::Ident(trait_name)];
            let gs = generics_kinds(generics);
            let sign = seq![TokenKindV::For];
            let open = seq![TokenKindV::LBrace];
            let ms = methods_kinds(methods, 0);
            let close = seq![TokenKindV::RBrace];
            lemma_split(i, p, head + gs + sign + type_kinds(target) + open + ms, close);
            lemma_split(i, p, head + gs + sign + type_kinds(target) + open, ms);
            lemma_split(i, p, head + gs + sign + type_kinds(target), open);
            lemma_split(i, p, head + gs + sign, type_kinds(target));
            lemma_split(i, p, head + gs, sign);
            lemma_split(i, p, head, gs);
            let r = p + 2 + gs.len();
            let s = r + 1 + type_kinds(target).len();
            lemma_at(i, p, head, 0);
            lemma_at(i, p, head, 1);
            lemma_at(i, r, sign, 0);
            lemma_at(i, s, open, 0);
            lemma_at(i, s + 1 + ms.len(), close, 0);
            let a = lemma_generics(i, p + 2, generics);
            lemma_parse(i, r + 1, target);
            let b = lemma_methods(i, s + 1, methods, 0, Seq::empty());
            reveal(g_impl);
            reveal(g_ident);
            g_item(i, p)->Ok_0.0
        },
        _ => arbitrary(),
    }
}

proof fn lemma_item(i: Input, p: int, d: Decl) -> (x: ItemV)
    requires
        is_decl(d),
        stand_at(i, p, decl_kinds(d)),
    ensures
        means_decl(x, d),
        g_item(i, p) == Ok::<(ItemV, int), CompileErrorV>((x, p + decl_kinds(d).len())),
        decl_kinds(d).len() > 0,
        !(kind_at(i, p) is Eof),
        !(kind_at(i, p) is Import),
{
    reveal(g_item);
    match d {
        Decl::Function { is_pub, name, generics, params, ret, body } => {
            if is_pub {
                assert(decl_kinds(d)[0] is Pub);
                lemma_at(i, p, decl_kinds(d), 0);
            }
            let f = lemma_function(i, p, d);
            ItemV::Function(f)
        },
        Decl::Struct { .. } => lemma_struct_item(i, p, d),
        Decl::Enum { .. } => lemma_enum_item(i, p, d),
        Decl::Alias { .. } => lemma_alias_item(i, p, d),
        Decl::Variable { .. } => lemma_variable_item(i, p, d),
        Decl::Trait { .. } => lemma_trait_item(i, p, d),
        Decl::Impl { .. } => lemma_impl_item(i, p, d),
        Decl::Macro { .. } => lemma_macro_item(i, p, d),
    }
}

/// The kinds of the tokens of the declarations from `j` on.
pub open spec fn decls_kinds(ds: Seq<Decl>, j: int) -> Seq<TokenKindV>
    decreases ds.len() - j,
{
    if 0 <= j < ds.len() {
        decl_kinds(ds[j]) + decls_kinds(ds, j + 1)
    } else {
        Seq::empty()
    }
}

proof fn lemma_items(i: Input, p: int, ds: Seq<Decl>, j: int, acc: Seq<ItemV>) -> (xs: Seq<ItemV>)
    requires
        forall|k: int| 0 <= k < ds.len() ==> is_decl(#[trigger] ds[k]),
        0 <= j <= ds.len(),
        acc.len() == j,
        forall|k: int| 0 <= k < j ==> means_decl(acc[k], #[trigger] ds[k]),
        stand_at(i, p, decls_kinds(ds, j)),
        kind_at(i, p + decls_kinds(ds, j).len()) is Eof,
    ensures
        xs.len() == ds.len(),
        forall|k: int| 0 <= k < ds.len() ==> means_decl(xs[k], #[trigger] ds[k]),
        g_items(i, p, Seq::empty(), acc) == Ok::<(Seq<ImportV>, Seq<ItemV>), CompileErrorV>(
            (Seq::empty(), xs),
        ),
    decreases ds.len() - j,
{
    un_items(i, p, Seq::empty(), acc);
    if j < ds.len() {
        lemma_split(i, p, decl_kinds(ds[j]), decls_kinds(ds, j + 1));
        let x = lemma_item(i, p, ds[j]);
        lemma_items(i, p + decl_kinds(ds[j]).len(), ds, j + 1, acc.push(x))
    } else {
        acc
    }
}

/// Parsing undoes writing: the tokens of a declaration are parsed to the item that is
/// written, and all of them are read.
pub proof fn law_declaration_read_back(i: Input, p: int, d: Decl)
    requires
        is_decl(d),
        stand_at(i, p, decl_kinds(d)),
    ensures
        g_item(i, p) matches Ok((x, q)) && q == p + decl_kinds(d).len() && means_decl(x, d),
{
    let x = lemma_item(i, p, d);
}

/// A module is its declarations, each of them and in the order in which they are written.
pub proof fn law_module_read_back(i: Input, ds: Seq<Decl>, name: Seq<char>)
    requires
        forall|k: int| 0 <= k < ds.len() ==> is_decl(#[trigger] ds[k]),
        stand_at(i, 0, decls_kinds(ds, 0)),
        kind_at(i, decls_kinds(ds, 0).len() as int) is Eof,
    ensures
        g_module(i, 0, name) matches Ok(m) && m.name == name && m.imports.len() == 0
            && m.items.len() == ds.len() && forall|k: int|
            0 <= k < ds.len() ==> means_decl(m.items[k], #[trigger] ds[k]),
{
    reveal(g_module);
    if ds.len() > 0 {
        lemma_split(i, 0, decl_kinds(ds[0]), decls_kinds(ds, 1));
        let first = lemma_item(i, 0, ds[0]);
        lemma_not_module(i, ds[0]);
    }
    let xs = lemma_items(i, 0, ds, 0, Seq::empty());
}

proof fn lemma_not_module(i: Input, d: Decl)
    requires
        stand_at(i, 0, decl_kinds(d)),
    ensures
        !(kind_at(i, 0) is Module),
{
    let k = decl_kinds(d)[0];
    match d {
        Decl::Function { is_pub, .. } => {
            assert(k is Pub || k is Func);
        },
        Decl::Struct { is_pub, .. } => {
            assert(k is Pub || k is Struct);
        },
        Decl::Enum { is_pub, .. } => {
            assert(k is Pub || k is Enum);
        },
        Decl::Alias { .. } => {
            assert(k is Type);
        },
        Decl::Variable { .. } => {
            assert(k is Var || k is Let);
        },
        Decl::Trait { .. } => {
            assert(k is Trait);
        },
        Decl::Impl { .. } => {
            assert(k is Impl);
        },
        Decl::Macro { .. } => {
            assert(k is Macro);
        },
    }
    lemma_at(i, 0, decl_kinds(d), 0);
}

} // verus!
