//! Completions: the keywords and the items of a module, or the members of a receiver.
use vstd::prelude::*;

verus! {

use crate::lsp::position::{index_at, index_of_offset};
use crate::ast::{Enum, Function, Item, Module, Param, Struct, TraitDef, Type, type_text};
use crate::maps::{contains_str, lemma_list_empty, lemma_list_push, list_v};
use crate::model::{
    EnumV, FunctionV, ItemV, ParamV, StructV, TraitDefV, TypeV, enum_case_v, enum_v, function_v,
    functions_v, group_list_views, impl_block_v, item_v, module_v, param_v, params_v,
    path_segment_v, path_v, struct_field_v, struct_v, trait_def_v, type_alias_v, type_v,
};
use crate::text::{
    cat2, cat3, cat4, cat5, chars_of, is_digit, join, join_v, nat_text, opt_str_v, show_usize,
    str_eq, strs_v, text_between,
};

broadcast use {group_list_views, lemma_list_push, lemma_list_empty};

/// What a completion stands for.
#[derive(Debug, Clone, Copy, PartialEq, Eq, Structural)]
pub enum CompletionKind {
    Keyword,
    Function,
    Struct,
    Enum,
    EnumMember,
    TypeParameter,
    Field,
    Method,
}

/// A text that an editor offers.
#[derive(Debug)]
pub struct CompletionItem {
    pub label: String,
    pub kind: CompletionKind,
    pub detail: Option<String>,
    pub insert_text: Option<String>,
    pub sort_text: Option<String>,
}

/// The model of a [`CompletionItem`].
#[verifier::ext_equal]
pub struct CompletionItemV {
    pub label: Seq<char>,
    pub kind: CompletionKind,
    pub detail: Option<Seq<char>>,
    pub insert_text: Option<Seq<char>>,
    pub sort_text: Option<Seq<char>>,
}

impl View for CompletionItem {
    type V = CompletionItemV;

    open spec fn view(&self) -> CompletionItemV {
        CompletionItemV {
            label: self.label@,
            kind: self.kind,
            detail: opt_str_v(self.detail),
            insert_text: opt_str_v(self.insert_text),
            sort_text: opt_str_v(self.sort_text),
        }
    }
}

// ------------------------------------------------------------------- signatures

/// The types of parameters.
pub open spec fn param_types(ps: Seq<ParamV>) -> Seq<Seq<char>> {
    Seq::new(ps.len(), |i: int| type_text(ps[i].ty))
}

/// Parameters with their types.
pub open spec fn param_texts(ps: Seq<ParamV>) -> Seq<Seq<char>> {
    Seq::new(ps.len(), |i: int| ps[i].name + ": "@ + type_text(ps[i].ty))
}

/// What a function takes and gives, with the names of its parameters.
pub open spec fn signature_text(f: FunctionV) -> Seq<char> {
    "("@ + join_v(param_texts(f.params), ", "@) + ") -> "@ + type_text(f.return_type)
}

/// The types of parameters from `from` on.
pub fn show_param_types(ps: &Vec<Param>, from: usize) -> (r: Vec<String>)
    ensures
        strs_v(r@) == if from <= ps.len() {
            param_types(params_v(ps@)).skip(from as int)
        } else {
            Seq::empty()
        },
{
    let mut out: Vec<String> = Vec::new();
    let ghost all = param_types(params_v(ps@));
    let mut i: usize = from;
    if from > ps.len() {
        assert(strs_v(out@) =~= Seq::empty());
        return out;
    }
    while i < ps.len()
        invariant
            from <= i <= ps.len(),
            all == param_types(params_v(ps@)),
            strs_v(out@) == all.subrange(from as int, i as int),
        decreases ps.len() - i,
    {
        let ghost p = param_v(ps[i as int]);
        out.push(ps[i].ty.display());
        i = i + 1;
        assert(strs_v(out@) =~= all.subrange(from as int, i as int));
    }
    assert(all.subrange(from as int, i as int) =~= all.skip(from as int));
    out
}

/// Parameters with their types.
pub fn show_params(ps: &Vec<Param>) -> (r: String)
    ensures
        r@ == join_v(param_texts(params_v(ps@)), ", "@),
{
    let mut out: Vec<String> = Vec::new();
    let ghost all = param_texts(params_v(ps@));
    let mut i: usize = 0;
    while i < ps.len()
        invariant
            i <= ps.len(),
            all == param_texts(params_v(ps@)),
            strs_v(out@) == all.take(i as int),
        decreases ps.len() - i,
    {
        let ghost p = param_v(ps[i as int]);
        out.push(cat3(&ps[i].name, ": ", &ps[i].ty.display()));
        i = i + 1;
        assert(strs_v(out@) =~= all.take(i as int));
    }
    assert(all.take(i as int) =~= all);
    join(&out, ", ")
}

/// What a function takes and gives, with the names of its parameters.
pub fn show_signature(f: &Function) -> (r: String)
    ensures
        r@ == signature_text(f@),
{
    let ghost g = function_v(*f);
    cat4("(", &show_params(&f.params), ") -> ", &f.return_type.display())
}

// ------------------------------------------------------------- all of a module

/// The keywords that are offered.
pub open spec fn keyword_texts() -> Seq<Seq<char>> {
    seq![
        "func"@,
        "let"@,
        "var"@,
        "return"@,
        "if"@,
        "else"@,
        "match"@,
        "case"@,
        "enum"@,
        "struct"@,
        "macro"@,
        "quote"@,
        "while"@,
        "for"@,
        "in"@,
        "as"@,
        "is"@,
        "true"@,
        "false"@,
        "nil"@,
        "type"@,
        "trait"@,
        "impl"@,
        "import"@,
        "module"@,
        "pub"@,
    ]
}

/// The built-in types that are offered.
pub open spec fn type_texts() -> Seq<Seq<char>> {
    seq!["Int"@, "Float"@, "Bool"@, "String"@, "Char"@, "Void"@]
}

pub open spec fn keyword_item(word: Seq<char>) -> CompletionItemV {
    CompletionItemV {
        label: word,
        kind: CompletionKind::Keyword,
        detail: None,
        insert_text: Some(word + " "@),
        sort_text: None,
    }
}

pub open spec fn plain_item(label: Seq<char>, kind: CompletionKind, detail: Seq<char>) -> CompletionItemV {
    CompletionItemV { label, kind, detail: Some(detail), insert_text: None, sort_text: None }
}

/// The completions of the cases of an enum.
pub open spec fn case_items(e: EnumV) -> Seq<CompletionItemV> {
    Seq::new(
        e.cases.len(),
        |i: int|
            plain_item("."@ + e.cases[i].name, CompletionKind::EnumMember, "case of "@ + e.name),
    )
}

/// The completions of an item.
pub open spec fn item_completions(x: ItemV) -> Seq<CompletionItemV> {
    match x {
        ItemV::Function(f) => seq![
            plain_item(
                f.name,
                CompletionKind::Function,
                "("@ + join_v(param_types(f.params), ", "@) + ") -> "@ + type_text(f.return_type),
            ),
        ],
        ItemV::Struct(s) => seq![
            plain_item(
                s.name,
                CompletionKind::Struct,
                "struct ("@ + nat_text(s.fields.len()) + " fields)"@,
            ),
        ],
        ItemV::Enum(e) => seq![
            plain_item(
                e.name,
                CompletionKind::Enum,
                "enum ("@ + nat_text(e.cases.len()) + " cases)"@,
            ),
        ] + case_items(e),
        ItemV::TypeAlias(t) => seq![
            plain_item(t.name, CompletionKind::TypeParameter, "type = "@ + type_text(t.ty)),
        ],
        _ => Seq::empty(),
    }
}

/// The completions of the items from `i` on.
pub open spec fn completions_from(items: Seq<ItemV>, i: int) -> Seq<CompletionItemV>
    decreases items.len() - i,
{
    if i < 0 || i >= items.len() {
        Seq::empty()
    } else {
        item_completions(items[i]) + completions_from(items, i + 1)
    }
}

/// What is offered anywhere in a module: the keywords, its items and the built-in types.
pub open spec fn module_completions(items: Seq<ItemV>) -> Seq<CompletionItemV> {
    Seq::new(keyword_texts().len(), |i: int| keyword_item(keyword_texts()[i])) + completions_from(
        items,
        0,
    ) + Seq::new(
        type_texts().len(),
        |i: int| plain_item(type_texts()[i], CompletionKind::TypeParameter, "built-in type"@),
    )
}

fn plain(label: String, kind: CompletionKind, detail: String) -> (r: CompletionItem)
    ensures
        r@ == plain_item(label@, kind, detail@),
{
    CompletionItem { label, kind, detail: Some(detail), insert_text: None, sort_text: None }
}

fn push_keyword(out: &mut Vec<CompletionItem>, word: &str)
    ensures
        list_v(final(out)@) == list_v(old(out)@).push(keyword_item(word@)),
{
    out.push(
        CompletionItem {
            label: word.to_owned(),
            kind: CompletionKind::Keyword,
            detail: None,
            insert_text: Some(cat2(word, " ")),
            sort_text: None,
        },
    );
}

fn keyword_completions() -> (r: Vec<CompletionItem>)
    ensures
        list_v(r@) == Seq::new(keyword_texts().len(), |i: int| keyword_item(keyword_texts()[i])),
{
    let mut out: Vec<CompletionItem> = Vec::new();
    push_keyword(&mut out, "func");
    push_keyword(&mut out, "let");
    push_keyword(&mut out, "var");
    push_keyword(&mut out, "return");
    push_keyword(&mut out, "if");
    push_keyword(&mut out, "else");
    push_keyword(&mut out, "match");
    push_keyword(&mut out, "case");
    push_keyword(&mut out, "enum");
    push_keyword(&mut out, "struct");
    push_keyword(&mut out, "macro");
    push_keyword(&mut out, "quote");
    push_keyword(&mut out, "while");
    push_keyword(&mut out, "for");
    push_keyword(&mut out, "in");
    push_keyword(&mut out, "as");
    push_keyword(&mut out, "is");
    push_keyword(&mut out, "true");
    push_keyword(&mut out, "false");
    push_keyword(&mut out, "nil");
    push_keyword(&mut out, "type");
    push_keyword(&mut out, "trait");
    push_keyword(&mut out, "impl");
    push_keyword(&mut out, "import");
    push_keyword(&mut out, "module");
    push_keyword(&mut out, "pub");
    assert(list_v(out@) =~= Seq::new(
        keyword_texts().len(),
        |i: int| keyword_item(keyword_texts()[i]),
    ));
    out
}

fn push_type(out: &mut Vec<CompletionItem>, name: &str)
    ensures
        list_v(final(out)@) == list_v(old(out)@).push(
            plain_item(name@, CompletionKind::TypeParameter, "built-in type"@),
        ),
{
    out.push(plain(name.to_owned(), CompletionKind::TypeParameter, "built-in type".to_owned()));
}

fn push_item_completions(out: &mut Vec<CompletionItem>, item: &Item)
    ensures
        list_v(final(out)@) == list_v(old(out)@) + item_completions(item@),
{
    let ghost g = item_v(*item);
    let ghost start = list_v(out@);
    match item {
        Item::Function(f) => {
            let ghost fv = function_v(*f);
            let types = show_param_types(&f.params, 0);
            assert(param_types(fv.params).skip(0) =~= param_types(fv.params));
            let detail = cat4("(", &join(&types, ", "), ") -> ", &f.return_type.display());
            out.push(plain(f.name.clone(), CompletionKind::Function, detail));
        },
        Item::Struct(s) => {
            let ghost sv = struct_v(*s);
            let detail = cat3("struct (", &show_usize(s.fields.len()), " fields)");
            out.push(plain(s.name.clone(), CompletionKind::Struct, detail));
        },
        Item::Enum(e) => {
            let ghost ev = enum_v(*e);
            let detail = cat3("enum (", &show_usize(e.cases.len()), " cases)");
            out.push(plain(e.name.clone(), CompletionKind::Enum, detail));
            let ghost head = list_v(out@);
            let mut i: usize = 0;
            assert(head + case_items(ev).take(0) =~= head);
            while i < e.cases.len()
                invariant
                    i <= e.cases.len(),
                    ev == enum_v(*e),
                    list_v(out@) == head + case_items(ev).take(i as int),
                decreases e.cases.len() - i,
            {
                let ghost cv = enum_case_v(e.cases[i as int]);
                let label = cat2(".", &e.cases[i].name);
                out.push(plain(label, CompletionKind::EnumMember, cat2("case of ", &e.name)));
                i = i + 1;
                assert(list_v(out@) =~= head + case_items(ev).take(i as int));
            }
            assert(case_items(ev).take(i as int) =~= case_items(ev));
        },
        Item::TypeAlias(t) => {
            let ghost tv = type_alias_v(*t);
            let detail = cat2("type = ", &t.ty.display());
            out.push(plain(t.name.clone(), CompletionKind::TypeParameter, detail));
        },
        _ => {},
    }
    assert(list_v(out@) =~= start + item_completions(g));
}

/// What is offered anywhere in a module.
pub fn build_completions(module: &Module) -> (r: Vec<CompletionItem>)
    ensures
        list_v(r@) == module_completions(module@.items),
{
    let ghost m = module_v(*module);
    let mut out = keyword_completions();
    let ghost words = list_v(out@);
    let mut i: usize = 0;
    while i < module.items.len()
        invariant
            i <= module.items.len(),
            m == module_v(*module),
            list_v(out@) + completions_from(m.items, i as int) == words + completions_from(
                m.items,
                0,
            ),
        decreases module.items.len() - i,
    {
        let ghost before = list_v(out@);
        let ghost rest = completions_from(m.items, i + 1);
        push_item_completions(&mut out, &module.items[i]);
        assert(before + (item_completions(m.items[i as int]) + rest) =~= list_v(out@) + rest);
        i = i + 1;
    }
    assert(list_v(out@) + Seq::<CompletionItemV>::empty() =~= list_v(out@));
    push_type(&mut out, "Int");
    push_type(&mut out, "Float");
    push_type(&mut out, "Bool");
    push_type(&mut out, "String");
    push_type(&mut out, "Char");
    push_type(&mut out, "Void");
    assert(list_v(out@) =~= module_completions(m.items));
    out
}

// ------------------------------------------------------------ behind a receiver

/// Whether a character is a letter, a digit or an underscore of ASCII.
pub open spec fn is_name_char(c: char) -> bool {
    ||| 'a' <= c <= 'z'
    ||| 'A' <= c <= 'Z'
    ||| '0' <= c <= '9'
    ||| c == '_'
}

fn name_char(c: char) -> (r: bool)
    ensures
        r == is_name_char(c),
{
    ('a' <= c && c <= 'z') || ('A' <= c && c <= 'Z') || ('0' <= c && c <= '9') || c == '_'
}

/// Where the name begins that ends at `i`.
pub open spec fn name_start(s: Seq<char>, i: int) -> int
    decreases i,
{
    if 0 < i <= s.len() && is_name_char(s[i - 1]) {
        name_start(s, i - 1)
    } else {
        i
    }
}

/// The name before the dot of the member that ends at an index. A number has no members.
pub open spec fn receiver_at(s: Seq<char>, offset: int) -> Option<Seq<char>> {
    let end = if offset < s.len() {
        offset
    } else {
        s.len() as int
    };
    let i = name_start(s, end);
    if i == 0 || s[i - 1] != '.' {
        None
    } else {
        let j = name_start(s, i - 1);
        if j == i - 1 || is_digit(s[j]) {
            None
        } else {
            Some(s.subrange(j, i - 1))
        }
    }
}

fn find_name_start(v: &Vec<char>, end: usize) -> (r: usize)
    requires
        end <= v.len(),
    ensures
        r == name_start(v@, end as int),
        r <= end,
{
    let mut i: usize = end;
    while i > 0 && name_char(v[i - 1])
        invariant
            i <= end <= v.len(),
            name_start(v@, end as int) == name_start(v@, i as int),
        decreases i,
    {
        i = i - 1;
    }
    i
}

/// The receiver of the member that is written at an offset in bytes: the name before the
/// dot.
pub fn dot_receiver(source: &str, offset: usize) -> (r: Option<String>)
    ensures
        opt_str_v(r) == receiver_at(source@, index_at(source@, offset as int)),
{
    let v = chars_of(source);
    let end: usize = index_of_offset(source, offset);
    let i = find_name_start(&v, end);
    if i == 0 || v[i - 1] != '.' {
        return None;
    }
    let dot: usize = i - 1;
    let j = find_name_start(&v, dot);
    if j == dot || ('0' <= v[j] && v[j] <= '9') {
        return None;
    }
    Some(text_between(&v, j, dot))
}

/// The name by which the members of a type are looked up.
pub open spec fn base_name(t: TypeV) -> Option<Seq<char>>
    decreases t,
{
    match t {
        TypeV::Path(p) => if p.segments.len() > 0 {
            Some(p.segments.last().name)
        } else {
            None
        },
        TypeV::GcRef(inner) => base_name(*inner),
        _ => None,
    }
}

/// The name by which the members of a type are looked up: the last name of its path, also
/// behind a reference.
pub fn type_base_name(ty: &Type) -> (r: Option<String>)
    ensures
        opt_str_v(r) == base_name(ty@),
    decreases ty,
{
    let ghost g = type_v(*ty);
    match ty {
        Type::Path(p) => {
            let ghost pv = path_v(*p);
            if p.segments.len() > 0 {
                let ghost sv = path_segment_v(p.segments[p.segments.len() - 1]);
                Some(p.segments[p.segments.len() - 1].name.clone())
            } else {
                None
            }
        },
        Type::GcRef(inner) => type_base_name(inner),
        _ => None,
    }
}

/// The names of the types that a receiver fits: its own, and the traits that it implements.
pub open spec fn receiver_names(
    items: Seq<ItemV>,
    name: Seq<char>,
    i: int,
    acc: Seq<Seq<char>>,
) -> Seq<
    Seq<char>,
>
    decreases items.len() - i,
{
    if i < 0 || i >= items.len() {
        acc
    } else {
        receiver_names(
            items,
            name,
            i + 1,
            match items[i] {
                ItemV::Impl(b) => if base_name(b.target_type) == Some(name) && !acc.contains(
                    b.trait_name,
                ) {
                    acc.push(b.trait_name)
                } else {
                    acc
                },
                _ => acc,
            },
        )
    }
}

fn find_receiver_names(module: &Module, name: &str) -> (r: Vec<String>)
    ensures
        strs_v(r@) == receiver_names(module@.items, name@, 0, seq![name@]),
{
    let ghost m = module_v(*module);
    let mut out: Vec<String> = Vec::new();
    out.push(name.to_owned());
    assert(strs_v(out@) =~= seq![name@]);
    let mut i: usize = 0;
    while i < module.items.len()
        invariant
            i <= module.items.len(),
            m == module_v(*module),
            receiver_names(m.items, name@, 0, seq![name@]) == receiver_names(
                m.items,
                name@,
                i as int,
                strs_v(out@),
            ),
        decreases module.items.len() - i,
    {
        let ghost before = strs_v(out@);
        let ghost g = item_v(module.items[i as int]);
        if let Item::Impl(b) = &module.items[i] {
            let ghost bv = impl_block_v(*b);
            let fits = match type_base_name(&b.target_type) {
                Some(t) => str_eq(&t, name),
                None => false,
            };
            if fits && !contains_str(&out, &b.trait_name) {
                out.push(b.trait_name.clone());
                assert(strs_v(out@) =~= before.push(b.trait_name@));
            }
        }
        i = i + 1;
    }
    out
}

/// The completions of the fields of a struct.
pub open spec fn field_items(s: StructV) -> Seq<CompletionItemV> {
    Seq::new(
        s.fields.len(),
        |i: int|
            CompletionItemV {
                label: s.fields[i].name,
                kind: CompletionKind::Field,
                detail: Some(type_text(s.fields[i].ty)),
                insert_text: None,
                sort_text: Some("0_"@ + s.fields[i].name),
            },
    )
}

/// The completions of the fields of the structs of a name, from `i` on.
pub open spec fn fields_from(items: Seq<ItemV>, name: Seq<char>, i: int) -> Seq<CompletionItemV>
    decreases items.len() - i,
{
    if i < 0 || i >= items.len() {
        Seq::empty()
    } else {
        (match items[i] {
            ItemV::Struct(s) => if s.name == name {
                field_items(s)
            } else {
                Seq::empty()
            },
            _ => Seq::empty(),
        }) + fields_from(items, name, i + 1)
    }
}

fn push_fields(out: &mut Vec<CompletionItem>, s: &Struct)
    ensures
        list_v(final(out)@) == list_v(old(out)@) + field_items(s@),
{
    let ghost sv = struct_v(*s);
    let ghost start = list_v(out@);
    let mut i: usize = 0;
    assert(start + field_items(sv).take(0) =~= start);
    while i < s.fields.len()
        invariant
            i <= s.fields.len(),
            sv == struct_v(*s),
            list_v(out@) == start + field_items(sv).take(i as int),
        decreases s.fields.len() - i,
    {
        let ghost fv = struct_field_v(s.fields[i as int]);
        let f = &s.fields[i];
        out.push(
            CompletionItem {
                label: f.name.clone(),
                kind: CompletionKind::Field,
                detail: Some(f.ty.display()),
                insert_text: None,
                sort_text: Some(cat2("0_", &f.name)),
            },
        );
        i = i + 1;
        assert(list_v(out@) =~= start + field_items(sv).take(i as int));
    }
    assert(field_items(sv).take(i as int) =~= field_items(sv));
}

/// The name of the type that a function is called on. In a trait the trait's alias for the
/// type itself stands for the trait.
pub open spec fn first_type(f: FunctionV, owner: Option<TraitDefV>) -> Option<Seq<char>> {
    if f.params.len() == 0 {
        None
    } else {
        let t = base_name(f.params[0].ty);
        match owner {
            None => t,
            Some(o) => {
                let alias = match o.self_alias {
                    Some(a) => a,
                    None => "Self"@,
                };
                if t == Some(alias) {
                    Some(o.name)
                } else {
                    t
                }
            },
        }
    }
}

fn first_type_of(f: &Function, owner: Option<&TraitDef>) -> (r: Option<String>)
    ensures
        opt_str_v(r) == first_type(
            f@,
            match owner {
                Some(o) => Some(o@),
                None => None,
            },
        ),
{
    let ghost fv = function_v(*f);
    if f.params.len() == 0 {
        return None;
    }
    let ghost pv = param_v(f.params[0]);
    let t = type_base_name(&f.params[0].ty);
    match owner {
        None => t,
        Some(o) => {
            let ghost ov = trait_def_v(*o);
            match t {
                None => None,
                Some(t) => {
                    let is_alias = match &o.self_alias {
                        Some(a) => str_eq(&t, a),
                        None => str_eq(&t, "Self"),
                    };
                    if is_alias {
                        Some(o.name.clone())
                    } else {
                        Some(t)
                    }
                },
            }
        },
    }
}

/// What tells two offered functions apart: the name, the parameters behind the first, and
/// the result.
pub open spec fn offer_key(f: FunctionV) -> Seq<char> {
    f.name + "("@ + join_v(param_types(f.params).skip(1), ","@) + ") -> "@ + type_text(
        f.return_type,
    )
}

/// The completion of a function that is called on a receiver.
pub open spec fn method_item(f: FunctionV) -> CompletionItemV {
    CompletionItemV {
        label: f.name,
        kind: CompletionKind::Method,
        detail: Some("func "@ + f.name + signature_text(f)),
        insert_text: None,
        sort_text: Some("1_"@ + f.name),
    }
}

/// What has been offered: the completions, and what tells them apart.
#[verifier::ext_equal]
pub struct Offers {
    pub items: Seq<CompletionItemV>,
    pub seen: Seq<Seq<char>>,
}

/// Offers a function where its first parameter has one of the names and nothing like it has
/// been offered.
pub open spec fn offered(names: Seq<Seq<char>>, f: FunctionV, owner: Option<TraitDefV>, o: Offers) -> Offers {
    match first_type(f, owner) {
        None => o,
        Some(t) => if !names.contains(t) || o.seen.contains(offer_key(f)) {
            o
        } else {
            Offers { items: o.items.push(method_item(f)), seen: o.seen.push(offer_key(f)) }
        },
    }
}

pub open spec fn offered_all(
    names: Seq<Seq<char>>,
    fs: Seq<FunctionV>,
    i: int,
    owner: Option<TraitDefV>,
    o: Offers,
) -> Offers
    decreases fs.len() - i,
{
    if i < 0 || i >= fs.len() {
        o
    } else {
        offered_all(names, fs, i + 1, owner, offered(names, fs[i], owner, o))
    }
}

/// Offers the functions of the items from `i` on: free functions, those of impls and those
/// of traits.
pub open spec fn offers_from(names: Seq<Seq<char>>, items: Seq<ItemV>, i: int, o: Offers) -> Offers
    decreases items.len() - i,
{
    if i < 0 || i >= items.len() {
        o
    } else {
        offers_from(
            names,
            items,
            i + 1,
            match items[i] {
                ItemV::Function(f) => offered(names, f, None, o),
                ItemV::Impl(b) => offered_all(names, b.methods, 0, None, o),
                ItemV::Trait(t) => offered_all(names, t.methods, 0, Some(t), o),
                _ => o,
            },
        )
    }
}

/// The members of a receiver of a type: the fields of its struct, then every function that
/// it can be the first argument of.
pub open spec fn member_completions(items: Seq<ItemV>, t: TypeV) -> Seq<CompletionItemV> {
    match base_name(t) {
        None => Seq::empty(),
        Some(name) => offers_from(
            receiver_names(items, name, 0, seq![name]),
            items,
            0,
            Offers { items: fields_from(items, name, 0), seen: Seq::empty() },
        ).items,
    }
}

pub open spec fn offers_v(out: Seq<CompletionItem>, seen: Seq<String>) -> Offers {
    Offers { items: list_v(out), seen: strs_v(seen) }
}

fn offer(
    out: &mut Vec<CompletionItem>,
    seen: &mut Vec<String>,
    names: &Vec<String>,
    f: &Function,
    owner: Option<&TraitDef>,
)
    ensures
        offers_v(final(out)@, final(seen)@) == offered(
            strs_v(names@),
            f@,
            match owner {
                Some(o) => Some(o@),
                None => None,
            },
            offers_v(old(out)@, old(seen)@),
        ),
{
    let ghost fv = function_v(*f);
    let first = match first_type_of(f, owner) {
        None => {
            return;
        },
        Some(t) => t,
    };
    if !contains_str(names, &first) {
        return;
    }
    let tail = show_param_types(&f.params, 1);
    let ret = f.return_type.display();
    let key = cat5(&f.name, "(", &join(&tail, ","), ") -> ", &ret);
    if contains_str(seen, &key) {
        return;
    }
    let detail = cat3("func ", &f.name, &show_signature(f));
    out.push(
        CompletionItem {
            label: f.name.clone(),
            kind: CompletionKind::Method,
            detail: Some(detail),
            insert_text: None,
            sort_text: Some(cat2("1_", &f.name)),
        },
    );
    let ghost before = strs_v(seen@);
    let ghost key_v = key@;
    seen.push(key);
    assert(strs_v(seen@) =~= before.push(key_v));
}

fn offer_all(
    out: &mut Vec<CompletionItem>,
    seen: &mut Vec<String>,
    names: &Vec<String>,
    fs: &Vec<Function>,
    owner: Option<&TraitDef>,
)
    ensures
        offers_v(final(out)@, final(seen)@) == offered_all(
            strs_v(names@),
            functions_v(fs@),
            0,
            match owner {
                Some(o) => Some(o@),
                None => None,
            },
            offers_v(old(out)@, old(seen)@),
        ),
{
    let ghost start = offers_v(out@, seen@);
    let ghost who = match owner {
        Some(o) => Some(o@),
        None => None,
    };
    let mut i: usize = 0;
    while i < fs.len()
        invariant
            i <= fs.len(),
            who == (match owner {
                Some(o) => Some(o@),
                None => None,
            }),
            offered_all(strs_v(names@), functions_v(fs@), 0, who, start) == offered_all(
                strs_v(names@),
                functions_v(fs@),
                i as int,
                who,
                offers_v(out@, seen@),
            ),
        decreases fs.len() - i,
    {
        offer(out, seen, names, &fs[i], owner);
        i = i + 1;
    }
}

/// The members of a receiver of a type.
pub fn build_dot_completions(module: &Module, recv_ty: &Type) -> (r: Vec<CompletionItem>)
    ensures
        list_v(r@) == member_completions(module@.items, recv_ty@),
{
    let ghost m = module_v(*module);
    let mut out: Vec<CompletionItem> = Vec::new();
    let name = match type_base_name(recv_ty) {
        None => {
            return out;
        },
        Some(n) => n,
    };
    let names = find_receiver_names(module, &name);
    let ghost ns = receiver_names(m.items, name@, 0, seq![name@]);
    let mut i: usize = 0;
    assert(list_v(out@) + fields_from(m.items, name@, 0) =~= fields_from(m.items, name@, 0));
    while i < module.items.len()
        invariant
            i <= module.items.len(),
            m == module_v(*module),
            list_v(out@) + fields_from(m.items, name@, i as int) == fields_from(m.items, name@, 0),
        decreases module.items.len() - i,
    {
        let ghost before = list_v(out@);
        let ghost rest = fields_from(m.items, name@, i + 1);
        let ghost g = item_v(module.items[i as int]);
        assert(g == m.items[i as int]);
        let ghost mut head = Seq::<CompletionItemV>::empty();
        if let Item::Struct(s) = &module.items[i] {
            let ghost sv = struct_v(*s);
            if str_eq(&s.name, &name) {
                push_fields(&mut out, s);
                proof {
                    head = field_items(sv);
                }
            }
        }
        assert(list_v(out@) =~= before + head);
        assert(before + (head + rest) =~= list_v(out@) + rest);
        i = i + 1;
    }
    assert(list_v(out@) + Seq::<CompletionItemV>::empty() =~= list_v(out@));
    let mut seen: Vec<String> = Vec::new();
    let ghost start = Offers { items: fields_from(m.items, name@, 0), seen: Seq::empty() };
    assert(offers_v(out@, seen@) =~= start);
    let mut k: usize = 0;
    while k < module.items.len()
        invariant
            k <= module.items.len(),
            m == module_v(*module),
            strs_v(names@) == ns,
            offers_from(ns, m.items, 0, start) == offers_from(
                ns,
                m.items,
                k as int,
                offers_v(out@, seen@),
            ),
        decreases module.items.len() - k,
    {
        let ghost g = item_v(module.items[k as int]);
        assert(g == m.items[k as int]);
        match &module.items[k] {
            Item::Function(f) => {
                let ghost fv = function_v(*f);
                offer(&mut out, &mut seen, &names, f, None);
            },
            Item::Impl(b) => {
                let ghost bv = impl_block_v(*b);
                offer_all(&mut out, &mut seen, &names, &b.methods, None);
            },
            Item::Trait(t) => {
                let ghost tv = trait_def_v(*t);
                offer_all(&mut out, &mut seen, &names, &t.methods, Some(t));
            },
            _ => {},
        }
        k = k + 1;
    }
    out
}

// ------------------------------------------------------------------------- laws

/// Whether every offer is new: one completion for each key, and no key twice.
pub open spec fn all_new(start: Seq<CompletionItemV>, o: Offers) -> bool {
    &&& o.seen.no_duplicates()
    &&& o.items.len() == start.len() + o.seen.len()
    &&& o.items.take(start.len() as int) == start
}

proof fn lemma_offered_new(
    names: Seq<Seq<char>>,
    f: FunctionV,
    owner: Option<TraitDefV>,
    start: Seq<CompletionItemV>,
    o: Offers,
)
    requires
        all_new(start, o),
    ensures
        all_new(start, offered(names, f, owner, o)),
{
    let n = offered(names, f, owner, o);
    if n != o {
        assert(n.items.take(start.len() as int) =~= o.items.take(start.len() as int));
    }
}

proof fn lemma_offered_all_new(
    names: Seq<Seq<char>>,
    fs: Seq<FunctionV>,
    i: int,
    owner: Option<TraitDefV>,
    start: Seq<CompletionItemV>,
    o: Offers,
)
    requires
        all_new(start, o),
    ensures
        all_new(start, offered_all(names, fs, i, owner, o)),
    decreases fs.len() - i,
{
    if 0 <= i < fs.len() {
        lemma_offered_new(names, fs[i], owner, start, o);
        lemma_offered_all_new(names, fs, i + 1, owner, start, offered(names, fs[i], owner, o));
    }
}

/// Functions are offered behind what has been offered before, and none twice that agree in
/// their names, in their parameters behind the first and in their results.
pub proof fn law_offered_once(
    names: Seq<Seq<char>>,
    items: Seq<ItemV>,
    i: int,
    start: Seq<CompletionItemV>,
    o: Offers,
)
    requires
        all_new(start, o),
    ensures
        all_new(start, offers_from(names, items, i, o)),
    decreases items.len() - i,
{
    if 0 <= i < items.len() {
        let next = match items[i] {
            ItemV::Function(f) => {
                lemma_offered_new(names, f, None, start, o);
                offered(names, f, None, o)
            },
            ItemV::Impl(b) => {
                lemma_offered_all_new(names, b.methods, 0, None, start, o);
                offered_all(names, b.methods, 0, None, o)
            },
            ItemV::Trait(t) => {
                lemma_offered_all_new(names, t.methods, 0, Some(t), start, o);
                offered_all(names, t.methods, 0, Some(t), o)
            },
            _ => o,
        };
        law_offered_once(names, items, i + 1, start, next);
    }
}

proof fn lemma_offers_grow(
    names: Seq<Seq<char>>,
    items: Seq<ItemV>,
    i: int,
    o: Offers,
    k: Seq<char>,
)
    requires
        o.seen.contains(k),
    ensures
        offers_from(names, items, i, o).seen.contains(k),
    decreases items.len() - i,
{
    if 0 <= i < items.len() {
        let next = match items[i] {
            ItemV::Function(f) => {
                lemma_offered_grows(names, f, None, o, k);
                offered(names, f, None, o)
            },
            ItemV::Impl(b) => {
                lemma_offered_all_grows(names, b.methods, 0, None, o, k);
                offered_all(names, b.methods, 0, None, o)
            },
            ItemV::Trait(t) => {
                lemma_offered_all_grows(names, t.methods, 0, Some(t), o, k);
                offered_all(names, t.methods, 0, Some(t), o)
            },
            _ => o,
        };
        lemma_offers_grow(names, items, i + 1, next, k);
    }
}

proof fn lemma_offered_grows(
    names: Seq<Seq<char>>,
    f: FunctionV,
    owner: Option<TraitDefV>,
    o: Offers,
    k: Seq<char>,
)
    requires
        o.seen.contains(k),
    ensures
        offered(names, f, owner, o).seen.contains(k),
{
    let j = choose|j: int| 0 <= j < o.seen.len() && o.seen[j] == k;
    assert(offered(names, f, owner, o).seen[j] == k);
}

proof fn lemma_offered_all_grows(
    names: Seq<Seq<char>>,
    fs: Seq<FunctionV>,
    i: int,
    owner: Option<TraitDefV>,
    o: Offers,
    k: Seq<char>,
)
    requires
        o.seen.contains(k),
    ensures
        offered_all(names, fs, i, owner, o).seen.contains(k),
    decreases fs.len() - i,
{
    if 0 <= i < fs.len() {
        lemma_offered_grows(names, fs[i], owner, o, k);
        lemma_offered_all_grows(names, fs, i + 1, owner, offered(names, fs[i], owner, o), k);
    }
}

proof fn lemma_offered_all_has(
    names: Seq<Seq<char>>,
    fs: Seq<FunctionV>,
    i: int,
    owner: Option<TraitDefV>,
    o: Offers,
    j: int,
)
    requires
        0 <= i <= j < fs.len(),
        first_type(fs[j], owner) matches Some(t) && names.contains(t),
    ensures
        offered_all(names, fs, i, owner, o).seen.contains(offer_key(fs[j])),
    decreases fs.len() - i,
{
    let next = offered(names, fs[i], owner, o);
    if i == j {
        if !o.seen.contains(offer_key(fs[j])) {
            assert(next.seen[o.seen.len() as int] == offer_key(fs[j]));
        }
        lemma_offered_all_grows(names, fs, i + 1, owner, next, offer_key(fs[j]));
    } else {
        lemma_offered_all_has(names, fs, i + 1, owner, next, j);
    }
}

/// Whether a function of an item can be called on a receiver of one of the names.
pub open spec fn callable_on(names: Seq<Seq<char>>, x: ItemV, f: FunctionV) -> bool {
    match x {
        ItemV::Function(g) => g == f && (first_type(f, None) matches Some(t) && names.contains(t)),
        ItemV::Impl(b) => b.methods.contains(f) && (first_type(f, None) matches Some(t)
            && names.contains(t)),
        ItemV::Trait(d) => d.methods.contains(f) && (first_type(f, Some(d)) matches Some(t)
            && names.contains(t)),
        _ => false,
    }
}

/// Every function that can be called on a receiver is offered, itself or by one that agrees
/// with it in its name, in its parameters behind the first and in its result.
pub proof fn law_callable_is_offered(
    names: Seq<Seq<char>>,
    items: Seq<ItemV>,
    i: int,
    o: Offers,
    j: int,
    f: FunctionV,
)
    requires
        0 <= i <= j < items.len(),
        callable_on(names, items[j], f),
    ensures
        offers_from(names, items, i, o).seen.contains(offer_key(f)),
    decreases items.len() - i,
{
    let next = match items[i] {
        ItemV::Function(g) => offered(names, g, None, o),
        ItemV::Impl(b) => offered_all(names, b.methods, 0, None, o),
        ItemV::Trait(t) => offered_all(names, t.methods, 0, Some(t), o),
        _ => o,
    };
    if i < j {
        law_callable_is_offered(names, items, i + 1, next, j, f);
    } else {
        match items[i] {
            ItemV::Function(g) => {
                if !o.seen.contains(offer_key(f)) {
                    assert(next.seen[o.seen.len() as int] == offer_key(f));
                }
            },
            ItemV::Impl(b) => {
                let k = choose|k: int| 0 <= k < b.methods.len() && b.methods[k] == f;
                lemma_offered_all_has(names, b.methods, 0, None, o, k);
            },
            ItemV::Trait(t) => {
                let k = choose|k: int| 0 <= k < t.methods.len() && t.methods[k] == f;
                lemma_offered_all_has(names, t.methods, 0, Some(t), o, k);
            },
            _ => {},
        }
        lemma_offers_grow(names, items, i + 1, next, offer_key(f));
    }
}

} // verus!
