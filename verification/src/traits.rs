//! Traits with dispatch on several arguments: values of a trait are pairs of a pointer
//! and a table of functions, and calls are found by the types of all arguments.
use vstd::prelude::*;
use crate::maps::Dup;

verus! {

use crate::ast::{Function, Param, Type};
use crate::maps::{FunctionList, StrMap, lookup};
use crate::model::{
    FunctionV, ParamV, TypeV, dup_functions, function_v, functions_v, group_list_views, param_v,
    params_v, type_v,
};
use crate::paths::{last_name, path_key};
use crate::text::{
    cat2, cat3, cat4, cat6, dup_strs, join, join_v, nat_text, show_usize, str_eq, strs_v,
};

broadcast use group_list_views;

/// A trait with its methods.
#[derive(Debug)]
pub struct TraitInfo {
    pub name: String,
    pub generics: Vec<String>,
    pub methods: Vec<Function>,
}

/// The model of a [`TraitInfo`].
#[verifier::ext_equal]
pub struct TraitInfoV {
    pub name: Seq<char>,
    pub generics: Seq<Seq<char>>,
    pub methods: Seq<FunctionV>,
}

impl View for TraitInfo {
    type V = TraitInfoV;

    open spec fn view(&self) -> TraitInfoV {
        TraitInfoV {
            name: self.name@,
            generics: strs_v(self.generics@),
            methods: functions_v(self.methods@),
        }
    }
}

impl Dup for TraitInfo {
    fn copy(&self) -> (r: Self) {
        TraitInfo {
            name: self.name.clone(),
            generics: dup_strs(&self.generics),
            methods: dup_functions(&self.methods),
        }
    }
}

/// The traits of a program and the methods of the types that implement them.
#[derive(Debug)]
pub struct TraitRegistry {
    pub traits: StrMap<TraitInfo>,
    /// By the trait, and below it by the type.
    pub impls: StrMap<TypeImpls>,
}

/// The methods of each type that implements a trait.
#[derive(Debug)]
pub struct TypeImpls {
    pub types: StrMap<FunctionList>,
}

impl View for TypeImpls {
    type V = Map<Seq<char>, Seq<FunctionV>>;

    open spec fn view(&self) -> Map<Seq<char>, Seq<FunctionV>> {
        self.types@
    }
}

impl Dup for TypeImpls {
    fn copy(&self) -> (r: Self) {
        TypeImpls { types: self.types.copy() }
    }
}

// ----------------------------------------------------------------------- the C++ texts

/// The C++ type of a parameter or a result of a method.
pub open spec fn method_type(t: TypeV) -> Seq<char>
    decreases t,
{
    match t {
        TypeV::GcRef(inner) => "nova::gc_ptr<"@ + method_type(*inner) + ">"@,
        TypeV::Path(p) => {
            let n = path_key(p);
            if n == "Int"@ || n == "Int32"@ {
                "int32_t"@
            } else if n == "Float"@ {
                "double"@
            } else if n == "String"@ {
                "std::string"@
            } else if n == "Bool"@ {
                "bool"@
            } else if n == "Unit"@ || n == "()"@ {
                "void"@
            } else {
                n
            }
        },
        _ => "auto"@,
    }
}

/// The parameters of a method behind the first, as declarations.
pub open spec fn rest_decls(ps: Seq<ParamV>) -> Seq<Seq<char>> {
    Seq::new(
        if ps.len() > 0 {
            (ps.len() - 1) as nat
        } else {
            0
        },
        |i: int| method_type(ps[i + 1].ty) + " "@ + ps[i + 1].name,
    )
}

/// The names of the parameters of a method behind the first.
pub open spec fn rest_names(ps: Seq<ParamV>) -> Seq<Seq<char>> {
    Seq::new(
        if ps.len() > 0 {
            (ps.len() - 1) as nat
        } else {
            0
        },
        |i: int| ps[i + 1].name,
    )
}

/// Parts with commas, and a comma before them where there are any.
pub open spec fn led_by_comma(parts: Seq<Seq<char>>) -> Seq<char> {
    if parts.len() == 0 {
        Seq::empty()
    } else {
        ", "@ + join_v(parts, ", "@)
    }
}

/// The entries of the methods from `i` on in the table type, behind `acc`.
pub open spec fn table_entries(ms: Seq<FunctionV>, i: int, acc: Seq<char>) -> Seq<char>
    decreases ms.len() - i,
{
    if 0 <= i < ms.len() {
        table_entries(
            ms,
            i + 1,
            acc + "  "@ + method_type(ms[i].return_type) + " (*"@ + ms[i].name + ")(void*"@
                + led_by_comma(rest_decls(ms[i].params)) + ");\n"@,
        )
    } else {
        acc
    }
}

/// The methods from `i` on of the pair of a pointer and a table, behind `acc`.
pub open spec fn pair_methods(ms: Seq<FunctionV>, i: int, acc: Seq<char>) -> Seq<char>
    decreases ms.len() - i,
{
    if 0 <= i < ms.len() {
        pair_methods(
            ms,
            i + 1,
            acc + "  "@ + method_type(ms[i].return_type) + " "@ + ms[i].name + "("@ + join_v(
                rest_decls(ms[i].params),
                ", "@,
            ) + ") {\n    return _vt->"@ + ms[i].name + "(_ptr"@ + led_by_comma(
                rest_names(ms[i].params),
            ) + ");\n  }\n"@,
        )
    } else {
        acc
    }
}

/// The C++ of a trait: the type of its tables, and the pair of a pointer and a table.
pub open spec fn trait_decl_text(name: Seq<char>, t: Option<TraitInfoV>) -> Seq<char> {
    match t {
        None => Seq::empty(),
        Some(info) => {
            let a = table_entries(
                info.methods,
                0,
                "// ─── trait "@ + name + " ───\n"@ + "struct "@ + name + "_vtable {\n"@
                    + "  uint32_t type_id;\n"@,
            );
            let b = pair_methods(
                info.methods,
                0,
                a + "};\n\n"@ + "struct "@ + name + " {\n"@ + "  void* _ptr;\n"@ + "  "@ + name
                    + "_vtable* _vt;\n"@,
            );
            b + "};\n\n"@
        },
    }
}

/// The types of the parameters from `i` on, each behind a comma, behind `acc`.
pub open spec fn led_types(ps: Seq<ParamV>, i: int, acc: Seq<char>) -> Seq<char>
    decreases ps.len() - i,
{
    if 0 <= i < ps.len() {
        led_types(ps, i + 1, acc + ", "@ + method_type(ps[i].ty))
    } else {
        acc
    }
}

/// The entries of the methods from `i` on in the table of a type, behind `acc`.
pub open spec fn impl_entries(ms: Seq<FunctionV>, target: Seq<char>, i: int, acc: Seq<char>) -> Seq<
    char,
>
    decreases ms.len() - i,
{
    if 0 <= i < ms.len() {
        impl_entries(
            ms,
            target,
            i + 1,
            led_types(
                ms[i].params,
                1,
                acc + "  ("@ + method_type(ms[i].return_type) + " (*)(void*"@,
            ) + "))&"@ + target + "__"@ + ms[i].name + ",\n"@,
        )
    } else {
        acc
    }
}

/// The C++ of an impl: the table of a type, and how its values become values of the trait.
pub open spec fn impl_decl_text(name: Seq<char>, target: Seq<char>, t: Option<TraitInfoV>) -> Seq<
    char,
> {
    match t {
        None => Seq::empty(),
        Some(info) => {
            let a = impl_entries(
                info.methods,
                target,
                0,
                "// impl "@ + name + " for "@ + target + "\n"@ + "inline "@ + name + "_vtable __"@
                    + name + "_vt_"@ + target + " = {\n"@ + "  "@ + target + "_type_id,\n"@,
            );
            a + "};\n\n"@ + "inline "@ + name + " as_"@ + name + "("@ + target + "* p) {\n"@
                + "  return { p, &__"@ + name + "_vt_"@ + target + " };\n"@ + "}\n\n"@
        },
    }
}

/// The arguments of a call from `i` on as comments, behind `acc`.
pub open spec fn arg_comments(
    args: Seq<(Seq<char>, Seq<char>)>,
    i: int,
    acc: Seq<char>,
) -> Seq<char>
    decreases args.len() - i,
{
    if 0 <= i < args.len() {
        arg_comments(args, i + 1, acc + "//   "@ + args[i].0 + ": "@ + args[i].1 + "\n"@)
    } else {
        acc
    }
}

/// The arguments of a call as parameters.
pub open spec fn arg_decls(args: Seq<(Seq<char>, Seq<char>)>) -> Seq<Seq<char>> {
    Seq::new(args.len(), |i: int| args[i].1 + "& "@ + args[i].0)
}

/// The pointers of the arguments of a call.
pub open spec fn arg_pointers(args: Seq<(Seq<char>, Seq<char>)>) -> Seq<Seq<char>> {
    Seq::new(args.len(), |i: int| args[i].0 + "._ptr"@)
}

/// The key of a call is made of the types of the arguments from `i` on, behind `acc`.
pub open spec fn key_lines(args: Seq<(Seq<char>, Seq<char>)>, i: int, acc: Seq<char>) -> Seq<char>
    decreases args.len() - i,
{
    if 0 <= i < args.len() {
        key_lines(
            args,
            i + 1,
            acc + "  k |= (uint64_t)"@ + args[i].0 + "._vt->type_id << ("@ + nat_text(i as nat)
                + " * 16);\n"@,
        )
    } else {
        acc
    }
}

/// The C++ of a function that finds what to call by the types of its arguments.
pub open spec fn dispatch_call_text(name: Seq<char>, args: Seq<(Seq<char>, Seq<char>)>) -> Seq<char> {
    let a = arg_comments(args, 0, "// Multi-dispatch: "@ + name + "(\n"@);
    let b = key_lines(
        args,
        0,
        a + "// )\n"@ + "static struct {\n"@ + "  uint64_t key = 0;\n"@
            + "  auto* fn = (decltype(&dispatch_impl_0))nullptr;\n"@ + "} _cache;\n\n"@ + "auto "@
            + name + "("@ + join_v(arg_decls(args), ", "@) + ") {\n"@ + "  uint64_t k = 0;\n"@,
    );
    b + "  if (k == _cache.key) [[likely]] return _cache.fn("@ + join_v(arg_pointers(args), ", "@)
        + ");\n"@ + "  auto it = _dispatch_table.find(k);\n"@
        + "  if (it != _dispatch_table.end()) {\n"@ + "    _cache.key = k;\n"@
        + "    _cache.fn = it->second;\n"@ + "    return _cache.fn("@ + join_v(
        arg_pointers(args),
        ", "@,
    ) + ");\n"@ + "  }\n"@ + "  throw std::runtime_error(\"No matching dispatch\");\n"@ + "}\n\n"@
}

// ------------------------------------------------------------------------ the registry

fn show_method_type(t: &Type) -> (r: String)
    ensures
        r@ == method_type(t@),
    decreases t,
{
    let ghost g = type_v(*t);
    match t {
        Type::GcRef(inner) => {
            let text = show_method_type(inner);
            cat3("nova::gc_ptr<", &text, ">")
        },
        Type::Path(p) => {
            let n = p.key();
            if str_eq(&n, "Int") || str_eq(&n, "Int32") {
                "int32_t".to_owned()
            } else if str_eq(&n, "Float") {
                "double".to_owned()
            } else if str_eq(&n, "String") {
                "std::string".to_owned()
            } else if str_eq(&n, "Bool") {
                "bool".to_owned()
            } else if str_eq(&n, "Unit") || str_eq(&n, "()") {
                "void".to_owned()
            } else {
                n
            }
        },
        _ => "auto".to_owned(),
    }
}

fn decls_of_rest(ps: &Vec<Param>) -> (r: Vec<String>)
    ensures
        strs_v(r@) == rest_decls(params_v(ps@)),
{
    let ghost want = rest_decls(params_v(ps@));
    let mut out: Vec<String> = Vec::new();
    let mut i: usize = 1;
    assert(want.take(0) =~= Seq::empty());
    while i < ps.len()
        invariant
            1 <= i,
            i <= ps.len() || i == 1,
            want == rest_decls(params_v(ps@)),
            strs_v(out@) == want.take(i - 1),
        decreases ps.len() - i,
    {
        let ghost pv = param_v(ps[i as int]);
        let t = show_method_type(&ps[i].ty);
        out.push(cat3(&t, " ", &ps[i].name));
        i = i + 1;
        assert(strs_v(out@) =~= want.take(i - 1));
    }
    assert(strs_v(out@) =~= want);
    out
}

fn names_of_rest(ps: &Vec<Param>) -> (r: Vec<String>)
    ensures
        strs_v(r@) == rest_names(params_v(ps@)),
{
    let ghost want = rest_names(params_v(ps@));
    let mut out: Vec<String> = Vec::new();
    let mut i: usize = 1;
    assert(want.take(0) =~= Seq::empty());
    while i < ps.len()
        invariant
            1 <= i,
            i <= ps.len() || i == 1,
            want == rest_names(params_v(ps@)),
            strs_v(out@) == want.take(i - 1),
        decreases ps.len() - i,
    {
        let ghost pv = param_v(ps[i as int]);
        out.push(ps[i].name.clone());
        i = i + 1;
        assert(strs_v(out@) =~= want.take(i - 1));
    }
    assert(strs_v(out@) =~= want);
    out
}

fn comma_led(parts: &Vec<String>) -> (r: String)
    ensures
        r@ == led_by_comma(strs_v(parts@)),
{
    if parts.len() == 0 {
        String::new()
    } else {
        let t = join(parts, ", ");
        cat2(", ", &t)
    }
}

fn emit_table(ms: &Vec<Function>, out: &mut String)
    ensures
        final(out)@ == table_entries(functions_v(ms@), 0, old(out)@),
{
    let ghost mv = functions_v(ms@);
    let mut i: usize = 0;
    while i < ms.len()
        invariant
            i <= ms.len(),
            mv == functions_v(ms@),
            table_entries(mv, 0, old(out)@) == table_entries(mv, i as int, out@),
        decreases ms.len() - i,
    {
        let ghost f = function_v(ms[i as int]);
        out.append("  ");
        out.append(&show_method_type(&ms[i].return_type));
        out.append(" (*");
        out.append(&ms[i].name);
        out.append(")(void*");
        out.append(&comma_led(&decls_of_rest(&ms[i].params)));
        out.append(");\n");
        i = i + 1;
    }
}

fn emit_pair_methods(ms: &Vec<Function>, out: &mut String)
    ensures
        final(out)@ == pair_methods(functions_v(ms@), 0, old(out)@),
{
    let ghost mv = functions_v(ms@);
    let mut i: usize = 0;
    while i < ms.len()
        invariant
            i <= ms.len(),
            mv == functions_v(ms@),
            pair_methods(mv, 0, old(out)@) == pair_methods(mv, i as int, out@),
        decreases ms.len() - i,
    {
        let ghost f = function_v(ms[i as int]);
        out.append("  ");
        out.append(&show_method_type(&ms[i].return_type));
        out.append(" ");
        out.append(&ms[i].name);
        out.append("(");
        out.append(&join(&decls_of_rest(&ms[i].params), ", "));
        out.append(") {\n    return _vt->");
        out.append(&ms[i].name);
        out.append("(_ptr");
        out.append(&comma_led(&names_of_rest(&ms[i].params)));
        out.append(");\n  }\n");
        i = i + 1;
    }
}

fn emit_led_types(ps: &Vec<Param>, out: &mut String)
    ensures
        final(out)@ == led_types(params_v(ps@), 1, old(out)@),
{
    let ghost pv = params_v(ps@);
    let mut i: usize = 1;
    while i < ps.len()
        invariant
            1 <= i,
            pv == params_v(ps@),
            led_types(pv, 1, old(out)@) == led_types(pv, i as int, out@),
        decreases ps.len() - i,
    {
        let ghost p = param_v(ps[i as int]);
        out.append(", ");
        out.append(&show_method_type(&ps[i].ty));
        i = i + 1;
    }
}

fn emit_impl_entries(ms: &Vec<Function>, target: &str, out: &mut String)
    ensures
        final(out)@ == impl_entries(functions_v(ms@), target@, 0, old(out)@),
{
    let ghost mv = functions_v(ms@);
    let mut i: usize = 0;
    while i < ms.len()
        invariant
            i <= ms.len(),
            mv == functions_v(ms@),
            impl_entries(mv, target@, 0, old(out)@) == impl_entries(
                mv,
                target@,
                i as int,
                out@,
            ),
        decreases ms.len() - i,
    {
        let ghost f = function_v(ms[i as int]);
        out.append("  (");
        out.append(&show_method_type(&ms[i].return_type));
        out.append(" (*)(void*");
        emit_led_types(&ms[i].params, out);
        out.append("))&");
        out.append(target);
        out.append("__");
        out.append(&ms[i].name);
        out.append(",\n");
        i = i + 1;
    }
}

/// The models of pairs of texts.
pub open spec fn text_pairs(s: Seq<(String, String)>) -> Seq<(Seq<char>, Seq<char>)> {
    Seq::new(s.len(), |i: int| (s[i].0@, s[i].1@))
}

fn emit_arg_comments(args: &Vec<(String, String)>, out: &mut String)
    ensures
        final(out)@ == arg_comments(text_pairs(args@), 0, old(out)@),
{
    let ghost av = text_pairs(args@);
    let mut i: usize = 0;
    while i < args.len()
        invariant
            i <= args.len(),
            av == text_pairs(args@),
            arg_comments(av, 0, old(out)@) == arg_comments(av, i as int, out@),
        decreases args.len() - i,
    {
        out.append("//   ");
        out.append(&args[i].0);
        out.append(": ");
        out.append(&args[i].1);
        out.append("\n");
        i = i + 1;
    }
}

fn decls_of_args(args: &Vec<(String, String)>) -> (r: Vec<String>)
    ensures
        strs_v(r@) == arg_decls(text_pairs(args@)),
{
    let ghost want = arg_decls(text_pairs(args@));
    let mut out: Vec<String> = Vec::new();
    let mut i: usize = 0;
    while i < args.len()
        invariant
            i <= args.len(),
            want == arg_decls(text_pairs(args@)),
            strs_v(out@) == want.take(i as int),
        decreases args.len() - i,
    {
        out.push(cat3(&args[i].1, "& ", &args[i].0));
        i = i + 1;
        assert(strs_v(out@) =~= want.take(i as int));
    }
    assert(strs_v(out@) =~= want);
    out
}

fn pointers_of_args(args: &Vec<(String, String)>) -> (r: Vec<String>)
    ensures
        strs_v(r@) == arg_pointers(text_pairs(args@)),
{
    let ghost want = arg_pointers(text_pairs(args@));
    let mut out: Vec<String> = Vec::new();
    let mut i: usize = 0;
    while i < args.len()
        invariant
            i <= args.len(),
            want == arg_pointers(text_pairs(args@)),
            strs_v(out@) == want.take(i as int),
        decreases args.len() - i,
    {
        out.push(cat2(&args[i].0, "._ptr"));
        i = i + 1;
        assert(strs_v(out@) =~= want.take(i as int));
    }
    assert(strs_v(out@) =~= want);
    out
}

fn emit_key_lines(args: &Vec<(String, String)>, out: &mut String)
    ensures
        final(out)@ == key_lines(text_pairs(args@), 0, old(out)@),
{
    let ghost av = text_pairs(args@);
    let mut i: usize = 0;
    while i < args.len()
        invariant
            i <= args.len(),
            av == text_pairs(args@),
            key_lines(av, 0, old(out)@) == key_lines(av, i as int, out@),
        decreases args.len() - i,
    {
        out.append("  k |= (uint64_t)");
        out.append(&args[i].0);
        out.append("._vt->type_id << (");
        out.append(&show_usize(i));
        out.append(" * 16);\n");
        i = i + 1;
    }
}

impl TraitRegistry {
    pub fn new() -> (r: Self)
        ensures
            r.traits@ == Map::<Seq<char>, TraitInfoV>::empty(),
            r.impls@ == Map::<Seq<char>, Map<Seq<char>, Seq<FunctionV>>>::empty(),
    {
        TraitRegistry { traits: StrMap::new(), impls: StrMap::new() }
    }

    /// A trait becomes known; one of the same name gives way.
    pub fn register_trait(&mut self, t: TraitInfo)
        ensures
            final(self).traits@ == old(self).traits@.insert(t.name@, t@),
            final(self).impls == old(self).impls,
    {
        let name = t.name.clone();
        self.traits.insert(&name, t);
    }

    /// The methods of a type for a trait become known; those that were give way.
    pub fn register_impl(&mut self, trait_name: &str, target: &str, methods: Vec<Function>)
        ensures
            final(self).traits == old(self).traits,
            final(self).impls@ == old(self).impls@.insert(
                trait_name@,
                (match lookup(old(self).impls@, trait_name@) {
                    Some(m) => m,
                    None => Map::empty(),
                }).insert(target@, functions_v(methods@)),
            ),
    {
        let mut m: TypeImpls = match self.impls.get(trait_name) {
            Some(m) => m.copy(),
            None => TypeImpls { types: StrMap::new() },
        };
        m.types.insert(target, FunctionList { functions: methods });
        self.impls.insert(trait_name, m);
    }

    /// Whether a type is not a trait.
    pub fn is_concrete(&self, ty: &Type) -> (r: bool)
        ensures
            r == (match ty@ {
                TypeV::Path(p) => !self.traits@.contains_key(last_name(p)),
                _ => true,
            }),
    {
        let ghost g = type_v(*ty);
        match ty {
            Type::Path(p) => {
                let n = p.last_name();
                !self.traits.contains(&n)
            },
            _ => true,
        }
    }

    /// The C++ of a trait.
    pub fn codegen_trait_decl(&self, name: &str) -> (r: String)
        ensures
            r@ == trait_decl_text(name@, lookup(self.traits@, name@)),
    {
        match self.traits.get(name) {
            None => String::new(),
            Some(info) => {
                let mut out = cat4("// ─── trait ", name, " ───\n", "struct ");
                out.append(name);
                out.append("_vtable {\n");
                out.append("  uint32_t type_id;\n");
                emit_table(&info.methods, &mut out);
                out.append("};\n\n");
                out.append("struct ");
                out.append(name);
                out.append(" {\n");
                out.append("  void* _ptr;\n");
                out.append("  ");
                out.append(name);
                out.append("_vtable* _vt;\n");
                emit_pair_methods(&info.methods, &mut out);
                out.append("};\n\n");
                out
            },
        }
    }

    /// The C++ of an impl.
    pub fn codegen_impl(&self, trait_name: &str, impl_type: &str) -> (r: String)
        ensures
            r@ == impl_decl_text(trait_name@, impl_type@, lookup(self.traits@, trait_name@)),
    {
        match self.traits.get(trait_name) {
            None => String::new(),
            Some(info) => {
                let mut out = cat6("// impl ", trait_name, " for ", impl_type, "\n", "inline ");
                out.append(trait_name);
                out.append("_vtable __");
                out.append(trait_name);
                out.append("_vt_");
                out.append(impl_type);
                out.append(" = {\n");
                out.append("  ");
                out.append(impl_type);
                out.append("_type_id,\n");
                emit_impl_entries(&info.methods, impl_type, &mut out);
                out.append("};\n\n");
                out.append("inline ");
                out.append(trait_name);
                out.append(" as_");
                out.append(trait_name);
                out.append("(");
                out.append(impl_type);
                out.append("* p) {\n");
                out.append("  return { p, &__");
                out.append(trait_name);
                out.append("_vt_");
                out.append(impl_type);
                out.append(" };\n");
                out.append("}\n\n");
                out
            },
        }
    }

    /// The C++ of a function that finds what to call by the types of its arguments: for
    /// each its name and its trait.
    pub fn codegen_dispatch_call(&self, fn_name: &str, trait_args: &Vec<(String, String)>) -> (r:
        String)
        ensures
            r@ == dispatch_call_text(fn_name@, text_pairs(trait_args@)),
    {
        let mut out = cat3("// Multi-dispatch: ", fn_name, "(\n");
        emit_arg_comments(trait_args, &mut out);
        out.append("// )\n");
        out.append("static struct {\n");
        out.append("  uint64_t key = 0;\n");
        out.append("  auto* fn = (decltype(&dispatch_impl_0))nullptr;\n");
        out.append("} _cache;\n\n");
        out.append("auto ");
        out.append(fn_name);
        out.append("(");
        out.append(&join(&decls_of_args(trait_args), ", "));
        out.append(") {\n");
        out.append("  uint64_t k = 0;\n");
        emit_key_lines(trait_args, &mut out);
        let pointers = join(&pointers_of_args(trait_args), ", ");
        out.append("  if (k == _cache.key) [[likely]] return _cache.fn(");
        out.append(&pointers);
        out.append(");\n");
        out.append("  auto it = _dispatch_table.find(k);\n");
        out.append("  if (it != _dispatch_table.end()) {\n");
        out.append("    _cache.key = k;\n");
        out.append("    _cache.fn = it->second;\n");
        out.append("    return _cache.fn(");
        out.append(&pointers);
        out.append(");\n");
        out.append("  }\n");
        out.append("  throw std::runtime_error(\"No matching dispatch\");\n");
        out.append("}\n\n");
        out
    }
}

} // verus!
