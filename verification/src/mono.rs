//! Monomorphization: every generic item of a module is replaced by its instances, so
//! that what comes after never sees a parameter of type.
//!
//! Types keep their arguments (`Option[Int]`) while they are inferred, so that
//! unification goes by structure; they take the names of their instances
//! (`Option__int`) where they are written back into the tree.
use vstd::prelude::*;
use crate::maps::Dup;

verus! {

use crate::ast::{
    BinOp, Block, Enum, EnumCase, Expr, ExprKind, Function, FunctionType, GenericParam, ImplBlock,
    Item, MatchArm, Module, Param, Path, PathSegment, Pattern, PatternKind, Struct, StructField,
    TraitDef, Type, TypeAlias, UnaryOp, VarDecl,
};
use crate::codegen::dispatch::{
    law_text_not_before_itself, law_texts_in_order, law_texts_ordered, text_before, text_less,
};
use crate::error::{CompileError, CompileErrorV, res_v};
use crate::maps::{FunctionList, StrMap, contains_str, lemma_list_empty, lemma_list_push, list_v};
use crate::model::{
    BlockV, EnumCaseV, EnumV, ExprV, FunctionV, ImplBlockV, ItemV, MatchArmV, ParamV, PathSegmentV,
    PatternV, StructFieldV, StructV, TraitDefV, TypeV, block_v, dup_functions, dup_imports,
    dup_types, enum_case_v, enum_cases_v, enum_v, expr_kind_v, expr_v, exprs_v, field_inits_v,
    field_patterns_v, function_type_v, function_v, functions_v, generic_param_v, generic_params_v,
    group_list_views, impl_block_v, item_v, items_v, match_arm_v, match_arms_v, module_v,
    opt_expr_v, opt_type_v, param_v, params_v, path_segment_v, path_segments_v, path_v,
    pattern_kind_v, pattern_v, patterns_v, struct_field_v, struct_fields_v, struct_v, trait_def_v,
    type_alias_v, type_v, types_v, var_decl_v,
};
use crate::mono_model::{
    Key, MonoV, Sort, Subst, Unified, any_named, are_plain, arm_start, arms_before, asked_by_bodies,
    asked_by_items, asks_for, begins_with, bind_all, bind_generics, blank, bodies_ask, body_asks,
    call_instance, call_overload, call_result, cannot_infer, case_payload, ctor_expr, depth_limit,
    differ_message, double_kind, double_type, drain, emits_instances, emitted, emitted_field,
    emitted_items, emitted_opt, emitted_segments, emitted_types, enum_bindings, enum_instance,
    enum_named, enum_place, enum_result, enum_with_case, enums_ordered, expected_bindings,
    field_type, follow, generic_names, generic_overload, generic_subst, grows, has_case, has_enum,
    has_made, has_open, has_struct, in_order, infer_concrete, infer_emitted, infer_enum, infer_in,
    infer_last_args, infer_opt, infer_segments, infer_struct, infer_types, init_of, is_asked,
    is_asked_for, is_concrete, is_instance, is_kept, is_lowered, is_needed, is_other, is_plain,
    is_queued, item_asks, keys_of, l_args, l_arm, l_arms, l_block, l_body, l_call, l_callee, l_ctor,
    l_default, l_double, l_expr, l_field_pats, l_function, l_guard, l_if, l_inits, l_let, l_loop,
    l_match, l_methods, l_params, l_pat, l_pats, l_plain_params, l_record, l_scope, l_signature,
    l_signatures, l_single, l_stmts, l_value, lemma_grows_not, lemma_grows_on, lemma_settles_not,
    lemma_settles_on, lowered_module, made_of, make_cases, make_enum, make_fields, make_function,
    make_struct, mangled, mangled_args, mangled_ident, mangled_type, names_differ, names_instance,
    newly, next_body, no_type_args, occurs, occurs_in, occurs_in_segments, occurs_message,
    operator_type, ordered_types, overloads_of, param_type, payload_of, put_enum, put_struct,
    queue_plain, resolved, same_tables, seed_impl, seed_item, seed_items, seed_trait, seed_var,
    seen_arm, seen_stmt, seen_stmts, serves, settles, single_kind, single_type, stands_for,
    struct_arguments, struct_place, struct_result, structs_ordered, subject_path, subst_segments,
    subst_type, subst_types, tabled, tables_from, too_deep, type_args_of, type_arguments, type_key,
    unify, unify_args, unify_expected, unify_fields, unify_part, unify_segments, unify_shapes,
    unify_types, var_of, var_type_at, written_scope, wrong_type_args,
};
use crate::mono_rules::{
    un_infer_concrete, un_infer_emitted, un_infer_enum, un_infer_last_args, un_infer_segments,
    un_infer_struct, un_infer_types, un_l_args, un_l_arm, un_l_arms, un_l_block, un_l_call,
    un_l_callee, un_l_ctor, un_l_double, un_l_expr, un_l_field_pats, un_l_guard, un_l_if,
    un_l_inits, un_l_let, un_l_loop, un_l_match, un_l_pat, un_l_pats, un_l_record, un_l_single,
    un_l_stmts, un_make_cases, un_make_enum, un_make_fields, un_make_struct, un_seen_arm,
    un_seen_stmt, un_seen_stmts, un_unify, un_unify_part, un_unify_segments, un_unify_shapes,
    un_unify_types,
};
use crate::text::{
    cat2, cat3, cat4, cat6, chars_of, dup_opt_str, dup_strs, join, opt_str_v, show_usize, str_eq,
    strs_v,
};
use crate::token::Span;
use crate::typeck::{assign_arg_slots, find_field, indices};

broadcast use {
    group_list_views, lemma_list_push, lemma_list_empty, lemma_grows_not, lemma_grows_on,
    lemma_settles_not, lemma_settles_on,
};

// ------------------------------------------------------------------ substitution

/// A type with the names of the map replaced, wherever one stands alone.
pub fn substitute_type(ty: &Type, map: &StrMap<Type>) -> (r: Type)
    ensures
        r@ == subst_type(ty@, map@),
    decreases ty,
{
    let ghost g = type_v(*ty);
    match ty {
        Type::Path(p) => {
            let ghost pv = path_v(*p);
            if p.segments.len() == 1 {
                let ghost sv = path_segment_v(p.segments[0]);
                if p.segments[0].args.len() == 0 {
                    if let Some(t) = map.get(&p.segments[0].name) {
                        return t.dup();
                    }
                }
            }
            let path = Path { segments: substitute_segments(&p.segments, map) };
            let ghost rv = path_v(path);
            Type::Path(path)
        },
        Type::GcRef(inner) => Type::GcRef(Box::new(substitute_type(inner, map))),
        Type::Function(ft) => {
            let ghost fv = function_type_v(*ft);
            let ft2 = FunctionType {
                params: substitute_types(&ft.params, map),
                ret: Box::new(substitute_type(&ft.ret, map)),
            };
            let ghost rv = function_type_v(ft2);
            Type::Function(ft2)
        },
        Type::Tuple(ts) => Type::Tuple(substitute_types(ts, map)),
        Type::Unit => Type::Unit,
        Type::Never => Type::Never,
    }
}

fn substitute_types(ts: &Vec<Type>, map: &StrMap<Type>) -> (r: Vec<Type>)
    ensures
        types_v(r@) == subst_types(types_v(ts@), map@),
    decreases ts,
{
    let mut out: Vec<Type> = Vec::new();
    let mut i: usize = 0;
    while i < ts.len()
        invariant
            i <= ts.len(),
            types_v(out@) == subst_types(types_v(ts@), map@).take(i as int),
        decreases ts.len() - i,
    {
        let t = substitute_type(&ts[i], map);
        out.push(t);
        i = i + 1;
        assert(types_v(out@) =~= subst_types(types_v(ts@), map@).take(i as int));
    }
    assert(types_v(out@) =~= subst_types(types_v(ts@), map@));
    out
}

fn substitute_segments(segs: &Vec<PathSegment>, map: &StrMap<Type>) -> (r: Vec<PathSegment>)
    ensures
        path_segments_v(r@) == subst_segments(path_segments_v(segs@), map@),
    decreases segs,
{
    let mut out: Vec<PathSegment> = Vec::new();
    let mut i: usize = 0;
    while i < segs.len()
        invariant
            i <= segs.len(),
            path_segments_v(out@) == subst_segments(path_segments_v(segs@), map@).take(i as int),
        decreases segs.len() - i,
    {
        let ghost sv = path_segment_v(segs[i as int]);
        let seg = PathSegment {
            name: segs[i].name.clone(),
            args: substitute_types(&segs[i].args, map),
        };
        let ghost rv = path_segment_v(seg);
        out.push(seg);
        i = i + 1;
        assert(path_segments_v(out@) =~= subst_segments(path_segments_v(segs@), map@).take(
            i as int,
        ));
    }
    assert(path_segments_v(out@) =~= subst_segments(path_segments_v(segs@), map@));
    out
}

/// The substitution that instantiates generic parameters.
fn subst_map(generics: &Vec<GenericParam>, args: &Vec<Type>) -> (r: StrMap<Type>)
    ensures
        r@ == generic_subst(generic_params_v(generics@), types_v(args@)),
{
    let mut m: StrMap<Type> = StrMap::new();
    let mut i: usize = 0;
    while i < generics.len() && i < args.len()
        invariant
            i <= generics.len(),
            i <= args.len(),
            generic_subst(generic_params_v(generics@), types_v(args@)) == bind_generics(
                generic_params_v(generics@),
                types_v(args@),
                i as int,
                m@,
            ),
        decreases generics.len() - i,
    {
        let ghost gv = generic_param_v(generics[i as int]);
        m.insert(&generics[i].name, args[i].dup());
        i = i + 1;
    }
    m
}

/// The names of generic parameters.
fn names_of_generics(generics: &Vec<GenericParam>) -> (r: Vec<String>)
    ensures
        strs_v(r@) == generic_names(generic_params_v(generics@)),
{
    let mut out: Vec<String> = Vec::new();
    let mut i: usize = 0;
    while i < generics.len()
        invariant
            i <= generics.len(),
            strs_v(out@) == generic_names(generic_params_v(generics@)).take(i as int),
        decreases generics.len() - i,
    {
        let ghost gv = generic_param_v(generics[i as int]);
        out.push(generics[i].name.clone());
        i = i + 1;
        assert(strs_v(out@) =~= generic_names(generic_params_v(generics@)).take(i as int));
    }
    assert(strs_v(out@) =~= generic_names(generic_params_v(generics@)));
    out
}

// ----------------------------------------------------------------------- mangling

fn mangle_ident(n: &str) -> (r: String)
    ensures
        r@ == mangled_ident(n@),
{
    if str_eq(n, "Int") {
        "int".to_owned()
    } else if str_eq(n, "Float") {
        "double".to_owned()
    } else if str_eq(n, "Bool") {
        "bool".to_owned()
    } else if str_eq(n, "String") {
        "string".to_owned()
    } else if str_eq(n, "Char") {
        "char".to_owned()
    } else {
        n.to_owned()
    }
}

/// A type as a part of a name: a C++ name where the names in the type are.
pub fn type_mangle(ty: &Type) -> (r: String)
    ensures
        r@ == mangled_type(ty@),
        has_cpp_names(ty@) ==> is_cpp_name(r@),
    decreases ty, 0int,
{
    let ghost g = type_v(*ty);
    proof {
        if has_cpp_names(ty@) {
            law_mangled_is_cpp_name(ty@);
        }
    }
    match ty {
        Type::Path(p) => {
            let ghost pv = path_v(*p);
            let n: usize = p.segments.len();
            if n > 0 {
                let ghost sv = path_segment_v(p.segments[n - 1]);
                let start = mangle_ident(&p.segments[n - 1].name);
                mangle_args(start, &p.segments[n - 1].args)
            } else {
                String::new()
            }
        },
        Type::GcRef(inner) => {
            let m = type_mangle(inner);
            cat2("gc__", &m)
        },
        Type::Function(_) => "fn".to_owned(),
        Type::Tuple(_) => "tuple".to_owned(),
        Type::Unit => "unit".to_owned(),
        Type::Never => "never".to_owned(),
    }
}

fn mangle_args(start: String, ts: &Vec<Type>) -> (r: String)
    ensures
        r@ == mangled_args(types_v(ts@), 0, start@),
    decreases ts, 0int,
{
    let ghost s0 = start@;
    let mut out = start;
    let mut i: usize = 0;
    while i < ts.len()
        invariant
            i <= ts.len(),
            mangled_args(types_v(ts@), 0, s0) == mangled_args(types_v(ts@), i as int, out@),
        decreases ts.len() - i,
    {
        let m = type_mangle(&ts[i]);
        out.append("__");
        out.append(&m);
        i = i + 1;
    }
    out
}

/// The name of an instance.
fn mangle(name: &str, args: &Vec<Type>) -> (r: String)
    ensures
        r@ == mangled(name@, types_v(args@)),
{
    mangle_args(name.to_owned(), args)
}

/// A character that a C++ name may begin with.
pub open spec fn begins_name(c: char) -> bool {
    'a' <= c <= 'z' || 'A' <= c <= 'Z' || c == '_'
}

/// A C++ name: letters, digits and underscores, not beginning with a digit.
pub open spec fn is_cpp_name(s: Seq<char>) -> bool {
    &&& s.len() > 0
    &&& begins_name(s[0])
    &&& forall|i: int| 0 <= i < s.len() ==> begins_name(#[trigger] s[i]) || '0' <= s[i] <= '9'
}

/// Every path in a type that its name is made of has a name, and one that C++ can read.
pub open spec fn has_cpp_names(t: TypeV) -> bool
    decreases t, 0int,
{
    match t {
        TypeV::Path(p) => p.segments.len() > 0 && is_cpp_name(p.segments.last().name)
            && all_cpp_names(p.segments.last().args),
        TypeV::GcRef(inner) => has_cpp_names(*inner),
        _ => true,
    }
}

/// The same of each type.
pub open spec fn all_cpp_names(ts: Seq<TypeV>) -> bool
    decreases ts, 0int,
{
    forall|i: int| 0 <= i < ts.len() ==> has_cpp_names(#[trigger] ts[i])
}

proof fn lemma_cpp_names_joined(a: Seq<char>, b: Seq<char>)
    requires
        is_cpp_name(a),
        is_cpp_name(b),
    ensures
        is_cpp_name(a + "__"@ + b),
        is_cpp_name("gc__"@ + a),
{
    reveal_strlit("__");
    reveal_strlit("gc__");
    let s = a + "__"@ + b;
    assert(s[0] == a[0]);
    assert forall|i: int| 0 <= i < s.len() implies begins_name(#[trigger] s[i]) || '0' <= s[i]
        <= '9' by {
        if i < a.len() {
            assert(s[i] == a[i]);
        } else if i >= a.len() + 2 {
            assert(s[i] == b[i - a.len() - 2]);
        }
    }
    let t = "gc__"@ + a;
    assert forall|i: int| 0 <= i < t.len() implies begins_name(#[trigger] t[i]) || '0' <= t[i]
        <= '9' by {
        if i >= 4 {
            assert(t[i] == a[i - 4]);
        }
    }
}

/// The part of a name that a type makes is a C++ name where the names in the type are.
pub proof fn law_mangled_is_cpp_name(t: TypeV)
    requires
        has_cpp_names(t),
    ensures
        is_cpp_name(mangled_type(t)),
    decreases t, 0int,
{
    reveal_strlit("int");
    reveal_strlit("double");
    reveal_strlit("bool");
    reveal_strlit("string");
    reveal_strlit("char");
    reveal_strlit("fn");
    reveal_strlit("tuple");
    reveal_strlit("unit");
    reveal_strlit("never");
    match t {
        TypeV::Path(p) => {
            let last = p.segments.last();
            lemma_args_cpp_name(last.args, 0, mangled_ident(last.name));
        },
        TypeV::GcRef(inner) => {
            law_mangled_is_cpp_name(*inner);
            lemma_cpp_names_joined(mangled_type(*inner), mangled_type(*inner));
        },
        _ => {},
    }
}

proof fn lemma_args_cpp_name(ts: Seq<TypeV>, i: int, acc: Seq<char>)
    requires
        0 <= i <= ts.len(),
        all_cpp_names(ts),
        is_cpp_name(acc),
    ensures
        is_cpp_name(mangled_args(ts, i, acc)),
    decreases ts, ts.len() - i,
{
    if i < ts.len() {
        law_mangled_is_cpp_name(ts[i]);
        lemma_cpp_names_joined(acc, mangled_type(ts[i]));
        lemma_args_cpp_name(ts, i + 1, acc + "__"@ + mangled_type(ts[i]));
    }
}

/// The name of an instance is a C++ name where the names that it is made of are.
pub proof fn law_instance_is_cpp_name(name: Seq<char>, args: Seq<TypeV>)
    requires
        is_cpp_name(name),
        all_cpp_names(args),
    ensures
        is_cpp_name(mangled(name, args)),
{
    lemma_args_cpp_name(args, 0, name);
}

/// The name of an instance without arguments is the name itself.
pub proof fn law_mangled_plain(name: Seq<char>)
    ensures
        mangled(name, Seq::empty()) == name,
{
}

// ---------------------------------------------------------------------- the state

/// A name with the types it is instantiated with.
#[derive(Debug)]
pub struct Instance {
    pub name: String,
    pub args: Vec<Type>,
}

impl View for Instance {
    type V = Key;

    open spec fn view(&self) -> Key {
        (self.name@, types_v(self.args@))
    }
}

/// A function body that waits: which overload of a name, and with which types.
#[derive(Debug)]
pub struct Pending {
    pub name: String,
    pub args: Vec<Type>,
    pub index: usize,
}

impl View for Pending {
    type V = (Seq<char>, Seq<TypeV>, int);

    open spec fn view(&self) -> (Seq<char>, Seq<TypeV>, int) {
        (self.name@, types_v(self.args@), self.index as int)
    }
}

fn contains_instance(v: &Vec<Instance>, name: &str, args: &Vec<Type>) -> (r: bool)
    ensures
        r == list_v(v@).contains((name@, types_v(args@))),
{
    let mut i: usize = 0;
    while i < v.len()
        invariant
            i <= v.len(),
            forall|k: int| 0 <= k < i ==> list_v(v@)[k] != (name@, types_v(args@)),
        decreases v.len() - i,
    {
        if str_eq(&v[i].name, name) && crate::ast::types_equal(&v[i].args, args) {
            assert(list_v(v@)[i as int] == (name@, types_v(args@)));
            return true;
        }
        i = i + 1;
    }
    false
}

/// The monomorphization of a module under way.
#[derive(Debug)]
pub struct Mono {
    structs: StrMap<Struct>,
    enums: StrMap<Enum>,
    enum_order: Vec<String>,
    functions: StrMap<FunctionList>,
    aliases: StrMap<TypeAlias>,
    struct_keys: Vec<Instance>,
    enum_keys: Vec<Instance>,
    fn_keys: Vec<Instance>,
    out_structs: Vec<Struct>,
    out_enums: Vec<Enum>,
    out_functions: Vec<Function>,
    out_traits: Vec<TraitDef>,
    out_impls: Vec<ImplBlock>,
    out_vars: Vec<VarDecl>,
    out_misc: Vec<Item>,
    queue: Vec<Pending>,
    cur_ret: Option<Type>,
}

impl View for Mono {
    type V = MonoV;

    closed spec fn view(&self) -> MonoV {
        MonoV {
            structs: self.structs@,
            enums: self.enums@,
            enum_order: strs_v(self.enum_order@),
            functions: self.functions@,
            aliases: self.aliases@,
            struct_keys: list_v(self.struct_keys@),
            enum_keys: list_v(self.enum_keys@),
            fn_keys: list_v(self.fn_keys@),
            out_structs: list_v(self.out_structs@),
            out_enums: list_v(self.out_enums@),
            out_functions: list_v(self.out_functions@),
            out_traits: list_v(self.out_traits@),
            out_impls: list_v(self.out_impls@),
            out_vars: list_v(self.out_vars@),
            out_misc: list_v(self.out_misc@),
            queue: list_v(self.queue@),
            cur_ret: opt_type_v(self.cur_ret),
        }
    }
}

fn place_struct(v: &mut Vec<Struct>, s: Struct)
    ensures
        list_v(final(v)@) == put_struct(list_v(old(v)@), s@),
{
    let mut i: usize = 0;
    while i < v.len() && text_less(&v[i].name, &s.name)
        invariant
            i <= v.len(),
            struct_place(list_v(v@), s@.name, 0) == struct_place(list_v(v@), s@.name, i as int),
        decreases v.len() - i,
    {
        i = i + 1;
    }
    if i < v.len() && str_eq(&v[i].name, &s.name) {
        v.set(i, s);
    } else {
        v.insert(i, s);
    }
    assert(list_v(v@) =~= put_struct(list_v(old(v)@), s@));
}

fn place_enum(v: &mut Vec<Enum>, e: Enum)
    ensures
        list_v(final(v)@) == put_enum(list_v(old(v)@), e@),
{
    let mut i: usize = 0;
    while i < v.len() && text_less(&v[i].name, &e.name)
        invariant
            i <= v.len(),
            enum_place(list_v(v@), e@.name, 0) == enum_place(list_v(v@), e@.name, i as int),
        decreases v.len() - i,
    {
        i = i + 1;
    }
    if i < v.len() && str_eq(&v[i].name, &e.name) {
        v.set(i, e);
    } else {
        v.insert(i, e);
    }
    assert(list_v(v@) =~= put_enum(list_v(old(v)@), e@));
}


// ------------------------------------------------------------- emitted without generics

/// A change of neither the tables nor what is asked for nor what is emitted, but for
/// variables.
proof fn lemma_same_output(a: MonoV, b: MonoV)
    requires
        emits_instances(a),
        b == (MonoV { cur_ret: b.cur_ret, out_vars: b.out_vars, ..a }),
    ensures
        emits_instances(b),
        grows(a, b),
        settles(a, b),
{
    reveal(emits_instances);
    reveal(grows);
}

/// The first body no longer waits.
proof fn lemma_popped(a: MonoV)
    requires
        emits_instances(a),
        a.queue.len() > 0,
    ensures
        emits_instances(MonoV { queue: a.queue.drop_first(), ..a }),
{
    reveal(emits_instances);
    let q = a.queue.drop_first();
    assert forall|i: int| 0 <= i < q.len() implies a.fn_keys.contains(
        ((#[trigger] q[i]).0, q[i].1),
    ) by {
        assert(q[i] == a.queue[i + 1]);
    }
}

/// One more item in the tables.
proof fn lemma_tabled(a: MonoV, item: ItemV)
    requires
        emits_instances(a),
    ensures
        emits_instances(tabled(a, item)),
{
    reveal(emits_instances);
}

proof fn lemma_push_struct_key(a: MonoV, key: Key)
    requires
        emits_instances(a),
        a.structs.contains_key(key.0),
    ensures
        emits_instances(MonoV { struct_keys: a.struct_keys.push(key), ..a }),
        grows(a, MonoV { struct_keys: a.struct_keys.push(key), ..a }),
{
    reveal(emits_instances);
    reveal(grows);
    let b = MonoV { struct_keys: a.struct_keys.push(key), ..a };
    assert forall|i: int| 0 <= i < b.out_structs.len() implies names_instance(
        b.struct_keys,
        (#[trigger] b.out_structs[i]).name,
    ) by {
        let name = a.out_structs[i].name;
        let k = choose|k: int|
            0 <= k < a.struct_keys.len() && name == mangled(
                (#[trigger] a.struct_keys[k]).0,
                a.struct_keys[k].1,
            );
        assert(b.struct_keys[k] == a.struct_keys[k]);
    }
}

proof fn lemma_push_enum_key(a: MonoV, key: Key)
    requires
        emits_instances(a),
        a.enums.contains_key(key.0),
    ensures
        emits_instances(MonoV { enum_keys: a.enum_keys.push(key), ..a }),
        grows(a, MonoV { enum_keys: a.enum_keys.push(key), ..a }),
{
    reveal(emits_instances);
    reveal(grows);
    let b = MonoV { enum_keys: a.enum_keys.push(key), ..a };
    assert forall|i: int| 0 <= i < b.out_enums.len() implies names_instance(
        b.enum_keys,
        (#[trigger] b.out_enums[i]).name,
    ) by {
        let name = a.out_enums[i].name;
        let k = choose|k: int|
            0 <= k < a.enum_keys.len() && name == mangled(
                (#[trigger] a.enum_keys[k]).0,
                a.enum_keys[k].1,
            );
        assert(b.enum_keys[k] == a.enum_keys[k]);
    }
}

/// What waits after the overloads without parameters of type are queued: what waited
/// before, and those.
proof fn lemma_queue_plain(
    fs: Seq<FunctionV>,
    name: Seq<char>,
    i: int,
    q: Seq<(Seq<char>, Seq<TypeV>, int)>,
)
    requires
        0 <= i <= fs.len(),
    ensures
        ({
            let r = queue_plain(fs, name, i, q);
            &&& forall|x: (Seq<char>, Seq<TypeV>, int)| #[trigger]
                q.contains(x) ==> r.contains(x)
            &&& forall|k: int|
                i <= k < fs.len() && (#[trigger] fs[k]).generics.len() == 0 ==> r.contains(
                    (name, Seq::empty(), k),
                )
            &&& forall|j: int|
                0 <= j < r.len() ==> q.contains(#[trigger] r[j]) || (r[j].0 == name && r[j].1
                    == Seq::<TypeV>::empty())
        }),
    decreases fs.len() - i,
{
    if i < fs.len() {
        let x = (name, Seq::<TypeV>::empty(), i);
        let q1 = if fs[i].generics.len() == 0 {
            q.push(x)
        } else {
            q
        };
        lemma_queue_plain(fs, name, i + 1, q1);
        assert(q.push(x).last() == x);
        assert forall|y: (Seq<char>, Seq<TypeV>, int)| #[trigger] q.contains(y) implies q1.contains(
            y,
        ) by {
            let j = q.index_of(y);
            assert(q1[j] == y);
        }
        let r = queue_plain(fs, name, i, q);
        assert(r == queue_plain(fs, name, i + 1, q1));
        assert forall|j: int| 0 <= j < r.len() implies q.contains(#[trigger] r[j]) || (r[j].0
            == name && r[j].1 == Seq::<TypeV>::empty()) by {
            if q1.contains(r[j]) {
                let m = q1.index_of(r[j]);
                assert(q1[m] == r[j]);
                if m < q.len() {
                    assert(q[m] == r[j]);
                }
            }
        }
        assert forall|k: int|
            i <= k < fs.len() && (#[trigger] fs[k]).generics.len() == 0 implies r.contains(
            (name, Seq::<TypeV>::empty(), k),
        ) by {
            if k == i {
                assert(q1.contains(x));
            }
        }
    }
}

/// An instance of a function is asked for.
proof fn lemma_asked(a: MonoV, name: Seq<char>, args: Seq<TypeV>)
    requires
        emits_instances(a),
        a.functions.contains_key(name),
    ensures
        emits_instances(make_function(a, name, args).1),
        grows(a, make_function(a, name, args).1),
{
    reveal(emits_instances);
    reveal(grows);
    if !a.fn_keys.contains((name, args)) {
        let fs = a.functions[name];
        let b = make_function(a, name, args).1;
        let n = a.fn_keys.len() as int;
        assert(b.fn_keys[n] == (name, args));
        lemma_queue_plain(fs, name, 0, a.queue);
        if args.len() == 0 {
            assert(args =~= Seq::empty());
        }
        assert forall|x: (Seq<char>, Seq<TypeV>, int)| #[trigger]
            a.queue.contains(x) implies b.queue.contains(x) by {
            let j = a.queue.index_of(x);
            if args.len() > 0 {
                assert(b.queue[j] == x);
            }
        }
        assert forall|j: int| 0 <= j < b.queue.len() implies b.fn_keys.contains(
            ((#[trigger] b.queue[j]).0, b.queue[j].1),
        ) by {
            let x = b.queue[j];
            if a.queue.contains(x) {
                let m = a.queue.index_of(x);
                assert(a.fn_keys.contains((a.queue[m].0, a.queue[m].1)));
                let k = a.fn_keys.index_of((x.0, x.1));
                assert(b.fn_keys[k] == (x.0, x.1));
            } else {
                if args.len() > 0 {
                    assert(j == a.queue.len() || b.queue[j] == a.queue[j]);
                }
                assert(b.fn_keys[n] == (x.0, x.1));
            }
        }
        assert forall|i: int| 0 <= i < b.out_functions.len() implies names_instance(
            b.fn_keys,
            (#[trigger] b.out_functions[i]).name,
        ) by {
            let fname = a.out_functions[i].name;
            let k = choose|k: int|
                0 <= k < a.fn_keys.len() && fname == mangled(
                    (#[trigger] a.fn_keys[k]).0,
                    a.fn_keys[k].1,
                );
            assert(b.fn_keys[k] == a.fn_keys[k]);
        }
        assert forall|k: int| #[trigger]
            stands_for(overloads_of(b.functions, name), args, k) implies b.queue.contains(
            (name, args, k),
        ) by {
            if args.len() == 0 {
                assert(fs[k].generics.len() == 0);
            } else {
                assert(b.queue.last() == (name, args, k));
            }
        }
    }
}

proof fn lemma_put_struct(a: MonoV, s: StructV)
    requires
        emits_instances(a),
        s.generics.len() == 0,
        names_instance(a.struct_keys, s.name),
    ensures
        emits_instances(MonoV { out_structs: put_struct(a.out_structs, s), ..a }),
        grows(a, MonoV { out_structs: put_struct(a.out_structs, s), ..a }),
{
    reveal(emits_instances);
    reveal(grows);
    lemma_struct_place(a.out_structs, s.name, 0);
    lemma_structs_ordered(a.out_structs, s);
}

proof fn lemma_put_enum(a: MonoV, e: EnumV)
    requires
        emits_instances(a),
        e.generics.len() == 0,
        names_instance(a.enum_keys, e.name),
    ensures
        emits_instances(MonoV { out_enums: put_enum(a.out_enums, e), ..a }),
        grows(a, MonoV { out_enums: put_enum(a.out_enums, e), ..a }),
{
    reveal(emits_instances);
    reveal(grows);
    lemma_enum_place(a.out_enums, e.name, 0);
    lemma_enums_ordered(a.out_enums, e);
}

proof fn lemma_push_function(a: MonoV, x: FunctionV)
    requires
        emits_instances(a),
        x.generics.len() == 0,
        names_instance(a.fn_keys, x.name),
    ensures
        emits_instances(MonoV { out_functions: a.out_functions.push(x), ..a }),
{
    reveal(emits_instances);
}

proof fn lemma_push_trait(a: MonoV, x: TraitDefV)
    requires
        emits_instances(a),
        x.generics.len() == 0,
        are_plain(x.methods),
    ensures
        emits_instances(MonoV { out_traits: a.out_traits.push(x), ..a }),
        grows(a, MonoV { out_traits: a.out_traits.push(x), ..a }),
        settles(a, MonoV { out_traits: a.out_traits.push(x), ..a }),
{
    reveal(emits_instances);
    reveal(grows);
}

proof fn lemma_push_impl(a: MonoV, x: ImplBlockV)
    requires
        emits_instances(a),
        x.generics.len() == 0,
        are_plain(x.methods),
    ensures
        emits_instances(MonoV { out_impls: a.out_impls.push(x), ..a }),
        grows(a, MonoV { out_impls: a.out_impls.push(x), ..a }),
        settles(a, MonoV { out_impls: a.out_impls.push(x), ..a }),
{
    reveal(emits_instances);
    reveal(grows);
}

proof fn lemma_push_misc(a: MonoV, x: ItemV)
    requires
        emits_instances(a),
        is_other(x),
    ensures
        emits_instances(MonoV { out_misc: a.out_misc.push(x), ..a }),
        grows(a, MonoV { out_misc: a.out_misc.push(x), ..a }),
        settles(a, MonoV { out_misc: a.out_misc.push(x), ..a }),
{
    reveal(emits_instances);
    reveal(grows);
}

/// What was asked for stays asked for.
proof fn lemma_stays_named(a: MonoV, b: MonoV, name: Seq<char>, args: Seq<TypeV>)
    requires
        grows(a, b),
    ensures
        a.struct_keys.contains((name, args)) ==> names_instance(
            b.struct_keys,
            mangled(name, args),
        ) && b.struct_keys.contains((name, args)),
        a.enum_keys.contains((name, args)) ==> names_instance(b.enum_keys, mangled(name, args))
            && b.enum_keys.contains((name, args)),
        a.fn_keys.contains((name, args)) ==> names_instance(b.fn_keys, mangled(name, args))
            && b.fn_keys.contains((name, args)),
{
    reveal(grows);
    let key = (name, args);
    if a.struct_keys.contains(key) {
        assert(b.struct_keys[a.struct_keys.index_of(key)] == key);
    }
    if a.enum_keys.contains(key) {
        assert(b.enum_keys[a.enum_keys.index_of(key)] == key);
    }
    if a.fn_keys.contains(key) {
        assert(b.fn_keys[a.fn_keys.index_of(key)] == key);
    }
}

/// A struct that was asked for is emitted once what its fields ask for is.
proof fn lemma_struct_made(a: MonoV, key: Key, b: MonoV, s: StructV)
    requires
        settles(MonoV { struct_keys: a.struct_keys.push(key), ..a }, b),
        s.name == mangled(key.0, key.1),
    ensures
        settles(a, MonoV { out_structs: put_struct(b.out_structs, s), ..b }),
{
    reveal(settles);
    let a1 = MonoV { struct_keys: a.struct_keys.push(key), ..a };
    let c = MonoV { out_structs: put_struct(b.out_structs, s), ..b };
    lemma_struct_place(b.out_structs, s.name, 0);
    lemma_struct_put(b.out_structs, s);
    assert forall|k: int| a.struct_keys.len() <= k < c.struct_keys.len() implies has_struct(
        c.out_structs,
        mangled((#[trigger] c.struct_keys[k]).0, c.struct_keys[k].1),
    ) by {
        if k == a.struct_keys.len() {
            assert(a1.struct_keys[k] == key);
            assert(b.struct_keys[k] == key);
        } else {
            let other = b.struct_keys[k];
            assert(has_struct(b.out_structs, mangled(other.0, other.1)));
        }
    }
    assert forall|k: int| 0 <= k < a.struct_keys.len() implies #[trigger] c.struct_keys[k]
        == a.struct_keys[k] by {
        assert(a1.struct_keys[k] == a.struct_keys[k]);
    }
    assert(begins_with(c.struct_keys, a.struct_keys));
    assert(begins_with(c.enum_keys, a1.enum_keys));
    assert forall|name: Seq<char>| #[trigger] has_struct(a.out_structs, name) implies has_struct(
        c.out_structs,
        name,
    ) by {
        assert(has_struct(a1.out_structs, name));
        assert(has_struct(b.out_structs, name));
    }
    assert forall|name: Seq<char>| #[trigger] has_enum(a.out_enums, name) implies has_enum(
        c.out_enums,
        name,
    ) by {
        assert(has_enum(a1.out_enums, name));
    }
    assert forall|k: int| a.enum_keys.len() <= k < c.enum_keys.len() implies has_enum(
        c.out_enums,
        mangled((#[trigger] c.enum_keys[k]).0, c.enum_keys[k].1),
    ) by {
        assert(b.enum_keys[k] == c.enum_keys[k]);
    }
    assert(begins_with(c.enum_keys, a.enum_keys));
}

/// An enum that was asked for is emitted once what its payloads ask for is.
proof fn lemma_enum_made(a: MonoV, key: Key, b: MonoV, e: EnumV)
    requires
        settles(MonoV { enum_keys: a.enum_keys.push(key), ..a }, b),
        e.name == mangled(key.0, key.1),
    ensures
        settles(a, MonoV { out_enums: put_enum(b.out_enums, e), ..b }),
{
    reveal(settles);
    let a1 = MonoV { enum_keys: a.enum_keys.push(key), ..a };
    let c = MonoV { out_enums: put_enum(b.out_enums, e), ..b };
    lemma_enum_place(b.out_enums, e.name, 0);
    lemma_enum_put(b.out_enums, e);
    assert forall|k: int| a.enum_keys.len() <= k < c.enum_keys.len() implies has_enum(
        c.out_enums,
        mangled((#[trigger] c.enum_keys[k]).0, c.enum_keys[k].1),
    ) by {
        if k == a.enum_keys.len() {
            assert(a1.enum_keys[k] == key);
            assert(b.enum_keys[k] == key);
        } else {
            let other = b.enum_keys[k];
            assert(has_enum(b.out_enums, mangled(other.0, other.1)));
        }
    }
    assert forall|k: int| 0 <= k < a.enum_keys.len() implies #[trigger] c.enum_keys[k]
        == a.enum_keys[k] by {
        assert(a1.enum_keys[k] == a.enum_keys[k]);
    }
    assert(begins_with(c.enum_keys, a.enum_keys));
    assert(begins_with(c.struct_keys, a1.struct_keys));
    assert forall|name: Seq<char>| #[trigger] has_enum(a.out_enums, name) implies has_enum(
        c.out_enums,
        name,
    ) by {
        assert(has_enum(a1.out_enums, name));
        assert(has_enum(b.out_enums, name));
    }
    assert forall|name: Seq<char>| #[trigger] has_struct(a.out_structs, name) implies has_struct(
        c.out_structs,
        name,
    ) by {
        assert(has_struct(a1.out_structs, name));
    }
    assert forall|k: int| a.struct_keys.len() <= k < c.struct_keys.len() implies has_struct(
        c.out_structs,
        mangled((#[trigger] c.struct_keys[k]).0, c.struct_keys[k].1),
    ) by {
        assert(b.struct_keys[k] == c.struct_keys[k]);
    }
    assert(begins_with(c.struct_keys, a.struct_keys));
}

/// Every instance that was asked for waits, where nothing was asked for before.
proof fn lemma_serves_first(a: MonoV, b: MonoV)
    requires
        a.fn_keys.len() == 0,
        grows(a, b),
    ensures
        serves(b),
{
    reveal(grows);
    reveal(serves);
    assert forall|j: int, k: int|
        #![trigger stands_for(overloads_of(b.functions, b.fn_keys[j].0), b.fn_keys[j].1, k)]
        0 <= j < b.fn_keys.len() && stands_for(
            overloads_of(b.functions, b.fn_keys[j].0),
            b.fn_keys[j].1,
            k,
        ) implies b.queue.contains((b.fn_keys[j].0, b.fn_keys[j].1, k)) by {
        assert(is_queued(b, b.fn_keys[j]));
    }
}

/// The first body that waits is lowered and emitted.
proof fn lemma_serves_next(st: MonoV, st2: MonoV, f: FunctionV)
    requires
        serves(st),
        st.queue.len() > 0,
        grows(MonoV { queue: st.queue.drop_first(), ..st }, st2),
        made_of(
            f,
            st.queue[0].0,
            overloads_of(st.functions, st.queue[0].0)[st.queue[0].2],
            st.queue[0].1,
        ),
    ensures
        serves(MonoV { out_functions: st2.out_functions.push(f), ..st2 }),
{
    reveal(grows);
    reveal(serves);
    let st1 = MonoV { queue: st.queue.drop_first(), ..st };
    let b = MonoV { out_functions: st2.out_functions.push(f), ..st2 };
    assert forall|j: int, k: int|
        #![trigger stands_for(overloads_of(b.functions, b.fn_keys[j].0), b.fn_keys[j].1, k)]
        0 <= j < b.fn_keys.len() && stands_for(
            overloads_of(b.functions, b.fn_keys[j].0),
            b.fn_keys[j].1,
            k,
        ) implies b.queue.contains((b.fn_keys[j].0, b.fn_keys[j].1, k)) || has_made(
        b.out_functions,
        b.fn_keys[j].0,
        overloads_of(b.functions, b.fn_keys[j].0)[k],
        b.fn_keys[j].1,
    ) by {
        let key = b.fn_keys[j];
        let fs = overloads_of(b.functions, key.0);
        let x = (key.0, key.1, k);
        if j < st.fn_keys.len() {
            assert(st.fn_keys[j] == key);
            assert(stands_for(overloads_of(st.functions, st.fn_keys[j].0), st.fn_keys[j].1, k));
            if st.queue.contains(x) {
                let m = st.queue.index_of(x);
                if m == 0 {
                    assert(b.out_functions.last() == f);
                    assert(made_of(b.out_functions.last(), key.0, fs[k], key.1));
                } else {
                    assert(st1.queue[m - 1] == x);
                    assert(st1.queue.contains(x));
                }
            } else {
                let i = choose|i: int|
                    0 <= i < st.out_functions.len() && made_of(
                        #[trigger] st.out_functions[i],
                        key.0,
                        fs[k],
                        key.1,
                    );
                assert(b.out_functions[i] == st.out_functions[i]);
            }
        } else {
            assert(is_queued(st2, st2.fn_keys[j]));
        }
    }
}

/// What the tables hold comes from the items, and no overload is lost.
proof fn lemma_tables(st: MonoV, items: Seq<ItemV>, i: int)
    requires
        0 <= i <= items.len(),
    ensures
        ({
            let t = tables_from(st, items, i);
            &&& forall|n: Seq<char>| #[trigger]
                t.structs.contains_key(n) ==> st.structs.contains_key(n) || exists|j: int|
                    i <= j < items.len() && (#[trigger] items[j]) is Struct
                        && items[j]->Struct_0.name == n
            &&& forall|n: Seq<char>| #[trigger]
                t.enums.contains_key(n) ==> st.enums.contains_key(n) || exists|j: int|
                    i <= j < items.len() && (#[trigger] items[j]) is Enum
                        && items[j]->Enum_0.name == n
            &&& forall|n: Seq<char>| #[trigger]
                t.functions.contains_key(n) ==> st.functions.contains_key(n) || exists|j: int|
                    i <= j < items.len() && (#[trigger] items[j]) is Function
                        && items[j]->Function_0.name == n
            &&& forall|n: Seq<char>, f: FunctionV| #[trigger]
                overloads_of(st.functions, n).contains(f) ==> overloads_of(
                    t.functions,
                    n,
                ).contains(f)
            &&& forall|j: int|
                i <= j < items.len() && (#[trigger] items[j]) is Function ==> overloads_of(
                    t.functions,
                    items[j]->Function_0.name,
                ).contains(items[j]->Function_0)
        }),
    decreases items.len() - i,
{
    if i < items.len() {
        let st1 = tabled(st, items[i]);
        lemma_tables(st1, items, i + 1);
        assert forall|n: Seq<char>, f: FunctionV| #[trigger]
            overloads_of(st.functions, n).contains(f) implies overloads_of(
            st1.functions,
            n,
        ).contains(f) by {
            let k = overloads_of(st.functions, n).index_of(f);
            assert(overloads_of(st1.functions, n)[k] == f);
        }
        if let ItemV::Function(f) = items[i] {
            assert(overloads_of(st1.functions, f.name).last() == f);
            assert(overloads_of(st1.functions, f.name).contains(f));
        }
    }
}

/// The tables alone ask for nothing.
proof fn lemma_no_keys(st: MonoV, items: Seq<ItemV>, i: int)
    ensures
        ({
            let t = tables_from(st, items, i);
            &&& t.struct_keys == st.struct_keys
            &&& t.enum_keys == st.enum_keys
            &&& t.fn_keys == st.fn_keys
            &&& t.out_structs == st.out_structs
            &&& t.out_enums == st.out_enums
        }),
    decreases items.len() - i,
{
    if 0 <= i < items.len() {
        lemma_no_keys(tabled(st, items[i]), items, i + 1);
    }
}

/// What was asked for stays asked for.
proof fn lemma_still_asked(a: MonoV, b: MonoV, items: Seq<ItemV>, n: int)
    requires
        begins_with(b.struct_keys, a.struct_keys),
        begins_with(b.enum_keys, a.enum_keys),
        begins_with(b.fn_keys, a.fn_keys),
        asks_for(a, items, n),
    ensures
        asks_for(b, items, n),
{
    assert forall|j: int| 0 <= j < n && is_plain(#[trigger] items[j]) implies is_asked(
        b,
        items[j],
    ) by {
        match items[j] {
            ItemV::Struct(s) => {
                let key = (s.name, Seq::<TypeV>::empty());
                assert(b.struct_keys[a.struct_keys.index_of(key)] == key);
            },
            ItemV::Enum(e) => {
                let key = (e.name, Seq::<TypeV>::empty());
                assert(b.enum_keys[a.enum_keys.index_of(key)] == key);
            },
            ItemV::Function(f) => {
                let key = (f.name, Seq::<TypeV>::empty());
                assert(b.fn_keys[a.fn_keys.index_of(key)] == key);
            },
            _ => {},
        }
    }
}

/// What an item newly asks for is asked for by an item.
proof fn lemma_item_asked(items: Seq<ItemV>, a: MonoV, b: MonoV, j: int)
    requires
        0 <= j < items.len(),
        asked_by_items(items, a),
        same_tables(a, tables_from(blank(), items, 0)),
        b == seed_item(a, items[j]).1,
    ensures
        asked_by_items(items, b),
{
    reveal(asked_by_items);
    assert forall|sort: Sort, k: int| 0 <= k < keys_of(b, sort).len() implies item_asks(
        items,
        sort,
        #[trigger] keys_of(b, sort)[k],
    ) by {
        let key = keys_of(b, sort)[k];
        if keys_of(a, sort).contains(key) {
            let i = keys_of(a, sort).index_of(key);
            assert(item_asks(items, sort, keys_of(a, sort)[i]));
        } else {
            assert(keys_of(b, sort).contains(key));
            assert(newly(a, seed_item(a, items[j]).1, sort, key));
        }
    }
}

/// What a body newly asks for is asked for by a body that is emitted.
proof fn lemma_body_asked(before: MonoV, a: MonoV, b: MonoV, f: FunctionV)
    requires
        asked_by_bodies(before, a),
        same_tables(a, before),
        a.queue.len() > 0,
        next_body(a) == (Ok::<FunctionV, CompileErrorV>(f), b),
        a.out_functions == b.out_functions,
    ensures
        asked_by_bodies(before, MonoV { out_functions: b.out_functions.push(f), ..b }),
{
    reveal(asked_by_bodies);
    let c = MonoV { out_functions: b.out_functions.push(f), ..b };
    assert forall|sort: Sort, k: int| 0 <= k < keys_of(c, sort).len() implies keys_of(
        before,
        sort,
    ).contains(#[trigger] keys_of(c, sort)[k]) || bodies_ask(
        before,
        c.out_functions,
        sort,
        keys_of(c, sort)[k],
    ) by {
        let key = keys_of(c, sort)[k];
        if keys_of(a, sort).contains(key) {
            let i = keys_of(a, sort).index_of(key);
            assert(keys_of(a, sort)[i] == key);
            if !keys_of(before, sort).contains(key) {
                let m = choose|m: int|
                    0 <= m < a.out_functions.len() && body_asks(
                        before,
                        #[trigger] a.out_functions[m],
                        sort,
                        key,
                    );
                assert(c.out_functions[m] == a.out_functions[m]);
            }
        } else {
            assert(keys_of(b, sort)[k] == key);
            assert(keys_of(b, sort).contains(key));
            assert(newly(a, next_body(a).1, sort, key));
            assert(body_asks(before, f, sort, key));
            assert(c.out_functions.last() == f);
        }
    }
}

/// Every struct, enum and function that is emitted is asked for.
proof fn lemma_needed(items: Seq<ItemV>, st1: MonoV, st: MonoV)
    requires
        same_tables(st1, tables_from(blank(), items, 0)),
        asked_by_items(items, st1),
        asked_by_bodies(st1, st),
        emits_instances(st),
    ensures
        forall|i: int|
            0 <= i < emitted_items(st).len() ==> is_needed(
                items,
                emitted_items(st),
                #[trigger] emitted_items(st)[i],
            ),
{
    let out = emitted_items(st);
    let n1 = st.out_structs.len() as int;
    let n2 = n1 + st.out_enums.len();
    let at_functions = n2 + st.out_traits.len() + st.out_impls.len();
    let t = tables_from(blank(), items, 0);
    assert forall|sort: Sort, k: int| 0 <= k < keys_of(st, sort).len() implies is_asked_for(
        items,
        out,
        sort,
        #[trigger] keys_of(st, sort)[k],
    ) by {
        reveal(asked_by_items);
        reveal(asked_by_bodies);
        let key = keys_of(st, sort)[k];
        if keys_of(st1, sort).contains(key) {
            let i = keys_of(st1, sort).index_of(key);
            assert(item_asks(items, sort, keys_of(st1, sort)[i]));
        } else {
            let m = choose|m: int|
                0 <= m < st.out_functions.len() && body_asks(
                    st1,
                    #[trigger] st.out_functions[m],
                    sort,
                    key,
                );
            let f = st.out_functions[m];
            let a = choose|a: MonoV|
                same_tables(a, st1) && a.queue.len() > 0 && next_body(a).0 == Ok::<
                    FunctionV,
                    CompileErrorV,
                >(f) && #[trigger] newly(a, next_body(a).1, sort, key);
            assert(same_tables(a, t));
            assert(body_asks(t, f, sort, key));
            assert(out[at_functions + m] == ItemV::Function(f));
        }
    }
    assert forall|i: int| 0 <= i < out.len() implies is_needed(items, out, #[trigger] out[i]) by {
        reveal(emits_instances);
        if i < n1 {
            let s = st.out_structs[i];
            assert(out[i] == ItemV::Struct(s));
            let k = choose|k: int|
                0 <= k < st.struct_keys.len() && s.name == mangled(
                    (#[trigger] st.struct_keys[k]).0,
                    st.struct_keys[k].1,
                );
            assert(keys_of(st, Sort::Struct)[k] == st.struct_keys[k]);
        } else if i < n2 {
            let e = st.out_enums[i - n1];
            assert(out[i] == ItemV::Enum(e));
            let k = choose|k: int|
                0 <= k < st.enum_keys.len() && e.name == mangled(
                    (#[trigger] st.enum_keys[k]).0,
                    st.enum_keys[k].1,
                );
            assert(keys_of(st, Sort::Enum)[k] == st.enum_keys[k]);
        } else if at_functions <= i < at_functions + st.out_functions.len() {
            let f = st.out_functions[i - at_functions];
            assert(out[i] == ItemV::Function(f));
            let k = choose|k: int|
                0 <= k < st.fn_keys.len() && f.name == mangled(
                    (#[trigger] st.fn_keys[k]).0,
                    st.fn_keys[k].1,
                );
            assert(keys_of(st, Sort::Function)[k] == st.fn_keys[k]);
        }
    }
}

/// What is emitted once nothing waits: instances of the items, without parameters of type,
/// and every item that had none.
proof fn lemma_emitted(items: Seq<ItemV>, st0: MonoV, st: MonoV)
    requires
        st0 == tables_from(blank(), items, 0),
        st.structs == st0.structs,
        st.enums == st0.enums,
        st.functions == st0.functions,
        emits_instances(st),
        serves(st),
        st.queue.len() == 0,
        settles(blank(), st),
        asks_for(st, items, items.len() as int),
    ensures
        forall|i: int|
            0 <= i < emitted_items(st).len() ==> is_concrete(#[trigger] emitted_items(st)[i])
                && is_instance(items, emitted_items(st)[i]),
        forall|j: int|
            0 <= j < items.len() && is_plain(#[trigger] items[j]) ==> is_kept(
                emitted_items(st),
                items[j],
            ),
        names_differ(emitted_items(st)),
{
    lemma_tables(blank(), items, 0);
    let out = emitted_items(st);
    assert(names_differ(out)) by {
        reveal(emits_instances);
        let n1 = st.out_structs.len() as int;
        assert forall|i: int, j: int|
            #![trigger out[i], out[j]]
            0 <= i < j < out.len() implies match (out[i], out[j]) {
            (ItemV::Struct(a), ItemV::Struct(b)) => a.name != b.name,
            (ItemV::Enum(a), ItemV::Enum(b)) => a.name != b.name,
            _ => true,
        } by {
            if let (ItemV::Struct(a), ItemV::Struct(b)) = (out[i], out[j]) {
                assert(a == st.out_structs[i] && b == st.out_structs[j]);
                law_text_not_before_itself(a.name, 0);
            }
            if let (ItemV::Enum(a), ItemV::Enum(b)) = (out[i], out[j]) {
                assert(a == st.out_enums[i - n1] && b == st.out_enums[j - n1]);
                law_text_not_before_itself(a.name, 0);
            }
        }
    }
    let at_functions = st.out_structs.len() + st.out_enums.len() + st.out_traits.len()
        + st.out_impls.len();
    assert forall|i: int| 0 <= i < out.len() implies is_concrete(#[trigger] out[i]) && is_instance(
        items,
        out[i],
    ) by {
        reveal(emits_instances);
        let n1 = st.out_structs.len() as int;
        let n2 = n1 + st.out_enums.len();
        if i < n1 {
            let s = st.out_structs[i];
            assert(out[i] == ItemV::Struct(s));
            let k = choose|k: int|
                0 <= k < st.struct_keys.len() && s.name == mangled(
                    (#[trigger] st.struct_keys[k]).0,
                    st.struct_keys[k].1,
                );
            assert(st0.structs.contains_key(st.struct_keys[k].0));
            let j = choose|j: int|
                0 <= j < items.len() && (#[trigger] items[j]) is Struct
                    && items[j]->Struct_0.name == st.struct_keys[k].0;
            assert(s.name == mangled(items[j]->Struct_0.name, st.struct_keys[k].1));
        } else if i < n2 {
            let e = st.out_enums[i - n1];
            assert(out[i] == ItemV::Enum(e));
            let k = choose|k: int|
                0 <= k < st.enum_keys.len() && e.name == mangled(
                    (#[trigger] st.enum_keys[k]).0,
                    st.enum_keys[k].1,
                );
            assert(st0.enums.contains_key(st.enum_keys[k].0));
            let j = choose|j: int|
                0 <= j < items.len() && (#[trigger] items[j]) is Enum && items[j]->Enum_0.name
                    == st.enum_keys[k].0;
            assert(e.name == mangled(items[j]->Enum_0.name, st.enum_keys[k].1));
        } else if at_functions <= i < at_functions + st.out_functions.len() {
            let f = st.out_functions[i - at_functions];
            assert(out[i] == ItemV::Function(f));
            let k = choose|k: int|
                0 <= k < st.fn_keys.len() && f.name == mangled(
                    (#[trigger] st.fn_keys[k]).0,
                    st.fn_keys[k].1,
                );
            assert(st0.functions.contains_key(st.fn_keys[k].0));
            let j = choose|j: int|
                0 <= j < items.len() && (#[trigger] items[j]) is Function
                    && items[j]->Function_0.name == st.fn_keys[k].0;
            assert(f.name == mangled(items[j]->Function_0.name, st.fn_keys[k].1));
        }
    }
    assert forall|j: int| 0 <= j < items.len() && is_plain(#[trigger] items[j]) implies is_kept(
        out,
        items[j],
    ) by {
        assert(is_asked(st, items[j]));
        let none = Seq::<TypeV>::empty();
        match items[j] {
            ItemV::Struct(s) => {
                reveal(settles);
                let k = st.struct_keys.index_of((s.name, none));
                assert(st.struct_keys[k] == (s.name, none));
                assert(has_struct(st.out_structs, mangled(s.name, none)));
                law_mangled_plain(s.name);
                let i = choose|i: int|
                    0 <= i < st.out_structs.len() && (#[trigger] st.out_structs[i]).name == s.name;
                assert(is_lowered(out[i], items[j]));
            },
            ItemV::Enum(e) => {
                reveal(settles);
                let k = st.enum_keys.index_of((e.name, none));
                assert(st.enum_keys[k] == (e.name, none));
                assert(has_enum(st.out_enums, mangled(e.name, none)));
                law_mangled_plain(e.name);
                let i = choose|i: int|
                    0 <= i < st.out_enums.len() && (#[trigger] st.out_enums[i]).name == e.name;
                assert(is_lowered(out[st.out_structs.len() + i], items[j]));
            },
            ItemV::Function(g) => {
                reveal(serves);
                let a = st.fn_keys.index_of((g.name, none));
                let fs = overloads_of(st.functions, g.name);
                let k = fs.index_of(g);
                assert(stands_for(overloads_of(st.functions, st.fn_keys[a].0), st.fn_keys[a].1, k));
                let i = choose|i: int|
                    0 <= i < st.out_functions.len() && made_of(
                        #[trigger] st.out_functions[i],
                        g.name,
                        g,
                        none,
                    );
                assert(out[at_functions + i] == ItemV::Function(st.out_functions[i]));
                assert(is_lowered(out[at_functions + i], items[j]));
            },
            _ => {},
        }
    }
}

/// A struct in its place: it is there, and so is every other name.
proof fn lemma_struct_put(ss: Seq<StructV>, s: StructV)
    ensures
        has_struct(put_struct(ss, s), s.name),
        forall|name: Seq<char>| #[trigger]
            has_struct(ss, name) ==> has_struct(put_struct(ss, s), name),
{
    let i = struct_place(ss, s.name, 0);
    let r = put_struct(ss, s);
    lemma_struct_place(ss, s.name, 0);
    assert(r[i] == s);
    assert forall|name: Seq<char>| #[trigger] has_struct(ss, name) implies has_struct(r, name) by {
        let j = choose|j: int| 0 <= j < ss.len() && (#[trigger] ss[j]).name == name;
        if i < ss.len() && ss[i].name == s.name {
            assert(r[j].name == name);
        } else if j < i {
            assert(r[j].name == name);
        } else {
            assert(r[j + 1].name == name);
        }
    }
}

/// An enum in its place: it is there, and so is every other name.
proof fn lemma_enum_put(es: Seq<EnumV>, e: EnumV)
    ensures
        has_enum(put_enum(es, e), e.name),
        forall|name: Seq<char>| #[trigger]
            has_enum(es, name) ==> has_enum(put_enum(es, e), name),
{
    let i = enum_place(es, e.name, 0);
    let r = put_enum(es, e);
    lemma_enum_place(es, e.name, 0);
    assert(r[i] == e);
    assert forall|name: Seq<char>| #[trigger] has_enum(es, name) implies has_enum(r, name) by {
        let j = choose|j: int| 0 <= j < es.len() && (#[trigger] es[j]).name == name;
        if i < es.len() && es[i].name == e.name {
            assert(r[j].name == name);
        } else if j < i {
            assert(r[j].name == name);
        } else {
            assert(r[j + 1].name == name);
        }
    }
}

/// The order stays with one more in its place.
proof fn lemma_structs_ordered(ss: Seq<StructV>, s: StructV)
    requires
        structs_ordered(ss),
    ensures
        structs_ordered(put_struct(ss, s)),
{
    let p = struct_place(ss, s.name, 0);
    let r = put_struct(ss, s);
    lemma_struct_place(ss, s.name, 0);
    let replaced = p < ss.len() && ss[p].name == s.name;
    if !replaced {
        assert forall|j: int| p <= j < ss.len() implies text_before(
            s.name,
            (#[trigger] ss[j]).name,
            0,
        ) by {
            law_texts_ordered(ss[p].name, s.name, 0);
            if j > p {
                law_texts_in_order(s.name, ss[p].name, ss[j].name, 0);
            }
        }
    }
    assert forall|i: int, j: int| 0 <= i < j < r.len() implies text_before(
        (#[trigger] r[i]).name,
        (#[trigger] r[j]).name,
        0,
    ) by {
        if replaced {
            assert(r[i].name == ss[i].name && r[j].name == ss[j].name);
        } else {
            if i < p {
                assert(r[i] == ss[i]);
            }
            if i > p {
                assert(r[i] == ss[i - 1]);
            }
            if j < p {
                assert(r[j] == ss[j]);
            }
            if j > p {
                assert(r[j] == ss[j - 1]);
            }
        }
    }
}

proof fn lemma_struct_place(ss: Seq<StructV>, name: Seq<char>, i: int)
    requires
        0 <= i <= ss.len(),
    ensures
        ({
            let p = struct_place(ss, name, i);
            &&& i <= p <= ss.len()
            &&& forall|k: int| i <= k < p ==> text_before((#[trigger] ss[k]).name, name, 0)
            &&& p < ss.len() ==> !text_before(ss[p].name, name, 0)
        }),
    decreases ss.len() - i,
{
    if i < ss.len() {
        lemma_struct_place(ss, name, i + 1);
    }
}

/// The order stays with one more in its place.
proof fn lemma_enums_ordered(es: Seq<EnumV>, e: EnumV)
    requires
        enums_ordered(es),
    ensures
        enums_ordered(put_enum(es, e)),
{
    let p = enum_place(es, e.name, 0);
    let r = put_enum(es, e);
    lemma_enum_place(es, e.name, 0);
    let replaced = p < es.len() && es[p].name == e.name;
    if !replaced {
        assert forall|j: int| p <= j < es.len() implies text_before(
            e.name,
            (#[trigger] es[j]).name,
            0,
        ) by {
            law_texts_ordered(es[p].name, e.name, 0);
            if j > p {
                law_texts_in_order(e.name, es[p].name, es[j].name, 0);
            }
        }
    }
    assert forall|i: int, j: int| 0 <= i < j < r.len() implies text_before(
        (#[trigger] r[i]).name,
        (#[trigger] r[j]).name,
        0,
    ) by {
        if replaced {
            assert(r[i].name == es[i].name && r[j].name == es[j].name);
        } else {
            if i < p {
                assert(r[i] == es[i]);
            }
            if i > p {
                assert(r[i] == es[i - 1]);
            }
            if j < p {
                assert(r[j] == es[j]);
            }
            if j > p {
                assert(r[j] == es[j - 1]);
            }
        }
    }
}

proof fn lemma_enum_place(es: Seq<EnumV>, name: Seq<char>, i: int)
    requires
        0 <= i <= es.len(),
    ensures
        ({
            let p = enum_place(es, name, i);
            &&& i <= p <= es.len()
            &&& forall|k: int| i <= k < p ==> text_before((#[trigger] es[k]).name, name, 0)
            &&& p < es.len() ==> !text_before(es[p].name, name, 0)
        }),
    decreases es.len() - i,
{
    if i < es.len() {
        lemma_enum_place(es, name, i + 1);
    }
}

// -------------------------------------------------------------- concrete types

spec fn types_res(r: Result<Vec<Type>, CompileError>) -> Result<Seq<TypeV>, CompileErrorV> {
    match r {
        Ok(v) => Ok(types_v(v@)),
        Err(e) => Err(e@),
    }
}

spec fn segments_res(r: Result<Vec<PathSegment>, CompileError>) -> Result<
    Seq<PathSegmentV>,
    CompileErrorV,
> {
    match r {
        Ok(v) => Ok(path_segments_v(v@)),
        Err(e) => Err(e@),
    }
}

spec fn fields_res(r: Result<Vec<StructField>, CompileError>) -> Result<
    Seq<StructFieldV>,
    CompileErrorV,
> {
    match r {
        Ok(v) => Ok(struct_fields_v(v@)),
        Err(e) => Err(e@),
    }
}

spec fn cases_res(r: Result<Vec<EnumCase>, CompileError>) -> Result<Seq<EnumCaseV>, CompileErrorV> {
    match r {
        Ok(v) => Ok(enum_cases_v(v@)),
        Err(e) => Err(e@),
    }
}

fn nesting_error() -> (r: CompileError)
    ensures
        r@ == too_deep(),
{
    CompileError::Generic("type definitions nest too deeply".to_owned())
}

fn arguments_error(key: &str, want: usize, got: usize) -> (r: CompileError)
    ensures
        r@ == (if want == 0 {
            no_type_args(key@)
        } else {
            wrong_type_args(key@, want as nat, got as nat)
        }),
{
    if want == 0 {
        CompileError::type_err(&cat3("type '", key, "' takes no type arguments"), Span::zero())
    } else {
        let w = show_usize(want);
        let g = show_usize(got);
        CompileError::type_err(
            &cat6("type '", key, "' expects ", &w, " type arguments, got ", &g),
            Span::zero(),
        )
    }
}

impl Mono {
    /// A concrete type as it is emitted: instances by their names.
    fn emit_type(&self, ty: &Type) -> (r: Type)
        ensures
            r@ == emitted(self@, ty@),
        decreases ty,
    {
        let ghost g = type_v(*ty);
        match ty {
            Type::Path(p) => {
                let ghost pv = path_v(*p);
                let key = p.key();
                let args = p.last_args();
                if args.len() > 0 && (contains_instance(&self.struct_keys, &key, &args)
                    || contains_instance(&self.enum_keys, &key, &args)) {
                    let n = mangle(&key, &args);
                    return Type::path(&n);
                }
                let path = Path { segments: self.emit_segments(&p.segments) };
                let ghost rv = path_v(path);
                Type::Path(path)
            },
            Type::GcRef(inner) => Type::GcRef(Box::new(self.emit_type(inner))),
            Type::Function(ft) => {
                let ghost fv = function_type_v(*ft);
                let ft2 = FunctionType {
                    params: self.emit_types(&ft.params),
                    ret: Box::new(self.emit_type(&ft.ret)),
                };
                let ghost rv = function_type_v(ft2);
                Type::Function(ft2)
            },
            Type::Tuple(ts) => Type::Tuple(self.emit_types(ts)),
            Type::Unit => Type::Unit,
            Type::Never => Type::Never,
        }
    }

    fn emit_types(&self, ts: &Vec<Type>) -> (r: Vec<Type>)
        ensures
            types_v(r@) == emitted_types(self@, types_v(ts@)),
        decreases ts,
    {
        let mut out: Vec<Type> = Vec::new();
        let mut i: usize = 0;
        while i < ts.len()
            invariant
                i <= ts.len(),
                types_v(out@) == emitted_types(self@, types_v(ts@)).take(i as int),
            decreases ts.len() - i,
        {
            let t = self.emit_type(&ts[i]);
            out.push(t);
            i = i + 1;
            assert(types_v(out@) =~= emitted_types(self@, types_v(ts@)).take(i as int));
        }
        assert(types_v(out@) =~= emitted_types(self@, types_v(ts@)));
        out
    }

    fn emit_segments(&self, segs: &Vec<PathSegment>) -> (r: Vec<PathSegment>)
        ensures
            path_segments_v(r@) == emitted_segments(self@, path_segments_v(segs@)),
        decreases segs,
    {
        let mut out: Vec<PathSegment> = Vec::new();
        let mut i: usize = 0;
        while i < segs.len()
            invariant
                i <= segs.len(),
                path_segments_v(out@) == emitted_segments(self@, path_segments_v(segs@)).take(
                    i as int,
                ),
            decreases segs.len() - i,
        {
            let ghost sv = path_segment_v(segs[i as int]);
            let seg = PathSegment {
                name: segs[i].name.clone(),
                args: self.emit_types(&segs[i].args),
            };
            let ghost rv = path_segment_v(seg);
            out.push(seg);
            i = i + 1;
            assert(path_segments_v(out@) =~= emitted_segments(self@, path_segments_v(segs@)).take(
                i as int,
            ));
        }
        assert(path_segments_v(out@) =~= emitted_segments(self@, path_segments_v(segs@)));
        out
    }

    /// A type with its aliases expanded and its structs and enums instantiated.
    fn infer_type_concrete(&mut self, fuel: u64, ty: &Type) -> (r: Result<Type, CompileError>)
        requires
            emits_instances(old(self)@),
        ensures
            emits_instances(final(self)@),
            grows(old(self)@, final(self)@),
            r is Ok ==> settles(old(self)@, final(self)@),
            (res_v(r), final(self)@) == infer_concrete(fuel as nat, old(self)@, ty@),
        decreases fuel, 4int, ty, 1int,
    {
        proof {
            un_infer_concrete(fuel as nat, self@, ty@);
        }
        let ghost g = type_v(*ty);
        match ty {
            Type::Path(p) => {
                let ghost pv = path_v(*p);
                let key = p.key();
                if let Some(a) = self.aliases.get(&key) {
                    let ghost av = type_alias_v(*a);
                    let m = subst_map(&a.generics, &p.last_args());
                    let t = substitute_type(&a.ty, &m);
                    if fuel == 0 {
                        return Err(nesting_error());
                    }
                    return self.infer_type_concrete(fuel - 1, &t);
                }
                let args = self.infer_last_args(fuel, p)?;
                if let Some(s) = self.structs.get(&key) {
                    let s2 = s.dup();
                    return self.infer_struct(fuel, &key, &s2, args);
                }
                if let Some(e) = self.enums.get(&key) {
                    let e2 = e.dup();
                    return self.infer_enum(fuel, &key, &e2, args);
                }
                let segments = self.infer_segments(fuel, &p.segments)?;
                let path = Path { segments };
                let ghost rv = path_v(path);
                Ok(Type::Path(path))
            },
            Type::GcRef(inner) => {
                let x = self.infer_type_concrete(fuel, inner)?;
                Ok(Type::GcRef(Box::new(x)))
            },
            Type::Function(ft) => {
                let ghost fv = function_type_v(*ft);
                let params = self.infer_types(fuel, &ft.params)?;
                let ret = self.infer_type_concrete(fuel, &ft.ret)?;
                let ft2 = FunctionType { params, ret: Box::new(ret) };
                let ghost rv = function_type_v(ft2);
                Ok(Type::Function(ft2))
            },
            Type::Tuple(ts) => {
                let xs = self.infer_types(fuel, ts)?;
                Ok(Type::Tuple(xs))
            },
            Type::Unit => Ok(Type::Unit),
            Type::Never => Ok(Type::Never),
        }
    }

    fn infer_last_args(&mut self, fuel: u64, p: &Path) -> (r: Result<Vec<Type>, CompileError>)
        requires
            emits_instances(old(self)@),
        ensures
            emits_instances(final(self)@),
            grows(old(self)@, final(self)@),
            r is Ok ==> settles(old(self)@, final(self)@),
            (types_res(r), final(self)@) == infer_last_args(fuel as nat, old(self)@, p@),
        decreases fuel, 4int, p, 0int,
    {
        proof {
            un_infer_last_args(fuel as nat, self@, p@);
        }
        let ghost pv = path_v(*p);
        let n: usize = p.segments.len();
        if n > 0 {
            let ghost sv = path_segment_v(p.segments[n - 1]);
            self.infer_types(fuel, &p.segments[n - 1].args)
        } else {
            Ok(Vec::new())
        }
    }

    fn infer_types(&mut self, fuel: u64, ts: &Vec<Type>) -> (r: Result<Vec<Type>, CompileError>)
        requires
            emits_instances(old(self)@),
        ensures
            emits_instances(final(self)@),
            grows(old(self)@, final(self)@),
            r is Ok ==> settles(old(self)@, final(self)@),
            (types_res(r), final(self)@) == infer_types(
                fuel as nat,
                old(self)@,
                types_v(ts@),
                0,
                Seq::empty(),
            ),
        decreases fuel, 4int, ts, 0int,
    {
        let mut out: Vec<Type> = Vec::new();
        let mut i: usize = 0;
        while i < ts.len()
            invariant
                i <= ts.len(),
                emits_instances(self@),
                grows(old(self)@, self@),
                settles(old(self)@, self@),
                infer_types(fuel as nat, old(self)@, types_v(ts@), 0, Seq::empty()) == infer_types(
                    fuel as nat,
                    self@,
                    types_v(ts@),
                    i as int,
                    types_v(out@),
                ),
            decreases ts.len() - i,
        {
            proof {
                un_infer_types(fuel as nat, self@, types_v(ts@), i as int, types_v(out@));
            }
            let t = self.infer_type_concrete(fuel, &ts[i])?;
            out.push(t);
            i = i + 1;
        }
        proof {
            un_infer_types(fuel as nat, self@, types_v(ts@), i as int, types_v(out@));
        }
        Ok(out)
    }

    fn infer_segments(&mut self, fuel: u64, segs: &Vec<PathSegment>) -> (r: Result<
        Vec<PathSegment>,
        CompileError,
    >)
        requires
            emits_instances(old(self)@),
        ensures
            emits_instances(final(self)@),
            grows(old(self)@, final(self)@),
            r is Ok ==> settles(old(self)@, final(self)@),
            (segments_res(r), final(self)@) == infer_segments(
                fuel as nat,
                old(self)@,
                path_segments_v(segs@),
                0,
                Seq::empty(),
            ),
        decreases fuel, 4int, segs, 0int,
    {
        let mut out: Vec<PathSegment> = Vec::new();
        let mut i: usize = 0;
        while i < segs.len()
            invariant
                i <= segs.len(),
                emits_instances(self@),
                grows(old(self)@, self@),
                settles(old(self)@, self@),
                infer_segments(fuel as nat, old(self)@, path_segments_v(segs@), 0, Seq::empty())
                    == infer_segments(
                    fuel as nat,
                    self@,
                    path_segments_v(segs@),
                    i as int,
                    path_segments_v(out@),
                ),
            decreases segs.len() - i,
        {
            proof {
                un_infer_segments(
                    fuel as nat,
                    self@,
                    path_segments_v(segs@),
                    i as int,
                    path_segments_v(out@),
                );
            }
            let ghost sv = path_segment_v(segs[i as int]);
            let args = self.infer_types(fuel, &segs[i].args)?;
            let seg = PathSegment { name: segs[i].name.clone(), args };
            let ghost rv = path_segment_v(seg);
            out.push(seg);
            i = i + 1;
        }
        proof {
            un_infer_segments(
                fuel as nat,
                self@,
                path_segments_v(segs@),
                i as int,
                path_segments_v(out@),
            );
        }
        Ok(out)
    }

    /// The type of a member of an instance, as it is emitted.
    fn infer_emitted(&mut self, fuel: u64, ty: &Type) -> (r: Result<Type, CompileError>)
        requires
            emits_instances(old(self)@),
        ensures
            emits_instances(final(self)@),
            grows(old(self)@, final(self)@),
            r is Ok ==> settles(old(self)@, final(self)@),
            (res_v(r), final(self)@) == infer_emitted(fuel as nat, old(self)@, ty@),
        decreases fuel, 0int, Type::Unit, 0int,
    {
        proof {
            un_infer_emitted(fuel as nat, self@, ty@);
        }
        if fuel == 0 {
            return Err(nesting_error());
        }
        let t = self.infer_type_concrete(fuel - 1, ty)?;
        Ok(self.emit_type(&t))
    }

    fn infer_struct(&mut self, fuel: u64, key: &str, s: &Struct, args: Vec<Type>) -> (r: Result<
        Type,
        CompileError,
    >)
        requires
            emits_instances(old(self)@),
        ensures
            emits_instances(final(self)@),
            grows(old(self)@, final(self)@),
            r is Ok ==> settles(old(self)@, final(self)@),
            (res_v(r), final(self)@) == infer_struct(
                fuel as nat,
                old(self)@,
                key@,
                s@,
                types_v(args@),
            ),
        decreases fuel, 3int, Type::Unit, 0int,
    {
        proof {
            un_infer_struct(fuel as nat, self@, key@, s@, types_v(args@));
        }
        let ghost sv = struct_v(*s);
        if s.generics.len() != args.len() {
            return Err(arguments_error(key, s.generics.len(), args.len()));
        }
        let n = self.instantiate_struct(fuel, &s.name, &args)?;
        Ok(Type::applied(&s.name, args))
    }

    fn infer_enum(&mut self, fuel: u64, key: &str, e: &Enum, args: Vec<Type>) -> (r: Result<
        Type,
        CompileError,
    >)
        requires
            emits_instances(old(self)@),
        ensures
            emits_instances(final(self)@),
            grows(old(self)@, final(self)@),
            r is Ok ==> settles(old(self)@, final(self)@),
            (res_v(r), final(self)@) == infer_enum(
                fuel as nat,
                old(self)@,
                key@,
                e@,
                types_v(args@),
            ),
        decreases fuel, 3int, Type::Unit, 0int,
    {
        proof {
            un_infer_enum(fuel as nat, self@, key@, e@, types_v(args@));
        }
        let ghost ev = enum_v(*e);
        if e.generics.len() != args.len() {
            return Err(arguments_error(key, e.generics.len(), args.len()));
        }
        let n = self.instantiate_enum(fuel, &e.name, &args)?;
        Ok(Type::applied(&e.name, args))
    }

    /// The name of an instance of a struct, which is emitted unless it was before.
    fn instantiate_struct(&mut self, fuel: u64, name: &str, args: &Vec<Type>) -> (r: Result<
        String,
        CompileError,
    >)
        requires
            emits_instances(old(self)@),
        ensures
            emits_instances(final(self)@),
            grows(old(self)@, final(self)@),
            r is Ok ==> settles(old(self)@, final(self)@),
            r is Ok ==> final(self)@.struct_keys.contains((name@, types_v(args@))),
            (res_v(r), final(self)@) == make_struct(
                fuel as nat,
                old(self)@,
                name@,
                types_v(args@),
            ),
        decreases fuel, 2int, Type::Unit, 0int,
    {
        proof {
            un_make_struct(fuel as nat, self@, name@, types_v(args@));
        }
        if contains_instance(&self.struct_keys, name, args) {
            return Ok(mangle(name, args));
        }
        let s = match self.structs.get(name) {
            Some(s) => s.dup(),
            None => {
                return Err(CompileError::Generic(cat3("unknown struct '", name, "'")));
            },
        };
        let ghost sv = struct_v(s);
        self.struct_keys.push(Instance { name: name.to_owned(), args: dup_types(args) });
        proof {
            lemma_push_struct_key(old(self)@, (name@, types_v(args@)));
        }
        let ghost st1 = self@;
        let m = subst_map(&s.generics, args);
        let fields = self.instantiate_fields(fuel, &s.fields, &m)?;
        let mangled = mangle(name, args);
        let out = Struct {
            name: mangle(name, args),
            generics: Vec::new(),
            fields,
            is_pub: s.is_pub,
            span: s.span,
        };
        let ghost ov = struct_v(out);
        proof {
            assert(st1.struct_keys.last() == (name@, types_v(args@)));
            lemma_stays_named(st1, self@, name@, types_v(args@));
            lemma_put_struct(self@, out@);
            lemma_struct_made(old(self)@, (name@, types_v(args@)), self@, out@);
        }
        place_struct(&mut self.out_structs, out);
        Ok(mangled)
    }

    fn instantiate_fields(&mut self, fuel: u64, fs: &Vec<StructField>, m: &StrMap<Type>) -> (r:
        Result<Vec<StructField>, CompileError>)
        requires
            emits_instances(old(self)@),
        ensures
            emits_instances(final(self)@),
            grows(old(self)@, final(self)@),
            r is Ok ==> settles(old(self)@, final(self)@),
            (fields_res(r), final(self)@) == make_fields(
                fuel as nat,
                old(self)@,
                struct_fields_v(fs@),
                m@,
                0,
                Seq::empty(),
            ),
        decreases fuel, 1int, Type::Unit, 0int,
    {
        let mut out: Vec<StructField> = Vec::new();
        let mut i: usize = 0;
        while i < fs.len()
            invariant
                i <= fs.len(),
                emits_instances(self@),
                grows(old(self)@, self@),
                settles(old(self)@, self@),
                make_fields(fuel as nat, old(self)@, struct_fields_v(fs@), m@, 0, Seq::empty())
                    == make_fields(
                    fuel as nat,
                    self@,
                    struct_fields_v(fs@),
                    m@,
                    i as int,
                    struct_fields_v(out@),
                ),
            decreases fs.len() - i,
        {
            proof {
                un_make_fields(
                    fuel as nat,
                    self@,
                    struct_fields_v(fs@),
                    m@,
                    i as int,
                    struct_fields_v(out@),
                );
            }
            let ghost fv = struct_field_v(fs[i as int]);
            let t = substitute_type(&fs[i].ty, m);
            let ty = self.infer_emitted(fuel, &t)?;
            let f = StructField { name: fs[i].name.clone(), ty, span: fs[i].span };
            let ghost rv = struct_field_v(f);
            out.push(f);
            i = i + 1;
        }
        proof {
            un_make_fields(
                fuel as nat,
                self@,
                struct_fields_v(fs@),
                m@,
                i as int,
                struct_fields_v(out@),
            );
        }
        Ok(out)
    }

    /// The name of an instance of an enum, which is emitted unless it was before.
    fn instantiate_enum(&mut self, fuel: u64, name: &str, args: &Vec<Type>) -> (r: Result<
        String,
        CompileError,
    >)
        requires
            emits_instances(old(self)@),
        ensures
            emits_instances(final(self)@),
            grows(old(self)@, final(self)@),
            r is Ok ==> settles(old(self)@, final(self)@),
            r is Ok ==> final(self)@.enum_keys.contains((name@, types_v(args@))),
            (res_v(r), final(self)@) == make_enum(fuel as nat, old(self)@, name@, types_v(args@)),
        decreases fuel, 2int, Type::Unit, 0int,
    {
        proof {
            un_make_enum(fuel as nat, self@, name@, types_v(args@));
        }
        if contains_instance(&self.enum_keys, name, args) {
            return Ok(mangle(name, args));
        }
        let e = match self.enums.get(name) {
            Some(e) => e.dup(),
            None => {
                return Err(CompileError::Generic(cat3("unknown enum '", name, "'")));
            },
        };
        let ghost ev = enum_v(e);
        self.enum_keys.push(Instance { name: name.to_owned(), args: dup_types(args) });
        proof {
            lemma_push_enum_key(old(self)@, (name@, types_v(args@)));
        }
        let ghost st1 = self@;
        let m = subst_map(&e.generics, args);
        let cases = self.instantiate_cases(fuel, &e.cases, &m)?;
        let mangled = mangle(name, args);
        let out = Enum {
            name: mangle(name, args),
            generics: Vec::new(),
            cases,
            is_pub: e.is_pub,
            span: e.span,
        };
        let ghost ov = enum_v(out);
        proof {
            assert(st1.enum_keys.last() == (name@, types_v(args@)));
            lemma_stays_named(st1, self@, name@, types_v(args@));
            lemma_put_enum(self@, out@);
            lemma_enum_made(old(self)@, (name@, types_v(args@)), self@, out@);
        }
        place_enum(&mut self.out_enums, out);
        Ok(mangled)
    }

    fn instantiate_cases(&mut self, fuel: u64, cs: &Vec<EnumCase>, m: &StrMap<Type>) -> (r: Result<
        Vec<EnumCase>,
        CompileError,
    >)
        requires
            emits_instances(old(self)@),
        ensures
            emits_instances(final(self)@),
            grows(old(self)@, final(self)@),
            r is Ok ==> settles(old(self)@, final(self)@),
            (cases_res(r), final(self)@) == make_cases(
                fuel as nat,
                old(self)@,
                enum_cases_v(cs@),
                m@,
                0,
                Seq::empty(),
            ),
        decreases fuel, 1int, Type::Unit, 0int,
    {
        let mut out: Vec<EnumCase> = Vec::new();
        let mut i: usize = 0;
        while i < cs.len()
            invariant
                i <= cs.len(),
                emits_instances(self@),
                grows(old(self)@, self@),
                settles(old(self)@, self@),
                make_cases(fuel as nat, old(self)@, enum_cases_v(cs@), m@, 0, Seq::empty())
                    == make_cases(
                    fuel as nat,
                    self@,
                    enum_cases_v(cs@),
                    m@,
                    i as int,
                    enum_cases_v(out@),
                ),
            decreases cs.len() - i,
        {
            proof {
                un_make_cases(
                    fuel as nat,
                    self@,
                    enum_cases_v(cs@),
                    m@,
                    i as int,
                    enum_cases_v(out@),
                );
            }
            let ghost cv = enum_case_v(cs[i as int]);
            match &cs[i].payload {
                None => {
                    out.push(cs[i].dup());
                },
                Some(pt) => {
                    let t = substitute_type(pt, m);
                    let ty = self.infer_emitted(fuel, &t)?;
                    let c = EnumCase {
                        name: cs[i].name.clone(),
                        payload: Some(ty),
                        span: cs[i].span,
                    };
                    let ghost rv = enum_case_v(c);
                    out.push(c);
                },
            }
            i = i + 1;
        }
        proof {
            un_make_cases(
                fuel as nat,
                self@,
                enum_cases_v(cs@),
                m@,
                i as int,
                enum_cases_v(out@),
            );
        }
        Ok(out)
    }
}

/// How deep type definitions may refer to one another.
const DEPTH_LIMIT: u64 = u64::MAX;

impl Mono {
    /// A type under a substitution, made concrete.
    fn infer_type(&mut self, ty: &Type, subst: &StrMap<Type>) -> (r: Result<Type, CompileError>)
        requires
            emits_instances(old(self)@),
        ensures
            emits_instances(final(self)@),
            grows(old(self)@, final(self)@),
            r is Ok ==> settles(old(self)@, final(self)@),
            (res_v(r), final(self)@) == infer_in(old(self)@, ty@, subst@),
    {
        let t = substitute_type(ty, subst);
        self.infer_type_concrete(DEPTH_LIMIT, &t)
    }

    fn infer_annotation(&mut self, ty: &Option<Type>, subst: &StrMap<Type>) -> (r: Result<
        Option<Type>,
        CompileError,
    >)
        requires
            emits_instances(old(self)@),
        ensures
            emits_instances(final(self)@),
            grows(old(self)@, final(self)@),
            r is Ok ==> settles(old(self)@, final(self)@),
            (opt_type_res(r), final(self)@) == infer_opt(old(self)@, opt_type_v(*ty), subst@),
    {
        match ty {
            None => Ok(None),
            Some(t) => {
                let x = self.infer_type(t, subst)?;
                Ok(Some(x))
            },
        }
    }

    fn emit_annotation(&self, ty: &Option<Type>) -> (r: Option<Type>)
        ensures
            opt_type_v(r) == emitted_opt(self@, opt_type_v(*ty)),
    {
        match ty {
            None => None,
            Some(t) => Some(self.emit_type(t)),
        }
    }

    /// The name of an instance of a function, which is queued unless it was before.
    fn instantiate_function(&mut self, name: &str, args: &Vec<Type>) -> (r: Result<
        String,
        CompileError,
    >)
        requires
            emits_instances(old(self)@),
        ensures
            emits_instances(final(self)@),
            grows(old(self)@, final(self)@),
            r is Ok ==> settles(old(self)@, final(self)@),
            r is Ok ==> final(self)@.fn_keys.contains((name@, types_v(args@))),
            (res_v(r), final(self)@) == make_function(old(self)@, name@, types_v(args@)),
    {
        if contains_instance(&self.fn_keys, name, args) {
            return Ok(mangle(name, args));
        }
        let mut more: Vec<Pending> = Vec::new();
        std::mem::swap(&mut more, &mut self.queue);
        let ghost q0 = list_v(more@);
        match self.functions.get(name) {
            None => {
                self.queue = more;
                return Err(CompileError::Generic(cat3("unknown function '", name, "'")));
            },
            Some(list) => {
                let ghost fv = functions_v(list.functions@);
                if args.len() == 0 {
                    queue_overloads(&list.functions, name, &mut more);
                } else if let Some(k) = overload_with_generics(&list.functions, args.len()) {
                    more.push(Pending { name: name.to_owned(), args: dup_types(args), index: k });
                }
            },
        }
        self.queue = more;
        self.fn_keys.push(Instance { name: name.to_owned(), args: dup_types(args) });
        proof {
            lemma_asked(old(self)@, name@, types_v(args@));
            assert(self@.fn_keys.last() == (name@, types_v(args@)));
        }
        Ok(mangle(name, args))
    }
}

spec fn opt_type_res(r: Result<Option<Type>, CompileError>) -> Result<
    Option<TypeV>,
    CompileErrorV,
> {
    match r {
        Ok(t) => Ok(opt_type_v(t)),
        Err(e) => Err(e@),
    }
}

fn queue_overloads(fs: &Vec<Function>, name: &str, q: &mut Vec<Pending>)
    ensures
        list_v(final(q)@) == queue_plain(functions_v(fs@), name@, 0, list_v(old(q)@)),
{
    let mut i: usize = 0;
    while i < fs.len()
        invariant
            i <= fs.len(),
            queue_plain(functions_v(fs@), name@, 0, list_v(old(q)@)) == queue_plain(
                functions_v(fs@),
                name@,
                i as int,
                list_v(q@),
            ),
        decreases fs.len() - i,
    {
        let ghost fv = function_v(fs[i as int]);
        if fs[i].generics.len() == 0 {
            let p = Pending { name: name.to_owned(), args: Vec::new(), index: i };
            assert(p@.1 =~= Seq::empty());
            q.push(p);
        }
        i = i + 1;
    }
}

fn overload_with_generics(fs: &Vec<Function>, n: usize) -> (r: Option<usize>)
    ensures
        match r {
            Some(k) => generic_overload(functions_v(fs@), n as nat, 0) == Some(k as int),
            None => generic_overload(functions_v(fs@), n as nat, 0) is None,
        },
{
    let mut i: usize = 0;
    while i < fs.len()
        invariant
            i <= fs.len(),
            generic_overload(functions_v(fs@), n as nat, 0) == generic_overload(
                functions_v(fs@),
                n as nat,
                i as int,
            ),
        decreases fs.len() - i,
    {
        let ghost fv = function_v(fs[i as int]);
        if fs[i].generics.len() == n {
            return Some(i);
        }
        i = i + 1;
    }
    None
}

// -------------------------------------------------------------------- unification

/// The variable that a type is, if it is one.
fn var_name(ty: &Type, vars: &Vec<String>) -> (r: Option<String>)
    ensures
        opt_str_v(r) == var_of(ty@, strs_v(vars@)),
{
    let ghost g = type_v(*ty);
    if let Type::Path(p) = ty {
        let ghost pv = path_v(*p);
        if p.segments.len() == 1 {
            let ghost sv = path_segment_v(p.segments[0]);
            if p.segments[0].args.len() == 0 && contains_str(vars, &p.segments[0].name) {
                return Some(p.segments[0].name.clone());
            }
        }
    }
    None
}

/// What a type stands for.
fn resolve(ty: &Type, vars: &Vec<String>, subst: &StrMap<Type>) -> (r: Type)
    ensures
        r@ == resolved(ty@, strs_v(vars@), subst@),
{
    let mut t = ty.dup();
    let mut n: usize = vars.len();
    loop
        invariant
            resolved(ty@, strs_v(vars@), subst@) == follow(n as nat, t@, strs_v(vars@), subst@),
        decreases n,
    {
        match var_name(&t, vars) {
            None => {
                return t;
            },
            Some(v) => {
                match subst.get(&v) {
                    None => {
                        return t;
                    },
                    Some(next) => {
                        if n == 0 {
                            return t;
                        }
                        t = next.dup();
                        n = n - 1;
                    },
                }
            },
        }
    }
}

/// Whether a name stands in a type.
fn occurs_in_type(name: &str, ty: &Type) -> (r: bool)
    ensures
        r == occurs(name@, ty@),
    decreases ty,
{
    let ghost g = type_v(*ty);
    match ty {
        Type::Path(p) => {
            let ghost pv = path_v(*p);
            occurs_in_path(name, &p.segments)
        },
        Type::GcRef(inner) => occurs_in_type(name, inner),
        Type::Function(ft) => {
            let ghost fv = function_type_v(*ft);
            occurs_in_types(name, &ft.params) || occurs_in_type(name, &ft.ret)
        },
        Type::Tuple(ts) => occurs_in_types(name, ts),
        Type::Unit => false,
        Type::Never => false,
    }
}

fn occurs_in_types(name: &str, ts: &Vec<Type>) -> (r: bool)
    ensures
        r == occurs_in(name@, types_v(ts@), 0),
    decreases ts,
{
    let mut i: usize = 0;
    while i < ts.len()
        invariant
            i <= ts.len(),
            occurs_in(name@, types_v(ts@), 0) == occurs_in(name@, types_v(ts@), i as int),
        decreases ts.len() - i,
    {
        if occurs_in_type(name, &ts[i]) {
            return true;
        }
        i = i + 1;
    }
    false
}

fn occurs_in_path(name: &str, segs: &Vec<PathSegment>) -> (r: bool)
    ensures
        r == occurs_in_segments(name@, path_segments_v(segs@), 0),
    decreases segs,
{
    let mut i: usize = 0;
    while i < segs.len()
        invariant
            i <= segs.len(),
            occurs_in_segments(name@, path_segments_v(segs@), 0) == occurs_in_segments(
                name@,
                path_segments_v(segs@),
                i as int,
            ),
        decreases segs.len() - i,
    {
        let ghost sv = path_segment_v(segs[i as int]);
        if str_eq(&segs[i].name, name) && segs[i].args.len() == 0 {
            return true;
        }
        if occurs_in_types(name, &segs[i].args) {
            return true;
        }
        i = i + 1;
    }
    false
}

spec fn unified(r: Result<(), String>, s: Subst) -> Unified {
    match r {
        Ok(_) => (Ok(()), s),
        Err(m) => (Err(m@), s),
    }
}

fn differ_text(a: &Type, b: &Type) -> (r: String)
    ensures
        r@ == differ_message(a@, b@),
{
    let x = a.display();
    let y = b.display();
    cat3(&x, " vs ", &y)
}

/// Two types made equal by binding variables.
fn unify_in(fuel: u64, a: &Type, b: &Type, vars: &Vec<String>, subst: &mut StrMap<Type>) -> (r:
    Result<(), String>)
    ensures
        unified(r, final(subst)@) == unify(
            fuel as nat,
            a@,
            b@,
            strs_v(vars@),
            old(subst)@,
        ),
    decreases fuel, 4int, 0int,
{
    proof {
        un_unify(fuel as nat, a@, b@, strs_v(vars@), subst@);
    }
    let a1 = resolve(a, vars, subst);
    let b1 = resolve(b, vars, subst);
    let x = var_name(&a1, vars);
    let y = var_name(&b1, vars);
    match (x, y) {
        (Some(x), Some(y)) => {
            if str_eq(&x, &y) {
                return Ok(());
            }
            bind(x, b1, subst)
        },
        (Some(x), None) => bind(x, b1, subst),
        (None, Some(y)) => bind(y, a1, subst),
        (None, None) => unify_shapes_in(fuel, &a1, &b1, vars, subst),
    }
}

fn bind(name: String, t: Type, subst: &mut StrMap<Type>) -> (r: Result<(), String>)
    ensures
        unified(r, final(subst)@) == (if occurs(name@, t@) {
            (Err(occurs_message(name@, t@)), old(subst)@)
        } else {
            (Ok(()), old(subst)@.insert(name@, t@))
        }),
{
    if occurs_in_type(&name, &t) {
        let x = t.display();
        return Err(cat4("occurs check: ", &name, " in ", &x));
    }
    subst.insert(&name, t);
    Ok(())
}

fn unify_shapes_in(
    fuel: u64,
    a: &Type,
    b: &Type,
    vars: &Vec<String>,
    subst: &mut StrMap<Type>,
) -> (r: Result<(), String>)
    ensures
        unified(r, final(subst)@) == unify_shapes(
            fuel as nat,
            a@,
            b@,
            strs_v(vars@),
            old(subst)@,
        ),
    decreases fuel, 3int, 0int,
{
    proof {
        un_unify_shapes(fuel as nat, a@, b@, strs_v(vars@), subst@);
    }
    let ghost ga = type_v(*a);
    let ghost gb = type_v(*b);
    match (a, b) {
        (Type::Path(p), Type::Path(q)) => {
            let ghost pv = path_v(*p);
            let ghost qv = path_v(*q);
            if p.segments.len() != q.segments.len() {
                return Err(differ_text(a, b));
            }
            unify_segments_in(fuel, a, b, &p.segments, &q.segments, vars, subst)
        },
        (Type::GcRef(x), Type::GcRef(y)) => unify_part_in(fuel, x, y, vars, subst),
        (Type::Function(f), Type::Function(g)) => {
            let ghost fv = function_type_v(*f);
            let ghost gv = function_type_v(*g);
            if f.params.len() != g.params.len() {
                return Err(differ_text(a, b));
            }
            unify_types_in(fuel, &f.params, &g.params, vars, subst)?;
            unify_part_in(fuel, &f.ret, &g.ret, vars, subst)
        },
        (Type::Tuple(xs), Type::Tuple(ys)) => {
            let ghost xv = types_v(xs@);
            let ghost yv = types_v(ys@);
            assert(xv.len() == xs.len() && yv.len() == ys.len());
            if xs.len() != ys.len() {
                return Err(differ_text(a, b));
            }
            unify_types_in(fuel, xs, ys, vars, subst)
        },
        (Type::Unit, Type::Unit) => Ok(()),
        (Type::Never, _) => Ok(()),
        (_, Type::Never) => Ok(()),
        _ => {
            let x = a.display();
            let y = b.display();
            Err(cat4("cannot unify ", &x, " and ", &y))
        },
    }
}

fn unify_part_in(fuel: u64, a: &Type, b: &Type, vars: &Vec<String>, subst: &mut StrMap<Type>) -> (r:
    Result<(), String>)
    ensures
        unified(r, final(subst)@) == unify_part(
            fuel as nat,
            a@,
            b@,
            strs_v(vars@),
            old(subst)@,
        ),
    decreases fuel, 0int, 0int,
{
    proof {
        un_unify_part(fuel as nat, a@, b@, strs_v(vars@), subst@);
    }
    if fuel == 0 {
        return Err("types nest too deeply".to_owned());
    }
    unify_in(fuel - 1, a, b, vars, subst)
}

fn unify_types_in(
    fuel: u64,
    xs: &Vec<Type>,
    ys: &Vec<Type>,
    vars: &Vec<String>,
    subst: &mut StrMap<Type>,
) -> (r: Result<(), String>)
    ensures
        unified(r, final(subst)@) == unify_types(
            fuel as nat,
            types_v(xs@),
            types_v(ys@),
            0,
            strs_v(vars@),
            old(subst)@,
        ),
    decreases fuel, 1int, 0int,
{
    let mut i: usize = 0;
    while i < xs.len() && i < ys.len()
        invariant
            i <= xs.len(),
            i <= ys.len(),
            unify_types(
                fuel as nat,
                types_v(xs@),
                types_v(ys@),
                0,
                strs_v(vars@),
                old(subst)@,
            ) == unify_types(
                fuel as nat,
                types_v(xs@),
                types_v(ys@),
                i as int,
                strs_v(vars@),
                subst@,
            ),
        decreases xs.len() - i,
    {
        proof {
            un_unify_types(
                fuel as nat,
                types_v(xs@),
                types_v(ys@),
                i as int,
                strs_v(vars@),
                subst@,
            );
        }
        unify_part_in(fuel, &xs[i], &ys[i], vars, subst)?;
        i = i + 1;
    }
    proof {
        un_unify_types(
            fuel as nat,
            types_v(xs@),
            types_v(ys@),
            i as int,
            strs_v(vars@),
            subst@,
        );
    }
    Ok(())
}

fn unify_segments_in(
    fuel: u64,
    a: &Type,
    b: &Type,
    xs: &Vec<PathSegment>,
    ys: &Vec<PathSegment>,
    vars: &Vec<String>,
    subst: &mut StrMap<Type>,
) -> (r: Result<(), String>)
    ensures
        unified(r, final(subst)@) == unify_segments(
            fuel as nat,
            a@,
            b@,
            path_segments_v(xs@),
            path_segments_v(ys@),
            0,
            strs_v(vars@),
            old(subst)@,
        ),
    decreases fuel, 2int, 0int,
{
    let mut i: usize = 0;
    while i < xs.len() && i < ys.len()
        invariant
            i <= xs.len(),
            i <= ys.len(),
            unify_segments(
                fuel as nat,
                a@,
                b@,
                path_segments_v(xs@),
                path_segments_v(ys@),
                0,
                strs_v(vars@),
                old(subst)@,
            ) == unify_segments(
                fuel as nat,
                a@,
                b@,
                path_segments_v(xs@),
                path_segments_v(ys@),
                i as int,
                strs_v(vars@),
                subst@,
            ),
        decreases xs.len() - i,
    {
        proof {
            un_unify_segments(
                fuel as nat,
                a@,
                b@,
                path_segments_v(xs@),
                path_segments_v(ys@),
                i as int,
                strs_v(vars@),
                subst@,
            );
        }
        let ghost xv = path_segment_v(xs[i as int]);
        let ghost yv = path_segment_v(ys[i as int]);
        if !str_eq(&xs[i].name, &ys[i].name) || xs[i].args.len() != ys[i].args.len() {
            return Err(differ_text(a, b));
        }
        unify_types_in(fuel, &xs[i].args, &ys[i].args, vars, subst)?;
        i = i + 1;
    }
    proof {
        un_unify_segments(
            fuel as nat,
            a@,
            b@,
            path_segments_v(xs@),
            path_segments_v(ys@),
            i as int,
            strs_v(vars@),
            subst@,
        );
    }
    Ok(())
}

/// The types of parameters made equal to the types of the arguments.
fn unify_params(
    params: &Vec<Param>,
    args: &Vec<Type>,
    vars: &Vec<String>,
    subst: &mut StrMap<Type>,
) -> (r: Result<(), String>)
    ensures
        unified(r, final(subst)@) == unify_args(
            params_v(params@),
            types_v(args@),
            0,
            strs_v(vars@),
            old(subst)@,
        ),
{
    let mut i: usize = 0;
    while i < params.len() && i < args.len()
        invariant
            i <= params.len(),
            i <= args.len(),
            unify_args(params_v(params@), types_v(args@), 0, strs_v(vars@), old(subst)@)
                == unify_args(
                params_v(params@),
                types_v(args@),
                i as int,
                strs_v(vars@),
                subst@,
            ),
        decreases params.len() - i,
    {
        let ghost pv = param_v(params[i as int]);
        unify_in(DEPTH_LIMIT, &params[i].ty, &args[i], vars, subst)?;
        i = i + 1;
    }
    Ok(())
}

/// What the expected type says of the parameters of the type `name`.
fn bindings_expected(name: &str, generics: &Vec<GenericParam>, expected: &Option<Type>) -> (r:
    StrMap<Type>)
    ensures
        r@ == expected_bindings(name@, generic_params_v(generics@), opt_type_v(*expected)),
{
    let mut subst: StrMap<Type> = StrMap::new();
    match expected {
        Some(Type::Path(p)) => {
            let ghost tv = type_v(Type::Path(*p));
            let ghost pv = path_v(*p);
            let n: usize = p.segments.len();
            if n > 0 {
                let ghost sv = path_segment_v(p.segments[n - 1]);
                if str_eq(&p.segments[n - 1].name, name) && p.segments[n - 1].args.len()
                    == generics.len() {
                    let vars = names_of_generics(generics);
                    let args = p.last_args();
                    let mut i: usize = 0;
                    while i < generics.len() && i < args.len()
                        invariant
                            i <= generics.len(),
                            i <= args.len(),
                            strs_v(vars@) == generic_names(generic_params_v(generics@)),
                            unify_expected(
                                generic_params_v(generics@),
                                types_v(args@),
                                0,
                                strs_v(vars@),
                                Map::empty(),
                            ) == unify_expected(
                                generic_params_v(generics@),
                                types_v(args@),
                                i as int,
                                strs_v(vars@),
                                subst@,
                            ),
                        decreases generics.len() - i,
                    {
                        let ghost gv = generic_param_v(generics[i as int]);
                        let var = Type::path(&generics[i].name);
                        let fits = unify_in(DEPTH_LIMIT, &var, &args[i], &vars, &mut subst);
                        i = i + 1;
                    }
                }
            }
        },
        _ => {},
    }
    subst
}

/// What the parameters of type stand for.
fn resolved_arguments(generics: &Vec<GenericParam>, vars: &Vec<String>, subst: &StrMap<Type>) -> (r:
    Vec<Type>)
    requires
        strs_v(vars@) == generic_names(generic_params_v(generics@)),
    ensures
        types_v(r@) == type_arguments(generic_params_v(generics@), subst@),
{
    let mut out: Vec<Type> = Vec::new();
    let mut i: usize = 0;
    while i < generics.len()
        invariant
            i <= generics.len(),
            strs_v(vars@) == generic_names(generic_params_v(generics@)),
            types_v(out@) == type_arguments(generic_params_v(generics@), subst@).take(i as int),
        decreases generics.len() - i,
    {
        let ghost gv = generic_param_v(generics[i as int]);
        let var = Type::path(&generics[i].name);
        out.push(resolve(&var, vars, subst));
        i = i + 1;
        assert(types_v(out@) =~= type_arguments(generic_params_v(generics@), subst@).take(
            i as int,
        ));
    }
    assert(types_v(out@) =~= type_arguments(generic_params_v(generics@), subst@));
    out
}

fn any_open(ts: &Vec<Type>, vars: &Vec<String>) -> (r: bool)
    ensures
        r == has_open(types_v(ts@), strs_v(vars@)),
{
    let mut i: usize = 0;
    while i < ts.len()
        invariant
            i <= ts.len(),
            forall|k: int|
                0 <= k < i ==> var_of(#[trigger] types_v(ts@)[k], strs_v(vars@)) is None,
        decreases ts.len() - i,
    {
        if var_name(&ts[i], vars).is_some() {
            assert(var_of(types_v(ts@)[i as int], strs_v(vars@)) is Some);
            return true;
        }
        i = i + 1;
    }
    false
}

// ------------------------------------------------------------------------ patterns

spec fn pat_res(r: Result<(Pattern, Vec<(String, Type)>), CompileError>) -> Result<
    (PatternV, Seq<(Seq<char>, TypeV)>),
    CompileErrorV,
> {
    match r {
        Ok(p) => Ok((p.0@, list_v(p.1@))),
        Err(e) => Err(e@),
    }
}

fn find_payload(cs: &Vec<EnumCase>, name: &str) -> (r: Option<Type>)
    ensures
        opt_type_v(r) == payload_of(enum_cases_v(cs@), name@, 0),
{
    let mut i: usize = 0;
    while i < cs.len()
        invariant
            i <= cs.len(),
            payload_of(enum_cases_v(cs@), name@, 0) == payload_of(
                enum_cases_v(cs@),
                name@,
                i as int,
            ),
        decreases cs.len() - i,
    {
        let ghost cv = enum_case_v(cs[i as int]);
        if str_eq(&cs[i].name, name) {
            return match &cs[i].payload {
                None => None,
                Some(t) => Some(t.dup()),
            };
        }
        i = i + 1;
    }
    None
}

/// The path of a type, or nothing.
fn key_of_type(t: &Type) -> (r: String)
    ensures
        r@ == type_key(t@),
{
    let ghost g = type_v(*t);
    match t {
        Type::Path(p) => p.key(),
        _ => String::new(),
    }
}

/// The arguments of a type.
fn args_of_type(t: &Type) -> (r: Vec<Type>)
    ensures
        types_v(r@) == type_args_of(t@),
{
    let ghost g = type_v(*t);
    match t {
        Type::Path(p) => p.last_args(),
        _ => Vec::new(),
    }
}

fn bind_names(env: &mut StrMap<Type>, bs: Vec<(String, Type)>)
    ensures
        final(env)@ == bind_all(old(env)@, list_v(bs@), 0),
{
    let mut i: usize = 0;
    while i < bs.len()
        invariant
            i <= bs.len(),
            bind_all(old(env)@, list_v(bs@), 0) == bind_all(env@, list_v(bs@), i as int),
        decreases bs.len() - i,
    {
        env.insert(&bs[i].0, bs[i].1.dup());
        i = i + 1;
    }
}

impl Mono {
    /// The concrete payload of a case of the type of a subject.
    fn payload_for(&mut self, subject: &Type, case: &str) -> (r: Result<Option<Type>, CompileError>)
        requires
            emits_instances(old(self)@),
        ensures
            emits_instances(final(self)@),
            grows(old(self)@, final(self)@),
            r is Ok ==> settles(old(self)@, final(self)@),
            (opt_type_res(r), final(self)@) == case_payload(old(self)@, subject@, case@),
    {
        let key = key_of_type(subject);
        match self.enums.get(&key) {
            None => Ok(None),
            Some(e) => {
                let ghost ev = enum_v(*e);
                let m = subst_map(&e.generics, &args_of_type(subject));
                let p = find_payload(&e.cases, case);
                self.infer_annotation(&p, &m)
            },
        }
    }

    /// The path of the emitted type of a subject.
    fn path_of_subject(&self, subject: &Type) -> (r: Vec<String>)
        ensures
            strs_v(r@) == subject_path(self@, subject@),
    {
        let t = self.emit_type(subject);
        let n = key_of_type(&t);
        let mut out: Vec<String> = Vec::new();
        if chars_of(&n).len() != 0 {
            out.push(n);
            assert(strs_v(out@) =~= seq![n@]);
        }
        out
    }

    /// A pattern for a subject of this type, and the types of the names it binds.
    fn lower_pattern(&mut self, pat: &Pattern, subject: &Type) -> (r: Result<
        (Pattern, Vec<(String, Type)>),
        CompileError,
    >)
        requires
            emits_instances(old(self)@),
        ensures
            emits_instances(final(self)@),
            grows(old(self)@, final(self)@),
            r is Ok ==> settles(old(self)@, final(self)@),
            (pat_res(r), final(self)@) == l_pat(old(self)@, pat@, subject@),
        decreases pat,
    {
        proof {
            un_l_pat(self@, pat@, subject@);
        }
        let ghost g = pattern_v(*pat);
        let ghost k = pattern_kind_v(pat.kind);
        match &pat.kind {
            PatternKind::Wildcard => Ok((pat.dup(), Vec::new())),
            PatternKind::Literal(_) => Ok((pat.dup(), Vec::new())),
            PatternKind::Variable { name, is_mut } => {
                let mut bs: Vec<(String, Type)> = Vec::new();
                bs.push((name.clone(), subject.dup()));
                assert(list_v(bs@) =~= seq![(name@, subject@)]);
                Ok((pat.dup(), bs))
            },
            PatternKind::EnumCtor { path, case, inner } => {
                let payload = self.payload_for(subject, case)?;
                match inner {
                    None => {
                        let kind = PatternKind::EnumCtor {
                            path: self.path_of_subject(subject),
                            case: case.clone(),
                            inner: None,
                        };
                        let ghost rk = pattern_kind_v(kind);
                        let p2 = Pattern { kind, span: pat.span };
                        let ghost rv = pattern_v(p2);
                        Ok((p2, Vec::new()))
                    },
                    Some(q) => {
                        let ghost qv = pattern_v(**q);
                        let t = match payload {
                            Some(t) => t,
                            None => Type::Unit,
                        };
                        let (q2, bs) = self.lower_pattern(q, &t)?;
                        let kind = PatternKind::EnumCtor {
                            path: self.path_of_subject(subject),
                            case: case.clone(),
                            inner: Some(Box::new(q2)),
                        };
                        let ghost rk = pattern_kind_v(kind);
                        let p2 = Pattern { kind, span: pat.span };
                        let ghost rv = pattern_v(p2);
                        Ok((p2, bs))
                    },
                }
            },
            PatternKind::Struct { path, fields } => {
                let fs = self.lower_field_patterns(fields)?;
                let kind = PatternKind::Struct { path: dup_strs(path), fields: fs };
                let ghost rk = pattern_kind_v(kind);
                let p2 = Pattern { kind, span: pat.span };
                let ghost rv = pattern_v(p2);
                Ok((p2, Vec::new()))
            },
            PatternKind::Or(ps) => {
                let qs = self.lower_patterns(ps, subject)?;
                let kind = PatternKind::Or(qs);
                let ghost rk = pattern_kind_v(kind);
                let p2 = Pattern { kind, span: pat.span };
                let ghost rv = pattern_v(p2);
                Ok((p2, Vec::new()))
            },
        }
    }

    fn lower_field_patterns(&mut self, fs: &Vec<(String, Pattern)>) -> (r: Result<
        Vec<(String, Pattern)>,
        CompileError,
    >)
        requires
            emits_instances(old(self)@),
        ensures
            emits_instances(final(self)@),
            grows(old(self)@, final(self)@),
            r is Ok ==> settles(old(self)@, final(self)@),
            match r {
                Ok(v) => l_field_pats(old(self)@, field_patterns_v(fs@), 0, Seq::empty()) == (
                    Ok::<Seq<(Seq<char>, PatternV)>, CompileErrorV>(field_patterns_v(v@)),
                    final(self)@,
                ),
                Err(e) => l_field_pats(old(self)@, field_patterns_v(fs@), 0, Seq::empty()) == (
                    Err::<Seq<(Seq<char>, PatternV)>, CompileErrorV>(e@),
                    final(self)@,
                ),
            },
        decreases fs,
    {
        let mut out: Vec<(String, Pattern)> = Vec::new();
        let mut i: usize = 0;
        while i < fs.len()
            invariant
                i <= fs.len(),
                emits_instances(self@),
                grows(old(self)@, self@),
                settles(old(self)@, self@),
                l_field_pats(old(self)@, field_patterns_v(fs@), 0, Seq::empty()) == l_field_pats(
                    self@,
                    field_patterns_v(fs@),
                    i as int,
                    field_patterns_v(out@),
                ),
            decreases fs.len() - i,
        {
            proof {
                un_l_field_pats(self@, field_patterns_v(fs@), i as int, field_patterns_v(out@));
            }
            let (q, bs) = self.lower_pattern(&fs[i].1, &Type::Unit)?;
            out.push((fs[i].0.clone(), q));
            i = i + 1;
        }
        proof {
            un_l_field_pats(self@, field_patterns_v(fs@), i as int, field_patterns_v(out@));
        }
        Ok(out)
    }

    fn lower_patterns(&mut self, ps: &Vec<Pattern>, subject: &Type) -> (r: Result<
        Vec<Pattern>,
        CompileError,
    >)
        requires
            emits_instances(old(self)@),
        ensures
            emits_instances(final(self)@),
            grows(old(self)@, final(self)@),
            r is Ok ==> settles(old(self)@, final(self)@),
            match r {
                Ok(v) => l_pats(old(self)@, patterns_v(ps@), 0, subject@, Seq::empty()) == (
                    Ok::<Seq<PatternV>, CompileErrorV>(patterns_v(v@)),
                    final(self)@,
                ),
                Err(e) => l_pats(old(self)@, patterns_v(ps@), 0, subject@, Seq::empty()) == (
                    Err::<Seq<PatternV>, CompileErrorV>(e@),
                    final(self)@,
                ),
            },
        decreases ps,
    {
        let mut out: Vec<Pattern> = Vec::new();
        let mut i: usize = 0;
        while i < ps.len()
            invariant
                i <= ps.len(),
                emits_instances(self@),
                grows(old(self)@, self@),
                settles(old(self)@, self@),
                l_pats(old(self)@, patterns_v(ps@), 0, subject@, Seq::empty()) == l_pats(
                    self@,
                    patterns_v(ps@),
                    i as int,
                    subject@,
                    patterns_v(out@),
                ),
            decreases ps.len() - i,
        {
            proof {
                un_l_pats(self@, patterns_v(ps@), i as int, subject@, patterns_v(out@));
            }
            let (q, bs) = self.lower_pattern(&ps[i], subject)?;
            out.push(q);
            i = i + 1;
        }
        proof {
            un_l_pats(self@, patterns_v(ps@), i as int, subject@, patterns_v(out@));
        }
        Ok(out)
    }
}

// --------------------------------------------------------------------- expressions

spec fn expr_res(r: Result<(Expr, Type), CompileError>) -> Result<(ExprV, TypeV), CompileErrorV> {
    match r {
        Ok(p) => Ok((p.0@, p.1@)),
        Err(e) => Err(e@),
    }
}

fn has_named(args: &Vec<Expr>) -> (r: bool)
    ensures
        r == any_named(exprs_v(args@)),
{
    let mut i: usize = 0;
    while i < args.len()
        invariant
            i <= args.len(),
            forall|k: int| 0 <= k < i ==> !((#[trigger] exprs_v(args@)[k]).kind is NamedArg),
        decreases args.len() - i,
    {
        let ghost g = expr_v(args[i as int]);
        let ghost k = expr_kind_v(args[i as int].kind);
        if matches!(args[i].kind, ExprKind::NamedArg { .. }) {
            assert(exprs_v(args@)[i as int].kind is NamedArg);
            return true;
        }
        i = i + 1;
    }
    false
}

/// The types of the arguments in the order of the parameters, where they fit.
fn types_in_order(f: &Function, largs: &Vec<Expr>, ts: &Vec<Type>, named: bool) -> (r: Option<
    Vec<Type>,
>)
    requires
        largs.len() == ts.len(),
    ensures
        match r {
            Some(v) => ordered_types(f@, exprs_v(largs@), types_v(ts@), named) == Some(
                types_v(v@),
            ),
            None => ordered_types(f@, exprs_v(largs@), types_v(ts@), named) is None,
        },
{
    let ghost fv = function_v(*f);
    if !named {
        if f.params.len() != ts.len() {
            return None;
        }
        return Some(dup_types(ts));
    }
    match assign_arg_slots(&f.params, largs) {
        None => None,
        Some(slots) => {
            let mut out: Vec<Type> = Vec::new();
            let ghost want = Seq::new(slots@.len(), |i: int| types_v(ts@)[slots@[i] as int]);
            let mut i: usize = 0;
            while i < slots.len()
                invariant
                    i <= slots.len(),
                    largs.len() == ts.len(),
                    want == Seq::new(slots@.len(), |i: int| types_v(ts@)[slots@[i] as int]),
                    forall|k: int| 0 <= k < slots.len() ==> (#[trigger] slots[k]) < largs.len(),
                    types_v(out@) == want.take(i as int),
                decreases slots.len() - i,
            {
                out.push(ts[slots[i]].dup());
                i = i + 1;
                assert(types_v(out@) =~= want.take(i as int));
            }
            assert(types_v(out@) =~= Seq::new(
                indices(slots@).len(),
                |i: int| types_v(ts@)[indices(slots@)[i]],
            ));
            Some(out)
        },
    }
}

fn inference_error(name: &str, span: Span) -> (r: CompileError)
    ensures
        r@ == cannot_infer(name@, span),
{
    CompileError::type_err(&cat3("cannot infer type arguments for '", name, "'"), span)
}

/// The value given to a field, if one is.
fn find_init(fs: &Vec<(String, Expr)>, name: &str) -> (r: Option<Expr>)
    ensures
        opt_expr_v(r) == init_of(field_inits_v(fs@), name@, 0),
{
    let mut i: usize = 0;
    while i < fs.len()
        invariant
            i <= fs.len(),
            init_of(field_inits_v(fs@), name@, 0) == init_of(
                field_inits_v(fs@),
                name@,
                i as int,
            ),
        decreases fs.len() - i,
    {
        let ghost fv = field_inits_v(fs@)[i as int];
        if str_eq(&fs[i].0, name) {
            return Some(fs[i].1.dup());
        }
        i = i + 1;
    }
    None
}

/// The values of the fields in the order of declaration.
fn reorder(decl: &Vec<StructField>, fs: &Vec<(String, Expr)>) -> (r: Vec<(String, Expr)>)
    ensures
        field_inits_v(r@) == in_order(
            struct_fields_v(decl@),
            field_inits_v(fs@),
            0,
            Seq::empty(),
        ),
{
    let mut out: Vec<(String, Expr)> = Vec::new();
    let mut i: usize = 0;
    while i < decl.len()
        invariant
            i <= decl.len(),
            in_order(struct_fields_v(decl@), field_inits_v(fs@), 0, Seq::empty()) == in_order(
                struct_fields_v(decl@),
                field_inits_v(fs@),
                i as int,
                field_inits_v(out@),
            ),
        decreases decl.len() - i,
    {
        let ghost dv = struct_field_v(decl[i as int]);
        if let Some(v) = find_init(fs, &decl[i].name) {
            out.push((decl[i].name.clone(), v));
        }
        i = i + 1;
    }
    out
}

/// Fields made equal to the types of their values.
fn unify_inits(
    fs: &Vec<StructField>,
    vals: &Vec<(String, Type)>,
    vars: &Vec<String>,
    subst: &mut StrMap<Type>,
) -> (r: Result<(), String>)
    ensures
        unified(r, final(subst)@) == unify_fields(
            struct_fields_v(fs@),
            list_v(vals@),
            0,
            strs_v(vars@),
            old(subst)@,
        ),
{
    let mut i: usize = 0;
    while i < vals.len()
        invariant
            i <= vals.len(),
            unify_fields(struct_fields_v(fs@), list_v(vals@), 0, strs_v(vars@), old(subst)@)
                == unify_fields(
                struct_fields_v(fs@),
                list_v(vals@),
                i as int,
                strs_v(vars@),
                subst@,
            ),
        decreases vals.len() - i,
    {
        let ghost vv = list_v(vals@)[i as int];
        if let Some(t) = find_field(fs, &vals[i].0) {
            unify_in(DEPTH_LIMIT, &t, &vals[i].1, vars, subst)?;
        }
        i = i + 1;
    }
    Ok(())
}

/// The arguments of type of a struct literal.
fn arguments_of_struct(
    key: &str,
    s: &Struct,
    ftypes: &Vec<(String, Type)>,
    expected: &Option<Type>,
    span: Span,
) -> (r: Result<Vec<Type>, CompileError>)
    ensures
        types_res(r) == struct_arguments(
            key@,
            s@,
            list_v(ftypes@),
            opt_type_v(*expected),
            span,
        ),
{
    let ghost sv = struct_v(*s);
    if s.generics.len() == 0 {
        return Ok(Vec::new());
    }
    let vars = names_of_generics(&s.generics);
    let mut subst = bindings_expected(&s.name, &s.generics, expected);
    match unify_inits(&s.fields, ftypes, &vars, &mut subst) {
        Err(m) => Err(
            CompileError::type_err(
                &cat4("cannot infer type arguments for '", key, "': ", &m),
                span,
            ),
        ),
        Ok(_) => {
            let args = resolved_arguments(&s.generics, &vars, &subst);
            if any_open(&args, &vars) {
                Err(inference_error(key, span))
            } else {
                Ok(args)
            }
        },
    }
}

pub(crate) fn contains_case(cs: &Vec<EnumCase>, name: &str) -> (r: bool)
    ensures
        r == has_case(enum_cases_v(cs@), name@),
{
    let mut i: usize = 0;
    while i < cs.len()
        invariant
            i <= cs.len(),
            forall|k: int| 0 <= k < i ==> (#[trigger] enum_cases_v(cs@)[k]).name != name@,
        decreases cs.len() - i,
    {
        let ghost cv = enum_case_v(cs[i as int]);
        if str_eq(&cs[i].name, name) {
            assert(enum_cases_v(cs@)[i as int].name == name@);
            return true;
        }
        i = i + 1;
    }
    false
}

/// What the payload and the expected type say of the parameters of an enum.
fn bindings_of_enum(e: &Enum, case: &str, at: &Type, expected: &Option<Type>, vars: &Vec<String>) -> (r:
    (Result<(), String>, StrMap<Type>))
    requires
        strs_v(vars@) == generic_names(e@.generics),
    ensures
        unified(r.0, r.1@) == enum_bindings(e@, case@, at@, opt_type_v(*expected)),
{
    let ghost ev = enum_v(*e);
    let ghost av = type_v(*at);
    let mut subst = bindings_expected(&e.name, &e.generics, expected);
    if matches!(at, Type::Never) {
        return (Ok(()), subst);
    }
    match find_payload(&e.cases, case) {
        None => (Ok(()), subst),
        Some(p) => {
            let fits = unify_in(DEPTH_LIMIT, &p, at, vars, &mut subst);
            (fits, subst)
        },
    }
}

fn constructor(name: String, case: &String, arg: Option<Expr>, span: Span) -> (r: Expr)
    ensures
        r@ == ctor_expr(
            name@,
            case@,
            match arg {
                Some(x) => Some(Box::new(x@)),
                None => None,
            },
            span,
        ),
{
    let mut path: Vec<String> = Vec::new();
    path.push(name);
    assert(strs_v(path@) =~= seq![name@]);
    let arg: Option<Box<Expr>> = match arg {
        Some(x) => Some(Box::new(x)),
        None => None,
    };
    let kind = ExprKind::EnumCtor { path, case: case.clone(), arg };
    let ghost k = expr_kind_v(kind);
    Expr::new(kind, span)
}

spec fn opt_arg_v(arg: Option<Expr>) -> Option<Box<ExprV>> {
    match arg {
        Some(x) => Some(Box::new(x@)),
        None => None,
    }
}

impl Mono {
    /// The type of a field of a value of this type.
    fn type_of_field(&self, t: &Type, field: &str) -> (r: Option<Type>)
        ensures
            opt_type_v(r) == field_type(self@, t@, field@),
    {
        let ghost g = type_v(*t);
        match t {
            Type::Path(p) => {
                let ghost pv = path_v(*p);
                let key = p.key();
                match self.structs.get(&key) {
                    Some(s) => {
                        let ghost sv = struct_v(*s);
                        let args = p.last_args();
                        if args.len() != s.generics.len() {
                            return None;
                        }
                        let m = subst_map(&s.generics, &args);
                        match find_field(&s.fields, field) {
                            Some(ft) => Some(substitute_type(&ft, &m)),
                            None => None,
                        }
                    },
                    None => self.type_of_emitted_field(&key, field),
                }
            },
            _ => None,
        }
    }

    /// The type of a field of the first emitted struct of this name.
    fn type_of_emitted_field(&self, key: &str, field: &str) -> (r: Option<Type>)
        ensures
            opt_type_v(r) == emitted_field(self@.out_structs, key@, field@, 0),
    {
        let ghost out = list_v(self.out_structs@);
        let mut i: usize = 0;
        while i < self.out_structs.len()
            invariant
                i <= self.out_structs.len(),
                out == list_v(self.out_structs@),
                out == self@.out_structs,
                emitted_field(out, key@, field@, 0) == emitted_field(
                    out,
                    key@,
                    field@,
                    i as int,
                ),
            decreases self.out_structs.len() - i,
        {
            let ghost sv = struct_v(self.out_structs[i as int]);
            if str_eq(&self.out_structs[i].name, key) {
                return find_field(&self.out_structs[i].fields, field);
            }
            i = i + 1;
        }
        None
    }

    /// A call of an overload whose parameters fit under the bindings.
    fn call_of_instance(
        &mut self,
        name: &str,
        f: &Function,
        subst: &StrMap<Type>,
        vars: &Vec<String>,
        largs: Vec<Expr>,
        func_span: Span,
        span: Span,
    ) -> (r: Result<(Expr, Type), CompileError>)
        requires
            emits_instances(old(self)@),
            strs_v(vars@) == generic_names(f@.generics),
        ensures
            emits_instances(final(self)@),
            grows(old(self)@, final(self)@),
            r is Ok ==> settles(old(self)@, final(self)@),
            (expr_res(r), final(self)@) == call_instance(
                old(self)@,
                name@,
                f@,
                subst@,
                exprs_v(largs@),
                func_span,
                span,
            ),
    {
        let ghost fv = function_v(*f);
        let args = resolved_arguments(&f.generics, vars, subst);
        if any_open(&args, vars) {
            return Err(inference_error(name, span));
        }
        let callee = if f.generics.len() == 0 {
            name.to_owned()
        } else {
            self.instantiate_function(name, &args)?
        };
        let m = subst_map(&f.generics, &args);
        let ret = self.infer_type(&f.return_type, &m)?;
        Ok((Expr::call(Expr::ident(&callee, func_span), largs, span), ret))
    }

    /// A call whose callee and arguments are lowered.
    fn finish_call(
        &mut self,
        callee: &Expr,
        func: Expr,
        largs: Vec<Expr>,
        ts: &Vec<Type>,
        named: bool,
        span: Span,
    ) -> (r: Result<(Expr, Type), CompileError>)
        requires
            emits_instances(old(self)@),
            largs.len() == ts.len(),
        ensures
            emits_instances(final(self)@),
            grows(old(self)@, final(self)@),
            r is Ok ==> settles(old(self)@, final(self)@),
            (expr_res(r), final(self)@) == call_result(
                old(self)@,
                callee@,
                func@,
                exprs_v(largs@),
                types_v(ts@),
                named,
                span,
            ),
    {
        let ghost cv = expr_v(*callee);
        let ghost ck = expr_kind_v(callee.kind);
        let name = match &callee.kind {
            ExprKind::Ident(name) => name,
            _ => {
                return Ok((Expr::call(func, largs, span), Type::Unit));
            },
        };
        if str_eq(name, "std::to_string") {
            return Ok((Expr::call(func, largs, span), Type::path("String")));
        }
        if str_eq(name, "print") || str_eq(name, "println") || str_eq(name, "print_int") {
            return Ok((Expr::call(func, largs, span), Type::Unit));
        }
        let fs = match self.functions.get(name) {
            None => {
                return Ok((Expr::call(func, largs, span), Type::Unit));
            },
            Some(list) => dup_functions(&list.functions),
        };
        let mut i: usize = 0;
        while i < fs.len()
            invariant
                i <= fs.len(),
                emits_instances(self@),
                grows(old(self)@, self@),
                settles(old(self)@, self@),
                self@ == old(self)@,
                largs.len() == ts.len(),
                call_result(
                    old(self)@,
                    callee@,
                    func@,
                    exprs_v(largs@),
                    types_v(ts@),
                    named,
                    span,
                ) == call_overload(
                    self@,
                    name@,
                    functions_v(fs@),
                    i as int,
                    func@,
                    exprs_v(largs@),
                    types_v(ts@),
                    named,
                    callee.span,
                    span,
                ),
            decreases fs.len() - i,
        {
            let ghost fv = function_v(fs[i as int]);
            if let Some(ordered) = types_in_order(&fs[i], &largs, ts, named) {
                if fs[i].params.len() == ordered.len() {
                    let vars = names_of_generics(&fs[i].generics);
                    let mut subst: StrMap<Type> = StrMap::new();
                    if unify_params(&fs[i].params, &ordered, &vars, &mut subst).is_ok() {
                        return self.call_of_instance(
                            name,
                            &fs[i],
                            &subst,
                            &vars,
                            largs,
                            callee.span,
                            span,
                        );
                    }
                }
            }
            i = i + 1;
        }
        Ok((Expr::call(func, largs, span), Type::Unit))
    }

    /// A struct literal whose fields are lowered.
    fn finish_struct(
        &mut self,
        key: &str,
        s: &Struct,
        lfields: &Vec<(String, Expr)>,
        ftypes: &Vec<(String, Type)>,
        expected: &Option<Type>,
        span: Span,
    ) -> (r: Result<(Expr, Type), CompileError>)
        requires
            emits_instances(old(self)@),
        ensures
            emits_instances(final(self)@),
            grows(old(self)@, final(self)@),
            r is Ok ==> settles(old(self)@, final(self)@),
            (expr_res(r), final(self)@) == struct_result(
                old(self)@,
                key@,
                s@,
                field_inits_v(lfields@),
                list_v(ftypes@),
                opt_type_v(*expected),
                span,
            ),
    {
        let ghost sv = struct_v(*s);
        let args = arguments_of_struct(key, s, ftypes, expected, span)?;
        let name = self.instantiate_struct(DEPTH_LIMIT, &s.name, &args)?;
        let mut path: Vec<String> = Vec::new();
        path.push(name);
        assert(strs_v(path@) =~= seq![name@]);
        let kind = ExprKind::StructLit { path, fields: reorder(&s.fields, lfields) };
        let ghost k = expr_kind_v(kind);
        Ok((Expr::new(kind, span), Type::applied(&s.name, args)))
    }

    /// The enum that a constructor belongs to.
    fn name_of_enum(&self, path: &Vec<String>, case: &str) -> (r: Option<String>)
        ensures
            opt_str_v(r) == enum_named(self@, strs_v(path@), case@),
    {
        if path.len() > 0 {
            Some(join(path, "::"))
        } else {
            self.find_enum(case)
        }
    }

    /// The first enum that has a case of this name.
    fn find_enum(&self, case: &str) -> (r: Option<String>)
        ensures
            opt_str_v(r) == enum_with_case(self@, case@, 0),
    {
        let mut i: usize = 0;
        while i < self.enum_order.len()
            invariant
                i <= self.enum_order.len(),
                enum_with_case(self@, case@, 0) == enum_with_case(self@, case@, i as int),
            decreases self.enum_order.len() - i,
        {
            let ghost nv = strs_v(self.enum_order@)[i as int];
            if let Some(e) = self.enums.get(&self.enum_order[i]) {
                let ghost ev = enum_v(*e);
                if contains_case(&e.cases, case) {
                    return Some(self.enum_order[i].clone());
                }
            }
            i = i + 1;
        }
        None
    }

    fn enum_of_instance(
        &mut self,
        e: &Enum,
        args: Vec<Type>,
        case: &String,
        larg: Option<Expr>,
        span: Span,
    ) -> (r: Result<(Expr, Type), CompileError>)
        requires
            emits_instances(old(self)@),
        ensures
            emits_instances(final(self)@),
            grows(old(self)@, final(self)@),
            r is Ok ==> settles(old(self)@, final(self)@),
            (expr_res(r), final(self)@) == enum_instance(
                old(self)@,
                e@,
                types_v(args@),
                case@,
                opt_arg_v(larg),
                span,
            ),
    {
        let ghost ev = enum_v(*e);
        let name = self.instantiate_enum(DEPTH_LIMIT, &e.name, &args)?;
        Ok((constructor(name, case, larg, span), Type::applied(&e.name, args)))
    }

    /// A constructor whose argument is lowered.
    fn finish_enum(
        &mut self,
        whole: &Expr,
        path: &Vec<String>,
        case: &String,
        larg: Option<Expr>,
        at: &Type,
        expected: &Option<Type>,
    ) -> (r: Result<(Expr, Type), CompileError>)
        requires
            emits_instances(old(self)@),
        ensures
            emits_instances(final(self)@),
            grows(old(self)@, final(self)@),
            r is Ok ==> settles(old(self)@, final(self)@),
            (expr_res(r), final(self)@) == enum_result(
                old(self)@,
                whole@,
                strs_v(path@),
                case@,
                opt_arg_v(larg),
                at@,
                opt_type_v(*expected),
            ),
    {
        let ghost wv = expr_v(*whole);
        let ename = match self.name_of_enum(path, case) {
            None => {
                return Err(
                    CompileError::type_err(&cat3("unknown enum case '.", case, "'"), whole.span),
                );
            },
            Some(n) => n,
        };
        let e = match self.enums.get(&ename) {
            None => {
                return Ok((whole.dup(), Type::Unit));
            },
            Some(e) => e.dup(),
        };
        let ghost ev = enum_v(e);
        if e.generics.len() == 0 {
            return self.enum_of_instance(&e, Vec::new(), case, larg, whole.span);
        }
        let vars = names_of_generics(&e.generics);
        let (fits, subst) = bindings_of_enum(&e, case, at, expected, &vars);
        match fits {
            Err(m) => Err(
                CompileError::type_err(
                    &cat4("cannot infer type arguments for '.", case, "': ", &m),
                    whole.span,
                ),
            ),
            Ok(_) => {
                let args = resolved_arguments(&e.generics, &vars, &subst);
                if !any_open(&args, &vars) {
                    return self.enum_of_instance(&e, args, case, larg, whole.span);
                }
                if expected.is_none() && larg.is_none() {
                    return Ok((whole.dup(), Type::Never));
                }
                Err(
                    CompileError::type_err(
                        &cat3(
                            "cannot infer type arguments for '.",
                            case,
                            "' (add a type annotation)",
                        ),
                        whole.span,
                    ),
                )
            },
        }
    }
}

fn type_or(t: Option<Type>, other: Type) -> (r: Type)
    ensures
        r@ == (match opt_type_v(t) {
            Some(x) => x,
            None => other@,
        }),
{
    match t {
        Some(x) => x,
        None => other,
    }
}

fn type_of_operator(op: BinOp, lt: &Type, rt: &Type) -> (r: Type)
    ensures
        r@ == operator_type(op, lt@, rt@),
{
    match op {
        BinOp::Add => {
            let text = Type::path("String");
            if lt.equals(&text) && rt.equals(&text) {
                text
            } else {
                Type::path("Int")
            }
        },
        BinOp::Sub | BinOp::Mul | BinOp::Div | BinOp::Mod => Type::path("Int"),
        _ => Type::path("Bool"),
    }
}

/// An expression of one part with the part replaced.
fn rebuild_single(kind: &ExprKind, x2: Expr) -> (r: ExprKind)
    ensures
        r@ == single_kind(kind@, x2@),
{
    let ghost k = expr_kind_v(*kind);
    let ghost xv = expr_v(x2);
    let out = match kind {
        ExprKind::Return(_) => ExprKind::Return(Some(Box::new(x2))),
        ExprKind::Unary { op, expr } => ExprKind::Unary { op: *op, expr: Box::new(x2) },
        ExprKind::DotAccess { object, field } => ExprKind::DotAccess {
            object: Box::new(x2),
            field: field.clone(),
        },
        ExprKind::Field { object, field } => ExprKind::Field {
            object: Box::new(x2),
            field: field.clone(),
        },
        ExprKind::NamedArg { name, value } => ExprKind::NamedArg {
            name: name.clone(),
            value: Box::new(x2),
        },
        _ => kind.dup(),
    };
    let ghost ov = expr_kind_v(out);
    out
}

/// An expression of two parts with the parts replaced.
fn rebuild_double(kind: &ExprKind, a2: Expr, b2: Expr) -> (r: ExprKind)
    ensures
        r@ == double_kind(kind@, a2@, b2@),
{
    let ghost k = expr_kind_v(*kind);
    let ghost av = expr_v(a2);
    let ghost bv = expr_v(b2);
    let out = match kind {
        ExprKind::Binary { op, left, right } => ExprKind::Binary {
            op: *op,
            left: Box::new(a2),
            right: Box::new(b2),
        },
        ExprKind::Assign { target, value } => ExprKind::Assign {
            target: Box::new(a2),
            value: Box::new(b2),
        },
        ExprKind::AssignOp { target, op, value } => ExprKind::AssignOp {
            target: Box::new(a2),
            op: *op,
            value: Box::new(b2),
        },
        ExprKind::Index { object, index } => ExprKind::Index {
            object: Box::new(a2),
            index: Box::new(b2),
        },
        _ => kind.dup(),
    };
    let ghost ov = expr_kind_v(out);
    out
}

fn type_of_double(kind: &ExprKind, at: &Type, bt: &Type) -> (r: Type)
    ensures
        r@ == double_type(kind@, at@, bt@),
{
    let ghost k = expr_kind_v(*kind);
    match kind {
        ExprKind::Binary { op, left, right } => type_of_operator(*op, at, bt),
        _ => Type::Unit,
    }
}

spec fn block_res(r: Result<(Block, Type), CompileError>) -> Result<(BlockV, TypeV), CompileErrorV> {
    match r {
        Ok(p) => Ok((p.0@, p.1@)),
        Err(e) => Err(e@),
    }
}

spec fn args_res(r: Result<(Vec<Expr>, Vec<Type>), CompileError>) -> Result<
    (Seq<ExprV>, Seq<TypeV>),
    CompileErrorV,
> {
    match r {
        Ok(p) => Ok((exprs_v(p.0@), types_v(p.1@))),
        Err(e) => Err(e@),
    }
}

spec fn inits_res(r: Result<(Vec<(String, Expr)>, Vec<(String, Type)>), CompileError>) -> Result<
    (Seq<(Seq<char>, ExprV)>, Seq<(Seq<char>, TypeV)>),
    CompileErrorV,
> {
    match r {
        Ok(p) => Ok((field_inits_v(p.0@), list_v(p.1@))),
        Err(e) => Err(e@),
    }
}

spec fn arms_res(r: Result<(Vec<MatchArm>, Type), CompileError>) -> Result<
    (Seq<MatchArmV>, TypeV),
    CompileErrorV,
> {
    match r {
        Ok(p) => Ok((match_arms_v(p.0@), p.1@)),
        Err(e) => Err(e@),
    }
}

spec fn arm_res(r: Result<(MatchArm, Type), CompileError>) -> Result<
    (MatchArmV, TypeV),
    CompileErrorV,
> {
    match r {
        Ok(p) => Ok((p.0@, p.1@)),
        Err(e) => Err(e@),
    }
}

spec fn opt_box_v(g: Option<Box<Expr>>) -> Option<Box<ExprV>> {
    match g {
        Some(x) => Some(Box::new(expr_v(*x))),
        None => None,
    }
}

spec fn guard_res(r: Result<Option<Box<Expr>>, CompileError>) -> Result<
    Option<Box<ExprV>>,
    CompileErrorV,
> {
    match r {
        Ok(g) => Ok(opt_box_v(g)),
        Err(e) => Err(e@),
    }
}

impl Mono {
    fn type_of_single(&self, kind: &ExprKind, t: Type) -> (r: Type)
        ensures
            r@ == single_type(self@, kind@, t@),
    {
        let ghost k = expr_kind_v(*kind);
        match kind {
            ExprKind::Return(_) => Type::Never,
            ExprKind::Unary { op, expr } => match op {
                UnaryOp::Neg => Type::path("Int"),
                UnaryOp::Not => Type::path("Bool"),
            },
            ExprKind::DotAccess { object, field } => type_or(
                self.type_of_field(&t, field),
                Type::Unit,
            ),
            ExprKind::Field { object, field } => type_or(
                self.type_of_field(&t, field),
                Type::Unit,
            ),
            ExprKind::NamedArg { name, value } => t,
            _ => Type::Unit,
        }
    }

    /// An expression in which every use of a generic item is one of an instance, and its
    /// type.
    fn lower_expr(
        &mut self,
        expr: &Expr,
        env: &mut StrMap<Type>,
        subst: &StrMap<Type>,
        expected: &Option<Type>,
    ) -> (r: Result<(Expr, Type), CompileError>)
        requires
            emits_instances(old(self)@),
        ensures
            emits_instances(final(self)@),
            grows(old(self)@, final(self)@),
            r is Ok ==> settles(old(self)@, final(self)@),
            (expr_res(r), final(self)@, final(env)@) == l_expr(
                old(self)@,
                expr@,
                old(env)@,
                subst@,
                opt_type_v(*expected),
            ),
        decreases expr, 2int,
    {
        proof {
            un_l_expr(self@, expr@, env@, subst@, opt_type_v(*expected));
        }
        let ghost g = expr_v(*expr);
        let ghost k = expr_kind_v(expr.kind);
        match &expr.kind {
            ExprKind::IntLiteral(_) => Ok((expr.dup(), Type::path("Int"))),
            ExprKind::FloatLiteral(_) => Ok((expr.dup(), Type::path("Float"))),
            ExprKind::StringLiteral(_) => Ok((expr.dup(), Type::path("String"))),
            ExprKind::CharLiteral(_) => Ok((expr.dup(), Type::path("Char"))),
            ExprKind::BoolLiteral(_) => Ok((expr.dup(), Type::path("Bool"))),
            ExprKind::NilLiteral => Ok((expr.dup(), Type::Never)),
            ExprKind::Ident(name) => {
                let t = match env.get(name) {
                    Some(t) => t.dup(),
                    None => Type::Never,
                };
                Ok((expr.dup(), t))
            },
            ExprKind::Block(b) => {
                let (b2, t) = self.lower_block(b, env, subst, expected)?;
                let kind = ExprKind::Block(b2);
                let ghost rk = expr_kind_v(kind);
                Ok((Expr::new(kind, expr.span), t))
            },
            ExprKind::Let { .. } => self.lower_let(expr, env, subst),
            ExprKind::Return(Some(_)) => self.lower_single(expr, env, subst),
            ExprKind::Return(None) => Ok((expr.dup(), Type::Unit)),
            ExprKind::Unary { .. } => self.lower_single(expr, env, subst),
            ExprKind::DotAccess { .. } => self.lower_single(expr, env, subst),
            ExprKind::Field { .. } => self.lower_single(expr, env, subst),
            ExprKind::NamedArg { .. } => self.lower_single(expr, env, subst),
            ExprKind::Binary { .. } => self.lower_double(expr, env, subst),
            ExprKind::Assign { .. } => self.lower_double(expr, env, subst),
            ExprKind::AssignOp { .. } => self.lower_double(expr, env, subst),
            ExprKind::Index { .. } => self.lower_double(expr, env, subst),
            ExprKind::Call { .. } => self.lower_call(expr, env, subst),
            ExprKind::StructLit { .. } => self.lower_record(expr, env, subst, expected),
            ExprKind::GcNew { .. } => self.lower_record(expr, env, subst, expected),
            ExprKind::EnumCtor { .. } => self.lower_ctor(expr, env, subst, expected),
            ExprKind::Match { .. } => self.lower_match(expr, env, subst, expected),
            ExprKind::If { .. } => self.lower_if(expr, env, subst, expected),
            ExprKind::While { .. } => self.lower_loop(expr, env, subst),
            ExprKind::For { .. } => self.lower_loop(expr, env, subst),
            _ => Ok((expr.dup(), Type::Unit)),
        }
    }

    /// A block: its names are gone after it.
    fn lower_block(
        &mut self,
        block: &Block,
        env: &StrMap<Type>,
        subst: &StrMap<Type>,
        expected: &Option<Type>,
    ) -> (r: Result<(Block, Type), CompileError>)
        requires
            emits_instances(old(self)@),
        ensures
            emits_instances(final(self)@),
            grows(old(self)@, final(self)@),
            r is Ok ==> settles(old(self)@, final(self)@),
            (block_res(r), final(self)@) == l_block(
                old(self)@,
                block@,
                env@,
                subst@,
                opt_type_v(*expected),
            ),
        decreases block, 1int,
    {
        proof {
            un_l_block(self@, block@, env@, subst@, opt_type_v(*expected));
        }
        let ghost bv = block_v(*block);
        let mut local = env.copy();
        let (stmts, t) = self.lower_stmts(&block.stmts, &mut local, subst, expected)?;
        let b2 = Block { stmts, span: block.span };
        let ghost rv = block_v(b2);
        Ok((b2, t))
    }

    fn lower_stmts(
        &mut self,
        stmts: &Vec<Expr>,
        env: &mut StrMap<Type>,
        subst: &StrMap<Type>,
        expected: &Option<Type>,
    ) -> (r: Result<(Vec<Expr>, Type), CompileError>)
        requires
            emits_instances(old(self)@),
        ensures
            emits_instances(final(self)@),
            grows(old(self)@, final(self)@),
            r is Ok ==> settles(old(self)@, final(self)@),
            match r {
                Ok(p) => l_stmts(
                    old(self)@,
                    exprs_v(stmts@),
                    0,
                    old(env)@,
                    subst@,
                    opt_type_v(*expected),
                    Seq::empty(),
                    TypeV::Unit,
                ) == (
                    Ok::<(Seq<ExprV>, TypeV), CompileErrorV>((exprs_v(p.0@), p.1@)),
                    final(self)@,
                ),
                Err(e) => l_stmts(
                    old(self)@,
                    exprs_v(stmts@),
                    0,
                    old(env)@,
                    subst@,
                    opt_type_v(*expected),
                    Seq::empty(),
                    TypeV::Unit,
                ) == (Err::<(Seq<ExprV>, TypeV), CompileErrorV>(e@), final(self)@),
            },
        decreases stmts, 0int,
    {
        let mut out: Vec<Expr> = Vec::new();
        let mut last = Type::Unit;
        let mut i: usize = 0;
        while i < stmts.len()
            invariant
                i <= stmts.len(),
                emits_instances(self@),
                grows(old(self)@, self@),
                settles(old(self)@, self@),
                l_stmts(
                    old(self)@,
                    exprs_v(stmts@),
                    0,
                    old(env)@,
                    subst@,
                    opt_type_v(*expected),
                    Seq::empty(),
                    TypeV::Unit,
                ) == l_stmts(
                    self@,
                    exprs_v(stmts@),
                    i as int,
                    env@,
                    subst@,
                    opt_type_v(*expected),
                    exprs_v(out@),
                    last@,
                ),
            decreases stmts.len() - i,
        {
            proof {
                un_l_stmts(
                    self@,
                    exprs_v(stmts@),
                    i as int,
                    env@,
                    subst@,
                    opt_type_v(*expected),
                    exprs_v(out@),
                    last@,
                );
            }
            let (s2, t) = if i == stmts.len() - 1 {
                self.lower_expr(&stmts[i], env, subst, expected)?
            } else {
                self.lower_expr(&stmts[i], env, subst, &None)?
            };
            out.push(s2);
            last = t;
            i = i + 1;
        }
        proof {
            un_l_stmts(
                self@,
                exprs_v(stmts@),
                i as int,
                env@,
                subst@,
                opt_type_v(*expected),
                exprs_v(out@),
                last@,
            );
        }
        Ok((out, last))
    }

    fn lower_args(&mut self, args: &Vec<Expr>, env: &mut StrMap<Type>, subst: &StrMap<Type>) -> (r:
        Result<(Vec<Expr>, Vec<Type>), CompileError>)
        requires
            emits_instances(old(self)@),
        ensures
            emits_instances(final(self)@),
            grows(old(self)@, final(self)@),
            r is Ok ==> settles(old(self)@, final(self)@),
            r is Ok ==> r->Ok_0.0.len() == r->Ok_0.1.len(),
            (args_res(r), final(self)@, final(env)@) == l_args(
                old(self)@,
                exprs_v(args@),
                0,
                old(env)@,
                subst@,
                Seq::empty(),
                Seq::empty(),
            ),
        decreases args, 0int,
    {
        let mut out: Vec<Expr> = Vec::new();
        let mut ts: Vec<Type> = Vec::new();
        let mut i: usize = 0;
        while i < args.len()
            invariant
                i <= args.len(),
                out.len() == ts.len(),
                emits_instances(self@),
                grows(old(self)@, self@),
                settles(old(self)@, self@),
                l_args(
                    old(self)@,
                    exprs_v(args@),
                    0,
                    old(env)@,
                    subst@,
                    Seq::empty(),
                    Seq::empty(),
                ) == l_args(
                    self@,
                    exprs_v(args@),
                    i as int,
                    env@,
                    subst@,
                    exprs_v(out@),
                    types_v(ts@),
                ),
            decreases args.len() - i,
        {
            proof {
                un_l_args(
                    self@,
                    exprs_v(args@),
                    i as int,
                    env@,
                    subst@,
                    exprs_v(out@),
                    types_v(ts@),
                );
            }
            let (a2, t) = self.lower_expr(&args[i], env, subst, &None)?;
            out.push(a2);
            ts.push(t);
            i = i + 1;
        }
        proof {
            un_l_args(
                self@,
                exprs_v(args@),
                i as int,
                env@,
                subst@,
                exprs_v(out@),
                types_v(ts@),
            );
        }
        Ok((out, ts))
    }

    fn lower_inits(
        &mut self,
        fs: &Vec<(String, Expr)>,
        env: &mut StrMap<Type>,
        subst: &StrMap<Type>,
    ) -> (r: Result<(Vec<(String, Expr)>, Vec<(String, Type)>), CompileError>)
        requires
            emits_instances(old(self)@),
        ensures
            emits_instances(final(self)@),
            grows(old(self)@, final(self)@),
            r is Ok ==> settles(old(self)@, final(self)@),
            (inits_res(r), final(self)@, final(env)@) == l_inits(
                old(self)@,
                field_inits_v(fs@),
                0,
                old(env)@,
                subst@,
                Seq::empty(),
                Seq::empty(),
            ),
        decreases fs, 0int,
    {
        let mut out: Vec<(String, Expr)> = Vec::new();
        let mut ts: Vec<(String, Type)> = Vec::new();
        let mut i: usize = 0;
        while i < fs.len()
            invariant
                i <= fs.len(),
                emits_instances(self@),
                grows(old(self)@, self@),
                settles(old(self)@, self@),
                l_inits(
                    old(self)@,
                    field_inits_v(fs@),
                    0,
                    old(env)@,
                    subst@,
                    Seq::empty(),
                    Seq::empty(),
                ) == l_inits(
                    self@,
                    field_inits_v(fs@),
                    i as int,
                    env@,
                    subst@,
                    field_inits_v(out@),
                    list_v(ts@),
                ),
            decreases fs.len() - i,
        {
            proof {
                un_l_inits(
                    self@,
                    field_inits_v(fs@),
                    i as int,
                    env@,
                    subst@,
                    field_inits_v(out@),
                    list_v(ts@),
                );
            }
            let ghost fv = field_inits_v(fs@)[i as int];
            let (v2, t) = self.lower_expr(&fs[i].1, env, subst, &None)?;
            out.push((fs[i].0.clone(), v2));
            ts.push((fs[i].0.clone(), t));
            i = i + 1;
        }
        proof {
            un_l_inits(
                self@,
                field_inits_v(fs@),
                i as int,
                env@,
                subst@,
                field_inits_v(out@),
                list_v(ts@),
            );
        }
        Ok((out, ts))
    }

    fn lower_let(&mut self, expr: &Expr, env: &mut StrMap<Type>, subst: &StrMap<Type>) -> (r: Result<
        (Expr, Type),
        CompileError,
    >)
        requires
            emits_instances(old(self)@),
        ensures
            emits_instances(final(self)@),
            grows(old(self)@, final(self)@),
            r is Ok ==> settles(old(self)@, final(self)@),
            (expr_res(r), final(self)@, final(env)@) == l_let(
                old(self)@,
                expr@,
                old(env)@,
                subst@,
            ),
        decreases expr, 1int,
    {
        proof {
            un_l_let(self@, expr@, env@, subst@);
        }
        let ghost g = expr_v(*expr);
        let ghost k = expr_kind_v(expr.kind);
        match &expr.kind {
            ExprKind::Let { name, ty, value, is_mut } => {
                let ghost vv = expr_v(**value);
                let ann = self.infer_annotation(ty, subst)?;
                let (v2, vt) = self.lower_expr(value, env, subst, &ann)?;
                let emitted = self.emit_annotation(&ann);
                env.insert(name, type_or(ann, vt));
                let kind = ExprKind::Let {
                    name: name.clone(),
                    ty: emitted,
                    value: Box::new(v2),
                    is_mut: *is_mut,
                };
                let ghost rk = expr_kind_v(kind);
                Ok((Expr::new(kind, expr.span), Type::Unit))
            },
            _ => Ok((expr.dup(), Type::Unit)),
        }
    }

    fn lower_single(&mut self, expr: &Expr, env: &mut StrMap<Type>, subst: &StrMap<Type>) -> (r:
        Result<(Expr, Type), CompileError>)
        requires
            emits_instances(old(self)@),
        ensures
            emits_instances(final(self)@),
            grows(old(self)@, final(self)@),
            r is Ok ==> settles(old(self)@, final(self)@),
            (expr_res(r), final(self)@, final(env)@) == l_single(
                old(self)@,
                expr@,
                old(env)@,
                subst@,
            ),
        decreases expr, 1int,
    {
        proof {
            un_l_single(self@, expr@, env@, subst@);
        }
        let ghost g = expr_v(*expr);
        let ghost k = expr_kind_v(expr.kind);
        let (x2, t) = match &expr.kind {
            ExprKind::Return(Some(x)) => {
                let ret: Option<Type> = match &self.cur_ret {
                    Some(t) => Some(t.dup()),
                    None => None,
                };
                self.lower_expr(x, env, subst, &ret)?
            },
            ExprKind::Unary { op, expr: x } => self.lower_expr(x, env, subst, &None)?,
            ExprKind::DotAccess { object, field } => self.lower_expr(object, env, subst, &None)?,
            ExprKind::Field { object, field } => self.lower_expr(object, env, subst, &None)?,
            ExprKind::NamedArg { name, value } => self.lower_expr(value, env, subst, &None)?,
            _ => {
                return Ok((expr.dup(), Type::Unit));
            },
        };
        let t2 = self.type_of_single(&expr.kind, t);
        Ok((Expr::new(rebuild_single(&expr.kind, x2), expr.span), t2))
    }

    fn lower_double(&mut self, expr: &Expr, env: &mut StrMap<Type>, subst: &StrMap<Type>) -> (r:
        Result<(Expr, Type), CompileError>)
        requires
            emits_instances(old(self)@),
        ensures
            emits_instances(final(self)@),
            grows(old(self)@, final(self)@),
            r is Ok ==> settles(old(self)@, final(self)@),
            (expr_res(r), final(self)@, final(env)@) == l_double(
                old(self)@,
                expr@,
                old(env)@,
                subst@,
            ),
        decreases expr, 1int,
    {
        proof {
            un_l_double(self@, expr@, env@, subst@);
        }
        let ghost g = expr_v(*expr);
        let ghost k = expr_kind_v(expr.kind);
        let (a2, at, b2, bt) = match &expr.kind {
            ExprKind::Binary { op, left, right } => {
                let (a2, at) = self.lower_expr(left, env, subst, &None)?;
                let (b2, bt) = self.lower_expr(right, env, subst, &None)?;
                (a2, at, b2, bt)
            },
            ExprKind::Assign { target, value } => {
                let (a2, at) = self.lower_expr(target, env, subst, &None)?;
                let exp: Option<Type> = Some(at.dup());
                let (b2, bt) = self.lower_expr(value, env, subst, &exp)?;
                (a2, at, b2, bt)
            },
            ExprKind::AssignOp { target, op, value } => {
                let (a2, at) = self.lower_expr(target, env, subst, &None)?;
                let (b2, bt) = self.lower_expr(value, env, subst, &None)?;
                (a2, at, b2, bt)
            },
            ExprKind::Index { object, index } => {
                let (a2, at) = self.lower_expr(object, env, subst, &None)?;
                let (b2, bt) = self.lower_expr(index, env, subst, &None)?;
                (a2, at, b2, bt)
            },
            _ => {
                return Ok((expr.dup(), Type::Unit));
            },
        };
        let t2 = type_of_double(&expr.kind, &at, &bt);
        Ok((Expr::new(rebuild_double(&expr.kind, a2, b2), expr.span), t2))
    }

    fn lower_callee(
        &mut self,
        func: &Expr,
        span: Span,
        env: &mut StrMap<Type>,
        subst: &StrMap<Type>,
    ) -> (r: Result<Expr, CompileError>)
        requires
            emits_instances(old(self)@),
        ensures
            emits_instances(final(self)@),
            grows(old(self)@, final(self)@),
            r is Ok ==> settles(old(self)@, final(self)@),
            (res_v(r), final(self)@, final(env)@) == l_callee(
                old(self)@,
                func@,
                span,
                old(env)@,
                subst@,
            ),
        decreases func, 0int,
    {
        proof {
            un_l_callee(self@, func@, span, env@, subst@);
        }
        let ghost g = expr_v(*func);
        let ghost k = expr_kind_v(func.kind);
        match &func.kind {
            ExprKind::DotAccess { object, field } => {
                let (o2, t) = self.lower_expr(object, env, subst, &None)?;
                Ok(Expr::new(rebuild_single(&func.kind, o2), span))
            },
            ExprKind::Field { object, field } => {
                let (o2, t) = self.lower_expr(object, env, subst, &None)?;
                Ok(Expr::new(rebuild_single(&func.kind, o2), span))
            },
            _ => Ok(func.dup()),
        }
    }

    fn lower_call(&mut self, expr: &Expr, env: &mut StrMap<Type>, subst: &StrMap<Type>) -> (r:
        Result<(Expr, Type), CompileError>)
        requires
            emits_instances(old(self)@),
        ensures
            emits_instances(final(self)@),
            grows(old(self)@, final(self)@),
            r is Ok ==> settles(old(self)@, final(self)@),
            (expr_res(r), final(self)@, final(env)@) == l_call(
                old(self)@,
                expr@,
                old(env)@,
                subst@,
            ),
        decreases expr, 1int,
    {
        proof {
            un_l_call(self@, expr@, env@, subst@);
        }
        let ghost g = expr_v(*expr);
        let ghost k = expr_kind_v(expr.kind);
        match &expr.kind {
            ExprKind::Call { func, args } => {
                let func2 = self.lower_callee(func, expr.span, env, subst)?;
                let (largs, ts) = self.lower_args(args, env, subst)?;
                self.finish_call(func, func2, largs, &ts, has_named(args), expr.span)
            },
            _ => Ok((expr.dup(), Type::Unit)),
        }
    }

    fn lower_record(
        &mut self,
        expr: &Expr,
        env: &mut StrMap<Type>,
        subst: &StrMap<Type>,
        expected: &Option<Type>,
    ) -> (r: Result<(Expr, Type), CompileError>)
        requires
            emits_instances(old(self)@),
        ensures
            emits_instances(final(self)@),
            grows(old(self)@, final(self)@),
            r is Ok ==> settles(old(self)@, final(self)@),
            (expr_res(r), final(self)@, final(env)@) == l_record(
                old(self)@,
                expr@,
                old(env)@,
                subst@,
                opt_type_v(*expected),
            ),
        decreases expr, 1int,
    {
        proof {
            un_l_record(self@, expr@, env@, subst@, opt_type_v(*expected));
        }
        let ghost g = expr_v(*expr);
        let ghost k = expr_kind_v(expr.kind);
        match &expr.kind {
            ExprKind::StructLit { path, fields } => {
                let key = join(path, "::");
                let known: Option<Struct> = match self.structs.get(&key) {
                    Some(s) => Some(s.dup()),
                    None => None,
                };
                let (lfields, ts) = self.lower_inits(fields, env, subst)?;
                match known {
                    Some(s) => self.finish_struct(&key, &s, &lfields, &ts, expected, expr.span),
                    None => {
                        let kind = ExprKind::StructLit { path: dup_strs(path), fields: lfields };
                        let ghost rk = expr_kind_v(kind);
                        Ok((Expr::new(kind, expr.span), Type::Unit))
                    },
                }
            },
            ExprKind::GcNew { ty, fields } => {
                let t = self.infer_type(ty, subst)?;
                let emitted = self.emit_type(&t);
                let (lfields, ts) = self.lower_inits(fields, env, subst)?;
                let kind = ExprKind::GcNew { ty: emitted, fields: lfields };
                let ghost rk = expr_kind_v(kind);
                Ok((Expr::new(kind, expr.span), Type::gc_ref(t)))
            },
            _ => Ok((expr.dup(), Type::Unit)),
        }
    }

    fn lower_ctor(
        &mut self,
        expr: &Expr,
        env: &mut StrMap<Type>,
        subst: &StrMap<Type>,
        expected: &Option<Type>,
    ) -> (r: Result<(Expr, Type), CompileError>)
        requires
            emits_instances(old(self)@),
        ensures
            emits_instances(final(self)@),
            grows(old(self)@, final(self)@),
            r is Ok ==> settles(old(self)@, final(self)@),
            (expr_res(r), final(self)@, final(env)@) == l_ctor(
                old(self)@,
                expr@,
                old(env)@,
                subst@,
                opt_type_v(*expected),
            ),
        decreases expr, 1int,
    {
        proof {
            un_l_ctor(self@, expr@, env@, subst@, opt_type_v(*expected));
        }
        let ghost g = expr_v(*expr);
        let ghost k = expr_kind_v(expr.kind);
        match &expr.kind {
            ExprKind::EnumCtor { path, case, arg } => {
                match arg {
                    None => self.finish_enum(expr, path, case, None, &Type::Never, expected),
                    Some(a) => {
                        let (a2, at) = self.lower_expr(a, env, subst, &None)?;
                        self.finish_enum(expr, path, case, Some(a2), &at, expected)
                    },
                }
            },
            _ => Ok((expr.dup(), Type::Unit)),
        }
    }

    fn lower_match(
        &mut self,
        expr: &Expr,
        env: &mut StrMap<Type>,
        subst: &StrMap<Type>,
        expected: &Option<Type>,
    ) -> (r: Result<(Expr, Type), CompileError>)
        requires
            emits_instances(old(self)@),
        ensures
            emits_instances(final(self)@),
            grows(old(self)@, final(self)@),
            r is Ok ==> settles(old(self)@, final(self)@),
            (expr_res(r), final(self)@, final(env)@) == l_match(
                old(self)@,
                expr@,
                old(env)@,
                subst@,
                opt_type_v(*expected),
            ),
        decreases expr, 1int,
    {
        proof {
            un_l_match(self@, expr@, env@, subst@, opt_type_v(*expected));
        }
        let ghost g = expr_v(*expr);
        let ghost k = expr_kind_v(expr.kind);
        match &expr.kind {
            ExprKind::Match { expr: subject, arms } => {
                let (s2, st) = self.lower_expr(subject, env, subst, &None)?;
                let (arms2, t) = self.lower_arms(arms, &st, env, subst, expected)?;
                let ghost tv = type_v(t);
                let kind = ExprKind::Match { expr: Box::new(s2), arms: arms2 };
                let ghost rk = expr_kind_v(kind);
                let t2 = if matches!(t, Type::Never) {
                    Type::Unit
                } else {
                    t
                };
                Ok((Expr::new(kind, expr.span), t2))
            },
            _ => Ok((expr.dup(), Type::Unit)),
        }
    }

    fn lower_arms(
        &mut self,
        arms: &Vec<MatchArm>,
        subject: &Type,
        env: &StrMap<Type>,
        subst: &StrMap<Type>,
        expected: &Option<Type>,
    ) -> (r: Result<(Vec<MatchArm>, Type), CompileError>)
        requires
            emits_instances(old(self)@),
        ensures
            emits_instances(final(self)@),
            grows(old(self)@, final(self)@),
            r is Ok ==> settles(old(self)@, final(self)@),
            (arms_res(r), final(self)@) == l_arms(
                old(self)@,
                match_arms_v(arms@),
                0,
                subject@,
                env@,
                subst@,
                opt_type_v(*expected),
                Seq::empty(),
                TypeV::Never,
            ),
        decreases arms, 0int,
    {
        let mut out: Vec<MatchArm> = Vec::new();
        let mut t = Type::Never;
        let mut i: usize = 0;
        while i < arms.len()
            invariant
                i <= arms.len(),
                emits_instances(self@),
                grows(old(self)@, self@),
                settles(old(self)@, self@),
                l_arms(
                    old(self)@,
                    match_arms_v(arms@),
                    0,
                    subject@,
                    env@,
                    subst@,
                    opt_type_v(*expected),
                    Seq::empty(),
                    TypeV::Never,
                ) == l_arms(
                    self@,
                    match_arms_v(arms@),
                    i as int,
                    subject@,
                    env@,
                    subst@,
                    opt_type_v(*expected),
                    match_arms_v(out@),
                    t@,
                ),
            decreases arms.len() - i,
        {
            proof {
                un_l_arms(
                    self@,
                    match_arms_v(arms@),
                    i as int,
                    subject@,
                    env@,
                    subst@,
                    opt_type_v(*expected),
                    match_arms_v(out@),
                    t@,
                );
            }
            let ghost tv = type_v(t);
            let (arm2, bt) = self.lower_arm(&arms[i], subject, env, subst, expected)?;
            out.push(arm2);
            if matches!(t, Type::Never) {
                t = bt;
            }
            i = i + 1;
        }
        proof {
            un_l_arms(
                self@,
                match_arms_v(arms@),
                i as int,
                subject@,
                env@,
                subst@,
                opt_type_v(*expected),
                match_arms_v(out@),
                t@,
            );
        }
        Ok((out, t))
    }

    fn lower_arm(
        &mut self,
        arm: &MatchArm,
        subject: &Type,
        env: &StrMap<Type>,
        subst: &StrMap<Type>,
        expected: &Option<Type>,
    ) -> (r: Result<(MatchArm, Type), CompileError>)
        requires
            emits_instances(old(self)@),
        ensures
            emits_instances(final(self)@),
            grows(old(self)@, final(self)@),
            r is Ok ==> settles(old(self)@, final(self)@),
            (arm_res(r), final(self)@) == l_arm(
                old(self)@,
                arm@,
                subject@,
                env@,
                subst@,
                opt_type_v(*expected),
            ),
        decreases arm, 1int,
    {
        proof {
            un_l_arm(self@, arm@, subject@, env@, subst@, opt_type_v(*expected));
        }
        let ghost av = match_arm_v(*arm);
        let (pattern, bs) = self.lower_pattern(&arm.pattern, subject)?;
        let mut penv = env.copy();
        bind_names(&mut penv, bs);
        let guard = self.lower_guard(&arm.guard, &mut penv, subst)?;
        let (b2, bt) = self.lower_expr(&arm.body, &mut penv, subst, expected)?;
        let arm2 = MatchArm { pattern, guard, body: Box::new(b2) };
        let ghost rv = match_arm_v(arm2);
        Ok((arm2, bt))
    }

    fn lower_guard(
        &mut self,
        guard: &Option<Box<Expr>>,
        env: &mut StrMap<Type>,
        subst: &StrMap<Type>,
    ) -> (r: Result<Option<Box<Expr>>, CompileError>)
        requires
            emits_instances(old(self)@),
        ensures
            emits_instances(final(self)@),
            grows(old(self)@, final(self)@),
            r is Ok ==> settles(old(self)@, final(self)@),
            (guard_res(r), final(self)@, final(env)@) == l_guard(
                old(self)@,
                opt_box_v(*guard),
                old(env)@,
                subst@,
            ),
        decreases guard, 0int,
    {
        proof {
            un_l_guard(self@, opt_box_v(*guard), env@, subst@);
        }
        match guard {
            None => Ok(None),
            Some(g) => {
                let (g2, t) = self.lower_expr(g, env, subst, &None)?;
                Ok(Some(Box::new(g2)))
            },
        }
    }

    fn lower_if(
        &mut self,
        expr: &Expr,
        env: &mut StrMap<Type>,
        subst: &StrMap<Type>,
        expected: &Option<Type>,
    ) -> (r: Result<(Expr, Type), CompileError>)
        requires
            emits_instances(old(self)@),
        ensures
            emits_instances(final(self)@),
            grows(old(self)@, final(self)@),
            r is Ok ==> settles(old(self)@, final(self)@),
            (expr_res(r), final(self)@, final(env)@) == l_if(
                old(self)@,
                expr@,
                old(env)@,
                subst@,
                opt_type_v(*expected),
            ),
        decreases expr, 1int,
    {
        proof {
            un_l_if(self@, expr@, env@, subst@, opt_type_v(*expected));
        }
        let ghost g = expr_v(*expr);
        let ghost k = expr_kind_v(expr.kind);
        match &expr.kind {
            ExprKind::If { cond, then_branch, else_branch } => {
                let (c2, ct) = self.lower_expr(cond, env, subst, &None)?;
                let (t2, tt) = self.lower_block(then_branch, env, subst, expected)?;
                let ghost tv = type_v(tt);
                let (e2, et): (Option<Block>, Type) = match else_branch {
                    None => (None, Type::Unit),
                    Some(b) => {
                        let (e2, et) = self.lower_block(b, env, subst, expected)?;
                        (Some(e2), et)
                    },
                };
                let kind = ExprKind::If {
                    cond: Box::new(c2),
                    then_branch: t2,
                    else_branch: e2,
                };
                let ghost rk = expr_kind_v(kind);
                let t = if matches!(tt, Type::Never) {
                    et
                } else {
                    tt
                };
                Ok((Expr::new(kind, expr.span), t))
            },
            _ => Ok((expr.dup(), Type::Unit)),
        }
    }

    fn lower_loop(&mut self, expr: &Expr, env: &mut StrMap<Type>, subst: &StrMap<Type>) -> (r:
        Result<(Expr, Type), CompileError>)
        requires
            emits_instances(old(self)@),
        ensures
            emits_instances(final(self)@),
            grows(old(self)@, final(self)@),
            r is Ok ==> settles(old(self)@, final(self)@),
            (expr_res(r), final(self)@, final(env)@) == l_loop(
                old(self)@,
                expr@,
                old(env)@,
                subst@,
            ),
        decreases expr, 1int,
    {
        proof {
            un_l_loop(self@, expr@, env@, subst@);
        }
        let ghost g = expr_v(*expr);
        let ghost k = expr_kind_v(expr.kind);
        match &expr.kind {
            ExprKind::While { cond, body } => {
                let (c2, ct) = self.lower_expr(cond, env, subst, &None)?;
                let (b2, bt) = self.lower_block(body, env, subst, &None)?;
                let kind = ExprKind::While { cond: Box::new(c2), body: b2 };
                let ghost rk = expr_kind_v(kind);
                Ok((Expr::new(kind, expr.span), Type::Unit))
            },
            ExprKind::For { var, iter, body } => {
                let (i2, it) = self.lower_expr(iter, env, subst, &None)?;
                let mut benv = env.copy();
                benv.insert(var, Type::Unit);
                let (b2, bt) = self.lower_block(body, &benv, subst, &None)?;
                let kind = ExprKind::For { var: var.clone(), iter: Box::new(i2), body: b2 };
                let ghost rk = expr_kind_v(kind);
                Ok((Expr::new(kind, expr.span), Type::Unit))
            },
            _ => Ok((expr.dup(), Type::Unit)),
        }
    }
}

// ------------------------------------------------------------------------ functions

spec fn params_res(r: Result<Vec<Param>, CompileError>) -> Result<Seq<ParamV>, CompileErrorV> {
    match r {
        Ok(v) => Ok(params_v(v@)),
        Err(e) => Err(e@),
    }
}

spec fn functions_res(r: Result<Vec<Function>, CompileError>) -> Result<
    Seq<FunctionV>,
    CompileErrorV,
> {
    match r {
        Ok(v) => Ok(functions_v(v@)),
        Err(e) => Err(e@),
    }
}

spec fn opt_expr_res(r: Result<Option<Expr>, CompileError>) -> Result<Option<ExprV>, CompileErrorV> {
    match r {
        Ok(x) => Ok(opt_expr_v(x)),
        Err(e) => Err(e@),
    }
}

spec fn unit_res(r: Result<(), CompileError>) -> Result<(), CompileErrorV> {
    match r {
        Ok(_) => Ok(()),
        Err(e) => Err(e@),
    }
}

/// The type of the first parameter of the name of the parameter at `k`.
fn type_of_param(ps: &Vec<Param>, k: usize) -> (r: Type)
    requires
        k < ps.len(),
    ensures
        r@ == param_type(params_v(ps@), ps[k as int].name@, 0),
{
    let ghost name = ps[k as int].name@;
    let mut i: usize = 0;
    while i < k
        invariant
            i <= k < ps.len(),
            name == ps[k as int].name@,
            param_type(params_v(ps@), name, 0) == param_type(params_v(ps@), name, i as int),
        decreases k - i,
    {
        let ghost pv = param_v(ps[i as int]);
        if str_eq(&ps[i].name, &ps[k].name) {
            return ps[i].ty.dup();
        }
        i = i + 1;
    }
    let ghost pv = param_v(ps[k as int]);
    ps[k].ty.dup()
}

impl Mono {
    fn lower_value(
        &mut self,
        value: &Option<Expr>,
        subst: &StrMap<Type>,
        expected: &Option<Type>,
    ) -> (r: Result<Option<Expr>, CompileError>)
        requires
            emits_instances(old(self)@),
        ensures
            emits_instances(final(self)@),
            grows(old(self)@, final(self)@),
            r is Ok ==> settles(old(self)@, final(self)@),
            expected is None ==> (opt_expr_res(r), final(self)@) == l_default(
                old(self)@,
                opt_expr_v(*value),
                subst@,
            ),
            subst@ == Map::<Seq<char>, TypeV>::empty() ==> (opt_expr_res(r), final(self)@)
                == l_value(old(self)@, opt_expr_v(*value), opt_type_v(*expected)),
    {
        match value {
            None => Ok(None),
            Some(x) => {
                let mut env: StrMap<Type> = StrMap::new();
                let (x2, t) = self.lower_expr(x, &mut env, subst, expected)?;
                Ok(Some(x2))
            },
        }
    }

    fn lower_params(&mut self, ps: &Vec<Param>, subst: &StrMap<Type>) -> (r: Result<
        Vec<Param>,
        CompileError,
    >)
        requires
            emits_instances(old(self)@),
        ensures
            emits_instances(final(self)@),
            grows(old(self)@, final(self)@),
            r is Ok ==> settles(old(self)@, final(self)@),
            (params_res(r), final(self)@) == l_params(
                old(self)@,
                params_v(ps@),
                0,
                subst@,
                Seq::empty(),
            ),
    {
        let mut out: Vec<Param> = Vec::new();
        let mut i: usize = 0;
        while i < ps.len()
            invariant
                i <= ps.len(),
                emits_instances(self@),
                grows(old(self)@, self@),
                settles(old(self)@, self@),
                l_params(old(self)@, params_v(ps@), 0, subst@, Seq::empty()) == l_params(
                    self@,
                    params_v(ps@),
                    i as int,
                    subst@,
                    params_v(out@),
                ),
            decreases ps.len() - i,
        {
            let ghost pv = param_v(ps[i as int]);
            let t = self.infer_type(&ps[i].ty, subst)?;
            let default = self.lower_value(&ps[i].default, subst, &None)?;
            let p = Param {
                name: ps[i].name.clone(),
                ty: self.emit_type(&t),
                named: ps[i].named,
                default,
                span: ps[i].span,
            };
            let ghost rv = param_v(p);
            out.push(p);
            i = i + 1;
        }
        Ok(out)
    }

    /// The scope of a function with its parameters.
    fn scope_of(&mut self, ps: &Vec<Param>, subst: &StrMap<Type>) -> (r: Result<
        StrMap<Type>,
        CompileError,
    >)
        requires
            emits_instances(old(self)@),
        ensures
            emits_instances(final(self)@),
            grows(old(self)@, final(self)@),
            r is Ok ==> settles(old(self)@, final(self)@),
            (res_v(r), final(self)@) == l_scope(
                old(self)@,
                params_v(ps@),
                0,
                subst@,
                Map::empty(),
            ),
    {
        let mut env: StrMap<Type> = StrMap::new();
        let mut i: usize = 0;
        while i < ps.len()
            invariant
                i <= ps.len(),
                emits_instances(self@),
                grows(old(self)@, self@),
                settles(old(self)@, self@),
                l_scope(old(self)@, params_v(ps@), 0, subst@, Map::empty()) == l_scope(
                    self@,
                    params_v(ps@),
                    i as int,
                    subst@,
                    env@,
                ),
            decreases ps.len() - i,
        {
            let ghost pv = param_v(ps[i as int]);
            let written = type_of_param(ps, i);
            let t = self.infer_type(&written, subst)?;
            env.insert(&ps[i].name, t);
            i = i + 1;
        }
        Ok(env)
    }

    fn lower_body(&mut self, f: &Function, subst: &StrMap<Type>, ret: Type) -> (r: Result<
        Block,
        CompileError,
    >)
        requires
            emits_instances(old(self)@),
        ensures
            emits_instances(final(self)@),
            grows(old(self)@, final(self)@),
            r is Ok ==> settles(old(self)@, final(self)@),
            (res_v(r), final(self)@) == l_body(old(self)@, f@, subst@, ret@),
    {
        let ghost fv = function_v(*f);
        let env = self.scope_of(&f.params, subst)?;
        let mut saved: Option<Type> = Some(ret.dup());
        let ghost st1 = self@;
        std::mem::swap(&mut saved, &mut self.cur_ret);
        proof {
            lemma_same_output(st1, self@);
        }
        let (body, t) = self.lower_block(&f.body, &env, subst, &Some(ret))?;
        let ghost st2 = self@;
        self.cur_ret = saved;
        proof {
            lemma_same_output(st2, self@);
        }
        Ok(body)
    }

    /// A function instantiated with these types under this name.
    fn lower_function(&mut self, f: &Function, args: &Vec<Type>, name: &str) -> (r: Result<
        Function,
        CompileError,
    >)
        requires
            emits_instances(old(self)@),
        ensures
            emits_instances(final(self)@),
            grows(old(self)@, final(self)@),
            r is Ok ==> settles(old(self)@, final(self)@),
            (res_v(r), final(self)@) == l_function(old(self)@, f@, types_v(args@), name@),
            r is Ok ==> r->Ok_0@.generics.len() == 0,
    {
        let ghost fv = function_v(*f);
        let m = subst_map(&f.generics, args);
        let params = self.lower_params(&f.params, &m)?;
        let ret = self.infer_type(&f.return_type, &m)?;
        let return_type = self.emit_type(&ret);
        let body = self.lower_body(f, &m, ret)?;
        let out = Function {
            name: name.to_owned(),
            generics: Vec::new(),
            params,
            return_type,
            body,
            is_pub: f.is_pub,
            span: f.span,
        };
        let ghost rv = function_v(out);
        Ok(out)
    }

    fn lower_methods(&mut self, ms: &Vec<Function>) -> (r: Result<Vec<Function>, CompileError>)
        requires
            emits_instances(old(self)@),
        ensures
            emits_instances(final(self)@),
            grows(old(self)@, final(self)@),
            r is Ok ==> settles(old(self)@, final(self)@),
            (functions_res(r), final(self)@) == l_methods(
                old(self)@,
                functions_v(ms@),
                0,
                Seq::empty(),
            ),
            r is Ok ==> are_plain(functions_v(r->Ok_0@)),
    {
        let mut out: Vec<Function> = Vec::new();
        let none: Vec<Type> = Vec::new();
        let mut i: usize = 0;
        while i < ms.len()
            invariant
                i <= ms.len(),
                emits_instances(self@),
                grows(old(self)@, self@),
                settles(old(self)@, self@),
                are_plain(functions_v(out@)),
                types_v(none@) == Seq::<TypeV>::empty(),
                l_methods(old(self)@, functions_v(ms@), 0, Seq::empty()) == l_methods(
                    self@,
                    functions_v(ms@),
                    i as int,
                    functions_v(out@),
                ),
            decreases ms.len() - i,
        {
            let ghost mv = function_v(ms[i as int]);
            let f = self.lower_function(&ms[i], &none, &ms[i].name)?;
            out.push(f);
            i = i + 1;
        }
        Ok(out)
    }

    fn lower_plain_params(&mut self, ps: &Vec<Param>) -> (r: Result<Vec<Param>, CompileError>)
        requires
            emits_instances(old(self)@),
        ensures
            emits_instances(final(self)@),
            grows(old(self)@, final(self)@),
            r is Ok ==> settles(old(self)@, final(self)@),
            (params_res(r), final(self)@) == l_plain_params(
                old(self)@,
                params_v(ps@),
                0,
                Seq::empty(),
            ),
    {
        let mut out: Vec<Param> = Vec::new();
        let nothing: StrMap<Type> = StrMap::new();
        let mut i: usize = 0;
        while i < ps.len()
            invariant
                i <= ps.len(),
                emits_instances(self@),
                grows(old(self)@, self@),
                settles(old(self)@, self@),
                nothing@ == Map::<Seq<char>, TypeV>::empty(),
                l_plain_params(old(self)@, params_v(ps@), 0, Seq::empty()) == l_plain_params(
                    self@,
                    params_v(ps@),
                    i as int,
                    params_v(out@),
                ),
            decreases ps.len() - i,
        {
            let ghost pv = param_v(ps[i as int]);
            let t = self.infer_type(&ps[i].ty, &nothing)?;
            let p = Param {
                name: ps[i].name.clone(),
                ty: self.emit_type(&t),
                named: ps[i].named,
                default: None,
                span: ps[i].span,
            };
            let ghost rv = param_v(p);
            out.push(p);
            i = i + 1;
        }
        Ok(out)
    }

    /// The signature of a method of a trait.
    fn lower_signature(&mut self, f: &Function) -> (r: Result<Function, CompileError>)
        requires
            emits_instances(old(self)@),
        ensures
            emits_instances(final(self)@),
            grows(old(self)@, final(self)@),
            r is Ok ==> settles(old(self)@, final(self)@),
            (res_v(r), final(self)@) == l_signature(old(self)@, f@),
            r is Ok ==> r->Ok_0@.generics.len() == 0,
    {
        let ghost fv = function_v(*f);
        let params = self.lower_plain_params(&f.params)?;
        let ret = self.infer_type(&f.return_type, &StrMap::new())?;
        let body = Block { stmts: Vec::new(), span: f.span };
        let ghost bv = block_v(body);
        let out = Function {
            name: f.name.clone(),
            generics: Vec::new(),
            params,
            return_type: self.emit_type(&ret),
            body,
            is_pub: f.is_pub,
            span: f.span,
        };
        let ghost rv = function_v(out);
        Ok(out)
    }

    fn lower_signatures(&mut self, ms: &Vec<Function>) -> (r: Result<Vec<Function>, CompileError>)
        requires
            emits_instances(old(self)@),
        ensures
            emits_instances(final(self)@),
            grows(old(self)@, final(self)@),
            r is Ok ==> settles(old(self)@, final(self)@),
            (functions_res(r), final(self)@) == l_signatures(
                old(self)@,
                functions_v(ms@),
                0,
                Seq::empty(),
            ),
            r is Ok ==> are_plain(functions_v(r->Ok_0@)),
    {
        let mut out: Vec<Function> = Vec::new();
        let mut i: usize = 0;
        while i < ms.len()
            invariant
                i <= ms.len(),
                emits_instances(self@),
                grows(old(self)@, self@),
                settles(old(self)@, self@),
                are_plain(functions_v(out@)),
                l_signatures(old(self)@, functions_v(ms@), 0, Seq::empty()) == l_signatures(
                    self@,
                    functions_v(ms@),
                    i as int,
                    functions_v(out@),
                ),
            decreases ms.len() - i,
        {
            let f = self.lower_signature(&ms[i])?;
            out.push(f);
            i = i + 1;
        }
        Ok(out)
    }
}

// ------------------------------------------------------------------------- modules

impl Mono {
    fn seed_variable(&mut self, v: &VarDecl) -> (r: Result<(), CompileError>)
        requires
            emits_instances(old(self)@),
        ensures
            emits_instances(final(self)@),
            grows(old(self)@, final(self)@),
            r is Ok ==> settles(old(self)@, final(self)@),
            (unit_res(r), final(self)@) == seed_var(old(self)@, v@),
    {
        let ghost vv = var_decl_v(*v);
        let nothing: StrMap<Type> = StrMap::new();
        let ann = self.infer_annotation(&v.ty, &nothing)?;
        let value = self.lower_value(&v.value, &nothing, &ann)?;
        let out = VarDecl {
            name: v.name.clone(),
            ty: self.emit_annotation(&ann),
            value,
            is_mut: v.is_mut,
            span: v.span,
        };
        let ghost rv = var_decl_v(out);
        let ghost before = self@;
        self.out_vars.push(out);
        proof {
            lemma_same_output(before, self@);
        }
        Ok(())
    }

    fn seed_trait_def(&mut self, t: &TraitDef) -> (r: Result<(), CompileError>)
        requires
            emits_instances(old(self)@),
        ensures
            emits_instances(final(self)@),
            grows(old(self)@, final(self)@),
            r is Ok ==> settles(old(self)@, final(self)@),
            (unit_res(r), final(self)@) == seed_trait(old(self)@, t@),
    {
        let ghost tv = trait_def_v(*t);
        let methods = self.lower_signatures(&t.methods)?;
        let out = TraitDef {
            name: t.name.clone(),
            generics: Vec::new(),
            self_alias: dup_opt_str(&t.self_alias),
            methods,
            span: t.span,
        };
        let ghost rv = trait_def_v(out);
        proof {
            lemma_push_trait(self@, out@);
        }
        self.out_traits.push(out);
        Ok(())
    }

    fn seed_impl_block(&mut self, b: &ImplBlock) -> (r: Result<(), CompileError>)
        requires
            emits_instances(old(self)@),
        ensures
            emits_instances(final(self)@),
            grows(old(self)@, final(self)@),
            r is Ok ==> settles(old(self)@, final(self)@),
            (unit_res(r), final(self)@) == seed_impl(old(self)@, b@),
    {
        let ghost bv = impl_block_v(*b);
        let target = self.infer_type(&b.target_type, &StrMap::new())?;
        let target_type = self.emit_type(&target);
        let methods = self.lower_methods(&b.methods)?;
        let out = ImplBlock {
            trait_name: b.trait_name.clone(),
            generics: Vec::new(),
            target_type,
            methods,
            span: b.span,
        };
        let ghost rv = impl_block_v(out);
        proof {
            lemma_push_impl(self@, out@);
        }
        self.out_impls.push(out);
        Ok(())
    }

    /// An item that is not generic, instantiated or emitted.
    fn seed_one(&mut self, item: &Item) -> (r: Result<(), CompileError>)
        requires
            emits_instances(old(self)@),
        ensures
            emits_instances(final(self)@),
            grows(old(self)@, final(self)@),
            r is Ok ==> settles(old(self)@, final(self)@),
            (unit_res(r), final(self)@) == seed_item(old(self)@, item@),
            r is Ok && is_plain(item@) ==> is_asked(final(self)@, item@),
    {
        let ghost iv = item_v(*item);
        match item {
            Item::Struct(s) => {
                let ghost sv = struct_v(*s);
                if s.generics.len() == 0 {
                    let none: Vec<Type> = Vec::new();
                    assert(types_v(none@) =~= Seq::empty());
                    self.instantiate_struct(DEPTH_LIMIT, &s.name, &none)?;
                }
            },
            Item::Enum(e) => {
                let ghost ev = enum_v(*e);
                if e.generics.len() == 0 {
                    let none: Vec<Type> = Vec::new();
                    assert(types_v(none@) =~= Seq::empty());
                    self.instantiate_enum(DEPTH_LIMIT, &e.name, &none)?;
                }
            },
            Item::Function(f) => {
                let ghost fv = function_v(*f);
                if f.generics.len() == 0 {
                    let none: Vec<Type> = Vec::new();
                    assert(types_v(none@) =~= Seq::empty());
                    self.instantiate_function(&f.name, &none)?;
                }
            },
            Item::VarDecl(v) => {
                self.seed_variable(v)?;
            },
            Item::Trait(t) => {
                self.seed_trait_def(t)?;
            },
            Item::Impl(b) => {
                self.seed_impl_block(b)?;
            },
            Item::Macro(_) => {
                proof {
                    lemma_push_misc(self@, item@);
                }
                self.out_misc.push(item.dup());
            },
            Item::MacroCall(_) => {
                proof {
                    lemma_push_misc(self@, item@);
                }
                self.out_misc.push(item.dup());
            },
            Item::TypeAlias(_) => {},
        }
        Ok(())
    }

    /// Every item that is not generic, instantiated or emitted.
    fn seed(&mut self, items: &Vec<Item>) -> (r: Result<(), CompileError>)
        requires
            emits_instances(old(self)@),
            old(self)@ == tables_from(blank(), items_v(items@), 0),
        ensures
            emits_instances(final(self)@),
            grows(old(self)@, final(self)@),
            r is Ok ==> settles(old(self)@, final(self)@),
            (unit_res(r), final(self)@) == seed_items(old(self)@, items_v(items@), 0),
            r is Ok ==> asks_for(final(self)@, items_v(items@), items.len() as int),
            r is Ok ==> asked_by_items(items_v(items@), final(self)@),
    {
        proof {
            reveal(asked_by_items);
            lemma_no_keys(blank(), items_v(items@), 0);
        }
        let mut i: usize = 0;
        while i < items.len()
            invariant
                i <= items.len(),
                emits_instances(self@),
                grows(old(self)@, self@),
                settles(old(self)@, self@),
                asks_for(self@, items_v(items@), i as int),
                old(self)@ == tables_from(blank(), items_v(items@), 0),
                asked_by_items(items_v(items@), self@),
                seed_items(old(self)@, items_v(items@), 0) == seed_items(
                    self@,
                    items_v(items@),
                    i as int,
                ),
            decreases items.len() - i,
        {
            let ghost st = self@;
            self.seed_one(&items[i])?;
            i = i + 1;
            proof {
                reveal(grows);
                lemma_still_asked(st, self@, items_v(items@), i - 1);
                lemma_item_asked(items_v(items@), st, self@, i - 1);
            }
        }
        Ok(())
    }

    /// The bodies that wait, lowered in turn.
    fn process_queue(&mut self) -> (r: Result<(), CompileError>)
        requires
            emits_instances(old(self)@),
            serves(old(self)@),
            settles(blank(), old(self)@),
        ensures
            emits_instances(final(self)@),
            (unit_res(r), final(self)@) == drain(depth_limit(), old(self)@),
            r is Ok ==> {
                &&& final(self)@.structs == old(self)@.structs
                &&& final(self)@.enums == old(self)@.enums
                &&& final(self)@.functions == old(self)@.functions
                &&& begins_with(final(self)@.struct_keys, old(self)@.struct_keys)
                &&& begins_with(final(self)@.enum_keys, old(self)@.enum_keys)
                &&& begins_with(final(self)@.fn_keys, old(self)@.fn_keys)
                &&& serves(final(self)@)
                &&& settles(blank(), final(self)@)
                &&& asked_by_bodies(old(self)@, final(self)@)
                &&& final(self)@.queue.len() == 0
            },
    {
        let mut n: u64 = DEPTH_LIMIT;
        proof {
            reveal(asked_by_bodies);
        }
        while self.queue.len() > 0
            invariant
                emits_instances(self@),
                serves(self@),
                asked_by_bodies(old(self)@, self@),
                settles(blank(), self@),
                self@.structs == old(self)@.structs,
                self@.enums == old(self)@.enums,
                self@.functions == old(self)@.functions,
                begins_with(self@.struct_keys, old(self)@.struct_keys),
                begins_with(self@.enum_keys, old(self)@.enum_keys),
                begins_with(self@.fn_keys, old(self)@.fn_keys),
                drain(depth_limit(), old(self)@) == drain(n as nat, self@),
            decreases n,
        {
            let ghost st = self@;
            assert(st.queue[0] == self.queue[0]@);
            if n == 0 {
                return Err(
                    CompileError::Generic("too many instances of generic functions".to_owned()),
                );
            }
            let next = self.queue.remove(0);
            assert(list_v(self.queue@) =~= st.queue.drop_first());
            let ghost st1 = self@;
            proof {
                lemma_popped(st);
                assert(st.fn_keys.contains((st.queue[0].0, st.queue[0].1))) by {
                    reveal(emits_instances);
                }
            }
            let f: Option<Function> = match self.functions.get(&next.name) {
                Some(list) => {
                    let ghost fv = functions_v(list.functions@);
                    if next.index < list.functions.len() {
                        Some(list.functions[next.index].dup())
                    } else {
                        None
                    }
                },
                None => None,
            };
            match f {
                None => {
                    return Err(
                        CompileError::Generic(cat3("unknown function '", &next.name, "'")),
                    );
                },
                Some(f) => {
                    let name = mangle(&next.name, &next.args);
                    let out = self.lower_function(&f, &next.args, &name)?;
                    proof {
                        lemma_stays_named(st1, self@, st.queue[0].0, st.queue[0].1);
                        lemma_push_function(self@, out@);
                        lemma_serves_next(st, self@, out@);
                        reveal(grows);
                        lemma_body_asked(old(self)@, st, self@, out@);
                    }
                    let ghost st2 = self@;
                    self.out_functions.push(out);
                    assert(settles(st, st1) && settles(st1, st2) && settles(st2, self@));
                },
            }
            n = n - 1;
        }
        Ok(())
    }

    fn new() -> (r: Self)
        ensures
            r@ == blank(),
            emits_instances(r@),
    {
        let r = Mono {
            structs: StrMap::new(),
            enums: StrMap::new(),
            enum_order: Vec::new(),
            functions: StrMap::new(),
            aliases: StrMap::new(),
            struct_keys: Vec::new(),
            enum_keys: Vec::new(),
            fn_keys: Vec::new(),
            out_structs: Vec::new(),
            out_enums: Vec::new(),
            out_functions: Vec::new(),
            out_traits: Vec::new(),
            out_impls: Vec::new(),
            out_vars: Vec::new(),
            out_misc: Vec::new(),
            queue: Vec::new(),
            cur_ret: None,
        };
        proof {
            reveal(emits_instances);
        }
        r
    }

    fn collect_tables(&mut self, items: &Vec<Item>)
        requires
            emits_instances(old(self)@),
        ensures
            emits_instances(final(self)@),
            final(self)@ == tables_from(old(self)@, items_v(items@), 0),
    {
        let mut i: usize = 0;
        while i < items.len()
            invariant
                i <= items.len(),
                emits_instances(self@),
                tables_from(old(self)@, items_v(items@), 0) == tables_from(
                    self@,
                    items_v(items@),
                    i as int,
                ),
            decreases items.len() - i,
        {
            let ghost st = self@;
            let ghost iv = item_v(items[i as int]);
            match &items[i] {
                Item::Struct(s) => {
                    let ghost sv = struct_v(*s);
                    self.structs.insert(&s.name, s.dup());
                },
                Item::Enum(e) => {
                    let ghost ev = enum_v(*e);
                    self.enums.insert(&e.name, e.dup());
                    self.enum_order.push(e.name.clone());
                },
                Item::Function(f) => {
                    let ghost fv = function_v(*f);
                    let mut list: FunctionList = match self.functions.get(&f.name) {
                        Some(l) => l.copy(),
                        None => FunctionList { functions: Vec::new() },
                    };
                    list.functions.push(f.dup());
                    self.functions.insert(&f.name, list);
                },
                Item::TypeAlias(a) => {
                    let ghost av = type_alias_v(*a);
                    self.aliases.insert(&a.name, a.dup());
                },
                _ => {},
            }
            proof {
                lemma_tabled(st, iv);
            }
            i = i + 1;
        }
    }

    /// What was emitted, kind by kind.
    fn build_items(&self) -> (r: Vec<Item>)
        ensures
            items_v(r@) == emitted_items(self@),
    {
        let mut out: Vec<Item> = Vec::new();
        let ghost st = self@;
        push_structs(&mut out, &self.out_structs);
        push_enums(&mut out, &self.out_enums);
        push_traits(&mut out, &self.out_traits);
        push_impls(&mut out, &self.out_impls);
        push_functions(&mut out, &self.out_functions);
        push_vars(&mut out, &self.out_vars);
        push_items(&mut out, &self.out_misc);
        assert(items_v(out@) =~= emitted_items(st));
        out
    }

    /// The module in which every generic item is replaced by its instances: no item of
    /// it has a parameter of type, nor has a method; every struct, enum and function of it is
    /// an instance of one that was there, and is asked for by an item that is not generic or
    /// by the body of an emitted function; every one that was not generic is still there, and
    /// structs and enums have names of their own.
    pub fn lower(module: &Module) -> (r: Result<Module, CompileError>)
        ensures
            res_v(r) == lowered_module(module@),
            r is Ok ==> forall|i: int|
                0 <= i < r->Ok_0@.items.len() ==> is_concrete(#[trigger] r->Ok_0@.items[i])
                    && is_instance(module@.items, r->Ok_0@.items[i]),
            r is Ok ==> forall|j: int|
                0 <= j < module@.items.len() && is_plain(#[trigger] module@.items[j])
                    ==> is_kept(r->Ok_0@.items, module@.items[j]),
            r is Ok ==> names_differ(r->Ok_0@.items),
            r is Ok ==> forall|i: int|
                0 <= i < r->Ok_0@.items.len() ==> is_needed(
                    module@.items,
                    r->Ok_0@.items,
                    #[trigger] r->Ok_0@.items[i],
                ),
    {
        let ghost mv = module_v(*module);
        let mut m = Mono::new();
        m.collect_tables(&module.items);
        let ghost st0 = m@;
        m.seed(&module.items)?;
        let ghost st1 = m@;
        proof {
            lemma_no_keys(blank(), mv.items, 0);
            lemma_serves_first(st0, st1);
            assert(settles(blank(), st0));
        }
        m.process_queue()?;
        proof {
            reveal(grows);
            lemma_still_asked(st1, m@, mv.items, mv.items.len() as int);
            lemma_emitted(mv.items, st0, m@);
            lemma_needed(mv.items, st1, m@);
        }
        let out = Module {
            name: module.name.clone(),
            imports: dup_imports(&module.imports),
            items: m.build_items(),
        };
        let ghost rv = module_v(out);
        Ok(out)
    }
}

fn push_structs(out: &mut Vec<Item>, v: &Vec<Struct>)
    ensures
        items_v(final(out)@) == items_v(old(out)@) + Seq::new(
            list_v(v@).len(),
            |i: int| ItemV::Struct(list_v(v@)[i]),
        ),
{
    let ghost start = items_v(out@);
    let ghost more = Seq::new(list_v(v@).len(), |i: int| ItemV::Struct(list_v(v@)[i]));
    let mut i: usize = 0;
    assert(items_v(out@) =~= start + more.take(0));
    while i < v.len()
        invariant
            i <= v.len(),
            more == Seq::new(list_v(v@).len(), |i: int| ItemV::Struct(list_v(v@)[i])),
            items_v(out@) == start + more.take(i as int),
        decreases v.len() - i,
    {
        let item = Item::Struct(v[i].dup());
        let ghost iv = item_v(item);
        let ghost before = items_v(out@);
        assert(iv == more[i as int]);
        out.push(item);
        assert(items_v(out@) == before.push(iv));
        assert(more.take(i + 1) =~= more.take(i as int).push(iv));
        i = i + 1;
        assert(items_v(out@) =~= start + more.take(i as int));
    }
    assert(more.take(i as int) =~= more);
}

fn push_enums(out: &mut Vec<Item>, v: &Vec<Enum>)
    ensures
        items_v(final(out)@) == items_v(old(out)@) + Seq::new(
            list_v(v@).len(),
            |i: int| ItemV::Enum(list_v(v@)[i]),
        ),
{
    let ghost start = items_v(out@);
    let ghost more = Seq::new(list_v(v@).len(), |i: int| ItemV::Enum(list_v(v@)[i]));
    let mut i: usize = 0;
    assert(items_v(out@) =~= start + more.take(0));
    while i < v.len()
        invariant
            i <= v.len(),
            more == Seq::new(list_v(v@).len(), |i: int| ItemV::Enum(list_v(v@)[i])),
            items_v(out@) == start + more.take(i as int),
        decreases v.len() - i,
    {
        let item = Item::Enum(v[i].dup());
        let ghost iv = item_v(item);
        let ghost before = items_v(out@);
        assert(iv == more[i as int]);
        out.push(item);
        assert(items_v(out@) == before.push(iv));
        assert(more.take(i + 1) =~= more.take(i as int).push(iv));
        i = i + 1;
        assert(items_v(out@) =~= start + more.take(i as int));
    }
    assert(more.take(i as int) =~= more);
}

fn push_traits(out: &mut Vec<Item>, v: &Vec<TraitDef>)
    ensures
        items_v(final(out)@) == items_v(old(out)@) + Seq::new(
            list_v(v@).len(),
            |i: int| ItemV::Trait(list_v(v@)[i]),
        ),
{
    let ghost start = items_v(out@);
    let ghost more = Seq::new(list_v(v@).len(), |i: int| ItemV::Trait(list_v(v@)[i]));
    let mut i: usize = 0;
    assert(items_v(out@) =~= start + more.take(0));
    while i < v.len()
        invariant
            i <= v.len(),
            more == Seq::new(list_v(v@).len(), |i: int| ItemV::Trait(list_v(v@)[i])),
            items_v(out@) == start + more.take(i as int),
        decreases v.len() - i,
    {
        let item = Item::Trait(v[i].dup());
        let ghost iv = item_v(item);
        let ghost before = items_v(out@);
        assert(iv == more[i as int]);
        out.push(item);
        assert(items_v(out@) == before.push(iv));
        assert(more.take(i + 1) =~= more.take(i as int).push(iv));
        i = i + 1;
        assert(items_v(out@) =~= start + more.take(i as int));
    }
    assert(more.take(i as int) =~= more);
}

fn push_impls(out: &mut Vec<Item>, v: &Vec<ImplBlock>)
    ensures
        items_v(final(out)@) == items_v(old(out)@) + Seq::new(
            list_v(v@).len(),
            |i: int| ItemV::Impl(list_v(v@)[i]),
        ),
{
    let ghost start = items_v(out@);
    let ghost more = Seq::new(list_v(v@).len(), |i: int| ItemV::Impl(list_v(v@)[i]));
    let mut i: usize = 0;
    assert(items_v(out@) =~= start + more.take(0));
    while i < v.len()
        invariant
            i <= v.len(),
            more == Seq::new(list_v(v@).len(), |i: int| ItemV::Impl(list_v(v@)[i])),
            items_v(out@) == start + more.take(i as int),
        decreases v.len() - i,
    {
        let item = Item::Impl(v[i].dup());
        let ghost iv = item_v(item);
        let ghost before = items_v(out@);
        assert(iv == more[i as int]);
        out.push(item);
        assert(items_v(out@) == before.push(iv));
        assert(more.take(i + 1) =~= more.take(i as int).push(iv));
        i = i + 1;
        assert(items_v(out@) =~= start + more.take(i as int));
    }
    assert(more.take(i as int) =~= more);
}

fn push_functions(out: &mut Vec<Item>, v: &Vec<Function>)
    ensures
        items_v(final(out)@) == items_v(old(out)@) + Seq::new(
            list_v(v@).len(),
            |i: int| ItemV::Function(list_v(v@)[i]),
        ),
{
    let ghost start = items_v(out@);
    let ghost more = Seq::new(list_v(v@).len(), |i: int| ItemV::Function(list_v(v@)[i]));
    let mut i: usize = 0;
    assert(items_v(out@) =~= start + more.take(0));
    while i < v.len()
        invariant
            i <= v.len(),
            more == Seq::new(list_v(v@).len(), |i: int| ItemV::Function(list_v(v@)[i])),
            items_v(out@) == start + more.take(i as int),
        decreases v.len() - i,
    {
        let item = Item::Function(v[i].dup());
        let ghost iv = item_v(item);
        let ghost before = items_v(out@);
        assert(iv == more[i as int]);
        out.push(item);
        assert(items_v(out@) == before.push(iv));
        assert(more.take(i + 1) =~= more.take(i as int).push(iv));
        i = i + 1;
        assert(items_v(out@) =~= start + more.take(i as int));
    }
    assert(more.take(i as int) =~= more);
}

fn push_vars(out: &mut Vec<Item>, v: &Vec<VarDecl>)
    ensures
        items_v(final(out)@) == items_v(old(out)@) + Seq::new(
            list_v(v@).len(),
            |i: int| ItemV::VarDecl(list_v(v@)[i]),
        ),
{
    let ghost start = items_v(out@);
    let ghost more = Seq::new(list_v(v@).len(), |i: int| ItemV::VarDecl(list_v(v@)[i]));
    let mut i: usize = 0;
    assert(items_v(out@) =~= start + more.take(0));
    while i < v.len()
        invariant
            i <= v.len(),
            more == Seq::new(list_v(v@).len(), |i: int| ItemV::VarDecl(list_v(v@)[i])),
            items_v(out@) == start + more.take(i as int),
        decreases v.len() - i,
    {
        let item = Item::VarDecl(v[i].dup());
        let ghost iv = item_v(item);
        let ghost before = items_v(out@);
        assert(iv == more[i as int]);
        out.push(item);
        assert(items_v(out@) == before.push(iv));
        assert(more.take(i + 1) =~= more.take(i as int).push(iv));
        i = i + 1;
        assert(items_v(out@) =~= start + more.take(i as int));
    }
    assert(more.take(i as int) =~= more);
}

fn push_items(out: &mut Vec<Item>, v: &Vec<Item>)
    ensures
        items_v(final(out)@) == items_v(old(out)@) + list_v(v@),
{
    let ghost start = items_v(out@);
    let mut i: usize = 0;
    assert(items_v(out@) =~= start + list_v(v@).take(0));
    while i < v.len()
        invariant
            i <= v.len(),
            items_v(out@) == start + list_v(v@).take(i as int),
        decreases v.len() - i,
    {
        out.push(v[i].dup());
        i = i + 1;
        assert(items_v(out@) =~= start + list_v(v@).take(i as int));
    }
    assert(list_v(v@).take(i as int) =~= list_v(v@));
}

// ------------------------------------------------------------------- editor support

/// Where an arm begins.
fn start_of_arm(arm: &MatchArm) -> (r: usize)
    ensures
        r == arm_start(arm@),
{
    let ghost av = match_arm_v(*arm);
    let ghost pv = pattern_v(arm.pattern);
    let ghost bv = expr_v(*arm.body);
    let p: usize = arm.pattern.span.start;
    let b: usize = arm.body.span.start;
    let m: usize = if p <= b {
        p
    } else {
        b
    };
    match &arm.guard {
        None => m,
        Some(g) => {
            let ghost gv = expr_v(**g);
            if g.span.start < m {
                g.span.start
            } else {
                m
            }
        },
    }
}

/// How many arms begin before `offset`, up to the first that does not.
fn count_arms_before(arms: &Vec<MatchArm>, offset: usize) -> (r: usize)
    ensures
        r == arms_before(match_arms_v(arms@), offset as int, 0),
        r <= arms.len(),
{
    let mut i: usize = 0;
    while i < arms.len() && start_of_arm(&arms[i]) < offset
        invariant
            i <= arms.len(),
            arms_before(match_arms_v(arms@), offset as int, 0) == arms_before(
                match_arms_v(arms@),
                offset as int,
                i as int,
            ),
        decreases arms.len() - i,
    {
        i = i + 1;
    }
    i
}

impl Mono {
    /// The bindings of the statements that begin before `offset`, as far as they go.
    fn collect_bindings_before(
        &mut self,
        stmts: &Vec<Expr>,
        offset: usize,
        env: &mut StrMap<Type>,
    )
        requires
            emits_instances(old(self)@),
        ensures
            emits_instances(final(self)@),
            grows(old(self)@, final(self)@),
            (final(self)@, final(env)@) == seen_stmts(
                old(self)@,
                exprs_v(stmts@),
                0,
                offset as int,
                old(env)@,
            ),
        decreases stmts, 0int,
    {
        let mut i: usize = 0;
        while i < stmts.len()
            invariant
                i <= stmts.len(),
                emits_instances(self@),
                grows(old(self)@, self@),
                seen_stmts(old(self)@, exprs_v(stmts@), 0, offset as int, old(env)@)
                    == seen_stmts(self@, exprs_v(stmts@), i as int, offset as int, env@),
            decreases stmts.len() - i,
        {
            proof {
                un_seen_stmts(self@, exprs_v(stmts@), i as int, offset as int, env@);
            }
            let ghost sv = expr_v(stmts[i as int]);
            if stmts[i].span.start >= offset {
                return;
            }
            self.collect_stmt_bindings(&stmts[i], offset, env);
            i = i + 1;
        }
        proof {
            un_seen_stmts(self@, exprs_v(stmts@), i as int, offset as int, env@);
        }
    }

    fn collect_stmt_bindings(&mut self, stmt: &Expr, offset: usize, env: &mut StrMap<Type>)
        requires
            emits_instances(old(self)@),
        ensures
            emits_instances(final(self)@),
            grows(old(self)@, final(self)@),
            (final(self)@, final(env)@) == seen_stmt(
                old(self)@,
                stmt@,
                offset as int,
                old(env)@,
            ),
        decreases stmt, 0int,
    {
        proof {
            un_seen_stmt(self@, stmt@, offset as int, env@);
        }
        let ghost g = expr_v(*stmt);
        let ghost k = expr_kind_v(stmt.kind);
        match &stmt.kind {
            ExprKind::Let { name, ty, value, is_mut } => {
                match ty {
                    Some(t) => {
                        env.insert(name, t.dup());
                    },
                    None => {
                        let lowered = self.lower_expr(value, env, &StrMap::new(), &None);
                        if let Ok((v2, t)) = lowered {
                            env.insert(name, t);
                        }
                    },
                }
            },
            ExprKind::Block(b) => {
                let ghost bv = block_v(*b);
                self.collect_bindings_before(&b.stmts, offset, env);
            },
            ExprKind::If { cond, then_branch, else_branch } => {
                let ghost tv = block_v(*then_branch);
                self.collect_bindings_before(&then_branch.stmts, offset, env);
                if let Some(b) = else_branch {
                    let ghost bv = block_v(*b);
                    self.collect_bindings_before(&b.stmts, offset, env);
                }
            },
            ExprKind::While { cond, body } => {
                let ghost bv = block_v(*body);
                self.collect_bindings_before(&body.stmts, offset, env);
            },
            ExprKind::For { var, iter, body } => {
                let ghost bv = block_v(*body);
                self.collect_bindings_before(&body.stmts, offset, env);
            },
            ExprKind::Match { expr, arms } => {
                let lowered = self.lower_expr(expr, env, &StrMap::new(), &None);
                let n = count_arms_before(arms, offset);
                if let Ok((s2, subject)) = lowered {
                    if n > 0 {
                        self.collect_arm_bindings(&arms[n - 1], &subject, offset, env);
                    }
                }
            },
            _ => {},
        }
    }

    fn collect_arm_bindings(
        &mut self,
        arm: &MatchArm,
        subject: &Type,
        offset: usize,
        env: &mut StrMap<Type>,
    )
        requires
            emits_instances(old(self)@),
        ensures
            emits_instances(final(self)@),
            grows(old(self)@, final(self)@),
            (final(self)@, final(env)@) == seen_arm(
                old(self)@,
                arm@,
                subject@,
                offset as int,
                old(env)@,
            ),
        decreases arm, 0int,
    {
        proof {
            un_seen_arm(self@, arm@, subject@, offset as int, env@);
        }
        let ghost av = match_arm_v(*arm);
        let ghost bv = expr_v(*arm.body);
        let ghost bk = expr_kind_v(arm.body.kind);
        let lowered = self.lower_pattern(&arm.pattern, subject);
        if let Ok((p2, bs)) = lowered {
            bind_names(env, bs);
        }
        if let ExprKind::Block(b) = &arm.body.kind {
            let ghost kv = block_v(*b);
            self.collect_bindings_before(&b.stmts, offset, env);
        }
    }

    /// The type of a variable that is visible at `offset` in a function of a module, with
    /// the shape it has in the source (`Pair[Bool, Int]`).
    pub fn infer_var_type_at(module: &Module, f: &Function, name: &str, offset: usize) -> (r: Option<
        Type,
    >)
        ensures
            opt_type_v(r) == var_type_at(module@, f@, name@, offset as int),
    {
        let ghost mv = module_v(*module);
        let ghost fv = function_v(*f);
        let ghost bv = block_v(f.body);
        let mut mono = Mono::new();
        mono.collect_tables(&module.items);
        let mut env: StrMap<Type> = StrMap::new();
        let mut i: usize = 0;
        while i < f.params.len()
            invariant
                i <= f.params.len(),
                written_scope(params_v(f.params@), 0, Map::empty()) == written_scope(
                    params_v(f.params@),
                    i as int,
                    env@,
                ),
            decreases f.params.len() - i,
        {
            let ghost pv = param_v(f.params[i as int]);
            env.insert(&f.params[i].name, f.params[i].ty.dup());
            i = i + 1;
        }
        mono.collect_bindings_before(&f.body.stmts, offset, &mut env);
        match env.get(name) {
            Some(t) => Some(t.dup()),
            None => None,
        }
    }
}

} // verus!
