//! Monomorphization as a function: from a module to the module in which every
//! generic item is replaced by its instances.
use vstd::prelude::*;
use crate::ast::{BinOp, UnaryOp};
use crate::error::CompileErrorV;
use crate::model::{
    BlockV, EnumCaseV, EnumV, ExprKindV, ExprV, FunctionTypeV, FunctionV, GenericParamV, ImplBlockV,
    ItemV, MatchArmV, ModuleV, ParamV, PathSegmentV, PathV, PatternKindV, PatternV, StructFieldV,
    StructV, TraitDefV, TypeAliasV, TypeV, VarDeclV,
};
use crate::token::Span;

verus! {

use crate::ast::{call_expr, ident_expr, named_type, type_text};
use crate::codegen::dispatch::text_before;
use crate::error::type_error;
use crate::maps::lookup;
use crate::paths::{applied_type, last_args, path_key};
use crate::text::{join_v, nat_text};
use crate::token::zero_span;
use crate::typeck::{arg_slots, field_of};

/// From names to types.
pub type Subst = Map<Seq<char>, TypeV>;

/// A name with the types it is instantiated with.
pub type Key = (Seq<char>, Seq<TypeV>);

/// The tables of a module and what has been instantiated and emitted so far.
#[verifier::ext_equal]
pub struct MonoV {
    pub structs: Map<Seq<char>, StructV>,
    pub enums: Map<Seq<char>, EnumV>,
    /// The names of the enums in declaration order.
    pub enum_order: Seq<Seq<char>>,
    pub functions: Map<Seq<char>, Seq<FunctionV>>,
    pub aliases: Map<Seq<char>, TypeAliasV>,
    pub struct_keys: Seq<Key>,
    pub enum_keys: Seq<Key>,
    pub fn_keys: Seq<Key>,
    /// In the order of their names.
    pub out_structs: Seq<StructV>,
    /// In the order of their names.
    pub out_enums: Seq<EnumV>,
    pub out_functions: Seq<FunctionV>,
    pub out_traits: Seq<TraitDefV>,
    pub out_impls: Seq<ImplBlockV>,
    pub out_vars: Seq<VarDeclV>,
    pub out_misc: Seq<ItemV>,
    /// The bodies that wait: name, types, and which overload.
    pub queue: Seq<(Seq<char>, Seq<TypeV>, int)>,
    /// The result type of the function that is being lowered.
    pub cur_ret: Option<TypeV>,
}

// ------------------------------------------------------------------ substitution

/// A type with the names of the substitution replaced, wherever one stands alone.
pub open spec fn subst_type(t: TypeV, m: Subst) -> TypeV
    decreases t, 0int,
{
    match t {
        TypeV::Path(p) => if p.segments.len() == 1 && p.segments[0].args.len() == 0
            && m.contains_key(p.segments[0].name) {
            m[p.segments[0].name]
        } else {
            TypeV::Path(PathV { segments: subst_segments(p.segments, m) })
        },
        TypeV::GcRef(inner) => TypeV::GcRef(Box::new(subst_type(*inner, m))),
        TypeV::Function(ft) => TypeV::Function(
            FunctionTypeV {
                params: subst_types(ft.params, m),
                ret: Box::new(subst_type(*ft.ret, m)),
            },
        ),
        TypeV::Tuple(ts) => TypeV::Tuple(subst_types(ts, m)),
        TypeV::Unit => TypeV::Unit,
        TypeV::Never => TypeV::Never,
    }
}

pub open spec fn subst_types(ts: Seq<TypeV>, m: Subst) -> Seq<TypeV>
    decreases ts, 0int,
{
    Seq::new(
        ts.len(),
        |i: int|
            if 0 <= i < ts.len() {
                subst_type(ts[i], m)
            } else {
                arbitrary()
            },
    )
}

pub open spec fn subst_segments(segs: Seq<PathSegmentV>, m: Subst) -> Seq<PathSegmentV>
    decreases segs, 0int,
{
    Seq::new(
        segs.len(),
        |i: int|
            if 0 <= i < segs.len() {
                PathSegmentV { name: segs[i].name, args: subst_types(segs[i].args, m) }
            } else {
                arbitrary()
            },
    )
}

/// Substituting nothing changes nothing.
pub proof fn law_subst_nothing(t: TypeV)
    ensures
        subst_type(t, Map::empty()) == t,
    decreases t, 0int,
{
    match t {
        TypeV::Path(p) => {
            lemma_subst_nothing_segments(p.segments);
        },
        TypeV::GcRef(inner) => {
            law_subst_nothing(*inner);
        },
        TypeV::Function(ft) => {
            lemma_subst_nothing_types(ft.params);
            law_subst_nothing(*ft.ret);
        },
        TypeV::Tuple(ts) => {
            lemma_subst_nothing_types(ts);
        },
        _ => {},
    }
}

proof fn lemma_subst_nothing_types(ts: Seq<TypeV>)
    ensures
        subst_types(ts, Map::empty()) == ts,
    decreases ts, 0int,
{
    assert forall|i: int| 0 <= i < ts.len() implies subst_type(ts[i], Map::empty()) == ts[i] by {
        law_subst_nothing(ts[i]);
    }
    assert(subst_types(ts, Map::empty()) =~= ts);
}

proof fn lemma_subst_nothing_segments(segs: Seq<PathSegmentV>)
    ensures
        subst_segments(segs, Map::empty()) == segs,
    decreases segs, 0int,
{
    assert forall|i: int| 0 <= i < segs.len() implies subst_types(segs[i].args, Map::empty())
        == segs[i].args by {
        lemma_subst_nothing_types(segs[i].args);
    }
    assert(subst_segments(segs, Map::empty()) =~= segs);
}

/// Each generic parameter from `i` on with its argument.
pub open spec fn bind_generics(gs: Seq<GenericParamV>, args: Seq<TypeV>, i: int, m: Subst) -> Subst
    decreases gs.len() - i,
{
    if 0 <= i < gs.len() && i < args.len() {
        bind_generics(gs, args, i + 1, m.insert(gs[i].name, args[i]))
    } else {
        m
    }
}

/// The substitution that instantiates generic parameters.
pub open spec fn generic_subst(gs: Seq<GenericParamV>, args: Seq<TypeV>) -> Subst {
    bind_generics(gs, args, 0, Map::empty())
}

/// The names of generic parameters.
pub open spec fn generic_names(gs: Seq<GenericParamV>) -> Seq<Seq<char>> {
    Seq::new(gs.len(), |i: int| gs[i].name)
}

// ----------------------------------------------------------------------- mangling

pub open spec fn mangled_ident(n: Seq<char>) -> Seq<char> {
    if n == "Int"@ {
        "int"@
    } else if n == "Float"@ {
        "double"@
    } else if n == "Bool"@ {
        "bool"@
    } else if n == "String"@ {
        "string"@
    } else if n == "Char"@ {
        "char"@
    } else {
        n
    }
}

/// A type as a part of a name.
pub open spec fn mangled_type(t: TypeV) -> Seq<char>
    decreases t, 0int,
{
    match t {
        TypeV::Path(p) => if p.segments.len() > 0 {
            mangled_args(p.segments.last().args, 0, mangled_ident(p.segments.last().name))
        } else {
            Seq::empty()
        },
        TypeV::GcRef(inner) => "gc__"@ + mangled_type(*inner),
        TypeV::Function(_) => "fn"@,
        TypeV::Tuple(_) => "tuple"@,
        TypeV::Unit => "unit"@,
        TypeV::Never => "never"@,
    }
}

/// `acc` and then the types from `i` on, each behind two underscores.
pub open spec fn mangled_args(ts: Seq<TypeV>, i: int, acc: Seq<char>) -> Seq<char>
    decreases ts, ts.len() - i,
{
    if 0 <= i < ts.len() {
        mangled_args(ts, i + 1, acc + "__"@ + mangled_type(ts[i]))
    } else {
        acc
    }
}

/// The name of an instance.
pub open spec fn mangled(name: Seq<char>, args: Seq<TypeV>) -> Seq<char> {
    mangled_args(args, 0, name)
}

// --------------------------------------------------------------------- output

/// Where a struct of this name stands in the order of names.
pub open spec fn struct_place(ss: Seq<StructV>, name: Seq<char>, i: int) -> int
    decreases ss.len() - i,
{
    if 0 <= i < ss.len() && text_before(ss[i].name, name, 0) {
        struct_place(ss, name, i + 1)
    } else {
        i
    }
}

/// One more struct in the order of names; one of the same name gives way.
pub open spec fn put_struct(ss: Seq<StructV>, s: StructV) -> Seq<StructV> {
    let i = struct_place(ss, s.name, 0);
    if i < ss.len() && ss[i].name == s.name {
        ss.update(i, s)
    } else {
        ss.insert(i, s)
    }
}

/// Where an enum of this name stands in the order of names.
pub open spec fn enum_place(es: Seq<EnumV>, name: Seq<char>, i: int) -> int
    decreases es.len() - i,
{
    if 0 <= i < es.len() && text_before(es[i].name, name, 0) {
        enum_place(es, name, i + 1)
    } else {
        i
    }
}

/// One more enum in the order of names; one of the same name gives way.
pub open spec fn put_enum(es: Seq<EnumV>, e: EnumV) -> Seq<EnumV> {
    let i = enum_place(es, e.name, 0);
    if i < es.len() && es[i].name == e.name {
        es.update(i, e)
    } else {
        es.insert(i, e)
    }
}

// -------------------------------------------------------------- concrete types

/// The name of the instance of a struct or an enum, if there is one.
pub open spec fn instance_name(st: MonoV, p: PathV) -> Option<Seq<char>> {
    let key = (path_key(p), last_args(p));
    if last_args(p).len() > 0 && (st.struct_keys.contains(key) || st.enum_keys.contains(key)) {
        Some(mangled(key.0, key.1))
    } else {
        None
    }
}

/// A concrete type as it is emitted: instances by their names.
pub open spec fn emitted(st: MonoV, t: TypeV) -> TypeV
    decreases t, 0int,
{
    match t {
        TypeV::Path(p) => match instance_name(st, p) {
            Some(n) => named_type(n),
            None => TypeV::Path(PathV { segments: emitted_segments(st, p.segments) }),
        },
        TypeV::GcRef(inner) => TypeV::GcRef(Box::new(emitted(st, *inner))),
        TypeV::Function(ft) => TypeV::Function(
            FunctionTypeV {
                params: emitted_types(st, ft.params),
                ret: Box::new(emitted(st, *ft.ret)),
            },
        ),
        TypeV::Tuple(ts) => TypeV::Tuple(emitted_types(st, ts)),
        TypeV::Unit => TypeV::Unit,
        TypeV::Never => TypeV::Never,
    }
}

pub open spec fn emitted_types(st: MonoV, ts: Seq<TypeV>) -> Seq<TypeV>
    decreases ts, 0int,
{
    Seq::new(
        ts.len(),
        |i: int|
            if 0 <= i < ts.len() {
                emitted(st, ts[i])
            } else {
                arbitrary()
            },
    )
}

pub open spec fn emitted_segments(st: MonoV, segs: Seq<PathSegmentV>) -> Seq<PathSegmentV>
    decreases segs, 0int,
{
    Seq::new(
        segs.len(),
        |i: int|
            if 0 <= i < segs.len() {
                PathSegmentV { name: segs[i].name, args: emitted_types(st, segs[i].args) }
            } else {
                arbitrary()
            },
    )
}

/// How deep type definitions may refer to one another.
pub open spec fn depth_limit() -> nat {
    u64::MAX as nat
}

pub open spec fn too_deep() -> CompileErrorV {
    CompileErrorV::Generic("type definitions nest too deeply"@)
}

pub open spec fn no_type_args(key: Seq<char>) -> CompileErrorV {
    type_error("type '"@ + key + "' takes no type arguments"@, zero_span())
}

pub open spec fn wrong_type_args(key: Seq<char>, want: nat, got: nat) -> CompileErrorV {
    type_error(
        "type '"@ + key + "' expects "@ + nat_text(want) + " type arguments, got "@ + nat_text(got),
        zero_span(),
    )
}

/// A type with its aliases expanded and its structs and enums instantiated.
#[verifier::opaque]
pub open spec fn infer_concrete(fuel: nat, st: MonoV, t: TypeV) -> (
    Result<TypeV, CompileErrorV>,
    MonoV,
)
    decreases fuel, 4int, t, 1int,
{
    match t {
        TypeV::Path(p) => {
            let key = path_key(p);
            match lookup(st.aliases, key) {
                Some(a) => if fuel == 0 {
                    (Err(too_deep()), st)
                } else {
                    infer_concrete(
                        (fuel - 1) as nat,
                        st,
                        subst_type(a.ty, generic_subst(a.generics, last_args(p))),
                    )
                },
                None => {
                    let (r, st1) = infer_last_args(fuel, st, p);
                    match r {
                        Err(e) => (Err(e), st1),
                        Ok(args) => match lookup(st1.structs, key) {
                            Some(s) => infer_struct(fuel, st1, key, s, args),
                            None => match lookup(st1.enums, key) {
                                Some(e) => infer_enum(fuel, st1, key, e, args),
                                None => {
                                    let (r2, st2) = infer_segments(
                                        fuel,
                                        st1,
                                        p.segments,
                                        0,
                                        Seq::empty(),
                                    );
                                    match r2 {
                                        Err(e) => (Err(e), st2),
                                        Ok(segments) => (
                                            Ok(TypeV::Path(PathV { segments })),
                                            st2,
                                        ),
                                    }
                                },
                            },
                        },
                    }
                },
            }
        },
        TypeV::GcRef(inner) => {
            let (r, st1) = infer_concrete(fuel, st, *inner);
            match r {
                Err(e) => (Err(e), st1),
                Ok(x) => (Ok(TypeV::GcRef(Box::new(x))), st1),
            }
        },
        TypeV::Function(ft) => {
            let (r, st1) = infer_types(fuel, st, ft.params, 0, Seq::empty());
            match r {
                Err(e) => (Err(e), st1),
                Ok(params) => {
                    let (r2, st2) = infer_concrete(fuel, st1, *ft.ret);
                    match r2 {
                        Err(e) => (Err(e), st2),
                        Ok(ret) => (
                            Ok(TypeV::Function(FunctionTypeV { params, ret: Box::new(ret) })),
                            st2,
                        ),
                    }
                },
            }
        },
        TypeV::Tuple(ts) => {
            let (r, st1) = infer_types(fuel, st, ts, 0, Seq::empty());
            match r {
                Err(e) => (Err(e), st1),
                Ok(xs) => (Ok(TypeV::Tuple(xs)), st1),
            }
        },
        TypeV::Unit => (Ok(TypeV::Unit), st),
        TypeV::Never => (Ok(TypeV::Never), st),
    }
}

/// The arguments of the last segment of a path, made concrete.
#[verifier::opaque]
pub open spec fn infer_last_args(fuel: nat, st: MonoV, p: PathV) -> (
    Result<Seq<TypeV>, CompileErrorV>,
    MonoV,
)
    decreases fuel, 4int, p, 0int,
{
    if p.segments.len() > 0 {
        infer_types(fuel, st, p.segments[p.segments.len() - 1].args, 0, Seq::empty())
    } else {
        (Ok(Seq::empty()), st)
    }
}

/// The types from `i` on made concrete, behind those of `acc`.
#[verifier::opaque]
pub open spec fn infer_types(fuel: nat, st: MonoV, ts: Seq<TypeV>, i: int, acc: Seq<TypeV>) -> (
    Result<Seq<TypeV>, CompileErrorV>,
    MonoV,
)
    decreases fuel, 4int, ts, ts.len() - i,
{
    if 0 <= i < ts.len() {
        let (r, st1) = infer_concrete(fuel, st, ts[i]);
        match r {
            Err(e) => (Err(e), st1),
            Ok(t) => infer_types(fuel, st1, ts, i + 1, acc.push(t)),
        }
    } else {
        (Ok(acc), st)
    }
}

/// The segments from `i` on with their arguments made concrete, behind those of `acc`.
#[verifier::opaque]
pub open spec fn infer_segments(
    fuel: nat,
    st: MonoV,
    segs: Seq<PathSegmentV>,
    i: int,
    acc: Seq<PathSegmentV>,
) -> (Result<Seq<PathSegmentV>, CompileErrorV>, MonoV)
    decreases fuel, 4int, segs, segs.len() - i,
{
    if 0 <= i < segs.len() {
        let (r, st1) = infer_types(fuel, st, segs[i].args, 0, Seq::empty());
        match r {
            Err(e) => (Err(e), st1),
            Ok(args) => infer_segments(
                fuel,
                st1,
                segs,
                i + 1,
                acc.push(PathSegmentV { name: segs[i].name, args }),
            ),
        }
    } else {
        (Ok(acc), st)
    }
}

/// The type of a member of an instance, as it is emitted.
#[verifier::opaque]
pub open spec fn infer_emitted(fuel: nat, st: MonoV, t: TypeV) -> (
    Result<TypeV, CompileErrorV>,
    MonoV,
)
    decreases fuel, 0int, TypeV::Unit, 0int,
{
    if fuel == 0 {
        (Err(too_deep()), st)
    } else {
        let (r, st1) = infer_concrete((fuel - 1) as nat, st, t);
        match r {
            Err(e) => (Err(e), st1),
            Ok(x) => (Ok(emitted(st1, x)), st1),
        }
    }
}

/// A struct with its arguments: the right number, and instantiated.
#[verifier::opaque]
pub open spec fn infer_struct(fuel: nat, st: MonoV, key: Seq<char>, s: StructV, args: Seq<TypeV>) -> (
    Result<TypeV, CompileErrorV>,
    MonoV,
)
    decreases fuel, 3int, TypeV::Unit, 0int,
{
    if s.generics.len() == 0 && args.len() > 0 {
        (Err(no_type_args(key)), st)
    } else if s.generics.len() != args.len() {
        (Err(wrong_type_args(key, s.generics.len(), args.len())), st)
    } else {
        let (r, st1) = make_struct(fuel, st, s.name, args);
        match r {
            Err(e) => (Err(e), st1),
            Ok(_) => (Ok(applied_type(s.name, args)), st1),
        }
    }
}

/// An enum with its arguments: the right number, and instantiated.
#[verifier::opaque]
pub open spec fn infer_enum(fuel: nat, st: MonoV, key: Seq<char>, e: EnumV, args: Seq<TypeV>) -> (
    Result<TypeV, CompileErrorV>,
    MonoV,
)
    decreases fuel, 3int, TypeV::Unit, 0int,
{
    if e.generics.len() == 0 && args.len() > 0 {
        (Err(no_type_args(key)), st)
    } else if e.generics.len() != args.len() {
        (Err(wrong_type_args(key, e.generics.len(), args.len())), st)
    } else {
        let (r, st1) = make_enum(fuel, st, e.name, args);
        match r {
            Err(err) => (Err(err), st1),
            Ok(_) => (Ok(applied_type(e.name, args)), st1),
        }
    }
}

/// The name of an instance of a struct, which is emitted unless it was before.
#[verifier::opaque]
pub open spec fn make_struct(fuel: nat, st: MonoV, name: Seq<char>, args: Seq<TypeV>) -> (
    Result<Seq<char>, CompileErrorV>,
    MonoV,
)
    decreases fuel, 2int, TypeV::Unit, 0int,
{
    if st.struct_keys.contains((name, args)) {
        (Ok(mangled(name, args)), st)
    } else {
        match lookup(st.structs, name) {
            None => (Err(CompileErrorV::Generic("unknown struct '"@ + name + "'"@)), st),
            Some(s) => {
                let st1 = MonoV { struct_keys: st.struct_keys.push((name, args)), ..st };
                let (r, st2) = make_fields(
                    fuel,
                    st1,
                    s.fields,
                    generic_subst(s.generics, args),
                    0,
                    Seq::empty(),
                );
                match r {
                    Err(e) => (Err(e), st2),
                    Ok(fields) => (
                        Ok(mangled(name, args)),
                        MonoV {
                            out_structs: put_struct(
                                st2.out_structs,
                                StructV {
                                    name: mangled(name, args),
                                    generics: Seq::empty(),
                                    fields,
                                    is_pub: s.is_pub,
                                    span: s.span,
                                },
                            ),
                            ..st2
                        },
                    ),
                }
            },
        }
    }
}

/// The fields from `i` on with concrete types, behind those of `acc`.
#[verifier::opaque]
pub open spec fn make_fields(
    fuel: nat,
    st: MonoV,
    fs: Seq<StructFieldV>,
    m: Subst,
    i: int,
    acc: Seq<StructFieldV>,
) -> (Result<Seq<StructFieldV>, CompileErrorV>, MonoV)
    decreases fuel, 1int, TypeV::Unit, fs.len() - i,
{
    if 0 <= i < fs.len() {
        let (r, st1) = infer_emitted(fuel, st, subst_type(fs[i].ty, m));
        match r {
            Err(e) => (Err(e), st1),
            Ok(ty) => make_fields(
                fuel,
                st1,
                fs,
                m,
                i + 1,
                acc.push(StructFieldV { name: fs[i].name, ty, span: fs[i].span }),
            ),
        }
    } else {
        (Ok(acc), st)
    }
}

/// The name of an instance of an enum, which is emitted unless it was before.
#[verifier::opaque]
pub open spec fn make_enum(fuel: nat, st: MonoV, name: Seq<char>, args: Seq<TypeV>) -> (
    Result<Seq<char>, CompileErrorV>,
    MonoV,
)
    decreases fuel, 2int, TypeV::Unit, 0int,
{
    if st.enum_keys.contains((name, args)) {
        (Ok(mangled(name, args)), st)
    } else {
        match lookup(st.enums, name) {
            None => (Err(CompileErrorV::Generic("unknown enum '"@ + name + "'"@)), st),
            Some(e) => {
                let st1 = MonoV { enum_keys: st.enum_keys.push((name, args)), ..st };
                let (r, st2) = make_cases(
                    fuel,
                    st1,
                    e.cases,
                    generic_subst(e.generics, args),
                    0,
                    Seq::empty(),
                );
                match r {
                    Err(err) => (Err(err), st2),
                    Ok(cases) => (
                        Ok(mangled(name, args)),
                        MonoV {
                            out_enums: put_enum(
                                st2.out_enums,
                                EnumV {
                                    name: mangled(name, args),
                                    generics: Seq::empty(),
                                    cases,
                                    is_pub: e.is_pub,
                                    span: e.span,
                                },
                            ),
                            ..st2
                        },
                    ),
                }
            },
        }
    }
}

/// The cases from `i` on with concrete payloads, behind those of `acc`.
#[verifier::opaque]
pub open spec fn make_cases(
    fuel: nat,
    st: MonoV,
    cs: Seq<EnumCaseV>,
    m: Subst,
    i: int,
    acc: Seq<EnumCaseV>,
) -> (Result<Seq<EnumCaseV>, CompileErrorV>, MonoV)
    decreases fuel, 1int, TypeV::Unit, cs.len() - i,
{
    if 0 <= i < cs.len() {
        match cs[i].payload {
            None => make_cases(fuel, st, cs, m, i + 1, acc.push(cs[i])),
            Some(pt) => {
                let (r, st1) = infer_emitted(fuel, st, subst_type(pt, m));
                match r {
                    Err(e) => (Err(e), st1),
                    Ok(ty) => make_cases(
                        fuel,
                        st1,
                        cs,
                        m,
                        i + 1,
                        acc.push(
                            EnumCaseV { name: cs[i].name, payload: Some(ty), span: cs[i].span },
                        ),
                    ),
                }
            },
        }
    } else {
        (Ok(acc), st)
    }
}

/// A type under a substitution, made concrete.
pub open spec fn infer_in(st: MonoV, t: TypeV, m: Subst) -> (Result<TypeV, CompileErrorV>, MonoV) {
    infer_concrete(depth_limit(), st, subst_type(t, m))
}

/// An optional annotation under a substitution, made concrete.
pub open spec fn infer_opt(st: MonoV, t: Option<TypeV>, m: Subst) -> (
    Result<Option<TypeV>, CompileErrorV>,
    MonoV,
) {
    match t {
        None => (Ok(None), st),
        Some(t) => {
            let (r, st1) = infer_in(st, t, m);
            match r {
                Err(e) => (Err(e), st1),
                Ok(x) => (Ok(Some(x)), st1),
            }
        },
    }
}

/// An optional annotation as it is emitted.
pub open spec fn emitted_opt(st: MonoV, t: Option<TypeV>) -> Option<TypeV> {
    match t {
        None => None,
        Some(t) => Some(emitted(st, t)),
    }
}

/// The overloads from `i` on that have no parameters of type, queued.
pub open spec fn queue_plain(
    fs: Seq<FunctionV>,
    name: Seq<char>,
    i: int,
    q: Seq<(Seq<char>, Seq<TypeV>, int)>,
) -> Seq<(Seq<char>, Seq<TypeV>, int)>
    decreases fs.len() - i,
{
    if 0 <= i < fs.len() {
        queue_plain(
            fs,
            name,
            i + 1,
            if fs[i].generics.len() == 0 {
                q.push((name, Seq::empty(), i))
            } else {
                q
            },
        )
    } else {
        q
    }
}

/// The first overload from `i` on with so many parameters of type.
pub open spec fn generic_overload(fs: Seq<FunctionV>, n: nat, i: int) -> Option<int>
    decreases fs.len() - i,
{
    if 0 <= i < fs.len() {
        if fs[i].generics.len() == n {
            Some(i)
        } else {
            generic_overload(fs, n, i + 1)
        }
    } else {
        None
    }
}

/// The name of an instance of a function, which is queued unless it was before.
pub open spec fn make_function(st: MonoV, name: Seq<char>, args: Seq<TypeV>) -> (
    Result<Seq<char>, CompileErrorV>,
    MonoV,
) {
    if st.fn_keys.contains((name, args)) {
        (Ok(mangled(name, args)), st)
    } else {
        match lookup(st.functions, name) {
            None => (Err(CompileErrorV::Generic("unknown function '"@ + name + "'"@)), st),
            Some(fs) => (
                Ok(mangled(name, args)),
                MonoV {
                    fn_keys: st.fn_keys.push((name, args)),
                    queue: if args.len() == 0 {
                        queue_plain(fs, name, 0, st.queue)
                    } else {
                        match generic_overload(fs, args.len(), 0) {
                            Some(k) => st.queue.push((name, args, k)),
                            None => st.queue,
                        }
                    },
                    ..st
                },
            ),
        }
    }
}

// -------------------------------------------------------------------- unification

/// The variable that a type is, if it is one.
pub open spec fn var_of(t: TypeV, vars: Seq<Seq<char>>) -> Option<Seq<char>> {
    match t {
        TypeV::Path(p) => if p.segments.len() == 1 && p.segments[0].args.len() == 0
            && vars.contains(p.segments[0].name) {
            Some(p.segments[0].name)
        } else {
            None
        },
        _ => None,
    }
}

/// A type, or where it is a bound variable what that stands for, followed over at
/// most `n` bindings.
pub open spec fn follow(n: nat, t: TypeV, vars: Seq<Seq<char>>, s: Subst) -> TypeV
    decreases n,
{
    match var_of(t, vars) {
        Some(v) => if s.contains_key(v) && n > 0 {
            follow((n - 1) as nat, s[v], vars, s)
        } else {
            t
        },
        None => t,
    }
}

/// What a type stands for. No chain of bindings is longer than there are variables.
pub open spec fn resolved(t: TypeV, vars: Seq<Seq<char>>, s: Subst) -> TypeV {
    follow(vars.len(), t, vars, s)
}

/// Whether a name stands in a type.
pub open spec fn occurs(name: Seq<char>, t: TypeV) -> bool
    decreases t, 0int,
{
    match t {
        TypeV::Path(p) => occurs_in_segments(name, p.segments, 0),
        TypeV::GcRef(inner) => occurs(name, *inner),
        TypeV::Function(ft) => occurs_in(name, ft.params, 0) || occurs(name, *ft.ret),
        TypeV::Tuple(ts) => occurs_in(name, ts, 0),
        TypeV::Unit => false,
        TypeV::Never => false,
    }
}

/// Whether a name stands in one of the types from `i` on.
pub open spec fn occurs_in(name: Seq<char>, ts: Seq<TypeV>, i: int) -> bool
    decreases ts, ts.len() - i,
{
    if 0 <= i < ts.len() {
        occurs(name, ts[i]) || occurs_in(name, ts, i + 1)
    } else {
        false
    }
}

/// Whether a name stands in one of the segments from `i` on.
pub open spec fn occurs_in_segments(name: Seq<char>, segs: Seq<PathSegmentV>, i: int) -> bool
    decreases segs, segs.len() - i,
{
    if 0 <= i < segs.len() {
        (segs[i].name == name && segs[i].args.len() == 0) || occurs_in(name, segs[i].args, 0)
            || occurs_in_segments(name, segs, i + 1)
    } else {
        false
    }
}

/// Whether two types were made equal, with the bindings after the attempt.
pub type Unified = (Result<(), Seq<char>>, Subst);

pub open spec fn occurs_message(name: Seq<char>, t: TypeV) -> Seq<char> {
    "occurs check: "@ + name + " in "@ + type_text(t)
}

pub open spec fn differ_message(a: TypeV, b: TypeV) -> Seq<char> {
    type_text(a) + " vs "@ + type_text(b)
}

pub open spec fn deep_message() -> Seq<char> {
    "types nest too deeply"@
}

/// Two types made equal by binding variables.
#[verifier::opaque]
pub open spec fn unify(fuel: nat, a: TypeV, b: TypeV, vars: Seq<Seq<char>>, s: Subst) -> Unified
    decreases fuel, 4int, 0int,
{
    let a1 = resolved(a, vars, s);
    let b1 = resolved(b, vars, s);
    match (var_of(a1, vars), var_of(b1, vars)) {
        (Some(x), y) => if y == Some(x) {
            (Ok(()), s)
        } else if occurs(x, b1) {
            (Err(occurs_message(x, b1)), s)
        } else {
            (Ok(()), s.insert(x, b1))
        },
        (None, Some(y)) => if occurs(y, a1) {
            (Err(occurs_message(y, a1)), s)
        } else {
            (Ok(()), s.insert(y, a1))
        },
        (None, None) => unify_shapes(fuel, a1, b1, vars, s),
    }
}

/// Two types, neither of them a variable, made equal.
#[verifier::opaque]
pub open spec fn unify_shapes(
    fuel: nat,
    a: TypeV,
    b: TypeV,
    vars: Seq<Seq<char>>,
    s: Subst,
) -> Unified
    decreases fuel, 3int, 0int,
{
    match (a, b) {
        (TypeV::Path(p), TypeV::Path(q)) => if p.segments.len() != q.segments.len() {
            (Err(differ_message(a, b)), s)
        } else {
            unify_segments(fuel, a, b, p.segments, q.segments, 0, vars, s)
        },
        (TypeV::GcRef(x), TypeV::GcRef(y)) => unify_part(fuel, *x, *y, vars, s),
        (TypeV::Function(f), TypeV::Function(g)) => if f.params.len() != g.params.len() {
            (Err(differ_message(a, b)), s)
        } else {
            let (r, s1) = unify_types(fuel, f.params, g.params, 0, vars, s);
            match r {
                Err(m) => (Err(m), s1),
                Ok(_) => unify_part(fuel, *f.ret, *g.ret, vars, s1),
            }
        },
        (TypeV::Tuple(xs), TypeV::Tuple(ys)) => if xs.len() != ys.len() {
            (Err(differ_message(a, b)), s)
        } else {
            unify_types(fuel, xs, ys, 0, vars, s)
        },
        (TypeV::Unit, TypeV::Unit) => (Ok(()), s),
        (TypeV::Never, _) => (Ok(()), s),
        (_, TypeV::Never) => (Ok(()), s),
        _ => (Err("cannot unify "@ + type_text(a) + " and "@ + type_text(b)), s),
    }
}

/// Two parts of types made equal.
#[verifier::opaque]
pub open spec fn unify_part(
    fuel: nat,
    a: TypeV,
    b: TypeV,
    vars: Seq<Seq<char>>,
    s: Subst,
) -> Unified
    decreases fuel, 0int, 0int,
{
    if fuel == 0 {
        (Err(deep_message()), s)
    } else {
        unify((fuel - 1) as nat, a, b, vars, s)
    }
}

/// The types from `i` on made equal one by one.
#[verifier::opaque]
pub open spec fn unify_types(
    fuel: nat,
    xs: Seq<TypeV>,
    ys: Seq<TypeV>,
    i: int,
    vars: Seq<Seq<char>>,
    s: Subst,
) -> Unified
    decreases fuel, 1int, xs.len() - i,
{
    if 0 <= i < xs.len() && i < ys.len() {
        let (r, s1) = unify_part(fuel, xs[i], ys[i], vars, s);
        match r {
            Err(m) => (Err(m), s1),
            Ok(_) => unify_types(fuel, xs, ys, i + 1, vars, s1),
        }
    } else {
        (Ok(()), s)
    }
}

/// The segments from `i` on of two paths made equal.
#[verifier::opaque]
pub open spec fn unify_segments(
    fuel: nat,
    a: TypeV,
    b: TypeV,
    xs: Seq<PathSegmentV>,
    ys: Seq<PathSegmentV>,
    i: int,
    vars: Seq<Seq<char>>,
    s: Subst,
) -> Unified
    decreases fuel, 2int, xs.len() - i,
{
    if 0 <= i < xs.len() && i < ys.len() {
        if xs[i].name != ys[i].name || xs[i].args.len() != ys[i].args.len() {
            (Err(differ_message(a, b)), s)
        } else {
            let (r, s1) = unify_types(fuel, xs[i].args, ys[i].args, 0, vars, s);
            match r {
                Err(m) => (Err(m), s1),
                Ok(_) => unify_segments(fuel, a, b, xs, ys, i + 1, vars, s1),
            }
        }
    } else {
        (Ok(()), s)
    }
}

/// The types of the parameters from `i` on made equal to the types of the arguments.
pub open spec fn unify_args(
    ps: Seq<ParamV>,
    ts: Seq<TypeV>,
    i: int,
    vars: Seq<Seq<char>>,
    s: Subst,
) -> Unified
    decreases ps.len() - i,
{
    if 0 <= i < ps.len() && i < ts.len() {
        let (r, s1) = unify(depth_limit(), ps[i].ty, ts[i], vars, s);
        match r {
            Err(m) => (Err(m), s1),
            Ok(_) => unify_args(ps, ts, i + 1, vars, s1),
        }
    } else {
        (Ok(()), s)
    }
}

/// The parameters of type from `i` on bound to the expected arguments; those that do
/// not fit are passed over.
pub open spec fn unify_expected(
    gs: Seq<GenericParamV>,
    ts: Seq<TypeV>,
    i: int,
    vars: Seq<Seq<char>>,
    s: Subst,
) -> Subst
    decreases gs.len() - i,
{
    if 0 <= i < gs.len() && i < ts.len() {
        unify_expected(
            gs,
            ts,
            i + 1,
            vars,
            unify(depth_limit(), named_type(gs[i].name), ts[i], vars, s).1,
        )
    } else {
        s
    }
}

/// What the expected type says of the parameters of the type `name`.
pub open spec fn expected_bindings(
    name: Seq<char>,
    gs: Seq<GenericParamV>,
    exp: Option<TypeV>,
) -> Subst {
    match exp {
        Some(TypeV::Path(p)) => if p.segments.len() > 0 && p.segments.last().name == name
            && p.segments.last().args.len() == gs.len() {
            unify_expected(gs, p.segments.last().args, 0, generic_names(gs), Map::empty())
        } else {
            Map::empty()
        },
        _ => Map::empty(),
    }
}

/// The fields from `i` on made equal to the types of their values.
pub open spec fn unify_fields(
    fs: Seq<StructFieldV>,
    vals: Seq<(Seq<char>, TypeV)>,
    i: int,
    vars: Seq<Seq<char>>,
    s: Subst,
) -> Unified
    decreases vals.len() - i,
{
    if 0 <= i < vals.len() {
        match field_of(fs, vals[i].0, 0) {
            None => unify_fields(fs, vals, i + 1, vars, s),
            Some(t) => {
                let (r, s1) = unify(depth_limit(), t, vals[i].1, vars, s);
                match r {
                    Err(m) => (Err(m), s1),
                    Ok(_) => unify_fields(fs, vals, i + 1, vars, s1),
                }
            },
        }
    } else {
        (Ok(()), s)
    }
}

/// What the parameters of type stand for.
pub open spec fn type_arguments(gs: Seq<GenericParamV>, s: Subst) -> Seq<TypeV> {
    Seq::new(gs.len(), |i: int| resolved(named_type(gs[i].name), generic_names(gs), s))
}

/// Whether one of the types is still a variable.
pub open spec fn has_open(ts: Seq<TypeV>, vars: Seq<Seq<char>>) -> bool {
    exists|i: int| 0 <= i < ts.len() && var_of(#[trigger] ts[i], vars) is Some
}

// ------------------------------------------------------------------------ patterns

/// The payload of the first case of this name from `i` on.
pub open spec fn payload_of(cs: Seq<EnumCaseV>, name: Seq<char>, i: int) -> Option<TypeV>
    decreases cs.len() - i,
{
    if 0 <= i < cs.len() {
        if cs[i].name == name {
            cs[i].payload
        } else {
            payload_of(cs, name, i + 1)
        }
    } else {
        None
    }
}

/// The path of a type, or nothing.
pub open spec fn type_key(t: TypeV) -> Seq<char> {
    match t {
        TypeV::Path(p) => path_key(p),
        _ => Seq::empty(),
    }
}

/// The arguments of a type.
pub open spec fn type_args_of(t: TypeV) -> Seq<TypeV> {
    match t {
        TypeV::Path(p) => last_args(p),
        _ => Seq::empty(),
    }
}

/// The concrete payload of a case of the type of a subject.
pub open spec fn case_payload(st: MonoV, subject: TypeV, case: Seq<char>) -> (
    Result<Option<TypeV>, CompileErrorV>,
    MonoV,
) {
    match lookup(st.enums, type_key(subject)) {
        None => (Ok(None), st),
        Some(e) => infer_opt(
            st,
            payload_of(e.cases, case, 0),
            generic_subst(e.generics, type_args_of(subject)),
        ),
    }
}

/// The path of the emitted type of a subject.
pub open spec fn subject_path(st: MonoV, subject: TypeV) -> Seq<Seq<char>> {
    let n = type_key(emitted(st, subject));
    if n.len() == 0 {
        Seq::empty()
    } else {
        seq![n]
    }
}

/// A pattern for a subject of this type, and the types of the names it binds.
#[verifier::opaque]
pub open spec fn l_pat(st: MonoV, p: PatternV, subject: TypeV) -> (
    Result<(PatternV, Seq<(Seq<char>, TypeV)>), CompileErrorV>,
    MonoV,
)
    decreases p, 0int,
{
    match p.kind {
        PatternKindV::Wildcard => (Ok((p, Seq::empty())), st),
        PatternKindV::Literal(l) => (Ok((p, Seq::empty())), st),
        PatternKindV::Variable { name, is_mut } => (Ok((p, seq![(name, subject)])), st),
        PatternKindV::EnumCtor { path, case, inner } => {
            let (r, st1) = case_payload(st, subject, case);
            match r {
                Err(e) => (Err(e), st1),
                Ok(pt) => match inner {
                    None => (
                        Ok(
                            (
                                PatternV {
                                    kind: PatternKindV::EnumCtor {
                                        path: subject_path(st1, subject),
                                        case,
                                        inner: None,
                                    },
                                    span: p.span,
                                },
                                Seq::empty(),
                            ),
                        ),
                        st1,
                    ),
                    Some(q) => {
                        let (r2, st2) = l_pat(
                            st1,
                            *q,
                            match pt {
                                Some(t) => t,
                                None => TypeV::Unit,
                            },
                        );
                        match r2 {
                            Err(e) => (Err(e), st2),
                            Ok((q2, bs)) => (
                                Ok(
                                    (
                                        PatternV {
                                            kind: PatternKindV::EnumCtor {
                                                path: subject_path(st2, subject),
                                                case,
                                                inner: Some(Box::new(q2)),
                                            },
                                            span: p.span,
                                        },
                                        bs,
                                    ),
                                ),
                                st2,
                            ),
                        }
                    },
                },
            }
        },
        PatternKindV::Struct { path, fields } => {
            let (r, st1) = l_field_pats(st, fields, 0, Seq::empty());
            match r {
                Err(e) => (Err(e), st1),
                Ok(fs) => (
                    Ok(
                        (
                            PatternV {
                                kind: PatternKindV::Struct { path, fields: fs },
                                span: p.span,
                            },
                            Seq::empty(),
                        ),
                    ),
                    st1,
                ),
            }
        },
        PatternKindV::Or(ps) => {
            let (r, st1) = l_pats(st, ps, 0, subject, Seq::empty());
            match r {
                Err(e) => (Err(e), st1),
                Ok(qs) => (
                    Ok((PatternV { kind: PatternKindV::Or(qs), span: p.span }, Seq::empty())),
                    st1,
                ),
            }
        },
    }
}

/// The patterns of fields from `i` on, behind those of `acc`.
#[verifier::opaque]
pub open spec fn l_field_pats(
    st: MonoV,
    fs: Seq<(Seq<char>, PatternV)>,
    i: int,
    acc: Seq<(Seq<char>, PatternV)>,
) -> (Result<Seq<(Seq<char>, PatternV)>, CompileErrorV>, MonoV)
    decreases fs, fs.len() - i,
{
    if 0 <= i < fs.len() {
        let (r, st1) = l_pat(st, fs[i].1, TypeV::Unit);
        match r {
            Err(e) => (Err(e), st1),
            Ok((q, bs)) => l_field_pats(st1, fs, i + 1, acc.push((fs[i].0, q))),
        }
    } else {
        (Ok(acc), st)
    }
}

/// The alternatives from `i` on, behind those of `acc`.
#[verifier::opaque]
pub open spec fn l_pats(st: MonoV, ps: Seq<PatternV>, i: int, subject: TypeV, acc: Seq<PatternV>) -> (
    Result<Seq<PatternV>, CompileErrorV>,
    MonoV,
)
    decreases ps, ps.len() - i,
{
    if 0 <= i < ps.len() {
        let (r, st1) = l_pat(st, ps[i], subject);
        match r {
            Err(e) => (Err(e), st1),
            Ok((q, bs)) => l_pats(st1, ps, i + 1, subject, acc.push(q)),
        }
    } else {
        (Ok(acc), st)
    }
}

/// A scope with the bindings from `i` on.
pub open spec fn bind_all(env: Subst, bs: Seq<(Seq<char>, TypeV)>, i: int) -> Subst
    decreases bs.len() - i,
{
    if 0 <= i < bs.len() {
        bind_all(env.insert(bs[i].0, bs[i].1), bs, i + 1)
    } else {
        env
    }
}

// --------------------------------------------------------------------- expressions

/// The type of a field of a value of this type.
pub open spec fn field_type(st: MonoV, t: TypeV, field: Seq<char>) -> Option<TypeV> {
    match t {
        TypeV::Path(p) => match lookup(st.structs, path_key(p)) {
            Some(s) => if last_args(p).len() != s.generics.len() {
                None
            } else {
                match field_of(s.fields, field, 0) {
                    Some(ft) => Some(subst_type(ft, generic_subst(s.generics, last_args(p)))),
                    None => None,
                }
            },
            None => emitted_field(st.out_structs, path_key(p), field, 0),
        },
        _ => None,
    }
}

/// The type of a field of the first emitted struct of this name from `i` on.
pub open spec fn emitted_field(
    ss: Seq<StructV>,
    name: Seq<char>,
    field: Seq<char>,
    i: int,
) -> Option<TypeV>
    decreases ss.len() - i,
{
    if 0 <= i < ss.len() {
        if ss[i].name == name {
            field_of(ss[i].fields, field, 0)
        } else {
            emitted_field(ss, name, field, i + 1)
        }
    } else {
        None
    }
}

pub open spec fn type_or_unit(t: Option<TypeV>) -> TypeV {
    match t {
        Some(t) => t,
        None => TypeV::Unit,
    }
}

/// The type of the result of an operator.
pub open spec fn operator_type(op: BinOp, lt: TypeV, rt: TypeV) -> TypeV {
    match op {
        BinOp::Add => if lt == named_type("String"@) && rt == named_type("String"@) {
            named_type("String"@)
        } else {
            named_type("Int"@)
        },
        BinOp::Sub | BinOp::Mul | BinOp::Div | BinOp::Mod => named_type("Int"@),
        _ => named_type("Bool"@),
    }
}

/// Whether one of the arguments is named.
pub open spec fn any_named(args: Seq<ExprV>) -> bool {
    exists|i: int| 0 <= i < args.len() && (#[trigger] args[i]).kind is NamedArg
}

/// The types of the arguments in the order of the parameters, where they fit in number
/// and names.
pub open spec fn ordered_types(
    f: FunctionV,
    largs: Seq<ExprV>,
    ts: Seq<TypeV>,
    named: bool,
) -> Option<Seq<TypeV>> {
    if named {
        match arg_slots(f.params, largs) {
            Some(slots) => Some(Seq::new(slots.len(), |i: int| ts[slots[i]])),
            None => None,
        }
    } else if f.params.len() != ts.len() {
        None
    } else {
        Some(ts)
    }
}

pub open spec fn cannot_infer(name: Seq<char>, span: Span) -> CompileErrorV {
    type_error("cannot infer type arguments for '"@ + name + "'"@, span)
}

/// A call of an overload whose parameters fit under the bindings `s`.
pub open spec fn call_instance(
    st: MonoV,
    name: Seq<char>,
    f: FunctionV,
    s: Subst,
    largs: Seq<ExprV>,
    func_span: Span,
    span: Span,
) -> (Result<(ExprV, TypeV), CompileErrorV>, MonoV) {
    let args = type_arguments(f.generics, s);
    if has_open(args, generic_names(f.generics)) {
        (Err(cannot_infer(name, span)), st)
    } else {
        let (r, st1) = if f.generics.len() == 0 {
            (Ok(name), st)
        } else {
            make_function(st, name, args)
        };
        match r {
            Err(e) => (Err(e), st1),
            Ok(callee) => {
                let (r2, st2) = infer_in(st1, f.return_type, generic_subst(f.generics, args));
                match r2 {
                    Err(e) => (Err(e), st2),
                    Ok(ret) => (
                        Ok((call_expr(ident_expr(callee, func_span), largs, span), ret)),
                        st2,
                    ),
                }
            },
        }
    }
}

/// A call of the first overload from `i` on that fits; where none does the call stays
/// as it is.
pub open spec fn call_overload(
    st: MonoV,
    name: Seq<char>,
    fs: Seq<FunctionV>,
    i: int,
    func: ExprV,
    largs: Seq<ExprV>,
    ts: Seq<TypeV>,
    named: bool,
    func_span: Span,
    span: Span,
) -> (Result<(ExprV, TypeV), CompileErrorV>, MonoV)
    decreases fs.len() - i,
{
    if 0 <= i < fs.len() {
        let f = fs[i];
        let next = call_overload(
            st,
            name,
            fs,
            i + 1,
            func,
            largs,
            ts,
            named,
            func_span,
            span,
        );
        match ordered_types(f, largs, ts, named) {
            None => next,
            Some(ordered) => if f.params.len() != ordered.len() {
                next
            } else {
                let (r, s) = unify_args(
                    f.params,
                    ordered,
                    0,
                    generic_names(f.generics),
                    Map::empty(),
                );
                match r {
                    Err(_) => next,
                    Ok(_) => call_instance(st, name, f, s, largs, func_span, span),
                }
            },
        }
    } else {
        (Ok((call_expr(func, largs, span), TypeV::Unit)), st)
    }
}

/// A call whose callee and arguments are lowered.
pub open spec fn call_result(
    st: MonoV,
    callee: ExprV,
    func: ExprV,
    largs: Seq<ExprV>,
    ts: Seq<TypeV>,
    named: bool,
    span: Span,
) -> (Result<(ExprV, TypeV), CompileErrorV>, MonoV) {
    match callee.kind {
        ExprKindV::Ident(name) => if name == "std::to_string"@ {
            (Ok((call_expr(func, largs, span), named_type("String"@))), st)
        } else if name == "print"@ || name == "println"@ || name == "print_int"@ {
            (Ok((call_expr(func, largs, span), TypeV::Unit)), st)
        } else {
            match lookup(st.functions, name) {
                Some(fs) => call_overload(
                    st,
                    name,
                    fs,
                    0,
                    func,
                    largs,
                    ts,
                    named,
                    callee.span,
                    span,
                ),
                None => (Ok((call_expr(func, largs, span), TypeV::Unit)), st),
            }
        },
        _ => (Ok((call_expr(func, largs, span), TypeV::Unit)), st),
    }
}

/// The value given to a field, if one is.
pub open spec fn init_of(fs: Seq<(Seq<char>, ExprV)>, name: Seq<char>, i: int) -> Option<ExprV>
    decreases fs.len() - i,
{
    if 0 <= i < fs.len() {
        if fs[i].0 == name {
            Some(fs[i].1)
        } else {
            init_of(fs, name, i + 1)
        }
    } else {
        None
    }
}

/// The values of the fields from `i` on in the order of declaration.
pub open spec fn in_order(
    decl: Seq<StructFieldV>,
    fs: Seq<(Seq<char>, ExprV)>,
    i: int,
    acc: Seq<(Seq<char>, ExprV)>,
) -> Seq<(Seq<char>, ExprV)>
    decreases decl.len() - i,
{
    if 0 <= i < decl.len() {
        in_order(
            decl,
            fs,
            i + 1,
            match init_of(fs, decl[i].name, 0) {
                Some(v) => acc.push((decl[i].name, v)),
                None => acc,
            },
        )
    } else {
        acc
    }
}

/// The arguments of type of a struct literal.
pub open spec fn struct_arguments(
    key: Seq<char>,
    s: StructV,
    ftypes: Seq<(Seq<char>, TypeV)>,
    exp: Option<TypeV>,
    span: Span,
) -> Result<Seq<TypeV>, CompileErrorV> {
    if s.generics.len() == 0 {
        Ok(Seq::empty())
    } else {
        let vars = generic_names(s.generics);
        let (r, ss) = unify_fields(
            s.fields,
            ftypes,
            0,
            vars,
            expected_bindings(s.name, s.generics, exp),
        );
        match r {
            Err(m) => Err(
                type_error("cannot infer type arguments for '"@ + key + "': "@ + m, span),
            ),
            Ok(_) => if has_open(type_arguments(s.generics, ss), vars) {
                Err(cannot_infer(key, span))
            } else {
                Ok(type_arguments(s.generics, ss))
            },
        }
    }
}

/// A struct literal whose fields are lowered.
pub open spec fn struct_result(
    st: MonoV,
    key: Seq<char>,
    s: StructV,
    lfields: Seq<(Seq<char>, ExprV)>,
    ftypes: Seq<(Seq<char>, TypeV)>,
    exp: Option<TypeV>,
    span: Span,
) -> (Result<(ExprV, TypeV), CompileErrorV>, MonoV) {
    match struct_arguments(key, s, ftypes, exp, span) {
        Err(e) => (Err(e), st),
        Ok(args) => {
            let (r, st1) = make_struct(depth_limit(), st, s.name, args);
            match r {
                Err(e) => (Err(e), st1),
                Ok(name) => (
                    Ok(
                        (
                            ExprV {
                                kind: ExprKindV::StructLit {
                                    path: seq![name],
                                    fields: in_order(s.fields, lfields, 0, Seq::empty()),
                                },
                                span,
                            },
                            applied_type(s.name, args),
                        ),
                    ),
                    st1,
                ),
            }
        },
    }
}

/// Whether an enum has a case of this name.
pub open spec fn has_case(cs: Seq<EnumCaseV>, name: Seq<char>) -> bool {
    exists|i: int| 0 <= i < cs.len() && (#[trigger] cs[i]).name == name
}

/// The first enum from `i` on that has a case of this name.
pub open spec fn enum_with_case(st: MonoV, case: Seq<char>, i: int) -> Option<Seq<char>>
    decreases st.enum_order.len() - i,
{
    if 0 <= i < st.enum_order.len() {
        if st.enums.contains_key(st.enum_order[i]) && has_case(
            st.enums[st.enum_order[i]].cases,
            case,
        ) {
            Some(st.enum_order[i])
        } else {
            enum_with_case(st, case, i + 1)
        }
    } else {
        None
    }
}

/// The enum that a constructor belongs to.
pub open spec fn enum_named(st: MonoV, path: Seq<Seq<char>>, case: Seq<char>) -> Option<Seq<char>> {
    if path.len() > 0 {
        Some(join_v(path, "::"@))
    } else {
        enum_with_case(st, case, 0)
    }
}

/// What the payload and the expected type say of the parameters of an enum.
pub open spec fn enum_bindings(e: EnumV, case: Seq<char>, at: TypeV, exp: Option<TypeV>) -> Unified {
    let s = expected_bindings(e.name, e.generics, exp);
    match payload_of(e.cases, case, 0) {
        Some(p) => if at is Never {
            (Ok(()), s)
        } else {
            unify(depth_limit(), p, at, generic_names(e.generics), s)
        },
        None => (Ok(()), s),
    }
}

pub open spec fn ctor_expr(
    name: Seq<char>,
    case: Seq<char>,
    arg: Option<Box<ExprV>>,
    span: Span,
) -> ExprV {
    ExprV { kind: ExprKindV::EnumCtor { path: seq![name], case, arg }, span }
}

/// A constructor of an enum with these arguments of type.
pub open spec fn enum_instance(
    st: MonoV,
    e: EnumV,
    args: Seq<TypeV>,
    case: Seq<char>,
    larg: Option<Box<ExprV>>,
    span: Span,
) -> (Result<(ExprV, TypeV), CompileErrorV>, MonoV) {
    let (r, st1) = make_enum(depth_limit(), st, e.name, args);
    match r {
        Err(err) => (Err(err), st1),
        Ok(name) => (Ok((ctor_expr(name, case, larg, span), applied_type(e.name, args))), st1),
    }
}

/// A constructor whose argument, of type `at`, is lowered. One without an argument
/// about whose enum nothing is known stays as it is.
pub open spec fn enum_result(
    st: MonoV,
    whole: ExprV,
    path: Seq<Seq<char>>,
    case: Seq<char>,
    larg: Option<Box<ExprV>>,
    at: TypeV,
    exp: Option<TypeV>,
) -> (Result<(ExprV, TypeV), CompileErrorV>, MonoV) {
    match enum_named(st, path, case) {
        None => (Err(type_error("unknown enum case '."@ + case + "'"@, whole.span)), st),
        Some(ename) => match lookup(st.enums, ename) {
            None => (Ok((whole, TypeV::Unit)), st),
            Some(e) => if e.generics.len() == 0 {
                enum_instance(st, e, Seq::empty(), case, larg, whole.span)
            } else {
                let (r, ss) = enum_bindings(e, case, at, exp);
                let args = type_arguments(e.generics, ss);
                match r {
                    Err(m) => (
                        Err(
                            type_error(
                                "cannot infer type arguments for '."@ + case + "': "@ + m,
                                whole.span,
                            ),
                        ),
                        st,
                    ),
                    Ok(_) => if !has_open(args, generic_names(e.generics)) {
                        enum_instance(st, e, args, case, larg, whole.span)
                    } else if exp is None && larg is None {
                        (Ok((whole, TypeV::Never)), st)
                    } else {
                        (
                            Err(
                                type_error(
                                    "cannot infer type arguments for '."@ + case
                                        + "' (add a type annotation)"@,
                                    whole.span,
                                ),
                            ),
                            st,
                        )
                    },
                }
            },
        },
    }
}

/// A lowered expression with its type, the state and the scope after it.
pub type Lowered = (Result<(ExprV, TypeV), CompileErrorV>, MonoV, Subst);

pub open spec fn with_scope(
    p: (Result<(ExprV, TypeV), CompileErrorV>, MonoV),
    env: Subst,
) -> Lowered {
    (p.0, p.1, env)
}

/// An expression in which every use of a generic item is one of an instance.
#[verifier::opaque]
pub open spec fn l_expr(st: MonoV, e: ExprV, env: Subst, sub: Subst, exp: Option<TypeV>) -> Lowered
    decreases e, 2int,
{
    match e.kind {
        ExprKindV::IntLiteral(_) => (Ok((e, named_type("Int"@))), st, env),
        ExprKindV::FloatLiteral(_) => (Ok((e, named_type("Float"@))), st, env),
        ExprKindV::StringLiteral(_) => (Ok((e, named_type("String"@))), st, env),
        ExprKindV::CharLiteral(_) => (Ok((e, named_type("Char"@))), st, env),
        ExprKindV::BoolLiteral(_) => (Ok((e, named_type("Bool"@))), st, env),
        ExprKindV::NilLiteral => (Ok((e, TypeV::Never)), st, env),
        ExprKindV::Ident(name) => (
            Ok(
                (
                    e,
                    match lookup(env, name) {
                        Some(t) => t,
                        None => TypeV::Never,
                    },
                ),
            ),
            st,
            env,
        ),
        ExprKindV::Block(b) => {
            let (r, st1) = l_block(st, b, env, sub, exp);
            match r {
                Err(err) => (Err(err), st1, env),
                Ok((b2, t)) => (
                    Ok((ExprV { kind: ExprKindV::Block(b2), span: e.span }, t)),
                    st1,
                    env,
                ),
            }
        },
        ExprKindV::Let { name, ty, value, is_mut } => l_let(st, e, env, sub),
        ExprKindV::Return(Some(x)) => l_single(st, e, env, sub),
        ExprKindV::Return(None) => (Ok((e, TypeV::Unit)), st, env),
        ExprKindV::Unary { op, expr } => l_single(st, e, env, sub),
        ExprKindV::DotAccess { object, field } => l_single(st, e, env, sub),
        ExprKindV::Field { object, field } => l_single(st, e, env, sub),
        ExprKindV::NamedArg { name, value } => l_single(st, e, env, sub),
        ExprKindV::Binary { op, left, right } => l_double(st, e, env, sub),
        ExprKindV::Assign { target, value } => l_double(st, e, env, sub),
        ExprKindV::AssignOp { target, op, value } => l_double(st, e, env, sub),
        ExprKindV::Index { object, index } => l_double(st, e, env, sub),
        ExprKindV::Call { func, args } => l_call(st, e, env, sub),
        ExprKindV::StructLit { path, fields } => l_record(st, e, env, sub, exp),
        ExprKindV::GcNew { ty, fields } => l_record(st, e, env, sub, exp),
        ExprKindV::EnumCtor { path, case, arg } => l_ctor(st, e, env, sub, exp),
        ExprKindV::Match { expr, arms } => l_match(st, e, env, sub, exp),
        ExprKindV::If { cond, then_branch, else_branch } => l_if(st, e, env, sub, exp),
        ExprKindV::While { cond, body } => l_loop(st, e, env, sub),
        ExprKindV::For { var, iter, body } => l_loop(st, e, env, sub),
        _ => (Ok((e, TypeV::Unit)), st, env),
    }
}

/// A block: its names are gone after it.
#[verifier::opaque]
pub open spec fn l_block(st: MonoV, b: BlockV, env: Subst, sub: Subst, exp: Option<TypeV>) -> (
    Result<(BlockV, TypeV), CompileErrorV>,
    MonoV,
)
    decreases b, 1int,
{
    let (r, st1) = l_stmts(st, b.stmts, 0, env, sub, exp, Seq::empty(), TypeV::Unit);
    match r {
        Err(err) => (Err(err), st1),
        Ok((stmts, t)) => (Ok((BlockV { stmts, span: b.span }, t)), st1),
    }
}

/// The statements from `i` on, behind those of `acc`; only the last one has an
/// expected type.
#[verifier::opaque]
pub open spec fn l_stmts(
    st: MonoV,
    stmts: Seq<ExprV>,
    i: int,
    env: Subst,
    sub: Subst,
    exp: Option<TypeV>,
    acc: Seq<ExprV>,
    last: TypeV,
) -> (Result<(Seq<ExprV>, TypeV), CompileErrorV>, MonoV)
    decreases stmts, stmts.len() - i,
{
    if 0 <= i < stmts.len() {
        let (r, st1, env1) = l_expr(
            st,
            stmts[i],
            env,
            sub,
            if i == stmts.len() - 1 {
                exp
            } else {
                None
            },
        );
        match r {
            Err(err) => (Err(err), st1),
            Ok((s2, t)) => l_stmts(st1, stmts, i + 1, env1, sub, exp, acc.push(s2), t),
        }
    } else {
        (Ok((acc, last)), st)
    }
}

/// The arguments from `i` on with their types, behind those of `acc` and `ts`.
#[verifier::opaque]
pub open spec fn l_args(
    st: MonoV,
    args: Seq<ExprV>,
    i: int,
    env: Subst,
    sub: Subst,
    acc: Seq<ExprV>,
    ts: Seq<TypeV>,
) -> (Result<(Seq<ExprV>, Seq<TypeV>), CompileErrorV>, MonoV, Subst)
    decreases args, args.len() - i,
{
    if 0 <= i < args.len() {
        let (r, st1, env1) = l_expr(st, args[i], env, sub, None);
        match r {
            Err(err) => (Err(err), st1, env1),
            Ok((a2, t)) => l_args(st1, args, i + 1, env1, sub, acc.push(a2), ts.push(t)),
        }
    } else {
        (Ok((acc, ts)), st, env)
    }
}

/// The values of fields from `i` on with their types, behind those of `acc` and `ts`.
#[verifier::opaque]
pub open spec fn l_inits(
    st: MonoV,
    fs: Seq<(Seq<char>, ExprV)>,
    i: int,
    env: Subst,
    sub: Subst,
    acc: Seq<(Seq<char>, ExprV)>,
    ts: Seq<(Seq<char>, TypeV)>,
) -> (
    Result<(Seq<(Seq<char>, ExprV)>, Seq<(Seq<char>, TypeV)>), CompileErrorV>,
    MonoV,
    Subst,
)
    decreases fs, fs.len() - i,
{
    if 0 <= i < fs.len() {
        let (r, st1, env1) = l_expr(st, fs[i].1, env, sub, None);
        match r {
            Err(err) => (Err(err), st1, env1),
            Ok((v2, t)) => l_inits(
                st1,
                fs,
                i + 1,
                env1,
                sub,
                acc.push((fs[i].0, v2)),
                ts.push((fs[i].0, t)),
            ),
        }
    } else {
        (Ok((acc, ts)), st, env)
    }
}

/// A binding: its name has the annotated type, or else that of the value.
#[verifier::opaque]
pub open spec fn l_let(st: MonoV, e: ExprV, env: Subst, sub: Subst) -> Lowered
    decreases e, 1int,
{
    match e.kind {
        ExprKindV::Let { name, ty, value, is_mut } => {
            let (r, st1) = infer_opt(st, ty, sub);
            match r {
                Err(err) => (Err(err), st1, env),
                Ok(ann) => {
                    let (r2, st2, env2) = l_expr(st1, *value, env, sub, ann);
                    match r2 {
                        Err(err) => (Err(err), st2, env2),
                        Ok((v2, vt)) => (
                            Ok(
                                (
                                    ExprV {
                                        kind: ExprKindV::Let {
                                            name,
                                            ty: emitted_opt(st2, ann),
                                            value: Box::new(v2),
                                            is_mut,
                                        },
                                        span: e.span,
                                    },
                                    TypeV::Unit,
                                ),
                            ),
                            st2,
                            env2.insert(
                                name,
                                match ann {
                                    Some(t) => t,
                                    None => vt,
                                },
                            ),
                        ),
                    }
                },
            }
        },
        _ => (Ok((e, TypeV::Unit)), st, env),
    }
}

/// The part of an expression that has one.
pub open spec fn single_part(e: ExprV) -> ExprV {
    match e.kind {
        ExprKindV::Return(Some(x)) => *x,
        ExprKindV::Unary { op, expr } => *expr,
        ExprKindV::DotAccess { object, field } => *object,
        ExprKindV::Field { object, field } => *object,
        ExprKindV::NamedArg { name, value } => *value,
        _ => e,
    }
}

/// An expression of one part with the part replaced.
pub open spec fn single_kind(k: ExprKindV, x2: ExprV) -> ExprKindV {
    match k {
        ExprKindV::Return(_) => ExprKindV::Return(Some(Box::new(x2))),
        ExprKindV::Unary { op, expr } => ExprKindV::Unary { op, expr: Box::new(x2) },
        ExprKindV::DotAccess { object, field } => ExprKindV::DotAccess {
            object: Box::new(x2),
            field,
        },
        ExprKindV::Field { object, field } => ExprKindV::Field { object: Box::new(x2), field },
        ExprKindV::NamedArg { name, value } => ExprKindV::NamedArg { name, value: Box::new(x2) },
        _ => k,
    }
}

/// The type of an expression of one part of type `t`.
pub open spec fn single_type(st: MonoV, k: ExprKindV, t: TypeV) -> TypeV {
    match k {
        ExprKindV::Return(_) => TypeV::Never,
        ExprKindV::Unary { op, expr } => match op {
            UnaryOp::Neg => named_type("Int"@),
            UnaryOp::Not => named_type("Bool"@),
        },
        ExprKindV::DotAccess { object, field } => type_or_unit(field_type(st, t, field)),
        ExprKindV::Field { object, field } => type_or_unit(field_type(st, t, field)),
        ExprKindV::NamedArg { name, value } => t,
        _ => TypeV::Unit,
    }
}

/// An expression of one part.
#[verifier::opaque]
pub open spec fn l_single(st: MonoV, e: ExprV, env: Subst, sub: Subst) -> Lowered
    decreases e, 1int,
{
    match e.kind {
        ExprKindV::Return(Some(_)) | ExprKindV::Unary { .. } | ExprKindV::DotAccess { .. }
        | ExprKindV::Field { .. } | ExprKindV::NamedArg { .. } => {
            let exp = if e.kind is Return {
                st.cur_ret
            } else {
                None
            };
            let (r, st1, env1) = l_expr(st, single_part(e), env, sub, exp);
            match r {
                Err(err) => (Err(err), st1, env1),
                Ok((x2, t)) => (
                    Ok(
                        (
                            ExprV { kind: single_kind(e.kind, x2), span: e.span },
                            single_type(st1, e.kind, t),
                        ),
                    ),
                    st1,
                    env1,
                ),
            }
        },
        _ => (Ok((e, TypeV::Unit)), st, env),
    }
}

/// The two parts of an expression that has two.
pub open spec fn double_parts(e: ExprV) -> (ExprV, ExprV) {
    match e.kind {
        ExprKindV::Binary { op, left, right } => (*left, *right),
        ExprKindV::Assign { target, value } => (*target, *value),
        ExprKindV::AssignOp { target, op, value } => (*target, *value),
        ExprKindV::Index { object, index } => (*object, *index),
        _ => (e, e),
    }
}

/// An expression of two parts with the parts replaced.
pub open spec fn double_kind(k: ExprKindV, a2: ExprV, b2: ExprV) -> ExprKindV {
    match k {
        ExprKindV::Binary { op, left, right } => ExprKindV::Binary {
            op,
            left: Box::new(a2),
            right: Box::new(b2),
        },
        ExprKindV::Assign { target, value } => ExprKindV::Assign {
            target: Box::new(a2),
            value: Box::new(b2),
        },
        ExprKindV::AssignOp { target, op, value } => ExprKindV::AssignOp {
            target: Box::new(a2),
            op,
            value: Box::new(b2),
        },
        ExprKindV::Index { object, index } => ExprKindV::Index {
            object: Box::new(a2),
            index: Box::new(b2),
        },
        _ => k,
    }
}

/// The type of an expression of two parts of these types.
pub open spec fn double_type(k: ExprKindV, at: TypeV, bt: TypeV) -> TypeV {
    match k {
        ExprKindV::Binary { op, left, right } => operator_type(op, at, bt),
        _ => TypeV::Unit,
    }
}

/// An expression of two parts; what is assigned is expected to have the type of the
/// target.
#[verifier::opaque]
pub open spec fn l_double(st: MonoV, e: ExprV, env: Subst, sub: Subst) -> Lowered
    decreases e, 1int,
{
    match e.kind {
        ExprKindV::Binary { .. } | ExprKindV::Assign { .. } | ExprKindV::AssignOp { .. }
        | ExprKindV::Index { .. } => {
            let (r, st1, env1) = l_expr(st, double_parts(e).0, env, sub, None);
            match r {
                Err(err) => (Err(err), st1, env1),
                Ok((a2, at)) => {
                    let exp = if e.kind is Assign {
                        Some(at)
                    } else {
                        None
                    };
                    let (r2, st2, env2) = l_expr(st1, double_parts(e).1, env1, sub, exp);
                    match r2 {
                        Err(err) => (Err(err), st2, env2),
                        Ok((b2, bt)) => (
                            Ok(
                                (
                                    ExprV { kind: double_kind(e.kind, a2, b2), span: e.span },
                                    double_type(e.kind, at, bt),
                                ),
                            ),
                            st2,
                            env2,
                        ),
                    }
                },
            }
        },
        _ => (Ok((e, TypeV::Unit)), st, env),
    }
}

/// The callee of a call: the receiver of a method call is lowered, anything else stays.
#[verifier::opaque]
pub open spec fn l_callee(st: MonoV, func: ExprV, span: Span, env: Subst, sub: Subst) -> (
    Result<ExprV, CompileErrorV>,
    MonoV,
    Subst,
)
    decreases func, 0int,
{
    match func.kind {
        ExprKindV::DotAccess { .. } | ExprKindV::Field { .. } => {
            let (r, st1, env1) = l_expr(st, single_part(func), env, sub, None);
            match r {
                Err(err) => (Err(err), st1, env1),
                Ok((o2, t)) => (
                    Ok(ExprV { kind: single_kind(func.kind, o2), span }),
                    st1,
                    env1,
                ),
            }
        },
        _ => (Ok(func), st, env),
    }
}

/// A call.
#[verifier::opaque]
pub open spec fn l_call(st: MonoV, e: ExprV, env: Subst, sub: Subst) -> Lowered
    decreases e, 1int,
{
    match e.kind {
        ExprKindV::Call { func, args } => {
            let (r, st1, env1) = l_callee(st, *func, e.span, env, sub);
            match r {
                Err(err) => (Err(err), st1, env1),
                Ok(func2) => {
                    let (r2, st2, env2) = l_args(
                        st1,
                        args,
                        0,
                        env1,
                        sub,
                        Seq::empty(),
                        Seq::empty(),
                    );
                    match r2 {
                        Err(err) => (Err(err), st2, env2),
                        Ok((largs, ts)) => with_scope(
                            call_result(st2, *func, func2, largs, ts, any_named(args), e.span),
                            env2,
                        ),
                    }
                },
            }
        },
        _ => (Ok((e, TypeV::Unit)), st, env),
    }
}

/// A struct literal, or an allocation with the values of fields.
#[verifier::opaque]
pub open spec fn l_record(
    st: MonoV,
    e: ExprV,
    env: Subst,
    sub: Subst,
    exp: Option<TypeV>,
) -> Lowered
    decreases e, 1int,
{
    match e.kind {
        ExprKindV::StructLit { path, fields } => {
            let (r, st1, env1) = l_inits(st, fields, 0, env, sub, Seq::empty(), Seq::empty());
            match r {
                Err(err) => (Err(err), st1, env1),
                Ok((lfields, ts)) => match lookup(st.structs, join_v(path, "::"@)) {
                    Some(s) => with_scope(
                        struct_result(
                            st1,
                            join_v(path, "::"@),
                            s,
                            lfields,
                            ts,
                            exp,
                            e.span,
                        ),
                        env1,
                    ),
                    None => (
                        Ok(
                            (
                                ExprV {
                                    kind: ExprKindV::StructLit { path, fields: lfields },
                                    span: e.span,
                                },
                                TypeV::Unit,
                            ),
                        ),
                        st1,
                        env1,
                    ),
                },
            }
        },
        ExprKindV::GcNew { ty, fields } => {
            let (r, st1) = infer_in(st, ty, sub);
            match r {
                Err(err) => (Err(err), st1, env),
                Ok(t) => {
                    let (r2, st2, env2) = l_inits(
                        st1,
                        fields,
                        0,
                        env,
                        sub,
                        Seq::empty(),
                        Seq::empty(),
                    );
                    match r2 {
                        Err(err) => (Err(err), st2, env2),
                        Ok((lfields, ts)) => (
                            Ok(
                                (
                                    ExprV {
                                        kind: ExprKindV::GcNew {
                                            ty: emitted(st1, t),
                                            fields: lfields,
                                        },
                                        span: e.span,
                                    },
                                    TypeV::GcRef(Box::new(t)),
                                ),
                            ),
                            st2,
                            env2,
                        ),
                    }
                },
            }
        },
        _ => (Ok((e, TypeV::Unit)), st, env),
    }
}

/// A constructor of an enum.
#[verifier::opaque]
pub open spec fn l_ctor(st: MonoV, e: ExprV, env: Subst, sub: Subst, exp: Option<TypeV>) -> Lowered
    decreases e, 1int,
{
    match e.kind {
        ExprKindV::EnumCtor { path, case, arg } => match arg {
            None => with_scope(
                enum_result(st, e, path, case, None, TypeV::Never, exp),
                env,
            ),
            Some(a) => {
                let (r, st1, env1) = l_expr(st, *a, env, sub, None);
                match r {
                    Err(err) => (Err(err), st1, env1),
                    Ok((a2, at)) => with_scope(
                        enum_result(st1, e, path, case, Some(Box::new(a2)), at, exp),
                        env1,
                    ),
                }
            },
        },
        _ => (Ok((e, TypeV::Unit)), st, env),
    }
}

/// A match: its type is that of the first arm that can end.
#[verifier::opaque]
pub open spec fn l_match(st: MonoV, e: ExprV, env: Subst, sub: Subst, exp: Option<TypeV>) -> Lowered
    decreases e, 1int,
{
    match e.kind {
        ExprKindV::Match { expr, arms } => {
            let (r, st1, env1) = l_expr(st, *expr, env, sub, None);
            match r {
                Err(err) => (Err(err), st1, env1),
                Ok((s2, subject)) => {
                    let (r2, st2) = l_arms(
                        st1,
                        arms,
                        0,
                        subject,
                        env1,
                        sub,
                        exp,
                        Seq::empty(),
                        TypeV::Never,
                    );
                    match r2 {
                        Err(err) => (Err(err), st2, env1),
                        Ok((arms2, t)) => (
                            Ok(
                                (
                                    ExprV {
                                        kind: ExprKindV::Match {
                                            expr: Box::new(s2),
                                            arms: arms2,
                                        },
                                        span: e.span,
                                    },
                                    if t is Never {
                                        TypeV::Unit
                                    } else {
                                        t
                                    },
                                ),
                            ),
                            st2,
                            env1,
                        ),
                    }
                },
            }
        },
        _ => (Ok((e, TypeV::Unit)), st, env),
    }
}

/// The arms from `i` on, behind those of `acc`, with the type so far.
#[verifier::opaque]
pub open spec fn l_arms(
    st: MonoV,
    arms: Seq<MatchArmV>,
    i: int,
    subject: TypeV,
    env: Subst,
    sub: Subst,
    exp: Option<TypeV>,
    acc: Seq<MatchArmV>,
    t: TypeV,
) -> (Result<(Seq<MatchArmV>, TypeV), CompileErrorV>, MonoV)
    decreases arms, arms.len() - i,
{
    if 0 <= i < arms.len() {
        let (r, st1) = l_arm(st, arms[i], subject, env, sub, exp);
        match r {
            Err(err) => (Err(err), st1),
            Ok((arm2, bt)) => l_arms(
                st1,
                arms,
                i + 1,
                subject,
                env,
                sub,
                exp,
                acc.push(arm2),
                if t is Never {
                    bt
                } else {
                    t
                },
            ),
        }
    } else {
        (Ok((acc, t)), st)
    }
}

/// An arm: the names of its pattern are in scope in its guard and its body.
#[verifier::opaque]
pub open spec fn l_arm(
    st: MonoV,
    arm: MatchArmV,
    subject: TypeV,
    env: Subst,
    sub: Subst,
    exp: Option<TypeV>,
) -> (Result<(MatchArmV, TypeV), CompileErrorV>, MonoV)
    decreases arm, 1int,
{
    let (r, st1) = l_pat(st, arm.pattern, subject);
    match r {
        Err(err) => (Err(err), st1),
        Ok((pattern, bs)) => {
            let (r2, st2, env2) = l_guard(st1, arm.guard, bind_all(env, bs, 0), sub);
            match r2 {
                Err(err) => (Err(err), st2),
                Ok(guard) => {
                    let (r3, st3, env3) = l_expr(st2, *arm.body, env2, sub, exp);
                    match r3 {
                        Err(err) => (Err(err), st3),
                        Ok((b2, bt)) => (
                            Ok((MatchArmV { pattern, guard, body: Box::new(b2) }, bt)),
                            st3,
                        ),
                    }
                },
            }
        },
    }
}

/// A guard, if there is one.
#[verifier::opaque]
pub open spec fn l_guard(st: MonoV, guard: Option<Box<ExprV>>, env: Subst, sub: Subst) -> (
    Result<Option<Box<ExprV>>, CompileErrorV>,
    MonoV,
    Subst,
)
    decreases guard, 0int,
{
    match guard {
        None => (Ok(None), st, env),
        Some(g) => {
            let (r, st1, env1) = l_expr(st, *g, env, sub, None);
            match r {
                Err(err) => (Err(err), st1, env1),
                Ok((g2, t)) => (Ok(Some(Box::new(g2))), st1, env1),
            }
        },
    }
}

/// A conditional: its type is that of the first branch that can end.
#[verifier::opaque]
pub open spec fn l_if(st: MonoV, e: ExprV, env: Subst, sub: Subst, exp: Option<TypeV>) -> Lowered
    decreases e, 1int,
{
    match e.kind {
        ExprKindV::If { cond, then_branch, else_branch } => {
            let (r, st1, env1) = l_expr(st, *cond, env, sub, None);
            match r {
                Err(err) => (Err(err), st1, env1),
                Ok((c2, ct)) => {
                    let (r2, st2) = l_block(st1, then_branch, env1, sub, exp);
                    match r2 {
                        Err(err) => (Err(err), st2, env1),
                        Ok((t2, tt)) => match else_branch {
                            None => (
                                Ok(
                                    (
                                        ExprV {
                                            kind: ExprKindV::If {
                                                cond: Box::new(c2),
                                                then_branch: t2,
                                                else_branch: None,
                                            },
                                            span: e.span,
                                        },
                                        if tt is Never {
                                            TypeV::Unit
                                        } else {
                                            tt
                                        },
                                    ),
                                ),
                                st2,
                                env1,
                            ),
                            Some(eb) => {
                                let (r3, st3) = l_block(st2, eb, env1, sub, exp);
                                match r3 {
                                    Err(err) => (Err(err), st3, env1),
                                    Ok((e2, et)) => (
                                        Ok(
                                            (
                                                ExprV {
                                                    kind: ExprKindV::If {
                                                        cond: Box::new(c2),
                                                        then_branch: t2,
                                                        else_branch: Some(e2),
                                                    },
                                                    span: e.span,
                                                },
                                                if tt is Never {
                                                    et
                                                } else {
                                                    tt
                                                },
                                            ),
                                        ),
                                        st3,
                                        env1,
                                    ),
                                }
                            },
                        },
                    }
                },
            }
        },
        _ => (Ok((e, TypeV::Unit)), st, env),
    }
}

/// A loop.
#[verifier::opaque]
pub open spec fn l_loop(st: MonoV, e: ExprV, env: Subst, sub: Subst) -> Lowered
    decreases e, 1int,
{
    match e.kind {
        ExprKindV::While { cond, body } => {
            let (r, st1, env1) = l_expr(st, *cond, env, sub, None);
            match r {
                Err(err) => (Err(err), st1, env1),
                Ok((c2, ct)) => {
                    let (r2, st2) = l_block(st1, body, env1, sub, None);
                    match r2 {
                        Err(err) => (Err(err), st2, env1),
                        Ok((b2, bt)) => (
                            Ok(
                                (
                                    ExprV {
                                        kind: ExprKindV::While { cond: Box::new(c2), body: b2 },
                                        span: e.span,
                                    },
                                    TypeV::Unit,
                                ),
                            ),
                            st2,
                            env1,
                        ),
                    }
                },
            }
        },
        ExprKindV::For { var, iter, body } => {
            let (r, st1, env1) = l_expr(st, *iter, env, sub, None);
            match r {
                Err(err) => (Err(err), st1, env1),
                Ok((i2, it)) => {
                    let (r2, st2) = l_block(
                        st1,
                        body,
                        env1.insert(var, TypeV::Unit),
                        sub,
                        None,
                    );
                    match r2 {
                        Err(err) => (Err(err), st2, env1),
                        Ok((b2, bt)) => (
                            Ok(
                                (
                                    ExprV {
                                        kind: ExprKindV::For {
                                            var,
                                            iter: Box::new(i2),
                                            body: b2,
                                        },
                                        span: e.span,
                                    },
                                    TypeV::Unit,
                                ),
                            ),
                            st2,
                            env1,
                        ),
                    }
                },
            }
        },
        _ => (Ok((e, TypeV::Unit)), st, env),
    }
}

// ------------------------------------------------------------------------ functions

/// A default value, if there is one.
pub open spec fn l_default(st: MonoV, d: Option<ExprV>, sub: Subst) -> (
    Result<Option<ExprV>, CompileErrorV>,
    MonoV,
) {
    match d {
        None => (Ok(None), st),
        Some(x) => {
            let (r, st1, env1) = l_expr(st, x, Map::empty(), sub, None);
            match r {
                Err(e) => (Err(e), st1),
                Ok((x2, t)) => (Ok(Some(x2)), st1),
            }
        },
    }
}

/// The parameters from `i` on, behind those of `acc`.
pub open spec fn l_params(st: MonoV, ps: Seq<ParamV>, i: int, sub: Subst, acc: Seq<ParamV>) -> (
    Result<Seq<ParamV>, CompileErrorV>,
    MonoV,
)
    decreases ps.len() - i,
{
    if 0 <= i < ps.len() {
        let (r, st1) = infer_in(st, ps[i].ty, sub);
        match r {
            Err(e) => (Err(e), st1),
            Ok(t) => {
                let (r2, st2) = l_default(st1, ps[i].default, sub);
                match r2 {
                    Err(e) => (Err(e), st2),
                    Ok(d) => l_params(
                        st2,
                        ps,
                        i + 1,
                        sub,
                        acc.push(
                            ParamV {
                                name: ps[i].name,
                                ty: emitted(st2, t),
                                named: ps[i].named,
                                default: d,
                                span: ps[i].span,
                            },
                        ),
                    ),
                }
            },
        }
    } else {
        (Ok(acc), st)
    }
}

/// The type of the first parameter of this name from `i` on.
pub open spec fn param_type(ps: Seq<ParamV>, name: Seq<char>, i: int) -> TypeV
    decreases ps.len() - i,
{
    if 0 <= i < ps.len() && ps[i].name != name {
        param_type(ps, name, i + 1)
    } else {
        ps[i].ty
    }
}

/// The scope with the parameters from `i` on.
pub open spec fn l_scope(st: MonoV, ps: Seq<ParamV>, i: int, sub: Subst, env: Subst) -> (
    Result<Subst, CompileErrorV>,
    MonoV,
)
    decreases ps.len() - i,
{
    if 0 <= i < ps.len() {
        let (r, st1) = infer_in(st, param_type(ps, ps[i].name, 0), sub);
        match r {
            Err(e) => (Err(e), st1),
            Ok(t) => l_scope(st1, ps, i + 1, sub, env.insert(ps[i].name, t)),
        }
    } else {
        (Ok(env), st)
    }
}

/// The body of a function whose result has type `ret`.
pub open spec fn l_body(st: MonoV, f: FunctionV, sub: Subst, ret: TypeV) -> (
    Result<BlockV, CompileErrorV>,
    MonoV,
) {
    let (r, st1) = l_scope(st, f.params, 0, sub, Map::empty());
    match r {
        Err(e) => (Err(e), st1),
        Ok(env) => {
            let (r2, st2) = l_block(
                MonoV { cur_ret: Some(ret), ..st1 },
                f.body,
                env,
                sub,
                Some(ret),
            );
            match r2 {
                Err(e) => (Err(e), st2),
                Ok((body, t)) => (Ok(body), MonoV { cur_ret: st1.cur_ret, ..st2 }),
            }
        },
    }
}

/// A function instantiated with these types under this name.
pub open spec fn l_function(st: MonoV, f: FunctionV, args: Seq<TypeV>, name: Seq<char>) -> (
    Result<FunctionV, CompileErrorV>,
    MonoV,
) {
    let sub = generic_subst(f.generics, args);
    let (r, st1) = l_params(st, f.params, 0, sub, Seq::empty());
    match r {
        Err(e) => (Err(e), st1),
        Ok(params) => {
            let (r2, st2) = infer_in(st1, f.return_type, sub);
            match r2 {
                Err(e) => (Err(e), st2),
                Ok(ret) => {
                    let (r3, st3) = l_body(st2, f, sub, ret);
                    match r3 {
                        Err(e) => (Err(e), st3),
                        Ok(body) => (
                            Ok(
                                FunctionV {
                                    name,
                                    generics: Seq::empty(),
                                    params,
                                    return_type: emitted(st2, ret),
                                    body,
                                    is_pub: f.is_pub,
                                    span: f.span,
                                },
                            ),
                            st3,
                        ),
                    }
                },
            }
        },
    }
}

/// The methods from `i` on, behind those of `acc`.
pub open spec fn l_methods(st: MonoV, ms: Seq<FunctionV>, i: int, acc: Seq<FunctionV>) -> (
    Result<Seq<FunctionV>, CompileErrorV>,
    MonoV,
)
    decreases ms.len() - i,
{
    if 0 <= i < ms.len() {
        let (r, st1) = l_function(st, ms[i], Seq::empty(), ms[i].name);
        match r {
            Err(e) => (Err(e), st1),
            Ok(f) => l_methods(st1, ms, i + 1, acc.push(f)),
        }
    } else {
        (Ok(acc), st)
    }
}

/// The parameters of a signature from `i` on, behind those of `acc`.
pub open spec fn l_plain_params(st: MonoV, ps: Seq<ParamV>, i: int, acc: Seq<ParamV>) -> (
    Result<Seq<ParamV>, CompileErrorV>,
    MonoV,
)
    decreases ps.len() - i,
{
    if 0 <= i < ps.len() {
        let (r, st1) = infer_in(st, ps[i].ty, Map::empty());
        match r {
            Err(e) => (Err(e), st1),
            Ok(t) => l_plain_params(
                st1,
                ps,
                i + 1,
                acc.push(
                    ParamV {
                        name: ps[i].name,
                        ty: emitted(st1, t),
                        named: ps[i].named,
                        default: None,
                        span: ps[i].span,
                    },
                ),
            ),
        }
    } else {
        (Ok(acc), st)
    }
}

/// The signature of a method of a trait.
pub open spec fn l_signature(st: MonoV, f: FunctionV) -> (Result<FunctionV, CompileErrorV>, MonoV) {
    let (r, st1) = l_plain_params(st, f.params, 0, Seq::empty());
    match r {
        Err(e) => (Err(e), st1),
        Ok(params) => {
            let (r2, st2) = infer_in(st1, f.return_type, Map::empty());
            match r2 {
                Err(e) => (Err(e), st2),
                Ok(ret) => (
                    Ok(
                        FunctionV {
                            name: f.name,
                            generics: Seq::empty(),
                            params,
                            return_type: emitted(st2, ret),
                            body: BlockV { stmts: Seq::empty(), span: f.span },
                            is_pub: f.is_pub,
                            span: f.span,
                        },
                    ),
                    st2,
                ),
            }
        },
    }
}

/// The signatures from `i` on, behind those of `acc`.
pub open spec fn l_signatures(st: MonoV, ms: Seq<FunctionV>, i: int, acc: Seq<FunctionV>) -> (
    Result<Seq<FunctionV>, CompileErrorV>,
    MonoV,
)
    decreases ms.len() - i,
{
    if 0 <= i < ms.len() {
        let (r, st1) = l_signature(st, ms[i]);
        match r {
            Err(e) => (Err(e), st1),
            Ok(f) => l_signatures(st1, ms, i + 1, acc.push(f)),
        }
    } else {
        (Ok(acc), st)
    }
}

// ------------------------------------------------------------------------- modules

pub type Done = (Result<(), CompileErrorV>, MonoV);

/// What came of a request for an instance, its name aside.
pub open spec fn done(p: (Result<Seq<char>, CompileErrorV>, MonoV)) -> Done {
    match p.0 {
        Err(e) => (Err(e), p.1),
        Ok(_) => (Ok(()), p.1),
    }
}

/// A module-level variable.
pub open spec fn seed_var(st: MonoV, v: VarDeclV) -> Done {
    let (r, st1) = infer_opt(st, v.ty, Map::empty());
    match r {
        Err(e) => (Err(e), st1),
        Ok(ann) => {
            let (r2, st2) = l_value(st1, v.value, ann);
            match r2 {
                Err(e) => (Err(e), st2),
                Ok(value) => (
                    Ok(()),
                    MonoV {
                        out_vars: st2.out_vars.push(
                            VarDeclV {
                                name: v.name,
                                ty: emitted_opt(st2, ann),
                                value,
                                is_mut: v.is_mut,
                                span: v.span,
                            },
                        ),
                        ..st2
                    },
                ),
            }
        },
    }
}

/// The value of a module-level variable, if there is one.
pub open spec fn l_value(st: MonoV, v: Option<ExprV>, exp: Option<TypeV>) -> (
    Result<Option<ExprV>, CompileErrorV>,
    MonoV,
) {
    match v {
        None => (Ok(None), st),
        Some(x) => {
            let (r, st1, env1) = l_expr(st, x, Map::empty(), Map::empty(), exp);
            match r {
                Err(e) => (Err(e), st1),
                Ok((x2, t)) => (Ok(Some(x2)), st1),
            }
        },
    }
}

pub open spec fn seed_trait(st: MonoV, t: TraitDefV) -> Done {
    let (r, st1) = l_signatures(st, t.methods, 0, Seq::empty());
    match r {
        Err(e) => (Err(e), st1),
        Ok(methods) => (
            Ok(()),
            MonoV {
                out_traits: st1.out_traits.push(
                    TraitDefV {
                        name: t.name,
                        generics: Seq::empty(),
                        self_alias: t.self_alias,
                        methods,
                        span: t.span,
                    },
                ),
                ..st1
            },
        ),
    }
}

pub open spec fn seed_impl(st: MonoV, b: ImplBlockV) -> Done {
    let (r, st1) = infer_in(st, b.target_type, Map::empty());
    match r {
        Err(e) => (Err(e), st1),
        Ok(target) => {
            let (r2, st2) = l_methods(st1, b.methods, 0, Seq::empty());
            match r2 {
                Err(e) => (Err(e), st2),
                Ok(methods) => (
                    Ok(()),
                    MonoV {
                        out_impls: st2.out_impls.push(
                            ImplBlockV {
                                trait_name: b.trait_name,
                                generics: Seq::empty(),
                                target_type: emitted(st1, target),
                                methods,
                                span: b.span,
                            },
                        ),
                        ..st2
                    },
                ),
            }
        },
    }
}

/// An item that is not generic, instantiated or emitted.
pub open spec fn seed_item(st: MonoV, item: ItemV) -> Done {
    match item {
        ItemV::Struct(s) => if s.generics.len() == 0 {
            done(make_struct(depth_limit(), st, s.name, Seq::empty()))
        } else {
            (Ok(()), st)
        },
        ItemV::Enum(e) => if e.generics.len() == 0 {
            done(make_enum(depth_limit(), st, e.name, Seq::empty()))
        } else {
            (Ok(()), st)
        },
        ItemV::Function(f) => if f.generics.len() == 0 {
            done(make_function(st, f.name, Seq::empty()))
        } else {
            (Ok(()), st)
        },
        ItemV::VarDecl(v) => seed_var(st, v),
        ItemV::Trait(t) => seed_trait(st, t),
        ItemV::Impl(b) => seed_impl(st, b),
        ItemV::Macro(_) => (Ok(()), MonoV { out_misc: st.out_misc.push(item), ..st }),
        ItemV::MacroCall(_) => (Ok(()), MonoV { out_misc: st.out_misc.push(item), ..st }),
        ItemV::TypeAlias(_) => (Ok(()), st),
    }
}

/// The items from `i` on seeded.
pub open spec fn seed_items(st: MonoV, items: Seq<ItemV>, i: int) -> Done
    decreases items.len() - i,
{
    if 0 <= i < items.len() {
        let (r, st1) = seed_item(st, items[i]);
        match r {
            Err(e) => (Err(e), st1),
            Ok(_) => seed_items(st1, items, i + 1),
        }
    } else {
        (Ok(()), st)
    }
}

pub open spec fn too_many() -> CompileErrorV {
    CompileErrorV::Generic("too many instances of generic functions"@)
}

/// The bodies that wait, at most `n` of them, lowered in turn; each may queue more.
pub open spec fn drain(n: nat, st: MonoV) -> Done
    decreases n,
{
    if st.queue.len() == 0 {
        (Ok(()), st)
    } else if n == 0 {
        (Err(too_many()), st)
    } else {
        let (name, args, k) = st.queue[0];
        let st1 = MonoV { queue: st.queue.drop_first(), ..st };
        match lookup(st.functions, name) {
            Some(fs) => if 0 <= k < fs.len() {
                let (r, st2) = l_function(st1, fs[k], args, mangled(name, args));
                match r {
                    Err(e) => (Err(e), st2),
                    Ok(f) => drain(
                        (n - 1) as nat,
                        MonoV { out_functions: st2.out_functions.push(f), ..st2 },
                    ),
                }
            } else {
                (Err(CompileErrorV::Generic("unknown function '"@ + name + "'"@)), st1)
            },
            None => (Err(CompileErrorV::Generic("unknown function '"@ + name + "'"@)), st1),
        }
    }
}

/// The state with no tables and nothing emitted.
pub open spec fn blank() -> MonoV {
    MonoV {
        structs: Map::empty(),
        enums: Map::empty(),
        enum_order: Seq::empty(),
        functions: Map::empty(),
        aliases: Map::empty(),
        struct_keys: Seq::empty(),
        enum_keys: Seq::empty(),
        fn_keys: Seq::empty(),
        out_structs: Seq::empty(),
        out_enums: Seq::empty(),
        out_functions: Seq::empty(),
        out_traits: Seq::empty(),
        out_impls: Seq::empty(),
        out_vars: Seq::empty(),
        out_misc: Seq::empty(),
        queue: Seq::empty(),
        cur_ret: None,
    }
}

/// The overloads of a name.
pub open spec fn overloads_of(m: Map<Seq<char>, Seq<FunctionV>>, name: Seq<char>) -> Seq<FunctionV> {
    match lookup(m, name) {
        Some(fs) => fs,
        None => Seq::empty(),
    }
}

/// The tables with one more item.
pub open spec fn tabled(st: MonoV, item: ItemV) -> MonoV {
    match item {
        ItemV::Struct(s) => MonoV { structs: st.structs.insert(s.name, s), ..st },
        ItemV::Enum(e) => MonoV {
            enums: st.enums.insert(e.name, e),
            enum_order: st.enum_order.push(e.name),
            ..st
        },
        ItemV::Function(f) => MonoV {
            functions: st.functions.insert(f.name, overloads_of(st.functions, f.name).push(f)),
            ..st
        },
        ItemV::TypeAlias(a) => MonoV { aliases: st.aliases.insert(a.name, a), ..st },
        _ => st,
    }
}

/// The tables with the items from `i` on.
pub open spec fn tables_from(st: MonoV, items: Seq<ItemV>, i: int) -> MonoV
    decreases items.len() - i,
{
    if 0 <= i < items.len() {
        tables_from(tabled(st, items[i]), items, i + 1)
    } else {
        st
    }
}

/// What was emitted, kind by kind.
pub open spec fn emitted_items(st: MonoV) -> Seq<ItemV> {
    Seq::new(st.out_structs.len(), |i: int| ItemV::Struct(st.out_structs[i])) + Seq::new(
        st.out_enums.len(),
        |i: int| ItemV::Enum(st.out_enums[i]),
    ) + Seq::new(st.out_traits.len(), |i: int| ItemV::Trait(st.out_traits[i])) + Seq::new(
        st.out_impls.len(),
        |i: int| ItemV::Impl(st.out_impls[i]),
    ) + Seq::new(st.out_functions.len(), |i: int| ItemV::Function(st.out_functions[i])) + Seq::new(
        st.out_vars.len(),
        |i: int| ItemV::VarDecl(st.out_vars[i]),
    ) + st.out_misc
}

/// The module in which every generic item is replaced by its instances.
pub open spec fn lowered_module(m: ModuleV) -> Result<ModuleV, CompileErrorV> {
    let (r, st1) = seed_items(tables_from(blank(), m.items, 0), m.items, 0);
    match r {
        Err(e) => Err(e),
        Ok(_) => {
            let (r2, st2) = drain(depth_limit(), st1);
            match r2 {
                Err(e) => Err(e),
                Ok(_) => Ok(
                    ModuleV { name: m.name, imports: m.imports, items: emitted_items(st2) },
                ),
            }
        },
    }
}

// ------------------------------------------------------------------ without generics

/// Functions that have no parameters of type.
pub open spec fn are_plain(fs: Seq<FunctionV>) -> bool {
    forall|i: int| 0 <= i < fs.len() ==> (#[trigger] fs[i]).generics.len() == 0
}

/// An item that has no parameters of type, nor has a method of it.
pub open spec fn is_concrete(item: ItemV) -> bool {
    match item {
        ItemV::Struct(s) => s.generics.len() == 0,
        ItemV::Enum(e) => e.generics.len() == 0,
        ItemV::Function(f) => f.generics.len() == 0,
        ItemV::Trait(t) => t.generics.len() == 0 && are_plain(t.methods),
        ItemV::Impl(b) => b.generics.len() == 0 && are_plain(b.methods),
        ItemV::TypeAlias(_) => false,
        _ => true,
    }
}

/// A name is that of one of the instances.
pub open spec fn names_instance(keys: Seq<Key>, name: Seq<char>) -> bool {
    exists|k: int| 0 <= k < keys.len() && name == mangled((#[trigger] keys[k]).0, keys[k].1)
}

/// Nothing that was emitted has parameters of type, and every struct, enum and function
/// that was emitted, and every body that waits, is an instance that was asked for, of an
/// item of the tables.
#[verifier::opaque]
pub open spec fn emits_instances(st: MonoV) -> bool {
    &&& forall|i: int|
        0 <= i < st.out_structs.len() ==> (#[trigger] st.out_structs[i]).generics.len() == 0
            && names_instance(st.struct_keys, st.out_structs[i].name)
    &&& forall|i: int|
        0 <= i < st.out_enums.len() ==> (#[trigger] st.out_enums[i]).generics.len() == 0
            && names_instance(st.enum_keys, st.out_enums[i].name)
    &&& forall|i: int|
        0 <= i < st.out_functions.len() ==> (#[trigger] st.out_functions[i]).generics.len() == 0
            && names_instance(st.fn_keys, st.out_functions[i].name)
    &&& forall|i: int|
        0 <= i < st.out_traits.len() ==> (#[trigger] st.out_traits[i]).generics.len() == 0
            && are_plain(st.out_traits[i].methods)
    &&& forall|i: int|
        0 <= i < st.out_impls.len() ==> (#[trigger] st.out_impls[i]).generics.len() == 0
            && are_plain(st.out_impls[i].methods)
    &&& structs_ordered(st.out_structs)
    &&& enums_ordered(st.out_enums)
    &&& forall|i: int| 0 <= i < st.out_misc.len() ==> is_other(#[trigger] st.out_misc[i])
    &&& forall|i: int|
        0 <= i < st.queue.len() ==> st.fn_keys.contains(
            ((#[trigger] st.queue[i]).0, st.queue[i].1),
        )
    &&& forall|k: int|
        0 <= k < st.struct_keys.len() ==> st.structs.contains_key(
            (#[trigger] st.struct_keys[k]).0,
        )
    &&& forall|k: int|
        0 <= k < st.enum_keys.len() ==> st.enums.contains_key((#[trigger] st.enum_keys[k]).0)
    &&& forall|k: int|
        0 <= k < st.fn_keys.len() ==> st.functions.contains_key((#[trigger] st.fn_keys[k]).0)
}

/// Structs in the order of their names, each name once.
pub open spec fn structs_ordered(ss: Seq<StructV>) -> bool {
    forall|i: int, j: int|
        0 <= i < j < ss.len() ==> text_before((#[trigger] ss[i]).name, (#[trigger] ss[j]).name, 0)
}

/// Enums in the order of their names, each name once.
pub open spec fn enums_ordered(es: Seq<EnumV>) -> bool {
    forall|i: int, j: int|
        0 <= i < j < es.len() ==> text_before((#[trigger] es[i]).name, (#[trigger] es[j]).name, 0)
}

/// No two structs have the same name, nor have two enums.
pub open spec fn names_differ(items: Seq<ItemV>) -> bool {
    forall|i: int, j: int|
        #![trigger items[i], items[j]]
        0 <= i < j < items.len() ==> match (items[i], items[j]) {
            (ItemV::Struct(a), ItemV::Struct(b)) => a.name != b.name,
            (ItemV::Enum(a), ItemV::Enum(b)) => a.name != b.name,
            _ => true,
        }
}

/// An item that is kept as it is.
pub open spec fn is_other(item: ItemV) -> bool {
    item is Macro || item is MacroCall
}

/// Some list begins with another.
pub open spec fn begins_with(longer: Seq<Key>, shorter: Seq<Key>) -> bool {
    &&& shorter.len() <= longer.len()
    &&& forall|k: int| 0 <= k < shorter.len() ==> #[trigger] longer[k] == shorter[k]
}

/// Which overloads an instance of a function stands for: those without parameters of type
/// if there are no types, else the first with so many.
pub open spec fn stands_for(fs: Seq<FunctionV>, args: Seq<TypeV>, k: int) -> bool {
    if args.len() == 0 {
        0 <= k < fs.len() && fs[k].generics.len() == 0
    } else {
        generic_overload(fs, args.len(), 0) == Some(k)
    }
}

/// The bodies of an instance wait.
pub open spec fn is_queued(st: MonoV, key: Key) -> bool {
    forall|k: int| #[trigger]
        stands_for(overloads_of(st.functions, key.0), key.1, k) ==> st.queue.contains(
            (key.0, key.1, k),
        )
}

/// What lowering a piece of code does to the tables and to the bodies that wait: the tables
/// stay, what was asked for stays, no function is emitted, and the bodies of every new
/// instance wait.
#[verifier::opaque]
pub open spec fn grows(a: MonoV, b: MonoV) -> bool {
    &&& a.structs == b.structs
    &&& a.enums == b.enums
    &&& a.functions == b.functions
    &&& a.out_functions == b.out_functions
    &&& begins_with(b.struct_keys, a.struct_keys)
    &&& begins_with(b.enum_keys, a.enum_keys)
    &&& begins_with(b.fn_keys, a.fn_keys)
    &&& forall|q: (Seq<char>, Seq<TypeV>, int)| #[trigger]
        a.queue.contains(q) ==> b.queue.contains(q)
    &&& forall|k: int|
        a.fn_keys.len() <= k < b.fn_keys.len() ==> is_queued(b, #[trigger] b.fn_keys[k])
}

/// Nothing done is no growth.
pub broadcast proof fn lemma_grows_not(a: MonoV)
    ensures
        #[trigger] grows(a, a),
{
    reveal(grows);
}

/// One growth after another is a growth.
pub broadcast proof fn lemma_grows_on(a: MonoV, b: MonoV, c: MonoV)
    requires
        #[trigger] grows(a, b),
        #[trigger] grows(b, c),
    ensures
        grows(a, c),
{
    reveal(grows);
    assert forall|k: int| a.fn_keys.len() <= k < c.fn_keys.len() implies is_queued(
        c,
        #[trigger] c.fn_keys[k],
    ) by {
        if k < b.fn_keys.len() {
            assert(c.fn_keys[k] == b.fn_keys[k]);
            assert(is_queued(b, b.fn_keys[k]));
        }
    }
}

/// A struct of this name is among those that were emitted.
pub open spec fn has_struct(ss: Seq<StructV>, name: Seq<char>) -> bool {
    exists|i: int| 0 <= i < ss.len() && (#[trigger] ss[i]).name == name
}

/// An enum of this name is among those that were emitted.
pub open spec fn has_enum(es: Seq<EnumV>, name: Seq<char>) -> bool {
    exists|i: int| 0 <= i < es.len() && (#[trigger] es[i]).name == name
}

/// What lowering a piece of code does to the structs and enums: those that were emitted
/// stay, and those that were asked for are emitted.
#[verifier::opaque]
pub open spec fn settles(a: MonoV, b: MonoV) -> bool {
    &&& begins_with(b.struct_keys, a.struct_keys)
    &&& begins_with(b.enum_keys, a.enum_keys)
    &&& forall|name: Seq<char>| #[trigger]
        has_struct(a.out_structs, name) ==> has_struct(b.out_structs, name)
    &&& forall|name: Seq<char>| #[trigger]
        has_enum(a.out_enums, name) ==> has_enum(b.out_enums, name)
    &&& forall|k: int|
        a.struct_keys.len() <= k < b.struct_keys.len() ==> has_struct(
            b.out_structs,
            mangled((#[trigger] b.struct_keys[k]).0, b.struct_keys[k].1),
        )
    &&& forall|k: int|
        a.enum_keys.len() <= k < b.enum_keys.len() ==> has_enum(
            b.out_enums,
            mangled((#[trigger] b.enum_keys[k]).0, b.enum_keys[k].1),
        )
}

/// Where no struct and no enum is asked for or emitted, nothing is open.
pub broadcast proof fn lemma_settles_not(a: MonoV, b: MonoV)
    requires
        a.struct_keys == b.struct_keys,
        a.enum_keys == b.enum_keys,
        a.out_structs == b.out_structs,
        a.out_enums == b.out_enums,
    ensures
        #[trigger] settles(a, b),
{
    reveal(settles);
}

/// Two pieces of code, one after the other.
pub broadcast proof fn lemma_settles_on(a: MonoV, b: MonoV, c: MonoV)
    requires
        #[trigger] settles(a, b),
        #[trigger] settles(b, c),
    ensures
        settles(a, c),
{
    reveal(settles);
    assert forall|k: int| a.struct_keys.len() <= k < c.struct_keys.len() implies has_struct(
        c.out_structs,
        mangled((#[trigger] c.struct_keys[k]).0, c.struct_keys[k].1),
    ) by {
        if k < b.struct_keys.len() {
            let key = b.struct_keys[k];
            assert(c.struct_keys[k] == key);
            assert(has_struct(b.out_structs, mangled(key.0, key.1)));
        }
    }
    assert forall|k: int| a.enum_keys.len() <= k < c.enum_keys.len() implies has_enum(
        c.out_enums,
        mangled((#[trigger] c.enum_keys[k]).0, c.enum_keys[k].1),
    ) by {
        if k < b.enum_keys.len() {
            let key = b.enum_keys[k];
            assert(c.enum_keys[k] == key);
            assert(has_enum(b.out_enums, mangled(key.0, key.1)));
        }
    }
}

/// A function is an instance of another, which has this name.
pub open spec fn made_of(f: FunctionV, name: Seq<char>, g: FunctionV, args: Seq<TypeV>) -> bool {
    &&& f.name == mangled(name, args)
    &&& f.is_pub == g.is_pub
    &&& f.span == g.span
}

/// Every instance of a function that was asked for waits or was emitted.
#[verifier::opaque]
pub open spec fn serves(st: MonoV) -> bool {
    forall|j: int, k: int|
        #![trigger stands_for(
            overloads_of(st.functions, st.fn_keys[j].0),
            st.fn_keys[j].1,
            k,
        )]
        0 <= j < st.fn_keys.len() && stands_for(
            overloads_of(st.functions, st.fn_keys[j].0),
            st.fn_keys[j].1,
            k,
        ) ==> st.queue.contains((st.fn_keys[j].0, st.fn_keys[j].1, k)) || has_made(
            st.out_functions,
            st.fn_keys[j].0,
            overloads_of(st.functions, st.fn_keys[j].0)[k],
            st.fn_keys[j].1,
        )
}

/// An instance of the function is among those that were emitted.
pub open spec fn has_made(
    fs: Seq<FunctionV>,
    name: Seq<char>,
    g: FunctionV,
    args: Seq<TypeV>,
) -> bool {
    exists|i: int| 0 <= i < fs.len() && made_of(#[trigger] fs[i], name, g, args)
}

/// An item that was emitted is an instance of one of these, or is none that can be generic.
pub open spec fn is_instance(items: Seq<ItemV>, item: ItemV) -> bool {
    match item {
        ItemV::Struct(s) => exists|j: int, args: Seq<TypeV>|
            0 <= j < items.len() && items[j] is Struct && s.name == #[trigger] mangled(
                items[j]->Struct_0.name,
                args,
            ),
        ItemV::Enum(e) => exists|j: int, args: Seq<TypeV>|
            0 <= j < items.len() && items[j] is Enum && e.name == #[trigger] mangled(
                items[j]->Enum_0.name,
                args,
            ),
        ItemV::Function(f) => exists|j: int, args: Seq<TypeV>|
            0 <= j < items.len() && items[j] is Function && f.name == #[trigger] mangled(
                items[j]->Function_0.name,
                args,
            ),
        _ => true,
    }
}

/// A struct, enum or function without parameters of type.
pub open spec fn is_plain(item: ItemV) -> bool {
    match item {
        ItemV::Struct(s) => s.generics.len() == 0,
        ItemV::Enum(e) => e.generics.len() == 0,
        ItemV::Function(f) => f.generics.len() == 0,
        _ => false,
    }
}

/// The item was asked for.
pub open spec fn is_asked(st: MonoV, item: ItemV) -> bool {
    match item {
        ItemV::Struct(s) => st.struct_keys.contains((s.name, Seq::empty())),
        ItemV::Enum(e) => st.enum_keys.contains((e.name, Seq::empty())),
        ItemV::Function(f) => st.fn_keys.contains((f.name, Seq::empty())),
        _ => true,
    }
}

/// Those among the first `n` items that are not generic were asked for.
pub open spec fn asks_for(st: MonoV, items: Seq<ItemV>, n: int) -> bool {
    forall|j: int| 0 <= j < n && is_plain(#[trigger] items[j]) ==> is_asked(st, items[j])
}

/// Some item is the struct or enum of that name, or the function, lowered.
pub open spec fn is_kept(items: Seq<ItemV>, item: ItemV) -> bool {
    exists|i: int| 0 <= i < items.len() && is_lowered(#[trigger] items[i], item)
}

/// An item stands in the place of another.
pub open spec fn is_lowered(x: ItemV, item: ItemV) -> bool {
    match item {
        ItemV::Struct(s) => x is Struct && x->Struct_0.name == s.name,
        ItemV::Enum(e) => x is Enum && x->Enum_0.name == e.name,
        ItemV::Function(f) => x is Function && made_of(
            x->Function_0,
            f.name,
            f,
            Seq::empty(),
        ),
        _ => false,
    }
}

// ------------------------------------------------------------------ what is asked for

/// What there are instances of.
pub enum Sort {
    Struct,
    Enum,
    Function,
}

/// The instances that were asked for.
pub open spec fn keys_of(st: MonoV, sort: Sort) -> Seq<Key> {
    match sort {
        Sort::Struct => st.struct_keys,
        Sort::Enum => st.enum_keys,
        Sort::Function => st.fn_keys,
    }
}

/// Both states have the same structs, enums and functions to begin with.
pub open spec fn same_tables(a: MonoV, b: MonoV) -> bool {
    a.structs == b.structs && a.enums == b.enums && a.functions == b.functions
}

/// The instance is asked for on the way from one state to the other.
pub open spec fn newly(a: MonoV, b: MonoV, sort: Sort, key: Key) -> bool {
    !keys_of(a, sort).contains(key) && keys_of(b, sort).contains(key)
}

/// One of the items asks for the instance. (A generic item asks for nothing.)
pub open spec fn item_asks(items: Seq<ItemV>, sort: Sort, key: Key) -> bool {
    exists|a: MonoV, j: int|
        0 <= j < items.len() && same_tables(a, tables_from(blank(), items, 0)) && #[trigger] newly(
            a,
            seed_item(a, items[j]).1,
            sort,
            key,
        )
}

/// The first body that waits, lowered, and the state after it.
pub open spec fn next_body(a: MonoV) -> (Result<FunctionV, CompileErrorV>, MonoV) {
    let (name, args, k) = a.queue[0];
    l_function(
        MonoV { queue: a.queue.drop_first(), ..a },
        overloads_of(a.functions, name)[k],
        args,
        mangled(name, args),
    )
}

/// The body of a function that is emitted asks for the instance.
pub open spec fn body_asks(t: MonoV, f: FunctionV, sort: Sort, key: Key) -> bool {
    exists|a: MonoV|
        same_tables(a, t) && a.queue.len() > 0 && next_body(a).0 == Ok::<FunctionV, CompileErrorV>(
            f,
        ) && #[trigger] newly(a, next_body(a).1, sort, key)
}

/// One of these bodies asks for the instance.
pub open spec fn bodies_ask(t: MonoV, fs: Seq<FunctionV>, sort: Sort, key: Key) -> bool {
    exists|i: int| 0 <= i < fs.len() && body_asks(t, #[trigger] fs[i], sort, key)
}

/// Every instance was asked for by one of the items.
#[verifier::opaque]
pub open spec fn asked_by_items(items: Seq<ItemV>, st: MonoV) -> bool {
    forall|sort: Sort, k: int|
        0 <= k < keys_of(st, sort).len() ==> item_asks(items, sort, #[trigger] keys_of(st, sort)[k])
}

/// Every instance that was not asked for before was asked for by a body that is emitted.
#[verifier::opaque]
pub open spec fn asked_by_bodies(before: MonoV, st: MonoV) -> bool {
    forall|sort: Sort, k: int|
        0 <= k < keys_of(st, sort).len() ==> keys_of(before, sort).contains(
            #[trigger] keys_of(st, sort)[k],
        ) || bodies_ask(before, st.out_functions, sort, keys_of(st, sort)[k])
}

/// The instance is asked for by one of the items, or by the body of a function of the
/// result.
pub open spec fn is_asked_for(
    items: Seq<ItemV>,
    out: Seq<ItemV>,
    sort: Sort,
    key: Key,
) -> bool {
    item_asks(items, sort, key) || exists|i: int|
        0 <= i < out.len() && (#[trigger] out[i]) is Function && body_asks(
            tables_from(blank(), items, 0),
            out[i]->Function_0,
            sort,
            key,
        )
}

/// A struct, enum or function of the result is an instance that is asked for.
pub open spec fn is_needed(items: Seq<ItemV>, out: Seq<ItemV>, item: ItemV) -> bool {
    match item {
        ItemV::Struct(s) => exists|name: Seq<char>, args: Seq<TypeV>|
            s.name == #[trigger] mangled(name, args) && is_asked_for(
                items,
                out,
                Sort::Struct,
                (name, args),
            ),
        ItemV::Enum(e) => exists|name: Seq<char>, args: Seq<TypeV>|
            e.name == #[trigger] mangled(name, args) && is_asked_for(
                items,
                out,
                Sort::Enum,
                (name, args),
            ),
        ItemV::Function(f) => exists|name: Seq<char>, args: Seq<TypeV>|
            f.name == #[trigger] mangled(name, args) && is_asked_for(
                items,
                out,
                Sort::Function,
                (name, args),
            ),
        _ => true,
    }
}

/// A generic item asks for nothing.
pub proof fn law_generic_asks_nothing(a: MonoV, item: ItemV, sort: Sort, key: Key)
    requires
        waits_for_use(item),
    ensures
        !newly(a, seed_item(a, item).1, sort, key),
{
}

// ------------------------------------------------------------------- editor support

/// The scope with the parameters from `i` on, their types as they are written.
pub open spec fn written_scope(ps: Seq<ParamV>, i: int, env: Subst) -> Subst
    decreases ps.len() - i,
{
    if 0 <= i < ps.len() {
        written_scope(ps, i + 1, env.insert(ps[i].name, ps[i].ty))
    } else {
        env
    }
}

/// Where an arm begins.
pub open spec fn arm_start(arm: MatchArmV) -> int {
    let p = arm.pattern.span.start as int;
    let b = arm.body.span.start as int;
    let m = if p <= b {
        p
    } else {
        b
    };
    match arm.guard {
        None => m,
        Some(g) => if g.span.start < m {
            g.span.start as int
        } else {
            m
        },
    }
}

/// How many of the arms from `i` on begin before `offset`, up to the first that does not.
pub open spec fn arms_before(arms: Seq<MatchArmV>, offset: int, i: int) -> int
    decreases arms.len() - i,
{
    if 0 <= i < arms.len() && arm_start(arms[i]) < offset {
        arms_before(arms, offset, i + 1)
    } else {
        i
    }
}

/// The scope after the statements from `i` on that begin before `offset`, and the state.
#[verifier::opaque]
pub open spec fn seen_stmts(st: MonoV, stmts: Seq<ExprV>, i: int, offset: int, env: Subst) -> (
    MonoV,
    Subst,
)
    decreases stmts, stmts.len() - i,
{
    if 0 <= i < stmts.len() && stmts[i].span.start < offset {
        let (st1, env1) = seen_stmt(st, stmts[i], offset, env);
        seen_stmts(st1, stmts, i + 1, offset, env1)
    } else {
        (st, env)
    }
}

/// The scope after what of a statement begins before `offset`, and the state.
#[verifier::opaque]
pub open spec fn seen_stmt(st: MonoV, e: ExprV, offset: int, env: Subst) -> (MonoV, Subst)
    decreases e, 0int,
{
    match e.kind {
        ExprKindV::Let { name, ty, value, is_mut } => match ty {
            Some(t) => (st, env.insert(name, t)),
            None => {
                let (r, st1, env1) = l_expr(st, *value, env, Map::empty(), None);
                match r {
                    Err(_) => (st1, env1),
                    Ok((v2, t)) => (st1, env1.insert(name, t)),
                }
            },
        },
        ExprKindV::Block(b) => seen_stmts(st, b.stmts, 0, offset, env),
        ExprKindV::If { cond, then_branch, else_branch } => {
            let (st1, env1) = seen_stmts(st, then_branch.stmts, 0, offset, env);
            match else_branch {
                Some(b) => seen_stmts(st1, b.stmts, 0, offset, env1),
                None => (st1, env1),
            }
        },
        ExprKindV::While { cond, body } => seen_stmts(st, body.stmts, 0, offset, env),
        ExprKindV::For { var, iter, body } => seen_stmts(st, body.stmts, 0, offset, env),
        ExprKindV::Match { expr, arms } => {
            let (r, st1, env1) = l_expr(st, *expr, env, Map::empty(), None);
            let n = arms_before(arms, offset, 0);
            match r {
                Err(_) => (st1, env1),
                Ok((s2, subject)) => if 0 < n <= arms.len() {
                    seen_arm(st1, arms[n - 1], subject, offset, env1)
                } else {
                    (st1, env1)
                },
            }
        },
        _ => (st, env),
    }
}

/// The scope after what of an arm begins before `offset`, and the state.
#[verifier::opaque]
pub open spec fn seen_arm(st: MonoV, arm: MatchArmV, subject: TypeV, offset: int, env: Subst) -> (
    MonoV,
    Subst,
)
    decreases arm, 0int,
{
    let (r, st1) = l_pat(st, arm.pattern, subject);
    let env1 = match r {
        Err(_) => env,
        Ok((p, bs)) => bind_all(env, bs, 0),
    };
    match arm.body.kind {
        ExprKindV::Block(b) => seen_stmts(st1, b.stmts, 0, offset, env1),
        _ => (st1, env1),
    }
}

/// The type of a variable that is visible at `offset` in a function of a module.
pub open spec fn var_type_at(m: ModuleV, f: FunctionV, name: Seq<char>, offset: int) -> Option<TypeV> {
    lookup(
        seen_stmts(
            tables_from(blank(), m.items, 0),
            f.body.stmts,
            0,
            offset,
            written_scope(f.params, 0, Map::empty()),
        ).1,
        name,
    )
}

/// An item that stands for nothing until it is used: one with parameters of type, or an alias.
pub open spec fn waits_for_use(item: ItemV) -> bool {
    match item {
        ItemV::Struct(s) => s.generics.len() > 0,
        ItemV::Enum(e) => e.generics.len() > 0,
        ItemV::Function(f) => f.generics.len() > 0,
        ItemV::TypeAlias(_) => true,
        _ => false,
    }
}

proof fn lemma_nothing_seeded(st: MonoV, items: Seq<ItemV>, i: int)
    requires
        forall|j: int| 0 <= j < items.len() ==> #[trigger] waits_for_use(items[j]),
    ensures
        seed_items(st, items, i) == (Ok::<(), CompileErrorV>(()), st),
    decreases items.len() - i,
{
    if 0 <= i < items.len() {
        assert(waits_for_use(items[i]));
        lemma_nothing_seeded(st, items, i + 1);
    }
}

proof fn lemma_tables_emit_nothing(st: MonoV, items: Seq<ItemV>, i: int)
    ensures
        ({
            let t = tables_from(st, items, i);
            &&& t.queue == st.queue
            &&& emitted_items(t) == emitted_items(st)
        }),
    decreases items.len() - i,
{
    if 0 <= i < items.len() {
        lemma_tables_emit_nothing(tabled(st, items[i]), items, i + 1);
        assert(emitted_items(tabled(st, items[i])) =~= emitted_items(st));
    }
}

/// Generic items that nothing uses are dropped: of a module with no other items nothing is
/// left.
pub proof fn law_unused_generics_are_dropped(m: ModuleV)
    requires
        forall|j: int| 0 <= j < m.items.len() ==> #[trigger] waits_for_use(m.items[j]),
    ensures
        lowered_module(m) == Ok::<ModuleV, CompileErrorV>(
            ModuleV { name: m.name, imports: m.imports, items: Seq::empty() },
        ),
{
    let st = tables_from(blank(), m.items, 0);
    lemma_nothing_seeded(st, m.items, 0);
    lemma_tables_emit_nothing(blank(), m.items, 0);
    assert(emitted_items(blank()) =~= Seq::empty());
}

} // verus!
