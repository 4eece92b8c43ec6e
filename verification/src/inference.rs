//! What the inference of type arguments promises: the instance that is made for a call takes
//! the arguments of the call, and where there are such type arguments they are found.
use vstd::prelude::*;

verus! {

use crate::ast::named_type;
use crate::model::{
    ExprKindV, ExprV, FunctionV, GenericParamV, ParamV, PathSegmentV, StructFieldV, TypeV,
};
use crate::mono_model::{
    MonoV, Subst, bind_generics, call_instance, depth_limit, follow, generic_names, generic_subst,
    has_open, in_order, init_of, mangled, occurs, occurs_in, occurs_in_segments, resolved,
    subst_segments, subst_type, subst_types, type_arguments, unify, unify_args, unify_part,
    unify_segments, unify_shapes, unify_types, var_of,
};
use crate::mono_rules::{
    un_unify, un_unify_part, un_unify_segments, un_unify_shapes, un_unify_types,
};
use crate::token::Span;

// ---------------------------------------------------------------------------- types

/// A type in which none of these names stands alone, and which has values.
pub open spec fn is_ground(t: TypeV, vars: Seq<Seq<char>>) -> bool
    decreases t, 0int,
{
    match t {
        TypeV::Path(p) => are_ground_segments(p.segments, vars),
        TypeV::GcRef(x) => is_ground(*x, vars),
        TypeV::Function(f) => are_ground(f.params, vars) && is_ground(*f.ret, vars),
        TypeV::Tuple(ts) => are_ground(ts, vars),
        TypeV::Unit => true,
        TypeV::Never => false,
    }
}

pub open spec fn are_ground(ts: Seq<TypeV>, vars: Seq<Seq<char>>) -> bool
    decreases ts, 0int,
{
    forall|i: int| 0 <= i < ts.len() ==> is_ground(#[trigger] ts[i], vars)
}

pub open spec fn are_ground_segments(segs: Seq<PathSegmentV>, vars: Seq<Seq<char>>) -> bool
    decreases segs, 0int,
{
    forall|i: int|
        0 <= i < segs.len() ==> are_ground((#[trigger] segs[i]).args, vars) && !(segs[i].args.len()
            == 0 && vars.contains(segs[i].name))
}

/// A type whose parts have values.
pub open spec fn has_values(t: TypeV) -> bool
    decreases t, 0int,
{
    match t {
        TypeV::Path(p) => segments_have_values(p.segments),
        TypeV::GcRef(x) => has_values(*x),
        TypeV::Function(f) => all_have_values(f.params) && has_values(*f.ret),
        TypeV::Tuple(ts) => all_have_values(ts),
        TypeV::Unit => true,
        TypeV::Never => false,
    }
}

pub open spec fn all_have_values(ts: Seq<TypeV>) -> bool
    decreases ts, 0int,
{
    forall|i: int| 0 <= i < ts.len() ==> has_values(#[trigger] ts[i])
}

pub open spec fn segments_have_values(segs: Seq<PathSegmentV>) -> bool
    decreases segs, 0int,
{
    forall|i: int| 0 <= i < segs.len() ==> all_have_values((#[trigger] segs[i]).args)
}

/// How many parts a type has.
pub open spec fn size_of_type(t: TypeV) -> nat
    decreases t, 0int,
{
    match t {
        TypeV::Path(p) => 1 + size_of_segments(p.segments, 0),
        TypeV::GcRef(x) => 1 + size_of_type(*x),
        TypeV::Function(f) => 1 + size_of_types(f.params, 0) + size_of_type(*f.ret),
        TypeV::Tuple(ts) => 1 + size_of_types(ts, 0),
        _ => 1,
    }
}

pub open spec fn size_of_types(ts: Seq<TypeV>, i: int) -> nat
    decreases ts, ts.len() - i,
{
    if 0 <= i < ts.len() {
        size_of_type(ts[i]) + size_of_types(ts, i + 1)
    } else {
        0
    }
}

pub open spec fn size_of_segments(segs: Seq<PathSegmentV>, i: int) -> nat
    decreases segs, segs.len() - i,
{
    if 0 <= i < segs.len() {
        size_of_types(segs[i].args, 0) + size_of_segments(segs, i + 1)
    } else {
        0
    }
}

/// A type with its variables replaced is this type.
pub open spec fn becomes(a: TypeV, b: TypeV, vars: Seq<Seq<char>>, s: Subst) -> bool
    decreases a, 0int,
{
    match var_of(a, vars) {
        Some(v) => s.contains_key(v) && s[v] == b,
        None => match (a, b) {
            (TypeV::Path(p), TypeV::Path(q)) => segments_become(p.segments, q.segments, vars, s),
            (TypeV::GcRef(x), TypeV::GcRef(y)) => becomes(*x, *y, vars, s),
            (TypeV::Function(f), TypeV::Function(g)) => all_become(f.params, g.params, vars, s)
                && becomes(*f.ret, *g.ret, vars, s),
            (TypeV::Tuple(xs), TypeV::Tuple(ys)) => all_become(xs, ys, vars, s),
            (TypeV::Unit, TypeV::Unit) => true,
            _ => false,
        },
    }
}

pub open spec fn all_become(
    xs: Seq<TypeV>,
    ys: Seq<TypeV>,
    vars: Seq<Seq<char>>,
    s: Subst,
) -> bool
    decreases xs, 0int,
{
    xs.len() == ys.len() && forall|i: int|
        0 <= i < xs.len() ==> becomes(#[trigger] xs[i], ys[i], vars, s)
}

pub open spec fn segments_become(
    xs: Seq<PathSegmentV>,
    ys: Seq<PathSegmentV>,
    vars: Seq<Seq<char>>,
    s: Subst,
) -> bool
    decreases xs, 0int,
{
    xs.len() == ys.len() && forall|i: int|
        0 <= i < xs.len() ==> (#[trigger] xs[i]).name == ys[i].name && all_become(
            xs[i].args,
            ys[i].args,
            vars,
            s,
        )
}

/// Bindings of some of the variables to types without variables.
pub open spec fn is_binding(s: Subst, vars: Seq<Seq<char>>) -> bool {
    forall|v: Seq<char>| #[trigger]
        s.contains_key(v) ==> vars.contains(v) && is_ground(s[v], vars)
}

/// The second binds what the first does, alike.
pub open spec fn keeps(s: Subst, t: Subst) -> bool {
    forall|v: Seq<char>| #[trigger] s.contains_key(v) ==> t.contains_key(v) && t[v] == s[v]
}

// -------------------------------------------------------------------------- helpers

proof fn lemma_not_in(v: Seq<char>, t: TypeV, vars: Seq<Seq<char>>)
    requires
        vars.contains(v),
        is_ground(t, vars),
    ensures
        !occurs(v, t),
        var_of(t, vars) is None,
    decreases t, 0int,
{
    match t {
        TypeV::Path(p) => {
            lemma_not_in_segments(v, p.segments, 0, vars);
            if p.segments.len() == 1 {
                assert(!(p.segments[0].args.len() == 0 && vars.contains(p.segments[0].name)));
            }
        },
        TypeV::GcRef(x) => {
            lemma_not_in(v, *x, vars);
        },
        TypeV::Function(f) => {
            lemma_not_in_types(v, f.params, 0, vars);
            lemma_not_in(v, *f.ret, vars);
        },
        TypeV::Tuple(ts) => {
            lemma_not_in_types(v, ts, 0, vars);
        },
        _ => {},
    }
}

proof fn lemma_not_in_types(v: Seq<char>, ts: Seq<TypeV>, i: int, vars: Seq<Seq<char>>)
    requires
        vars.contains(v),
        are_ground(ts, vars),
    ensures
        !occurs_in(v, ts, i),
    decreases ts, ts.len() - i,
{
    if 0 <= i < ts.len() {
        lemma_not_in(v, ts[i], vars);
        lemma_not_in_types(v, ts, i + 1, vars);
    }
}

proof fn lemma_not_in_segments(v: Seq<char>, segs: Seq<PathSegmentV>, i: int, vars: Seq<Seq<char>>)
    requires
        vars.contains(v),
        are_ground_segments(segs, vars),
    ensures
        !occurs_in_segments(v, segs, i),
    decreases segs, segs.len() - i,
{
    if 0 <= i < segs.len() {
        assert(are_ground(segs[i].args, vars));
        lemma_not_in_types(v, segs[i].args, 0, vars);
        lemma_not_in_segments(v, segs, i + 1, vars);
    }
}

proof fn lemma_no_variable(t: TypeV, vars: Seq<Seq<char>>)
    requires
        is_ground(t, vars),
    ensures
        var_of(t, vars) is None,
{
    if let Some(v) = var_of(t, vars) {
        lemma_not_in(v, t, vars);
    }
}

proof fn lemma_ground_has_values(t: TypeV, vars: Seq<Seq<char>>)
    requires
        is_ground(t, vars),
    ensures
        has_values(t),
    decreases t, 0int,
{
    match t {
        TypeV::Path(p) => {
            assert(are_ground_segments(p.segments, vars));
            assert forall|i: int| 0 <= i < p.segments.len() implies all_have_values(
                (#[trigger] p.segments[i]).args,
            ) by {
                lemma_ground_have_values(p.segments[i].args, vars);
            }
            assert(segments_have_values(p.segments));
        },
        TypeV::GcRef(x) => {
            lemma_ground_has_values(*x, vars);
        },
        TypeV::Function(f) => {
            lemma_ground_have_values(f.params, vars);
            lemma_ground_has_values(*f.ret, vars);
        },
        TypeV::Tuple(ts) => {
            lemma_ground_have_values(ts, vars);
        },
        _ => {},
    }
}

proof fn lemma_ground_have_values(ts: Seq<TypeV>, vars: Seq<Seq<char>>)
    requires
        are_ground(ts, vars),
    ensures
        all_have_values(ts),
    decreases ts, 0int,
{
    assert forall|i: int| 0 <= i < ts.len() implies has_values(#[trigger] ts[i]) by {
        lemma_ground_has_values(ts[i], vars);
    }
}

/// A type without variables becomes itself and nothing else.
proof fn lemma_ground_becomes(a: TypeV, b: TypeV, vars: Seq<Seq<char>>, s: Subst)
    requires
        is_ground(a, vars),
    ensures
        becomes(a, b, vars, s) <==> a == b,
    decreases a, 0int,
{
    lemma_no_variable(a, vars);
    match (a, b) {
        (TypeV::Path(p), TypeV::Path(q)) => {
            lemma_ground_segments_become(p.segments, q.segments, vars, s);
        },
        (TypeV::GcRef(x), TypeV::GcRef(y)) => {
            lemma_ground_becomes(*x, *y, vars, s);
        },
        (TypeV::Function(f), TypeV::Function(g)) => {
            lemma_ground_all_become(f.params, g.params, vars, s);
            lemma_ground_becomes(*f.ret, *g.ret, vars, s);
        },
        (TypeV::Tuple(xs), TypeV::Tuple(ys)) => {
            lemma_ground_all_become(xs, ys, vars, s);
        },
        _ => {},
    }
}

proof fn lemma_ground_all_become(
    xs: Seq<TypeV>,
    ys: Seq<TypeV>,
    vars: Seq<Seq<char>>,
    s: Subst,
)
    requires
        are_ground(xs, vars),
    ensures
        all_become(xs, ys, vars, s) <==> xs == ys,
    decreases xs, 0int,
{
    if xs.len() == ys.len() {
        assert forall|i: int| 0 <= i < xs.len() implies (becomes(#[trigger] xs[i], ys[i], vars, s)
            <==> xs[i] == ys[i]) by {
            lemma_ground_becomes(xs[i], ys[i], vars, s);
        }
        if all_become(xs, ys, vars, s) {
            assert(xs =~= ys);
        }
    }
}

proof fn lemma_ground_segments_become(
    xs: Seq<PathSegmentV>,
    ys: Seq<PathSegmentV>,
    vars: Seq<Seq<char>>,
    s: Subst,
)
    requires
        are_ground_segments(xs, vars),
    ensures
        segments_become(xs, ys, vars, s) <==> xs == ys,
    decreases xs, 0int,
{
    if xs.len() == ys.len() {
        assert forall|i: int| 0 <= i < xs.len() implies (all_become(
            (#[trigger] xs[i]).args,
            ys[i].args,
            vars,
            s,
        ) <==> xs[i].args == ys[i].args) by {
            lemma_ground_all_become(xs[i].args, ys[i].args, vars, s);
        }
        if segments_become(xs, ys, vars, s) {
            assert forall|i: int| 0 <= i < xs.len() implies xs[i] == ys[i] by {
                assert(xs[i].name == ys[i].name);
            }
            assert(xs =~= ys);
        }
    }
}

/// More bindings change nothing of what became of a type.
proof fn lemma_still_becomes(a: TypeV, b: TypeV, vars: Seq<Seq<char>>, s: Subst, t: Subst)
    requires
        becomes(a, b, vars, s),
        keeps(s, t),
    ensures
        becomes(a, b, vars, t),
    decreases a, 0int,
{
    if var_of(a, vars) is None {
        match (a, b) {
            (TypeV::Path(p), TypeV::Path(q)) => {
                assert(segments_become(p.segments, q.segments, vars, s));
                assert forall|i: int| 0 <= i < p.segments.len() implies (#[trigger] p.segments[i]).name
                    == q.segments[i].name && all_become(
                    p.segments[i].args,
                    q.segments[i].args,
                    vars,
                    t,
                ) by {
                    lemma_all_still_become(p.segments[i].args, q.segments[i].args, vars, s, t);
                }
                assert(segments_become(p.segments, q.segments, vars, t));
            },
            (TypeV::GcRef(x), TypeV::GcRef(y)) => {
                lemma_still_becomes(*x, *y, vars, s, t);
            },
            (TypeV::Function(f), TypeV::Function(g)) => {
                lemma_all_still_become(f.params, g.params, vars, s, t);
                lemma_still_becomes(*f.ret, *g.ret, vars, s, t);
            },
            (TypeV::Tuple(xs), TypeV::Tuple(ys)) => {
                lemma_all_still_become(xs, ys, vars, s, t);
            },
            _ => {},
        }
    }
}

proof fn lemma_all_still_become(
    xs: Seq<TypeV>,
    ys: Seq<TypeV>,
    vars: Seq<Seq<char>>,
    s: Subst,
    t: Subst,
)
    requires
        all_become(xs, ys, vars, s),
        keeps(s, t),
    ensures
        all_become(xs, ys, vars, t),
    decreases xs, 0int,
{
    assert forall|i: int| 0 <= i < xs.len() implies becomes(#[trigger] xs[i], ys[i], vars, t) by {
        lemma_still_becomes(xs[i], ys[i], vars, s, t);
    }
}

// ---------------------------------------------------------------------- unification

/// What unification owes: where it succeeds the types are equal under the bindings, and it
/// succeeds where some bindings make them equal, without contradicting those.
pub open spec fn unifies(
    ok: bool,
    s: Subst,
    s1: Subst,
    m: Subst,
    vars: Seq<Seq<char>>,
    equal: bool,
    possible: bool,
) -> bool {
    &&& ok ==> equal && keeps(s, s1) && is_binding(s1, vars)
    &&& possible && keeps(s, m) ==> ok && keeps(s1, m)
}

proof fn lemma_unify(fuel: nat, a: TypeV, b: TypeV, vars: Seq<Seq<char>>, s: Subst, m: Subst)
    requires
        has_values(a),
        is_ground(b, vars),
        is_binding(s, vars),
    ensures
        ({
            let (r, s1) = unify(fuel, a, b, vars, s);
            unifies(
                r is Ok,
                s,
                s1,
                m,
                vars,
                becomes(a, b, vars, s1),
                becomes(a, b, vars, m) && size_of_type(b) <= fuel,
            )
        }),
    decreases fuel, 4int, 0int,
{
    un_unify(fuel, a, b, vars, s);
    lemma_no_variable(b, vars);
    assert(resolved(b, vars, s) == b);
    match var_of(a, vars) {
        Some(v) => {
            assert(vars.contains(v));
            assert(vars.len() > 0);
            if s.contains_key(v) {
                let t = s[v];
                lemma_no_variable(t, vars);
                assert(follow((vars.len() - 1) as nat, t, vars, s) == t);
                assert(resolved(a, vars, s) == t);
                lemma_ground_has_values(t, vars);
                lemma_shapes(fuel, t, b, vars, s, m);
                let (r, s1) = unify_shapes(fuel, t, b, vars, s);
                lemma_ground_becomes(t, b, vars, s1);
                lemma_ground_becomes(t, b, vars, m);
            } else {
                assert(resolved(a, vars, s) == a);
                lemma_not_in(v, b, vars);
            }
        },
        None => {
            assert(resolved(a, vars, s) == a);
            lemma_shapes(fuel, a, b, vars, s, m);
        },
    }
}

proof fn lemma_shapes(fuel: nat, a: TypeV, b: TypeV, vars: Seq<Seq<char>>, s: Subst, m: Subst)
    requires
        has_values(a),
        var_of(a, vars) is None,
        is_ground(b, vars),
        is_binding(s, vars),
    ensures
        ({
            let (r, s1) = unify_shapes(fuel, a, b, vars, s);
            unifies(
                r is Ok,
                s,
                s1,
                m,
                vars,
                becomes(a, b, vars, s1),
                becomes(a, b, vars, m) && size_of_type(b) <= fuel,
            )
        }),
    decreases fuel, 3int, 0int,
{
    un_unify_shapes(fuel, a, b, vars, s);
    match (a, b) {
        (TypeV::Path(p), TypeV::Path(q)) => {
            if p.segments.len() == q.segments.len() {
                lemma_segments(fuel, a, b, p.segments, q.segments, 0, vars, s, m);
            } else {
                assert(!segments_become(p.segments, q.segments, vars, m));
            }
        },
        (TypeV::GcRef(x), TypeV::GcRef(y)) => {
            lemma_part(fuel, *x, *y, vars, s, m);
        },
        (TypeV::Function(f), TypeV::Function(g)) => {
            if f.params.len() == g.params.len() {
                lemma_types(fuel, f.params, g.params, 0, vars, s, m);
                let (r, s1) = unify_types(fuel, f.params, g.params, 0, vars, s);
                if r is Ok {
                    lemma_part(fuel, *f.ret, *g.ret, vars, s1, m);
                    let (r2, s2) = unify_part(fuel, *f.ret, *g.ret, vars, s1);
                    if r2 is Ok {
                        lemma_all_still_become(f.params, g.params, vars, s1, s2);
                    }
                }
            } else {
                assert(!all_become(f.params, g.params, vars, m));
            }
        },
        (TypeV::Tuple(xs), TypeV::Tuple(ys)) => {
            if xs.len() == ys.len() {
                lemma_types(fuel, xs, ys, 0, vars, s, m);
            } else {
                assert(!all_become(xs, ys, vars, m));
            }
        },
        _ => {},
    }
}

proof fn lemma_part(fuel: nat, a: TypeV, b: TypeV, vars: Seq<Seq<char>>, s: Subst, m: Subst)
    requires
        has_values(a),
        is_ground(b, vars),
        is_binding(s, vars),
    ensures
        ({
            let (r, s1) = unify_part(fuel, a, b, vars, s);
            unifies(
                r is Ok,
                s,
                s1,
                m,
                vars,
                becomes(a, b, vars, s1),
                becomes(a, b, vars, m) && size_of_type(b) < fuel,
            )
        }),
    decreases fuel, 0int, 0int,
{
    un_unify_part(fuel, a, b, vars, s);
    if fuel > 0 {
        lemma_unify((fuel - 1) as nat, a, b, vars, s, m);
    }
}

proof fn lemma_types(
    fuel: nat,
    xs: Seq<TypeV>,
    ys: Seq<TypeV>,
    i: int,
    vars: Seq<Seq<char>>,
    s: Subst,
    m: Subst,
)
    requires
        0 <= i <= xs.len(),
        xs.len() == ys.len(),
        all_have_values(xs),
        are_ground(ys, vars),
        is_binding(s, vars),
    ensures
        ({
            let (r, s1) = unify_types(fuel, xs, ys, i, vars, s);
            &&& unifies(
                r is Ok,
                s,
                s1,
                m,
                vars,
                forall|k: int| i <= k < xs.len() ==> becomes(#[trigger] xs[k], ys[k], vars, s1),
                all_become(xs, ys, vars, m) && size_of_types(ys, i) < fuel,
            )
            &&& i == 0 && r is Ok ==> all_become(xs, ys, vars, s1)
        }),
    decreases fuel, 1int, xs.len() - i,
{
    un_unify_types(fuel, xs, ys, i, vars, s);
    if i < xs.len() {
        lemma_part(fuel, xs[i], ys[i], vars, s, m);
        let (r, s1) = unify_part(fuel, xs[i], ys[i], vars, s);
        if r is Ok {
            lemma_types(fuel, xs, ys, i + 1, vars, s1, m);
            let (r2, s2) = unify_types(fuel, xs, ys, i + 1, vars, s1);
            if r2 is Ok {
                lemma_still_becomes(xs[i], ys[i], vars, s1, s2);
            }
        }
    }
}

proof fn lemma_segments(
    fuel: nat,
    a: TypeV,
    b: TypeV,
    xs: Seq<PathSegmentV>,
    ys: Seq<PathSegmentV>,
    i: int,
    vars: Seq<Seq<char>>,
    s: Subst,
    m: Subst,
)
    requires
        0 <= i <= xs.len(),
        xs.len() == ys.len(),
        segments_have_values(xs),
        are_ground_segments(ys, vars),
        is_binding(s, vars),
    ensures
        ({
            let (r, s1) = unify_segments(fuel, a, b, xs, ys, i, vars, s);
            &&& unifies(
                r is Ok,
                s,
                s1,
                m,
                vars,
                forall|k: int|
                    i <= k < xs.len() ==> (#[trigger] xs[k]).name == ys[k].name && all_become(
                        xs[k].args,
                        ys[k].args,
                        vars,
                        s1,
                    ),
                segments_become(xs, ys, vars, m) && size_of_segments(ys, i) < fuel,
            )
            &&& i == 0 && r is Ok ==> segments_become(xs, ys, vars, s1)
        }),
    decreases fuel, 2int, xs.len() - i,
{
    un_unify_segments(fuel, a, b, xs, ys, i, vars, s);
    if i < xs.len() {
        assert(all_have_values(xs[i].args));
        assert(are_ground(ys[i].args, vars));
        if xs[i].name == ys[i].name && xs[i].args.len() == ys[i].args.len() {
            lemma_types(fuel, xs[i].args, ys[i].args, 0, vars, s, m);
            let (r, s1) = unify_types(fuel, xs[i].args, ys[i].args, 0, vars, s);
            if r is Ok {
                lemma_segments(fuel, a, b, xs, ys, i + 1, vars, s1, m);
                let (r2, s2) = unify_segments(fuel, a, b, xs, ys, i + 1, vars, s1);
                if r2 is Ok {
                    lemma_all_still_become(xs[i].args, ys[i].args, vars, s1, s2);
                }
            }
        }
    }
}

// --------------------------------------------------------------------- substitution

/// To become another type is to be it once the names are substituted.
proof fn lemma_substituted(a: TypeV, b: TypeV, vars: Seq<Seq<char>>, s: Subst)
    requires
        forall|v: Seq<char>| #[trigger] s.contains_key(v) ==> vars.contains(v),
        becomes(a, b, vars, s),
    ensures
        subst_type(a, s) == b,
    decreases a, 0int,
{
    if var_of(a, vars) is None {
        match (a, b) {
            (TypeV::Path(p), TypeV::Path(q)) => {
                assert(segments_become(p.segments, q.segments, vars, s));
                assert forall|i: int| 0 <= i < p.segments.len() implies subst_types(
                    (#[trigger] p.segments[i]).args,
                    s,
                ) == q.segments[i].args by {
                    lemma_all_substituted(p.segments[i].args, q.segments[i].args, vars, s);
                }
                assert(subst_segments(p.segments, s) =~= q.segments);
            },
            (TypeV::GcRef(x), TypeV::GcRef(y)) => {
                lemma_substituted(*x, *y, vars, s);
            },
            (TypeV::Function(f), TypeV::Function(g)) => {
                lemma_all_substituted(f.params, g.params, vars, s);
                lemma_substituted(*f.ret, *g.ret, vars, s);
            },
            (TypeV::Tuple(xs), TypeV::Tuple(ys)) => {
                lemma_all_substituted(xs, ys, vars, s);
            },
            _ => {},
        }
    }
}

proof fn lemma_all_substituted(xs: Seq<TypeV>, ys: Seq<TypeV>, vars: Seq<Seq<char>>, s: Subst)
    requires
        forall|v: Seq<char>| #[trigger] s.contains_key(v) ==> vars.contains(v),
        all_become(xs, ys, vars, s),
    ensures
        subst_types(xs, s) == ys,
    decreases xs, 0int,
{
    assert forall|i: int| 0 <= i < xs.len() implies subst_type(#[trigger] xs[i], s) == ys[i] by {
        lemma_substituted(xs[i], ys[i], vars, s);
    }
    assert(subst_types(xs, s) =~= ys);
}

/// The other way round, where all the names are bound.
proof fn lemma_becomes_substituted(a: TypeV, vars: Seq<Seq<char>>, m: Subst)
    requires
        has_values(a),
        forall|v: Seq<char>| #[trigger] m.contains_key(v) <==> vars.contains(v),
    ensures
        becomes(a, subst_type(a, m), vars, m),
    decreases a, 0int,
{
    match a {
        TypeV::Path(p) => {
            if var_of(a, vars) is None {
                assert forall|i: int| 0 <= i < p.segments.len() implies all_become(
                    (#[trigger] p.segments[i]).args,
                    subst_types(p.segments[i].args, m),
                    vars,
                    m,
                ) by {
                    assert(segments_have_values(p.segments));
                    lemma_all_become_substituted(p.segments[i].args, vars, m);
                }
                assert(segments_become(p.segments, subst_segments(p.segments, m), vars, m));
            }
        },
        TypeV::GcRef(x) => {
            lemma_becomes_substituted(*x, vars, m);
        },
        TypeV::Function(f) => {
            lemma_all_become_substituted(f.params, vars, m);
            lemma_becomes_substituted(*f.ret, vars, m);
        },
        TypeV::Tuple(ts) => {
            lemma_all_become_substituted(ts, vars, m);
        },
        _ => {},
    }
}

proof fn lemma_all_become_substituted(ts: Seq<TypeV>, vars: Seq<Seq<char>>, m: Subst)
    requires
        all_have_values(ts),
        forall|v: Seq<char>| #[trigger] m.contains_key(v) <==> vars.contains(v),
    ensures
        all_become(ts, subst_types(ts, m), vars, m),
    decreases ts, 0int,
{
    assert forall|i: int| 0 <= i < ts.len() implies becomes(
        #[trigger] ts[i],
        subst_types(ts, m)[i],
        vars,
        m,
    ) by {
        lemma_becomes_substituted(ts[i], vars, m);
    }
}

// ---------------------------------------------------------------------------- calls

proof fn lemma_args(
    ps: Seq<ParamV>,
    ts: Seq<TypeV>,
    i: int,
    vars: Seq<Seq<char>>,
    s: Subst,
    m: Subst,
)
    requires
        0 <= i <= ps.len(),
        ps.len() == ts.len(),
        forall|k: int| 0 <= k < ps.len() ==> has_values((#[trigger] ps[k]).ty),
        are_ground(ts, vars),
        is_binding(s, vars),
    ensures
        ({
            let (r, s1) = unify_args(ps, ts, i, vars, s);
            unifies(
                r is Ok,
                s,
                s1,
                m,
                vars,
                forall|k: int| i <= k < ps.len() ==> becomes((#[trigger] ps[k]).ty, ts[k], vars, s1),
                forall|k: int|
                    i <= k < ps.len() ==> becomes((#[trigger] ps[k]).ty, ts[k], vars, m)
                        && size_of_type(ts[k]) <= depth_limit(),
            )
        }),
    decreases ps.len() - i,
{
    if i < ps.len() {
        lemma_unify(depth_limit(), ps[i].ty, ts[i], vars, s, m);
        let (r, s1) = unify(depth_limit(), ps[i].ty, ts[i], vars, s);
        if r is Ok {
            lemma_args(ps, ts, i + 1, vars, s1, m);
            let (r2, s2) = unify_args(ps, ts, i + 1, vars, s1);
            if r2 is Ok {
                lemma_still_becomes(ps[i].ty, ts[i], vars, s1, s2);
            }
        }
    }
}

/// What a generic parameter stands for in an instance.
pub proof fn law_arguments_are_substituted(gs: Seq<GenericParamV>, args: Seq<TypeV>, k: int)
    requires
        0 <= k < gs.len(),
        gs.len() == args.len(),
        forall|i: int, j: int|
            0 <= i < j < gs.len() ==> (#[trigger] gs[i]).name != (#[trigger] gs[j]).name,
    ensures
        subst_type(named_type(gs[k].name), generic_subst(gs, args)) == args[k],
        forall|name: Seq<char>| #[trigger]
            generic_subst(gs, args).contains_key(name) ==> generic_names(gs).contains(name),
{
    lemma_bound(gs, args, 0, Map::empty(), k);
    lemma_only_generics(gs, args, 0, Map::empty());
}

proof fn lemma_bound(gs: Seq<GenericParamV>, args: Seq<TypeV>, i: int, m: Subst, k: int)
    requires
        0 <= i <= gs.len(),
        0 <= k < gs.len(),
        gs.len() == args.len(),
        forall|a: int, b: int|
            0 <= a < b < gs.len() ==> (#[trigger] gs[a]).name != (#[trigger] gs[b]).name,
        k < i ==> m.contains_key(gs[k].name) && m[gs[k].name] == args[k],
    ensures
        bind_generics(gs, args, i, m).contains_key(gs[k].name),
        bind_generics(gs, args, i, m)[gs[k].name] == args[k],
    decreases gs.len() - i,
{
    if i < gs.len() {
        lemma_bound(gs, args, i + 1, m.insert(gs[i].name, args[i]), k);
    }
}

proof fn lemma_only_generics(gs: Seq<GenericParamV>, args: Seq<TypeV>, i: int, m: Subst)
    requires
        0 <= i <= gs.len(),
        gs.len() == args.len(),
        forall|v: Seq<char>| #[trigger] m.contains_key(v) ==> generic_names(gs).contains(v),
    ensures
        forall|v: Seq<char>| #[trigger]
            bind_generics(gs, args, i, m).contains_key(v) ==> generic_names(gs).contains(v),
    decreases gs.len() - i,
{
    if i < gs.len() {
        assert(generic_names(gs)[i] == gs[i].name);
        let next = m.insert(gs[i].name, args[i]);
        lemma_only_generics(gs, args, i + 1, next);
        assert(bind_generics(gs, args, i, m) == bind_generics(gs, args, i + 1, next));
    } else {
        assert(bind_generics(gs, args, i, m) == m);
    }
}

/// What is bound is what the type arguments are; where none is open all are bound.
proof fn lemma_arguments(gs: Seq<GenericParamV>, s: Subst)
    requires
        is_binding(s, generic_names(gs)),
        forall|i: int, j: int|
            0 <= i < j < gs.len() ==> (#[trigger] gs[i]).name != (#[trigger] gs[j]).name,
        !has_open(type_arguments(gs, s), generic_names(gs)),
    ensures
        generic_subst(gs, type_arguments(gs, s)) == s,
        forall|k: int|
            0 <= k < gs.len() ==> s.contains_key((#[trigger] gs[k]).name)
                && type_arguments(gs, s)[k] == s[gs[k].name],
{
    let vars = generic_names(gs);
    let args = type_arguments(gs, s);
    assert forall|k: int| 0 <= k < gs.len() implies s.contains_key((#[trigger] gs[k]).name)
        && args[k] == s[gs[k].name] by {
        let t = named_type(gs[k].name);
        assert(vars[k] == gs[k].name);
        assert(var_of(t, vars) == Some(gs[k].name));
        if s.contains_key(gs[k].name) {
            lemma_no_variable(s[gs[k].name], vars);
            assert(follow((vars.len() - 1) as nat, s[gs[k].name], vars, s) == s[gs[k].name]);
        } else {
            assert(args[k] == t);
            assert(var_of(args[k], vars) is Some);
        }
    }
    let g = generic_subst(gs, args);
    lemma_only_generics(gs, args, 0, Map::empty());
    assert forall|v: Seq<char>| g.contains_key(v) <==> s.contains_key(v) by {
        if vars.contains(v) {
            let k = choose|k: int| 0 <= k < vars.len() && vars[k] == v;
            lemma_bound(gs, args, 0, Map::empty(), k);
            assert(s.contains_key(gs[k].name));
        }
    }
    assert forall|v: Seq<char>| s.contains_key(v) implies g[v] == s[v] by {
        let k = choose|k: int| 0 <= k < vars.len() && vars[k] == v;
        lemma_bound(gs, args, 0, Map::empty(), k);
        assert(gs[k].name == v);
    }
    assert(g =~= s);
}

/// The instance that a call asks for takes the arguments of the call: its parameters, with
/// the type arguments in place of the names, are of the types of the arguments.
pub proof fn law_instance_takes_the_arguments(f: FunctionV, ts: Seq<TypeV>)
    requires
        f.params.len() == ts.len(),
        forall|k: int| 0 <= k < f.params.len() ==> has_values((#[trigger] f.params[k]).ty),
        are_ground(ts, generic_names(f.generics)),
        forall|i: int, j: int|
            0 <= i < j < f.generics.len() ==> (#[trigger] f.generics[i]).name != (
            #[trigger] f.generics[j]).name,
    ensures
        ({
            let vars = generic_names(f.generics);
            let (r, s) = unify_args(f.params, ts, 0, vars, Map::empty());
            let args = type_arguments(f.generics, s);
            r is Ok && !has_open(args, vars) ==> forall|k: int|
                0 <= k < ts.len() ==> subst_type(
                    f.params[k].ty,
                    generic_subst(f.generics, args),
                ) == #[trigger] ts[k]
        }),
{
    let vars = generic_names(f.generics);
    lemma_args(f.params, ts, 0, vars, Map::empty(), Map::empty());
    let (r, s) = unify_args(f.params, ts, 0, vars, Map::empty());
    if r is Ok && !has_open(type_arguments(f.generics, s), vars) {
        lemma_arguments(f.generics, s);
        assert forall|k: int| 0 <= k < ts.len() implies subst_type(f.params[k].ty, s)
            == #[trigger] ts[k] by {
            lemma_substituted(f.params[k].ty, ts[k], vars, s);
        }
    }
}

/// Type arguments that make a call right are found: where some do, and each stands in the
/// type of a parameter, they are those that are inferred.
pub proof fn law_arguments_are_inferred(f: FunctionV, wanted: Seq<TypeV>)
    requires
        f.generics.len() == wanted.len(),
        are_ground(wanted, generic_names(f.generics)),
        forall|i: int, j: int|
            0 <= i < j < f.generics.len() ==> (#[trigger] f.generics[i]).name != (
            #[trigger] f.generics[j]).name,
        forall|k: int|
            0 <= k < f.params.len() ==> has_values((#[trigger] f.params[k]).ty) && is_ground(
                subst_type(f.params[k].ty, generic_subst(f.generics, wanted)),
                generic_names(f.generics),
            ) && size_of_type(subst_type(f.params[k].ty, generic_subst(f.generics, wanted)))
                <= u64::MAX,
    ensures
        ({
            let vars = generic_names(f.generics);
            let ts = Seq::new(
                f.params.len(),
                |k: int| subst_type(f.params[k].ty, generic_subst(f.generics, wanted)),
            );
            let (r, s) = unify_args(f.params, ts, 0, vars, Map::empty());
            let args = type_arguments(f.generics, s);
            &&& r is Ok
            &&& !has_open(args, vars) ==> args == wanted
        }),
{
    let vars = generic_names(f.generics);
    let m = generic_subst(f.generics, wanted);
    let ts = Seq::new(f.params.len(), |k: int| subst_type(f.params[k].ty, m));
    lemma_only_generics(f.generics, wanted, 0, Map::empty());
    assert forall|v: Seq<char>| #[trigger] m.contains_key(v) <==> vars.contains(v) by {
        if vars.contains(v) {
            let k = choose|k: int| 0 <= k < vars.len() && vars[k] == v;
            lemma_bound(f.generics, wanted, 0, Map::empty(), k);
        }
    }
    assert forall|k: int| 0 <= k < f.params.len() implies becomes(
        (#[trigger] f.params[k]).ty,
        ts[k],
        vars,
        m,
    ) && size_of_type(ts[k]) <= depth_limit() by {
        lemma_becomes_substituted(f.params[k].ty, vars, m);
    }
    assert(are_ground(ts, vars)) by {
        assert forall|k: int| 0 <= k < ts.len() implies is_ground(#[trigger] ts[k], vars) by {
            assert(has_values(f.params[k].ty));
        }
    }
    lemma_args(f.params, ts, 0, vars, Map::empty(), m);
    let (r, s) = unify_args(f.params, ts, 0, vars, Map::empty());
    let args = type_arguments(f.generics, s);
    if !has_open(args, vars) {
        lemma_arguments(f.generics, s);
        assert forall|k: int| 0 <= k < args.len() implies args[k] == wanted[k] by {
            lemma_bound(f.generics, wanted, 0, Map::empty(), k);
            assert(s.contains_key(f.generics[k].name));
        }
        assert(args =~= wanted);
    }
}

/// A call of a generic function is one of its instance for the type arguments, which is
/// asked for; a call of another function keeps its name. The arguments stay as they are.
pub proof fn law_call_of_an_instance(
    st: MonoV,
    name: Seq<char>,
    f: FunctionV,
    s: Subst,
    largs: Seq<ExprV>,
    func_span: Span,
    span: Span,
)
    ensures
        ({
            let (r, st1) = call_instance(st, name, f, s, largs, func_span, span);
            let args = type_arguments(f.generics, s);
            &&& has_open(args, generic_names(f.generics)) ==> r is Err
            &&& r matches Ok((e, t)) ==> (e.kind matches ExprKindV::Call { func, args: es } && es
                == largs && func.kind == ExprKindV::Ident(
                if f.generics.len() == 0 {
                    name
                } else {
                    mangled(name, args)
                },
            )) && e.span == span
        }),
{
}

// --------------------------------------------------------------------------- fields

/// The fields of a struct literal are put in the order of the declaration, each with the
/// value that it is given.
pub proof fn law_fields_in_order(decl: Seq<StructFieldV>, fs: Seq<(Seq<char>, ExprV)>)
    requires
        forall|i: int| 0 <= i < decl.len() ==> init_of(fs, (#[trigger] decl[i]).name, 0) is Some,
    ensures
        in_order(decl, fs, 0, Seq::empty()).len() == decl.len(),
        forall|k: int|
            0 <= k < decl.len() ==> (#[trigger] in_order(decl, fs, 0, Seq::empty())[k]).0
                == decl[k].name && fs.contains(in_order(decl, fs, 0, Seq::empty())[k]),
{
    lemma_in_order(decl, fs, 0, Seq::empty());
}

proof fn lemma_in_order(
    decl: Seq<StructFieldV>,
    fs: Seq<(Seq<char>, ExprV)>,
    i: int,
    acc: Seq<(Seq<char>, ExprV)>,
)
    requires
        0 <= i <= decl.len(),
        acc.len() == i,
        forall|k: int| 0 <= k < decl.len() ==> init_of(fs, (#[trigger] decl[k]).name, 0) is Some,
        forall|k: int|
            0 <= k < i ==> (#[trigger] acc[k]).0 == decl[k].name && fs.contains(acc[k]),
    ensures
        in_order(decl, fs, i, acc).len() == decl.len(),
        forall|k: int|
            0 <= k < decl.len() ==> (#[trigger] in_order(decl, fs, i, acc)[k]).0 == decl[k].name
                && fs.contains(in_order(decl, fs, i, acc)[k]),
    decreases decl.len() - i,
{
    if i < decl.len() {
        lemma_init(fs, decl[i].name, 0);
        let v = init_of(fs, decl[i].name, 0)->0;
        lemma_in_order(decl, fs, i + 1, acc.push((decl[i].name, v)));
    }
}

proof fn lemma_init(fs: Seq<(Seq<char>, ExprV)>, name: Seq<char>, i: int)
    requires
        0 <= i <= fs.len(),
    ensures
        init_of(fs, name, i) matches Some(v) ==> fs.contains((name, v)),
    decreases fs.len() - i,
{
    if i < fs.len() {
        if fs[i].0 == name {
            assert(fs[i] == (name, fs[i].1));
        } else {
            lemma_init(fs, name, i + 1);
        }
    }
}

} // verus!
