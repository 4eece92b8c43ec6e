//! The rules of monomorphization as equations.
use vstd::prelude::*;

verus! {

use crate::ast::{named_type, type_text};
use crate::error::CompileErrorV;
use crate::maps::lookup;
use crate::model::{
    BlockV, EnumCaseV, EnumV, ExprKindV, ExprV, FunctionTypeV, MatchArmV, PathSegmentV, PathV,
    PatternKindV, PatternV, StructFieldV, StructV, TypeV,
};
use crate::mono_model::{
    MonoV, Subst, any_named, arms_before, bind_all, call_result, case_payload, deep_message,
    differ_message, double_kind, double_parts, double_type, emitted, emitted_opt, enum_result,
    generic_subst, infer_concrete, infer_emitted, infer_enum, infer_in, infer_last_args, infer_opt,
    infer_segments, infer_struct, infer_types, l_args, l_arm, l_arms, l_block, l_call, l_callee,
    l_ctor, l_double, l_expr, l_field_pats, l_guard, l_if, l_inits, l_let, l_loop, l_match, l_pat,
    l_pats, l_record, l_single, l_stmts, make_cases, make_enum, make_fields, make_struct, mangled,
    no_type_args, occurs, occurs_message, put_enum, put_struct, resolved, seen_arm, seen_stmt,
    seen_stmts, single_kind, single_part, single_type, struct_result, subject_path, subst_type,
    too_deep, unify, unify_part, unify_segments, unify_shapes, unify_types, var_of, with_scope,
    wrong_type_args,
};
use crate::paths::{applied_type, last_args, path_key};
use crate::text::join_v;
use crate::token::Span;

pub proof fn un_infer_concrete(fuel: nat, st: MonoV, t: TypeV)
    ensures
        infer_concrete(fuel, st, t) == ({
        match t {
            TypeV::Path(p) => {
                let key = path_key(p);
                match lookup(st.aliases, key) {
                    Some(a) => if fuel == 0 {
                        (Err(too_deep()), st)
                    } else {
                        infer_concrete(
                            (fuel - 1) as nat,
                            st,
                            subst_type(a.ty, generic_subst(a.generics, last_args(p))),
                        )
                    },
                    None => {
                        let (r, st1) = infer_last_args(fuel, st, p);
                        match r {
                            Err(e) => (Err(e), st1),
                            Ok(args) => match lookup(st1.structs, key) {
                                Some(s) => infer_struct(fuel, st1, key, s, args),
                                None => match lookup(st1.enums, key) {
                                    Some(e) => infer_enum(fuel, st1, key, e, args),
                                    None => {
                                        let (r2, st2) = infer_segments(
                                            fuel,
                                            st1,
                                            p.segments,
                                            0,
                                            Seq::empty(),
                                        );
                                        match r2 {
                                            Err(e) => (Err(e), st2),
                                            Ok(segments) => (
                                                Ok(TypeV::Path(PathV { segments })),
                                                st2,
                                            ),
                                        }
                                    },
                                },
                            },
                        }
                    },
                }
            },
            TypeV::GcRef(inner) => {
                let (r, st1) = infer_concrete(fuel, st, *inner);
                match r {
                    Err(e) => (Err(e), st1),
                    Ok(x) => (Ok(TypeV::GcRef(Box::new(x))), st1),
                }
            },
            TypeV::Function(ft) => {
                let (r, st1) = infer_types(fuel, st, ft.params, 0, Seq::empty());
                match r {
                    Err(e) => (Err(e), st1),
                    Ok(params) => {
                        let (r2, st2) = infer_concrete(fuel, st1, *ft.ret);
                        match r2 {
                            Err(e) => (Err(e), st2),
                            Ok(ret) => (
                                Ok(TypeV::Function(FunctionTypeV { params, ret: Box::new(ret) })),
                                st2,
                            ),
                        }
                    },
                }
            },
            TypeV::Tuple(ts) => {
                let (r, st1) = infer_types(fuel, st, ts, 0, Seq::empty());
                match r {
                    Err(e) => (Err(e), st1),
                    Ok(xs) => (Ok(TypeV::Tuple(xs)), st1),
                }
            },
            TypeV::Unit => (Ok(TypeV::Unit), st),
            TypeV::Never => (Ok(TypeV::Never), st),
        }
        }),
{
    reveal(infer_concrete);
    reveal(infer_enum);
    reveal(infer_last_args);
    reveal(infer_segments);
    reveal(infer_struct);
    reveal(infer_types);
}

pub proof fn un_infer_last_args(fuel: nat, st: MonoV, p: PathV)
    ensures
        infer_last_args(fuel, st, p) == ({
        if p.segments.len() > 0 {
            infer_types(fuel, st, p.segments[p.segments.len() - 1].args, 0, Seq::empty())
        } else {
            (Ok(Seq::empty()), st)
        }
        }),
{
    reveal(infer_last_args);
    reveal(infer_types);
}

pub proof fn un_infer_types(fuel: nat, st: MonoV, ts: Seq<TypeV>, i: int, acc: Seq<TypeV>)
    ensures
        infer_types(fuel, st, ts, i, acc) == ({
        if 0 <= i < ts.len() {
            let (r, st1) = infer_concrete(fuel, st, ts[i]);
            match r {
                Err(e) => (Err(e), st1),
                Ok(t) => infer_types(fuel, st1, ts, i + 1, acc.push(t)),
            }
        } else {
            (Ok(acc), st)
        }
        }),
{
    reveal(infer_concrete);
    reveal(infer_types);
}

pub proof fn un_infer_segments(
    fuel: nat,
    st: MonoV,
    segs: Seq<PathSegmentV>,
    i: int,
    acc: Seq<PathSegmentV>,
)
    ensures
        infer_segments(fuel, st, segs, i, acc) == ({
        if 0 <= i < segs.len() {
            let (r, st1) = infer_types(fuel, st, segs[i].args, 0, Seq::empty());
            match r {
                Err(e) => (Err(e), st1),
                Ok(args) => infer_segments(
                    fuel,
                    st1,
                    segs,
                    i + 1,
                    acc.push(PathSegmentV { name: segs[i].name, args }),
                ),
            }
        } else {
            (Ok(acc), st)
        }
        }),
{
    reveal(infer_segments);
    reveal(infer_types);
}

pub proof fn un_infer_emitted(fuel: nat, st: MonoV, t: TypeV)
    ensures
        infer_emitted(fuel, st, t) == ({
        if fuel == 0 {
            (Err(too_deep()), st)
        } else {
            let (r, st1) = infer_concrete((fuel - 1) as nat, st, t);
            match r {
                Err(e) => (Err(e), st1),
                Ok(x) => (Ok(emitted(st1, x)), st1),
            }
        }
        }),
{
    reveal(infer_concrete);
    reveal(infer_emitted);
}

pub proof fn un_infer_struct(fuel: nat, st: MonoV, key: Seq<char>, s: StructV, args: Seq<TypeV>)
    ensures
        infer_struct(fuel, st, key, s, args) == ({
        if s.generics.len() == 0 && args.len() > 0 {
            (Err(no_type_args(key)), st)
        } else if s.generics.len() != args.len() {
            (Err(wrong_type_args(key, s.generics.len(), args.len())), st)
        } else {
            let (r, st1) = make_struct(fuel, st, s.name, args);
            match r {
                Err(e) => (Err(e), st1),
                Ok(_) => (Ok(applied_type(s.name, args)), st1),
            }
        }
        }),
{
    reveal(infer_struct);
    reveal(make_struct);
}

pub proof fn un_infer_enum(fuel: nat, st: MonoV, key: Seq<char>, e: EnumV, args: Seq<TypeV>)
    ensures
        infer_enum(fuel, st, key, e, args) == ({
        if e.generics.len() == 0 && args.len() > 0 {
            (Err(no_type_args(key)), st)
        } else if e.generics.len() != args.len() {
            (Err(wrong_type_args(key, e.generics.len(), args.len())), st)
        } else {
            let (r, st1) = make_enum(fuel, st, e.name, args);
            match r {
                Err(err) => (Err(err), st1),
                Ok(_) => (Ok(applied_type(e.name, args)), st1),
            }
        }
        }),
{
    reveal(infer_enum);
    reveal(make_enum);
}

pub proof fn un_make_struct(fuel: nat, st: MonoV, name: Seq<char>, args: Seq<TypeV>)
    ensures
        make_struct(fuel, st, name, args) == ({
        if st.struct_keys.contains((name, args)) {
            (Ok(mangled(name, args)), st)
        } else {
            match lookup(st.structs, name) {
                None => (Err(CompileErrorV::Generic("unknown struct '"@ + name + "'"@)), st),
                Some(s) => {
                    let st1 = MonoV { struct_keys: st.struct_keys.push((name, args)), ..st };
                    let (r, st2) = make_fields(
                        fuel,
                        st1,
                        s.fields,
                        generic_subst(s.generics, args),
                        0,
                        Seq::empty(),
                    );
                    match r {
                        Err(e) => (Err(e), st2),
                        Ok(fields) => (
                            Ok(mangled(name, args)),
                            MonoV {
                                out_structs: put_struct(
                                    st2.out_structs,
                                    StructV {
                                        name: mangled(name, args),
                                        generics: Seq::empty(),
                                        fields,
                                        is_pub: s.is_pub,
                                        span: s.span,
                                    },
                                ),
                                ..st2
                            },
                        ),
                    }
                },
            }
        }
        }),
{
    reveal(make_fields);
    reveal(make_struct);
}

pub proof fn un_make_fields(
    fuel: nat,
    st: MonoV,
    fs: Seq<StructFieldV>,
    m: Subst,
    i: int,
    acc: Seq<StructFieldV>,
)
    ensures
        make_fields(fuel, st, fs, m, i, acc) == ({
        if 0 <= i < fs.len() {
            let (r, st1) = infer_emitted(fuel, st, subst_type(fs[i].ty, m));
            match r {
                Err(e) => (Err(e), st1),
                Ok(ty) => make_fields(
                    fuel,
                    st1,
                    fs,
                    m,
                    i + 1,
                    acc.push(StructFieldV { name: fs[i].name, ty, span: fs[i].span }),
                ),
            }
        } else {
            (Ok(acc), st)
        }
        }),
{
    reveal(infer_emitted);
    reveal(make_fields);
}

pub proof fn un_make_enum(fuel: nat, st: MonoV, name: Seq<char>, args: Seq<TypeV>)
    ensures
        make_enum(fuel, st, name, args) == ({
        if st.enum_keys.contains((name, args)) {
            (Ok(mangled(name, args)), st)
        } else {
            match lookup(st.enums, name) {
                None => (Err(CompileErrorV::Generic("unknown enum '"@ + name + "'"@)), st),
                Some(e) => {
                    let st1 = MonoV { enum_keys: st.enum_keys.push((name, args)), ..st };
                    let (r, st2) = make_cases(
                        fuel,
                        st1,
                        e.cases,
                        generic_subst(e.generics, args),
                        0,
                        Seq::empty(),
                    );
                    match r {
                        Err(err) => (Err(err), st2),
                        Ok(cases) => (
                            Ok(mangled(name, args)),
                            MonoV {
                                out_enums: put_enum(
                                    st2.out_enums,
                                    EnumV {
                                        name: mangled(name, args),
                                        generics: Seq::empty(),
                                        cases,
                                        is_pub: e.is_pub,
                                        span: e.span,
                                    },
                                ),
                                ..st2
                            },
                        ),
                    }
                },
            }
        }
        }),
{
    reveal(make_cases);
    reveal(make_enum);
}

pub proof fn un_make_cases(
    fuel: nat,
    st: MonoV,
    cs: Seq<EnumCaseV>,
    m: Subst,
    i: int,
    acc: Seq<EnumCaseV>,
)
    ensures
        make_cases(fuel, st, cs, m, i, acc) == ({
        if 0 <= i < cs.len() {
            match cs[i].payload {
                None => make_cases(fuel, st, cs, m, i + 1, acc.push(cs[i])),
                Some(pt) => {
                    let (r, st1) = infer_emitted(fuel, st, subst_type(pt, m));
                    match r {
                        Err(e) => (Err(e), st1),
                        Ok(ty) => make_cases(
                            fuel,
                            st1,
                            cs,
                            m,
                            i + 1,
                            acc.push(
                                EnumCaseV { name: cs[i].name, payload: Some(ty), span: cs[i].span },
                            ),
                        ),
                    }
                },
            }
        } else {
            (Ok(acc), st)
        }
        }),
{
    reveal(infer_emitted);
    reveal(make_cases);
}

pub proof fn un_unify(fuel: nat, a: TypeV, b: TypeV, vars: Seq<Seq<char>>, s: Subst)
    ensures
        unify(fuel, a, b, vars, s) == ({
        let a1 = resolved(a, vars, s);
        let b1 = resolved(b, vars, s);
        match (var_of(a1, vars), var_of(b1, vars)) {
            (Some(x), y) => if y == Some(x) {
                (Ok(()), s)
            } else if occurs(x, b1) {
                (Err(occurs_message(x, b1)), s)
            } else {
                (Ok(()), s.insert(x, b1))
            },
            (None, Some(y)) => if occurs(y, a1) {
                (Err(occurs_message(y, a1)), s)
            } else {
                (Ok(()), s.insert(y, a1))
            },
            (None, None) => unify_shapes(fuel, a1, b1, vars, s),
        }
        }),
{
    reveal(unify);
    reveal(unify_shapes);
}

pub proof fn un_unify_shapes(
    fuel: nat,
    a: TypeV,
    b: TypeV,
    vars: Seq<Seq<char>>,
    s: Subst,
)
    ensures
        unify_shapes(fuel, a, b, vars, s) == ({
        match (a, b) {
            (TypeV::Path(p), TypeV::Path(q)) => if p.segments.len() != q.segments.len() {
                (Err(differ_message(a, b)), s)
            } else {
                unify_segments(fuel, a, b, p.segments, q.segments, 0, vars, s)
            },
            (TypeV::GcRef(x), TypeV::GcRef(y)) => unify_part(fuel, *x, *y, vars, s),
            (TypeV::Function(f), TypeV::Function(g)) => if f.params.len() != g.params.len() {
                (Err(differ_message(a, b)), s)
            } else {
                let (r, s1) = unify_types(fuel, f.params, g.params, 0, vars, s);
                match r {
                    Err(m) => (Err(m), s1),
                    Ok(_) => unify_part(fuel, *f.ret, *g.ret, vars, s1),
                }
            },
            (TypeV::Tuple(xs), TypeV::Tuple(ys)) => if xs.len() != ys.len() {
                (Err(differ_message(a, b)), s)
            } else {
                unify_types(fuel, xs, ys, 0, vars, s)
            },
            (TypeV::Unit, TypeV::Unit) => (Ok(()), s),
            (TypeV::Never, _) => (Ok(()), s),
            (_, TypeV::Never) => (Ok(()), s),
            _ => (Err("cannot unify "@ + type_text(a) + " and "@ + type_text(b)), s),
        }
        }),
{
    reveal(unify);
    reveal(unify_part);
    reveal(unify_segments);
    reveal(unify_shapes);
    reveal(unify_types);
}

pub proof fn un_unify_part(
    fuel: nat,
    a: TypeV,
    b: TypeV,
    vars: Seq<Seq<char>>,
    s: Subst,
)
    ensures
        unify_part(fuel, a, b, vars, s) == ({
        if fuel == 0 {
            (Err(deep_message()), s)
        } else {
            unify((fuel - 1) as nat, a, b, vars, s)
        }
        }),
{
    reveal(unify);
    reveal(unify_part);
}

pub proof fn un_unify_types(
    fuel: nat,
    xs: Seq<TypeV>,
    ys: Seq<TypeV>,
    i: int,
    vars: Seq<Seq<char>>,
    s: Subst,
)
    ensures
        unify_types(fuel, xs, ys, i, vars, s) == ({
        if 0 <= i < xs.len() && i < ys.len() {
            let (r, s1) = unify_part(fuel, xs[i], ys[i], vars, s);
            match r {
                Err(m) => (Err(m), s1),
                Ok(_) => unify_types(fuel, xs, ys, i + 1, vars, s1),
            }
        } else {
            (Ok(()), s)
        }
        }),
{
    reveal(unify_part);
    reveal(unify_types);
}

pub proof fn un_unify_segments(
    fuel: nat,
    a: TypeV,
    b: TypeV,
    xs: Seq<PathSegmentV>,
    ys: Seq<PathSegmentV>,
    i: int,
    vars: Seq<Seq<char>>,
    s: Subst,
)
    ensures
        unify_segments(fuel, a, b, xs, ys, i, vars, s) == ({
        if 0 <= i < xs.len() && i < ys.len() {
            if xs[i].name != ys[i].name || xs[i].args.len() != ys[i].args.len() {
                (Err(differ_message(a, b)), s)
            } else {
                let (r, s1) = unify_types(fuel, xs[i].args, ys[i].args, 0, vars, s);
                match r {
                    Err(m) => (Err(m), s1),
                    Ok(_) => unify_segments(fuel, a, b, xs, ys, i + 1, vars, s1),
                }
            }
        } else {
            (Ok(()), s)
        }
        }),
{
    reveal(unify_segments);
    reveal(unify_types);
}

pub proof fn un_l_pat(st: MonoV, p: PatternV, subject: TypeV)
    ensures
        l_pat(st, p, subject) == ({
        match p.kind {
            PatternKindV::Wildcard => (Ok((p, Seq::empty())), st),
            PatternKindV::Literal(l) => (Ok((p, Seq::empty())), st),
            PatternKindV::Variable { name, is_mut } => (Ok((p, seq![(name, subject)])), st),
            PatternKindV::EnumCtor { path, case, inner } => {
                let (r, st1) = case_payload(st, subject, case);
                match r {
                    Err(e) => (Err(e), st1),
                    Ok(pt) => match inner {
                        None => (
                            Ok(
                                (
                                    PatternV {
                                        kind: PatternKindV::EnumCtor {
                                            path: subject_path(st1, subject),
                                            case,
                                            inner: None,
                                        },
                                        span: p.span,
                                    },
                                    Seq::empty(),
                                ),
                            ),
                            st1,
                        ),
                        Some(q) => {
                            let (r2, st2) = l_pat(
                                st1,
                                *q,
                                match pt {
                                    Some(t) => t,
                                    None => TypeV::Unit,
                                },
                            );
                            match r2 {
                                Err(e) => (Err(e), st2),
                                Ok((q2, bs)) => (
                                    Ok(
                                        (
                                            PatternV {
                                                kind: PatternKindV::EnumCtor {
                                                    path: subject_path(st2, subject),
                                                    case,
                                                    inner: Some(Box::new(q2)),
                                                },
                                                span: p.span,
                                            },
                                            bs,
                                        ),
                                    ),
                                    st2,
                                ),
                            }
                        },
                    },
                }
            },
            PatternKindV::Struct { path, fields } => {
                let (r, st1) = l_field_pats(st, fields, 0, Seq::empty());
                match r {
                    Err(e) => (Err(e), st1),
                    Ok(fs) => (
                        Ok(
                            (
                                PatternV {
                                    kind: PatternKindV::Struct { path, fields: fs },
                                    span: p.span,
                                },
                                Seq::empty(),
                            ),
                        ),
                        st1,
                    ),
                }
            },
            PatternKindV::Or(ps) => {
                let (r, st1) = l_pats(st, ps, 0, subject, Seq::empty());
                match r {
                    Err(e) => (Err(e), st1),
                    Ok(qs) => (
                        Ok((PatternV { kind: PatternKindV::Or(qs), span: p.span }, Seq::empty())),
                        st1,
                    ),
                }
            },
        }
        }),
{
    reveal(l_field_pats);
    reveal(l_pat);
    reveal(l_pats);
}

pub proof fn un_l_field_pats(
    st: MonoV,
    fs: Seq<(Seq<char>, PatternV)>,
    i: int,
    acc: Seq<(Seq<char>, PatternV)>,
)
    ensures
        l_field_pats(st, fs, i, acc) == ({
        if 0 <= i < fs.len() {
            let (r, st1) = l_pat(st, fs[i].1, TypeV::Unit);
            match r {
                Err(e) => (Err(e), st1),
                Ok((q, bs)) => l_field_pats(st1, fs, i + 1, acc.push((fs[i].0, q))),
            }
        } else {
            (Ok(acc), st)
        }
        }),
{
    reveal(l_field_pats);
    reveal(l_pat);
}

pub proof fn un_l_pats(st: MonoV, ps: Seq<PatternV>, i: int, subject: TypeV, acc: Seq<PatternV>)
    ensures
        l_pats(st, ps, i, subject, acc) == ({
        if 0 <= i < ps.len() {
            let (r, st1) = l_pat(st, ps[i], subject);
            match r {
                Err(e) => (Err(e), st1),
                Ok((q, bs)) => l_pats(st1, ps, i + 1, subject, acc.push(q)),
            }
        } else {
            (Ok(acc), st)
        }
        }),
{
    reveal(l_pat);
    reveal(l_pats);
}

pub proof fn un_l_expr(st: MonoV, e: ExprV, env: Subst, sub: Subst, exp: Option<TypeV>)
    ensures
        l_expr(st, e, env, sub, exp) == ({
        match e.kind {
            ExprKindV::IntLiteral(_) => (Ok((e, named_type("Int"@))), st, env),
            ExprKindV::FloatLiteral(_) => (Ok((e, named_type("Float"@))), st, env),
            ExprKindV::StringLiteral(_) => (Ok((e, named_type("String"@))), st, env),
            ExprKindV::CharLiteral(_) => (Ok((e, named_type("Char"@))), st, env),
            ExprKindV::BoolLiteral(_) => (Ok((e, named_type("Bool"@))), st, env),
            ExprKindV::NilLiteral => (Ok((e, TypeV::Never)), st, env),
            ExprKindV::Ident(name) => (
                Ok(
                    (
                        e,
                        match lookup(env, name) {
                            Some(t) => t,
                            None => TypeV::Never,
                        },
                    ),
                ),
                st,
                env,
            ),
            ExprKindV::Block(b) => {
                let (r, st1) = l_block(st, b, env, sub, exp);
                match r {
                    Err(err) => (Err(err), st1, env),
                    Ok((b2, t)) => (
                        Ok((ExprV { kind: ExprKindV::Block(b2), span: e.span }, t)),
                        st1,
                        env,
                    ),
                }
            },
            ExprKindV::Let { name, ty, value, is_mut } => l_let(st, e, env, sub),
            ExprKindV::Return(Some(x)) => l_single(st, e, env, sub),
            ExprKindV::Return(None) => (Ok((e, TypeV::Unit)), st, env),
            ExprKindV::Unary { op, expr } => l_single(st, e, env, sub),
            ExprKindV::DotAccess { object, field } => l_single(st, e, env, sub),
            ExprKindV::Field { object, field } => l_single(st, e, env, sub),
            ExprKindV::NamedArg { name, value } => l_single(st, e, env, sub),
            ExprKindV::Binary { op, left, right } => l_double(st, e, env, sub),
            ExprKindV::Assign { target, value } => l_double(st, e, env, sub),
            ExprKindV::AssignOp { target, op, value } => l_double(st, e, env, sub),
            ExprKindV::Index { object, index } => l_double(st, e, env, sub),
            ExprKindV::Call { func, args } => l_call(st, e, env, sub),
            ExprKindV::StructLit { path, fields } => l_record(st, e, env, sub, exp),
            ExprKindV::GcNew { ty, fields } => l_record(st, e, env, sub, exp),
            ExprKindV::EnumCtor { path, case, arg } => l_ctor(st, e, env, sub, exp),
            ExprKindV::Match { expr, arms } => l_match(st, e, env, sub, exp),
            ExprKindV::If { cond, then_branch, else_branch } => l_if(st, e, env, sub, exp),
            ExprKindV::While { cond, body } => l_loop(st, e, env, sub),
            ExprKindV::For { var, iter, body } => l_loop(st, e, env, sub),
            _ => (Ok((e, TypeV::Unit)), st, env),
        }
        }),
{
    reveal(l_block);
    reveal(l_call);
    reveal(l_ctor);
    reveal(l_double);
    reveal(l_expr);
    reveal(l_if);
    reveal(l_let);
    reveal(l_loop);
    reveal(l_match);
    reveal(l_record);
    reveal(l_single);
}

pub proof fn un_l_block(st: MonoV, b: BlockV, env: Subst, sub: Subst, exp: Option<TypeV>)
    ensures
        l_block(st, b, env, sub, exp) == ({
        let (r, st1) = l_stmts(st, b.stmts, 0, env, sub, exp, Seq::empty(), TypeV::Unit);
        match r {
            Err(err) => (Err(err), st1),
            Ok((stmts, t)) => (Ok((BlockV { stmts, span: b.span }, t)), st1),
        }
        }),
{
    reveal(l_block);
    reveal(l_stmts);
}

pub proof fn un_l_stmts(
    st: MonoV,
    stmts: Seq<ExprV>,
    i: int,
    env: Subst,
    sub: Subst,
    exp: Option<TypeV>,
    acc: Seq<ExprV>,
    last: TypeV,
)
    ensures
        l_stmts(st, stmts, i, env, sub, exp, acc, last) == ({
        if 0 <= i < stmts.len() {
            let (r, st1, env1) = l_expr(
                st,
                stmts[i],
                env,
                sub,
                if i == stmts.len() - 1 {
                    exp
                } else {
                    None
                },
            );
            match r {
                Err(err) => (Err(err), st1),
                Ok((s2, t)) => l_stmts(st1, stmts, i + 1, env1, sub, exp, acc.push(s2), t),
            }
        } else {
            (Ok((acc, last)), st)
        }
        }),
{
    reveal(l_expr);
    reveal(l_stmts);
}

pub proof fn un_l_args(
    st: MonoV,
    args: Seq<ExprV>,
    i: int,
    env: Subst,
    sub: Subst,
    acc: Seq<ExprV>,
    ts: Seq<TypeV>,
)
    ensures
        l_args(st, args, i, env, sub, acc, ts) == ({
        if 0 <= i < args.len() {
            let (r, st1, env1) = l_expr(st, args[i], env, sub, None);
            match r {
                Err(err) => (Err(err), st1, env1),
                Ok((a2, t)) => l_args(st1, args, i + 1, env1, sub, acc.push(a2), ts.push(t)),
            }
        } else {
            (Ok((acc, ts)), st, env)
        }
        }),
{
    reveal(l_args);
    reveal(l_expr);
}

pub proof fn un_l_inits(
    st: MonoV,
    fs: Seq<(Seq<char>, ExprV)>,
    i: int,
    env: Subst,
    sub: Subst,
    acc: Seq<(Seq<char>, ExprV)>,
    ts: Seq<(Seq<char>, TypeV)>,
)
    ensures
        l_inits(st, fs, i, env, sub, acc, ts) == ({
        if 0 <= i < fs.len() {
            let (r, st1, env1) = l_expr(st, fs[i].1, env, sub, None);
            match r {
                Err(err) => (Err(err), st1, env1),
                Ok((v2, t)) => l_inits(
                    st1,
                    fs,
                    i + 1,
                    env1,
                    sub,
                    acc.push((fs[i].0, v2)),
                    ts.push((fs[i].0, t)),
                ),
            }
        } else {
            (Ok((acc, ts)), st, env)
        }
        }),
{
    reveal(l_expr);
    reveal(l_inits);
}

pub proof fn un_l_let(st: MonoV, e: ExprV, env: Subst, sub: Subst)
    ensures
        l_let(st, e, env, sub) == ({
        match e.kind {
            ExprKindV::Let { name, ty, value, is_mut } => {
                let (r, st1) = infer_opt(st, ty, sub);
                match r {
                    Err(err) => (Err(err), st1, env),
                    Ok(ann) => {
                        let (r2, st2, env2) = l_expr(st1, *value, env, sub, ann);
                        match r2 {
                            Err(err) => (Err(err), st2, env2),
                            Ok((v2, vt)) => (
                                Ok(
                                    (
                                        ExprV {
                                            kind: ExprKindV::Let {
                                                name,
                                                ty: emitted_opt(st2, ann),
                                                value: Box::new(v2),
                                                is_mut,
                                            },
                                            span: e.span,
                                        },
                                        TypeV::Unit,
                                    ),
                                ),
                                st2,
                                env2.insert(
                                    name,
                                    match ann {
                                        Some(t) => t,
                                        None => vt,
                                    },
                                ),
                            ),
                        }
                    },
                }
            },
            _ => (Ok((e, TypeV::Unit)), st, env),
        }
        }),
{
    reveal(l_expr);
    reveal(l_let);
}

pub proof fn un_l_single(st: MonoV, e: ExprV, env: Subst, sub: Subst)
    ensures
        l_single(st, e, env, sub) == ({
        match e.kind {
            ExprKindV::Return(Some(_)) | ExprKindV::Unary { .. } | ExprKindV::DotAccess { .. }
            | ExprKindV::Field { .. } | ExprKindV::NamedArg { .. } => {
                let exp = if e.kind is Return {
                    st.cur_ret
                } else {
                    None
                };
                let (r, st1, env1) = l_expr(st, single_part(e), env, sub, exp);
                match r {
                    Err(err) => (Err(err), st1, env1),
                    Ok((x2, t)) => (
                        Ok(
                            (
                                ExprV { kind: single_kind(e.kind, x2), span: e.span },
                                single_type(st1, e.kind, t),
                            ),
                        ),
                        st1,
                        env1,
                    ),
                }
            },
            _ => (Ok((e, TypeV::Unit)), st, env),
        }
        }),
{
    reveal(l_expr);
    reveal(l_single);
}

pub proof fn un_l_double(st: MonoV, e: ExprV, env: Subst, sub: Subst)
    ensures
        l_double(st, e, env, sub) == ({
        match e.kind {
            ExprKindV::Binary { .. } | ExprKindV::Assign { .. } | ExprKindV::AssignOp { .. }
            | ExprKindV::Index { .. } => {
                let (r, st1, env1) = l_expr(st, double_parts(e).0, env, sub, None);
                match r {
                    Err(err) => (Err(err), st1, env1),
                    Ok((a2, at)) => {
                        let exp = if e.kind is Assign {
                            Some(at)
                        } else {
                            None
                        };
                        let (r2, st2, env2) = l_expr(st1, double_parts(e).1, env1, sub, exp);
                        match r2 {
                            Err(err) => (Err(err), st2, env2),
                            Ok((b2, bt)) => (
                                Ok(
                                    (
                                        ExprV { kind: double_kind(e.kind, a2, b2), span: e.span },
                                        double_type(e.kind, at, bt),
                                    ),
                                ),
                                st2,
                                env2,
                            ),
                        }
                    },
                }
            },
            _ => (Ok((e, TypeV::Unit)), st, env),
        }
        }),
{
    reveal(l_double);
    reveal(l_expr);
}

pub proof fn un_l_callee(st: MonoV, func: ExprV, span: Span, env: Subst, sub: Subst)
    ensures
        l_callee(st, func, span, env, sub) == ({
        match func.kind {
            ExprKindV::DotAccess { .. } | ExprKindV::Field { .. } => {
                let (r, st1, env1) = l_expr(st, single_part(func), env, sub, None);
                match r {
                    Err(err) => (Err(err), st1, env1),
                    Ok((o2, t)) => (
                        Ok(ExprV { kind: single_kind(func.kind, o2), span }),
                        st1,
                        env1,
                    ),
                }
            },
            _ => (Ok(func), st, env),
        }
        }),
{
    reveal(l_callee);
    reveal(l_expr);
}

pub proof fn un_l_call(st: MonoV, e: ExprV, env: Subst, sub: Subst)
    ensures
        l_call(st, e, env, sub) == ({
        match e.kind {
            ExprKindV::Call { func, args } => {
                let (r, st1, env1) = l_callee(st, *func, e.span, env, sub);
                match r {
                    Err(err) => (Err(err), st1, env1),
                    Ok(func2) => {
                        let (r2, st2, env2) = l_args(
                            st1,
                            args,
                            0,
                            env1,
                            sub,
                            Seq::empty(),
                            Seq::empty(),
                        );
                        match r2 {
                            Err(err) => (Err(err), st2, env2),
                            Ok((largs, ts)) => with_scope(
                                call_result(st2, *func, func2, largs, ts, any_named(args), e.span),
                                env2,
                            ),
                        }
                    },
                }
            },
            _ => (Ok((e, TypeV::Unit)), st, env),
        }
        }),
{
    reveal(l_args);
    reveal(l_call);
    reveal(l_callee);
}

pub proof fn un_l_record(st: MonoV, e: ExprV, env: Subst, sub: Subst, exp: Option<TypeV>)
    ensures
        l_record(st, e, env, sub, exp) == ({
        match e.kind {
            ExprKindV::StructLit { path, fields } => {
                let (r, st1, env1) = l_inits(st, fields, 0, env, sub, Seq::empty(), Seq::empty());
                match r {
                    Err(err) => (Err(err), st1, env1),
                    Ok((lfields, ts)) => match lookup(st.structs, join_v(path, "::"@)) {
                        Some(s) => with_scope(
                            struct_result(
                                st1,
                                join_v(path, "::"@),
                                s,
                                lfields,
                                ts,
                                exp,
                                e.span,
                            ),
                            env1,
                        ),
                        None => (
                            Ok(
                                (
                                    ExprV {
                                        kind: ExprKindV::StructLit { path, fields: lfields },
                                        span: e.span,
                                    },
                                    TypeV::Unit,
                                ),
                            ),
                            st1,
                            env1,
                        ),
                    },
                }
            },
            ExprKindV::GcNew { ty, fields } => {
                let (r, st1) = infer_in(st, ty, sub);
                match r {
                    Err(err) => (Err(err), st1, env),
                    Ok(t) => {
                        let (r2, st2, env2) = l_inits(
                            st1,
                            fields,
                            0,
                            env,
                            sub,
                            Seq::empty(),
                            Seq::empty(),
                        );
                        match r2 {
                            Err(err) => (Err(err), st2, env2),
                            Ok((lfields, ts)) => (
                                Ok(
                                    (
                                        ExprV {
                                            kind: ExprKindV::GcNew {
                                                ty: emitted(st1, t),
                                                fields: lfields,
                                            },
                                            span: e.span,
                                        },
                                        TypeV::GcRef(Box::new(t)),
                                    ),
                                ),
                                st2,
                                env2,
                            ),
                        }
                    },
                }
            },
            _ => (Ok((e, TypeV::Unit)), st, env),
        }
        }),
{
    reveal(l_inits);
    reveal(l_record);
}

pub proof fn un_l_ctor(st: MonoV, e: ExprV, env: Subst, sub: Subst, exp: Option<TypeV>)
    ensures
        l_ctor(st, e, env, sub, exp) == ({
        match e.kind {
            ExprKindV::EnumCtor { path, case, arg } => match arg {
                None => with_scope(
                    enum_result(st, e, path, case, None, TypeV::Never, exp),
                    env,
                ),
                Some(a) => {
                    let (r, st1, env1) = l_expr(st, *a, env, sub, None);
                    match r {
                        Err(err) => (Err(err), st1, env1),
                        Ok((a2, at)) => with_scope(
                            enum_result(st1, e, path, case, Some(Box::new(a2)), at, exp),
                            env1,
                        ),
                    }
                },
            },
            _ => (Ok((e, TypeV::Unit)), st, env),
        }
        }),
{
    reveal(l_ctor);
    reveal(l_expr);
}

pub proof fn un_l_match(st: MonoV, e: ExprV, env: Subst, sub: Subst, exp: Option<TypeV>)
    ensures
        l_match(st, e, env, sub, exp) == ({
        match e.kind {
            ExprKindV::Match { expr, arms } => {
                let (r, st1, env1) = l_expr(st, *expr, env, sub, None);
                match r {
                    Err(err) => (Err(err), st1, env1),
                    Ok((s2, subject)) => {
                        let (r2, st2) = l_arms(
                            st1,
                            arms,
                            0,
                            subject,
                            env1,
                            sub,
                            exp,
                            Seq::empty(),
                            TypeV::Never,
                        );
                        match r2 {
                            Err(err) => (Err(err), st2, env1),
                            Ok((arms2, t)) => (
                                Ok(
                                    (
                                        ExprV {
                                            kind: ExprKindV::Match {
                                                expr: Box::new(s2),
                                                arms: arms2,
                                            },
                                            span: e.span,
                                        },
                                        if t is Never {
                                            TypeV::Unit
                                        } else {
                                            t
                                        },
                                    ),
                                ),
                                st2,
                                env1,
                            ),
                        }
                    },
                }
            },
            _ => (Ok((e, TypeV::Unit)), st, env),
        }
        }),
{
    reveal(l_arms);
    reveal(l_expr);
    reveal(l_match);
}

pub proof fn un_l_arms(
    st: MonoV,
    arms: Seq<MatchArmV>,
    i: int,
    subject: TypeV,
    env: Subst,
    sub: Subst,
    exp: Option<TypeV>,
    acc: Seq<MatchArmV>,
    t: TypeV,
)
    ensures
        l_arms(st, arms, i, subject, env, sub, exp, acc, t) == ({
        if 0 <= i < arms.len() {
            let (r, st1) = l_arm(st, arms[i], subject, env, sub, exp);
            match r {
                Err(err) => (Err(err), st1),
                Ok((arm2, bt)) => l_arms(
                    st1,
                    arms,
                    i + 1,
                    subject,
                    env,
                    sub,
                    exp,
                    acc.push(arm2),
                    if t is Never {
                        bt
                    } else {
                        t
                    },
                ),
            }
        } else {
            (Ok((acc, t)), st)
        }
        }),
{
    reveal(l_arm);
    reveal(l_arms);
}

pub proof fn un_l_arm(
    st: MonoV,
    arm: MatchArmV,
    subject: TypeV,
    env: Subst,
    sub: Subst,
    exp: Option<TypeV>,
)
    ensures
        l_arm(st, arm, subject, env, sub, exp) == ({
        let (r, st1) = l_pat(st, arm.pattern, subject);
        match r {
            Err(err) => (Err(err), st1),
            Ok((pattern, bs)) => {
                let (r2, st2, env2) = l_guard(st1, arm.guard, bind_all(env, bs, 0), sub);
                match r2 {
                    Err(err) => (Err(err), st2),
                    Ok(guard) => {
                        let (r3, st3, env3) = l_expr(st2, *arm.body, env2, sub, exp);
                        match r3 {
                            Err(err) => (Err(err), st3),
                            Ok((b2, bt)) => (
                                Ok((MatchArmV { pattern, guard, body: Box::new(b2) }, bt)),
                                st3,
                            ),
                        }
                    },
                }
            },
        }
        }),
{
    reveal(l_arm);
    reveal(l_expr);
    reveal(l_guard);
    reveal(l_pat);
}

pub proof fn un_l_guard(st: MonoV, guard: Option<Box<ExprV>>, env: Subst, sub: Subst)
    ensures
        l_guard(st, guard, env, sub) == ({
        match guard {
            None => (Ok(None), st, env),
            Some(g) => {
                let (r, st1, env1) = l_expr(st, *g, env, sub, None);
                match r {
                    Err(err) => (Err(err), st1, env1),
                    Ok((g2, t)) => (Ok(Some(Box::new(g2))), st1, env1),
                }
            },
        }
        }),
{
    reveal(l_expr);
    reveal(l_guard);
}

pub proof fn un_l_if(st: MonoV, e: ExprV, env: Subst, sub: Subst, exp: Option<TypeV>)
    ensures
        l_if(st, e, env, sub, exp) == ({
        match e.kind {
            ExprKindV::If { cond, then_branch, else_branch } => {
                let (r, st1, env1) = l_expr(st, *cond, env, sub, None);
                match r {
                    Err(err) => (Err(err), st1, env1),
                    Ok((c2, ct)) => {
                        let (r2, st2) = l_block(st1, then_branch, env1, sub, exp);
                        match r2 {
                            Err(err) => (Err(err), st2, env1),
                            Ok((t2, tt)) => match else_branch {
                                None => (
                                    Ok(
                                        (
                                            ExprV {
                                                kind: ExprKindV::If {
                                                    cond: Box::new(c2),
                                                    then_branch: t2,
                                                    else_branch: None,
                                                },
                                                span: e.span,
                                            },
                                            if tt is Never {
                                                TypeV::Unit
                                            } else {
                                                tt
                                            },
                                        ),
                                    ),
                                    st2,
                                    env1,
                                ),
                                Some(eb) => {
                                    let (r3, st3) = l_block(st2, eb, env1, sub, exp);
                                    match r3 {
                                        Err(err) => (Err(err), st3, env1),
                                        Ok((e2, et)) => (
                                            Ok(
                                                (
                                                    ExprV {
                                                        kind: ExprKindV::If {
                                                            cond: Box::new(c2),
                                                            then_branch: t2,
                                                            else_branch: Some(e2),
                                                        },
                                                        span: e.span,
                                                    },
                                                    if tt is Never {
                                                        et
                                                    } else {
                                                        tt
                                                    },
                                                ),
                                            ),
                                            st3,
                                            env1,
                                        ),
                                    }
                                },
                            },
                        }
                    },
                }
            },
            _ => (Ok((e, TypeV::Unit)), st, env),
        }
        }),
{
    reveal(l_block);
    reveal(l_expr);
    reveal(l_if);
}

pub proof fn un_l_loop(st: MonoV, e: ExprV, env: Subst, sub: Subst)
    ensures
        l_loop(st, e, env, sub) == ({
        match e.kind {
            ExprKindV::While { cond, body } => {
                let (r, st1, env1) = l_expr(st, *cond, env, sub, None);
                match r {
                    Err(err) => (Err(err), st1, env1),
                    Ok((c2, ct)) => {
                        let (r2, st2) = l_block(st1, body, env1, sub, None);
                        match r2 {
                            Err(err) => (Err(err), st2, env1),
                            Ok((b2, bt)) => (
                                Ok(
                                    (
                                        ExprV {
                                            kind: ExprKindV::While { cond: Box::new(c2), body: b2 },
                                            span: e.span,
                                        },
                                        TypeV::Unit,
                                    ),
                                ),
                                st2,
                                env1,
                            ),
                        }
                    },
                }
            },
            ExprKindV::For { var, iter, body } => {
                let (r, st1, env1) = l_expr(st, *iter, env, sub, None);
                match r {
                    Err(err) => (Err(err), st1, env1),
                    Ok((i2, it)) => {
                        let (r2, st2) = l_block(
                            st1,
                            body,
                            env1.insert(var, TypeV::Unit),
                            sub,
                            None,
                        );
                        match r2 {
                            Err(err) => (Err(err), st2, env1),
                            Ok((b2, bt)) => (
                                Ok(
                                    (
                                        ExprV {
                                            kind: ExprKindV::For {
                                                var,
                                                iter: Box::new(i2),
                                                body: b2,
                                            },
                                            span: e.span,
                                        },
                                        TypeV::Unit,
                                    ),
                                ),
                                st2,
                                env1,
                            ),
                        }
                    },
                }
            },
            _ => (Ok((e, TypeV::Unit)), st, env),
        }
        }),
{
    reveal(l_block);
    reveal(l_expr);
    reveal(l_loop);
}

pub proof fn un_seen_stmts(st: MonoV, stmts: Seq<ExprV>, i: int, offset: int, env: Subst)
    ensures
        seen_stmts(st, stmts, i, offset, env) == ({
        if 0 <= i < stmts.len() && stmts[i].span.start < offset {
            let (st1, env1) = seen_stmt(st, stmts[i], offset, env);
            seen_stmts(st1, stmts, i + 1, offset, env1)
        } else {
            (st, env)
        }
        }),
{
    reveal(seen_stmt);
    reveal(seen_stmts);
}

pub proof fn un_seen_stmt(st: MonoV, e: ExprV, offset: int, env: Subst)
    ensures
        seen_stmt(st, e, offset, env) == ({
        match e.kind {
            ExprKindV::Let { name, ty, value, is_mut } => match ty {
                Some(t) => (st, env.insert(name, t)),
                None => {
                    let (r, st1, env1) = l_expr(st, *value, env, Map::empty(), None);
                    match r {
                        Err(_) => (st1, env1),
                        Ok((v2, t)) => (st1, env1.insert(name, t)),
                    }
                },
            },
            ExprKindV::Block(b) => seen_stmts(st, b.stmts, 0, offset, env),
            ExprKindV::If { cond, then_branch, else_branch } => {
                let (st1, env1) = seen_stmts(st, then_branch.stmts, 0, offset, env);
                match else_branch {
                    Some(b) => seen_stmts(st1, b.stmts, 0, offset, env1),
                    None => (st1, env1),
                }
            },
            ExprKindV::While { cond, body } => seen_stmts(st, body.stmts, 0, offset, env),
            ExprKindV::For { var, iter, body } => seen_stmts(st, body.stmts, 0, offset, env),
            ExprKindV::Match { expr, arms } => {
                let (r, st1, env1) = l_expr(st, *expr, env, Map::empty(), None);
                let n = arms_before(arms, offset, 0);
                match r {
                    Err(_) => (st1, env1),
                    Ok((s2, subject)) => if 0 < n <= arms.len() {
                        seen_arm(st1, arms[n - 1], subject, offset, env1)
                    } else {
                        (st1, env1)
                    },
                }
            },
            _ => (st, env),
        }
        }),
{
    reveal(l_expr);
    reveal(seen_arm);
    reveal(seen_stmt);
    reveal(seen_stmts);
}

pub proof fn un_seen_arm(st: MonoV, arm: MatchArmV, subject: TypeV, offset: int, env: Subst)
    ensures
        seen_arm(st, arm, subject, offset, env) == ({
        let (r, st1) = l_pat(st, arm.pattern, subject);
        let env1 = match r {
            Err(_) => env,
            Ok((p, bs)) => bind_all(env, bs, 0),
        };
        match arm.body.kind {
            ExprKindV::Block(b) => seen_stmts(st1, b.stmts, 0, offset, env1),
            _ => (st1, env1),
        }
        }),
{
    reveal(l_pat);
    reveal(seen_arm);
    reveal(seen_stmts);
}

} // verus!
