//! The rules of the type checker as equations.
use vstd::prelude::*;

verus! {

use crate::ast::{Block, Path, named_type};
use crate::maps::lookup;
use crate::model::{ExprKindV, ExprV, PathV, StructV, TypeV};
use crate::paths::plain_segments;
use crate::token::Span;
use crate::typeck::{
    Env, Known, Res, accepts, c_args, c_call, c_dot, c_expr, c_ident, c_if, c_inits, c_operation,
    c_overload, c_stmts, callee_name, field_of, field_type, fits, literal_struct, mismatch,
};

pub proof fn un_c_expr(c: Known, e: ExprV, env: Env, res: Res)
    ensures
        c_expr(c, e, env, res) == ({
        match e.kind {
            ExprKindV::IntLiteral(_) => Ok((named_type("Int"@), env, res)),
            ExprKindV::FloatLiteral(_) => Ok((named_type("Float"@), env, res)),
            ExprKindV::StringLiteral(_) => Ok((named_type("String"@), env, res)),
            ExprKindV::BoolLiteral(_) => Ok((named_type("Bool"@), env, res)),
            ExprKindV::NilLiteral => Ok((TypeV::Never, env, res)),
            ExprKindV::Ident(name) => match c_ident(c, name, e.span, env) {
                Err(err) => Err(err),
                Ok(t) => Ok((t, env, res)),
            },
            ExprKindV::Block(b) => match c_stmts(c, b.stmts, 0, TypeV::Unit, env, res) {
                Err(err) => Err(err),
                Ok((t, _, r)) => Ok((t, env, r)),
            },
            ExprKindV::Let { name, ty, value, is_mut } => match c_expr(c, *value, env, res) {
                Err(err) => Err(err),
                Ok((vt, env1, r)) => match ty {
                    Some(dt) => if fits(c, dt, *value, vt) {
                        Ok((TypeV::Unit, env1.insert(name, dt), r))
                    } else {
                        Err(mismatch(dt, vt, value.span))
                    },
                    None => Ok((TypeV::Unit, env1.insert(name, vt), r)),
                },
            },
            ExprKindV::Return(Some(x)) => c_expr(c, *x, env, res),
            ExprKindV::Return(None) => Ok((TypeV::Unit, env, res)),
            ExprKindV::Binary { op, left, right } => match c_expr(c, *left, env, res) {
                Err(err) => Err(err),
                Ok((lt, env1, r1)) => match c_expr(c, *right, env1, r1) {
                    Err(err) => Err(err),
                    Ok((rt, env2, r2)) => match c_operation(
                        op,
                        lt,
                        left.span,
                        rt,
                        right.span,
                        e.span,
                    ) {
                        Err(err) => Err(err),
                        Ok(t) => Ok((t, env2, r2)),
                    },
                },
            },
            ExprKindV::Call { func, args } => c_call(c, callee_name(*func), args, e.span, env, res),
            ExprKindV::DotAccess { object, field } => match c_expr(c, *object, env, res) {
                Err(err) => Err(err),
                Ok((ot, env1, r1)) => match c_dot(c, ot, field, e.span) {
                    Err(err) => Err(err),
                    Ok((t, how)) => Ok((t, env1, r1.insert(e.span.start, how))),
                },
            },
            ExprKindV::Field { object, field } => match c_expr(c, *object, env, res) {
                Err(err) => Err(err),
                Ok((ot, env1, r1)) => Ok(
                    (
                        match field_type(c, ot, field) {
                            Some(t) => t,
                            None => TypeV::Unit,
                        },
                        env1,
                        r1,
                    ),
                ),
            },
            ExprKindV::StructLit { path, fields } => match literal_struct(c, path) {
                None => Ok((TypeV::Unit, env, res)),
                Some(s) => match c_inits(c, s, fields, 0, env, res) {
                    Err(err) => Err(err),
                    Ok(r) => Ok(
                        (TypeV::Path(PathV { segments: plain_segments(path) }), env, r),
                    ),
                },
            },
            ExprKindV::If { .. } => c_if(c, e, env, res),
            ExprKindV::While { cond, body } => match c_expr(c, *cond, env, res) {
                Err(err) => Err(err),
                Ok((t, env1, r)) => if accepts(named_type("Bool"@), t) {
                    Ok((TypeV::Unit, env1, r))
                } else {
                    Err(mismatch(named_type("Bool"@), t, cond.span))
                },
            },
            ExprKindV::For { var, iter, body } => match c_expr(c, *iter, env, res) {
                Err(err) => Err(err),
                Ok((t, env1, r)) => Ok((TypeV::Unit, env1, r)),
            },
            ExprKindV::Assign { target, value } => match c_expr(c, *target, env, res) {
                Err(err) => Err(err),
                Ok((tt, env1, r1)) => match c_expr(c, *value, env1, r1) {
                    Err(err) => Err(err),
                    Ok((vt, env2, r2)) => if fits(c, tt, *value, vt) {
                        Ok((TypeV::Unit, env2, r2))
                    } else {
                        Err(mismatch(tt, vt, e.span))
                    },
                },
            },
            _ => Ok((TypeV::Unit, env, res)),
        }
        }),
{
    reveal(c_call);
    reveal(c_expr);
    reveal(c_if);
    reveal(c_inits);
    reveal(c_stmts);
}

pub proof fn un_c_call(
    c: Known,
    callee: Option<Seq<char>>,
    args: Seq<ExprV>,
    span: Span,
    env: Env,
    res: Res,
)
    ensures
        c_call(c, callee, args, span, env, res) == ({
        match callee {
            None => Ok((TypeV::Unit, env, res)),
            Some(name) => if name == "std::to_string"@ {
                match c_args(c, args, 0, Seq::empty(), env, res) {
                    Err(err) => Err(err),
                    Ok((ts, env1, r)) => Ok((named_type("String"@), env1, r)),
                }
            } else {
                match lookup(c.functions, name) {
                    None => Ok((TypeV::Unit, env, res)),
                    Some(cands) => match c_args(c, args, 0, Seq::empty(), env, res) {
                        Err(err) => Err(err),
                        Ok((ts, env1, r)) => match c_overload(cands, ts, name, span) {
                            Err(err) => Err(err),
                            Ok(t) => Ok((t, env1, r)),
                        },
                    },
                }
            },
        }
        }),
{
    reveal(c_args);
    reveal(c_call);
}

pub proof fn un_c_args(
    c: Known,
    args: Seq<ExprV>,
    i: int,
    acc: Seq<TypeV>,
    env: Env,
    res: Res,
)
    ensures
        c_args(c, args, i, acc, env, res) == ({
        if 0 <= i < args.len() {
            match c_expr(c, args[i], env, res) {
                Err(err) => Err(err),
                Ok((t, env1, r1)) => c_args(c, args, i + 1, acc.push(t), env1, r1),
            }
        } else {
            Ok((acc, env, res))
        }
        }),
{
    reveal(c_args);
    reveal(c_expr);
}

pub proof fn un_c_stmts(
    c: Known,
    stmts: Seq<ExprV>,
    i: int,
    last: TypeV,
    env: Env,
    res: Res,
)
    ensures
        c_stmts(c, stmts, i, last, env, res) == ({
        if 0 <= i < stmts.len() {
            match c_expr(c, stmts[i], env, res) {
                Err(err) => Err(err),
                Ok((t, env1, r1)) => c_stmts(c, stmts, i + 1, t, env1, r1),
            }
        } else {
            Ok((last, env, res))
        }
        }),
{
    reveal(c_expr);
    reveal(c_stmts);
}

pub proof fn un_c_inits(
    c: Known,
    s: StructV,
    fields: Seq<(Seq<char>, ExprV)>,
    i: int,
    env: Env,
    res: Res,
)
    ensures
        c_inits(c, s, fields, i, env, res) == ({
        if 0 <= i < fields.len() {
            match field_of(s.fields, fields[i].0, 0) {
                None => c_inits(c, s, fields, i + 1, env, res),
                Some(ft) => match c_expr(c, fields[i].1, env, res) {
                    Err(err) => Err(err),
                    Ok((vt, _, r1)) => if fits(c, ft, fields[i].1, vt) {
                        c_inits(c, s, fields, i + 1, env, r1)
                    } else {
                        Err(mismatch(ft, vt, fields[i].1.span))
                    },
                },
            }
        } else {
            Ok(res)
        }
        }),
{
    reveal(c_expr);
    reveal(c_inits);
}

pub proof fn un_c_if(c: Known, e: ExprV, env: Env, res: Res)
    ensures
        c_if(c, e, env, res) == ({
        match e.kind {
            ExprKindV::If { cond, then_branch, else_branch } => match c_expr(c, *cond, env, res) {
                Err(err) => Err(err),
                Ok((ct, env1, r1)) => if !accepts(named_type("Bool"@), ct) {
                    Err(mismatch(named_type("Bool"@), ct, cond.span))
                } else {
                    match c_stmts(c, then_branch.stmts, 0, TypeV::Unit, env1, r1) {
                        Err(err) => Err(err),
                        Ok((tt, _, r2)) => match else_branch {
                            None => Ok((TypeV::Unit, env1, r2)),
                            Some(b) => match c_stmts(c, b.stmts, 0, TypeV::Unit, env1, r2) {
                                Err(err) => Err(err),
                                Ok((et, _, r3)) => Ok((tt, env1, r3)),
                            },
                        },
                    }
                },
            },
            _ => Ok((TypeV::Unit, env, res)),
        }
        }),
{
    reveal(c_expr);
    reveal(c_if);
    reveal(c_stmts);
}

} // verus!
