//! The rules of interpretation as equations.
use vstd::prelude::*;

verus! {

use crate::ast::{Enum, Struct};
use crate::debug::debug_expr_kind;
use crate::host::StopV;
use crate::interp_model::{
    Ctx, Vars, assign_op_result, bare_type, binary_result, bound, builtin, call_scope, chosen,
    condition, cpp_result, e_apply, e_args, e_arms, e_body, e_call, e_ctor, e_double, e_expr,
    e_fields, e_for, e_guard, e_if, e_match, e_record, e_rounds, e_single, e_stmts, e_store, e_user,
    e_while, fails, field_result, index_result, loop_values, pattern_match, unary_result,
};
use crate::maps::lookup;
use crate::model::{BlockV, ExprKindV, ExprV, FunctionV, MatchArmV};
use crate::text::{join_v, nat_text};
use crate::token::Span;
use crate::value::{ValueV, set_field};

pub proof fn un_e_expr(c: Ctx, fuel: nat, e: ExprV, env: Vars, out: Seq<char>)
    ensures
        e_expr(c, fuel, e, env, out) == ({
        match e.kind {
            ExprKindV::IntLiteral(n) => (Ok(ValueV::Int(n)), env, out),
            ExprKindV::FloatLiteral(s) => (Ok(ValueV::Float(s)), env, out),
            ExprKindV::StringLiteral(s) => (Ok(ValueV::String(s)), env, out),
            ExprKindV::BoolLiteral(b) => (Ok(ValueV::Bool(b)), env, out),
            ExprKindV::NilLiteral => (Ok(ValueV::Nil), env, out),
            ExprKindV::Ident(name) => (
                match lookup(env, name) {
                    Some(v) => Ok(v),
                    None => Err(fails("Undefined: '"@ + name + "'"@, e.span)),
                },
                env,
                out,
            ),
            ExprKindV::Path(names) => (Ok(ValueV::String(join_v(names, "::"@))), env, out),
            ExprKindV::CompileTimeResult(items) => (Ok(ValueV::Items(items)), env, out),
            ExprKindV::CppBlock(code) => (cpp_result(c, code, e.span), env, out),
            ExprKindV::Lambda { params, return_type, body } => (
                Err(fails("Lambdas not supported in interpreter"@, e.span)),
                env,
                out,
            ),
            ExprKindV::Return(None) => (Ok(ValueV::Nil), env, out),
            ExprKindV::Return(Some(x)) => e_expr(c, fuel, *x, env, out),
            ExprKindV::NamedArg { name, value } => e_expr(c, fuel, *value, env, out),
            ExprKindV::Block(b) => e_stmts(c, fuel, b.stmts, 0, env, out, ValueV::Nil),
            ExprKindV::Unary { op, expr } => e_single(c, fuel, e, env, out),
            ExprKindV::DotAccess { object, field } => e_single(c, fuel, e, env, out),
            ExprKindV::Field { object, field } => e_single(c, fuel, e, env, out),
            ExprKindV::Let { name, ty, value, is_mut } => e_store(c, fuel, e, env, out),
            ExprKindV::Assign { target, value } => e_store(c, fuel, e, env, out),
            ExprKindV::AssignOp { target, op, value } => e_store(c, fuel, e, env, out),
            ExprKindV::Binary { op, left, right } => e_double(c, fuel, e, env, out),
            ExprKindV::Index { object, index } => e_double(c, fuel, e, env, out),
            ExprKindV::Call { func, args } => e_apply(c, fuel, e, env, out),
            ExprKindV::If { cond, then_branch, else_branch } => e_if(c, fuel, e, env, out),
            ExprKindV::For { var, iter, body } => e_for(c, fuel, e, env, out),
            ExprKindV::While { cond, body } => e_while(c, fuel, e, env, out, ValueV::Nil),
            ExprKindV::StructLit { path, fields } => e_record(c, fuel, e, env, out),
            ExprKindV::GcNew { ty, fields } => e_record(c, fuel, e, env, out),
            ExprKindV::EnumCtor { path, case, arg } => e_ctor(c, fuel, e, env, out),
            ExprKindV::Match { expr, arms } => e_match(c, fuel, e, env, out),
            _ => (Err(fails("Unsupported: "@ + debug_expr_kind(e.kind), e.span)), env, out),
        }
        }),
{
    reveal(e_apply);
    reveal(e_ctor);
    reveal(e_double);
    reveal(e_expr);
    reveal(e_for);
    reveal(e_if);
    reveal(e_match);
    reveal(e_record);
    reveal(e_single);
    reveal(e_stmts);
    reveal(e_store);
    reveal(e_while);
}

pub proof fn un_e_stmts(
    c: Ctx,
    fuel: nat,
    stmts: Seq<ExprV>,
    i: int,
    env: Vars,
    out: Seq<char>,
    last: ValueV,
)
    ensures
        e_stmts(c, fuel, stmts, i, env, out, last) == ({
        if 0 <= i < stmts.len() {
            let (r, env1, out1) = e_expr(c, fuel, stmts[i], env, out);
            match r {
                Err(s) => (Err(s), env1, out1),
                Ok(v) => e_stmts(c, fuel, stmts, i + 1, env1, out1, v),
            }
        } else {
            (Ok(last), env, out)
        }
        }),
{
    reveal(e_expr);
    reveal(e_stmts);
}

pub proof fn un_e_single(c: Ctx, fuel: nat, e: ExprV, env: Vars, out: Seq<char>)
    ensures
        e_single(c, fuel, e, env, out) == ({
        match e.kind {
            ExprKindV::Unary { op, expr } => {
                let (r, env1, out1) = e_expr(c, fuel, *expr, env, out);
                match r {
                    Err(s) => (Err(s), env1, out1),
                    Ok(v) => (unary_result(c.host, op, v, e.span), env1, out1),
                }
            },
            ExprKindV::DotAccess { object, field } => {
                let (r, env1, out1) = e_expr(c, fuel, *object, env, out);
                match r {
                    Err(s) => (Err(s), env1, out1),
                    Ok(v) => (field_result(v, field, e.span), env1, out1),
                }
            },
            ExprKindV::Field { object, field } => {
                let (r, env1, out1) = e_expr(c, fuel, *object, env, out);
                match r {
                    Err(s) => (Err(s), env1, out1),
                    Ok(v) => (field_result(v, field, e.span), env1, out1),
                }
            },
            _ => (Ok(ValueV::Nil), env, out),
        }
        }),
{
    reveal(e_expr);
    reveal(e_single);
}

pub proof fn un_e_store(c: Ctx, fuel: nat, e: ExprV, env: Vars, out: Seq<char>)
    ensures
        e_store(c, fuel, e, env, out) == ({
        match e.kind {
            ExprKindV::Let { name, ty, value, is_mut } => {
                let (r, env1, out1) = e_expr(c, fuel, *value, env, out);
                match r {
                    Err(s) => (Err(s), env1, out1),
                    Ok(v) => (Ok(v), env1.insert(name, v), out1),
                }
            },
            ExprKindV::Assign { target, value } => {
                let (r, env1, out1) = e_expr(c, fuel, *value, env, out);
                match r {
                    Err(s) => (Err(s), env1, out1),
                    Ok(v) => match target.kind {
                        ExprKindV::Ident(name) => (Ok(v), env1.insert(name, v), out1),
                        _ => (Err(fails("Can only assign to variables"@, e.span)), env1, out1),
                    },
                }
            },
            ExprKindV::AssignOp { target, op, value } => match target.kind {
                ExprKindV::Ident(name) => {
                    let current = match lookup(env, name) {
                        Some(v) => v,
                        None => ValueV::Nil,
                    };
                    let (r, env1, out1) = e_expr(c, fuel, *value, env, out);
                    match r {
                        Err(s) => (Err(s), env1, out1),
                        Ok(v) => match assign_op_result(op, current, v, e.span) {
                            Err(s) => (Err(s), env1, out1),
                            Ok(w) => (Ok(w), env1.insert(name, w), out1),
                        },
                    }
                },
                _ => (Err(fails("Can only assign to variables"@, e.span)), env, out),
            },
            _ => (Ok(ValueV::Nil), env, out),
        }
        }),
{
    reveal(e_expr);
    reveal(e_store);
}

pub proof fn un_e_double(c: Ctx, fuel: nat, e: ExprV, env: Vars, out: Seq<char>)
    ensures
        e_double(c, fuel, e, env, out) == ({
        match e.kind {
            ExprKindV::Binary { op, left, right } => {
                let (r, env1, out1) = e_expr(c, fuel, *left, env, out);
                match r {
                    Err(s) => (Err(s), env1, out1),
                    Ok(l) => {
                        let (r2, env2, out2) = e_expr(c, fuel, *right, env1, out1);
                        match r2 {
                            Err(s) => (Err(s), env2, out2),
                            Ok(x) => (binary_result(c.host, op, l, x, e.span), env2, out2),
                        }
                    },
                }
            },
            ExprKindV::Index { object, index } => {
                let (r, env1, out1) = e_expr(c, fuel, *object, env, out);
                match r {
                    Err(s) => (Err(s), env1, out1),
                    Ok(l) => {
                        let (r2, env2, out2) = e_expr(c, fuel, *index, env1, out1);
                        match r2 {
                            Err(s) => (Err(s), env2, out2),
                            Ok(x) => (index_result(l, x, e.span), env2, out2),
                        }
                    },
                }
            },
            _ => (Ok(ValueV::Nil), env, out),
        }
        }),
{
    reveal(e_double);
    reveal(e_expr);
}

pub proof fn un_e_args(
    c: Ctx,
    fuel: nat,
    args: Seq<ExprV>,
    i: int,
    env: Vars,
    out: Seq<char>,
    acc: Seq<ValueV>,
)
    ensures
        e_args(c, fuel, args, i, env, out, acc) == ({
        if 0 <= i < args.len() {
            let (r, env1, out1) = e_expr(c, fuel, args[i], env, out);
            match r {
                Err(s) => (Err(s), env1, out1),
                Ok(v) => e_args(c, fuel, args, i + 1, env1, out1, acc.push(v)),
            }
        } else {
            (Ok(acc), env, out)
        }
        }),
{
    reveal(e_args);
    reveal(e_expr);
}

pub proof fn un_e_apply(c: Ctx, fuel: nat, e: ExprV, env: Vars, out: Seq<char>)
    ensures
        e_apply(c, fuel, e, env, out) == ({
        match e.kind {
            ExprKindV::Call { func, args } => match func.kind {
                ExprKindV::Ident(name) => {
                    let (r, env1, out1) = e_args(c, fuel, args, 0, env, out, Seq::empty());
                    match r {
                        Err(s) => (Err(s), env1, out1),
                        Ok(vals) => {
                            let (r2, out2) = e_call(c, fuel, name, vals, e.span, out1);
                            (r2, env1, out2)
                        },
                    }
                },
                _ => (Err(fails("Only named calls in macros"@, e.span)), env, out),
            },
            _ => (Ok(ValueV::Nil), env, out),
        }
        }),
{
    reveal(e_apply);
    reveal(e_args);
    reveal(e_call);
}

pub proof fn un_e_call(
    c: Ctx,
    fuel: nat,
    name: Seq<char>,
    args: Seq<ValueV>,
    span: Span,
    out: Seq<char>,
)
    ensures
        e_call(c, fuel, name, args, span, out) == ({
        match lookup(c.functions, name) {
            None => builtin(c, name, args, span, out),
            Some(fs) => match chosen(c, name, fs, args, span) {
                Err(s) => (Err(s), out),
                Ok(f) => e_user(c, fuel, f, args, span, out),
            },
        }
        }),
{
    reveal(e_call);
    reveal(e_user);
}

pub proof fn un_e_user(
    c: Ctx,
    fuel: nat,
    f: FunctionV,
    args: Seq<ValueV>,
    span: Span,
    out: Seq<char>,
)
    ensures
        e_user(c, fuel, f, args, span, out) == ({
        if f.params.len() != args.len() {
            (
                Err(
                    fails(
                        "Function '"@ + f.name + "' expects "@ + nat_text(f.params.len())
                            + " arguments, got "@ + nat_text(args.len()),
                        span,
                    ),
                ),
                out,
            )
        } else if fuel == 0 {
            (Err(StopV::OutOfFuel), out)
        } else {
            e_body(
                c,
                (fuel - 1) as nat,
                f.body.stmts,
                0,
                call_scope(f.params, args, 0, Map::empty()),
                out,
                ValueV::Nil,
            )
        }
        }),
{
    reveal(e_body);
    reveal(e_user);
}

pub proof fn un_e_body(
    c: Ctx,
    fuel: nat,
    stmts: Seq<ExprV>,
    i: int,
    env: Vars,
    out: Seq<char>,
    last: ValueV,
)
    ensures
        e_body(c, fuel, stmts, i, env, out, last) == ({
        if 0 <= i < stmts.len() {
            let (r, env1, out1) = e_expr(c, fuel, stmts[i], env, out);
            if stmts[i].kind is Return {
                (r, out1)
            } else {
                match r {
                    Err(s) => (Err(s), out1),
                    Ok(v) => e_body(c, fuel, stmts, i + 1, env1, out1, v),
                }
            }
        } else {
            (Ok(last), out)
        }
        }),
{
    reveal(e_body);
    reveal(e_expr);
}

pub proof fn un_e_if(c: Ctx, fuel: nat, e: ExprV, env: Vars, out: Seq<char>)
    ensures
        e_if(c, fuel, e, env, out) == ({
        match e.kind {
            ExprKindV::If { cond, then_branch, else_branch } => {
                let (r, env1, out1) = e_expr(c, fuel, *cond, env, out);
                match r {
                    Err(s) => (Err(s), env1, out1),
                    Ok(v) => match condition(v, "If condition must be bool"@, e.span) {
                        Err(s) => (Err(s), env1, out1),
                        Ok(b) => if b {
                            e_stmts(c, fuel, then_branch.stmts, 0, env1, out1, ValueV::Nil)
                        } else {
                            match else_branch {
                                Some(eb) => e_stmts(c, fuel, eb.stmts, 0, env1, out1, ValueV::Nil),
                                None => (Ok(ValueV::Nil), env1, out1),
                            }
                        },
                    },
                }
            },
            _ => (Ok(ValueV::Nil), env, out),
        }
        }),
{
    reveal(e_expr);
    reveal(e_if);
    reveal(e_stmts);
}

pub proof fn un_e_for(c: Ctx, fuel: nat, e: ExprV, env: Vars, out: Seq<char>)
    ensures
        e_for(c, fuel, e, env, out) == ({
        match e.kind {
            ExprKindV::For { var, iter, body } => {
                let (r, env1, out1) = e_expr(c, fuel, *iter, env, out);
                match r {
                    Err(s) => (Err(s), env1, out1),
                    Ok(v) => match loop_values(v, e.span) {
                        Err(s) => (Err(s), env1, out1),
                        Ok(vals) => e_rounds(c, fuel, var, vals, 0, body, env1, out1, ValueV::Nil),
                    },
                }
            },
            _ => (Ok(ValueV::Nil), env, out),
        }
        }),
{
    reveal(e_expr);
    reveal(e_for);
    reveal(e_rounds);
}

pub proof fn un_e_rounds(
    c: Ctx,
    fuel: nat,
    var: Seq<char>,
    vals: Seq<ValueV>,
    i: int,
    body: BlockV,
    env: Vars,
    out: Seq<char>,
    last: ValueV,
)
    ensures
        e_rounds(c, fuel, var, vals, i, body, env, out, last) == ({
        if 0 <= i < vals.len() {
            let (r, env1, out1) = e_stmts(
                c,
                fuel,
                body.stmts,
                0,
                env.insert(var, vals[i]),
                out,
                last,
            );
            match r {
                Err(s) => (Err(s), env1, out1),
                Ok(v) => e_rounds(c, fuel, var, vals, i + 1, body, env1, out1, v),
            }
        } else {
            (Ok(last), env, out)
        }
        }),
{
    reveal(e_rounds);
    reveal(e_stmts);
}

pub proof fn un_e_while(
    c: Ctx,
    fuel: nat,
    e: ExprV,
    env: Vars,
    out: Seq<char>,
    last: ValueV,
)
    ensures
        e_while(c, fuel, e, env, out, last) == ({
        match e.kind {
            ExprKindV::While { cond, body } => {
                let (r, env1, out1) = e_expr(c, fuel, *cond, env, out);
                match r {
                    Err(s) => (Err(s), env1, out1),
                    Ok(v) => match condition(v, "While condition must be bool"@, e.span) {
                        Err(s) => (Err(s), env1, out1),
                        Ok(b) => if !b {
                            (Ok(last), env1, out1)
                        } else {
                            let (r2, env2, out2) = e_stmts(
                                c,
                                fuel,
                                body.stmts,
                                0,
                                env1,
                                out1,
                                last,
                            );
                            match r2 {
                                Err(s) => (Err(s), env2, out2),
                                Ok(w) => if fuel == 0 {
                                    (Err(StopV::OutOfFuel), env2, out2)
                                } else {
                                    e_while(c, (fuel - 1) as nat, e, env2, out2, w)
                                },
                            }
                        },
                    },
                }
            },
            _ => (Ok(last), env, out),
        }
        }),
{
    reveal(e_expr);
    reveal(e_stmts);
    reveal(e_while);
}

pub proof fn un_e_fields(
    c: Ctx,
    fuel: nat,
    fs: Seq<(Seq<char>, ExprV)>,
    i: int,
    env: Vars,
    out: Seq<char>,
    acc: Seq<(Seq<char>, ValueV)>,
)
    ensures
        e_fields(c, fuel, fs, i, env, out, acc) == ({
        if 0 <= i < fs.len() {
            let (r, env1, out1) = e_expr(c, fuel, fs[i].1, env, out);
            match r {
                Err(s) => (Err(s), env1, out1),
                Ok(v) => e_fields(c, fuel, fs, i + 1, env1, out1, set_field(acc, fs[i].0, v)),
            }
        } else {
            (Ok(acc), env, out)
        }
        }),
{
    reveal(e_expr);
    reveal(e_fields);
}

pub proof fn un_e_record(c: Ctx, fuel: nat, e: ExprV, env: Vars, out: Seq<char>)
    ensures
        e_record(c, fuel, e, env, out) == ({
        match e.kind {
            ExprKindV::StructLit { path, fields } => {
                let (r, env1, out1) = e_fields(c, fuel, fields, 0, env, out, Seq::empty());
                match r {
                    Err(s) => (Err(s), env1, out1),
                    Ok(fs) => (
                        Ok(
                            ValueV::Struct(
                                if path.len() > 0 {
                                    path.last()
                                } else {
                                    Seq::empty()
                                },
                                fs,
                            ),
                        ),
                        env1,
                        out1,
                    ),
                }
            },
            ExprKindV::GcNew { ty, fields } => {
                let (r, env1, out1) = e_fields(c, fuel, fields, 0, env, out, Seq::empty());
                match r {
                    Err(s) => (Err(s), env1, out1),
                    Ok(fs) => (
                        Ok(
                            ValueV::Struct(
                                match bare_type(ty) {
                                    Some(n) => n,
                                    None => Seq::empty(),
                                },
                                fs,
                            ),
                        ),
                        env1,
                        out1,
                    ),
                }
            },
            _ => (Ok(ValueV::Nil), env, out),
        }
        }),
{
    reveal(e_fields);
    reveal(e_record);
}

pub proof fn un_e_ctor(c: Ctx, fuel: nat, e: ExprV, env: Vars, out: Seq<char>)
    ensures
        e_ctor(c, fuel, e, env, out) == ({
        match e.kind {
            ExprKindV::EnumCtor { path, case, arg } => match arg {
                None => (Ok(ValueV::Enum(case, None)), env, out),
                Some(a) => {
                    let (r, env1, out1) = e_expr(c, fuel, *a, env, out);
                    match r {
                        Err(s) => (Err(s), env1, out1),
                        Ok(v) => (Ok(ValueV::Enum(case, Some(Box::new(v)))), env1, out1),
                    }
                },
            },
            _ => (Ok(ValueV::Nil), env, out),
        }
        }),
{
    reveal(e_ctor);
    reveal(e_expr);
}

pub proof fn un_e_match(c: Ctx, fuel: nat, e: ExprV, env: Vars, out: Seq<char>)
    ensures
        e_match(c, fuel, e, env, out) == ({
        match e.kind {
            ExprKindV::Match { expr, arms } => {
                let (r, env1, out1) = e_expr(c, fuel, *expr, env, out);
                match r {
                    Err(s) => (Err(s), env1, out1),
                    Ok(v) => {
                        let (r2, out2) = e_arms(c, fuel, arms, 0, v, env1, out1, e.span);
                        (r2, env1, out2)
                    },
                }
            },
            _ => (Ok(ValueV::Nil), env, out),
        }
        }),
{
    reveal(e_arms);
    reveal(e_expr);
    reveal(e_match);
}

pub proof fn un_e_arms(
    c: Ctx,
    fuel: nat,
    arms: Seq<MatchArmV>,
    i: int,
    v: ValueV,
    env: Vars,
    out: Seq<char>,
    span: Span,
)
    ensures
        e_arms(c, fuel, arms, i, v, env, out, span) == ({
        if 0 <= i < arms.len() {
            match pattern_match(v, arms[i].pattern) {
                Err(s) => (Err(s), out),
                Ok(None) => e_arms(c, fuel, arms, i + 1, v, env, out, span),
                Ok(Some(bs)) => {
                    let (g, out1) = e_guard(c, fuel, arms[i].guard, bound(env, bs, 0), out);
                    match g {
                        Err(s) => (Err(s), out1),
                        Ok(false) => e_arms(c, fuel, arms, i + 1, v, env, out1, span),
                        Ok(true) => {
                            let (r, env2, out2) = e_expr(
                                c,
                                fuel,
                                *arms[i].body,
                                bound(env, bs, 0),
                                out1,
                            );
                            (r, out2)
                        },
                    }
                },
            }
        } else {
            (Err(fails("No matching pattern"@, span)), out)
        }
        }),
{
    reveal(e_arms);
    reveal(e_expr);
    reveal(e_guard);
}

pub proof fn un_e_guard(
    c: Ctx,
    fuel: nat,
    guard: Option<Box<ExprV>>,
    env: Vars,
    out: Seq<char>,
)
    ensures
        e_guard(c, fuel, guard, env, out) == ({
        match guard {
            None => (Ok(true), out),
            Some(g) => {
                let (r, env1, out1) = e_expr(c, fuel, *g, env, out);
                match r {
                    Err(s) => (Err(s), out1),
                    Ok(v) => (Ok(v != ValueV::Bool(false)), out1),
                }
            },
        }
        }),
{
    reveal(e_expr);
    reveal(e_guard);
}

} // verus!
