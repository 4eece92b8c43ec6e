//! The rules of macro expansion as equations.
use vstd::prelude::*;

verus! {

use crate::ast::{binary_expr, block_expr, call_expr};
use crate::expand_model::{
    Bindings, Expansion, both_parts, call_or_esc, computes, declared, declared_by, dollar_bound,
    flattened, only_part, quoted_name, tree_scope, unbound, undefined_macro, value_expr,
    value_scope, with_part, with_parts, x_bodies, x_body, x_macro, x_named, x_quoted, x_quoted_else,
    x_quoted_if, x_quotes, x_spliced, y_arms, y_block, y_double, y_else, y_expr, y_exprs, y_fields,
    y_flow, y_guard, y_list, y_match, y_single, y_stmts,
};
use crate::host::StopV;
use crate::interp_model::{e_expr, fails};
use crate::interpreter::ctx;
use crate::maps::lookup;
use crate::model::{BlockV, ExprKindV, ExprV, FunctionV, ItemV, MacroDefV, MatchArmV, VarDeclV};
use crate::text::nat_text;
use crate::token::Span;

pub proof fn un_x_macro(x: Expansion, fuel: nat, m: MacroDefV, args: Seq<ExprV>, span: Span)
    ensures
        x_macro(x, fuel, m, args, span) == ({
        if m.params.len() != args.len() {
            Err(
                fails(
                    "Macro '"@ + m.name + "' expects "@ + nat_text(m.params.len())
                        + " arguments, got "@ + nat_text(args.len()),
                    span,
                ),
            )
        } else if computes(*m.body) {
            match e_expr(
                x.ctx,
                fuel,
                *m.body,
                value_scope(m.params, args, 0, Map::empty()),
                Seq::empty(),
            ).0 {
                Err(s) => Err(s),
                Ok(v) => value_expr(v, span),
            }
        } else if fuel == 0 {
            Err(StopV::OutOfFuel)
        } else {
            x_body(x, (fuel - 1) as nat, *m.body, tree_scope(m.params, args, 0, Map::empty()))
        }
        }),
{
    reveal(x_body);
    reveal(x_macro);
}

pub proof fn un_x_named(
    x: Expansion,
    fuel: nat,
    name: Seq<char>,
    what: Seq<char>,
    args: Seq<ExprV>,
    span: Span,
)
    ensures
        x_named(x, fuel, name, what, args, span) == ({
        match lookup(x.macros, name) {
            Some(m) => x_macro(x, fuel, m, args, span),
            None => Err(unbound(what, name, span)),
        }
        }),
{
    reveal(x_macro);
    reveal(x_named);
}

pub proof fn un_x_body(x: Expansion, fuel: nat, e: ExprV, b: Bindings)
    ensures
        x_body(x, fuel, e, b) == ({
        match e.kind {
            ExprKindV::Ident(name) => match dollar_bound(name, b) {
                Some(t) => Ok(t),
                None => match lookup(b, name) {
                    Some(t) => Ok(t),
                    None => Ok(e),
                },
            },
            ExprKindV::Quote(stmts) => match x_spliced(x, fuel, stmts, 0, b, Seq::empty()) {
                Err(s) => Err(s),
                Ok(es) => Ok(ExprV { kind: ExprKindV::Quote(es), span: e.span }),
            },
            ExprKindV::UnquoteIdent(name) => match lookup(b, name) {
                Some(t) => Ok(t),
                None => Err(unbound("Unbound variable in unquote: '"@, name, e.span)),
            },
            ExprKindV::Unquote(inner) => x_body(x, fuel, *inner, b),
            ExprKindV::Block(k) => match x_bodies(x, fuel, k.stmts, 0, b, Seq::empty()) {
                Err(s) => Err(s),
                Ok(es) => Ok(block_expr(es, e.span)),
            },
            ExprKindV::Call { func, args } => match x_body(x, fuel, *func, b) {
                Err(s) => Err(s),
                Ok(f) => match x_bodies(x, fuel, args, 0, b, Seq::empty()) {
                    Err(s) => Err(s),
                    Ok(es) => Ok(call_or_esc(f, es, e.span)),
                },
            },
            ExprKindV::Binary { op, left, right } => match x_body(x, fuel, *left, b) {
                Err(s) => Err(s),
                Ok(l) => match x_body(x, fuel, *right, b) {
                    Err(s) => Err(s),
                    Ok(r) => Ok(binary_expr(l, op, r, e.span)),
                },
            },
            ExprKindV::MacroCall { name, args } => match x_bodies(
                x,
                fuel,
                args,
                0,
                b,
                Seq::empty(),
            ) {
                Err(s) => Err(s),
                Ok(es) => x_named(
                    x,
                    fuel,
                    name,
                    "Undefined macro in macro body: '"@,
                    es,
                    e.span,
                ),
            },
            _ => Ok(e),
        }
        }),
{
    reveal(x_bodies);
    reveal(x_body);
    reveal(x_named);
    reveal(x_spliced);
}

pub proof fn un_x_bodies(
    x: Expansion,
    fuel: nat,
    es: Seq<ExprV>,
    i: int,
    b: Bindings,
    acc: Seq<ExprV>,
)
    ensures
        x_bodies(x, fuel, es, i, b, acc) == ({
        if 0 <= i < es.len() {
            match x_body(x, fuel, es[i], b) {
                Err(s) => Err(s),
                Ok(t) => x_bodies(x, fuel, es, i + 1, b, acc.push(t)),
            }
        } else {
            Ok(acc)
        }
        }),
{
    reveal(x_bodies);
    reveal(x_body);
}

pub proof fn un_x_spliced(
    x: Expansion,
    fuel: nat,
    es: Seq<ExprV>,
    i: int,
    b: Bindings,
    acc: Seq<ExprV>,
)
    ensures
        x_spliced(x, fuel, es, i, b, acc) == ({
        if 0 <= i < es.len() {
            match x_quoted(x, fuel, es[i], b) {
                Err(s) => Err(s),
                Ok(t) => x_spliced(x, fuel, es, i + 1, b, acc + flattened(t)),
            }
        } else {
            Ok(acc)
        }
        }),
{
    reveal(x_quoted);
    reveal(x_spliced);
}

pub proof fn un_x_quotes(
    x: Expansion,
    fuel: nat,
    es: Seq<ExprV>,
    i: int,
    b: Bindings,
    acc: Seq<ExprV>,
)
    ensures
        x_quotes(x, fuel, es, i, b, acc) == ({
        if 0 <= i < es.len() {
            match x_quoted(x, fuel, es[i], b) {
                Err(s) => Err(s),
                Ok(t) => x_quotes(x, fuel, es, i + 1, b, acc.push(t)),
            }
        } else {
            Ok(acc)
        }
        }),
{
    reveal(x_quoted);
    reveal(x_quotes);
}

pub proof fn un_x_quoted(x: Expansion, fuel: nat, e: ExprV, b: Bindings)
    ensures
        x_quoted(x, fuel, e, b) == ({
        match e.kind {
            ExprKindV::Ident(name) => match dollar_bound(name, b) {
                Some(t) => Ok(t),
                None => Ok(e),
            },
            ExprKindV::UnquoteIdent(name) => match lookup(b, name) {
                Some(t) => Ok(t),
                None => Err(unbound("Unbound variable in quote: '"@, name, e.span)),
            },
            ExprKindV::Unquote(inner) => x_body(x, fuel, *inner, b),
            ExprKindV::Quote(stmts) => match x_quotes(x, fuel, stmts, 0, b, Seq::empty()) {
                Err(s) => Err(s),
                Ok(es) => Ok(ExprV { kind: ExprKindV::Quote(es), span: e.span }),
            },
            ExprKindV::Block(k) => match x_quotes(x, fuel, k.stmts, 0, b, Seq::empty()) {
                Err(s) => Err(s),
                Ok(es) => Ok(block_expr(es, e.span)),
            },
            ExprKindV::Call { func, args } => match x_quoted(x, fuel, *func, b) {
                Err(s) => Err(s),
                Ok(f) => match x_quotes(x, fuel, args, 0, b, Seq::empty()) {
                    Err(s) => Err(s),
                    Ok(es) => Ok(call_expr(f, es, e.span)),
                },
            },
            ExprKindV::Binary { op, left, right } => match x_quoted(x, fuel, *left, b) {
                Err(s) => Err(s),
                Ok(l) => match x_quoted(x, fuel, *right, b) {
                    Err(s) => Err(s),
                    Ok(r) => Ok(binary_expr(l, op, r, e.span)),
                },
            },
            ExprKindV::Return(None) => Ok(e),
            ExprKindV::Return(Some(v)) => match x_quoted(x, fuel, *v, b) {
                Err(s) => Err(s),
                Ok(t) => Ok(
                    ExprV { kind: ExprKindV::Return(Some(Box::new(t))), span: e.span },
                ),
            },
            ExprKindV::Let { name, ty, value, is_mut } => match x_quoted(x, fuel, *value, b) {
                Err(s) => Err(s),
                Ok(t) => Ok(
                    ExprV {
                        kind: ExprKindV::Let { name, ty, value: Box::new(t), is_mut },
                        span: e.span,
                    },
                ),
            },
            ExprKindV::If { cond, then_branch, else_branch } => x_quoted_if(x, fuel, e, b),
            ExprKindV::MacroCall { name, args } => match x_quotes(
                x,
                fuel,
                args,
                0,
                b,
                Seq::empty(),
            ) {
                Err(s) => Err(s),
                Ok(es) => x_named(x, fuel, name, "Undefined macro in quote: '"@, es, e.span),
            },
            ExprKindV::FuncDef(f) => match x_quotes(x, fuel, f.body.stmts, 0, b, Seq::empty()) {
                Err(s) => Err(s),
                Ok(es) => Ok(
                    ExprV {
                        kind: ExprKindV::FuncDef(
                            FunctionV {
                                name: quoted_name(f.name, b),
                                body: BlockV { stmts: es, span: f.body.span },
                                ..f
                            },
                        ),
                        span: e.span,
                    },
                ),
            },
            _ => Ok(e),
        }
        }),
{
    reveal(x_body);
    reveal(x_named);
    reveal(x_quoted);
    reveal(x_quoted_if);
    reveal(x_quotes);
}

pub proof fn un_x_quoted_if(x: Expansion, fuel: nat, e: ExprV, b: Bindings)
    ensures
        x_quoted_if(x, fuel, e, b) == ({
        match e.kind {
            ExprKindV::If { cond, then_branch, else_branch } => match x_quotes(
                x,
                fuel,
                then_branch.stmts,
                0,
                b,
                Seq::empty(),
            ) {
                Err(s) => Err(s),
                Ok(ts) => match x_quoted_else(x, fuel, else_branch, b) {
                    Err(s) => Err(s),
                    Ok(eb) => match x_quoted(x, fuel, *cond, b) {
                        Err(s) => Err(s),
                        Ok(c) => Ok(
                            ExprV {
                                kind: ExprKindV::If {
                                    cond: Box::new(c),
                                    then_branch: BlockV { stmts: ts, span: then_branch.span },
                                    else_branch: eb,
                                },
                                span: e.span,
                            },
                        ),
                    },
                },
            },
            _ => Ok(e),
        }
        }),
{
    reveal(x_quoted);
    reveal(x_quoted_else);
    reveal(x_quoted_if);
    reveal(x_quotes);
}

pub proof fn un_x_quoted_else(x: Expansion, fuel: nat, o: Option<BlockV>, b: Bindings)
    ensures
        x_quoted_else(x, fuel, o, b) == ({
        match o {
            None => Ok(None),
            Some(k) => match x_quotes(x, fuel, k.stmts, 0, b, Seq::empty()) {
                Ok(es) => Ok(Some(BlockV { stmts: es, span: k.span })),
                Err(StopV::Error(_)) => Ok(None),
                Err(s) => Err(s),
            },
        }
        }),
{
    reveal(x_quoted_else);
    reveal(x_quotes);
}

pub proof fn un_y_expr(x: Expansion, fuel: nat, e: ExprV)
    ensures
        y_expr(x, fuel, e) == ({
        match e.kind {
            ExprKindV::MacroCall { name, args } => match y_exprs(x, fuel, args, 0, Seq::empty()) {
                Err(s) => Err(s),
                Ok(es) => x_named(x, fuel, name, undefined_macro(), es, e.span),
            },
            ExprKindV::Block(b) => match y_block(x, fuel, b) {
                Err(s) => Err(s),
                Ok(k) => Ok(ExprV { kind: ExprKindV::Block(k), span: e.span }),
            },
            ExprKindV::Unary { .. } => y_single(x, fuel, e),
            ExprKindV::Field { .. } => y_single(x, fuel, e),
            ExprKindV::DotAccess { .. } => y_single(x, fuel, e),
            ExprKindV::NamedArg { .. } => y_single(x, fuel, e),
            ExprKindV::Lambda { .. } => y_single(x, fuel, e),
            ExprKindV::Let { .. } => y_single(x, fuel, e),
            ExprKindV::Return(Some(_)) => y_single(x, fuel, e),
            ExprKindV::EnumCtor { .. } => y_single(x, fuel, e),
            ExprKindV::Binary { .. } => y_double(x, fuel, e),
            ExprKindV::Index { .. } => y_double(x, fuel, e),
            ExprKindV::Assign { .. } => y_double(x, fuel, e),
            ExprKindV::AssignOp { .. } => y_double(x, fuel, e),
            ExprKindV::Call { .. } => y_list(x, fuel, e),
            ExprKindV::GcNew { .. } => y_list(x, fuel, e),
            ExprKindV::StructLit { .. } => y_list(x, fuel, e),
            ExprKindV::If { .. } => y_flow(x, fuel, e),
            ExprKindV::While { .. } => y_flow(x, fuel, e),
            ExprKindV::For { .. } => y_flow(x, fuel, e),
            ExprKindV::Match { .. } => y_match(x, fuel, e),
            ExprKindV::Unquote(_) => Err(fails("$unquote outside of quote context"@, e.span)),
            ExprKindV::UnquoteIdent(_) => Err(fails("$unquote outside of quote context"@, e.span)),
            _ => Ok(e),
        }
        }),
{
    reveal(x_named);
    reveal(y_block);
    reveal(y_double);
    reveal(y_expr);
    reveal(y_exprs);
    reveal(y_flow);
    reveal(y_list);
    reveal(y_match);
    reveal(y_single);
}

pub proof fn un_y_exprs(x: Expansion, fuel: nat, es: Seq<ExprV>, i: int, acc: Seq<ExprV>)
    ensures
        y_exprs(x, fuel, es, i, acc) == ({
        if 0 <= i < es.len() {
            match y_expr(x, fuel, es[i]) {
                Err(s) => Err(s),
                Ok(t) => y_exprs(x, fuel, es, i + 1, acc.push(t)),
            }
        } else {
            Ok(acc)
        }
        }),
{
    reveal(y_expr);
    reveal(y_exprs);
}

pub proof fn un_y_stmts(x: Expansion, fuel: nat, es: Seq<ExprV>, i: int, acc: Seq<ExprV>)
    ensures
        y_stmts(x, fuel, es, i, acc) == ({
        if 0 <= i < es.len() {
            match y_expr(x, fuel, es[i]) {
                Err(s) => Err(s),
                Ok(t) => y_stmts(x, fuel, es, i + 1, acc + flattened(t)),
            }
        } else {
            Ok(acc)
        }
        }),
{
    reveal(y_expr);
    reveal(y_stmts);
}

pub proof fn un_y_block(x: Expansion, fuel: nat, b: BlockV)
    ensures
        y_block(x, fuel, b) == ({
        match y_stmts(x, fuel, b.stmts, 0, Seq::empty()) {
            Err(s) => Err(s),
            Ok(es) => Ok(BlockV { stmts: es, span: b.span }),
        }
        }),
{
    reveal(y_block);
    reveal(y_stmts);
}

pub proof fn un_y_fields(
    x: Expansion,
    fuel: nat,
    fs: Seq<(Seq<char>, ExprV)>,
    i: int,
    acc: Seq<(Seq<char>, ExprV)>,
)
    ensures
        y_fields(x, fuel, fs, i, acc) == ({
        if 0 <= i < fs.len() {
            match y_expr(x, fuel, fs[i].1) {
                Err(s) => Err(s),
                Ok(t) => y_fields(x, fuel, fs, i + 1, acc.push((fs[i].0, t))),
            }
        } else {
            Ok(acc)
        }
        }),
{
    reveal(y_expr);
    reveal(y_fields);
}

pub proof fn un_y_single(x: Expansion, fuel: nat, e: ExprV)
    ensures
        y_single(x, fuel, e) == ({
        match only_part(e) {
            None => Ok(e),
            Some(p) => match y_expr(x, fuel, p) {
                Err(s) => Err(s),
                Ok(t) => Ok(ExprV { kind: with_part(e.kind, t), span: e.span }),
            },
        }
        }),
{
    reveal(y_expr);
    reveal(y_single);
}

pub proof fn un_y_double(x: Expansion, fuel: nat, e: ExprV)
    ensures
        y_double(x, fuel, e) == ({
        match both_parts(e) {
            None => Ok(e),
            Some((p, q)) => match y_expr(x, fuel, p) {
                Err(s) => Err(s),
                Ok(a) => match y_expr(x, fuel, q) {
                    Err(s) => Err(s),
                    Ok(b) => Ok(ExprV { kind: with_parts(e.kind, a, b), span: e.span }),
                },
            },
        }
        }),
{
    reveal(y_double);
    reveal(y_expr);
}

pub proof fn un_y_list(x: Expansion, fuel: nat, e: ExprV)
    ensures
        y_list(x, fuel, e) == ({
        match e.kind {
            ExprKindV::Call { func, args } => match y_expr(x, fuel, *func) {
                Err(s) => Err(s),
                Ok(f) => match y_exprs(x, fuel, args, 0, Seq::empty()) {
                    Err(s) => Err(s),
                    Ok(es) => Ok(call_expr(f, es, e.span)),
                },
            },
            ExprKindV::GcNew { ty, fields } => match y_fields(x, fuel, fields, 0, Seq::empty()) {
                Err(s) => Err(s),
                Ok(fs) => Ok(ExprV { kind: ExprKindV::GcNew { ty, fields: fs }, span: e.span }),
            },
            ExprKindV::StructLit { path, fields } => match y_fields(
                x,
                fuel,
                fields,
                0,
                Seq::empty(),
            ) {
                Err(s) => Err(s),
                Ok(fs) => Ok(
                    ExprV { kind: ExprKindV::StructLit { path, fields: fs }, span: e.span },
                ),
            },
            _ => Ok(e),
        }
        }),
{
    reveal(y_expr);
    reveal(y_exprs);
    reveal(y_fields);
    reveal(y_list);
}

pub proof fn un_y_flow(x: Expansion, fuel: nat, e: ExprV)
    ensures
        y_flow(x, fuel, e) == ({
        match e.kind {
            ExprKindV::If { cond, then_branch, else_branch } => match y_block(x, fuel, then_branch) {
                Err(s) => Err(s),
                Ok(tb) => match y_else(x, fuel, else_branch) {
                    Err(s) => Err(s),
                    Ok(eb) => match y_expr(x, fuel, *cond) {
                        Err(s) => Err(s),
                        Ok(c) => Ok(
                            ExprV {
                                kind: ExprKindV::If {
                                    cond: Box::new(c),
                                    then_branch: tb,
                                    else_branch: eb,
                                },
                                span: e.span,
                            },
                        ),
                    },
                },
            },
            ExprKindV::While { cond, body } => match y_block(x, fuel, body) {
                Err(s) => Err(s),
                Ok(b) => match y_expr(x, fuel, *cond) {
                    Err(s) => Err(s),
                    Ok(c) => Ok(
                        ExprV {
                            kind: ExprKindV::While { cond: Box::new(c), body: b },
                            span: e.span,
                        },
                    ),
                },
            },
            ExprKindV::For { var, iter, body } => match y_block(x, fuel, body) {
                Err(s) => Err(s),
                Ok(b) => match y_expr(x, fuel, *iter) {
                    Err(s) => Err(s),
                    Ok(c) => Ok(
                        ExprV {
                            kind: ExprKindV::For { var, iter: Box::new(c), body: b },
                            span: e.span,
                        },
                    ),
                },
            },
            _ => Ok(e),
        }
        }),
{
    reveal(y_block);
    reveal(y_else);
    reveal(y_expr);
    reveal(y_flow);
}

pub proof fn un_y_else(x: Expansion, fuel: nat, o: Option<BlockV>)
    ensures
        y_else(x, fuel, o) == ({
        match o {
            None => Ok(None),
            Some(b) => match y_block(x, fuel, b) {
                Err(s) => Err(s),
                Ok(k) => Ok(Some(k)),
            },
        }
        }),
{
    reveal(y_block);
    reveal(y_else);
}

pub proof fn un_y_match(x: Expansion, fuel: nat, e: ExprV)
    ensures
        y_match(x, fuel, e) == ({
        match e.kind {
            ExprKindV::Match { expr, arms } => match y_expr(x, fuel, *expr) {
                Err(s) => Err(s),
                Ok(m) => match y_arms(x, fuel, arms, 0, Seq::empty()) {
                    Err(s) => Err(s),
                    Ok(ks) => Ok(
                        ExprV {
                            kind: ExprKindV::Match { expr: Box::new(m), arms: ks },
                            span: e.span,
                        },
                    ),
                },
            },
            _ => Ok(e),
        }
        }),
{
    reveal(y_arms);
    reveal(y_expr);
    reveal(y_match);
}

pub proof fn un_y_arms(
    x: Expansion,
    fuel: nat,
    arms: Seq<MatchArmV>,
    i: int,
    acc: Seq<MatchArmV>,
)
    ensures
        y_arms(x, fuel, arms, i, acc) == ({
        if 0 <= i < arms.len() {
            match y_guard(x, fuel, arms[i].guard) {
                Err(s) => Err(s),
                Ok(guard) => match y_expr(x, fuel, *arms[i].body) {
                    Err(s) => Err(s),
                    Ok(t) => y_arms(
                        x,
                        fuel,
                        arms,
                        i + 1,
                        acc.push(
                            MatchArmV { pattern: arms[i].pattern, guard, body: Box::new(t) },
                        ),
                    ),
                },
            }
        } else {
            Ok(acc)
        }
        }),
{
    reveal(y_arms);
    reveal(y_expr);
    reveal(y_guard);
}

pub proof fn un_y_guard(x: Expansion, fuel: nat, g: Option<Box<ExprV>>)
    ensures
        y_guard(x, fuel, g) == ({
        match g {
            None => Ok(None),
            Some(e) => match y_expr(x, fuel, *e) {
                Err(s) => Err(s),
                Ok(t) => Ok(Some(Box::new(t))),
            },
        }
        }),
{
    reveal(y_expr);
    reveal(y_guard);
}

pub proof fn un_declared(stmts: Seq<ExprV>, i: int, acc: Seq<ItemV>)
    ensures
        declared(stmts, i, acc) == ({
        if 0 <= i < stmts.len() {
            declared(stmts, i + 1, acc + declared_by(stmts[i]))
        } else {
            acc
        }
        }),
{
    reveal(declared);
    reveal(declared_by);
}

pub proof fn un_declared_by(e: ExprV)
    ensures
        declared_by(e) == ({
        match e.kind {
            ExprKindV::FuncDef(f) => seq![ItemV::Function(f)],
            ExprKindV::Let { name, ty, value, is_mut } => seq![
                ItemV::VarDecl(VarDeclV { name, ty, value: Some(*value), is_mut, span: e.span }),
            ],
            ExprKindV::Quote(inner) => declared(inner, 0, Seq::empty()),
            ExprKindV::Block(b) => declared(b.stmts, 0, Seq::empty()),
            _ => Seq::empty(),
        }
        }),
{
    reveal(declared);
    reveal(declared_by);
}

} // verus!
