//! What macro expansion leaves alone, and what it puts in place of a call.
use vstd::prelude::*;

verus! {

use crate::ast::{BinOp, binary_expr};
use crate::expand_model::{
    Bindings, Expansion, dollar_bound, tree_scope, undefined_macro, x_quoted, x_quotes, y_arms,
    y_block, y_expr, y_exprs, y_fields, y_stmts,
};
use crate::expand_rules::{
    un_x_body, un_x_macro, un_x_named, un_x_quoted, un_x_quoted_else, un_x_quoted_if, un_x_quotes,
    un_y_arms, un_y_block, un_y_double, un_y_else, un_y_expr, un_y_exprs, un_y_fields, un_y_flow,
    un_y_guard, un_y_list, un_y_match, un_y_single, un_y_stmts,
};
use crate::host::StopV;
use crate::model::{BlockV, ExprKindV, ExprV, MatchArmV};
use crate::token::Span;

/// Code in which there is nothing to expand: no macro is called, nothing is unquoted, and no
/// statement is a block of its own.
pub open spec fn is_final(e: ExprV) -> bool
    decreases e, 1int,
{
    match e.kind {
        ExprKindV::MacroCall { name, args } => false,
        ExprKindV::Unquote(inner) => false,
        ExprKindV::UnquoteIdent(name) => false,
        ExprKindV::Block(b) => are_final_stmts(b.stmts),
        ExprKindV::Unary { op, expr } => is_final(*expr),
        ExprKindV::Field { object, field } => is_final(*object),
        ExprKindV::DotAccess { object, field } => is_final(*object),
        ExprKindV::NamedArg { name, value } => is_final(*value),
        ExprKindV::Lambda { params, return_type, body } => is_final(*body),
        ExprKindV::Let { name, ty, value, is_mut } => is_final(*value),
        ExprKindV::Return(Some(v)) => is_final(*v),
        ExprKindV::EnumCtor { path, case, arg: Some(a) } => is_final(*a),
        ExprKindV::Binary { op, left, right } => is_final(*left) && is_final(*right),
        ExprKindV::Index { object, index } => is_final(*object) && is_final(*index),
        ExprKindV::Assign { target, value } => is_final(*target) && is_final(*value),
        ExprKindV::AssignOp { target, op, value } => is_final(*target) && is_final(*value),
        ExprKindV::Call { func, args } => is_final(*func) && are_final(args),
        ExprKindV::GcNew { ty, fields } => are_final_fields(fields),
        ExprKindV::StructLit { path, fields } => are_final_fields(fields),
        ExprKindV::If { cond, then_branch, else_branch } => {
            &&& is_final(*cond)
            &&& are_final_stmts(then_branch.stmts)
            &&& else_branch matches Some(b) ==> are_final_stmts(b.stmts)
        },
        ExprKindV::While { cond, body } => is_final(*cond) && are_final_stmts(body.stmts),
        ExprKindV::For { var, iter, body } => is_final(*iter) && are_final_stmts(body.stmts),
        ExprKindV::Match { expr, arms } => is_final(*expr) && are_final_arms(arms),
        _ => true,
    }
}

/// Each of the expressions.
pub open spec fn are_final(es: Seq<ExprV>) -> bool
    decreases es, 0int,
{
    forall|i: int| 0 <= i < es.len() ==> is_final(#[trigger] es[i])
}

/// Each of the statements.
pub open spec fn are_final_stmts(es: Seq<ExprV>) -> bool
    decreases es, 0int,
{
    forall|i: int| 0 <= i < es.len() ==> is_final(#[trigger] es[i]) && es[i].kind !is Block
}

/// Each value of the fields.
pub open spec fn are_final_fields(fs: Seq<(Seq<char>, ExprV)>) -> bool
    decreases fs, 0int,
{
    forall|i: int| 0 <= i < fs.len() ==> is_final((#[trigger] fs[i]).1)
}

/// Each arm with its guard.
pub open spec fn are_final_arms(arms: Seq<MatchArmV>) -> bool
    decreases arms, 0int,
{
    forall|i: int|
        0 <= i < arms.len() ==> is_final(*(#[trigger] arms[i]).body) && (arms[i].guard matches Some(
            g,
        ) ==> is_final(*g))
}

/// Code in which there is nothing to expand is left as it is, every part in its place.
pub proof fn law_final_code_is_kept(x: Expansion, fuel: nat, e: ExprV)
    requires
        is_final(e),
    ensures
        y_expr(x, fuel, e) == Ok::<ExprV, StopV>(e),
    decreases e, 1int,
{
    un_y_expr(x, fuel, e);
    match e.kind {
        ExprKindV::Block(b) => {
            lemma_block(x, fuel, b);
        },
        ExprKindV::Unary { op, expr } => {
            un_y_single(x, fuel, e);
            law_final_code_is_kept(x, fuel, *expr);
        },
        ExprKindV::Field { object, field } => {
            un_y_single(x, fuel, e);
            law_final_code_is_kept(x, fuel, *object);
        },
        ExprKindV::DotAccess { object, field } => {
            un_y_single(x, fuel, e);
            law_final_code_is_kept(x, fuel, *object);
        },
        ExprKindV::NamedArg { name, value } => {
            un_y_single(x, fuel, e);
            law_final_code_is_kept(x, fuel, *value);
        },
        ExprKindV::Lambda { params, return_type, body } => {
            un_y_single(x, fuel, e);
            law_final_code_is_kept(x, fuel, *body);
        },
        ExprKindV::Let { name, ty, value, is_mut } => {
            un_y_single(x, fuel, e);
            law_final_code_is_kept(x, fuel, *value);
        },
        ExprKindV::Return(Some(v)) => {
            un_y_single(x, fuel, e);
            law_final_code_is_kept(x, fuel, *v);
        },
        ExprKindV::EnumCtor { path, case, arg } => {
            un_y_single(x, fuel, e);
            if let Some(a) = arg {
                law_final_code_is_kept(x, fuel, *a);
            }
        },
        ExprKindV::Binary { op, left, right } => {
            un_y_double(x, fuel, e);
            law_final_code_is_kept(x, fuel, *left);
            law_final_code_is_kept(x, fuel, *right);
        },
        ExprKindV::Index { object, index } => {
            un_y_double(x, fuel, e);
            law_final_code_is_kept(x, fuel, *object);
            law_final_code_is_kept(x, fuel, *index);
        },
        ExprKindV::Assign { target, value } => {
            un_y_double(x, fuel, e);
            law_final_code_is_kept(x, fuel, *target);
            law_final_code_is_kept(x, fuel, *value);
        },
        ExprKindV::AssignOp { target, op, value } => {
            un_y_double(x, fuel, e);
            law_final_code_is_kept(x, fuel, *target);
            law_final_code_is_kept(x, fuel, *value);
        },
        ExprKindV::Call { func, args } => {
            un_y_list(x, fuel, e);
            law_final_code_is_kept(x, fuel, *func);
            lemma_exprs(x, fuel, args, 0);
        },
        ExprKindV::GcNew { ty, fields } => {
            un_y_list(x, fuel, e);
            lemma_fields(x, fuel, fields, 0);
        },
        ExprKindV::StructLit { path, fields } => {
            un_y_list(x, fuel, e);
            lemma_fields(x, fuel, fields, 0);
        },
        ExprKindV::If { cond, then_branch, else_branch } => {
            un_y_flow(x, fuel, e);
            un_y_else(x, fuel, else_branch);
            law_final_code_is_kept(x, fuel, *cond);
            lemma_block(x, fuel, then_branch);
            if let Some(b) = else_branch {
                lemma_block(x, fuel, b);
            }
        },
        ExprKindV::While { cond, body } => {
            un_y_flow(x, fuel, e);
            law_final_code_is_kept(x, fuel, *cond);
            lemma_block(x, fuel, body);
        },
        ExprKindV::For { var, iter, body } => {
            un_y_flow(x, fuel, e);
            law_final_code_is_kept(x, fuel, *iter);
            lemma_block(x, fuel, body);
        },
        ExprKindV::Match { expr, arms } => {
            un_y_match(x, fuel, e);
            law_final_code_is_kept(x, fuel, *expr);
            lemma_arms(x, fuel, arms, 0);
        },
        _ => {},
    }
}

proof fn lemma_block(x: Expansion, fuel: nat, b: BlockV)
    requires
        are_final_stmts(b.stmts),
    ensures
        y_block(x, fuel, b) == Ok::<BlockV, StopV>(b),
    decreases b, 1int,
{
    un_y_block(x, fuel, b);
    lemma_stmts(x, fuel, b.stmts, 0);
}

proof fn lemma_exprs(x: Expansion, fuel: nat, es: Seq<ExprV>, i: int)
    requires
        0 <= i <= es.len(),
        are_final(es),
    ensures
        y_exprs(x, fuel, es, i, es.take(i)) == Ok::<Seq<ExprV>, StopV>(es),
        i == 0 ==> y_exprs(x, fuel, es, 0, Seq::empty()) == Ok::<Seq<ExprV>, StopV>(es),
    decreases es, es.len() - i,
{
    un_y_exprs(x, fuel, es, i, es.take(i));
    assert(es.take(0) =~= Seq::empty());
    if i < es.len() {
        law_final_code_is_kept(x, fuel, es[i]);
        assert(es.take(i).push(es[i]) =~= es.take(i + 1));
        lemma_exprs(x, fuel, es, i + 1);
    } else {
        assert(es.take(i) =~= es);
    }
}

proof fn lemma_stmts(x: Expansion, fuel: nat, es: Seq<ExprV>, i: int)
    requires
        0 <= i <= es.len(),
        are_final_stmts(es),
    ensures
        y_stmts(x, fuel, es, i, es.take(i)) == Ok::<Seq<ExprV>, StopV>(es),
        i == 0 ==> y_stmts(x, fuel, es, 0, Seq::empty()) == Ok::<Seq<ExprV>, StopV>(es),
    decreases es, es.len() - i,
{
    un_y_stmts(x, fuel, es, i, es.take(i));
    assert(es.take(0) =~= Seq::empty());
    if i < es.len() {
        law_final_code_is_kept(x, fuel, es[i]);
        assert(es.take(i) + seq![es[i]] =~= es.take(i + 1));
        lemma_stmts(x, fuel, es, i + 1);
    } else {
        assert(es.take(i) =~= es);
    }
}

proof fn lemma_fields(x: Expansion, fuel: nat, es: Seq<(Seq<char>, ExprV)>, i: int)
    requires
        0 <= i <= es.len(),
        are_final_fields(es),
    ensures
        y_fields(x, fuel, es, i, es.take(i)) == Ok::<Seq<(Seq<char>, ExprV)>, StopV>(es),
        i == 0 ==> y_fields(x, fuel, es, 0, Seq::empty()) == Ok::<Seq<(Seq<char>, ExprV)>, StopV>(es),
    decreases es, es.len() - i,
{
    un_y_fields(x, fuel, es, i, es.take(i));
    assert(es.take(0) =~= Seq::empty());
    if i < es.len() {
        law_final_code_is_kept(x, fuel, es[i].1);
        assert(es.take(i).push(es[i]) =~= es.take(i + 1));
        lemma_fields(x, fuel, es, i + 1);
    } else {
        assert(es.take(i) =~= es);
    }
}

proof fn lemma_arms(x: Expansion, fuel: nat, es: Seq<MatchArmV>, i: int)
    requires
        0 <= i <= es.len(),
        are_final_arms(es),
    ensures
        y_arms(x, fuel, es, i, es.take(i)) == Ok::<Seq<MatchArmV>, StopV>(es),
        i == 0 ==> y_arms(x, fuel, es, 0, Seq::empty()) == Ok::<Seq<MatchArmV>, StopV>(es),
    decreases es, es.len() - i,
{
    un_y_arms(x, fuel, es, i, es.take(i));
    assert(es.take(0) =~= Seq::empty());
    if i < es.len() {
        un_y_guard(x, fuel, es[i].guard);
        if let Some(g) = es[i].guard {
            law_final_code_is_kept(x, fuel, *g);
        }
        law_final_code_is_kept(x, fuel, *es[i].body);
        assert(es.take(i).push(es[i]) =~= es.take(i + 1));
        lemma_arms(x, fuel, es, i + 1);
    } else {
        assert(es.take(i) =~= es);
    }
}

// ---------------------------------------------------------------------- quotes

/// A quoted tree in which no name is bound behind a dollar sign and nothing is unquoted; a
/// block in it stands where its statements do.
pub open spec fn is_literal(e: ExprV, b: Bindings) -> bool
    decreases e, 1int,
{
    match e.kind {
        ExprKindV::Ident(name) => dollar_bound(name, b) is None,
        ExprKindV::MacroCall { name, args } => false,
        ExprKindV::Unquote(inner) => false,
        ExprKindV::UnquoteIdent(name) => false,
        ExprKindV::Quote(stmts) => are_literal(stmts, b),
        ExprKindV::Block(k) => k.span == e.span && are_literal(k.stmts, b),
        ExprKindV::Call { func, args } => is_literal(*func, b) && are_literal(args, b),
        ExprKindV::Binary { op, left, right } => is_literal(*left, b) && is_literal(*right, b),
        ExprKindV::Return(Some(v)) => is_literal(*v, b),
        ExprKindV::Let { name, ty, value, is_mut } => is_literal(*value, b),
        ExprKindV::If { cond, then_branch, else_branch } => {
            &&& is_literal(*cond, b)
            &&& are_literal(then_branch.stmts, b)
            &&& else_branch matches Some(k) ==> are_literal(k.stmts, b)
        },
        ExprKindV::FuncDef(f) => dollar_bound(f.name, b) is None && are_literal(f.body.stmts, b),
        _ => true,
    }
}

/// Each of the trees.
pub open spec fn are_literal(es: Seq<ExprV>, b: Bindings) -> bool
    decreases es, 0int,
{
    forall|i: int| 0 <= i < es.len() ==> is_literal(#[trigger] es[i], b)
}

/// What is quoted and holds nothing to fill in stays as it is written.
pub proof fn law_quoted_literally(x: Expansion, fuel: nat, e: ExprV, b: Bindings)
    requires
        is_literal(e, b),
    ensures
        x_quoted(x, fuel, e, b) == Ok::<ExprV, StopV>(e),
    decreases e, 1int,
{
    un_x_quoted(x, fuel, e, b);
    match e.kind {
        ExprKindV::Quote(stmts) => {
            lemma_quotes(x, fuel, stmts, 0, b);
        },
        ExprKindV::Block(k) => {
            lemma_quotes(x, fuel, k.stmts, 0, b);
        },
        ExprKindV::Call { func, args } => {
            law_quoted_literally(x, fuel, *func, b);
            lemma_quotes(x, fuel, args, 0, b);
        },
        ExprKindV::Binary { op, left, right } => {
            law_quoted_literally(x, fuel, *left, b);
            law_quoted_literally(x, fuel, *right, b);
        },
        ExprKindV::Return(Some(v)) => {
            law_quoted_literally(x, fuel, *v, b);
        },
        ExprKindV::Let { name, ty, value, is_mut } => {
            law_quoted_literally(x, fuel, *value, b);
        },
        ExprKindV::If { cond, then_branch, else_branch } => {
            un_x_quoted_if(x, fuel, e, b);
            un_x_quoted_else(x, fuel, else_branch, b);
            lemma_quotes(x, fuel, then_branch.stmts, 0, b);
            law_quoted_literally(x, fuel, *cond, b);
            if let Some(k) = else_branch {
                lemma_quotes(x, fuel, k.stmts, 0, b);
            }
        },
        ExprKindV::FuncDef(f) => {
            lemma_quotes(x, fuel, f.body.stmts, 0, b);
        },
        _ => {},
    }
}

proof fn lemma_quotes(x: Expansion, fuel: nat, es: Seq<ExprV>, i: int, b: Bindings)
    requires
        0 <= i <= es.len(),
        are_literal(es, b),
    ensures
        x_quotes(x, fuel, es, i, b, es.take(i)) == Ok::<Seq<ExprV>, StopV>(es),
        i == 0 ==> x_quotes(x, fuel, es, 0, b, Seq::empty()) == Ok::<
            Seq<ExprV>,
            StopV,
        >(es),
    decreases es, es.len() - i,
{
    un_x_quotes(x, fuel, es, i, b, es.take(i));
    assert(es.take(0) =~= Seq::empty());
    if i < es.len() {
        law_quoted_literally(x, fuel, es[i], b);
        assert(es.take(i).push(es[i]) =~= es.take(i + 1));
        lemma_quotes(x, fuel, es, i + 1, b);
    } else {
        assert(es.take(i) =~= es);
    }
}

/// What is quoted behind a dollar sign is what the name stands for, in the place where it
/// is quoted: before another operand or behind it.
pub proof fn law_unquoted_in_its_place(
    x: Expansion,
    fuel: nat,
    name: Seq<char>,
    op: BinOp,
    other: ExprV,
    at: Span,
    span: Span,
    b: Bindings,
)
    requires
        b.contains_key(name),
        is_literal(other, b),
    ensures
        ({
            let hole = ExprV { kind: ExprKindV::UnquoteIdent(name), span: at };
            &&& x_quoted(x, fuel, binary_expr(hole, op, other, span), b) == Ok::<ExprV, StopV>(
                binary_expr(b[name], op, other, span),
            )
            &&& x_quoted(x, fuel, binary_expr(other, op, hole, span), b) == Ok::<ExprV, StopV>(
                binary_expr(other, op, b[name], span),
            )
        }),
{
    let hole = ExprV { kind: ExprKindV::UnquoteIdent(name), span: at };
    un_x_quoted(x, fuel, hole, b);
    law_quoted_literally(x, fuel, other, b);
    un_x_quoted(x, fuel, binary_expr(hole, op, other, span), b);
    un_x_quoted(x, fuel, binary_expr(other, op, hole, span), b);
}

/// A call of a macro that gives back its one parameter is its argument.
pub proof fn law_parameter_is_the_argument(
    x: Expansion,
    fuel: nat,
    name: Seq<char>,
    arg: ExprV,
    span: Span,
)
    requires
        x.macros.contains_key(name),
        x.macros[name].params.len() == 1,
        x.macros[name].body.kind == ExprKindV::UnquoteIdent(x.macros[name].params[0]),
        is_final(arg),
        fuel > 0,
    ensures
        y_expr(
            x,
            fuel,
            ExprV { kind: ExprKindV::MacroCall { name, args: seq![arg] }, span },
        ) == Ok::<ExprV, StopV>(arg),
{
    let e = ExprV { kind: ExprKindV::MacroCall { name, args: seq![arg] }, span };
    let args = seq![arg];
    let m = x.macros[name];
    un_y_expr(x, fuel, e);
    assert(are_final(args));
    lemma_exprs(x, fuel, args, 0);
    un_x_named(x, fuel, name, undefined_macro(), args, span);
    un_x_macro(x, fuel, m, args, span);
    let b = tree_scope(m.params, args, 0, Map::empty());
    let first = Map::<Seq<char>, ExprV>::empty().insert(m.params[0], arg);
    assert(b == tree_scope(m.params, args, 1, first));
    assert(b == first);
    un_x_body(x, (fuel - 1) as nat, *m.body, b);
}

} // verus!
