//! What lowering leaves alone: code that makes no use of a generic item.
use vstd::prelude::*;

verus! {

use crate::maps::lookup;
use crate::model::{BlockV, ExprKindV, ExprV, MatchArmV, TypeV};
use crate::mono_model::{
    MonoV, Subst, bind_all, l_args, l_arm, l_arms, l_block, l_expr, l_guard, l_pat, l_stmts,
};
use crate::mono_rules::{
    un_l_args, un_l_arm, un_l_arms, un_l_block, un_l_call, un_l_callee, un_l_double, un_l_expr,
    un_l_guard, un_l_if, un_l_let, un_l_loop, un_l_match, un_l_pat, un_l_single, un_l_stmts,
};

/// A function that the tables do not hold.
pub open spec fn is_foreign(st: MonoV, name: Seq<char>) -> bool {
    name == "print"@ || name == "println"@ || name == "print_int"@ || name == "std::to_string"@
        || lookup(st.functions, name) is None
}

/// Code that names no type and builds no struct and no case, and that calls only functions
/// that the tables do not hold.
pub open spec fn is_ground(st: MonoV, e: ExprV) -> bool
    decreases e, 1int,
{
    match e.kind {
        ExprKindV::StructLit { path, fields } => false,
        ExprKindV::GcNew { ty, fields } => false,
        ExprKindV::EnumCtor { path, case, arg } => false,
        ExprKindV::Block(b) => are_ground(st, b.stmts),
        ExprKindV::Let { name, ty, value, is_mut } => ty is None && is_ground(st, *value),
        ExprKindV::Return(Some(v)) => is_ground(st, *v),
        ExprKindV::Unary { op, expr } => is_ground(st, *expr),
        ExprKindV::Field { object, field } => is_ground(st, *object),
        ExprKindV::DotAccess { object, field } => is_ground(st, *object),
        ExprKindV::NamedArg { name, value } => is_ground(st, *value),
        ExprKindV::Binary { op, left, right } => is_ground(st, *left) && is_ground(st, *right),
        ExprKindV::Index { object, index } => is_ground(st, *object) && is_ground(st, *index),
        ExprKindV::Assign { target, value } => is_ground(st, *target) && is_ground(st, *value),
        ExprKindV::AssignOp { target, op, value } => is_ground(st, *target) && is_ground(st, *value),
        ExprKindV::Call { func, args } => {
            &&& func.kind matches ExprKindV::Ident(name) && is_foreign(st, name)
            &&& are_ground(st, args)
        },
        ExprKindV::If { cond, then_branch, else_branch } => {
            &&& is_ground(st, *cond)
            &&& are_ground(st, then_branch.stmts)
            &&& else_branch matches Some(b) ==> are_ground(st, b.stmts)
        },
        ExprKindV::While { cond, body } => is_ground(st, *cond) && are_ground(st, body.stmts),
        ExprKindV::For { var, iter, body } => is_ground(st, *iter) && are_ground(st, body.stmts),
        ExprKindV::Match { expr, arms } => is_ground(st, *expr) && are_ground_arms(st, arms),
        _ => true,
    }
}

/// Each of the expressions.
pub open spec fn are_ground(st: MonoV, es: Seq<ExprV>) -> bool
    decreases es, 0int,
{
    forall|i: int| 0 <= i < es.len() ==> is_ground(st, #[trigger] es[i])
}

/// Each arm with its guard; the patterns are names, literals and wildcards.
pub open spec fn are_ground_arms(st: MonoV, arms: Seq<MatchArmV>) -> bool
    decreases arms, 0int,
{
    forall|i: int|
        0 <= i < arms.len() ==> is_ground(st, *(#[trigger] arms[i]).body) && (
        arms[i].pattern.kind is Wildcard || arms[i].pattern.kind is Literal
            || arms[i].pattern.kind is Variable) && (arms[i].guard matches Some(g) ==> is_ground(
            st,
            *g,
        ))
}

/// Code that makes no use of a generic item is lowered to itself, every part in its place,
/// and asks for no instance.
pub proof fn law_ground_code_is_kept(
    st: MonoV,
    e: ExprV,
    env: Subst,
    sub: Subst,
    exp: Option<TypeV>,
)
    requires
        is_ground(st, e),
    ensures
        l_expr(st, e, env, sub, exp).0 matches Ok(p) && p.0 == e,
        l_expr(st, e, env, sub, exp).1 == st,
    decreases e, 1int,
{
    un_l_expr(st, e, env, sub, exp);
    match e.kind {
        ExprKindV::Block(b) => {
            lemma_block(st, b, env, sub, exp);
        },
        ExprKindV::Let { name, ty, value, is_mut } => {
            un_l_let(st, e, env, sub);
            law_ground_code_is_kept(st, *value, env, sub, None);
        },
        ExprKindV::Return(Some(v)) => {
            un_l_single(st, e, env, sub);
            law_ground_code_is_kept(st, *v, env, sub, st.cur_ret);
        },
        ExprKindV::Unary { op, expr } => {
            un_l_single(st, e, env, sub);
            law_ground_code_is_kept(st, *expr, env, sub, None);
        },
        ExprKindV::Field { object, field } => {
            un_l_single(st, e, env, sub);
            law_ground_code_is_kept(st, *object, env, sub, None);
        },
        ExprKindV::DotAccess { object, field } => {
            un_l_single(st, e, env, sub);
            law_ground_code_is_kept(st, *object, env, sub, None);
        },
        ExprKindV::NamedArg { name, value } => {
            un_l_single(st, e, env, sub);
            law_ground_code_is_kept(st, *value, env, sub, None);
        },
        ExprKindV::Binary { op, left, right } => {
            un_l_double(st, e, env, sub);
            law_ground_code_is_kept(st, *left, env, sub, None);
            let (r, st1, env1) = l_expr(st, *left, env, sub, None);
            law_ground_code_is_kept(st, *right, env1, sub, None);
        },
        ExprKindV::Index { object, index } => {
            un_l_double(st, e, env, sub);
            law_ground_code_is_kept(st, *object, env, sub, None);
            let (r, st1, env1) = l_expr(st, *object, env, sub, None);
            law_ground_code_is_kept(st, *index, env1, sub, None);
        },
        ExprKindV::Assign { target, value } => {
            un_l_double(st, e, env, sub);
            law_ground_code_is_kept(st, *target, env, sub, None);
            let (r, st1, env1) = l_expr(st, *target, env, sub, None);
            law_ground_code_is_kept(st, *value, env1, sub, Some(r->Ok_0.1));
        },
        ExprKindV::AssignOp { target, op, value } => {
            un_l_double(st, e, env, sub);
            law_ground_code_is_kept(st, *target, env, sub, None);
            let (r, st1, env1) = l_expr(st, *target, env, sub, None);
            law_ground_code_is_kept(st, *value, env1, sub, None);
        },
        ExprKindV::Call { func, args } => {
            un_l_call(st, e, env, sub);
            un_l_callee(st, *func, e.span, env, sub);
            lemma_args(st, args, 0, env, sub, Seq::empty());
        },
        ExprKindV::If { cond, then_branch, else_branch } => {
            un_l_if(st, e, env, sub, exp);
            law_ground_code_is_kept(st, *cond, env, sub, None);
            let env1 = l_expr(st, *cond, env, sub, None).2;
            lemma_block(st, then_branch, env1, sub, exp);
            if let Some(b) = else_branch {
                lemma_block(st, b, env1, sub, exp);
            }
        },
        ExprKindV::While { cond, body } => {
            un_l_loop(st, e, env, sub);
            law_ground_code_is_kept(st, *cond, env, sub, None);
            lemma_block(st, body, l_expr(st, *cond, env, sub, None).2, sub, None);
        },
        ExprKindV::For { var, iter, body } => {
            un_l_loop(st, e, env, sub);
            law_ground_code_is_kept(st, *iter, env, sub, None);
            let env1 = l_expr(st, *iter, env, sub, None).2;
            lemma_block(st, body, env1.insert(var, TypeV::Unit), sub, None);
        },
        ExprKindV::Match { expr, arms } => {
            un_l_match(st, e, env, sub, exp);
            law_ground_code_is_kept(st, *expr, env, sub, None);
            let (r, st1, env1) = l_expr(st, *expr, env, sub, None);
            lemma_arms(st, arms, 0, r->Ok_0.1, env1, sub, exp, TypeV::Never);
        },
        _ => {},
    }
}

proof fn lemma_block(st: MonoV, b: BlockV, env: Subst, sub: Subst, exp: Option<TypeV>)
    requires
        are_ground(st, b.stmts),
    ensures
        l_block(st, b, env, sub, exp).0 matches Ok(p) && p.0 == b,
        l_block(st, b, env, sub, exp).1 == st,
    decreases b, 1int,
{
    un_l_block(st, b, env, sub, exp);
    lemma_stmts(st, b.stmts, 0, env, sub, exp, TypeV::Unit);
    assert(b.stmts.take(0) =~= Seq::empty());
}

proof fn lemma_stmts(
    st: MonoV,
    es: Seq<ExprV>,
    i: int,
    env: Subst,
    sub: Subst,
    exp: Option<TypeV>,
    last: TypeV,
)
    requires
        0 <= i <= es.len(),
        are_ground(st, es),
    ensures
        l_stmts(st, es, i, env, sub, exp, es.take(i), last).0 matches Ok(p) && p.0 == es,
        l_stmts(st, es, i, env, sub, exp, es.take(i), last).1 == st,
    decreases es, es.len() - i,
{
    un_l_stmts(st, es, i, env, sub, exp, es.take(i), last);
    if i < es.len() {
        let want = if i == es.len() - 1 {
            exp
        } else {
            None
        };
        law_ground_code_is_kept(st, es[i], env, sub, want);
        let (r, st1, env1) = l_expr(st, es[i], env, sub, want);
        assert(es.take(i).push(es[i]) =~= es.take(i + 1));
        lemma_stmts(st, es, i + 1, env1, sub, exp, r->Ok_0.1);
    } else {
        assert(es.take(i) =~= es);
    }
}

proof fn lemma_args(
    st: MonoV,
    es: Seq<ExprV>,
    i: int,
    env: Subst,
    sub: Subst,
    ts: Seq<TypeV>,
)
    requires
        0 <= i <= es.len(),
        are_ground(st, es),
    ensures
        l_args(st, es, i, env, sub, es.take(i), ts).0 matches Ok(p) && p.0 == es,
        l_args(st, es, i, env, sub, es.take(i), ts).1 == st,
        i == 0 ==> l_args(st, es, i, env, sub, es.take(i), ts) == l_args(
            st,
            es,
            0,
            env,
            sub,
            Seq::empty(),
            ts,
        ),
    decreases es, es.len() - i,
{
    un_l_args(st, es, i, env, sub, es.take(i), ts);
    assert(es.take(0) =~= Seq::empty());
    if i < es.len() {
        law_ground_code_is_kept(st, es[i], env, sub, None);
        let (r, st1, env1) = l_expr(st, es[i], env, sub, None);
        assert(es.take(i).push(es[i]) =~= es.take(i + 1));
        lemma_args(st, es, i + 1, env1, sub, ts.push(r->Ok_0.1));
    } else {
        assert(es.take(i) =~= es);
    }
}

proof fn lemma_arms(
    st: MonoV,
    arms: Seq<MatchArmV>,
    i: int,
    subject: TypeV,
    env: Subst,
    sub: Subst,
    exp: Option<TypeV>,
    t: TypeV,
)
    requires
        0 <= i <= arms.len(),
        are_ground_arms(st, arms),
    ensures
        l_arms(st, arms, i, subject, env, sub, exp, arms.take(i), t).0 matches Ok(p) && p.0 == arms,
        l_arms(st, arms, i, subject, env, sub, exp, arms.take(i), t).1 == st,
        i == 0 ==> l_arms(st, arms, i, subject, env, sub, exp, arms.take(i), t) == l_arms(
            st,
            arms,
            0,
            subject,
            env,
            sub,
            exp,
            Seq::empty(),
            t,
        ),
    decreases arms, arms.len() - i,
{
    un_l_arms(st, arms, i, subject, env, sub, exp, arms.take(i), t);
    assert(arms.take(0) =~= Seq::empty());
    if i < arms.len() {
        let arm = arms[i];
        un_l_arm(st, arm, subject, env, sub, exp);
        un_l_pat(st, arm.pattern, subject);
        let bs = l_pat(st, arm.pattern, subject).0->Ok_0.1;
        let env1 = bind_all(env, bs, 0);
        un_l_guard(st, arm.guard, env1, sub);
        if let Some(g) = arm.guard {
            law_ground_code_is_kept(st, *g, env1, sub, None);
        }
        let env2 = l_guard(st, arm.guard, env1, sub).2;
        law_ground_code_is_kept(st, *arm.body, env2, sub, exp);
        let (r, st1) = l_arm(st, arm, subject, env, sub, exp);
        assert(r->Ok_0.0 == arm);
        assert(arms.take(i).push(arm) =~= arms.take(i + 1));
        let more = if t is Never {
            r->Ok_0.1
        } else {
            t
        };
        lemma_arms(st, arms, i + 1, subject, env, sub, exp, more);
    } else {
        assert(arms.take(i) =~= arms);
    }
}

} // verus!
