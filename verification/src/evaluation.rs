//! What running a program means: how its parts act on the variables and on what is printed.
use vstd::prelude::*;

verus! {

use crate::ast::{BinOp, cpp_op_text};
use crate::host::{HostV, StopV};
use crate::interp_model::{
    Ctx, Vars, b_build, b_declare, b_inspect, b_list_push, bound, builtin, call_scope, chosen,
    e_args, e_arms, e_body, e_call, e_expr, e_fields, e_guard, e_rounds, e_stmts, e_user, e_while,
    field_result, index_result, loop_values, pattern_match, printed, same_value,
};
use crate::interp_rules::{
    un_e_apply, un_e_args, un_e_arms, un_e_body, un_e_call, un_e_ctor, un_e_double, un_e_expr,
    un_e_fields, un_e_for, un_e_guard, un_e_if, un_e_match, un_e_record, un_e_rounds, un_e_single,
    un_e_stmts, un_e_store, un_e_user, un_e_while,
};
use crate::maps::lookup;
use crate::model::{
    BlockV, ExprKindV, ExprV, FunctionV, LiteralPatV, MatchArmV, ParamV, PatternKindV, PatternV,
};
use crate::operators::{
    gave_number, has_type, law_results_have_their_types, law_sums_and_products, lemma_signs,
};
use crate::text::int_text;
use crate::token::Span;
use crate::typeck::{Env, Known, Res, c_expr};
use crate::typeck_rules::un_c_expr;
use crate::value::{ValueV, law_set_field_is_read, set_field};

// ----------------------------------------------------------------------- variables

/// The name as an expression.
pub open spec fn names(e: ExprV, name: Seq<char>) -> bool {
    e.kind == ExprKindV::Ident(name)
}

/// `x += v` and `x -= v` leave in `x`, and give, the value of `x + v` or `x - v`, which is
/// the sum or the difference of the integers; no other variable changes.
pub proof fn law_compound_assignment(
    c: Ctx,
    fuel: nat,
    target: ExprV,
    name: Seq<char>,
    op: BinOp,
    value: ExprV,
    span: Span,
    env: Vars,
    out: Seq<char>,
    a: i64,
    b: i64,
)
    requires
        names(target, name),
        lookup(env, name) == Some(ValueV::Int(a)),
        e_expr(c, fuel, value, env, out).0 == Ok::<ValueV, StopV>(ValueV::Int(b)),
        cpp_op_text(op) == "+"@ || cpp_op_text(op) == "-"@,
    ensures
        ({
            let (v, env1, out1) = e_expr(c, fuel, value, env, out);
            let assign = ExprV {
                kind: ExprKindV::AssignOp { target: Box::new(target), op, value: Box::new(value) },
                span,
            };
            let binary = ExprV {
                kind: ExprKindV::Binary { op, left: Box::new(target), right: Box::new(value) },
                span,
            };
            let (r, env2, out2) = e_expr(c, fuel, assign, env, out);
            &&& r == e_expr(c, fuel, binary, env, out).0
            &&& gave_number(
                r,
                if cpp_op_text(op) == "+"@ {
                    a + b
                } else {
                    a - b
                },
            )
            &&& lookup(env2, name) == Some(r->Ok_0)
            &&& forall|other: Seq<char>|
                other != name ==> #[trigger] lookup(env2, other) == lookup(env1, other)
            &&& out2 == out1
        }),
{
    let assign = ExprV {
        kind: ExprKindV::AssignOp { target: Box::new(target), op, value: Box::new(value) },
        span,
    };
    let binary = ExprV {
        kind: ExprKindV::Binary { op, left: Box::new(target), right: Box::new(value) },
        span,
    };
    un_e_expr(c, fuel, assign, env, out);
    un_e_store(c, fuel, assign, env, out);
    un_e_expr(c, fuel, binary, env, out);
    un_e_double(c, fuel, binary, env, out);
    un_e_expr(c, fuel, target, env, out);
    law_sums_and_products(c.host, op, a, b, span);
    lemma_signs(op);
    reveal_strlit("+");
    reveal_strlit("-");
    assert("+"@[0] != "-"@[0]);
}

/// A variable that a value is assigned to, or that is declared with it, has the value, and
/// no other variable changes.
pub proof fn law_assigned_value_is_read(
    c: Ctx,
    fuel: nat,
    e: ExprV,
    name: Seq<char>,
    value: ExprV,
    env: Vars,
    out: Seq<char>,
)
    requires
        match e.kind {
            ExprKindV::Let { name: n, value: v, .. } => n == name && *v == value,
            ExprKindV::Assign { target, value: v } => names(*target, name) && *v == value,
            _ => false,
        },
        e_expr(c, fuel, value, env, out).0 is Ok,
    ensures
        ({
            let (r, env1, out1) = e_expr(c, fuel, value, env, out);
            let (r2, env2, out2) = e_expr(c, fuel, e, env, out);
            &&& r2 == r
            &&& out2 == out1
            &&& lookup(env2, name) == Some(r->Ok_0)
            &&& forall|other: Seq<char>|
                other != name ==> #[trigger] lookup(env2, other) == lookup(env1, other)
        }),
{
    un_e_expr(c, fuel, e, env, out);
    un_e_store(c, fuel, e, env, out);
}

/// Reading a variable gives the value that it has and changes nothing.
pub proof fn law_variable_is_read(c: Ctx, fuel: nat, e: ExprV, name: Seq<char>, env: Vars, out: Seq<char>)
    requires
        names(e, name),
    ensures
        match lookup(env, name) {
            Some(v) => e_expr(c, fuel, e, env, out) == (Ok::<ValueV, StopV>(v), env, out),
            None => e_expr(c, fuel, e, env, out).0 is Err,
        },
{
    un_e_expr(c, fuel, e, env, out);
}

// -------------------------------------------------------------------------- control

/// Statements run one after the other: those of two lists in a row do what the second does
/// after the first.
pub proof fn law_statements_in_order(
    c: Ctx,
    fuel: nat,
    a: Seq<ExprV>,
    b: Seq<ExprV>,
    env: Vars,
    out: Seq<char>,
    last: ValueV,
)
    ensures
        ({
            let (r, env1, out1) = e_stmts(c, fuel, a, 0, env, out, last);
            e_stmts(c, fuel, a + b, 0, env, out, last) == match r {
                Err(s) => (Err::<ValueV, StopV>(s), env1, out1),
                Ok(v) => e_stmts(c, fuel, b, 0, env1, out1, v),
            }
        }),
{
    lemma_first_part(c, fuel, a, b, 0, env, out, last);
}

proof fn lemma_first_part(
    c: Ctx,
    fuel: nat,
    a: Seq<ExprV>,
    b: Seq<ExprV>,
    i: int,
    env: Vars,
    out: Seq<char>,
    last: ValueV,
)
    requires
        0 <= i <= a.len(),
    ensures
        ({
            let (r, env1, out1) = e_stmts(c, fuel, a, i, env, out, last);
            e_stmts(c, fuel, a + b, i, env, out, last) == match r {
                Err(s) => (Err::<ValueV, StopV>(s), env1, out1),
                Ok(v) => e_stmts(c, fuel, b, 0, env1, out1, v),
            }
        }),
    decreases a.len() - i,
{
    un_e_stmts(c, fuel, a, i, env, out, last);
    if i < a.len() {
        un_e_stmts(c, fuel, a + b, i, env, out, last);
        assert((a + b)[i] == a[i]);
        let (r, env1, out1) = e_expr(c, fuel, a[i], env, out);
        if r is Ok {
            lemma_first_part(c, fuel, a, b, i + 1, env1, out1, r->Ok_0);
        }
    } else {
        lemma_second_part(c, fuel, a, b, 0, env, out, last);
    }
}

proof fn lemma_second_part(
    c: Ctx,
    fuel: nat,
    a: Seq<ExprV>,
    b: Seq<ExprV>,
    i: int,
    env: Vars,
    out: Seq<char>,
    last: ValueV,
)
    requires
        0 <= i <= b.len(),
    ensures
        e_stmts(c, fuel, a + b, a.len() + i, env, out, last) == e_stmts(
            c,
            fuel,
            b,
            i,
            env,
            out,
            last,
        ),
    decreases b.len() - i,
{
    un_e_stmts(c, fuel, b, i, env, out, last);
    un_e_stmts(c, fuel, a + b, a.len() + i, env, out, last);
    if i < b.len() {
        assert((a + b)[a.len() + i] == b[i]);
        let (r, env1, out1) = e_expr(c, fuel, b[i], env, out);
        if r is Ok {
            lemma_second_part(c, fuel, a, b, i + 1, env1, out1, r->Ok_0);
        }
    }
}

/// A statement alone does what the expression does, and a block what its statements do.
pub proof fn law_one_statement(c: Ctx, fuel: nat, e: ExprV, span: Span, env: Vars, out: Seq<char>)
    ensures
        ({
            let block = ExprV {
                kind: ExprKindV::Block(BlockV { stmts: seq![e], span }),
                span,
            };
            e_expr(c, fuel, block, env, out) == e_expr(c, fuel, e, env, out)
        }),
{
    let stmts = seq![e];
    let block = ExprV { kind: ExprKindV::Block(BlockV { stmts, span }), span };
    un_e_expr(c, fuel, block, env, out);
    un_e_stmts(c, fuel, stmts, 0, env, out, ValueV::Nil);
    let (r, env1, out1) = e_expr(c, fuel, e, env, out);
    assert(stmts[0] == e);
    if r is Ok {
        un_e_stmts(c, fuel, stmts, 1, env1, out1, r->Ok_0);
    }
}

/// A conditional does what the branch does that its condition picks: the first where it
/// holds, else the second, and nothing where that is left out.
pub proof fn law_conditional(
    c: Ctx,
    fuel: nat,
    cond: ExprV,
    yes: BlockV,
    no: Option<BlockV>,
    span: Span,
    env: Vars,
    out: Seq<char>,
    b: bool,
)
    requires
        e_expr(c, fuel, cond, env, out).0 == Ok::<ValueV, StopV>(ValueV::Bool(b)),
    ensures
        ({
            let e = ExprV {
                kind: ExprKindV::If {
                    cond: Box::new(cond),
                    then_branch: yes,
                    else_branch: no,
                },
                span,
            };
            let (r, env1, out1) = e_expr(c, fuel, cond, env, out);
            let picked = if b {
                Some(yes)
            } else {
                no
            };
            e_expr(c, fuel, e, env, out) == match picked {
                Some(block) => e_expr(
                    c,
                    fuel,
                    ExprV { kind: ExprKindV::Block(block), span },
                    env1,
                    out1,
                ),
                None => (Ok::<ValueV, StopV>(ValueV::Nil), env1, out1),
            }
        }),
{
    let e = ExprV {
        kind: ExprKindV::If { cond: Box::new(cond), then_branch: yes, else_branch: no },
        span,
    };
    un_e_expr(c, fuel, e, env, out);
    un_e_if(c, fuel, e, env, out);
    let (r, env1, out1) = e_expr(c, fuel, cond, env, out);
    un_e_expr(c, fuel, ExprV { kind: ExprKindV::Block(yes), span }, env1, out1);
    if let Some(block) = no {
        un_e_expr(c, fuel, ExprV { kind: ExprKindV::Block(block), span }, env1, out1);
    }
}

/// A value is no condition unless it is a truth.
pub proof fn law_conditions_are_truths(c: Ctx, fuel: nat, e: ExprV, cond: ExprV, env: Vars, out: Seq<char>)
    requires
        match e.kind {
            ExprKindV::If { cond: x, .. } => *x == cond,
            ExprKindV::While { cond: x, .. } => *x == cond,
            _ => false,
        },
        e_expr(c, fuel, cond, env, out).0 matches Ok(v) ==> !(v is Bool),
    ensures
        e_expr(c, fuel, e, env, out).0 is Err,
{
    un_e_expr(c, fuel, e, env, out);
    un_e_if(c, fuel, e, env, out);
    un_e_while(c, fuel, e, env, out, ValueV::Nil);
}

/// A loop whose condition does not hold changes nothing but what the condition does. One
/// whose condition holds runs its body and is then run again, as long as there is fuel.
pub proof fn law_loop_unrolls(
    c: Ctx,
    fuel: nat,
    cond: ExprV,
    body: BlockV,
    span: Span,
    env: Vars,
    out: Seq<char>,
    b: bool,
)
    requires
        fuel > 0,
        e_expr(c, fuel, cond, env, out).0 == Ok::<ValueV, StopV>(ValueV::Bool(b)),
    ensures
        ({
            let e = ExprV {
                kind: ExprKindV::While { cond: Box::new(cond), body },
                span,
            };
            let block = ExprV { kind: ExprKindV::Block(body), span };
            let (_, env1, out1) = e_expr(c, fuel, cond, env, out);
            let (r2, env2, out2) = e_expr(c, fuel, block, env1, out1);
            let (_, env3, out3) = e_expr(c, (fuel - 1) as nat, e, env2, out2);
            let whole = e_expr(c, fuel, e, env, out);
            if !b {
                whole == (Ok::<ValueV, StopV>(ValueV::Nil), env1, out1)
            } else if r2 is Err {
                whole == (r2, env2, out2)
            } else {
                whole.1 == env3 && whole.2 == out3 && whole.0 is Err == e_expr(
                    c,
                    (fuel - 1) as nat,
                    e,
                    env2,
                    out2,
                ).0 is Err
            }
        }),
{
    let e = ExprV { kind: ExprKindV::While { cond: Box::new(cond), body }, span };
    let block = ExprV { kind: ExprKindV::Block(body), span };
    un_e_expr(c, fuel, e, env, out);
    un_e_while(c, fuel, e, env, out, ValueV::Nil);
    let (_, env1, out1) = e_expr(c, fuel, cond, env, out);
    un_e_expr(c, fuel, block, env1, out1);
    let (r2, env2, out2) = e_expr(c, fuel, block, env1, out1);
    if b && r2 is Ok {
        un_e_expr(c, (fuel - 1) as nat, e, env2, out2);
        lemma_last_value(c, (fuel - 1) as nat, e, env2, out2, r2->Ok_0, ValueV::Nil);
    }
}

/// The value before a loop decides only the value of one that does not run.
proof fn lemma_last_value(
    c: Ctx,
    fuel: nat,
    e: ExprV,
    env: Vars,
    out: Seq<char>,
    a: ValueV,
    b: ValueV,
)
    requires
        e.kind is While,
    ensures
        e_while(c, fuel, e, env, out, a).1 == e_while(c, fuel, e, env, out, b).1,
        e_while(c, fuel, e, env, out, a).2 == e_while(c, fuel, e, env, out, b).2,
        e_while(c, fuel, e, env, out, a).0 is Err == e_while(c, fuel, e, env, out, b).0 is Err,
    decreases fuel,
{
    un_e_while(c, fuel, e, env, out, a);
    un_e_while(c, fuel, e, env, out, b);
    if let ExprKindV::While { cond, body } = e.kind {
        let (r, env1, out1) = e_expr(c, fuel, *cond, env, out);
        lemma_value_before(c, fuel, body.stmts, env1, out1, a, b);
        let (r2, env2, out2) = e_stmts(c, fuel, body.stmts, 0, env1, out1, a);
        let (r3, env3, out3) = e_stmts(c, fuel, body.stmts, 0, env1, out1, b);
        if fuel > 0 && r2 is Ok {
            lemma_last_value(c, (fuel - 1) as nat, e, env2, out2, r2->Ok_0, r3->Ok_0);
        }
    }
}

proof fn lemma_value_before(
    c: Ctx,
    fuel: nat,
    stmts: Seq<ExprV>,
    env: Vars,
    out: Seq<char>,
    a: ValueV,
    b: ValueV,
)
    ensures
        ({
            let x = e_stmts(c, fuel, stmts, 0, env, out, a);
            let y = e_stmts(c, fuel, stmts, 0, env, out, b);
            x.1 == y.1 && x.2 == y.2 && x.0 is Err == y.0 is Err && (x.0 is Err ==> x == y)
        }),
{
    un_e_stmts(c, fuel, stmts, 0, env, out, a);
    un_e_stmts(c, fuel, stmts, 0, env, out, b);
}

// -------------------------------------------------------------------------- formulas

/// A tree of literals, names and binary operators.
pub open spec fn is_formula(e: ExprV) -> bool
    decreases e,
{
    match e.kind {
        ExprKindV::IntLiteral(_) | ExprKindV::FloatLiteral(_) | ExprKindV::StringLiteral(_)
        | ExprKindV::BoolLiteral(_) | ExprKindV::Ident(_) => true,
        ExprKindV::Binary { op, left, right } => is_formula(*left) && is_formula(*right),
        _ => false,
    }
}

/// Every variable has a value of its type.
pub open spec fn is_typed(vars: Vars, env: Env) -> bool {
    forall|name: Seq<char>| #[trigger]
        vars.contains_key(name) ==> env.contains_key(name) && has_type(vars[name], env[name])
}

/// What is checked runs as checked: where a formula has a type and a value, the value is of
/// the type. Neither changes anything.
pub proof fn law_checked_formulas_keep_their_types(
    k: Known,
    c: Ctx,
    fuel: nat,
    e: ExprV,
    env: Env,
    res: Res,
    vars: Vars,
    out: Seq<char>,
)
    requires
        is_formula(e),
        is_typed(vars, env),
    ensures
        ({
            let (r, vars1, out1) = e_expr(c, fuel, e, vars, out);
            &&& vars1 == vars && out1 == out
            &&& c_expr(k, e, env, res) matches Ok((t, env1, res1)) ==> env1 == env && res1 == res
                && (r matches Ok(v) ==> has_type(v, t))
        }),
    decreases e,
{
    un_e_expr(c, fuel, e, vars, out);
    un_c_expr(k, e, env, res);
    match e.kind {
        ExprKindV::Binary { op, left, right } => {
            law_checked_formulas_keep_their_types(k, c, fuel, *left, env, res, vars, out);
            law_checked_formulas_keep_their_types(k, c, fuel, *right, env, res, vars, out);
            un_e_double(c, fuel, e, vars, out);
            let (l, _, _) = e_expr(c, fuel, *left, vars, out);
            let (r, _, _) = e_expr(c, fuel, *right, vars, out);
            if l is Ok && r is Ok {
                if let Ok((lt, _, _)) = c_expr(k, *left, env, res) {
                    if let Ok((rt, _, _)) = c_expr(k, *right, env, res) {
                        law_results_have_their_types(
                            c.host,
                            op,
                            l->Ok_0,
                            lt,
                            left.span,
                            r->Ok_0,
                            rt,
                            right.span,
                            e.span,
                        );
                    }
                }
            }
        },
        ExprKindV::Ident(name) => {
            if vars.contains_key(name) {
                assert(env.contains_key(name));
            }
        },
        _ => {},
    }
}

// -------------------------------------------------------------------------- patterns

/// The pattern that a simple value matches.
pub open spec fn is_pattern_of(p: PatternV, v: ValueV) -> bool
    decreases v,
{
    match v {
        ValueV::Int(n) => p.kind == PatternKindV::Literal(LiteralPatV::Int(n)),
        ValueV::Bool(b) => p.kind == PatternKindV::Literal(LiteralPatV::Bool(b)),
        ValueV::String(s) => p.kind == PatternKindV::Literal(LiteralPatV::String(s)),
        ValueV::Nil => p.kind == PatternKindV::Literal(LiteralPatV::Nil),
        ValueV::Enum(c, payload) => match p.kind {
            PatternKindV::EnumCtor { path, case, inner } => case == c && match (inner, payload) {
                (None, None) => true,
                (Some(q), Some(x)) => is_pattern_of(*q, *x),
                _ => false,
            },
            _ => false,
        },
        _ => false,
    }
}

/// The pattern of a value matches exactly the values that are equal to it, and binds
/// nothing.
pub proof fn law_pattern_matches_its_value(h: HostV, p: PatternV, v: ValueV, w: ValueV)
    requires
        is_pattern_of(p, v),
    ensures
        pattern_match(w, p) matches Ok(m) && match m {
            Some(bs) => bs.len() == 0 && same_value(h, v, w) == Ok::<bool, StopV>(true),
            None => same_value(h, v, w) == Ok::<bool, StopV>(false),
        },
    decreases v,
{
    match (v, w) {
        (ValueV::Enum(c, Some(x)), ValueV::Enum(d, Some(y))) => {
            if let PatternKindV::EnumCtor { path, case, inner: Some(q) } = p.kind {
                law_pattern_matches_its_value(h, *q, *x, *y);
            }
        },
        _ => {},
    }
}

/// A variable matches every value and is bound to it; the wildcard matches and binds nothing.
pub proof fn law_patterns_bind(v: ValueV, p: PatternV, name: Seq<char>)
    ensures
        (p.kind matches PatternKindV::Variable { name: n, .. } && n == name) ==> pattern_match(v, p)
            == Ok::<Option<Seq<(Seq<char>, ValueV)>>, StopV>(Some(seq![(name, v)])),
        p.kind is Wildcard ==> pattern_match(v, p) == Ok::<
            Option<Seq<(Seq<char>, ValueV)>>,
            StopV,
        >(Some(Seq::empty())),
{
}

/// The pattern of a case fits values of that case whose payload fits what stands in it, and
/// binds what that binds.
pub proof fn law_case_patterns(v: ValueV, p: PatternV)
    ensures
        match (p.kind, v) {
            (
                PatternKindV::EnumCtor { path, case, inner: Some(q) },
                ValueV::Enum(c, Some(x)),
            ) => pattern_match(v, p) == (if c == case {
                pattern_match(*x, *q)
            } else {
                Ok(None)
            }),
            (PatternKindV::EnumCtor { path, case, inner }, ValueV::Enum(c, payload)) => {
                pattern_match(v, p) is Ok && (pattern_match(v, p)->Ok_0 is Some <==> c == case
                    && inner is None && payload is None)
            },
            _ => true,
        },
{
}

/// A match takes the first arm that fits. One whose pattern does not fit is passed over; one
/// without a guard whose pattern fits gives its value, with what the pattern binds.
pub proof fn law_first_arm_that_fits(
    c: Ctx,
    fuel: nat,
    subject: ExprV,
    arms: Seq<MatchArmV>,
    span: Span,
    env: Vars,
    out: Seq<char>,
    v: ValueV,
)
    requires
        arms.len() > 0,
        e_expr(c, fuel, subject, env, out).0 == Ok::<ValueV, StopV>(v),
    ensures
        ({
            let whole = ExprV {
                kind: ExprKindV::Match { expr: Box::new(subject), arms },
                span,
            };
            let rest = ExprV {
                kind: ExprKindV::Match { expr: Box::new(subject), arms: arms.drop_first() },
                span,
            };
            let (_, env1, out1) = e_expr(c, fuel, subject, env, out);
            let first = arms[0];
            &&& pattern_match(v, first.pattern) matches Ok(None) ==> e_expr(
                c,
                fuel,
                whole,
                env,
                out,
            ) == e_expr(c, fuel, rest, env, out)
            &&& (pattern_match(v, first.pattern) matches Ok(Some(bs)) && first.guard is None) ==> {
                let bs = pattern_match(v, first.pattern)->Ok_0->0;
                let (r, _, out2) = e_expr(c, fuel, *first.body, bound(env1, bs, 0), out1);
                e_expr(c, fuel, whole, env, out) == (r, env1, out2)
            }
        }),
{
    let whole = ExprV { kind: ExprKindV::Match { expr: Box::new(subject), arms }, span };
    let rest = ExprV {
        kind: ExprKindV::Match { expr: Box::new(subject), arms: arms.drop_first() },
        span,
    };
    let (_, env1, out1) = e_expr(c, fuel, subject, env, out);
    un_e_expr(c, fuel, whole, env, out);
    un_e_expr(c, fuel, rest, env, out);
    un_e_match(c, fuel, whole, env, out);
    un_e_match(c, fuel, rest, env, out);
    un_e_arms(c, fuel, arms, 0, v, env1, out1, span);
    lemma_arms_shift(c, fuel, arms, 1, v, env1, out1, span);
    if let Ok(Some(bs)) = pattern_match(v, arms[0].pattern) {
        un_e_guard(c, fuel, arms[0].guard, bound(env1, bs, 0), out1);
    }
}

proof fn lemma_arms_shift(
    c: Ctx,
    fuel: nat,
    arms: Seq<MatchArmV>,
    i: int,
    v: ValueV,
    env: Vars,
    out: Seq<char>,
    span: Span,
)
    requires
        1 <= i <= arms.len(),
    ensures
        e_arms(c, fuel, arms, i, v, env, out, span) == e_arms(
            c,
            fuel,
            arms.drop_first(),
            i - 1,
            v,
            env,
            out,
            span,
        ),
    decreases arms.len() - i,
{
    let less = arms.drop_first();
    un_e_arms(c, fuel, arms, i, v, env, out, span);
    un_e_arms(c, fuel, less, i - 1, v, env, out, span);
    if i < arms.len() {
        assert(less[i - 1] == arms[i]);
        lemma_arms_shift(c, fuel, arms, i + 1, v, env, out, span);
        if let Ok(Some(bs)) = pattern_match(v, arms[i].pattern) {
            let (g, out1) = e_guard(c, fuel, arms[i].guard, bound(env, bs, 0), out);
            lemma_arms_shift(c, fuel, arms, i + 1, v, env, out1, span);
        }
    }
}

/// What is bound is read: of bindings with different names each variable has its value.
pub proof fn law_bound_is_read(env: Vars, bs: Seq<(Seq<char>, ValueV)>, k: int)
    requires
        0 <= k < bs.len(),
        forall|i: int, j: int| 0 <= i < j < bs.len() ==> (#[trigger] bs[i]).0 != (#[trigger] bs[j]).0,
    ensures
        lookup(bound(env, bs, 0), bs[k].0) == Some(bs[k].1),
{
    lemma_bound(env, bs, 0, k);
}

proof fn lemma_bound(env: Vars, bs: Seq<(Seq<char>, ValueV)>, i: int, k: int)
    requires
        0 <= i <= bs.len(),
        0 <= k < bs.len(),
        forall|a: int, b: int| 0 <= a < b < bs.len() ==> (#[trigger] bs[a]).0 != (#[trigger] bs[b]).0,
        k < i ==> lookup(env, bs[k].0) == Some(bs[k].1),
    ensures
        lookup(bound(env, bs, i), bs[k].0) == Some(bs[k].1),
    decreases bs.len() - i,
{
    if i < bs.len() {
        lemma_bound(env.insert(bs[i].0, bs[i].1), bs, i + 1, k);
    }
}

// ----------------------------------------------------------------------------- lists

/// What is pushed on a list is its last element, and the others stay.
pub proof fn law_pushed_is_read(xs: Seq<ValueV>, v: ValueV, k: i64, span: Span)
    requires
        xs.len() < i64::MAX,
    ensures
        b_list_push(seq![ValueV::List(xs), v], span) matches Ok(l) && index_result(
            l,
            ValueV::Int(k),
            span,
        ) == (if k == xs.len() {
            Ok::<ValueV, StopV>(v)
        } else if 0 <= k < xs.len() {
            index_result(ValueV::List(xs), ValueV::Int(k), span)
        } else {
            index_result(ValueV::List(Seq::empty()), ValueV::Int(k), span)
        }),
        0 <= k < xs.len() ==> index_result(ValueV::List(xs), ValueV::Int(k), span) == Ok::<
            ValueV,
            StopV,
        >(xs[k as int]),
        !(0 <= k < xs.len()) ==> index_result(ValueV::List(xs), ValueV::Int(k), span) is Err,
{
}

/// A field of a struct is what it was last set to; other fields keep their values.
pub proof fn law_field_of_a_struct(
    n: Seq<char>,
    fs: Seq<(Seq<char>, ValueV)>,
    name: Seq<char>,
    v: ValueV,
    span: Span,
)
    ensures
        field_result(ValueV::Struct(n, set_field(fs, name, v)), name, span) == Ok::<ValueV, StopV>(v),
{
    law_set_field_is_read(fs, name, v);
}

// ----------------------------------------------------------------------------- calls

/// The scope of a call: each parameter has its argument, and nothing else is known.
pub proof fn law_parameters_are_bound(ps: Seq<ParamV>, args: Seq<ValueV>, name: Seq<char>)
    requires
        ps.len() == args.len(),
        forall|i: int, j: int|
            0 <= i < j < ps.len() ==> (#[trigger] ps[i]).name != (#[trigger] ps[j]).name,
    ensures
        forall|k: int|
            0 <= k < ps.len() ==> lookup(
                call_scope(ps, args, 0, Map::empty()),
                (#[trigger] ps[k]).name,
            ) == Some(args[k]),
        lookup(call_scope(ps, args, 0, Map::empty()), name) is Some ==> exists|k: int|
            0 <= k < ps.len() && (#[trigger] ps[k]).name == name,
{
    assert forall|k: int| 0 <= k < ps.len() implies lookup(
        call_scope(ps, args, 0, Map::empty()),
        (#[trigger] ps[k]).name,
    ) == Some(args[k]) by {
        lemma_parameter(ps, args, 0, Map::empty(), k);
    }
    lemma_only_parameters(ps, args, 0, Map::empty(), name);
}

proof fn lemma_parameter(ps: Seq<ParamV>, args: Seq<ValueV>, i: int, env: Vars, k: int)
    requires
        ps.len() == args.len(),
        0 <= i <= ps.len(),
        0 <= k < ps.len(),
        forall|a: int, b: int|
            0 <= a < b < ps.len() ==> (#[trigger] ps[a]).name != (#[trigger] ps[b]).name,
        k < i ==> lookup(env, ps[k].name) == Some(args[k]),
    ensures
        lookup(call_scope(ps, args, i, env), ps[k].name) == Some(args[k]),
    decreases ps.len() - i,
{
    if i < ps.len() {
        lemma_parameter(ps, args, i + 1, env.insert(ps[i].name, args[i]), k);
    }
}

proof fn lemma_only_parameters(ps: Seq<ParamV>, args: Seq<ValueV>, i: int, env: Vars, name: Seq<char>)
    requires
        ps.len() == args.len(),
        0 <= i <= ps.len(),
        env.contains_key(name) ==> exists|k: int| 0 <= k < ps.len() && (#[trigger] ps[k]).name == name,
    ensures
        lookup(call_scope(ps, args, i, env), name) is Some ==> exists|k: int|
            0 <= k < ps.len() && (#[trigger] ps[k]).name == name,
    decreases ps.len() - i,
{
    if i < ps.len() {
        assert(ps[i].name == ps[i].name);
        lemma_only_parameters(ps, args, i + 1, env.insert(ps[i].name, args[i]), name);
    }
}

/// A call runs the body of the function with its parameters bound, up to the first `return`
/// of the body, whose value it gives. Nothing behind that is run.
pub proof fn law_call_returns(
    c: Ctx,
    fuel: nat,
    f: FunctionV,
    before: Seq<ExprV>,
    last: ExprV,
    behind: Seq<ExprV>,
    args: Seq<ValueV>,
    span: Span,
    out: Seq<char>,
)
    requires
        fuel > 0,
        f.params.len() == args.len(),
        f.body.stmts == before.push(last) + behind,
        last.kind is Return,
        forall|k: int| 0 <= k < before.len() ==> !((#[trigger] before[k]).kind is Return),
    ensures
        ({
            let less = (fuel - 1) as nat;
            let scope = call_scope(f.params, args, 0, Map::empty());
            let (r, env1, out1) = e_stmts(c, less, before, 0, scope, out, ValueV::Nil);
            e_user(c, fuel, f, args, span, out) == match r {
                Err(s) => (Err::<ValueV, StopV>(s), out1),
                Ok(_) => {
                    let (v, _, out2) = e_expr(c, less, last, env1, out1);
                    (v, out2)
                },
            }
        }),
{
    un_e_user(c, fuel, f, args, span, out);
    let scope = call_scope(f.params, args, 0, Map::empty());
    lemma_body(c, (fuel - 1) as nat, before, last, behind, 0, scope, out, ValueV::Nil);
}

proof fn lemma_body(
    c: Ctx,
    fuel: nat,
    before: Seq<ExprV>,
    last: ExprV,
    behind: Seq<ExprV>,
    i: int,
    env: Vars,
    out: Seq<char>,
    v: ValueV,
)
    requires
        0 <= i <= before.len(),
        last.kind is Return,
        forall|k: int| 0 <= k < before.len() ==> !((#[trigger] before[k]).kind is Return),
    ensures
        ({
            let (r, env1, out1) = e_stmts(c, fuel, before, i, env, out, v);
            e_body(c, fuel, before.push(last) + behind, i, env, out, v) == match r {
                Err(s) => (Err::<ValueV, StopV>(s), out1),
                Ok(_) => {
                    let (w, _, out2) = e_expr(c, fuel, last, env1, out1);
                    (w, out2)
                },
            }
        }),
    decreases before.len() - i,
{
    let all = before.push(last) + behind;
    un_e_body(c, fuel, all, i, env, out, v);
    un_e_stmts(c, fuel, before, i, env, out, v);
    if i < before.len() {
        assert(all[i] == before[i]);
        let (r, env1, out1) = e_expr(c, fuel, before[i], env, out);
        if r is Ok {
            lemma_body(c, fuel, before, last, behind, i + 1, env1, out1, r->Ok_0);
        }
    } else {
        assert(all[i] == last);
    }
}

/// A function that gives back a parameter gives back the argument.
pub proof fn law_parameter_is_given_back(
    c: Ctx,
    fuel: nat,
    f: FunctionV,
    k: int,
    x: ExprV,
    last: ExprV,
    args: Seq<ValueV>,
    span: Span,
    out: Seq<char>,
)
    requires
        fuel > 0,
        0 <= k < f.params.len(),
        f.params.len() == args.len(),
        forall|i: int, j: int|
            0 <= i < j < f.params.len() ==> (#[trigger] f.params[i]).name != (
            #[trigger] f.params[j]).name,
        f.body.stmts == seq![last],
        last.kind == ExprKindV::Return(Some(Box::new(x))),
        names(x, f.params[k].name),
    ensures
        e_user(c, fuel, f, args, span, out) == (Ok::<ValueV, StopV>(args[k]), out),
{
    let none = Seq::<ExprV>::empty();
    assert(f.body.stmts =~= none.push(last) + none);
    law_call_returns(c, fuel, f, none, last, none, args, span, out);
    law_parameters_are_bound(f.params, args, f.params[k].name);
    let less = (fuel - 1) as nat;
    let scope = call_scope(f.params, args, 0, Map::empty());
    un_e_stmts(c, less, none, 0, scope, out, ValueV::Nil);
    un_e_expr(c, less, last, scope, out);
    un_e_expr(c, less, x, scope, out);
}

/// Arguments are evaluated from left to right, each once, and in the scope that those before
/// leave.
pub proof fn law_arguments_in_order(
    c: Ctx,
    fuel: nat,
    args: Seq<ExprV>,
    e: ExprV,
    env: Vars,
    out: Seq<char>,
)
    ensures
        ({
            let (r, env1, out1) = e_args(c, fuel, args, 0, env, out, Seq::empty());
            let (v, env2, out2) = e_expr(c, fuel, e, env1, out1);
            e_args(c, fuel, args.push(e), 0, env, out, Seq::empty()) == match (r, v) {
                (Err(s), _) => (Err::<Seq<ValueV>, StopV>(s), env1, out1),
                (Ok(vs), Err(s)) => (Err::<Seq<ValueV>, StopV>(s), env2, out2),
                (Ok(vs), Ok(v)) => (Ok::<Seq<ValueV>, StopV>(vs.push(v)), env2, out2),
            }
        }),
{
    lemma_arguments(c, fuel, args, e, 0, env, out, Seq::empty());
}

proof fn lemma_arguments(
    c: Ctx,
    fuel: nat,
    args: Seq<ExprV>,
    e: ExprV,
    i: int,
    env: Vars,
    out: Seq<char>,
    acc: Seq<ValueV>,
)
    requires
        0 <= i <= args.len(),
    ensures
        ({
            let (r, env1, out1) = e_args(c, fuel, args, i, env, out, acc);
            let (v, env2, out2) = e_expr(c, fuel, e, env1, out1);
            e_args(c, fuel, args.push(e), i, env, out, acc) == match (r, v) {
                (Err(s), _) => (Err::<Seq<ValueV>, StopV>(s), env1, out1),
                (Ok(vs), Err(s)) => (Err::<Seq<ValueV>, StopV>(s), env2, out2),
                (Ok(vs), Ok(v)) => (Ok::<Seq<ValueV>, StopV>(vs.push(v)), env2, out2),
            }
        }),
    decreases args.len() - i,
{
    let all = args.push(e);
    un_e_args(c, fuel, all, i, env, out, acc);
    un_e_args(c, fuel, args, i, env, out, acc);
    if i < args.len() {
        assert(all[i] == args[i]);
        let (r, env1, out1) = e_expr(c, fuel, args[i], env, out);
        if r is Ok {
            lemma_arguments(c, fuel, args, e, i + 1, env1, out1, acc.push(r->Ok_0));
        }
    } else {
        let (v, env2, out2) = e_expr(c, fuel, e, env, out);
        if v is Ok {
            un_e_args(c, fuel, all, i + 1, env2, out2, acc.push(v->Ok_0));
        }
    }
}

// ---------------------------------------------------------------------------- output

/// The longer text is the shorter one with more behind it.
pub open spec fn prints_on(longer: Seq<char>, shorter: Seq<char>) -> bool {
    shorter.len() <= longer.len() && longer.take(shorter.len() as int) == shorter
}

proof fn lemma_on(a: Seq<char>, b: Seq<char>, c: Seq<char>)
    requires
        prints_on(b, a),
        prints_on(c, b),
    ensures
        prints_on(c, a),
{
    assert(c.take(a.len() as int) =~= c.take(b.len() as int).take(a.len() as int));
}

proof fn lemma_same(a: Seq<char>)
    ensures
        prints_on(a, a),
{
    assert(a.take(a.len() as int) =~= a);
}

proof fn lemma_more(a: Seq<char>, b: Seq<char>)
    ensures
        prints_on(a + b, a),
{
    assert((a + b).take(a.len() as int) =~= a);
}

proof fn lemma_builtin_output(c: Ctx, name: Seq<char>, args: Seq<ValueV>, span: Span, out: Seq<char>)
    ensures
        prints_on(builtin(c, name, args, span, out).1, out),
{
    lemma_same(out);
    if args.len() > 0 {
        if let Ok(t) = printed(c.host, args[0]) {
            lemma_more(out, t + ""@);
            assert(out + (t + ""@) =~= out + t + ""@);
            lemma_more(out, t + "\n"@);
            assert(out + (t + "\n"@) =~= out + t + "\n"@);
        }
        if let ValueV::Int(n) = args[0] {
            lemma_more(out, int_text(n as int));
        }
    }
    lemma_more(out, ""@);
    lemma_more(out, "\n"@);
}

/// What has been printed stays: running an expression only prints more behind it.
pub proof fn law_output_stays(c: Ctx, fuel: nat, e: ExprV, env: Vars, out: Seq<char>)
    ensures
        prints_on(e_expr(c, fuel, e, env, out).2, out),
    decreases fuel, 2int, e, 1int,
{
    lemma_same(out);
    un_e_expr(c, fuel, e, env, out);
    match e.kind {
        ExprKindV::Return(Some(x)) => {
            law_output_stays(c, fuel, *x, env, out);
        },
        ExprKindV::NamedArg { name, value } => {
            law_output_stays(c, fuel, *value, env, out);
        },
        ExprKindV::Block(b) => {
            lemma_stmts_output(c, fuel, b.stmts, 0, env, out, ValueV::Nil);
        },
        ExprKindV::Unary { op, expr } => {
            law_output_stays(c, fuel, *expr, env, out);
            un_e_single(c, fuel, e, env, out);
        },
        ExprKindV::DotAccess { object, field } => {
            law_output_stays(c, fuel, *object, env, out);
            un_e_single(c, fuel, e, env, out);
        },
        ExprKindV::Field { object, field } => {
            law_output_stays(c, fuel, *object, env, out);
            un_e_single(c, fuel, e, env, out);
        },
        ExprKindV::Let { name, ty, value, is_mut } => {
            law_output_stays(c, fuel, *value, env, out);
            un_e_store(c, fuel, e, env, out);
        },
        ExprKindV::Assign { target, value } => {
            law_output_stays(c, fuel, *value, env, out);
            un_e_store(c, fuel, e, env, out);
        },
        ExprKindV::AssignOp { target, op, value } => {
            law_output_stays(c, fuel, *value, env, out);
            un_e_store(c, fuel, e, env, out);
        },
        ExprKindV::Binary { op, left, right } => {
            let (r, env1, out1) = e_expr(c, fuel, *left, env, out);
            law_output_stays(c, fuel, *left, env, out);
            law_output_stays(c, fuel, *right, env1, out1);
            lemma_on(out, out1, e_expr(c, fuel, *right, env1, out1).2);
            un_e_double(c, fuel, e, env, out);
        },
        ExprKindV::Index { object, index } => {
            let (r, env1, out1) = e_expr(c, fuel, *object, env, out);
            law_output_stays(c, fuel, *object, env, out);
            law_output_stays(c, fuel, *index, env1, out1);
            lemma_on(out, out1, e_expr(c, fuel, *index, env1, out1).2);
            un_e_double(c, fuel, e, env, out);
        },
        ExprKindV::Call { func, args } => {
            un_e_apply(c, fuel, e, env, out);
            let (r, env1, out1) = e_args(c, fuel, args, 0, env, out, Seq::empty());
            lemma_args_output(c, fuel, args, 0, env, out, Seq::empty());
            if let ExprKindV::Ident(name) = func.kind {
                if let Ok(vals) = r {
                    lemma_call_output(c, fuel, name, vals, e.span, out1);
                    lemma_on(out, out1, e_call(c, fuel, name, vals, e.span, out1).1);
                }
            }
        },
        ExprKindV::If { cond, then_branch, else_branch } => {
            un_e_if(c, fuel, e, env, out);
            let (r, env1, out1) = e_expr(c, fuel, *cond, env, out);
            law_output_stays(c, fuel, *cond, env, out);
            lemma_stmts_output(c, fuel, then_branch.stmts, 0, env1, out1, ValueV::Nil);
            lemma_on(
                out,
                out1,
                e_stmts(c, fuel, then_branch.stmts, 0, env1, out1, ValueV::Nil).2,
            );
            if let Some(b) = else_branch {
                lemma_stmts_output(c, fuel, b.stmts, 0, env1, out1, ValueV::Nil);
                lemma_on(out, out1, e_stmts(c, fuel, b.stmts, 0, env1, out1, ValueV::Nil).2);
            }
        },
        ExprKindV::For { var, iter, body } => {
            un_e_for(c, fuel, e, env, out);
            let (r, env1, out1) = e_expr(c, fuel, *iter, env, out);
            law_output_stays(c, fuel, *iter, env, out);
            if let Ok(v) = r {
                if let Ok(vals) = loop_values(v, e.span) {
                    lemma_rounds_output(c, fuel, var, vals, 0, body, env1, out1, ValueV::Nil);
                    lemma_on(
                        out,
                        out1,
                        e_rounds(c, fuel, var, vals, 0, body, env1, out1, ValueV::Nil).2,
                    );
                }
            }
        },
        ExprKindV::While { cond, body } => {
            lemma_while_output(c, fuel, e, env, out, ValueV::Nil);
        },
        ExprKindV::StructLit { path, fields } => {
            un_e_record(c, fuel, e, env, out);
            lemma_fields_output(c, fuel, fields, 0, env, out, Seq::empty());
        },
        ExprKindV::GcNew { ty, fields } => {
            un_e_record(c, fuel, e, env, out);
            lemma_fields_output(c, fuel, fields, 0, env, out, Seq::empty());
        },
        ExprKindV::EnumCtor { path, case, arg } => {
            un_e_ctor(c, fuel, e, env, out);
            if let Some(a) = arg {
                law_output_stays(c, fuel, *a, env, out);
            }
        },
        ExprKindV::Match { expr, arms } => {
            un_e_match(c, fuel, e, env, out);
            let (r, env1, out1) = e_expr(c, fuel, *expr, env, out);
            law_output_stays(c, fuel, *expr, env, out);
            if let Ok(v) = r {
                lemma_arms_output(c, fuel, arms, 0, v, env1, out1, e.span);
                lemma_on(out, out1, e_arms(c, fuel, arms, 0, v, env1, out1, e.span).1);
            }
        },
        _ => {},
    }
}

proof fn lemma_stmts_output(
    c: Ctx,
    fuel: nat,
    stmts: Seq<ExprV>,
    i: int,
    env: Vars,
    out: Seq<char>,
    last: ValueV,
)
    ensures
        prints_on(e_stmts(c, fuel, stmts, i, env, out, last).2, out),
    decreases fuel, 2int, stmts, stmts.len() - i,
{
    lemma_same(out);
    un_e_stmts(c, fuel, stmts, i, env, out, last);
    if 0 <= i < stmts.len() {
        let (r, env1, out1) = e_expr(c, fuel, stmts[i], env, out);
        law_output_stays(c, fuel, stmts[i], env, out);
        if let Ok(v) = r {
            lemma_stmts_output(c, fuel, stmts, i + 1, env1, out1, v);
            lemma_on(out, out1, e_stmts(c, fuel, stmts, i + 1, env1, out1, v).2);
        }
    }
}

proof fn lemma_args_output(
    c: Ctx,
    fuel: nat,
    args: Seq<ExprV>,
    i: int,
    env: Vars,
    out: Seq<char>,
    acc: Seq<ValueV>,
)
    ensures
        prints_on(e_args(c, fuel, args, i, env, out, acc).2, out),
    decreases fuel, 2int, args, args.len() - i,
{
    lemma_same(out);
    un_e_args(c, fuel, args, i, env, out, acc);
    if 0 <= i < args.len() {
        let (r, env1, out1) = e_expr(c, fuel, args[i], env, out);
        law_output_stays(c, fuel, args[i], env, out);
        if let Ok(v) = r {
            lemma_args_output(c, fuel, args, i + 1, env1, out1, acc.push(v));
            lemma_on(out, out1, e_args(c, fuel, args, i + 1, env1, out1, acc.push(v)).2);
        }
    }
}

proof fn lemma_fields_output(
    c: Ctx,
    fuel: nat,
    fs: Seq<(Seq<char>, ExprV)>,
    i: int,
    env: Vars,
    out: Seq<char>,
    acc: Seq<(Seq<char>, ValueV)>,
)
    ensures
        prints_on(e_fields(c, fuel, fs, i, env, out, acc).2, out),
    decreases fuel, 2int, fs, fs.len() - i,
{
    lemma_same(out);
    un_e_fields(c, fuel, fs, i, env, out, acc);
    if 0 <= i < fs.len() {
        let (r, env1, out1) = e_expr(c, fuel, fs[i].1, env, out);
        law_output_stays(c, fuel, fs[i].1, env, out);
        if let Ok(v) = r {
            let next = set_field(acc, fs[i].0, v);
            lemma_fields_output(c, fuel, fs, i + 1, env1, out1, next);
            lemma_on(out, out1, e_fields(c, fuel, fs, i + 1, env1, out1, next).2);
        }
    }
}

proof fn lemma_rounds_output(
    c: Ctx,
    fuel: nat,
    var: Seq<char>,
    vals: Seq<ValueV>,
    i: int,
    body: BlockV,
    env: Vars,
    out: Seq<char>,
    last: ValueV,
)
    ensures
        prints_on(e_rounds(c, fuel, var, vals, i, body, env, out, last).2, out),
    decreases fuel, 2int, body, vals.len() - i,
{
    lemma_same(out);
    un_e_rounds(c, fuel, var, vals, i, body, env, out, last);
    if 0 <= i < vals.len() {
        let env0 = env.insert(var, vals[i]);
        let (r, env1, out1) = e_stmts(c, fuel, body.stmts, 0, env0, out, last);
        lemma_stmts_output(c, fuel, body.stmts, 0, env0, out, last);
        if let Ok(v) = r {
            lemma_rounds_output(c, fuel, var, vals, i + 1, body, env1, out1, v);
            lemma_on(out, out1, e_rounds(c, fuel, var, vals, i + 1, body, env1, out1, v).2);
        }
    }
}

proof fn lemma_while_output(
    c: Ctx,
    fuel: nat,
    e: ExprV,
    env: Vars,
    out: Seq<char>,
    last: ValueV,
)
    ensures
        prints_on(e_while(c, fuel, e, env, out, last).2, out),
    decreases fuel, 2int, e, 0int,
{
    lemma_same(out);
    un_e_while(c, fuel, e, env, out, last);
    if let ExprKindV::While { cond, body } = e.kind {
        let (r, env1, out1) = e_expr(c, fuel, *cond, env, out);
        law_output_stays(c, fuel, *cond, env, out);
        let (r2, env2, out2) = e_stmts(c, fuel, body.stmts, 0, env1, out1, last);
        lemma_stmts_output(c, fuel, body.stmts, 0, env1, out1, last);
        lemma_on(out, out1, out2);
        if let Ok(w) = r2 {
            if fuel > 0 {
                lemma_while_output(c, (fuel - 1) as nat, e, env2, out2, w);
                lemma_on(out, out2, e_while(c, (fuel - 1) as nat, e, env2, out2, w).2);
            }
        }
    }
}

proof fn lemma_arms_output(
    c: Ctx,
    fuel: nat,
    arms: Seq<MatchArmV>,
    i: int,
    v: ValueV,
    env: Vars,
    out: Seq<char>,
    span: Span,
)
    ensures
        prints_on(e_arms(c, fuel, arms, i, v, env, out, span).1, out),
    decreases fuel, 2int, arms, arms.len() - i,
{
    lemma_same(out);
    un_e_arms(c, fuel, arms, i, v, env, out, span);
    if 0 <= i < arms.len() {
        match pattern_match(v, arms[i].pattern) {
            Err(s) => {},
            Ok(None) => {
                lemma_arms_output(c, fuel, arms, i + 1, v, env, out, span);
            },
            Ok(Some(bs)) => {
                let env1 = bound(env, bs, 0);
                let (g, out1) = e_guard(c, fuel, arms[i].guard, env1, out);
                un_e_guard(c, fuel, arms[i].guard, env1, out);
                if let Some(x) = arms[i].guard {
                    law_output_stays(c, fuel, *x, env1, out);
                }
                lemma_arms_output(c, fuel, arms, i + 1, v, env, out1, span);
                lemma_on(out, out1, e_arms(c, fuel, arms, i + 1, v, env, out1, span).1);
                law_output_stays(c, fuel, *arms[i].body, env1, out1);
                lemma_on(out, out1, e_expr(c, fuel, *arms[i].body, env1, out1).2);
            },
        }
    }
}

proof fn lemma_call_output(
    c: Ctx,
    fuel: nat,
    name: Seq<char>,
    args: Seq<ValueV>,
    span: Span,
    out: Seq<char>,
)
    ensures
        prints_on(e_call(c, fuel, name, args, span, out).1, out),
    decreases fuel, 1int, ExprKindV::NilLiteral, 0int,
{
    lemma_same(out);
    un_e_call(c, fuel, name, args, span, out);
    lemma_builtin_output(c, name, args, span, out);
    if let Some(fs) = lookup(c.functions, name) {
        if let Ok(f) = chosen(c, name, fs, args, span) {
            un_e_user(c, fuel, f, args, span, out);
            if fuel > 0 {
                let scope = call_scope(f.params, args, 0, Map::empty());
                lemma_body_output(
                    c,
                    (fuel - 1) as nat,
                    f.body.stmts,
                    0,
                    scope,
                    out,
                    ValueV::Nil,
                );
            }
        }
    }
}

proof fn lemma_body_output(
    c: Ctx,
    fuel: nat,
    stmts: Seq<ExprV>,
    i: int,
    env: Vars,
    out: Seq<char>,
    last: ValueV,
)
    ensures
        prints_on(e_body(c, fuel, stmts, i, env, out, last).1, out),
    decreases fuel, 2int, stmts, stmts.len() - i,
{
    lemma_same(out);
    un_e_body(c, fuel, stmts, i, env, out, last);
    if 0 <= i < stmts.len() {
        let (r, env1, out1) = e_expr(c, fuel, stmts[i], env, out);
        law_output_stays(c, fuel, stmts[i], env, out);
        if let Ok(v) = r {
            lemma_body_output(c, fuel, stmts, i + 1, env1, out1, v);
            lemma_on(out, out1, e_body(c, fuel, stmts, i + 1, env1, out1, v).1);
        }
    }
}

/// `print` puts the text of its argument behind what is printed, and `println` a line end
/// behind that; a text is printed as it is, a number in decimal digits.
pub proof fn law_printing(c: Ctx, v: ValueV, span: Span, out: Seq<char>)
    requires
        c.runtime,
        v is String || v is Int || v is Bool,
    ensures
        ({
            let (r, out1) = builtin(c, "print"@, seq![v], span, out);
            let (r2, out2) = builtin(c, "println"@, seq![v], span, out);
            let text = match v {
                ValueV::String(s) => s,
                ValueV::Int(n) => int_text(n as int),
                ValueV::Bool(true) => "true"@,
                _ => "false"@,
            };
            &&& r == Ok::<ValueV, StopV>(ValueV::Nil) && r2 == r
            &&& out1 == out + text
            &&& out2 == out1 + "\n"@
        }),
{
    reveal_strlit("");
    lemma_print_names();
    let text = printed(c.host, v)->Ok_0;
    assert(out + text + ""@ =~= out + text);
}

/// `print` and `println` name nothing else.
proof fn lemma_print_names()
    ensures
        forall|c: Ctx, args: Seq<ValueV>, span: Span| #[trigger]
            b_inspect(c, "print"@, args, span) is None,
        forall|c: Ctx, args: Seq<ValueV>, span: Span| #[trigger]
            b_inspect(c, "println"@, args, span) is None,
        forall|args: Seq<ValueV>, span: Span| #[trigger] b_build("print"@, args, span) is None,
        forall|args: Seq<ValueV>, span: Span| #[trigger] b_build("println"@, args, span) is None,
        forall|args: Seq<ValueV>, span: Span| #[trigger] b_declare("print"@, args, span) is None,
        forall|args: Seq<ValueV>, span: Span| #[trigger] b_declare("println"@, args, span) is None,
        "print"@ != "println"@,
{
    reveal_strlit("print");
    reveal_strlit("println");
    reveal_strlit("read_file");
    reveal_strlit("parse");
    reveal_strlit("splice");
    reveal_strlit("error");
    reveal_strlit("filter_pub");
    reveal_strlit("set_name");
    reveal_strlit("lookup_type");
    reveal_strlit("struct_fields");
    reveal_strlit("type_exists");
    reveal_strlit("make_return");
    reveal_strlit("make_binary");
    reveal_strlit("make_string");
    reveal_strlit("make_field");
    reveal_strlit("make_ident");
    reveal_strlit("list");
    reveal_strlit("list_push");
    reveal_strlit("make_int");
    reveal_strlit("make_float");
    reveal_strlit("make_bool");
    reveal_strlit("make_block");
    reveal_strlit("make_let");
    reveal_strlit("make_call");
    reveal_strlit("to_string");
    reveal_strlit("make_function");
    reveal_strlit("make_struct");
    reveal_strlit("make_impl");
    assert("print"@[0] == 'p' && "print"@[1] == 'r' && "print"@.len() == 5);
    assert("println"@[0] == 'p' && "println"@[1] == 'r' && "println"@.len() == 7);
    assert("parse"@[1] == 'a');
    assert("read_file"@[0] == 'r' && "splice"@[0] == 's' && "error"@[0] == 'e');
    assert("filter_pub"@[0] == 'f' && "set_name"@[0] == 's' && "lookup_type"@[0] == 'l');
    assert("struct_fields"@[0] == 's' && "type_exists"@[0] == 't');
    assert("make_return"@[0] == 'm' && "make_binary"@[0] == 'm' && "make_string"@[0] == 'm');
    assert("make_field"@[0] == 'm' && "make_ident"@[0] == 'm' && "list"@[0] == 'l');
    assert("list_push"@[0] == 'l' && "make_int"@[0] == 'm' && "make_float"@[0] == 'm');
    assert("make_bool"@[0] == 'm' && "make_block"@[0] == 'm' && "make_let"@[0] == 'm');
    assert("make_call"@[0] == 'm' && "to_string"@[0] == 't' && "make_function"@[0] == 'm');
    assert("make_struct"@[0] == 'm' && "make_impl"@[0] == 'm');
}

// --------------------------------------------------------------------------- rounds

/// A loop over one more value runs its body once more, behind the other rounds, with the
/// variable set to that value; a round that fails is the last.
pub proof fn law_rounds_in_order(
    c: Ctx,
    fuel: nat,
    var: Seq<char>,
    vals: Seq<ValueV>,
    x: ValueV,
    i: int,
    body: BlockV,
    env: Vars,
    out: Seq<char>,
    last: ValueV,
)
    requires
        0 <= i <= vals.len(),
    ensures
        e_rounds(c, fuel, var, vals.push(x), i, body, env, out, last) == ({
            let (r, env1, out1) = e_rounds(c, fuel, var, vals, i, body, env, out, last);
            match r {
                Err(s) => (Err(s), env1, out1),
                Ok(v) => e_stmts(c, fuel, body.stmts, 0, env1.insert(var, x), out1, v),
            }
        }),
    decreases vals.len() - i,
{
    let more = vals.push(x);
    un_e_rounds(c, fuel, var, more, i, body, env, out, last);
    un_e_rounds(c, fuel, var, vals, i, body, env, out, last);
    if i < vals.len() {
        assert(more[i] == vals[i]);
        let (r, env1, out1) = e_stmts(
            c,
            fuel,
            body.stmts,
            0,
            env.insert(var, vals[i]),
            out,
            last,
        );
        if let Ok(v) = r {
            law_rounds_in_order(c, fuel, var, vals, x, i + 1, body, env1, out1, v);
        }
    } else {
        assert(more[i] == x);
        let (r, env1, out1) = e_stmts(c, fuel, body.stmts, 0, env.insert(var, x), out, last);
        if let Ok(v) = r {
            un_e_rounds(c, fuel, var, more, i + 1, body, env1, out1, v);
        }
    }
}

/// A loop over a list that a variable holds begins with the first value of the list, and one
/// over an empty list does nothing. What is no list cannot be gone over.
pub proof fn law_loop_over_a_list(
    c: Ctx,
    fuel: nat,
    e: ExprV,
    var: Seq<char>,
    iter: ExprV,
    list: Seq<char>,
    body: BlockV,
    env: Vars,
    out: Seq<char>,
)
    requires
        e.kind == (ExprKindV::For { var, iter: Box::new(iter), body }),
        names(iter, list),
        env.contains_key(list),
    ensures
        env[list] == ValueV::List(Seq::empty()) ==> e_expr(c, fuel, e, env, out) == (
            Ok::<ValueV, StopV>(ValueV::Nil),
            env,
            out,
        ),
        env[list] matches ValueV::List(xs) ==> (xs.len() == 1 ==> e_expr(c, fuel, e, env, out)
            == e_stmts(c, fuel, body.stmts, 0, env.insert(var, xs[0]), out, ValueV::Nil)),
        env[list] matches ValueV::List(xs) ==> e_expr(c, fuel, e, env, out) == e_rounds(
            c,
            fuel,
            var,
            xs,
            0,
            body,
            env,
            out,
            ValueV::Nil,
        ),
        env[list] is Int || env[list] is String || env[list] is Bool ==> e_expr(
            c,
            fuel,
            e,
            env,
            out,
        ).0 is Err,
{
    un_e_expr(c, fuel, e, env, out);
    un_e_for(c, fuel, e, env, out);
    un_e_expr(c, fuel, iter, env, out);
    if let ValueV::List(xs) = env[list] {
        un_e_rounds(c, fuel, var, xs, 0, body, env, out, ValueV::Nil);
        if xs.len() == 1 {
            let (r, env1, out1) = e_stmts(
                c,
                fuel,
                body.stmts,
                0,
                env.insert(var, xs[0]),
                out,
                ValueV::Nil,
            );
            if let Ok(v) = r {
                un_e_rounds(c, fuel, var, xs, 1, body, env1, out1, v);
            }
        }
    }
}

/// A list is indexed from zero, and only inside of it.
pub proof fn law_index_of_a_list(xs: Seq<ValueV>, v: ValueV, i: i64, span: Span)
    requires
        xs.len() < i64::MAX,
    ensures
        i == xs.len() ==> index_result(ValueV::List(xs.push(v)), ValueV::Int(i), span) == Ok::<
            ValueV,
            StopV,
        >(v),
        0 <= i < xs.len() ==> index_result(ValueV::List(xs.push(v)), ValueV::Int(i), span)
            == index_result(ValueV::List(xs), ValueV::Int(i), span),
        i < 0 || i >= xs.len() ==> index_result(ValueV::List(xs), ValueV::Int(i), span) is Err,
{
}

} // verus!
