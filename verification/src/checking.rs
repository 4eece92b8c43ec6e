//! What the type checker promises: which programs it takes, and what it takes names for.
use vstd::prelude::*;

verus! {

use crate::ast::named_type;
use crate::error::CompileErrorV;
use crate::evaluation::{is_formula, names};
use crate::maps::lookup;
use crate::model::{
    BlockV, ExprKindV, ExprV, FunctionTypeV, FunctionV, ItemV, ParamV, StructFieldV, TypeV,
    VarDeclV,
};
use crate::mono_model::{MonoV, Subst, l_expr};
use crate::mono_rules::{un_l_double, un_l_expr};
use crate::operators::law_lowering_agrees;
use crate::resolve::ResolvedAs;
use crate::token::Span;
use crate::typeck::{
    Env, Known, NoChoice, Res, accepts, add_item, add_items, add_methods, add_overload, c_dot,
    c_expr, c_overload, c_stmts, candidate_takes, check_item, check_items, choose_overload,
    field_of, field_type, fits, function_type, params_env, same_type,
};
use crate::typeck_rules::{un_c_expr, un_c_if, un_c_stmts};

// ------------------------------------------------------------------------- overloads

/// The candidate is a function with as many parameters as there are arguments (or none at
/// all), each of the type of its argument.
pub open spec fn is_for(t: TypeV, args: Seq<TypeV>) -> bool {
    t matches TypeV::Function(sig) && (sig.params.len() == 0 || (sig.params.len() == args.len()
        && forall|k: int| 0 <= k < args.len() ==> same_type(#[trigger] sig.params[k], args[k])))
}

/// A call takes the one candidate that is for its arguments. It is refused where none is,
/// and where more than one is.
pub proof fn law_only_candidate(cands: Seq<TypeV>, args: Seq<TypeV>)
    ensures
        match choose_overload(cands, args, 0, None) {
            Ok(k) => 0 <= k < cands.len() && is_for(cands[k], args) && forall|j: int|
                0 <= j < cands.len() && j != k ==> !is_for(#[trigger] cands[j], args),
            Err(NoChoice::Nothing) => forall|j: int|
                0 <= j < cands.len() ==> !is_for(#[trigger] cands[j], args),
            Err(NoChoice::Ambiguous) => exists|j: int, k: int|
                0 <= j < k < cands.len() && is_for(#[trigger] cands[j], args) && is_for(
                    #[trigger] cands[k],
                    args,
                ),
        },
{
    lemma_candidates(cands, args, 0, None);
}

proof fn lemma_candidates(cands: Seq<TypeV>, args: Seq<TypeV>, i: int, best: Option<int>)
    requires
        0 <= i <= cands.len(),
        match best {
            Some(b) => 0 <= b < i && is_for(cands[b], args) && forall|j: int|
                0 <= j < i && j != b ==> !is_for(#[trigger] cands[j], args),
            None => forall|j: int| 0 <= j < i ==> !is_for(#[trigger] cands[j], args),
        },
    ensures
        match choose_overload(cands, args, i, best) {
            Ok(k) => 0 <= k < cands.len() && is_for(cands[k], args) && forall|j: int|
                0 <= j < cands.len() && j != k ==> !is_for(#[trigger] cands[j], args),
            Err(NoChoice::Nothing) => forall|j: int|
                0 <= j < cands.len() ==> !is_for(#[trigger] cands[j], args),
            Err(NoChoice::Ambiguous) => exists|j: int, k: int|
                0 <= j < k < cands.len() && is_for(#[trigger] cands[j], args) && is_for(
                    #[trigger] cands[k],
                    args,
                ),
        },
    decreases cands.len() - i,
{
    if i < cands.len() {
        assert(candidate_takes(cands[i], args) == is_for(cands[i], args));
        if is_for(cands[i], args) {
            match best {
                None => {
                    lemma_candidates(cands, args, i + 1, Some(i));
                },
                Some(b) => {
                    assert(is_for(cands[b], args) && is_for(cands[i], args));
                },
            }
        } else {
            lemma_candidates(cands, args, i + 1, best);
        }
    }
}

/// A call has the type that the function it takes gives.
pub proof fn law_call_has_the_result_type(
    cands: Seq<TypeV>,
    args: Seq<TypeV>,
    k: int,
    sig: FunctionTypeV,
    name: Seq<char>,
    span: Span,
)
    requires
        0 <= k < cands.len(),
        cands[k] == TypeV::Function(sig),
        is_for(cands[k], args),
        forall|j: int| 0 <= j < cands.len() && j != k ==> !is_for(#[trigger] cands[j], args),
    ensures
        c_overload(cands, args, name, span) == Ok::<TypeV, CompileErrorV>(*sig.ret),
{
    law_only_candidate(cands, args);
}

/// A call is refused where no function of its name is for its arguments, or more than one.
pub proof fn law_call_is_refused(cands: Seq<TypeV>, args: Seq<TypeV>, name: Seq<char>, span: Span)
    ensures
        c_overload(cands, args, name, span) is Ok <==> exists|k: int|
            0 <= k < cands.len() && is_for(#[trigger] cands[k], args) && forall|j: int|
                0 <= j < cands.len() && j != k ==> !is_for(#[trigger] cands[j], args),
{
    law_only_candidate(cands, args);
    match choose_overload(cands, args, 0, None) {
        Ok(k) => {},
        Err(NoChoice::Nothing) => {},
        Err(NoChoice::Ambiguous) => {
            let (a, b) = choose|a: int, b: int|
                0 <= a < b < cands.len() && is_for(#[trigger] cands[a], args) && is_for(
                    #[trigger] cands[b],
                    args,
                );
            assert forall|k: int| 0 <= k < cands.len() && is_for(#[trigger] cands[k], args) implies !(
            forall|j: int| 0 <= j < cands.len() && j != k ==> !is_for(#[trigger] cands[j], args)) by {
                if k == a {
                    assert(is_for(cands[b], args));
                } else {
                    assert(is_for(cands[a], args));
                }
            }
        },
    }
}

// ------------------------------------------------------------------------ statements

/// A declared variable has the type that it is declared with, or else that of its value.
/// A declaration is taken exactly where its value is and fits the declared type.
pub proof fn law_declared_type(
    c: Known,
    e: ExprV,
    name: Seq<char>,
    ty: Option<TypeV>,
    value: ExprV,
    env: Env,
    res: Res,
)
    requires
        e.kind matches ExprKindV::Let { name: n, ty: t, value: v, is_mut } && n == name && t == ty
            && *v == value,
    ensures
        match c_expr(c, value, env, res) {
            Err(x) => c_expr(c, e, env, res) is Err,
            Ok((vt, env1, res1)) => match c_expr(c, e, env, res) {
                Ok((t, env2, res2)) => {
                    &&& t is Unit
                    &&& res2 == res1
                    &&& lookup(env2, name) == (match ty {
                        Some(d) => Some(d),
                        None => Some(vt),
                    })
                    &&& forall|other: Seq<char>|
                        other != name ==> #[trigger] lookup(env2, other) == lookup(env1, other)
                    &&& ty matches Some(d) ==> fits(c, d, value, vt)
                },
                Err(_) => ty matches Some(d) && !fits(c, d, value, vt),
            },
        },
{
    un_c_expr(c, e, env, res);
}

/// An assignment is taken exactly where its parts are and the value fits the type of the
/// target.
pub proof fn law_assigned_type(c: Known, e: ExprV, target: ExprV, value: ExprV, env: Env, res: Res)
    requires
        e.kind matches ExprKindV::Assign { target: t, value: v } && *t == target && *v == value,
    ensures
        c_expr(c, e, env, res) is Ok <==> (c_expr(c, target, env, res) matches Ok((tt, env1, res1))
            && (c_expr(c, value, env1, res1) matches Ok((vt, env2, res2)) && fits(
            c,
            tt,
            value,
            vt,
        ))),
{
    un_c_expr(c, e, env, res);
}

/// A name has the type of the variable; only where there is none it may be a function.
pub proof fn law_name_has_its_type(c: Known, e: ExprV, name: Seq<char>, env: Env, res: Res)
    requires
        names(e, name),
    ensures
        lookup(env, name) matches Some(t) ==> c_expr(c, e, env, res) == Ok::<
            (TypeV, Env, Res),
            CompileErrorV,
        >((t, env, res)),
        lookup(env, name) is None && lookup(c.functions, name) is None ==> c_expr(c, e, env, res) is Err,
{
    un_c_expr(c, e, env, res);
}

/// The condition of a conditional or a loop that is taken is a truth, and what is declared
/// in a branch or a block is not known behind it.
pub proof fn law_conditions_and_scopes(c: Known, e: ExprV, env: Env, res: Res)
    ensures
        c_expr(c, e, env, res) matches Ok((t, env1, res1)) ==> match e.kind {
            ExprKindV::If { cond, then_branch, else_branch } => c_expr(
                c,
                *cond,
                env,
                res,
            ) matches Ok((ct, env2, res2)) && accepts(named_type("Bool"@), ct) && env1 == env2
                && c_stmts(c, then_branch.stmts, 0, TypeV::Unit, env2, res2) is Ok,
            ExprKindV::While { cond, body } => c_expr(c, *cond, env, res) matches Ok(
                (ct, env2, res2),
            ) && accepts(named_type("Bool"@), ct) && t is Unit,
            ExprKindV::Block(b) => env1 == env && c_stmts(
                c,
                b.stmts,
                0,
                TypeV::Unit,
                env,
                res,
            ) is Ok,
            _ => true,
        },
{
    un_c_expr(c, e, env, res);
    un_c_if(c, e, env, res);
}

/// Both branches of a conditional that is taken are taken, in the scope behind its
/// condition; it has the type of the first where there is a second, and else none.
pub proof fn law_both_branches(
    c: Known,
    e: ExprV,
    cond: ExprV,
    yes: BlockV,
    no: BlockV,
    env: Env,
    res: Res,
)
    requires
        e.kind == (ExprKindV::If {
            cond: Box::new(cond),
            then_branch: yes,
            else_branch: Some(no),
        }),
    ensures
        ({
            let one = ExprV {
                kind: ExprKindV::If { cond: Box::new(cond), then_branch: yes, else_branch: None },
                span: e.span,
            };
            let first = ExprV { kind: ExprKindV::Block(yes), span: e.span };
            let second = ExprV { kind: ExprKindV::Block(no), span: e.span };
            match c_expr(c, one, env, res) {
                Err(x) => c_expr(c, e, env, res) == Err::<(TypeV, Env, Res), CompileErrorV>(x),
                Ok((t, env1, res1)) => {
                    &&& t is Unit
                    &&& c_expr(c, e, env, res) is Ok <==> c_expr(c, second, env1, res1) is Ok
                    &&& c_expr(c, e, env, res) matches Ok((t2, env2, res2)) ==> (c_expr(
                        c,
                        cond,
                        env,
                        res,
                    ) matches Ok((ct, env3, res3)) && (c_expr(c, first, env3, res3) matches Ok(
                        (t3, _, _),
                    ) && t2 == t3))
                },
            }
        }),
{
    let one = ExprV {
        kind: ExprKindV::If { cond: Box::new(cond), then_branch: yes, else_branch: None },
        span: e.span,
    };
    let first = ExprV { kind: ExprKindV::Block(yes), span: e.span };
    let second = ExprV { kind: ExprKindV::Block(no), span: e.span };
    un_c_expr(c, e, env, res);
    un_c_if(c, e, env, res);
    un_c_expr(c, one, env, res);
    un_c_if(c, one, env, res);
    if let Ok((ct, env1, res1)) = c_expr(c, cond, env, res) {
        un_c_expr(c, first, env1, res1);
        if let Ok((tt, _, res2)) = c_stmts(c, yes.stmts, 0, TypeV::Unit, env1, res1) {
            un_c_expr(c, second, env1, res2);
        }
    }
}

/// Statements are checked one after the other, each in the scope that those before leave;
/// the last gives the type.
pub proof fn law_statements_are_checked_in_order(
    c: Known,
    stmts: Seq<ExprV>,
    e: ExprV,
    last: TypeV,
    env: Env,
    res: Res,
)
    ensures
        c_stmts(c, stmts.push(e), 0, last, env, res) == match c_stmts(
            c,
            stmts,
            0,
            last,
            env,
            res,
        ) {
            Err(x) => Err::<(TypeV, Env, Res), CompileErrorV>(x),
            Ok((_, env1, res1)) => c_expr(c, e, env1, res1),
        },
{
    lemma_last_checked(c, stmts, e, 0, last, env, res);
}

proof fn lemma_last_checked(
    c: Known,
    stmts: Seq<ExprV>,
    e: ExprV,
    i: int,
    last: TypeV,
    env: Env,
    res: Res,
)
    requires
        0 <= i <= stmts.len(),
    ensures
        c_stmts(c, stmts.push(e), i, last, env, res) == match c_stmts(
            c,
            stmts,
            i,
            last,
            env,
            res,
        ) {
            Err(x) => Err::<(TypeV, Env, Res), CompileErrorV>(x),
            Ok((_, env1, res1)) => c_expr(c, e, env1, res1),
        },
    decreases stmts.len() - i,
{
    let all = stmts.push(e);
    un_c_stmts(c, all, i, last, env, res);
    un_c_stmts(c, stmts, i, last, env, res);
    if i < stmts.len() {
        assert(all[i] == stmts[i]);
        if let Ok((t, env1, res1)) = c_expr(c, stmts[i], env, res) {
            lemma_last_checked(c, stmts, e, i + 1, t, env1, res1);
        }
    } else {
        assert(all[i] == e);
        if let Ok((t, env1, res1)) = c_expr(c, e, env, res) {
            un_c_stmts(c, all, i + 1, t, env1, res1);
        }
    }
}

// ---------------------------------------------------------------------------- fields

/// The type of a field is that of the first field of the name, and there is one exactly
/// where a field has the name.
pub proof fn law_field_types(fields: Seq<StructFieldV>, name: Seq<char>)
    ensures
        match field_of(fields, name, 0) {
            Some(t) => exists|k: int|
                0 <= k < fields.len() && (#[trigger] fields[k]).name == name && fields[k].ty == t
                    && forall|j: int| 0 <= j < k ==> (#[trigger] fields[j]).name != name,
            None => forall|k: int| 0 <= k < fields.len() ==> (#[trigger] fields[k]).name != name,
        },
{
    lemma_field(fields, name, 0);
}

proof fn lemma_field(fields: Seq<StructFieldV>, name: Seq<char>, i: int)
    requires
        0 <= i <= fields.len(),
        forall|j: int| 0 <= j < i ==> (#[trigger] fields[j]).name != name,
    ensures
        match field_of(fields, name, i) {
            Some(t) => exists|k: int|
                0 <= k < fields.len() && (#[trigger] fields[k]).name == name && fields[k].ty == t
                    && forall|j: int| 0 <= j < k ==> (#[trigger] fields[j]).name != name,
            None => forall|k: int| 0 <= k < fields.len() ==> (#[trigger] fields[k]).name != name,
        },
    decreases fields.len() - i,
{
    if i < fields.len() {
        if fields[i].name == name {
            assert(fields[i].ty == field_of(fields, name, i)->0);
        } else {
            lemma_field(fields, name, i + 1);
        }
    }
}

/// A dot access on a value of a struct that has the field is the field and has its type.
/// Else it is a call, of a function that is known and takes something; and where there is
/// none, an error.
pub proof fn law_dot_accesses(c: Known, obj: TypeV, field: Seq<char>, span: Span)
    ensures
        match c_dot(c, obj, field, span) {
            Ok((t, ResolvedAs::Field)) => field_type(c, obj, field) == Some(t),
            Ok((t, ResolvedAs::Call)) => field_type(c, obj, field) is None && (lookup(
                c.functions,
                field,
            ) matches Some(cands) && exists|k: int|
                0 <= k < cands.len() && (#[trigger] cands[k] matches TypeV::Function(sig)
                    && sig.params.len() > 0 && *sig.ret == t)),
            Err(_) => field_type(c, obj, field) is None && (lookup(c.functions, field) matches Some(
                cands,
            ) ==> forall|k: int|
                0 <= k < cands.len() ==> (#[trigger] cands[k] matches TypeV::Function(sig)
                    ==> sig.params.len() == 0)),
        },
{
    if let Some(cands) = lookup(c.functions, field) {
        lemma_method(cands, 0);
    }
}

proof fn lemma_method(cands: Seq<TypeV>, i: int)
    requires
        0 <= i <= cands.len(),
    ensures
        match crate::typeck::first_method(cands, i) {
            Some(t) => exists|k: int|
                i <= k < cands.len() && (#[trigger] cands[k] matches TypeV::Function(sig)
                    && sig.params.len() > 0 && *sig.ret == t),
            None => forall|k: int|
                i <= k < cands.len() ==> (#[trigger] cands[k] matches TypeV::Function(sig)
                    ==> sig.params.len() == 0),
        },
    decreases cands.len() - i,
{
    if i < cands.len() {
        match cands[i] {
            TypeV::Function(sig) => {
                if sig.params.len() == 0 {
                    lemma_method(cands, i + 1);
                }
            },
            _ => {
                lemma_method(cands, i + 1);
            },
        }
    }
}

// ---------------------------------------------------------------------- declarations

/// Every function of a module is known by its name, with the types of its parameters in
/// order and its result; and every parameter of it is a variable of its type.
pub proof fn law_functions_are_known(c: Known, items: Seq<ItemV>, k: int, f: FunctionV)
    requires
        0 <= k < items.len(),
        items[k] == ItemV::Function(f),
    ensures
        lookup(add_items(c, items, 0).functions, f.name) matches Some(cands) && exists|j: int|
            0 <= j < cands.len() && (#[trigger] cands[j] matches TypeV::Function(sig) && *sig.ret
                == f.return_type && sig.params.len() == f.params.len() && forall|n: int|
                0 <= n < f.params.len() ==> sig.params[n] == (#[trigger] f.params[n]).ty),
{
    lemma_known(c, items, 0, k, f);
    let cands = lookup(add_items(c, items, 0).functions, f.name)->0;
    let j = choose|j: int| 0 <= j < cands.len() && #[trigger] cands[j] == function_type(f);
    assert(cands[j] matches TypeV::Function(sig) && *sig.ret == f.return_type);
}

/// The function is among those that are known by its name.
pub open spec fn knows(c: Known, name: Seq<char>, t: TypeV) -> bool {
    lookup(c.functions, name) matches Some(cands) && exists|j: int|
        0 <= j < cands.len() && #[trigger] cands[j] == t
}

proof fn lemma_overload_kept(c: Known, name: Seq<char>, t: TypeV, other: Seq<char>, u: TypeV)
    requires
        knows(c, name, t),
    ensures
        knows(add_overload(c, other, u), name, t),
{
    let cands = lookup(c.functions, name)->0;
    let j = choose|j: int| 0 <= j < cands.len() && #[trigger] cands[j] == t;
    if other == name {
        assert(cands.push(u)[j] == t);
        assert(lookup(add_overload(c, other, u).functions, name)->0[j] == t);
    } else {
        assert(lookup(add_overload(c, other, u).functions, name)->0[j] == t);
    }
}

proof fn lemma_methods_kept(
    c: Known,
    tr: crate::model::TraitDefV,
    i: int,
    name: Seq<char>,
    t: TypeV,
)
    requires
        knows(c, name, t),
        0 <= i,
    ensures
        knows(add_methods(c, tr, i), name, t),
    decreases tr.methods.len() - i,
{
    if i < tr.methods.len() {
        let u = crate::typeck::method_type(tr, tr.methods[i]);
        lemma_overload_kept(c, name, t, tr.methods[i].name, u);
        lemma_methods_kept(add_overload(c, tr.methods[i].name, u), tr, i + 1, name, t);
    }
}

proof fn lemma_item_kept(c: Known, item: ItemV, name: Seq<char>, t: TypeV)
    requires
        knows(c, name, t),
    ensures
        knows(add_item(c, item), name, t),
{
    match item {
        ItemV::Trait(tr) => {
            lemma_methods_kept(c, tr, 0, name, t);
        },
        ItemV::Function(f) => {
            lemma_overload_kept(c, name, t, f.name, function_type(f));
        },
        _ => {},
    }
}

proof fn lemma_kept(c: Known, items: Seq<ItemV>, i: int, name: Seq<char>, t: TypeV)
    requires
        knows(c, name, t),
        0 <= i,
    ensures
        knows(add_items(c, items, i), name, t),
    decreases items.len() - i,
{
    if i < items.len() {
        lemma_item_kept(c, items[i], name, t);
        lemma_kept(add_item(c, items[i]), items, i + 1, name, t);
    }
}

proof fn lemma_known(c: Known, items: Seq<ItemV>, i: int, k: int, f: FunctionV)
    requires
        0 <= i <= k < items.len(),
        items[k] == ItemV::Function(f),
    ensures
        knows(add_items(c, items, i), f.name, function_type(f)),
    decreases k - i,
{
    let next = add_item(c, items[i]);
    if i < k {
        lemma_known(next, items, i + 1, k, f);
    } else {
        let cands = lookup(next.functions, f.name)->0;
        assert(cands[cands.len() - 1] == function_type(f));
        lemma_kept(next, items, i + 1, f.name, function_type(f));
    }
}

/// In the body of a function each parameter is a variable of its type, and nothing else is
/// known.
pub proof fn law_parameters_are_typed(ps: Seq<ParamV>, name: Seq<char>)
    requires
        forall|i: int, j: int|
            0 <= i < j < ps.len() ==> (#[trigger] ps[i]).name != (#[trigger] ps[j]).name,
    ensures
        forall|k: int|
            0 <= k < ps.len() ==> lookup(
                params_env(ps, 0, Map::empty()),
                (#[trigger] ps[k]).name,
            ) == Some(ps[k].ty),
        lookup(params_env(ps, 0, Map::empty()), name) is Some ==> exists|k: int|
            0 <= k < ps.len() && (#[trigger] ps[k]).name == name,
{
    assert forall|k: int| 0 <= k < ps.len() implies lookup(
        params_env(ps, 0, Map::empty()),
        (#[trigger] ps[k]).name,
    ) == Some(ps[k].ty) by {
        lemma_param_typed(ps, 0, Map::empty(), k);
    }
    lemma_only_params(ps, 0, Map::empty(), name);
}

proof fn lemma_param_typed(ps: Seq<ParamV>, i: int, env: Env, k: int)
    requires
        0 <= i <= ps.len(),
        0 <= k < ps.len(),
        forall|a: int, b: int|
            0 <= a < b < ps.len() ==> (#[trigger] ps[a]).name != (#[trigger] ps[b]).name,
        k < i ==> lookup(env, ps[k].name) == Some(ps[k].ty),
    ensures
        lookup(params_env(ps, i, env), ps[k].name) == Some(ps[k].ty),
    decreases ps.len() - i,
{
    if i < ps.len() {
        lemma_param_typed(ps, i + 1, env.insert(ps[i].name, ps[i].ty), k);
    }
}

proof fn lemma_only_params(ps: Seq<ParamV>, i: int, env: Env, name: Seq<char>)
    requires
        0 <= i <= ps.len(),
        env.contains_key(name) ==> exists|k: int| 0 <= k < ps.len() && (#[trigger] ps[k]).name == name,
    ensures
        lookup(params_env(ps, i, env), name) is Some ==> exists|k: int|
            0 <= k < ps.len() && (#[trigger] ps[k]).name == name,
    decreases ps.len() - i,
{
    if i < ps.len() {
        assert(ps[i].name == ps[i].name);
        lemma_only_params(ps, i + 1, env.insert(ps[i].name, ps[i].ty), name);
    }
}

// -------------------------------------------------------------------------- lowering

/// The names in a formula are variables.
pub open spec fn knows_names(env: Env, e: ExprV) -> bool
    decreases e,
{
    match e.kind {
        ExprKindV::Ident(name) => env.contains_key(name),
        ExprKindV::Binary { op, left, right } => knows_names(env, *left) && knows_names(env, *right),
        _ => true,
    }
}

/// Lowering leaves a formula as it is, and gives an operation in it the type that the
/// checker gives it, so that an instance made for it is one that takes it.
pub proof fn law_lowered_formulas_keep_their_types(
    c: Known,
    st: MonoV,
    e: ExprV,
    env: Env,
    res: Res,
    sub: Subst,
    exp: Option<TypeV>,
)
    requires
        is_formula(e),
        knows_names(env, e),
    ensures
        ({
            let (r, st1, env1) = l_expr(st, e, env, sub, exp);
            &&& st1 == st && env1 == env
            &&& r matches Ok((x, lt)) && x == e && (c_expr(c, e, env, res) matches Ok((t, env2, res2))
                ==> env2 == env && res2 == res && t == lt)
        }),
    decreases e,
{
    un_l_expr(st, e, env, sub, exp);
    un_c_expr(c, e, env, res);
    if let ExprKindV::Binary { op, left, right } = e.kind {
        law_lowered_formulas_keep_their_types(c, st, *left, env, res, sub, None);
        law_lowered_formulas_keep_their_types(c, st, *right, env, res, sub, None);
        un_l_double(st, e, env, sub);
        let lt = l_expr(st, *left, env, sub, None).0->Ok_0.1;
        let rt = l_expr(st, *right, env, sub, None).0->Ok_0.1;
        if let Ok((ct, _, _)) = c_expr(c, *left, env, res) {
            if let Ok((dt, _, _)) = c_expr(c, *right, env, res) {
                law_lowering_agrees(op, ct, left.span, dt, right.span, e.span);
            }
        }
    }
}

// --------------------------------------------------------------------------- modules

/// A module with a function whose body is refused is refused, wherever the function stands.
pub proof fn law_wrong_body_is_refused(
    c: Known,
    items: Seq<ItemV>,
    i: int,
    k: int,
    f: FunctionV,
    res: Res,
)
    requires
        0 <= i <= k < items.len(),
        items[k] == ItemV::Function(f),
        forall|r: Res| #[trigger]
            c_stmts(
                c,
                f.body.stmts,
                0,
                TypeV::Unit,
                params_env(f.params, 0, Map::empty()),
                r,
            ) is Err,
    ensures
        check_items(c, items, i, res) is Err,
    decreases k - i,
{
    if i < k {
        if let Ok(r) = check_item(c, items[i], res) {
            law_wrong_body_is_refused(c, items, i + 1, k, f, r);
        }
    } else {
        assert(check_item(c, items[i], res) is Err);
    }
}

/// A module with a variable whose value is not of its type is refused, wherever the variable
/// stands.
pub proof fn law_wrong_variable_is_refused(
    c: Known,
    items: Seq<ItemV>,
    i: int,
    k: int,
    v: VarDeclV,
    t: TypeV,
    value: ExprV,
    res: Res,
)
    requires
        0 <= i <= k < items.len(),
        items[k] == ItemV::VarDecl(v),
        v.ty == Some(t),
        v.value == Some(value),
        forall|r: Res|
            #[trigger] c_expr(c, value, Map::empty(), r) matches Ok((vt, _, _)) ==> !fits(
                c,
                t,
                value,
                vt,
            ),
    ensures
        check_items(c, items, i, res) is Err,
    decreases k - i,
{
    if i < k {
        if let Ok(r) = check_item(c, items[i], res) {
            law_wrong_variable_is_refused(c, items, i + 1, k, v, t, value, r);
        }
    } else {
        assert(check_item(c, items[i], res) is Err);
    }
}

} // verus!
