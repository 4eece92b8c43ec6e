//! Macro expansion as a function.
use vstd::prelude::*;

verus! {

use crate::ast::{binary_expr, block_expr, call_expr, type_text};
use crate::expand_rules::{
    un_y_arms, un_y_block, un_y_double, un_y_else, un_y_expr, un_y_exprs, un_y_fields, un_y_flow,
    un_y_guard, un_y_list, un_y_match, un_y_single, un_y_stmts,
};
use crate::host::{HostV, StopV};
use crate::import_macro::{imported, readable_text};
use crate::interp_model::{Ctx, Vars, e_expr, fails};
use crate::interpreter::ctx;
use crate::maps::lookup;
use crate::model::{
    BlockV, ExprKindV, ExprV, FunctionV, ImplBlockV, ItemV, MacroCallItemV, MacroDefV, MatchArmV,
    ParamV, TraitDefV, VarDeclV,
};
use crate::source::parsed;
use crate::text::{join_v, nat_text};
use crate::token::Span;
use crate::value::ValueV;

/// From names to macros.
pub type Macros = Map<Seq<char>, MacroDefV>;

/// From the parameters of a macro to what stands for them.
pub type Bindings = Map<Seq<char>, ExprV>;

/// A tree or why there is none.
pub type Made = Result<ExprV, StopV>;

/// A list of trees or why there is none.
pub type MadeList = Result<Seq<ExprV>, StopV>;

/// What macros are expanded with.
#[verifier::ext_equal]
pub struct Expansion {
    pub macros: Macros,
    /// Where modules are looked for.
    pub dirs: Seq<Seq<char>>,
    pub ctx: Ctx,
}

// ------------------------------------------------------------- macros that compute

/// Whether a macro body computes, and does not only rearrange trees.
pub open spec fn computes(e: ExprV) -> bool
    decreases e, 0int,
{
    match e.kind {
        ExprKindV::Block(b) => any_computes(b.stmts, 0),
        ExprKindV::Let { name, ty, value, is_mut } => computes(*value),
        ExprKindV::Call { .. } | ExprKindV::Binary { .. } | ExprKindV::Field { .. }
        | ExprKindV::For { .. } | ExprKindV::If { .. } | ExprKindV::Assign { .. } => true,
        _ => false,
    }
}

/// Whether one of the statements from `i` on computes.
pub open spec fn any_computes(stmts: Seq<ExprV>, i: int) -> bool
    decreases stmts, stmts.len() - i,
{
    if 0 <= i < stmts.len() {
        computes(stmts[i]) || any_computes(stmts, i + 1)
    } else {
        false
    }
}

/// An argument as a value.
pub open spec fn arg_value(e: ExprV) -> ValueV {
    match e.kind {
        ExprKindV::StringLiteral(s) => ValueV::String(s),
        ExprKindV::IntLiteral(n) => ValueV::Int(n),
        ExprKindV::BoolLiteral(b) => ValueV::Bool(b),
        ExprKindV::Ident(n) => ValueV::String(n),
        _ => ValueV::Nil,
    }
}

/// A value as a tree.
pub open spec fn value_expr(v: ValueV, span: Span) -> Made {
    match v {
        ValueV::String(s) => Ok(ExprV { kind: ExprKindV::StringLiteral(s), span }),
        ValueV::Int(n) => Ok(ExprV { kind: ExprKindV::IntLiteral(n), span }),
        ValueV::Bool(b) => Ok(ExprV { kind: ExprKindV::BoolLiteral(b), span }),
        ValueV::Items(xs) => Ok(ExprV { kind: ExprKindV::CompileTimeResult(xs), span }),
        ValueV::Nil => Ok(ExprV { kind: ExprKindV::NilLiteral, span }),
        _ => Err(fails("Cannot convert this value back to an expression"@, span)),
    }
}

/// A simple value that became a tree is the same value when the tree is an argument.
pub proof fn law_value_round_trip(v: ValueV, span: Span)
    requires
        v is String || v is Int || v is Bool || v is Nil,
    ensures
        value_expr(v, span) is Ok,
        arg_value(value_expr(v, span)->Ok_0) == v,
{
}

/// The parameters from `i` on with the values of the arguments.
pub open spec fn value_scope(params: Seq<Seq<char>>, args: Seq<ExprV>, i: int, env: Vars) -> Vars
    decreases params.len() - i,
{
    if 0 <= i < params.len() && i < args.len() {
        value_scope(params, args, i + 1, env.insert(params[i], arg_value(args[i])))
    } else {
        env
    }
}

/// The parameters from `i` on with the arguments.
pub open spec fn tree_scope(
    params: Seq<Seq<char>>,
    args: Seq<ExprV>,
    i: int,
    b: Bindings,
) -> Bindings
    decreases params.len() - i,
{
    if 0 <= i < params.len() && i < args.len() {
        tree_scope(params, args, i + 1, b.insert(params[i], args[i]))
    } else {
        b
    }
}

/// A name without the dollar sign before it, if there is one.
pub open spec fn undollared(n: Seq<char>) -> Option<Seq<char>> {
    if n.len() > 0 && n[0] == '$' {
        Some(n.subrange(1, n.len() as int))
    } else {
        None
    }
}

/// What a name behind a dollar sign is bound to.
pub open spec fn dollar_bound(n: Seq<char>, b: Bindings) -> Option<ExprV> {
    match undollared(n) {
        Some(m) => lookup(b, m),
        None => None,
    }
}

pub open spec fn unbound(what: Seq<char>, name: Seq<char>, span: Span) -> StopV {
    fails(what + name + "'"@, span)
}

/// The statements that a tree stands for among others: those of a block are spliced.
pub open spec fn flattened(e: ExprV) -> Seq<ExprV> {
    match e.kind {
        ExprKindV::Block(b) => b.stmts,
        _ => seq![e],
    }
}

/// A call in a macro body: `esc` gives its argument back.
pub open spec fn call_or_esc(func: ExprV, args: Seq<ExprV>, span: Span) -> ExprV {
    if func.kind == ExprKindV::Ident("esc"@) && args.len() == 1 {
        args[0]
    } else {
        call_expr(func, args, span)
    }
}

/// The name of a quoted function: one behind a dollar sign gives way to the identifier
/// that is bound to it.
pub open spec fn quoted_name(n: Seq<char>, b: Bindings) -> Seq<char> {
    match dollar_bound(n, b) {
        Some(e) => match e.kind {
            ExprKindV::Ident(m) => m,
            _ => n,
        },
        None => n,
    }
}

/// A call of a macro.
#[verifier::opaque]
pub open spec fn x_macro(
    x: Expansion,
    fuel: nat,
    m: MacroDefV,
    args: Seq<ExprV>,
    span: Span,
) -> Made
    decreases fuel, 0int, ExprKindV::NilLiteral, 0int,
{
    if m.params.len() != args.len() {
        Err(
            fails(
                "Macro '"@ + m.name + "' expects "@ + nat_text(m.params.len())
                    + " arguments, got "@ + nat_text(args.len()),
                span,
            ),
        )
    } else if computes(*m.body) {
        match e_expr(
            x.ctx,
            fuel,
            *m.body,
            value_scope(m.params, args, 0, Map::empty()),
            Seq::empty(),
        ).0 {
            Err(s) => Err(s),
            Ok(v) => value_expr(v, span),
        }
    } else if fuel == 0 {
        Err(StopV::OutOfFuel)
    } else {
        x_body(x, (fuel - 1) as nat, *m.body, tree_scope(m.params, args, 0, Map::empty()))
    }
}

/// A call of the macro of this name.
#[verifier::opaque]
pub open spec fn x_named(
    x: Expansion,
    fuel: nat,
    name: Seq<char>,
    what: Seq<char>,
    args: Seq<ExprV>,
    span: Span,
) -> Made
    decreases fuel, 1int, ExprKindV::NilLiteral, 0int,
{
    match lookup(x.macros, name) {
        Some(m) => x_macro(x, fuel, m, args, span),
        None => Err(unbound(what, name, span)),
    }
}

/// A tree of a macro body: the parameters are replaced and quotes are filled in.
#[verifier::opaque]
pub open spec fn x_body(x: Expansion, fuel: nat, e: ExprV, b: Bindings) -> Made
    decreases fuel, 2int, e, 1int,
{
    match e.kind {
        ExprKindV::Ident(name) => match dollar_bound(name, b) {
            Some(t) => Ok(t),
            None => match lookup(b, name) {
                Some(t) => Ok(t),
                None => Ok(e),
            },
        },
        ExprKindV::Quote(stmts) => match x_spliced(x, fuel, stmts, 0, b, Seq::empty()) {
            Err(s) => Err(s),
            Ok(es) => Ok(ExprV { kind: ExprKindV::Quote(es), span: e.span }),
        },
        ExprKindV::UnquoteIdent(name) => match lookup(b, name) {
            Some(t) => Ok(t),
            None => Err(unbound("Unbound variable in unquote: '"@, name, e.span)),
        },
        ExprKindV::Unquote(inner) => x_body(x, fuel, *inner, b),
        ExprKindV::Block(k) => match x_bodies(x, fuel, k.stmts, 0, b, Seq::empty()) {
            Err(s) => Err(s),
            Ok(es) => Ok(block_expr(es, e.span)),
        },
        ExprKindV::Call { func, args } => match x_body(x, fuel, *func, b) {
            Err(s) => Err(s),
            Ok(f) => match x_bodies(x, fuel, args, 0, b, Seq::empty()) {
                Err(s) => Err(s),
                Ok(es) => Ok(call_or_esc(f, es, e.span)),
            },
        },
        ExprKindV::Binary { op, left, right } => match x_body(x, fuel, *left, b) {
            Err(s) => Err(s),
            Ok(l) => match x_body(x, fuel, *right, b) {
                Err(s) => Err(s),
                Ok(r) => Ok(binary_expr(l, op, r, e.span)),
            },
        },
        ExprKindV::MacroCall { name, args } => match x_bodies(
            x,
            fuel,
            args,
            0,
            b,
            Seq::empty(),
        ) {
            Err(s) => Err(s),
            Ok(es) => x_named(
                x,
                fuel,
                name,
                "Undefined macro in macro body: '"@,
                es,
                e.span,
            ),
        },
        _ => Ok(e),
    }
}

/// The trees of a macro body from `i` on, behind those of `acc`.
#[verifier::opaque]
pub open spec fn x_bodies(
    x: Expansion,
    fuel: nat,
    es: Seq<ExprV>,
    i: int,
    b: Bindings,
    acc: Seq<ExprV>,
) -> MadeList
    decreases fuel, 2int, es, es.len() - i,
{
    if 0 <= i < es.len() {
        match x_body(x, fuel, es[i], b) {
            Err(s) => Err(s),
            Ok(t) => x_bodies(x, fuel, es, i + 1, b, acc.push(t)),
        }
    } else {
        Ok(acc)
    }
}

/// The quoted statements from `i` on with blocks spliced, behind those of `acc`.
#[verifier::opaque]
pub open spec fn x_spliced(
    x: Expansion,
    fuel: nat,
    es: Seq<ExprV>,
    i: int,
    b: Bindings,
    acc: Seq<ExprV>,
) -> MadeList
    decreases fuel, 2int, es, es.len() - i,
{
    if 0 <= i < es.len() {
        match x_quoted(x, fuel, es[i], b) {
            Err(s) => Err(s),
            Ok(t) => x_spliced(x, fuel, es, i + 1, b, acc + flattened(t)),
        }
    } else {
        Ok(acc)
    }
}

/// The quoted statements from `i` on, behind those of `acc`.
#[verifier::opaque]
pub open spec fn x_quotes(
    x: Expansion,
    fuel: nat,
    es: Seq<ExprV>,
    i: int,
    b: Bindings,
    acc: Seq<ExprV>,
) -> MadeList
    decreases fuel, 2int, es, es.len() - i,
{
    if 0 <= i < es.len() {
        match x_quoted(x, fuel, es[i], b) {
            Err(s) => Err(s),
            Ok(t) => x_quotes(x, fuel, es, i + 1, b, acc.push(t)),
        }
    } else {
        Ok(acc)
    }
}

/// A quoted tree: what is unquoted in it is filled in, all else stays.
#[verifier::opaque]
pub open spec fn x_quoted(x: Expansion, fuel: nat, e: ExprV, b: Bindings) -> Made
    decreases fuel, 2int, e, 1int,
{
    match e.kind {
        ExprKindV::Ident(name) => match dollar_bound(name, b) {
            Some(t) => Ok(t),
            None => Ok(e),
        },
        ExprKindV::UnquoteIdent(name) => match lookup(b, name) {
            Some(t) => Ok(t),
            None => Err(unbound("Unbound variable in quote: '"@, name, e.span)),
        },
        ExprKindV::Unquote(inner) => x_body(x, fuel, *inner, b),
        ExprKindV::Quote(stmts) => match x_quotes(x, fuel, stmts, 0, b, Seq::empty()) {
            Err(s) => Err(s),
            Ok(es) => Ok(ExprV { kind: ExprKindV::Quote(es), span: e.span }),
        },
        ExprKindV::Block(k) => match x_quotes(x, fuel, k.stmts, 0, b, Seq::empty()) {
            Err(s) => Err(s),
            Ok(es) => Ok(block_expr(es, e.span)),
        },
        ExprKindV::Call { func, args } => match x_quoted(x, fuel, *func, b) {
            Err(s) => Err(s),
            Ok(f) => match x_quotes(x, fuel, args, 0, b, Seq::empty()) {
                Err(s) => Err(s),
                Ok(es) => Ok(call_expr(f, es, e.span)),
            },
        },
        ExprKindV::Binary { op, left, right } => match x_quoted(x, fuel, *left, b) {
            Err(s) => Err(s),
            Ok(l) => match x_quoted(x, fuel, *right, b) {
                Err(s) => Err(s),
                Ok(r) => Ok(binary_expr(l, op, r, e.span)),
            },
        },
        ExprKindV::Return(None) => Ok(e),
        ExprKindV::Return(Some(v)) => match x_quoted(x, fuel, *v, b) {
            Err(s) => Err(s),
            Ok(t) => Ok(
                ExprV { kind: ExprKindV::Return(Some(Box::new(t))), span: e.span },
            ),
        },
        ExprKindV::Let { name, ty, value, is_mut } => match x_quoted(x, fuel, *value, b) {
            Err(s) => Err(s),
            Ok(t) => Ok(
                ExprV {
                    kind: ExprKindV::Let { name, ty, value: Box::new(t), is_mut },
                    span: e.span,
                },
            ),
        },
        ExprKindV::If { cond, then_branch, else_branch } => x_quoted_if(x, fuel, e, b),
        ExprKindV::MacroCall { name, args } => match x_quotes(
            x,
            fuel,
            args,
            0,
            b,
            Seq::empty(),
        ) {
            Err(s) => Err(s),
            Ok(es) => x_named(x, fuel, name, "Undefined macro in quote: '"@, es, e.span),
        },
        ExprKindV::FuncDef(f) => match x_quotes(x, fuel, f.body.stmts, 0, b, Seq::empty()) {
            Err(s) => Err(s),
            Ok(es) => Ok(
                ExprV {
                    kind: ExprKindV::FuncDef(
                        FunctionV {
                            name: quoted_name(f.name, b),
                            body: BlockV { stmts: es, span: f.body.span },
                            ..f
                        },
                    ),
                    span: e.span,
                },
            ),
        },
        _ => Ok(e),
    }
}

/// A quoted conditional. A second branch that cannot be filled in is left out.
#[verifier::opaque]
pub open spec fn x_quoted_if(x: Expansion, fuel: nat, e: ExprV, b: Bindings) -> Made
    decreases fuel, 2int, e, 0int,
{
    match e.kind {
        ExprKindV::If { cond, then_branch, else_branch } => match x_quotes(
            x,
            fuel,
            then_branch.stmts,
            0,
            b,
            Seq::empty(),
        ) {
            Err(s) => Err(s),
            Ok(ts) => match x_quoted_else(x, fuel, else_branch, b) {
                Err(s) => Err(s),
                Ok(eb) => match x_quoted(x, fuel, *cond, b) {
                    Err(s) => Err(s),
                    Ok(c) => Ok(
                        ExprV {
                            kind: ExprKindV::If {
                                cond: Box::new(c),
                                then_branch: BlockV { stmts: ts, span: then_branch.span },
                                else_branch: eb,
                            },
                            span: e.span,
                        },
                    ),
                },
            },
        },
        _ => Ok(e),
    }
}

/// The second branch of a quoted conditional.
#[verifier::opaque]
pub open spec fn x_quoted_else(x: Expansion, fuel: nat, o: Option<BlockV>, b: Bindings) -> Result<
    Option<BlockV>,
    StopV,
>
    decreases fuel, 2int, o, 0int,
{
    match o {
        None => Ok(None),
        Some(k) => match x_quotes(x, fuel, k.stmts, 0, b, Seq::empty()) {
            Ok(es) => Ok(Some(BlockV { stmts: es, span: k.span })),
            Err(StopV::Error(_)) => Ok(None),
            Err(s) => Err(s),
        },
    }
}

// ----------------------------------------------------------------------- expressions

pub open spec fn undefined_macro() -> Seq<char> {
    "Undefined macro: '"@
}

/// An expression with its macros expanded.
#[verifier::opaque]
pub open spec fn y_expr(x: Expansion, fuel: nat, e: ExprV) -> Made
    decreases e, 1int,
{
    match e.kind {
        ExprKindV::MacroCall { name, args } => match y_exprs(x, fuel, args, 0, Seq::empty()) {
            Err(s) => Err(s),
            Ok(es) => x_named(x, fuel, name, undefined_macro(), es, e.span),
        },
        ExprKindV::Block(b) => match y_block(x, fuel, b) {
            Err(s) => Err(s),
            Ok(k) => Ok(ExprV { kind: ExprKindV::Block(k), span: e.span }),
        },
        ExprKindV::Unary { .. } => y_single(x, fuel, e),
        ExprKindV::Field { .. } => y_single(x, fuel, e),
        ExprKindV::DotAccess { .. } => y_single(x, fuel, e),
        ExprKindV::NamedArg { .. } => y_single(x, fuel, e),
        ExprKindV::Lambda { .. } => y_single(x, fuel, e),
        ExprKindV::Let { .. } => y_single(x, fuel, e),
        ExprKindV::Return(Some(_)) => y_single(x, fuel, e),
        ExprKindV::EnumCtor { .. } => y_single(x, fuel, e),
        ExprKindV::Binary { .. } => y_double(x, fuel, e),
        ExprKindV::Index { .. } => y_double(x, fuel, e),
        ExprKindV::Assign { .. } => y_double(x, fuel, e),
        ExprKindV::AssignOp { .. } => y_double(x, fuel, e),
        ExprKindV::Call { .. } => y_list(x, fuel, e),
        ExprKindV::GcNew { .. } => y_list(x, fuel, e),
        ExprKindV::StructLit { .. } => y_list(x, fuel, e),
        ExprKindV::If { .. } => y_flow(x, fuel, e),
        ExprKindV::While { .. } => y_flow(x, fuel, e),
        ExprKindV::For { .. } => y_flow(x, fuel, e),
        ExprKindV::Match { .. } => y_match(x, fuel, e),
        ExprKindV::Unquote(_) => Err(fails("$unquote outside of quote context"@, e.span)),
        ExprKindV::UnquoteIdent(_) => Err(fails("$unquote outside of quote context"@, e.span)),
        _ => Ok(e),
    }
}

/// The expressions from `i` on, behind those of `acc`.
#[verifier::opaque]
pub open spec fn y_exprs(
    x: Expansion,
    fuel: nat,
    es: Seq<ExprV>,
    i: int,
    acc: Seq<ExprV>,
) -> MadeList
    decreases es, es.len() - i,
{
    if 0 <= i < es.len() {
        match y_expr(x, fuel, es[i]) {
            Err(s) => Err(s),
            Ok(t) => y_exprs(x, fuel, es, i + 1, acc.push(t)),
        }
    } else {
        Ok(acc)
    }
}

/// The statements from `i` on with blocks spliced, behind those of `acc`.
#[verifier::opaque]
pub open spec fn y_stmts(
    x: Expansion,
    fuel: nat,
    es: Seq<ExprV>,
    i: int,
    acc: Seq<ExprV>,
) -> MadeList
    decreases es, es.len() - i,
{
    if 0 <= i < es.len() {
        match y_expr(x, fuel, es[i]) {
            Err(s) => Err(s),
            Ok(t) => y_stmts(x, fuel, es, i + 1, acc + flattened(t)),
        }
    } else {
        Ok(acc)
    }
}

/// A block.
#[verifier::opaque]
pub open spec fn y_block(x: Expansion, fuel: nat, b: BlockV) -> Result<BlockV, StopV>
    decreases b, 1int,
{
    match y_stmts(x, fuel, b.stmts, 0, Seq::empty()) {
        Err(s) => Err(s),
        Ok(es) => Ok(BlockV { stmts: es, span: b.span }),
    }
}

/// The values of fields from `i` on, behind those of `acc`.
#[verifier::opaque]
pub open spec fn y_fields(
    x: Expansion,
    fuel: nat,
    fs: Seq<(Seq<char>, ExprV)>,
    i: int,
    acc: Seq<(Seq<char>, ExprV)>,
) -> Result<Seq<(Seq<char>, ExprV)>, StopV>
    decreases fs, fs.len() - i,
{
    if 0 <= i < fs.len() {
        match y_expr(x, fuel, fs[i].1) {
            Err(s) => Err(s),
            Ok(t) => y_fields(x, fuel, fs, i + 1, acc.push((fs[i].0, t))),
        }
    } else {
        Ok(acc)
    }
}

/// The part of an expression that has one.
pub open spec fn only_part(e: ExprV) -> Option<ExprV> {
    match e.kind {
        ExprKindV::Unary { op, expr } => Some(*expr),
        ExprKindV::Field { object, field } => Some(*object),
        ExprKindV::DotAccess { object, field } => Some(*object),
        ExprKindV::NamedArg { name, value } => Some(*value),
        ExprKindV::Lambda { params, return_type, body } => Some(*body),
        ExprKindV::Let { name, ty, value, is_mut } => Some(*value),
        ExprKindV::Return(Some(v)) => Some(*v),
        ExprKindV::EnumCtor { path, case, arg: Some(a) } => Some(*a),
        _ => None,
    }
}

/// An expression of one part with the part replaced.
pub open spec fn with_part(k: ExprKindV, t: ExprV) -> ExprKindV {
    match k {
        ExprKindV::Unary { op, expr } => ExprKindV::Unary { op, expr: Box::new(t) },
        ExprKindV::Field { object, field } => ExprKindV::Field { object: Box::new(t), field },
        ExprKindV::DotAccess { object, field } => ExprKindV::DotAccess {
            object: Box::new(t),
            field,
        },
        ExprKindV::NamedArg { name, value } => ExprKindV::NamedArg { name, value: Box::new(t) },
        ExprKindV::Lambda { params, return_type, body } => ExprKindV::Lambda {
            params,
            return_type,
            body: Box::new(t),
        },
        ExprKindV::Let { name, ty, value, is_mut } => ExprKindV::Let {
            name,
            ty,
            value: Box::new(t),
            is_mut,
        },
        ExprKindV::Return(_) => ExprKindV::Return(Some(Box::new(t))),
        ExprKindV::EnumCtor { path, case, arg } => ExprKindV::EnumCtor {
            path,
            case,
            arg: Some(Box::new(t)),
        },
        _ => k,
    }
}

/// An expression of one part.
#[verifier::opaque]
pub open spec fn y_single(x: Expansion, fuel: nat, e: ExprV) -> Made
    decreases e, 0int,
{
    match only_part(e) {
        None => Ok(e),
        Some(p) => match y_expr(x, fuel, p) {
            Err(s) => Err(s),
            Ok(t) => Ok(ExprV { kind: with_part(e.kind, t), span: e.span }),
        },
    }
}

/// The parts of an expression that has two.
pub open spec fn both_parts(e: ExprV) -> Option<(ExprV, ExprV)> {
    match e.kind {
        ExprKindV::Binary { op, left, right } => Some((*left, *right)),
        ExprKindV::Index { object, index } => Some((*object, *index)),
        ExprKindV::Assign { target, value } => Some((*target, *value)),
        ExprKindV::AssignOp { target, op, value } => Some((*target, *value)),
        _ => None,
    }
}

/// An expression of two parts with the parts replaced.
pub open spec fn with_parts(k: ExprKindV, s: ExprV, t: ExprV) -> ExprKindV {
    match k {
        ExprKindV::Binary { op, left, right } => ExprKindV::Binary {
            op,
            left: Box::new(s),
            right: Box::new(t),
        },
        ExprKindV::Index { object, index } => ExprKindV::Index {
            object: Box::new(s),
            index: Box::new(t),
        },
        ExprKindV::Assign { target, value } => ExprKindV::Assign {
            target: Box::new(s),
            value: Box::new(t),
        },
        ExprKindV::AssignOp { target, op, value } => ExprKindV::AssignOp {
            target: Box::new(s),
            op,
            value: Box::new(t),
        },
        _ => k,
    }
}

/// An expression of two parts.
#[verifier::opaque]
pub open spec fn y_double(x: Expansion, fuel: nat, e: ExprV) -> Made
    decreases e, 0int,
{
    match both_parts(e) {
        None => Ok(e),
        Some((p, q)) => match y_expr(x, fuel, p) {
            Err(s) => Err(s),
            Ok(a) => match y_expr(x, fuel, q) {
                Err(s) => Err(s),
                Ok(b) => Ok(ExprV { kind: with_parts(e.kind, a, b), span: e.span }),
            },
        },
    }
}

/// An expression with a list of parts.
#[verifier::opaque]
pub open spec fn y_list(x: Expansion, fuel: nat, e: ExprV) -> Made
    decreases e, 0int,
{
    match e.kind {
        ExprKindV::Call { func, args } => match y_expr(x, fuel, *func) {
            Err(s) => Err(s),
            Ok(f) => match y_exprs(x, fuel, args, 0, Seq::empty()) {
                Err(s) => Err(s),
                Ok(es) => Ok(call_expr(f, es, e.span)),
            },
        },
        ExprKindV::GcNew { ty, fields } => match y_fields(x, fuel, fields, 0, Seq::empty()) {
            Err(s) => Err(s),
            Ok(fs) => Ok(ExprV { kind: ExprKindV::GcNew { ty, fields: fs }, span: e.span }),
        },
        ExprKindV::StructLit { path, fields } => match y_fields(
            x,
            fuel,
            fields,
            0,
            Seq::empty(),
        ) {
            Err(s) => Err(s),
            Ok(fs) => Ok(
                ExprV { kind: ExprKindV::StructLit { path, fields: fs }, span: e.span },
            ),
        },
        _ => Ok(e),
    }
}

/// A conditional or a loop: the blocks first.
#[verifier::opaque]
pub open spec fn y_flow(x: Expansion, fuel: nat, e: ExprV) -> Made
    decreases e, 0int,
{
    match e.kind {
        ExprKindV::If { cond, then_branch, else_branch } => match y_block(x, fuel, then_branch) {
            Err(s) => Err(s),
            Ok(tb) => match y_else(x, fuel, else_branch) {
                Err(s) => Err(s),
                Ok(eb) => match y_expr(x, fuel, *cond) {
                    Err(s) => Err(s),
                    Ok(c) => Ok(
                        ExprV {
                            kind: ExprKindV::If {
                                cond: Box::new(c),
                                then_branch: tb,
                                else_branch: eb,
                            },
                            span: e.span,
                        },
                    ),
                },
            },
        },
        ExprKindV::While { cond, body } => match y_block(x, fuel, body) {
            Err(s) => Err(s),
            Ok(b) => match y_expr(x, fuel, *cond) {
                Err(s) => Err(s),
                Ok(c) => Ok(
                    ExprV {
                        kind: ExprKindV::While { cond: Box::new(c), body: b },
                        span: e.span,
                    },
                ),
            },
        },
        ExprKindV::For { var, iter, body } => match y_block(x, fuel, body) {
            Err(s) => Err(s),
            Ok(b) => match y_expr(x, fuel, *iter) {
                Err(s) => Err(s),
                Ok(c) => Ok(
                    ExprV {
                        kind: ExprKindV::For { var, iter: Box::new(c), body: b },
                        span: e.span,
                    },
                ),
            },
        },
        _ => Ok(e),
    }
}

/// The second branch of a conditional.
#[verifier::opaque]
pub open spec fn y_else(x: Expansion, fuel: nat, o: Option<BlockV>) -> Result<Option<BlockV>, StopV>
    decreases o, 0int,
{
    match o {
        None => Ok(None),
        Some(b) => match y_block(x, fuel, b) {
            Err(s) => Err(s),
            Ok(k) => Ok(Some(k)),
        },
    }
}

/// A match.
#[verifier::opaque]
pub open spec fn y_match(x: Expansion, fuel: nat, e: ExprV) -> Made
    decreases e, 0int,
{
    match e.kind {
        ExprKindV::Match { expr, arms } => match y_expr(x, fuel, *expr) {
            Err(s) => Err(s),
            Ok(m) => match y_arms(x, fuel, arms, 0, Seq::empty()) {
                Err(s) => Err(s),
                Ok(ks) => Ok(
                    ExprV {
                        kind: ExprKindV::Match { expr: Box::new(m), arms: ks },
                        span: e.span,
                    },
                ),
            },
        },
        _ => Ok(e),
    }
}

/// The arms from `i` on, behind those of `acc`.
#[verifier::opaque]
pub open spec fn y_arms(
    x: Expansion,
    fuel: nat,
    arms: Seq<MatchArmV>,
    i: int,
    acc: Seq<MatchArmV>,
) -> Result<Seq<MatchArmV>, StopV>
    decreases arms, arms.len() - i,
{
    if 0 <= i < arms.len() {
        match y_guard(x, fuel, arms[i].guard) {
            Err(s) => Err(s),
            Ok(guard) => match y_expr(x, fuel, *arms[i].body) {
                Err(s) => Err(s),
                Ok(t) => y_arms(
                    x,
                    fuel,
                    arms,
                    i + 1,
                    acc.push(
                        MatchArmV { pattern: arms[i].pattern, guard, body: Box::new(t) },
                    ),
                ),
            },
        }
    } else {
        Ok(acc)
    }
}

/// A guard, if there is one.
#[verifier::opaque]
pub open spec fn y_guard(x: Expansion, fuel: nat, g: Option<Box<ExprV>>) -> Result<
    Option<Box<ExprV>>,
    StopV,
>
    decreases g, 0int,
{
    match g {
        None => Ok(None),
        Some(e) => match y_expr(x, fuel, *e) {
            Err(s) => Err(s),
            Ok(t) => Ok(Some(Box::new(t))),
        },
    }
}

// ---------------------------------------------------------------------------- modules

/// The items that statements from `i` on declare, behind those of `acc`.
#[verifier::opaque]
pub open spec fn declared(stmts: Seq<ExprV>, i: int, acc: Seq<ItemV>) -> Seq<ItemV>
    decreases stmts, stmts.len() - i,
{
    if 0 <= i < stmts.len() {
        declared(stmts, i + 1, acc + declared_by(stmts[i]))
    } else {
        acc
    }
}

/// The items that a statement declares.
#[verifier::opaque]
pub open spec fn declared_by(e: ExprV) -> Seq<ItemV>
    decreases e, 0int,
{
    match e.kind {
        ExprKindV::FuncDef(f) => seq![ItemV::Function(f)],
        ExprKindV::Let { name, ty, value, is_mut } => seq![
            ItemV::VarDecl(VarDeclV { name, ty, value: Some(*value), is_mut, span: e.span }),
        ],
        ExprKindV::Quote(inner) => declared(inner, 0, Seq::empty()),
        ExprKindV::Block(b) => declared(b.stmts, 0, Seq::empty()),
        _ => Seq::empty(),
    }
}

/// The items that the result of a macro stands for.
pub open spec fn result_items(e: ExprV) -> Seq<ItemV> {
    match e.kind {
        ExprKindV::Block(b) => declared(b.stmts, 0, Seq::empty()),
        ExprKindV::FuncDef(f) => seq![ItemV::Function(f)],
        ExprKindV::Quote(stmts) => declared(stmts, 0, Seq::empty()),
        ExprKindV::CompileTimeResult(items) => items,
        _ => Seq::empty(),
    }
}

/// The items that a call of a macro gives.
pub open spec fn called_items(
    x: Expansion,
    fuel: nat,
    m: MacroDefV,
    args: Seq<ExprV>,
    span: Span,
) -> Result<Seq<ItemV>, StopV> {
    match x_macro(x, fuel, m, args, span) {
        Err(s) => Err(s),
        Ok(e) => Ok(result_items(e)),
    }
}

/// The items that a call of a macro among the items of a module gives. An `import` macro
/// of the program is used where it takes that many arguments.
pub open spec fn y_call(x: Expansion, fuel: nat, c: MacroCallItemV) -> Result<Seq<ItemV>, StopV> {
    match lookup(x.macros, c.name) {
        Some(m) => if c.name == "import"@ && m.params.len() != c.args.len() {
            imported(x.ctx.host, x.dirs, c.args, c.span)
        } else {
            called_items(x, fuel, m, c.args, c.span)
        },
        None => if c.name == "import"@ {
            imported(x.ctx.host, x.dirs, c.args, c.span)
        } else {
            Err(unbound(undefined_macro(), c.name, c.span))
        },
    }
}

/// The macros with those among the items from `i` on.
pub open spec fn macros_from(items: Seq<ItemV>, i: int, m: Macros) -> Macros
    decreases items.len() - i,
{
    if 0 <= i < items.len() {
        macros_from(
            items,
            i + 1,
            match items[i] {
                ItemV::Macro(d) => m.insert(d.name, d),
                _ => m,
            },
        )
    } else {
        m
    }
}

/// The texts of the types of the parameters.
pub open spec fn param_type_texts(ps: Seq<ParamV>) -> Seq<Seq<char>> {
    Seq::new(ps.len(), |i: int| type_text(ps[i].ty))
}

/// By what an item is recognized as one that was brought before.
pub open spec fn signature(i: ItemV) -> Option<Seq<char>> {
    match i {
        ItemV::Function(f) => Some(
            "fn "@ + f.name + "("@ + join_v(param_type_texts(f.params), ","@) + ")"@,
        ),
        ItemV::Struct(s) => Some("struct "@ + s.name),
        ItemV::Enum(e) => Some("enum "@ + e.name),
        ItemV::TypeAlias(t) => Some("type "@ + t.name),
        ItemV::VarDecl(v) => Some("var "@ + v.name),
        _ => None,
    }
}

/// The signatures so far and the items so far, with the items from `i` on that were not
/// brought before.
pub open spec fn spliced_in(
    more: Seq<ItemV>,
    i: int,
    sigs: Seq<Seq<char>>,
    acc: Seq<ItemV>,
) -> (Seq<Seq<char>>, Seq<ItemV>)
    decreases more.len() - i,
{
    if 0 <= i < more.len() {
        match signature(more[i]) {
            Some(g) => if sigs.contains(g) {
                spliced_in(more, i + 1, sigs, acc)
            } else {
                spliced_in(more, i + 1, sigs.push(g), acc.push(more[i]))
            },
            None => spliced_in(more, i + 1, sigs, acc.push(more[i])),
        }
    } else {
        (sigs, acc)
    }
}

/// A variable with its value expanded.
pub open spec fn y_var(x: Expansion, fuel: nat, v: VarDeclV) -> Result<VarDeclV, StopV> {
    match v.value {
        None => Ok(v),
        Some(e) => match y_expr(x, fuel, e) {
            Err(s) => Err(s),
            Ok(t) => Ok(VarDeclV { value: Some(t), ..v }),
        },
    }
}

/// A function with its body expanded.
pub open spec fn y_function(x: Expansion, fuel: nat, f: FunctionV) -> Result<FunctionV, StopV> {
    match y_block(x, fuel, f.body) {
        Err(s) => Err(s),
        Ok(body) => Ok(FunctionV { body, ..f }),
    }
}

/// The methods from `i` on with their bodies expanded, behind those of `acc`.
pub open spec fn y_methods(
    x: Expansion,
    fuel: nat,
    ms: Seq<FunctionV>,
    i: int,
    acc: Seq<FunctionV>,
) -> Result<Seq<FunctionV>, StopV>
    decreases ms.len() - i,
{
    if 0 <= i < ms.len() {
        match y_function(x, fuel, ms[i]) {
            Err(s) => Err(s),
            Ok(g) => y_methods(x, fuel, ms, i + 1, acc.push(g)),
        }
    } else {
        Ok(acc)
    }
}

/// The items from `i` on expanded, behind those of `acc`, and the macros known after them.
/// Items that calls of macros bring twice come once.
pub open spec fn y_items(
    x: Expansion,
    fuel: nat,
    items: Seq<ItemV>,
    i: int,
    sigs: Seq<Seq<char>>,
    acc: Seq<ItemV>,
) -> (Result<Seq<ItemV>, StopV>, Macros)
    decreases items.len() - i,
{
    if 0 <= i < items.len() {
        match items[i] {
            ItemV::Macro(_) => y_items(x, fuel, items, i + 1, sigs, acc),
            ItemV::MacroCall(c) => match y_call(x, fuel, c) {
                Err(s) => (Err(s), x.macros),
                Ok(more) => {
                    let (sigs1, acc1) = spliced_in(more, 0, sigs, acc);
                    y_items(
                        Expansion { macros: macros_from(more, 0, x.macros), ..x },
                        fuel,
                        items,
                        i + 1,
                        sigs1,
                        acc1,
                    )
                },
            },
            ItemV::Function(f) => match y_function(x, fuel, f) {
                Err(s) => (Err(s), x.macros),
                Ok(g) => y_items(x, fuel, items, i + 1, sigs, acc.push(ItemV::Function(g))),
            },
            ItemV::VarDecl(v) => match y_var(x, fuel, v) {
                Err(s) => (Err(s), x.macros),
                Ok(w) => y_items(x, fuel, items, i + 1, sigs, acc.push(ItemV::VarDecl(w))),
            },
            ItemV::Trait(t) => match y_methods(x, fuel, t.methods, 0, Seq::empty()) {
                Err(s) => (Err(s), x.macros),
                Ok(methods) => y_items(
                    x,
                    fuel,
                    items,
                    i + 1,
                    sigs,
                    acc.push(ItemV::Trait(TraitDefV { methods, ..t })),
                ),
            },
            ItemV::Impl(b) => match y_methods(x, fuel, b.methods, 0, Seq::empty()) {
                Err(s) => (Err(s), x.macros),
                Ok(methods) => y_items(
                    x,
                    fuel,
                    items,
                    i + 1,
                    sigs,
                    acc.push(ItemV::Impl(ImplBlockV { methods, ..b })),
                ),
            },
            _ => y_items(x, fuel, items, i + 1, sigs, acc.push(items[i])),
        }
    } else {
        (Ok(acc), x.macros)
    }
}

/// The items of a module expanded, and the macros known after it.
pub open spec fn y_module(x: Expansion, fuel: nat, items: Seq<ItemV>) -> (
    Result<Seq<ItemV>, StopV>,
    Macros,
) {
    y_items(
        Expansion { macros: macros_from(items, 0, x.macros), ..x },
        fuel,
        items,
        0,
        Seq::empty(),
        Seq::empty(),
    )
}

/// The first macro named `import` from `i` on.
pub open spec fn import_macro_in(items: Seq<ItemV>, i: int) -> Option<MacroDefV>
    decreases items.len() - i,
{
    if 0 <= i < items.len() {
        match items[i] {
            ItemV::Macro(m) => if m.name == "import"@ {
                Some(m)
            } else {
                import_macro_in(items, i + 1)
            },
            _ => import_macro_in(items, i + 1),
        }
    } else {
        None
    }
}

/// The macros to begin with: the `import` of `std/compile/import.nv`, where there is one.
pub open spec fn first_macros(h: HostV, dirs: Seq<Seq<char>>) -> Result<Macros, StopV> {
    match readable_text(h, dirs, "std/compile/import.nv"@) {
        Err(s) => Err(s),
        Ok(None) => Ok(Map::empty()),
        Ok(Some(src)) => match parsed(src, "import"@) {
            Err(_) => Ok(Map::empty()),
            Ok(m) => match import_macro_in(m.items, 0) {
                Some(d) => Ok(map!["import"@ => d]),
                None => Ok(Map::empty()),
            },
        },
    }
}

// ---------------------------------------------------------------- nothing left to expand

/// No macro is called in the expression, but for quotes and for functions that it defines.
pub open spec fn no_calls(e: ExprV) -> bool
    decreases e, 1int,
{
    match e.kind {
        ExprKindV::MacroCall { name, args } => false,
        ExprKindV::Block(b) => no_calls_all(b.stmts),
        ExprKindV::Unary { op, expr } => no_calls(*expr),
        ExprKindV::Field { object, field } => no_calls(*object),
        ExprKindV::DotAccess { object, field } => no_calls(*object),
        ExprKindV::NamedArg { name, value } => no_calls(*value),
        ExprKindV::Lambda { params, return_type, body } => no_calls(*body),
        ExprKindV::Let { name, ty, value, is_mut } => no_calls(*value),
        ExprKindV::Return(Some(v)) => no_calls(*v),
        ExprKindV::EnumCtor { path, case, arg: Some(a) } => no_calls(*a),
        ExprKindV::Binary { op, left, right } => no_calls(*left) && no_calls(*right),
        ExprKindV::Index { object, index } => no_calls(*object) && no_calls(*index),
        ExprKindV::Assign { target, value } => no_calls(*target) && no_calls(*value),
        ExprKindV::AssignOp { target, op, value } => no_calls(*target) && no_calls(*value),
        ExprKindV::Call { func, args } => no_calls(*func) && no_calls_all(args),
        ExprKindV::GcNew { ty, fields } => no_calls_fields(fields),
        ExprKindV::StructLit { path, fields } => no_calls_fields(fields),
        ExprKindV::If { cond, then_branch, else_branch } => {
            &&& no_calls(*cond)
            &&& no_calls_all(then_branch.stmts)
            &&& else_branch matches Some(b) ==> no_calls_all(b.stmts)
        },
        ExprKindV::While { cond, body } => no_calls(*cond) && no_calls_all(body.stmts),
        ExprKindV::For { var, iter, body } => no_calls(*iter) && no_calls_all(body.stmts),
        ExprKindV::Match { expr, arms } => no_calls(*expr) && no_calls_arms(arms),
        _ => true,
    }
}

/// Each of the expressions.
pub open spec fn no_calls_all(es: Seq<ExprV>) -> bool
    decreases es, 0int,
{
    forall|i: int| 0 <= i < es.len() ==> no_calls(#[trigger] es[i])
}

/// Each value of the fields.
pub open spec fn no_calls_fields(fs: Seq<(Seq<char>, ExprV)>) -> bool
    decreases fs, 0int,
{
    forall|i: int| 0 <= i < fs.len() ==> no_calls((#[trigger] fs[i]).1)
}

/// Each arm with its guard.
pub open spec fn no_calls_arms(arms: Seq<MatchArmV>) -> bool
    decreases arms, 0int,
{
    forall|i: int|
        0 <= i < arms.len() ==> no_calls(*(#[trigger] arms[i]).body) && (
        arms[i].guard matches Some(g) ==> no_calls(*g))
}

/// Every macro that is called in the expression has an answer in which no macro is called,
/// and nothing is unquoted outside a quote.
pub open spec fn answers(x: Expansion, fuel: nat, e: ExprV) -> bool
    decreases e, 1int,
{
    match e.kind {
        ExprKindV::MacroCall { name, args } => answers_all(x, fuel, args) && has_answer(
            x,
            fuel,
            name,
            args.len(),
        ),
        ExprKindV::Block(b) => answers_all(x, fuel, b.stmts),
        ExprKindV::Unary { op, expr } => answers(x, fuel, *expr),
        ExprKindV::Field { object, field } => answers(x, fuel, *object),
        ExprKindV::DotAccess { object, field } => answers(x, fuel, *object),
        ExprKindV::NamedArg { name, value } => answers(x, fuel, *value),
        ExprKindV::Lambda { params, return_type, body } => answers(x, fuel, *body),
        ExprKindV::Let { name, ty, value, is_mut } => answers(x, fuel, *value),
        ExprKindV::Return(Some(v)) => answers(x, fuel, *v),
        ExprKindV::EnumCtor { path, case, arg: Some(a) } => answers(x, fuel, *a),
        ExprKindV::Binary { op, left, right } => answers(x, fuel, *left) && answers(x, fuel, *right),
        ExprKindV::Index { object, index } => answers(x, fuel, *object) && answers(x, fuel, *index),
        ExprKindV::Assign { target, value } => answers(x, fuel, *target) && answers(x, fuel, *value),
        ExprKindV::AssignOp { target, op, value } => answers(x, fuel, *target) && answers(
            x,
            fuel,
            *value,
        ),
        ExprKindV::Call { func, args } => answers(x, fuel, *func) && answers_all(x, fuel, args),
        ExprKindV::GcNew { ty, fields } => answers_fields(x, fuel, fields),
        ExprKindV::StructLit { path, fields } => answers_fields(x, fuel, fields),
        ExprKindV::If { cond, then_branch, else_branch } => {
            &&& answers(x, fuel, *cond)
            &&& answers_all(x, fuel, then_branch.stmts)
            &&& else_branch matches Some(b) ==> answers_all(x, fuel, b.stmts)
        },
        ExprKindV::While { cond, body } => answers(x, fuel, *cond) && answers_all(
            x,
            fuel,
            body.stmts,
        ),
        ExprKindV::For { var, iter, body } => answers(x, fuel, *iter) && answers_all(
            x,
            fuel,
            body.stmts,
        ),
        ExprKindV::Match { expr, arms } => answers(x, fuel, *expr) && answers_arms(x, fuel, arms),
        ExprKindV::Unquote(_) => false,
        ExprKindV::UnquoteIdent(_) => false,
        _ => true,
    }
}

/// Each of the expressions.
pub open spec fn answers_all(x: Expansion, fuel: nat, es: Seq<ExprV>) -> bool
    decreases es, 0int,
{
    forall|i: int| 0 <= i < es.len() ==> answers(x, fuel, #[trigger] es[i])
}

/// Each value of the fields.
pub open spec fn answers_fields(x: Expansion, fuel: nat, fs: Seq<(Seq<char>, ExprV)>) -> bool
    decreases fs, 0int,
{
    forall|i: int| 0 <= i < fs.len() ==> answers(x, fuel, (#[trigger] fs[i]).1)
}

/// Each arm with its guard.
pub open spec fn answers_arms(x: Expansion, fuel: nat, arms: Seq<MatchArmV>) -> bool
    decreases arms, 0int,
{
    forall|i: int|
        0 <= i < arms.len() ==> answers(x, fuel, *(#[trigger] arms[i]).body) && (
        arms[i].guard matches Some(g) ==> answers(x, fuel, *g))
}

/// The macro has an answer in which no macro is called, whatever so many arguments are.
pub open spec fn has_answer(x: Expansion, fuel: nat, name: Seq<char>, n: nat) -> bool {
    forall|es: Seq<ExprV>, span: Span|
        es.len() == n ==> (#[trigger] x_named(x, fuel, name, undefined_macro(), es, span) matches Ok(
            r,
        ) && no_calls(r))
}

/// Macro calls are expanded at every depth: where every macro that is called has an answer
/// without macro calls, the expansion succeeds and no macro call is left, but in quotes and
/// in functions that the expression defines.
pub proof fn law_no_calls_left(x: Expansion, fuel: nat, e: ExprV)
    requires
        answers(x, fuel, e),
    ensures
        y_expr(x, fuel, e) matches Ok(r) && no_calls(r),
    decreases e, 1int,
{
    un_y_expr(x, fuel, e);
    match e.kind {
        ExprKindV::MacroCall { name, args } => {
            lemma_exprs_expand(x, fuel, args, 0, Seq::empty());
        },
        ExprKindV::Block(b) => {
            lemma_block_expands(x, fuel, b);
        },
        ExprKindV::Unary { op, expr } => {
            un_y_single(x, fuel, e);
            law_no_calls_left(x, fuel, *expr);
        },
        ExprKindV::Field { object, field } => {
            un_y_single(x, fuel, e);
            law_no_calls_left(x, fuel, *object);
        },
        ExprKindV::DotAccess { object, field } => {
            un_y_single(x, fuel, e);
            law_no_calls_left(x, fuel, *object);
        },
        ExprKindV::NamedArg { name, value } => {
            un_y_single(x, fuel, e);
            law_no_calls_left(x, fuel, *value);
        },
        ExprKindV::Lambda { params, return_type, body } => {
            un_y_single(x, fuel, e);
            law_no_calls_left(x, fuel, *body);
        },
        ExprKindV::Let { name, ty, value, is_mut } => {
            un_y_single(x, fuel, e);
            law_no_calls_left(x, fuel, *value);
        },
        ExprKindV::Return(Some(v)) => {
            un_y_single(x, fuel, e);
            law_no_calls_left(x, fuel, *v);
        },
        ExprKindV::EnumCtor { path, case, arg } => {
            un_y_single(x, fuel, e);
            if let Some(a) = arg {
                law_no_calls_left(x, fuel, *a);
            }
        },
        ExprKindV::Binary { op, left, right } => {
            un_y_double(x, fuel, e);
            law_no_calls_left(x, fuel, *left);
            law_no_calls_left(x, fuel, *right);
        },
        ExprKindV::Index { object, index } => {
            un_y_double(x, fuel, e);
            law_no_calls_left(x, fuel, *object);
            law_no_calls_left(x, fuel, *index);
        },
        ExprKindV::Assign { target, value } => {
            un_y_double(x, fuel, e);
            law_no_calls_left(x, fuel, *target);
            law_no_calls_left(x, fuel, *value);
        },
        ExprKindV::AssignOp { target, op, value } => {
            un_y_double(x, fuel, e);
            law_no_calls_left(x, fuel, *target);
            law_no_calls_left(x, fuel, *value);
        },
        ExprKindV::Call { func, args } => {
            un_y_list(x, fuel, e);
            law_no_calls_left(x, fuel, *func);
            lemma_exprs_expand(x, fuel, args, 0, Seq::empty());
        },
        ExprKindV::GcNew { ty, fields } => {
            un_y_list(x, fuel, e);
            lemma_fields_expand(x, fuel, fields, 0, Seq::empty());
        },
        ExprKindV::StructLit { path, fields } => {
            un_y_list(x, fuel, e);
            lemma_fields_expand(x, fuel, fields, 0, Seq::empty());
        },
        ExprKindV::If { cond, then_branch, else_branch } => {
            un_y_flow(x, fuel, e);
            un_y_else(x, fuel, else_branch);
            law_no_calls_left(x, fuel, *cond);
            lemma_block_expands(x, fuel, then_branch);
            if let Some(b) = else_branch {
                lemma_block_expands(x, fuel, b);
            }
        },
        ExprKindV::While { cond, body } => {
            un_y_flow(x, fuel, e);
            law_no_calls_left(x, fuel, *cond);
            lemma_block_expands(x, fuel, body);
        },
        ExprKindV::For { var, iter, body } => {
            un_y_flow(x, fuel, e);
            law_no_calls_left(x, fuel, *iter);
            lemma_block_expands(x, fuel, body);
        },
        ExprKindV::Match { expr, arms } => {
            un_y_match(x, fuel, e);
            law_no_calls_left(x, fuel, *expr);
            lemma_arms_expand(x, fuel, arms, 0, Seq::empty());
        },
        _ => {},
    }
}

proof fn lemma_block_expands(x: Expansion, fuel: nat, b: BlockV)
    requires
        answers_all(x, fuel, b.stmts),
    ensures
        y_block(x, fuel, b) matches Ok(r) && no_calls_all(r.stmts),
    decreases b, 1int,
{
    un_y_block(x, fuel, b);
    lemma_stmts_expand(x, fuel, b.stmts, 0, Seq::empty());
}

proof fn lemma_exprs_expand(
    x: Expansion,
    fuel: nat,
    es: Seq<ExprV>,
    i: int,
    acc: Seq<ExprV>,
)
    requires
        0 <= i <= es.len(),
        acc.len() == i,
        answers_all(x, fuel, es),
        no_calls_all(acc),
    ensures
        y_exprs(x, fuel, es, i, acc) matches Ok(r) && r.len() == es.len() && no_calls_all(r),
    decreases es, es.len() - i,
{
    un_y_exprs(x, fuel, es, i, acc);
    if i < es.len() {
        law_no_calls_left(x, fuel, es[i]);
        let t = y_expr(x, fuel, es[i])->Ok_0;
        assert(no_calls_all(acc.push(t)));
        lemma_exprs_expand(x, fuel, es, i + 1, acc.push(t));
    }
}

proof fn lemma_stmts_expand(
    x: Expansion,
    fuel: nat,
    es: Seq<ExprV>,
    i: int,
    acc: Seq<ExprV>,
)
    requires
        0 <= i <= es.len(),
        answers_all(x, fuel, es),
        no_calls_all(acc),
    ensures
        y_stmts(x, fuel, es, i, acc) matches Ok(r) && no_calls_all(r),
    decreases es, es.len() - i,
{
    un_y_stmts(x, fuel, es, i, acc);
    if i < es.len() {
        law_no_calls_left(x, fuel, es[i]);
        let t = y_expr(x, fuel, es[i])->Ok_0;
        let more = flattened(t);
        assert(no_calls_all(more));
        assert(no_calls_all(acc + more)) by {
            assert forall|j: int| 0 <= j < (acc + more).len() implies no_calls(
                #[trigger] (acc + more)[j],
            ) by {
                if j < acc.len() {
                    assert(no_calls(acc[j]));
                } else {
                    assert(no_calls(more[j - acc.len()]));
                }
            }
        }
        lemma_stmts_expand(x, fuel, es, i + 1, acc + more);
    }
}

proof fn lemma_fields_expand(
    x: Expansion,
    fuel: nat,
    fs: Seq<(Seq<char>, ExprV)>,
    i: int,
    acc: Seq<(Seq<char>, ExprV)>,
)
    requires
        0 <= i <= fs.len(),
        answers_fields(x, fuel, fs),
        no_calls_fields(acc),
    ensures
        y_fields(x, fuel, fs, i, acc) matches Ok(r) && no_calls_fields(r),
    decreases fs, fs.len() - i,
{
    un_y_fields(x, fuel, fs, i, acc);
    if i < fs.len() {
        law_no_calls_left(x, fuel, fs[i].1);
        let t = (fs[i].0, y_expr(x, fuel, fs[i].1)->Ok_0);
        assert(no_calls_fields(acc.push(t)));
        lemma_fields_expand(x, fuel, fs, i + 1, acc.push(t));
    }
}

proof fn lemma_arms_expand(
    x: Expansion,
    fuel: nat,
    arms: Seq<MatchArmV>,
    i: int,
    acc: Seq<MatchArmV>,
)
    requires
        0 <= i <= arms.len(),
        answers_arms(x, fuel, arms),
        no_calls_arms(acc),
    ensures
        y_arms(x, fuel, arms, i, acc) matches Ok(r) && no_calls_arms(r),
    decreases arms, arms.len() - i,
{
    un_y_arms(x, fuel, arms, i, acc);
    if i < arms.len() {
        un_y_guard(x, fuel, arms[i].guard);
        if let Some(g) = arms[i].guard {
            law_no_calls_left(x, fuel, *g);
        }
        law_no_calls_left(x, fuel, *arms[i].body);
        let t = MatchArmV {
            pattern: arms[i].pattern,
            guard: y_guard(x, fuel, arms[i].guard)->Ok_0,
            body: Box::new(y_expr(x, fuel, *arms[i].body)->Ok_0),
        };
        assert(no_calls_arms(acc.push(t)));
        lemma_arms_expand(x, fuel, arms, i + 1, acc.push(t));
    }
}

} // verus!
