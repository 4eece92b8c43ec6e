//! What each `object.name` stands for.
use vstd::prelude::*;
use std::collections::HashMap;
use crate::ast::{Block, Expr, ExprKind, Function, Item, MatchArm, Module, Param};
use crate::model::{
    BlockV, ExprKindV, ExprV, FunctionV, ImplBlockV, ItemV, MacroCallItemV, MacroDefV, MatchArmV,
    ModuleV, ParamV, TraitDefV, VarDeclV,
};

verus! {

use crate::ast::ident_expr;
use crate::model::{
    block_v, expr_kind_v, expr_v, exprs_v, field_inits_v, function_v, functions_v, group_list_views,
    impl_block_v, item_v, items_v, macro_call_item_v, macro_def_v, match_arm_v, match_arms_v,
    param_v, params_v, trait_def_v, var_decl_v,
};
use crate::text::dup_strs;
use crate::token::Span;

broadcast use {group_list_views, vstd::std_specs::hash::group_hash_axioms};

/// How a dot access is resolved.
#[derive(Debug, Clone, Copy, PartialEq, Eq, Structural)]
pub enum ResolvedAs {
    Field,
    Call,
}

/// From the start of a dot access to what it stands for.
pub type ResolutionMap = HashMap<usize, ResolvedAs>;

/// An expression with every dot access in it resolved.
pub open spec fn resolve_expr(e: ExprV, res: Map<usize, ResolvedAs>) -> ExprV
    decreases e, 1int,
{
    ExprV { kind: resolve_kind(e.kind, e.span, res), span: e.span }
}

/// What an expression at this place becomes.
pub open spec fn resolve_kind(k: ExprKindV, span: Span, res: Map<usize, ResolvedAs>) -> ExprKindV
    decreases k, 0int,
{
    match k {
        ExprKindV::DotAccess { object, field } => if res.contains_key(span.start) {
            match res[span.start] {
                ResolvedAs::Field => ExprKindV::Field {
                    object: Box::new(resolve_expr(*object, res)),
                    field,
                },
                ResolvedAs::Call => ExprKindV::Call {
                    func: Box::new(ident_expr(field, span)),
                    args: seq![resolve_expr(*object, res)],
                },
            }
        } else {
            ExprKindV::DotAccess { object: Box::new(resolve_expr(*object, res)), field }
        },
        ExprKindV::Block(b) => ExprKindV::Block(resolve_block(b, res)),
        ExprKindV::Binary { op, left, right } => ExprKindV::Binary {
            op,
            left: Box::new(resolve_expr(*left, res)),
            right: Box::new(resolve_expr(*right, res)),
        },
        ExprKindV::Unary { op, expr } => ExprKindV::Unary {
            op,
            expr: Box::new(resolve_expr(*expr, res)),
        },
        ExprKindV::Call { func, args } => ExprKindV::Call {
            func: Box::new(resolve_expr(*func, res)),
            args: resolve_exprs(args, res),
        },
        ExprKindV::Field { object, field } => ExprKindV::Field {
            object: Box::new(resolve_expr(*object, res)),
            field,
        },
        ExprKindV::Index { object, index } => ExprKindV::Index {
            object: Box::new(resolve_expr(*object, res)),
            index: Box::new(resolve_expr(*index, res)),
        },
        ExprKindV::Let { name, ty, value, is_mut } => ExprKindV::Let {
            name,
            ty,
            value: Box::new(resolve_expr(*value, res)),
            is_mut,
        },
        ExprKindV::Assign { target, value } => ExprKindV::Assign {
            target: Box::new(resolve_expr(*target, res)),
            value: Box::new(resolve_expr(*value, res)),
        },
        ExprKindV::AssignOp { target, op, value } => ExprKindV::AssignOp {
            target: Box::new(resolve_expr(*target, res)),
            op,
            value: Box::new(resolve_expr(*value, res)),
        },
        ExprKindV::If { cond, then_branch, else_branch } => ExprKindV::If {
            cond: Box::new(resolve_expr(*cond, res)),
            then_branch: resolve_block(then_branch, res),
            else_branch: match else_branch {
                None => None,
                Some(b) => Some(resolve_block(b, res)),
            },
        },
        ExprKindV::While { cond, body } => ExprKindV::While {
            cond: Box::new(resolve_expr(*cond, res)),
            body: resolve_block(body, res),
        },
        ExprKindV::For { var, iter, body } => ExprKindV::For {
            var,
            iter: Box::new(resolve_expr(*iter, res)),
            body: resolve_block(body, res),
        },
        ExprKindV::Match { expr, arms } => ExprKindV::Match {
            expr: Box::new(resolve_expr(*expr, res)),
            arms: resolve_arms(arms, res),
        },
        ExprKindV::GcNew { ty, fields } => ExprKindV::GcNew {
            ty,
            fields: resolve_inits(fields, res),
        },
        ExprKindV::Lambda { params, return_type, body } => ExprKindV::Lambda {
            params: resolve_params(params, res),
            return_type,
            body: Box::new(resolve_expr(*body, res)),
        },
        ExprKindV::StructLit { path, fields } => ExprKindV::StructLit {
            path,
            fields: resolve_inits(fields, res),
        },
        ExprKindV::EnumCtor { path, case, arg } => ExprKindV::EnumCtor {
            path,
            case,
            arg: match arg {
                None => None,
                Some(x) => Some(Box::new(resolve_expr(*x, res))),
            },
        },
        ExprKindV::MacroCall { name, args } => ExprKindV::MacroCall {
            name,
            args: resolve_exprs(args, res),
        },
        ExprKindV::NamedArg { name, value } => ExprKindV::NamedArg {
            name,
            value: Box::new(resolve_expr(*value, res)),
        },
        ExprKindV::Return(Some(x)) => ExprKindV::Return(Some(Box::new(resolve_expr(*x, res)))),
        ExprKindV::Quote(es) => ExprKindV::Quote(resolve_exprs(es, res)),
        ExprKindV::Unquote(x) => ExprKindV::Unquote(Box::new(resolve_expr(*x, res))),
        ExprKindV::FuncDef(f) => ExprKindV::FuncDef(resolve_function(f, res)),
        ExprKindV::CompileTimeResult(items) => ExprKindV::CompileTimeResult(
            resolve_items(items, res),
        ),
        k => k,
    }
}

pub open spec fn resolve_block(b: BlockV, res: Map<usize, ResolvedAs>) -> BlockV
    decreases b, 0int,
{
    BlockV { stmts: resolve_exprs(b.stmts, res), span: b.span }
}

pub open spec fn resolve_exprs(xs: Seq<ExprV>, res: Map<usize, ResolvedAs>) -> Seq<ExprV>
    decreases xs, 0int,
{
    Seq::new(
        xs.len(),
        |i: int|
            if 0 <= i < xs.len() {
                resolve_expr(xs[i], res)
            } else {
                arbitrary()
            },
    )
}

pub open spec fn resolve_inits(xs: Seq<(Seq<char>, ExprV)>, res: Map<usize, ResolvedAs>) -> Seq<
    (Seq<char>, ExprV),
>
    decreases xs, 0int,
{
    Seq::new(
        xs.len(),
        |i: int|
            if 0 <= i < xs.len() {
                (xs[i].0, resolve_expr(xs[i].1, res))
            } else {
                arbitrary()
            },
    )
}

pub open spec fn resolve_arm(a: MatchArmV, res: Map<usize, ResolvedAs>) -> MatchArmV
    decreases a, 0int,
{
    MatchArmV {
        pattern: a.pattern,
        guard: match a.guard {
            None => None,
            Some(g) => Some(Box::new(resolve_expr(*g, res))),
        },
        body: Box::new(resolve_expr(*a.body, res)),
    }
}

pub open spec fn resolve_arms(xs: Seq<MatchArmV>, res: Map<usize, ResolvedAs>) -> Seq<MatchArmV>
    decreases xs, 0int,
{
    Seq::new(
        xs.len(),
        |i: int|
            if 0 <= i < xs.len() {
                resolve_arm(xs[i], res)
            } else {
                arbitrary()
            },
    )
}

pub open spec fn resolve_param(p: ParamV, res: Map<usize, ResolvedAs>) -> ParamV
    decreases p, 0int,
{
    ParamV {
        default: match p.default {
            None => None,
            Some(x) => Some(resolve_expr(x, res)),
        },
        ..p
    }
}

pub open spec fn resolve_params(xs: Seq<ParamV>, res: Map<usize, ResolvedAs>) -> Seq<ParamV>
    decreases xs, 0int,
{
    Seq::new(
        xs.len(),
        |i: int|
            if 0 <= i < xs.len() {
                resolve_param(xs[i], res)
            } else {
                arbitrary()
            },
    )
}

/// A function with the dot accesses of its body and its defaults resolved.
pub open spec fn resolve_function(f: FunctionV, res: Map<usize, ResolvedAs>) -> FunctionV
    decreases f, 0int,
{
    FunctionV {
        params: resolve_params(f.params, res),
        body: resolve_block(f.body, res),
        ..f
    }
}

pub open spec fn resolve_functions(xs: Seq<FunctionV>, res: Map<usize, ResolvedAs>) -> Seq<FunctionV>
    decreases xs, 0int,
{
    Seq::new(
        xs.len(),
        |i: int|
            if 0 <= i < xs.len() {
                resolve_function(xs[i], res)
            } else {
                arbitrary()
            },
    )
}

/// An item with every dot access in it resolved.
pub open spec fn resolve_item(item: ItemV, res: Map<usize, ResolvedAs>) -> ItemV
    decreases item, 0int,
{
    match item {
        ItemV::Function(f) => ItemV::Function(resolve_function(f, res)),
        ItemV::VarDecl(v) => ItemV::VarDecl(
            VarDeclV {
                value: match v.value {
                    None => None,
                    Some(x) => Some(resolve_expr(x, res)),
                },
                ..v
            },
        ),
        ItemV::Trait(t) => ItemV::Trait(
            TraitDefV { methods: resolve_functions(t.methods, res), ..t },
        ),
        ItemV::Impl(b) => ItemV::Impl(
            ImplBlockV { methods: resolve_functions(b.methods, res), ..b },
        ),
        ItemV::Macro(m) => ItemV::Macro(
            MacroDefV { body: Box::new(resolve_expr(*m.body, res)), ..m },
        ),
        ItemV::MacroCall(c) => ItemV::MacroCall(
            MacroCallItemV { args: resolve_exprs(c.args, res), ..c },
        ),
        x => x,
    }
}

/// Items with every dot access in them resolved.
pub open spec fn resolve_items(xs: Seq<ItemV>, res: Map<usize, ResolvedAs>) -> Seq<ItemV>
    decreases xs, 0int,
{
    Seq::new(
        xs.len(),
        |i: int|
            if 0 <= i < xs.len() {
                resolve_item(xs[i], res)
            } else {
                arbitrary()
            },
    )
}

/// Replaces every dot access of a module that is resolved by what it stands for.
pub fn apply_resolutions(module: &mut Module, resolutions: &ResolutionMap)
    ensures
        final(module)@ == (ModuleV {
            name: old(module)@.name,
            imports: old(module)@.imports,
            items: resolve_items(old(module)@.items, resolutions@),
        }),
{
    module.items = resolved_items(&module.items, resolutions);
}

fn resolved_items(xs: &Vec<Item>, res: &ResolutionMap) -> (r: Vec<Item>)
    ensures
        items_v(r@) == resolve_items(items_v(xs@), res@),
    decreases xs, 0int,
{
    let mut out: Vec<Item> = Vec::new();
    let mut i: usize = 0;
    while i < xs.len()
        invariant
            i <= xs.len(),
            out.len() == i,
            forall|k: int|
                0 <= k < i ==> item_v(#[trigger] out[k]) == resolve_item(item_v(xs[k]), res@),
        decreases xs.len() - i,
    {
        out.push(resolved_item(&xs[i], res));
        i = i + 1;
    }
    assert(items_v(out@) =~= resolve_items(items_v(xs@), res@));
    out
}

fn resolved_functions(xs: &Vec<Function>, res: &ResolutionMap) -> (r: Vec<Function>)
    ensures
        functions_v(r@) == resolve_functions(functions_v(xs@), res@),
    decreases xs, 0int,
{
    let mut out: Vec<Function> = Vec::new();
    let mut i: usize = 0;
    while i < xs.len()
        invariant
            i <= xs.len(),
            out.len() == i,
            forall|k: int|
                0 <= k < i ==> function_v(#[trigger] out[k]) == resolve_function(
                    function_v(xs[k]),
                    res@,
                ),
        decreases xs.len() - i,
    {
        out.push(resolved_function(&xs[i], res));
        i = i + 1;
    }
    assert(functions_v(out@) =~= resolve_functions(functions_v(xs@), res@));
    out
}

fn resolved_params(xs: &Vec<Param>, res: &ResolutionMap) -> (r: Vec<Param>)
    ensures
        params_v(r@) == resolve_params(params_v(xs@), res@),
    decreases xs, 0int,
{
    let mut out: Vec<Param> = Vec::new();
    let mut i: usize = 0;
    while i < xs.len()
        invariant
            i <= xs.len(),
            out.len() == i,
            forall|k: int|
                0 <= k < i ==> param_v(#[trigger] out[k]) == resolve_param(param_v(xs[k]), res@),
        decreases xs.len() - i,
    {
        out.push(resolved_param(&xs[i], res));
        i = i + 1;
    }
    assert(params_v(out@) =~= resolve_params(params_v(xs@), res@));
    out
}

fn resolved_arms(xs: &Vec<MatchArm>, res: &ResolutionMap) -> (r: Vec<MatchArm>)
    ensures
        match_arms_v(r@) == resolve_arms(match_arms_v(xs@), res@),
    decreases xs, 0int,
{
    let mut out: Vec<MatchArm> = Vec::new();
    let mut i: usize = 0;
    while i < xs.len()
        invariant
            i <= xs.len(),
            out.len() == i,
            forall|k: int|
                0 <= k < i ==> match_arm_v(#[trigger] out[k]) == resolve_arm(
                    match_arm_v(xs[k]),
                    res@,
                ),
        decreases xs.len() - i,
    {
        out.push(resolved_arm(&xs[i], res));
        i = i + 1;
    }
    assert(match_arms_v(out@) =~= resolve_arms(match_arms_v(xs@), res@));
    out
}

fn resolved_exprs(xs: &Vec<Expr>, res: &ResolutionMap) -> (r: Vec<Expr>)
    ensures
        exprs_v(r@) == resolve_exprs(exprs_v(xs@), res@),
    decreases xs, 0int,
{
    let mut out: Vec<Expr> = Vec::new();
    let mut i: usize = 0;
    while i < xs.len()
        invariant
            i <= xs.len(),
            out.len() == i,
            forall|k: int|
                0 <= k < i ==> expr_v(#[trigger] out[k]) == resolve_expr(expr_v(xs[k]), res@),
        decreases xs.len() - i,
    {
        out.push(resolved_expr(&xs[i], res));
        i = i + 1;
    }
    assert(exprs_v(out@) =~= resolve_exprs(exprs_v(xs@), res@));
    out
}

fn resolved_inits(xs: &Vec<(String, Expr)>, res: &ResolutionMap) -> (r: Vec<(String, Expr)>)
    ensures
        field_inits_v(r@) == resolve_inits(field_inits_v(xs@), res@),
    decreases xs, 0int,
{
    let mut out: Vec<(String, Expr)> = Vec::new();
    let mut i: usize = 0;
    while i < xs.len()
        invariant
            i <= xs.len(),
            out.len() == i,
            forall|k: int|
                0 <= k < i ==> (#[trigger] out[k]).0@ == xs[k].0@ && expr_v(out[k].1)
                    == resolve_expr(expr_v(xs[k].1), res@),
        decreases xs.len() - i,
    {
        out.push((xs[i].0.clone(), resolved_expr(&xs[i].1, res)));
        i = i + 1;
    }
    assert(field_inits_v(out@) =~= resolve_inits(field_inits_v(xs@), res@));
    out
}

fn resolved_block(block: &Block, res: &ResolutionMap) -> (r: Block)
    ensures
        r@ == resolve_block(block@, res@),
    decreases block, 0int,
{
    let ghost g = block_v(*block);
    let b = Block { stmts: resolved_exprs(&block.stmts, res), span: block.span };
    let ghost h = block_v(b);
    b
}

fn resolved_opt_block(block: &Option<Block>, res: &ResolutionMap) -> (r: Option<Block>)
    ensures
        match (*block, r) {
            (None, None) => true,
            (Some(b), Some(x)) => block_v(x) == resolve_block(block_v(b), res@),
            _ => false,
        },
    decreases block, 0int,
{
    match block {
        None => None,
        Some(b) => Some(resolved_block(b, res)),
    }
}

fn resolved_opt_expr(expr: &Option<Expr>, res: &ResolutionMap) -> (r: Option<Expr>)
    ensures
        match (*expr, r) {
            (None, None) => true,
            (Some(x), Some(y)) => expr_v(y) == resolve_expr(expr_v(x), res@),
            _ => false,
        },
    decreases expr, 0int,
{
    match expr {
        None => None,
        Some(x) => Some(resolved_expr(x, res)),
    }
}

fn resolved_opt_box(expr: &Option<Box<Expr>>, res: &ResolutionMap) -> (r: Option<Box<Expr>>)
    ensures
        match (*expr, r) {
            (None, None) => true,
            (Some(x), Some(y)) => expr_v(*y) == resolve_expr(expr_v(*x), res@),
            _ => false,
        },
    decreases expr, 0int,
{
    match expr {
        None => None,
        Some(x) => Some(Box::new(resolved_expr(x, res))),
    }
}

fn resolved_arm(arm: &MatchArm, res: &ResolutionMap) -> (r: MatchArm)
    ensures
        r@ == resolve_arm(arm@, res@),
    decreases arm, 0int,
{
    let ghost g = match_arm_v(*arm);
    let a = MatchArm {
        pattern: arm.pattern.dup(),
        guard: resolved_opt_box(&arm.guard, res),
        body: Box::new(resolved_expr(&arm.body, res)),
    };
    let ghost h = match_arm_v(a);
    a
}

fn resolved_param(param: &Param, res: &ResolutionMap) -> (r: Param)
    ensures
        r@ == resolve_param(param@, res@),
    decreases param, 0int,
{
    let ghost g = param_v(*param);
    let p = Param {
        name: param.name.clone(),
        ty: param.ty.dup(),
        named: param.named,
        default: resolved_opt_expr(&param.default, res),
        span: param.span,
    };
    let ghost h = param_v(p);
    p
}

fn resolved_function(f: &Function, res: &ResolutionMap) -> (r: Function)
    ensures
        r@ == resolve_function(f@, res@),
    decreases f, 0int,
{
    let ghost g = function_v(*f);
    let mut x = f.dup();
    let ghost h = function_v(x);
    x.params = resolved_params(&f.params, res);
    x.body = resolved_block(&f.body, res);
    let ghost k = function_v(x);
    x
}

fn resolved_item(item: &Item, res: &ResolutionMap) -> (r: Item)
    ensures
        r@ == resolve_item(item@, res@),
    decreases item, 0int,
{
    let ghost g = item_v(*item);
    match item {
        Item::Function(f) => Item::Function(resolved_function(f, res)),
        Item::VarDecl(v) => {
            let ghost vv = var_decl_v(*v);
            let mut x = v.dup();
            let ghost h = var_decl_v(x);
            x.value = resolved_opt_expr(&v.value, res);
            let ghost k = var_decl_v(x);
            Item::VarDecl(x)
        },
        Item::Trait(t) => {
            let ghost tv = trait_def_v(*t);
            let mut x = t.dup();
            let ghost h = trait_def_v(x);
            x.methods = resolved_functions(&t.methods, res);
            let ghost k = trait_def_v(x);
            Item::Trait(x)
        },
        Item::Impl(b) => {
            let ghost bv = impl_block_v(*b);
            let mut x = b.dup();
            let ghost h = impl_block_v(x);
            x.methods = resolved_functions(&b.methods, res);
            let ghost k = impl_block_v(x);
            Item::Impl(x)
        },
        Item::Macro(m) => {
            let ghost mv = macro_def_v(*m);
            let mut x = m.dup();
            let ghost h = macro_def_v(x);
            x.body = Box::new(resolved_expr(&m.body, res));
            let ghost k = macro_def_v(x);
            Item::Macro(x)
        },
        Item::MacroCall(c) => {
            let ghost cv = macro_call_item_v(*c);
            let mut x = c.dup();
            let ghost h = macro_call_item_v(x);
            x.args = resolved_exprs(&c.args, res);
            let ghost k = macro_call_item_v(x);
            Item::MacroCall(x)
        },
        _ => item.dup(),
    }
}

fn resolved_expr(expr: &Expr, res: &ResolutionMap) -> (r: Expr)
    ensures
        r@ == resolve_expr(expr@, res@),
    decreases expr, 0int,
{
    let ghost g = expr_v(*expr);
    let kind = resolved_kind(&expr.kind, expr.span, res);
    let x = Expr { kind, span: expr.span };
    let ghost h = expr_v(x);
    x
}

fn resolved_kind(kind: &ExprKind, span: Span, res: &ResolutionMap) -> (r: ExprKind)
    ensures
        expr_kind_v(r) == resolve_kind(expr_kind_v(*kind), span, res@),
    decreases kind, 0int,
{
    let ghost g = expr_kind_v(*kind);
    let r = match kind {
        ExprKind::DotAccess { object, field } => {
            let o = resolved_expr(object, res);
            match res.get(&span.start) {
                Some(ResolvedAs::Field) => ExprKind::Field {
                    object: Box::new(o),
                    field: field.clone(),
                },
                Some(ResolvedAs::Call) => {
                    let mut args: Vec<Expr> = Vec::new();
                    args.push(o);
                    assert(exprs_v(args@) =~= seq![o@]);
                    ExprKind::Call { func: Box::new(Expr::ident(field, span)), args }
                },
                None => ExprKind::DotAccess { object: Box::new(o), field: field.clone() },
            }
        },
        ExprKind::Block(b) => ExprKind::Block(resolved_block(b, res)),
        ExprKind::Binary { op, left, right } => ExprKind::Binary {
            op: *op,
            left: Box::new(resolved_expr(left, res)),
            right: Box::new(resolved_expr(right, res)),
        },
        ExprKind::Unary { op, expr } => ExprKind::Unary {
            op: *op,
            expr: Box::new(resolved_expr(expr, res)),
        },
        ExprKind::Call { func, args } => ExprKind::Call {
            func: Box::new(resolved_expr(func, res)),
            args: resolved_exprs(args, res),
        },
        ExprKind::Field { object, field } => ExprKind::Field {
            object: Box::new(resolved_expr(object, res)),
            field: field.clone(),
        },
        ExprKind::Index { object, index } => ExprKind::Index {
            object: Box::new(resolved_expr(object, res)),
            index: Box::new(resolved_expr(index, res)),
        },
        ExprKind::Let { name, ty, value, is_mut } => ExprKind::Let {
            name: name.clone(),
            ty: match ty {
                None => None,
                Some(t) => Some(t.dup()),
            },
            value: Box::new(resolved_expr(value, res)),
            is_mut: *is_mut,
        },
        ExprKind::Assign { target, value } => ExprKind::Assign {
            target: Box::new(resolved_expr(target, res)),
            value: Box::new(resolved_expr(value, res)),
        },
        ExprKind::AssignOp { target, op, value } => ExprKind::AssignOp {
            target: Box::new(resolved_expr(target, res)),
            op: *op,
            value: Box::new(resolved_expr(value, res)),
        },
        ExprKind::If { cond, then_branch, else_branch } => ExprKind::If {
            cond: Box::new(resolved_expr(cond, res)),
            then_branch: resolved_block(then_branch, res),
            else_branch: resolved_opt_block(else_branch, res),
        },
        ExprKind::While { cond, body } => ExprKind::While {
            cond: Box::new(resolved_expr(cond, res)),
            body: resolved_block(body, res),
        },
        ExprKind::For { var, iter, body } => ExprKind::For {
            var: var.clone(),
            iter: Box::new(resolved_expr(iter, res)),
            body: resolved_block(body, res),
        },
        ExprKind::Match { expr, arms } => ExprKind::Match {
            expr: Box::new(resolved_expr(expr, res)),
            arms: resolved_arms(arms, res),
        },
        ExprKind::GcNew { ty, fields } => ExprKind::GcNew {
            ty: ty.dup(),
            fields: resolved_inits(fields, res),
        },
        ExprKind::Lambda { params, return_type, body } => ExprKind::Lambda {
            params: resolved_params(params, res),
            return_type: return_type.dup(),
            body: Box::new(resolved_expr(body, res)),
        },
        ExprKind::StructLit { path, fields } => ExprKind::StructLit {
            path: dup_strs(path),
            fields: resolved_inits(fields, res),
        },
        ExprKind::EnumCtor { path, case, arg } => ExprKind::EnumCtor {
            path: dup_strs(path),
            case: case.clone(),
            arg: resolved_opt_box(arg, res),
        },
        ExprKind::MacroCall { name, args } => ExprKind::MacroCall {
            name: name.clone(),
            args: resolved_exprs(args, res),
        },
        ExprKind::NamedArg { name, value } => ExprKind::NamedArg {
            name: name.clone(),
            value: Box::new(resolved_expr(value, res)),
        },
        ExprKind::Return(Some(x)) => ExprKind::Return(Some(Box::new(resolved_expr(x, res)))),
        ExprKind::Quote(es) => ExprKind::Quote(resolved_exprs(es, res)),
        ExprKind::Unquote(x) => ExprKind::Unquote(Box::new(resolved_expr(x, res))),
        ExprKind::FuncDef(f) => ExprKind::FuncDef(resolved_function(f, res)),
        ExprKind::CompileTimeResult(items) => ExprKind::CompileTimeResult(
            resolved_items(items, res),
        ),
        _ => kind.dup(),
    };
    let ghost h = expr_kind_v(r);
    r
}

/// Nothing changes where nothing is resolved.
pub proof fn law_no_resolutions(e: ExprV)
    ensures
        resolve_expr(e, Map::empty()) == e,
    decreases e, 1int,
{
    lemma_no_kind(e.kind, e.span);
}

proof fn lemma_no_kind(k: ExprKindV, span: Span)
    ensures
        resolve_kind(k, span, Map::empty()) == k,
    decreases k, 0int,
{
    match k {
        ExprKindV::DotAccess { object, field } => {
            law_no_resolutions(*object);
        },
        ExprKindV::Block(b) => {
            lemma_no_block(b);
        },
        ExprKindV::Binary { op, left, right } => {
            law_no_resolutions(*left);
            law_no_resolutions(*right);
        },
        ExprKindV::Unary { op, expr } => {
            law_no_resolutions(*expr);
        },
        ExprKindV::Call { func, args } => {
            law_no_resolutions(*func);
            lemma_no_exprs(args);
        },
        ExprKindV::Field { object, field } => {
            law_no_resolutions(*object);
        },
        ExprKindV::Index { object, index } => {
            law_no_resolutions(*object);
            law_no_resolutions(*index);
        },
        ExprKindV::Let { name, ty, value, is_mut } => {
            law_no_resolutions(*value);
        },
        ExprKindV::Assign { target, value } => {
            law_no_resolutions(*target);
            law_no_resolutions(*value);
        },
        ExprKindV::AssignOp { target, op, value } => {
            law_no_resolutions(*target);
            law_no_resolutions(*value);
        },
        ExprKindV::If { cond, then_branch, else_branch } => {
            law_no_resolutions(*cond);
            lemma_no_block(then_branch);
            if let Some(b) = else_branch {
                lemma_no_block(b);
            }
        },
        ExprKindV::While { cond, body } => {
            law_no_resolutions(*cond);
            lemma_no_block(body);
        },
        ExprKindV::For { var, iter, body } => {
            law_no_resolutions(*iter);
            lemma_no_block(body);
        },
        ExprKindV::Match { expr, arms } => {
            law_no_resolutions(*expr);
            lemma_no_arms(arms);
        },
        ExprKindV::GcNew { ty, fields } => {
            lemma_no_inits(fields);
        },
        ExprKindV::Lambda { params, return_type, body } => {
            lemma_no_params(params);
            law_no_resolutions(*body);
        },
        ExprKindV::StructLit { path, fields } => {
            lemma_no_inits(fields);
        },
        ExprKindV::EnumCtor { path, case, arg } => {
            if let Some(x) = arg {
                law_no_resolutions(*x);
            }
        },
        ExprKindV::MacroCall { name, args } => {
            lemma_no_exprs(args);
        },
        ExprKindV::NamedArg { name, value } => {
            law_no_resolutions(*value);
        },
        ExprKindV::Return(Some(x)) => {
            law_no_resolutions(*x);
        },
        ExprKindV::Quote(es) => {
            lemma_no_exprs(es);
        },
        ExprKindV::Unquote(x) => {
            law_no_resolutions(*x);
        },
        ExprKindV::FuncDef(f) => {
            lemma_no_function(f);
        },
        ExprKindV::CompileTimeResult(items) => {
            law_no_resolutions_in(items);
        },
        _ => {},
    }
}

proof fn lemma_no_block(b: BlockV)
    ensures
        resolve_block(b, Map::empty()) == b,
    decreases b, 0int,
{
    lemma_no_exprs(b.stmts);
}

proof fn lemma_no_function(f: FunctionV)
    ensures
        resolve_function(f, Map::empty()) == f,
    decreases f, 0int,
{
    lemma_no_params(f.params);
    lemma_no_block(f.body);
}

proof fn lemma_no_item(item: ItemV)
    ensures
        resolve_item(item, Map::empty()) == item,
    decreases item, 0int,
{
    match item {
        ItemV::Function(f) => {
            lemma_no_function(f);
        },
        ItemV::VarDecl(v) => {
            if let Some(x) = v.value {
                law_no_resolutions(x);
            }
        },
        ItemV::Trait(t) => {
            lemma_no_functions(t.methods);
        },
        ItemV::Impl(b) => {
            lemma_no_functions(b.methods);
        },
        ItemV::Macro(m) => {
            law_no_resolutions(*m.body);
        },
        ItemV::MacroCall(c) => {
            lemma_no_exprs(c.args);
        },
        _ => {},
    }
}

/// Items stay as they are where nothing is resolved.
pub proof fn law_no_resolutions_in(xs: Seq<ItemV>)
    ensures
        resolve_items(xs, Map::empty()) == xs,
    decreases xs, 0int,
{
    assert forall|i: int| 0 <= i < xs.len() implies #[trigger] resolve_items(xs, Map::empty())[i]
        == xs[i] by {
        lemma_no_item(xs[i]);
    }
    assert(resolve_items(xs, Map::empty()) =~= xs);
}

proof fn lemma_no_functions(xs: Seq<FunctionV>)
    ensures
        resolve_functions(xs, Map::empty()) == xs,
    decreases xs, 0int,
{
    assert forall|i: int| 0 <= i < xs.len() implies #[trigger] resolve_functions(xs, Map::empty())[i]
        == xs[i] by {
        lemma_no_function(xs[i]);
    }
    assert(resolve_functions(xs, Map::empty()) =~= xs);
}

proof fn lemma_no_params(xs: Seq<ParamV>)
    ensures
        resolve_params(xs, Map::empty()) == xs,
    decreases xs, 0int,
{
    assert forall|i: int| 0 <= i < xs.len() implies #[trigger] resolve_params(xs, Map::empty())[i]
        == xs[i] by {
        if let Some(x) = xs[i].default {
            law_no_resolutions(x);
        }
    }
    assert(resolve_params(xs, Map::empty()) =~= xs);
}

proof fn lemma_no_arms(xs: Seq<MatchArmV>)
    ensures
        resolve_arms(xs, Map::empty()) == xs,
    decreases xs, 0int,
{
    assert forall|i: int| 0 <= i < xs.len() implies #[trigger] resolve_arms(xs, Map::empty())[i]
        == xs[i] by {
        if let Some(g) = xs[i].guard {
            law_no_resolutions(*g);
        }
        law_no_resolutions(*xs[i].body);
    }
    assert(resolve_arms(xs, Map::empty()) =~= xs);
}

proof fn lemma_no_inits(xs: Seq<(Seq<char>, ExprV)>)
    ensures
        resolve_inits(xs, Map::empty()) == xs,
    decreases xs, 0int,
{
    assert forall|i: int| 0 <= i < xs.len() implies #[trigger] resolve_inits(xs, Map::empty())[i]
        == xs[i] by {
        law_no_resolutions(xs[i].1);
    }
    assert(resolve_inits(xs, Map::empty()) =~= xs);
}

proof fn lemma_no_exprs(xs: Seq<ExprV>)
    ensures
        resolve_exprs(xs, Map::empty()) == xs,
    decreases xs, 0int,
{
    assert forall|i: int| 0 <= i < xs.len() implies #[trigger] resolve_exprs(xs, Map::empty())[i]
        == xs[i] by {
        law_no_resolutions(xs[i]);
    }
    assert(resolve_exprs(xs, Map::empty()) =~= xs);
}

/// No dot access in the expression is one that the resolutions replace.
pub open spec fn all_resolved(e: ExprV, res: Map<usize, ResolvedAs>) -> bool
    decreases e, 1int,
{
    kind_resolved(e.kind, e.span, res)
}

/// The same of an expression at this place.
pub open spec fn kind_resolved(k: ExprKindV, span: Span, res: Map<usize, ResolvedAs>) -> bool
    decreases k, 0int,
{
    match k {
        ExprKindV::DotAccess { object, field } => !res.contains_key(span.start) && all_resolved(
            *object,
            res,
        ),
        ExprKindV::Block(b) => all_resolved_in(b.stmts, res),
        ExprKindV::Binary { op, left, right } => {
            &&& all_resolved(*left, res)
            &&& all_resolved(*right, res)
        },
        ExprKindV::Unary { op, expr } => all_resolved(*expr, res),
        ExprKindV::Call { func, args } => {
            &&& all_resolved(*func, res)
            &&& all_resolved_in(args, res)
        },
        ExprKindV::Field { object, field } => all_resolved(*object, res),
        ExprKindV::Index { object, index } => {
            &&& all_resolved(*object, res)
            &&& all_resolved(*index, res)
        },
        ExprKindV::Let { name, ty, value, is_mut } => all_resolved(*value, res),
        ExprKindV::Assign { target, value } => {
            &&& all_resolved(*target, res)
            &&& all_resolved(*value, res)
        },
        ExprKindV::AssignOp { target, op, value } => {
            &&& all_resolved(*target, res)
            &&& all_resolved(*value, res)
        },
        ExprKindV::If { cond, then_branch, else_branch } => {
            &&& all_resolved(*cond, res)
            &&& all_resolved_in(then_branch.stmts, res)
            &&& (else_branch matches Some(b) ==> all_resolved_in(b.stmts, res))
        },
        ExprKindV::While { cond, body } => {
            &&& all_resolved(*cond, res)
            &&& all_resolved_in(body.stmts, res)
        },
        ExprKindV::For { var, iter, body } => {
            &&& all_resolved(*iter, res)
            &&& all_resolved_in(body.stmts, res)
        },
        ExprKindV::Match { expr, arms } => {
            &&& all_resolved(*expr, res)
            &&& arms_resolved(arms, res)
        },
        ExprKindV::GcNew { ty, fields } => inits_resolved(fields, res),
        ExprKindV::Lambda { params, return_type, body } => {
            &&& params_resolved(params, res)
            &&& all_resolved(*body, res)
        },
        ExprKindV::StructLit { path, fields } => inits_resolved(fields, res),
        ExprKindV::EnumCtor { path, case, arg } => (arg matches Some(x) ==> all_resolved(*x, res)),
        ExprKindV::MacroCall { name, args } => all_resolved_in(args, res),
        ExprKindV::NamedArg { name, value } => all_resolved(*value, res),
        ExprKindV::Return(Some(x)) => all_resolved(*x, res),
        ExprKindV::Quote(es) => all_resolved_in(es, res),
        ExprKindV::Unquote(x) => all_resolved(*x, res),
        ExprKindV::FuncDef(f) => function_resolved(f, res),
        ExprKindV::CompileTimeResult(items) => items_resolved(items, res),
        _ => true,
    }
}

/// The same of each expression.
pub open spec fn all_resolved_in(es: Seq<ExprV>, res: Map<usize, ResolvedAs>) -> bool
    decreases es, 0int,
{
    forall|i: int| 0 <= i < es.len() ==> all_resolved(#[trigger] es[i], res)
}

/// The same of each value of a field.
pub open spec fn inits_resolved(fs: Seq<(Seq<char>, ExprV)>, res: Map<usize, ResolvedAs>) -> bool
    decreases fs, 0int,
{
    forall|i: int| 0 <= i < fs.len() ==> all_resolved((#[trigger] fs[i]).1, res)
}

/// The same of each arm and its guard.
pub open spec fn arms_resolved(arms: Seq<MatchArmV>, res: Map<usize, ResolvedAs>) -> bool
    decreases arms, 0int,
{
    forall|i: int|
        0 <= i < arms.len() ==> all_resolved(*(#[trigger] arms[i]).body, res) && (
        arms[i].guard matches Some(g) ==> all_resolved(*g, res))
}

/// The same of each default.
pub open spec fn params_resolved(ps: Seq<ParamV>, res: Map<usize, ResolvedAs>) -> bool
    decreases ps, 0int,
{
    forall|i: int|
        0 <= i < ps.len() ==> ((#[trigger] ps[i]).default matches Some(x) ==> all_resolved(x, res))
}

/// The same of a function.
pub open spec fn function_resolved(f: FunctionV, res: Map<usize, ResolvedAs>) -> bool
    decreases f, 0int,
{
    params_resolved(f.params, res) && all_resolved_in(f.body.stmts, res)
}

/// The same of each function.
pub open spec fn functions_resolved(fs: Seq<FunctionV>, res: Map<usize, ResolvedAs>) -> bool
    decreases fs, 0int,
{
    forall|i: int| 0 <= i < fs.len() ==> function_resolved(#[trigger] fs[i], res)
}

/// The same of an item.
pub open spec fn item_resolved(item: ItemV, res: Map<usize, ResolvedAs>) -> bool
    decreases item, 0int,
{
    match item {
        ItemV::Function(f) => function_resolved(f, res),
        ItemV::VarDecl(v) => v.value matches Some(x) ==> all_resolved(x, res),
        ItemV::Trait(t) => functions_resolved(t.methods, res),
        ItemV::Impl(b) => functions_resolved(b.methods, res),
        ItemV::Macro(m) => all_resolved(*m.body, res),
        ItemV::MacroCall(c) => all_resolved_in(c.args, res),
        _ => true,
    }
}

/// The same of each item.
pub open spec fn items_resolved(items: Seq<ItemV>, res: Map<usize, ResolvedAs>) -> bool
    decreases items, 0int,
{
    forall|i: int| 0 <= i < items.len() ==> item_resolved(#[trigger] items[i], res)
}

/// Every dot access that the resolutions name is replaced, however deep it stands.
pub proof fn law_all_resolved(e: ExprV, res: Map<usize, ResolvedAs>)
    ensures
        all_resolved(resolve_expr(e, res), res),
    decreases e, 1int,
{
    lemma_kind_resolved(e.kind, e.span, res);
}

proof fn lemma_kind_resolved(k: ExprKindV, span: Span, res: Map<usize, ResolvedAs>)
    ensures
        kind_resolved(resolve_kind(k, span, res), span, res),
    decreases k, 0int,
{
    match k {
        ExprKindV::DotAccess { object, field } => {
            law_all_resolved(*object, res);
            let callee = ident_expr(field, span);
            assert(all_resolved(callee, res));
            let args = seq![resolve_expr(*object, res)];
            assert(all_resolved_in(args, res));
        },
        ExprKindV::Block(b) => {
            lemma_exprs_resolved(b.stmts, res);
        },
        ExprKindV::Binary { op, left, right } => {
            law_all_resolved(*left, res);
            law_all_resolved(*right, res);
        },
        ExprKindV::Unary { op, expr } => {
            law_all_resolved(*expr, res);
        },
        ExprKindV::Call { func, args } => {
            law_all_resolved(*func, res);
            lemma_exprs_resolved(args, res);
        },
        ExprKindV::Field { object, field } => {
            law_all_resolved(*object, res);
        },
        ExprKindV::Index { object, index } => {
            law_all_resolved(*object, res);
            law_all_resolved(*index, res);
        },
        ExprKindV::Let { name, ty, value, is_mut } => {
            law_all_resolved(*value, res);
        },
        ExprKindV::Assign { target, value } => {
            law_all_resolved(*target, res);
            law_all_resolved(*value, res);
        },
        ExprKindV::AssignOp { target, op, value } => {
            law_all_resolved(*target, res);
            law_all_resolved(*value, res);
        },
        ExprKindV::If { cond, then_branch, else_branch } => {
            law_all_resolved(*cond, res);
            lemma_exprs_resolved(then_branch.stmts, res);
            if let Some(b) = else_branch {
                lemma_exprs_resolved(b.stmts, res);
            }
        },
        ExprKindV::While { cond, body } => {
            law_all_resolved(*cond, res);
            lemma_exprs_resolved(body.stmts, res);
        },
        ExprKindV::For { var, iter, body } => {
            law_all_resolved(*iter, res);
            lemma_exprs_resolved(body.stmts, res);
        },
        ExprKindV::Match { expr, arms } => {
            law_all_resolved(*expr, res);
            lemma_arms_resolved(arms, res);
        },
        ExprKindV::GcNew { ty, fields } => {
            lemma_inits_resolved(fields, res);
        },
        ExprKindV::Lambda { params, return_type, body } => {
            lemma_params_resolved(params, res);
            law_all_resolved(*body, res);
        },
        ExprKindV::StructLit { path, fields } => {
            lemma_inits_resolved(fields, res);
        },
        ExprKindV::EnumCtor { path, case, arg } => {
            if let Some(x) = arg {
                law_all_resolved(*x, res);
            }
        },
        ExprKindV::MacroCall { name, args } => {
            lemma_exprs_resolved(args, res);
        },
        ExprKindV::NamedArg { name, value } => {
            law_all_resolved(*value, res);
        },
        ExprKindV::Return(Some(x)) => {
            law_all_resolved(*x, res);
        },
        ExprKindV::Quote(es) => {
            lemma_exprs_resolved(es, res);
        },
        ExprKindV::Unquote(x) => {
            law_all_resolved(*x, res);
        },
        ExprKindV::FuncDef(f) => {
            lemma_function_resolved(f, res);
        },
        ExprKindV::CompileTimeResult(items) => {
            law_items_resolved(items, res);
        },
        _ => {},
    }
}

proof fn lemma_function_resolved(f: FunctionV, res: Map<usize, ResolvedAs>)
    ensures
        function_resolved(resolve_function(f, res), res),
    decreases f, 0int,
{
    lemma_params_resolved(f.params, res);
    lemma_exprs_resolved(f.body.stmts, res);
}

proof fn lemma_item_resolved(item: ItemV, res: Map<usize, ResolvedAs>)
    ensures
        item_resolved(resolve_item(item, res), res),
    decreases item, 0int,
{
    match item {
        ItemV::Function(f) => {
            lemma_function_resolved(f, res);
        },
        ItemV::VarDecl(v) => {
            if let Some(x) = v.value {
                law_all_resolved(x, res);
            }
        },
        ItemV::Trait(t) => {
            lemma_functions_resolved(t.methods, res);
        },
        ItemV::Impl(b) => {
            lemma_functions_resolved(b.methods, res);
        },
        ItemV::Macro(m) => {
            law_all_resolved(*m.body, res);
        },
        ItemV::MacroCall(c) => {
            lemma_exprs_resolved(c.args, res);
        },
        _ => {},
    }
}

/// Every dot access of the items that the resolutions name is replaced.
pub proof fn law_items_resolved(xs: Seq<ItemV>, res: Map<usize, ResolvedAs>)
    ensures
        items_resolved(resolve_items(xs, res), res),
    decreases xs, 0int,
{
    let ys = resolve_items(xs, res);
    assert forall|i: int| 0 <= i < ys.len() implies item_resolved(#[trigger] ys[i], res) by {
        lemma_item_resolved(xs[i], res);
    }
}

proof fn lemma_functions_resolved(xs: Seq<FunctionV>, res: Map<usize, ResolvedAs>)
    ensures
        functions_resolved(resolve_functions(xs, res), res),
    decreases xs, 0int,
{
    let ys = resolve_functions(xs, res);
    assert forall|i: int| 0 <= i < ys.len() implies function_resolved(#[trigger] ys[i], res) by {
        lemma_function_resolved(xs[i], res);
    }
}

proof fn lemma_params_resolved(xs: Seq<ParamV>, res: Map<usize, ResolvedAs>)
    ensures
        params_resolved(resolve_params(xs, res), res),
    decreases xs, 0int,
{
    let ys = resolve_params(xs, res);
    assert forall|i: int| 0 <= i < ys.len() implies ((#[trigger] ys[i]).default matches Some(x)
        ==> all_resolved(x, res)) by {
        if let Some(x) = xs[i].default {
            law_all_resolved(x, res);
        }
    }
}

proof fn lemma_arms_resolved(xs: Seq<MatchArmV>, res: Map<usize, ResolvedAs>)
    ensures
        arms_resolved(resolve_arms(xs, res), res),
    decreases xs, 0int,
{
    let ys = resolve_arms(xs, res);
    assert forall|i: int| 0 <= i < ys.len() implies all_resolved(
        *(#[trigger] ys[i]).body,
        res,
    ) && (ys[i].guard matches Some(g) ==> all_resolved(*g, res)) by {
        if let Some(g) = xs[i].guard {
            law_all_resolved(*g, res);
        }
        law_all_resolved(*xs[i].body, res);
    }
}

proof fn lemma_inits_resolved(xs: Seq<(Seq<char>, ExprV)>, res: Map<usize, ResolvedAs>)
    ensures
        inits_resolved(resolve_inits(xs, res), res),
    decreases xs, 0int,
{
    let ys = resolve_inits(xs, res);
    assert forall|i: int| 0 <= i < ys.len() implies all_resolved(
        (#[trigger] ys[i]).1,
        res,
    ) by {
        law_all_resolved(xs[i].1, res);
    }
}

proof fn lemma_exprs_resolved(xs: Seq<ExprV>, res: Map<usize, ResolvedAs>)
    ensures
        all_resolved_in(resolve_exprs(xs, res), res),
    decreases xs, 0int,
{
    let ys = resolve_exprs(xs, res);
    assert forall|i: int| 0 <= i < ys.len() implies all_resolved(#[trigger] ys[i], res) by {
        law_all_resolved(xs[i], res);
    }
}


/// An access that is resolved to a field reads that field of the object; one that is resolved
/// to a call calls the function of that name with the object. The object is resolved first.
pub proof fn law_resolved_access(
    object: ExprV,
    field: Seq<char>,
    span: Span,
    res: Map<usize, ResolvedAs>,
)
    requires
        res.contains_key(span.start),
    ensures
        ({
            let e = ExprV {
                kind: ExprKindV::DotAccess { object: Box::new(object), field },
                span,
            };
            let inner = resolve_expr(object, res);
            match res[span.start] {
                ResolvedAs::Field => resolve_expr(e, res).kind matches ExprKindV::Field {
                    object: o,
                    field: f,
                } && *o == inner && f == field,
                ResolvedAs::Call => resolve_expr(e, res).kind matches ExprKindV::Call {
                    func,
                    args,
                } && func.kind == ExprKindV::Ident(field) && args == seq![inner],
            }
        }),
{
    let e = ExprV { kind: ExprKindV::DotAccess { object: Box::new(object), field }, span };
    assert(resolve_expr(e, res).kind == resolve_kind(e.kind, span, res));
}

} // verus!
