//! The macro expander: it fills in what macros stand for.
use vstd::prelude::*;
use crate::maps::Dup;

verus! {

use crate::ast::{
    Block, Expr, ExprKind, Function, ImplBlock, Item, MacroCallItem, MacroDef, MatchArm, Module,
    Param, TraitDef, Type, VarDecl,
};
use crate::error::CompileError;
use crate::expand_model::{
    Expansion, Macros, MadeList, any_computes, arg_value, call_or_esc, computes, declared,
    declared_by, dollar_bound, first_macros, flattened, import_macro_in, macros_from,
    param_type_texts, quoted_name, result_items, signature, spliced_in, tree_scope, unbound,
    undollared, value_expr, value_scope, with_part, with_parts, x_bodies, x_body, x_macro, x_named,
    x_quoted, x_quoted_else, x_quoted_if, x_quotes, x_spliced, y_arms, y_block, y_call, y_double,
    y_else, y_expr, y_exprs, y_fields, y_flow, y_function, y_guard, y_items, y_list, y_match,
    y_methods, y_module, y_single, y_stmts, y_var,
};
use crate::expand_rules::{
    un_declared, un_declared_by, un_x_bodies, un_x_body, un_x_macro, un_x_named, un_x_quoted,
    un_x_quoted_else, un_x_quoted_if, un_x_quotes, un_x_spliced, un_y_arms, un_y_block, un_y_double,
    un_y_else, un_y_expr, un_y_exprs, un_y_fields, un_y_flow, un_y_guard, un_y_list, un_y_match,
    un_y_single, un_y_stmts,
};
use crate::host::{Host, HostV, Stop, StopV, ran};
use crate::import_macro::{ImportMacro, items_ran};
use crate::interp_model::fails;
use crate::interpreter::{Interpreter, Program, append_items, ctx, structs_from};
use crate::maps::{StrMap, contains_str, lookup};
use crate::model::{
    BlockV, ExprV, FunctionV, ImplBlockV, ItemV, MatchArmV, TraitDefV, block_v, dup_items,
    dup_params, enum_v, expr_kind_v, expr_v, exprs_v, field_inits_v, function_v, functions_v,
    group_list_views, impl_block_v, item_v, items_v, macro_call_item_v, macro_def_v, match_arm_v,
    match_arms_v, module_v, opt_block_v, opt_expr_v, opt_type_v, param_v, params_v, struct_v,
    trait_def_v, type_alias_v, var_decl_v,
};
use crate::source::parse_source;
use crate::text::{
    cat2, cat3, cat5, cat6, chars_of, dup_strs, join, opt_str_v, show_usize, str_eq, strs_v,
    text_between,
};
use crate::token::Span;
use crate::value::{Value, group_value_views, value_v};

broadcast use {group_list_views, group_value_views};

impl Dup for MacroDef {
    fn copy(&self) -> (r: Self) {
        self.dup()
    }
}

impl Dup for Expr {
    fn copy(&self) -> (r: Self) {
        self.dup()
    }
}

/// No signature is kept twice.
pub proof fn law_spliced_once(
    more: Seq<ItemV>,
    i: int,
    sigs: Seq<Seq<char>>,
    acc: Seq<ItemV>,
)
    requires
        sigs.no_duplicates(),
    ensures
        spliced_in(more, i, sigs, acc).0.no_duplicates(),
    decreases more.len() - i,
{
    if 0 <= i < more.len() {
        match signature(more[i]) {
            Some(g) => {
                if sigs.contains(g) {
                    law_spliced_once(more, i + 1, sigs, acc);
                } else {
                    assert(sigs.push(g).no_duplicates());
                    law_spliced_once(more, i + 1, sigs.push(g), acc.push(more[i]));
                }
            },
            None => {
                law_spliced_once(more, i + 1, sigs, acc.push(more[i]));
            },
        }
    }
}

spec fn list_ran(r: Result<Vec<Expr>, Stop>) -> MadeList {
    match r {
        Ok(v) => Ok(exprs_v(v@)),
        Err(s) => Err(s@),
    }
}

fn failure(message: &str, span: Span) -> (r: Stop)
    ensures
        r@ == fails(message@, span),
{
    Stop::Error(CompileError::macro_err(message, span))
}

fn unbound_failure(what: &str, name: &str, span: Span) -> (r: Stop)
    ensures
        r@ == unbound(what@, name@, span),
{
    failure(&cat3(what, name, "'"), span)
}

/// Whether a macro body computes.
fn uses_interpreter(e: &Expr) -> (r: bool)
    ensures
        r == computes(e@),
    decreases e,
{
    let ghost g = expr_v(*e);
    let ghost k = expr_kind_v(e.kind);
    match &e.kind {
        ExprKind::Block(b) => {
            let ghost bv = block_v(*b);
            any_uses_interpreter(&b.stmts)
        },
        ExprKind::Let { name, ty, value, is_mut } => uses_interpreter(value),
        ExprKind::Call { .. } => true,
        ExprKind::Binary { .. } => true,
        ExprKind::Field { .. } => true,
        ExprKind::For { .. } => true,
        ExprKind::If { .. } => true,
        ExprKind::Assign { .. } => true,
        _ => false,
    }
}

fn any_uses_interpreter(stmts: &Vec<Expr>) -> (r: bool)
    ensures
        r == any_computes(exprs_v(stmts@), 0),
    decreases stmts,
{
    let mut i: usize = 0;
    while i < stmts.len()
        invariant
            i <= stmts.len(),
            any_computes(exprs_v(stmts@), 0) == any_computes(exprs_v(stmts@), i as int),
        decreases stmts.len() - i,
    {
        if uses_interpreter(&stmts[i]) {
            return true;
        }
        i = i + 1;
    }
    false
}

/// An argument as a value.
fn expr_to_value(e: &Expr) -> (r: Value)
    ensures
        r@ == arg_value(e@),
{
    let ghost g = expr_v(*e);
    let ghost k = expr_kind_v(e.kind);
    match &e.kind {
        ExprKind::StringLiteral(s) => Value::String(s.clone()),
        ExprKind::IntLiteral(n) => Value::Int(*n),
        ExprKind::BoolLiteral(b) => Value::Bool(*b),
        ExprKind::Ident(n) => Value::String(n.clone()),
        _ => Value::Nil,
    }
}

/// A value as a tree.
fn value_to_expr(v: &Value, span: Span) -> (r: Result<Expr, Stop>)
    ensures
        ran(r) == value_expr(v@, span),
{
    let ghost g = value_v(*v);
    let kind: ExprKind = match v {
        Value::String(s) => ExprKind::StringLiteral(s.clone()),
        Value::Int(n) => ExprKind::IntLiteral(*n),
        Value::Bool(b) => ExprKind::BoolLiteral(*b),
        Value::Items(xs) => ExprKind::CompileTimeResult(dup_items(xs)),
        Value::Nil => ExprKind::NilLiteral,
        _ => {
            return Err(failure("Cannot convert this value back to an expression", span));
        },
    };
    let ghost k = expr_kind_v(kind);
    Ok(Expr::new(kind, span))
}

fn scope_of_values(params: &Vec<String>, args: &Vec<Expr>) -> (r: StrMap<Value>)
    ensures
        r@ == value_scope(strs_v(params@), exprs_v(args@), 0, Map::empty()),
{
    let mut env: StrMap<Value> = StrMap::new();
    let mut i: usize = 0;
    while i < params.len() && i < args.len()
        invariant
            i <= params.len(),
            i <= args.len(),
            value_scope(strs_v(params@), exprs_v(args@), 0, Map::empty()) == value_scope(
                strs_v(params@),
                exprs_v(args@),
                i as int,
                env@,
            ),
        decreases params.len() - i,
    {
        env.insert(&params[i], expr_to_value(&args[i]));
        i = i + 1;
    }
    env
}

fn scope_of_trees(params: &Vec<String>, args: &Vec<Expr>) -> (r: StrMap<Expr>)
    ensures
        r@ == tree_scope(strs_v(params@), exprs_v(args@), 0, Map::empty()),
{
    let mut env: StrMap<Expr> = StrMap::new();
    let mut i: usize = 0;
    while i < params.len() && i < args.len()
        invariant
            i <= params.len(),
            i <= args.len(),
            tree_scope(strs_v(params@), exprs_v(args@), 0, Map::empty()) == tree_scope(
                strs_v(params@),
                exprs_v(args@),
                i as int,
                env@,
            ),
        decreases params.len() - i,
    {
        env.insert(&params[i], args[i].dup());
        i = i + 1;
    }
    env
}

/// A name without the dollar sign before it, if there is one.
fn strip_dollar(n: &str) -> (r: Option<String>)
    ensures
        opt_str_v(r) == undollared(n@),
{
    let v = chars_of(n);
    if v.len() > 0 && v[0] == '$' {
        Some(text_between(&v, 1, v.len()))
    } else {
        None
    }
}

fn find_dollar(n: &str, b: &StrMap<Expr>) -> (r: Option<Expr>)
    ensures
        opt_expr_v(r) == dollar_bound(n@, b@),
{
    match strip_dollar(n) {
        Some(m) => match b.get(&m) {
            Some(e) => Some(e.dup()),
            None => None,
        },
        None => None,
    }
}

fn find_bound(n: &str, b: &StrMap<Expr>) -> (r: Option<Expr>)
    ensures
        opt_expr_v(r) == lookup(b@, n@),
{
    match b.get(n) {
        Some(e) => Some(e.dup()),
        None => None,
    }
}

/// The statements of a tree behind others: those of a block are spliced.
fn push_flattened(acc: &mut Vec<Expr>, e: Expr)
    ensures
        exprs_v(final(acc)@) == exprs_v(old(acc)@) + flattened(e@),
{
    let ghost g = expr_v(e);
    let ghost k = expr_kind_v(e.kind);
    let ghost start = exprs_v(acc@);
    match &e.kind {
        ExprKind::Block(b) => {
            let ghost bv = block_v(*b);
            let mut i: usize = 0;
            assert(start + exprs_v(b.stmts@).take(0) =~= start);
            while i < b.stmts.len()
                invariant
                    i <= b.stmts.len(),
                    exprs_v(acc@) == start + exprs_v(b.stmts@).take(i as int),
                decreases b.stmts.len() - i,
            {
                acc.push(b.stmts[i].dup());
                i = i + 1;
                assert(exprs_v(acc@) =~= start + exprs_v(b.stmts@).take(i as int));
            }
            assert(exprs_v(b.stmts@).take(i as int) =~= exprs_v(b.stmts@));
        },
        _ => {
            acc.push(e.dup());
            assert(exprs_v(acc@) =~= start + seq![e@]);
        },
    }
}

/// A call in a macro body: `esc` gives its argument back.
fn call_in_body(func: Expr, args: Vec<Expr>, span: Span) -> (r: Expr)
    ensures
        r@ == call_or_esc(func@, exprs_v(args@), span),
{
    let ghost g = expr_v(func);
    let ghost k = expr_kind_v(func.kind);
    let ghost av = exprs_v(args@);
    let esc: bool = match &func.kind {
        ExprKind::Ident(n) => str_eq(n, "esc"),
        _ => false,
    };
    if esc && args.len() == 1 {
        return args[0].dup();
    }
    Expr::call(func, args, span)
}

/// The name of a quoted function.
fn name_in_quote(n: &String, b: &StrMap<Expr>) -> (r: String)
    ensures
        r@ == quoted_name(n@, b@),
{
    match find_dollar(n, b) {
        Some(e) => {
            let ghost g = expr_v(e);
            let ghost k = expr_kind_v(e.kind);
            match &e.kind {
                ExprKind::Ident(m) => m.clone(),
                _ => n.clone(),
            }
        },
        None => n.clone(),
    }
}

/// The macro expander.
#[derive(Debug)]
pub struct MacroExpander {
    macros: StrMap<MacroDef>,
    import_macro: ImportMacro,
    interpreter: Interpreter,
}

/// What a macro expander knows, without the outside.
#[verifier::ext_equal]
pub struct ExpanderV {
    pub macros: Macros,
    pub dirs: Seq<Seq<char>>,
    pub program: Program,
}

impl View for MacroExpander {
    type V = ExpanderV;

    closed spec fn view(&self) -> ExpanderV {
        ExpanderV {
            macros: self.macros@,
            dirs: self.import_macro@,
            program: self.interpreter@,
        }
    }
}

/// What macros are expanded with.
pub open spec fn expansion(v: ExpanderV, h: HostV) -> Expansion {
    Expansion { macros: v.macros, dirs: v.dirs, ctx: ctx(v.program, h) }
}

impl MacroExpander {
    /// A call of a macro.
    fn eval_macro(&self, m: &MacroDef, args: &Vec<Expr>, span: Span, host: &Host, fuel: u64) -> (r:
        Result<Expr, Stop>)
        ensures
            ran(r) == x_macro(
                expansion(self@, host@),
                fuel as nat,
                m@,
                exprs_v(args@),
                span,
            ),
        decreases fuel, 0int, ExprKind::NilLiteral, 0int,
    {
        proof {
            un_x_macro(expansion(self@, host@), fuel as nat, m@, exprs_v(args@), span);
        }
        let ghost mv = macro_def_v(*m);
        let ghost av = exprs_v(args@);
        let ghost pv = strs_v(m.params@);
        if m.params.len() != args.len() {
            let want = show_usize(m.params.len());
            let got = show_usize(args.len());
            return Err(
                failure(
                    &cat6("Macro '", &m.name, "' expects ", &want, " arguments, got ", &got),
                    span,
                ),
            );
        }
        if uses_interpreter(&m.body) {
            let mut env = scope_of_values(&m.params, args);
            let mut out = String::new();
            let v = self.interpreter.eval(&m.body, &mut env, host, fuel, &mut out)?;
            return value_to_expr(&v, span);
        }
        if fuel == 0 {
            return Err(Stop::OutOfFuel);
        }
        let b = scope_of_trees(&m.params, args);
        self.eval_macro_body(&m.body, &b, host, fuel - 1)
    }

    /// A call of the macro of this name.
    fn eval_named(
        &self,
        name: &str,
        what: &str,
        args: &Vec<Expr>,
        span: Span,
        host: &Host,
        fuel: u64,
    ) -> (r: Result<Expr, Stop>)
        ensures
            ran(r) == x_named(
                expansion(self@, host@),
                fuel as nat,
                name@,
                what@,
                exprs_v(args@),
                span,
            ),
        decreases fuel, 1int, ExprKind::NilLiteral, 0int,
    {
        proof {
            un_x_named(
                expansion(self@, host@),
                fuel as nat,
                name@,
                what@,
                exprs_v(args@),
                span,
            );
        }
        match self.macros.get(name) {
            Some(m) => self.eval_macro(m, args, span, host, fuel),
            None => Err(unbound_failure(what, name, span)),
        }
    }

    /// A tree of a macro body.
    fn eval_macro_body(&self, e: &Expr, b: &StrMap<Expr>, host: &Host, fuel: u64) -> (r: Result<
        Expr,
        Stop,
    >)
        ensures
            ran(r) == x_body(expansion(self@, host@), fuel as nat, e@, b@),
        decreases fuel, 2int, e, 1int,
    {
        proof {
            un_x_body(expansion(self@, host@), fuel as nat, e@, b@);
        }
        let ghost g = expr_v(*e);
        let ghost k = expr_kind_v(e.kind);
        match &e.kind {
            ExprKind::Ident(name) => {
                if let Some(t) = find_dollar(name, b) {
                    return Ok(t);
                }
                match find_bound(name, b) {
                    Some(t) => Ok(t),
                    None => Ok(e.dup()),
                }
            },
            ExprKind::Quote(stmts) => {
                let es = self.splice_quotes(stmts, b, host, fuel)?;
                let kind = ExprKind::Quote(es);
                let ghost rk = expr_kind_v(kind);
                Ok(Expr::new(kind, e.span))
            },
            ExprKind::UnquoteIdent(name) => match find_bound(name, b) {
                Some(t) => Ok(t),
                None => Err(unbound_failure("Unbound variable in unquote: '", name, e.span)),
            },
            ExprKind::Unquote(inner) => self.eval_macro_body(inner, b, host, fuel),
            ExprKind::Block(blk) => {
                let ghost bv = block_v(*blk);
                let es = self.eval_macro_bodies(&blk.stmts, b, host, fuel)?;
                Ok(Expr::block(es, e.span))
            },
            ExprKind::Call { func, args } => {
                let f = self.eval_macro_body(func, b, host, fuel)?;
                let es = self.eval_macro_bodies(args, b, host, fuel)?;
                Ok(call_in_body(f, es, e.span))
            },
            ExprKind::Binary { op, left, right } => {
                let l = self.eval_macro_body(left, b, host, fuel)?;
                let r = self.eval_macro_body(right, b, host, fuel)?;
                Ok(Expr::binary(l, *op, r, e.span))
            },
            ExprKind::MacroCall { name, args } => {
                let es = self.eval_macro_bodies(args, b, host, fuel)?;
                self.eval_named(
                    name,
                    "Undefined macro in macro body: '",
                    &es,
                    e.span,
                    host,
                    fuel,
                )
            },
            _ => Ok(e.dup()),
        }
    }

    fn eval_macro_bodies(
        &self,
        es: &Vec<Expr>,
        b: &StrMap<Expr>,
        host: &Host,
        fuel: u64,
    ) -> (r: Result<Vec<Expr>, Stop>)
        ensures
            list_ran(r) == x_bodies(
                expansion(self@, host@),
                fuel as nat,
                exprs_v(es@),
                0,
                b@,
                Seq::empty(),
            ),
        decreases fuel, 2int, es, 0int,
    {
        let ghost x = expansion(self@, host@);
        let ghost ev = exprs_v(es@);
        let mut acc: Vec<Expr> = Vec::new();
        let mut i: usize = 0;
        while i < es.len()
            invariant
                i <= es.len(),
                x == expansion(self@, host@),
                ev == exprs_v(es@),
                x_bodies(x, fuel as nat, ev, 0, b@, Seq::empty()) == x_bodies(
                    x,
                    fuel as nat,
                    ev,
                    i as int,
                    b@,
                    exprs_v(acc@),
                ),
            decreases es.len() - i,
        {
            proof {
                un_x_bodies(x, fuel as nat, ev, i as int, b@, exprs_v(acc@));
            }
            let t = self.eval_macro_body(&es[i], b, host, fuel)?;
            acc.push(t);
            i = i + 1;
        }
        proof {
            un_x_bodies(x, fuel as nat, ev, i as int, b@, exprs_v(acc@));
        }
        Ok(acc)
    }

    fn splice_quotes(
        &self,
        es: &Vec<Expr>,
        b: &StrMap<Expr>,
        host: &Host,
        fuel: u64,
    ) -> (r: Result<Vec<Expr>, Stop>)
        ensures
            list_ran(r) == x_spliced(
                expansion(self@, host@),
                fuel as nat,
                exprs_v(es@),
                0,
                b@,
                Seq::empty(),
            ),
        decreases fuel, 2int, es, 0int,
    {
        let ghost x = expansion(self@, host@);
        let ghost ev = exprs_v(es@);
        let mut acc: Vec<Expr> = Vec::new();
        let mut i: usize = 0;
        while i < es.len()
            invariant
                i <= es.len(),
                x == expansion(self@, host@),
                ev == exprs_v(es@),
                x_spliced(x, fuel as nat, ev, 0, b@, Seq::empty()) == x_spliced(
                    x,
                    fuel as nat,
                    ev,
                    i as int,
                    b@,
                    exprs_v(acc@),
                ),
            decreases es.len() - i,
        {
            proof {
                un_x_spliced(x, fuel as nat, ev, i as int, b@, exprs_v(acc@));
            }
            let t = self.process_quote(&es[i], b, host, fuel)?;
            push_flattened(&mut acc, t);
            i = i + 1;
        }
        proof {
            un_x_spliced(x, fuel as nat, ev, i as int, b@, exprs_v(acc@));
        }
        Ok(acc)
    }

    fn process_quotes(
        &self,
        es: &Vec<Expr>,
        b: &StrMap<Expr>,
        host: &Host,
        fuel: u64,
    ) -> (r: Result<Vec<Expr>, Stop>)
        ensures
            list_ran(r) == x_quotes(
                expansion(self@, host@),
                fuel as nat,
                exprs_v(es@),
                0,
                b@,
                Seq::empty(),
            ),
        decreases fuel, 2int, es, 0int,
    {
        let ghost x = expansion(self@, host@);
        let ghost ev = exprs_v(es@);
        let mut acc: Vec<Expr> = Vec::new();
        let mut i: usize = 0;
        while i < es.len()
            invariant
                i <= es.len(),
                x == expansion(self@, host@),
                ev == exprs_v(es@),
                x_quotes(x, fuel as nat, ev, 0, b@, Seq::empty()) == x_quotes(
                    x,
                    fuel as nat,
                    ev,
                    i as int,
                    b@,
                    exprs_v(acc@),
                ),
            decreases es.len() - i,
        {
            proof {
                un_x_quotes(x, fuel as nat, ev, i as int, b@, exprs_v(acc@));
            }
            let t = self.process_quote(&es[i], b, host, fuel)?;
            acc.push(t);
            i = i + 1;
        }
        proof {
            un_x_quotes(x, fuel as nat, ev, i as int, b@, exprs_v(acc@));
        }
        Ok(acc)
    }

    /// A quoted tree.
    fn process_quote(&self, e: &Expr, b: &StrMap<Expr>, host: &Host, fuel: u64) -> (r: Result<
        Expr,
        Stop,
    >)
        ensures
            ran(r) == x_quoted(expansion(self@, host@), fuel as nat, e@, b@),
        decreases fuel, 2int, e, 1int,
    {
        proof {
            un_x_quoted(expansion(self@, host@), fuel as nat, e@, b@);
        }
        let ghost g = expr_v(*e);
        let ghost k = expr_kind_v(e.kind);
        match &e.kind {
            ExprKind::Ident(name) => match find_dollar(name, b) {
                Some(t) => Ok(t),
                None => Ok(e.dup()),
            },
            ExprKind::UnquoteIdent(name) => match find_bound(name, b) {
                Some(t) => Ok(t),
                None => Err(unbound_failure("Unbound variable in quote: '", name, e.span)),
            },
            ExprKind::Unquote(inner) => self.eval_macro_body(inner, b, host, fuel),
            ExprKind::Quote(stmts) => {
                let es = self.process_quotes(stmts, b, host, fuel)?;
                let kind = ExprKind::Quote(es);
                let ghost rk = expr_kind_v(kind);
                Ok(Expr::new(kind, e.span))
            },
            ExprKind::Block(blk) => {
                let ghost bv = block_v(*blk);
                let es = self.process_quotes(&blk.stmts, b, host, fuel)?;
                Ok(Expr::block(es, e.span))
            },
            ExprKind::Call { func, args } => {
                let f = self.process_quote(func, b, host, fuel)?;
                let es = self.process_quotes(args, b, host, fuel)?;
                Ok(Expr::call(f, es, e.span))
            },
            ExprKind::Binary { op, left, right } => {
                let l = self.process_quote(left, b, host, fuel)?;
                let r = self.process_quote(right, b, host, fuel)?;
                Ok(Expr::binary(l, *op, r, e.span))
            },
            ExprKind::Return(None) => Ok(e.dup()),
            ExprKind::Return(Some(v)) => {
                let t = self.process_quote(v, b, host, fuel)?;
                let kind = ExprKind::Return(Some(Box::new(t)));
                let ghost rk = expr_kind_v(kind);
                Ok(Expr::new(kind, e.span))
            },
            ExprKind::Let { name, ty, value, is_mut } => {
                let t = self.process_quote(value, b, host, fuel)?;
                let kind = ExprKind::Let {
                    name: name.clone(),
                    ty: dup_opt_type(ty),
                    value: Box::new(t),
                    is_mut: *is_mut,
                };
                let ghost rk = expr_kind_v(kind);
                Ok(Expr::new(kind, e.span))
            },
            ExprKind::If { .. } => self.process_quoted_if(e, b, host, fuel),
            ExprKind::MacroCall { name, args } => {
                let es = self.process_quotes(args, b, host, fuel)?;
                self.eval_named(name, "Undefined macro in quote: '", &es, e.span, host, fuel)
            },
            ExprKind::FuncDef(f) => {
                let ghost fv = function_v(*f);
                let ghost bv = block_v(f.body);
                let stmts = self.process_quotes(&f.body.stmts, b, host, fuel)?;
                let body = Block { stmts, span: f.body.span };
                let ghost rb = block_v(body);
                let mut f2 = f.dup();
                let ghost f1 = function_v(f2);
                f2.name = name_in_quote(&f.name, b);
                f2.body = body;
                let ghost rf = function_v(f2);
                let kind = ExprKind::FuncDef(f2);
                let ghost rk = expr_kind_v(kind);
                Ok(Expr::new(kind, e.span))
            },
            _ => Ok(e.dup()),
        }
    }

    fn process_quoted_if(&self, e: &Expr, b: &StrMap<Expr>, host: &Host, fuel: u64) -> (r: Result<
        Expr,
        Stop,
    >)
        ensures
            ran(r) == x_quoted_if(expansion(self@, host@), fuel as nat, e@, b@),
        decreases fuel, 2int, e, 0int,
    {
        proof {
            un_x_quoted_if(expansion(self@, host@), fuel as nat, e@, b@);
        }
        let ghost g = expr_v(*e);
        let ghost k = expr_kind_v(e.kind);
        match &e.kind {
            ExprKind::If { cond, then_branch, else_branch } => {
                let ghost tv = block_v(*then_branch);
                let stmts = self.process_quotes(&then_branch.stmts, b, host, fuel)?;
                let tb = Block { stmts, span: then_branch.span };
                let ghost rt = block_v(tb);
                let eb = self.process_quoted_else(else_branch, b, host, fuel)?;
                let c = self.process_quote(cond, b, host, fuel)?;
                let kind = ExprKind::If {
                    cond: Box::new(c),
                    then_branch: tb,
                    else_branch: eb,
                };
                let ghost rk = expr_kind_v(kind);
                Ok(Expr::new(kind, e.span))
            },
            _ => Ok(e.dup()),
        }
    }

    fn process_quoted_else(
        &self,
        o: &Option<Block>,
        b: &StrMap<Expr>,
        host: &Host,
        fuel: u64,
    ) -> (r: Result<Option<Block>, Stop>)
        ensures
            opt_block_ran(r) == x_quoted_else(
                expansion(self@, host@),
                fuel as nat,
                opt_block_v(*o),
                b@,
            ),
        decreases fuel, 2int, o, 0int,
    {
        proof {
            un_x_quoted_else(expansion(self@, host@), fuel as nat, opt_block_v(*o), b@);
        }
        match o {
            None => Ok(None),
            Some(blk) => {
                let ghost bv = block_v(*blk);
                match self.process_quotes(&blk.stmts, b, host, fuel) {
                    Ok(stmts) => {
                        let k = Block { stmts, span: blk.span };
                        let ghost kv = block_v(k);
                        Ok(Some(k))
                    },
                    Err(Stop::Error(_)) => Ok(None),
                    Err(s) => Err(s),
                }
            },
        }
    }
}

spec fn opt_block_ran(r: Result<Option<Block>, Stop>) -> Result<Option<BlockV>, StopV> {
    match r {
        Ok(o) => Ok(opt_block_v(o)),
        Err(s) => Err(s@),
    }
}

spec fn methods_ran(r: Result<Vec<Function>, Stop>) -> Result<Seq<FunctionV>, StopV> {
    match r {
        Ok(fs) => Ok(functions_v(fs@)),
        Err(s) => Err(s@),
    }
}

spec fn opt_box_v(g: Option<Box<Expr>>) -> Option<Box<ExprV>> {
    match g {
        Some(x) => Some(Box::new(expr_v(*x))),
        None => None,
    }
}

fn dup_opt_type(t: &Option<Type>) -> (r: Option<Type>)
    ensures
        opt_type_v(r) == opt_type_v(*t),
{
    match t {
        Some(x) => Some(x.dup()),
        None => None,
    }
}

/// An expression of one part with the part replaced.
fn rebuild_with_part(kind: &ExprKind, t: Expr) -> (r: ExprKind)
    ensures
        r@ == with_part(kind@, t@),
{
    let ghost k = expr_kind_v(*kind);
    let ghost tv = expr_v(t);
    let out = match kind {
        ExprKind::Unary { op, expr } => ExprKind::Unary { op: *op, expr: Box::new(t) },
        ExprKind::Field { object, field } => ExprKind::Field {
            object: Box::new(t),
            field: field.clone(),
        },
        ExprKind::DotAccess { object, field } => ExprKind::DotAccess {
            object: Box::new(t),
            field: field.clone(),
        },
        ExprKind::NamedArg { name, value } => ExprKind::NamedArg {
            name: name.clone(),
            value: Box::new(t),
        },
        ExprKind::Lambda { params, return_type, body } => ExprKind::Lambda {
            params: dup_params(params),
            return_type: return_type.dup(),
            body: Box::new(t),
        },
        ExprKind::Let { name, ty, value, is_mut } => ExprKind::Let {
            name: name.clone(),
            ty: dup_opt_type(ty),
            value: Box::new(t),
            is_mut: *is_mut,
        },
        ExprKind::Return(_) => ExprKind::Return(Some(Box::new(t))),
        ExprKind::EnumCtor { path, case, arg } => ExprKind::EnumCtor {
            path: dup_strs(path),
            case: case.clone(),
            arg: Some(Box::new(t)),
        },
        _ => kind.dup(),
    };
    let ghost ov = expr_kind_v(out);
    out
}

/// An expression of two parts with the parts replaced.
fn rebuild_with_parts(kind: &ExprKind, s: Expr, t: Expr) -> (r: ExprKind)
    ensures
        r@ == with_parts(kind@, s@, t@),
{
    let ghost k = expr_kind_v(*kind);
    let ghost sv = expr_v(s);
    let ghost tv = expr_v(t);
    let out = match kind {
        ExprKind::Binary { op, left, right } => ExprKind::Binary {
            op: *op,
            left: Box::new(s),
            right: Box::new(t),
        },
        ExprKind::Index { object, index } => ExprKind::Index {
            object: Box::new(s),
            index: Box::new(t),
        },
        ExprKind::Assign { target, value } => ExprKind::Assign {
            target: Box::new(s),
            value: Box::new(t),
        },
        ExprKind::AssignOp { target, op, value } => ExprKind::AssignOp {
            target: Box::new(s),
            op: *op,
            value: Box::new(t),
        },
        _ => kind.dup(),
    };
    let ghost ov = expr_kind_v(out);
    out
}

impl MacroExpander {
    /// An expression with its macros expanded.
    pub fn expand_expr(&self, e: &Expr, host: &Host, fuel: u64) -> (r: Result<Expr, Stop>)
        ensures
            ran(r) == y_expr(expansion(self@, host@), fuel as nat, e@),
        decreases e, 1int,
    {
        proof {
            un_y_expr(expansion(self@, host@), fuel as nat, e@);
        }
        let ghost g = expr_v(*e);
        let ghost k = expr_kind_v(e.kind);
        match &e.kind {
            ExprKind::MacroCall { name, args } => {
                let es = self.expand_exprs(args, host, fuel)?;
                self.eval_named(name, "Undefined macro: '", &es, e.span, host, fuel)
            },
            ExprKind::Block(b) => {
                let b2 = self.expand_block(b, host, fuel)?;
                let kind = ExprKind::Block(b2);
                let ghost rk = expr_kind_v(kind);
                Ok(Expr::new(kind, e.span))
            },
            ExprKind::Unary { .. } => self.expand_single(e, host, fuel),
            ExprKind::Field { .. } => self.expand_single(e, host, fuel),
            ExprKind::DotAccess { .. } => self.expand_single(e, host, fuel),
            ExprKind::NamedArg { .. } => self.expand_single(e, host, fuel),
            ExprKind::Lambda { .. } => self.expand_single(e, host, fuel),
            ExprKind::Let { .. } => self.expand_single(e, host, fuel),
            ExprKind::Return(Some(_)) => self.expand_single(e, host, fuel),
            ExprKind::EnumCtor { .. } => self.expand_single(e, host, fuel),
            ExprKind::Binary { .. } => self.expand_double(e, host, fuel),
            ExprKind::Index { .. } => self.expand_double(e, host, fuel),
            ExprKind::Assign { .. } => self.expand_double(e, host, fuel),
            ExprKind::AssignOp { .. } => self.expand_double(e, host, fuel),
            ExprKind::Call { .. } => self.expand_list(e, host, fuel),
            ExprKind::GcNew { .. } => self.expand_list(e, host, fuel),
            ExprKind::StructLit { .. } => self.expand_list(e, host, fuel),
            ExprKind::If { .. } => self.expand_flow(e, host, fuel),
            ExprKind::While { .. } => self.expand_flow(e, host, fuel),
            ExprKind::For { .. } => self.expand_flow(e, host, fuel),
            ExprKind::Match { .. } => self.expand_match(e, host, fuel),
            ExprKind::Unquote(_) => Err(failure("$unquote outside of quote context", e.span)),
            ExprKind::UnquoteIdent(_) => Err(
                failure("$unquote outside of quote context", e.span),
            ),
            _ => Ok(e.dup()),
        }
    }

    fn expand_exprs(
        &self,
        es: &Vec<Expr>,
        host: &Host,
        fuel: u64,
    ) -> (r: Result<Vec<Expr>, Stop>)
        ensures
            list_ran(r) == y_exprs(
                expansion(self@, host@),
                fuel as nat,
                exprs_v(es@),
                0,
                Seq::empty(),
            ),
        decreases es, 0int,
    {
        let ghost x = expansion(self@, host@);
        let ghost ev = exprs_v(es@);
        let mut acc: Vec<Expr> = Vec::new();
        let mut i: usize = 0;
        while i < es.len()
            invariant
                i <= es.len(),
                x == expansion(self@, host@),
                ev == exprs_v(es@),
                y_exprs(x, fuel as nat, ev, 0, Seq::empty()) == y_exprs(
                    x,
                    fuel as nat,
                    ev,
                    i as int,
                    exprs_v(acc@),
                ),
            decreases es.len() - i,
        {
            proof {
                un_y_exprs(x, fuel as nat, ev, i as int, exprs_v(acc@));
            }
            let t = self.expand_expr(&es[i], host, fuel)?;
            acc.push(t);
            i = i + 1;
        }
        proof {
            un_y_exprs(x, fuel as nat, ev, i as int, exprs_v(acc@));
        }
        Ok(acc)
    }

    fn expand_stmts(
        &self,
        es: &Vec<Expr>,
        host: &Host,
        fuel: u64,
    ) -> (r: Result<Vec<Expr>, Stop>)
        ensures
            list_ran(r) == y_stmts(
                expansion(self@, host@),
                fuel as nat,
                exprs_v(es@),
                0,
                Seq::empty(),
            ),
        decreases es, 0int,
    {
        let ghost x = expansion(self@, host@);
        let ghost ev = exprs_v(es@);
        let mut acc: Vec<Expr> = Vec::new();
        let mut i: usize = 0;
        while i < es.len()
            invariant
                i <= es.len(),
                x == expansion(self@, host@),
                ev == exprs_v(es@),
                y_stmts(x, fuel as nat, ev, 0, Seq::empty()) == y_stmts(
                    x,
                    fuel as nat,
                    ev,
                    i as int,
                    exprs_v(acc@),
                ),
            decreases es.len() - i,
        {
            proof {
                un_y_stmts(x, fuel as nat, ev, i as int, exprs_v(acc@));
            }
            let t = self.expand_expr(&es[i], host, fuel)?;
            push_flattened(&mut acc, t);
            i = i + 1;
        }
        proof {
            un_y_stmts(x, fuel as nat, ev, i as int, exprs_v(acc@));
        }
        Ok(acc)
    }

    fn expand_block(&self, b: &Block, host: &Host, fuel: u64) -> (r: Result<Block, Stop>)
        ensures
            ran(r) == y_block(expansion(self@, host@), fuel as nat, b@),
        decreases b, 1int,
    {
        proof {
            un_y_block(expansion(self@, host@), fuel as nat, b@);
        }
        let ghost bv = block_v(*b);
        let stmts = self.expand_stmts(&b.stmts, host, fuel)?;
        let b2 = Block { stmts, span: b.span };
        let ghost rv = block_v(b2);
        Ok(b2)
    }

    fn expand_fields(&self, fs: &Vec<(String, Expr)>, host: &Host, fuel: u64) -> (r: Result<
        Vec<(String, Expr)>,
        Stop,
    >)
        ensures
            fields_ran(r) == y_fields(
                expansion(self@, host@),
                fuel as nat,
                field_inits_v(fs@),
                0,
                Seq::empty(),
            ),
        decreases fs, 0int,
    {
        let ghost x = expansion(self@, host@);
        let ghost fv = field_inits_v(fs@);
        let mut acc: Vec<(String, Expr)> = Vec::new();
        let mut i: usize = 0;
        while i < fs.len()
            invariant
                i <= fs.len(),
                x == expansion(self@, host@),
                fv == field_inits_v(fs@),
                y_fields(x, fuel as nat, fv, 0, Seq::empty()) == y_fields(
                    x,
                    fuel as nat,
                    fv,
                    i as int,
                    field_inits_v(acc@),
                ),
            decreases fs.len() - i,
        {
            proof {
                un_y_fields(x, fuel as nat, fv, i as int, field_inits_v(acc@));
            }
            let ghost f = fv[i as int];
            let t = self.expand_expr(&fs[i].1, host, fuel)?;
            acc.push((fs[i].0.clone(), t));
            i = i + 1;
        }
        proof {
            un_y_fields(x, fuel as nat, fv, i as int, field_inits_v(acc@));
        }
        Ok(acc)
    }

    fn expand_single(&self, e: &Expr, host: &Host, fuel: u64) -> (r: Result<Expr, Stop>)
        ensures
            ran(r) == y_single(expansion(self@, host@), fuel as nat, e@),
        decreases e, 0int,
    {
        proof {
            un_y_single(expansion(self@, host@), fuel as nat, e@);
        }
        let ghost g = expr_v(*e);
        let ghost k = expr_kind_v(e.kind);
        match &e.kind {
            ExprKind::Unary { op, expr } => {
                let t = self.expand_expr(expr, host, fuel)?;
                Ok(Expr::new(rebuild_with_part(&e.kind, t), e.span))
            },
            ExprKind::Field { object, field } => {
                let t = self.expand_expr(object, host, fuel)?;
                Ok(Expr::new(rebuild_with_part(&e.kind, t), e.span))
            },
            ExprKind::DotAccess { object, field } => {
                let t = self.expand_expr(object, host, fuel)?;
                Ok(Expr::new(rebuild_with_part(&e.kind, t), e.span))
            },
            ExprKind::NamedArg { name, value } => {
                let t = self.expand_expr(value, host, fuel)?;
                Ok(Expr::new(rebuild_with_part(&e.kind, t), e.span))
            },
            ExprKind::Lambda { params, return_type, body } => {
                let t = self.expand_expr(body, host, fuel)?;
                Ok(Expr::new(rebuild_with_part(&e.kind, t), e.span))
            },
            ExprKind::Let { name, ty, value, is_mut } => {
                let t = self.expand_expr(value, host, fuel)?;
                Ok(Expr::new(rebuild_with_part(&e.kind, t), e.span))
            },
            ExprKind::Return(Some(v)) => {
                let t = self.expand_expr(v, host, fuel)?;
                Ok(Expr::new(rebuild_with_part(&e.kind, t), e.span))
            },
            ExprKind::EnumCtor { path, case, arg: Some(a) } => {
                let t = self.expand_expr(a, host, fuel)?;
                Ok(Expr::new(rebuild_with_part(&e.kind, t), e.span))
            },
            _ => Ok(e.dup()),
        }
    }

    fn expand_double(&self, e: &Expr, host: &Host, fuel: u64) -> (r: Result<Expr, Stop>)
        ensures
            ran(r) == y_double(expansion(self@, host@), fuel as nat, e@),
        decreases e, 0int,
    {
        proof {
            un_y_double(expansion(self@, host@), fuel as nat, e@);
        }
        let ghost g = expr_v(*e);
        let ghost k = expr_kind_v(e.kind);
        match &e.kind {
            ExprKind::Binary { op, left, right } => {
                let a = self.expand_expr(left, host, fuel)?;
                let b = self.expand_expr(right, host, fuel)?;
                Ok(Expr::new(rebuild_with_parts(&e.kind, a, b), e.span))
            },
            ExprKind::Index { object, index } => {
                let a = self.expand_expr(object, host, fuel)?;
                let b = self.expand_expr(index, host, fuel)?;
                Ok(Expr::new(rebuild_with_parts(&e.kind, a, b), e.span))
            },
            ExprKind::Assign { target, value } => {
                let a = self.expand_expr(target, host, fuel)?;
                let b = self.expand_expr(value, host, fuel)?;
                Ok(Expr::new(rebuild_with_parts(&e.kind, a, b), e.span))
            },
            ExprKind::AssignOp { target, op, value } => {
                let a = self.expand_expr(target, host, fuel)?;
                let b = self.expand_expr(value, host, fuel)?;
                Ok(Expr::new(rebuild_with_parts(&e.kind, a, b), e.span))
            },
            _ => Ok(e.dup()),
        }
    }

    fn expand_list(&self, e: &Expr, host: &Host, fuel: u64) -> (r: Result<Expr, Stop>)
        ensures
            ran(r) == y_list(expansion(self@, host@), fuel as nat, e@),
        decreases e, 0int,
    {
        proof {
            un_y_list(expansion(self@, host@), fuel as nat, e@);
        }
        let ghost g = expr_v(*e);
        let ghost k = expr_kind_v(e.kind);
        match &e.kind {
            ExprKind::Call { func, args } => {
                let f = self.expand_expr(func, host, fuel)?;
                let es = self.expand_exprs(args, host, fuel)?;
                Ok(Expr::call(f, es, e.span))
            },
            ExprKind::GcNew { ty, fields } => {
                let fs = self.expand_fields(fields, host, fuel)?;
                let kind = ExprKind::GcNew { ty: ty.dup(), fields: fs };
                let ghost rk = expr_kind_v(kind);
                Ok(Expr::new(kind, e.span))
            },
            ExprKind::StructLit { path, fields } => {
                let fs = self.expand_fields(fields, host, fuel)?;
                let kind = ExprKind::StructLit { path: dup_strs(path), fields: fs };
                let ghost rk = expr_kind_v(kind);
                Ok(Expr::new(kind, e.span))
            },
            _ => Ok(e.dup()),
        }
    }

    fn expand_flow(&self, e: &Expr, host: &Host, fuel: u64) -> (r: Result<Expr, Stop>)
        ensures
            ran(r) == y_flow(expansion(self@, host@), fuel as nat, e@),
        decreases e, 0int,
    {
        proof {
            un_y_flow(expansion(self@, host@), fuel as nat, e@);
        }
        let ghost g = expr_v(*e);
        let ghost k = expr_kind_v(e.kind);
        match &e.kind {
            ExprKind::If { cond, then_branch, else_branch } => {
                let tb = self.expand_block(then_branch, host, fuel)?;
                let eb = self.expand_else(else_branch, host, fuel)?;
                let c = self.expand_expr(cond, host, fuel)?;
                let kind = ExprKind::If {
                    cond: Box::new(c),
                    then_branch: tb,
                    else_branch: eb,
                };
                let ghost rk = expr_kind_v(kind);
                Ok(Expr::new(kind, e.span))
            },
            ExprKind::While { cond, body } => {
                let b = self.expand_block(body, host, fuel)?;
                let c = self.expand_expr(cond, host, fuel)?;
                let kind = ExprKind::While { cond: Box::new(c), body: b };
                let ghost rk = expr_kind_v(kind);
                Ok(Expr::new(kind, e.span))
            },
            ExprKind::For { var, iter, body } => {
                let b = self.expand_block(body, host, fuel)?;
                let c = self.expand_expr(iter, host, fuel)?;
                let kind = ExprKind::For { var: var.clone(), iter: Box::new(c), body: b };
                let ghost rk = expr_kind_v(kind);
                Ok(Expr::new(kind, e.span))
            },
            _ => Ok(e.dup()),
        }
    }

    fn expand_else(&self, o: &Option<Block>, host: &Host, fuel: u64) -> (r: Result<
        Option<Block>,
        Stop,
    >)
        ensures
            opt_block_ran(r) == y_else(expansion(self@, host@), fuel as nat, opt_block_v(*o)),
        decreases o, 0int,
    {
        proof {
            un_y_else(expansion(self@, host@), fuel as nat, opt_block_v(*o));
        }
        match o {
            None => Ok(None),
            Some(b) => {
                let k = self.expand_block(b, host, fuel)?;
                Ok(Some(k))
            },
        }
    }

    fn expand_match(&self, e: &Expr, host: &Host, fuel: u64) -> (r: Result<Expr, Stop>)
        ensures
            ran(r) == y_match(expansion(self@, host@), fuel as nat, e@),
        decreases e, 0int,
    {
        proof {
            un_y_match(expansion(self@, host@), fuel as nat, e@);
        }
        let ghost g = expr_v(*e);
        let ghost k = expr_kind_v(e.kind);
        match &e.kind {
            ExprKind::Match { expr, arms } => {
                let m = self.expand_expr(expr, host, fuel)?;
                let ks = self.expand_arms(arms, host, fuel)?;
                let kind = ExprKind::Match { expr: Box::new(m), arms: ks };
                let ghost rk = expr_kind_v(kind);
                Ok(Expr::new(kind, e.span))
            },
            _ => Ok(e.dup()),
        }
    }

    fn expand_arms(&self, arms: &Vec<MatchArm>, host: &Host, fuel: u64) -> (r: Result<
        Vec<MatchArm>,
        Stop,
    >)
        ensures
            arms_ran(r) == y_arms(
                expansion(self@, host@),
                fuel as nat,
                match_arms_v(arms@),
                0,
                Seq::empty(),
            ),
        decreases arms, 0int,
    {
        let ghost x = expansion(self@, host@);
        let ghost av = match_arms_v(arms@);
        let mut acc: Vec<MatchArm> = Vec::new();
        let mut i: usize = 0;
        while i < arms.len()
            invariant
                i <= arms.len(),
                x == expansion(self@, host@),
                av == match_arms_v(arms@),
                y_arms(x, fuel as nat, av, 0, Seq::empty()) == y_arms(
                    x,
                    fuel as nat,
                    av,
                    i as int,
                    match_arms_v(acc@),
                ),
            decreases arms.len() - i,
        {
            proof {
                un_y_arms(x, fuel as nat, av, i as int, match_arms_v(acc@));
            }
            let ghost a = match_arm_v(arms[i as int]);
            let guard = self.expand_guard(&arms[i].guard, host, fuel)?;
            let t = self.expand_expr(&arms[i].body, host, fuel)?;
            let arm = MatchArm { pattern: arms[i].pattern.dup(), guard, body: Box::new(t) };
            let ghost rv = match_arm_v(arm);
            acc.push(arm);
            i = i + 1;
        }
        proof {
            un_y_arms(x, fuel as nat, av, i as int, match_arms_v(acc@));
        }
        Ok(acc)
    }

    fn expand_guard(&self, g: &Option<Box<Expr>>, host: &Host, fuel: u64) -> (r: Result<
        Option<Box<Expr>>,
        Stop,
    >)
        ensures
            opt_box_ran(r) == y_guard(expansion(self@, host@), fuel as nat, opt_box_v(*g)),
        decreases g, 0int,
    {
        proof {
            un_y_guard(expansion(self@, host@), fuel as nat, opt_box_v(*g));
        }
        match g {
            None => Ok(None),
            Some(e) => {
                let t = self.expand_expr(e, host, fuel)?;
                Ok(Some(Box::new(t)))
            },
        }
    }
}

spec fn fields_ran(r: Result<Vec<(String, Expr)>, Stop>) -> Result<
    Seq<(Seq<char>, ExprV)>,
    StopV,
> {
    match r {
        Ok(v) => Ok(field_inits_v(v@)),
        Err(s) => Err(s@),
    }
}

spec fn arms_ran(r: Result<Vec<MatchArm>, Stop>) -> Result<Seq<MatchArmV>, StopV> {
    match r {
        Ok(v) => Ok(match_arms_v(v@)),
        Err(s) => Err(s@),
    }
}

spec fn opt_box_ran(r: Result<Option<Box<Expr>>, Stop>) -> Result<Option<Box<ExprV>>, StopV> {
    match r {
        Ok(g) => Ok(opt_box_v(g)),
        Err(s) => Err(s@),
    }
}

// ---------------------------------------------------------------------------- modules

/// The items that statements declare.
fn items_of_stmts(stmts: &Vec<Expr>) -> (r: Vec<Item>)
    ensures
        items_v(r@) == declared(exprs_v(stmts@), 0, Seq::empty()),
    decreases stmts, 0int,
{
    let ghost sv = exprs_v(stmts@);
    let mut acc: Vec<Item> = Vec::new();
    let mut i: usize = 0;
    while i < stmts.len()
        invariant
            i <= stmts.len(),
            sv == exprs_v(stmts@),
            declared(sv, 0, Seq::empty()) == declared(sv, i as int, items_v(acc@)),
        decreases stmts.len() - i,
    {
        proof {
            un_declared(sv, i as int, items_v(acc@));
        }
        let more = items_of_stmt(&stmts[i]);
        append_items(&mut acc, &more);
        i = i + 1;
    }
    proof {
        un_declared(sv, i as int, items_v(acc@));
    }
    acc
}

fn single_item(item: Item) -> (r: Vec<Item>)
    ensures
        items_v(r@) == seq![item@],
{
    let mut v: Vec<Item> = Vec::new();
    v.push(item);
    assert(items_v(v@) =~= seq![item@]);
    v
}

fn items_of_stmt(e: &Expr) -> (r: Vec<Item>)
    ensures
        items_v(r@) == declared_by(e@),
    decreases e, 0int,
{
    proof {
        un_declared_by(e@);
    }
    let ghost g = expr_v(*e);
    let ghost k = expr_kind_v(e.kind);
    match &e.kind {
        ExprKind::FuncDef(f) => {
            let item = Item::Function(f.dup());
            let ghost iv = item_v(item);
            single_item(item)
        },
        ExprKind::Let { name, ty, value, is_mut } => {
            let v = VarDecl {
                name: name.clone(),
                ty: dup_opt_type(ty),
                value: Some(value.dup()),
                is_mut: *is_mut,
                span: e.span,
            };
            let ghost vv = var_decl_v(v);
            let item = Item::VarDecl(v);
            let ghost iv = item_v(item);
            single_item(item)
        },
        ExprKind::Quote(inner) => items_of_stmts(inner),
        ExprKind::Block(b) => {
            let ghost bv = block_v(*b);
            items_of_stmts(&b.stmts)
        },
        _ => Vec::new(),
    }
}

/// The items that the result of a macro stands for.
fn items_of_result(e: Expr) -> (r: Vec<Item>)
    ensures
        items_v(r@) == result_items(e@),
{
    let ghost g = expr_v(e);
    let ghost k = expr_kind_v(e.kind);
    match &e.kind {
        ExprKind::Block(b) => {
            let ghost bv = block_v(*b);
            items_of_stmts(&b.stmts)
        },
        ExprKind::FuncDef(f) => {
            let item = Item::Function(f.dup());
            let ghost iv = item_v(item);
            single_item(item)
        },
        ExprKind::Quote(stmts) => items_of_stmts(stmts),
        ExprKind::CompileTimeResult(items) => dup_items(items),
        _ => Vec::new(),
    }
}

fn texts_of_param_types(ps: &Vec<Param>) -> (r: Vec<String>)
    ensures
        strs_v(r@) == param_type_texts(params_v(ps@)),
{
    let mut out: Vec<String> = Vec::new();
    let mut i: usize = 0;
    while i < ps.len()
        invariant
            i <= ps.len(),
            strs_v(out@) == param_type_texts(params_v(ps@)).take(i as int),
        decreases ps.len() - i,
    {
        let ghost pv = param_v(ps[i as int]);
        out.push(ps[i].ty.display());
        i = i + 1;
        assert(strs_v(out@) =~= param_type_texts(params_v(ps@)).take(i as int));
    }
    assert(strs_v(out@) =~= param_type_texts(params_v(ps@)));
    out
}

/// By what an item is recognized as one that was brought before.
fn item_signature(i: &Item) -> (r: Option<String>)
    ensures
        opt_str_v(r) == signature(i@),
{
    let ghost g = item_v(*i);
    match i {
        Item::Function(f) => {
            let ghost x = function_v(*f);
            let ts = join(&texts_of_param_types(&f.params), ",");
            Some(cat5("fn ", &f.name, "(", &ts, ")"))
        },
        Item::Struct(s) => {
            let ghost x = struct_v(*s);
            Some(cat2("struct ", &s.name))
        },
        Item::Enum(e) => {
            let ghost x = enum_v(*e);
            Some(cat2("enum ", &e.name))
        },
        Item::TypeAlias(t) => {
            let ghost x = type_alias_v(*t);
            Some(cat2("type ", &t.name))
        },
        Item::VarDecl(v) => {
            let ghost x = var_decl_v(*v);
            Some(cat2("var ", &v.name))
        },
        _ => None,
    }
}

/// The items that were not brought before, behind the others.
fn splice_items(more: &Vec<Item>, sigs: &mut Vec<String>, acc: &mut Vec<Item>)
    ensures
        (strs_v(final(sigs)@), items_v(final(acc)@)) == spliced_in(
            items_v(more@),
            0,
            strs_v(old(sigs)@),
            items_v(old(acc)@),
        ),
{
    let ghost mv = items_v(more@);
    let mut i: usize = 0;
    while i < more.len()
        invariant
            i <= more.len(),
            mv == items_v(more@),
            spliced_in(mv, 0, strs_v(old(sigs)@), items_v(old(acc)@)) == spliced_in(
                mv,
                i as int,
                strs_v(sigs@),
                items_v(acc@),
            ),
        decreases more.len() - i,
    {
        let ghost iv = mv[i as int];
        match item_signature(&more[i]) {
            Some(g) => {
                if !contains_str(sigs, &g) {
                    sigs.push(g);
                    acc.push(more[i].dup());
                }
            },
            None => {
                acc.push(more[i].dup());
            },
        }
        i = i + 1;
    }
}

fn find_import(items: &Vec<Item>) -> (r: Option<MacroDef>)
    ensures
        match r {
            Some(m) => import_macro_in(items_v(items@), 0) == Some(m@),
            None => import_macro_in(items_v(items@), 0) is None,
        },
{
    let mut i: usize = 0;
    while i < items.len()
        invariant
            i <= items.len(),
            import_macro_in(items_v(items@), 0) == import_macro_in(
                items_v(items@),
                i as int,
            ),
        decreases items.len() - i,
    {
        let ghost iv = item_v(items[i as int]);
        if let Item::Macro(m) = &items[i] {
            let ghost mv = macro_def_v(*m);
            if str_eq(&m.name, "import") {
                return Some(m.dup());
            }
        }
        i = i + 1;
    }
    None
}

impl MacroExpander {
    /// An expander that knows the `import` of `std/compile/import.nv`, where there is one.
    pub fn new(import_macro: ImportMacro, interpreter: Interpreter, host: &Host) -> (r: Result<
        Self,
        Stop,
    >)
        ensures
            ran(r) == (match first_macros(host@, import_macro@) {
                Ok(macros) => Ok::<ExpanderV, StopV>(
                    ExpanderV { macros, dirs: import_macro@, program: interpreter@ },
                ),
                Err(s) => Err(s),
            }),
    {
        let mut macros: StrMap<MacroDef> = StrMap::new();
        if let Some(src) = import_macro.try_read_file("std/compile/import.nv", host)? {
            if let Ok(m) = parse_source(&src, "import") {
                let ghost mv = module_v(m);
                if let Some(d) = find_import(&m.items) {
                    macros.insert("import", d);
                    assert(macros@ =~= map!["import"@ => d@]);
                }
            }
        }
        Ok(MacroExpander { macros, import_macro, interpreter })
    }

    /// The structs of a module become known to macros.
    pub fn register_structs(&mut self, module: &Module)
        ensures
            final(self)@ == (ExpanderV {
                program: Program {
                    structs: structs_from(module@.items, 0, old(self)@.program.structs),
                    ..old(self)@.program
                },
                ..old(self)@
            }),
    {
        self.interpreter.register_structs(module);
    }

    fn register_macros(&mut self, items: &Vec<Item>)
        ensures
            final(self)@ == (ExpanderV {
                macros: macros_from(items_v(items@), 0, old(self)@.macros),
                ..old(self)@
            }),
    {
        let ghost iv = items_v(items@);
        let mut i: usize = 0;
        while i < items.len()
            invariant
                i <= items.len(),
                iv == items_v(items@),
                self@ == (ExpanderV { macros: self@.macros, ..old(self)@ }),
                macros_from(iv, 0, old(self)@.macros) == macros_from(
                    iv,
                    i as int,
                    self@.macros,
                ),
            decreases items.len() - i,
        {
            let ghost x = item_v(items[i as int]);
            if let Item::Macro(m) = &items[i] {
                let ghost mv = macro_def_v(*m);
                self.macros.insert(&m.name, m.dup());
            }
            i = i + 1;
        }
    }

    /// The items that a call of a macro among the items of a module gives.
    fn expand_module_macro(&self, c: &MacroCallItem, host: &Host, fuel: u64) -> (r: Result<
        Vec<Item>,
        Stop,
    >)
        ensures
            items_ran(r) == y_call(expansion(self@, host@), fuel as nat, c@),
    {
        let ghost cv = macro_call_item_v(*c);
        let ghost av = exprs_v(c.args@);
        let is_import: bool = str_eq(&c.name, "import");
        match self.macros.get(&c.name) {
            Some(m) => {
                let ghost mv = macro_def_v(*m);
                let ghost pv = strs_v(m.params@);
                if is_import && m.params.len() != c.args.len() {
                    return self.import_macro.eval(&c.args, c.span, host);
                }
                let e = self.eval_macro(m, &c.args, c.span, host, fuel)?;
                Ok(items_of_result(e))
            },
            None => {
                if is_import {
                    self.import_macro.eval(&c.args, c.span, host)
                } else {
                    Err(unbound_failure("Undefined macro: '", &c.name, c.span))
                }
            },
        }
    }

    fn expand_function(&self, f: &Function, host: &Host, fuel: u64) -> (r: Result<Function, Stop>)
        ensures
            ran(r) == y_function(expansion(self@, host@), fuel as nat, f@),
    {
        let ghost fv = function_v(*f);
        let body = self.expand_block(&f.body, host, fuel)?;
        let mut f2 = f.dup();
        let ghost f1 = function_v(f2);
        f2.body = body;
        let ghost rv = function_v(f2);
        Ok(f2)
    }

    fn expand_methods(&self, ms: &Vec<Function>, host: &Host, fuel: u64) -> (r: Result<
        Vec<Function>,
        Stop,
    >)
        ensures
            methods_ran(r) == y_methods(
                expansion(self@, host@),
                fuel as nat,
                functions_v(ms@),
                0,
                Seq::empty(),
            ),
    {
        let ghost x = expansion(self@, host@);
        let ghost mv = functions_v(ms@);
        let mut acc: Vec<Function> = Vec::new();
        let mut i: usize = 0;
        while i < ms.len()
            invariant
                i <= ms.len(),
                x == expansion(self@, host@),
                mv == functions_v(ms@),
                y_methods(x, fuel as nat, mv, 0, Seq::empty()) == y_methods(
                    x,
                    fuel as nat,
                    mv,
                    i as int,
                    functions_v(acc@),
                ),
            decreases ms.len() - i,
        {
            let g = self.expand_function(&ms[i], host, fuel)?;
            acc.push(g);
            i = i + 1;
        }
        Ok(acc)
    }

    fn expand_trait(&self, t: &TraitDef, host: &Host, fuel: u64) -> (r: Result<TraitDef, Stop>)
        ensures
            ran(r) == match y_methods(
                expansion(self@, host@),
                fuel as nat,
                t@.methods,
                0,
                Seq::empty(),
            ) {
                Err(s) => Err(s),
                Ok(methods) => Ok(TraitDefV { methods, ..t@ }),
            },
    {
        let ghost tv = trait_def_v(*t);
        let methods = self.expand_methods(&t.methods, host, fuel)?;
        let mut t2 = t.dup();
        let ghost t1 = trait_def_v(t2);
        t2.methods = methods;
        let ghost rv = trait_def_v(t2);
        Ok(t2)
    }

    fn expand_impl(&self, b: &ImplBlock, host: &Host, fuel: u64) -> (r: Result<ImplBlock, Stop>)
        ensures
            ran(r) == match y_methods(
                expansion(self@, host@),
                fuel as nat,
                b@.methods,
                0,
                Seq::empty(),
            ) {
                Err(s) => Err(s),
                Ok(methods) => Ok(ImplBlockV { methods, ..b@ }),
            },
    {
        let ghost bv = impl_block_v(*b);
        let methods = self.expand_methods(&b.methods, host, fuel)?;
        let mut b2 = b.dup();
        let ghost b1 = impl_block_v(b2);
        b2.methods = methods;
        let ghost rv = impl_block_v(b2);
        Ok(b2)
    }

    fn expand_var(&self, v: &VarDecl, host: &Host, fuel: u64) -> (r: Result<VarDecl, Stop>)
        ensures
            ran(r) == y_var(expansion(self@, host@), fuel as nat, v@),
    {
        let ghost vv = var_decl_v(*v);
        match &v.value {
            None => Ok(v.dup()),
            Some(e) => {
                let t = self.expand_expr(e, host, fuel)?;
                let mut w = v.dup();
                let ghost w1 = var_decl_v(w);
                w.value = Some(t);
                let ghost rv = var_decl_v(w);
                Ok(w)
            },
        }
    }

    fn expand_items(&mut self, items: &Vec<Item>, host: &Host, fuel: u64) -> (r: Result<
        Vec<Item>,
        Stop,
    >)
        ensures
            (items_ran(r), final(self)@.macros) == y_items(
                expansion(old(self)@, host@),
                fuel as nat,
                items_v(items@),
                0,
                Seq::empty(),
                Seq::empty(),
            ),
            final(self)@ == (ExpanderV { macros: final(self)@.macros, ..old(self)@ }),
    {
        let ghost iv = items_v(items@);
        let ghost before = self@;
        let mut acc: Vec<Item> = Vec::new();
        let mut sigs: Vec<String> = Vec::new();
        let mut i: usize = 0;
        while i < items.len()
            invariant
                i <= items.len(),
                iv == items_v(items@),
                before == old(self)@,
                self@ == (ExpanderV { macros: self@.macros, ..before }),
                y_items(
                    expansion(before, host@),
                    fuel as nat,
                    iv,
                    0,
                    Seq::empty(),
                    Seq::empty(),
                ) == y_items(
                    expansion(self@, host@),
                    fuel as nat,
                    iv,
                    i as int,
                    strs_v(sigs@),
                    items_v(acc@),
                ),
            decreases items.len() - i,
        {
            let ghost x = item_v(items[i as int]);
            match &items[i] {
                Item::Macro(_) => {},
                Item::MacroCall(c) => {
                    let more = self.expand_module_macro(c, host, fuel)?;
                    self.register_macros(&more);
                    splice_items(&more, &mut sigs, &mut acc);
                },
                Item::Function(f) => {
                    let g = self.expand_function(f, host, fuel)?;
                    let item = Item::Function(g);
                    let ghost gv = item_v(item);
                    acc.push(item);
                },
                Item::VarDecl(v) => {
                    let w = self.expand_var(v, host, fuel)?;
                    let item = Item::VarDecl(w);
                    let ghost wv = item_v(item);
                    acc.push(item);
                },
                Item::Trait(t) => {
                    let t2 = self.expand_trait(t, host, fuel)?;
                    let item = Item::Trait(t2);
                    let ghost tv = item_v(item);
                    acc.push(item);
                },
                Item::Impl(b) => {
                    let b2 = self.expand_impl(b, host, fuel)?;
                    let item = Item::Impl(b2);
                    let ghost bv = item_v(item);
                    acc.push(item);
                },
                _ => {
                    acc.push(items[i].dup());
                },
            }
            i = i + 1;
        }
        Ok(acc)
    }

    /// Expands the macros of a module. Where that fails the module has no items left.
    pub fn expand_module(&mut self, module: &mut Module, host: &Host, fuel: u64) -> (r: Result<
        (),
        Stop,
    >)
        ensures
            ({
                let (items, macros) = y_module(
                    expansion(old(self)@, host@),
                    fuel as nat,
                    old(module)@.items,
                );
                &&& final(self)@ == (ExpanderV { macros, ..old(self)@ })
                &&& final(module)@.name == old(module)@.name
                &&& final(module)@.imports == old(module)@.imports
                &&& match r {
                    Ok(_) => items == Ok::<Seq<ItemV>, StopV>(final(module)@.items),
                    Err(s) => items == Err::<Seq<ItemV>, StopV>(s@) && final(module)@.items
                        == Seq::<ItemV>::empty(),
                }
            }),
    {
        let ghost mv = module_v(*module);
        let mut items: Vec<Item> = Vec::new();
        std::mem::swap(&mut items, &mut module.items);
        let ghost mv1 = module_v(*module);
        self.register_macros(&items);
        let expanded = self.expand_items(&items, host, fuel)?;
        module.items = expanded;
        let ghost mv2 = module_v(*module);
        Ok(())
    }
}

} // verus!
