//! The interpreter: it runs macros while a program is compiled, and whole programs.
use vstd::prelude::*;
use crate::maps::Dup;

verus! {

use crate::ast::{
    BinOp, Block, Expr, ExprKind, Function, ImplBlock, Item, LiteralPat, MatchArm, Module, Param,
    Pattern, PatternKind, Struct, StructField, Type, UnaryOp,
};
use crate::debug::show_debug_bool;
use crate::error::CompileError;
use crate::host::{
    FileState, FloatOp, Host, HostV, Stop, StopV, float_holds, float_result, join_path, ran,
};
use crate::interp_model::{
    Ctx, Matched, Ran, assign_op_result, b_build, b_declare, b_error, b_filter_pub, b_inspect,
    b_list_push, b_lookup_type, b_make_binary, b_make_block, b_make_call, b_make_field,
    b_make_function, b_make_impl, b_make_let, b_make_literal, b_make_struct, b_print, b_print_int,
    b_render, b_set_name, b_splice, b_struct_fields, b_to_string, bare_type, best_overload,
    binary_result, bool_value, bound, builtin, call_scope, candidates, chosen, condition,
    cpp_result, e_apply, e_args, e_arms, e_body, e_call, e_ctor, e_double, e_expr, e_fields, e_for,
    e_guard, e_if, e_match, e_record, e_rounds, e_single, e_stmts, e_store, e_user, e_while,
    exprs_among, fails, field_pair, field_result, file_text, first, fit, float_op_result,
    float_value, functions_among, index_result, int_result, is_public, item_kind, item_name,
    loop_values, made_body, made_fields, made_params, matched_if, nth, operands_message,
    pattern_match, printed, public_from, read_from, renamed, same_value, score, slashed, spliced,
    string_arg, text_pair, unary_result, unknown_field, value_type, with_arity,
};
use crate::interp_rules::{
    un_e_apply, un_e_args, un_e_arms, un_e_body, un_e_call, un_e_ctor, un_e_double, un_e_expr,
    un_e_fields, un_e_for, un_e_guard, un_e_if, un_e_match, un_e_record, un_e_rounds, un_e_single,
    un_e_stmts, un_e_store, un_e_user, un_e_while,
};
use crate::maps::{
    FunctionList, StrList, StrMap, contains_str, lemma_list_empty, lemma_list_push, lookup,
};
use crate::model::{
    ExprKindV, ExprV, FunctionV, ItemV, ParamV, StructFieldV, StructV, block_v, dup_exprs,
    dup_items, enum_v, expr_kind_v, expr_v, exprs_v, field_inits_v, function_v, functions_v,
    group_list_views, impl_block_v, item_v, items_v, literal_pat_v, match_arm_v, match_arms_v,
    module_v, param_v, params_v, path_segment_v, path_v, pattern_kind_v, pattern_v, struct_field_v,
    struct_fields_v, struct_v, trait_def_v, type_alias_v, type_v, var_decl_v,
};
use crate::source::parse_source;
use crate::text::{
    cat2, cat3, cat4, cat5, cat6, chars_of, contains_text, is_text_at, join, opt_str_v, show_i64,
    show_usize, str_eq, strs_v, text_of, trim,
};
use crate::token::{Span, zero_span};
use crate::value::{
    Value, ValueV, dup_values, find_value_field, group_value_views, lemma_values_push, put_field,
    value_fields_v, value_v, values_v,
};

broadcast use {group_list_views, group_value_views, lemma_list_push, lemma_list_empty};

spec fn bool_ran(r: Result<bool, Stop>) -> Result<bool, StopV> {
    match r {
        Ok(b) => Ok(b),
        Err(s) => Err(s@),
    }
}

fn failure(message: &str, span: Span) -> (r: Stop)
    ensures
        r@ == fails(message@, span),
{
    Stop::Error(CompileError::macro_err(message, span))
}

// ------------------------------------------------------------------ types of values

/// The last name of a type, seen through references.
fn name_of_type(t: &Type) -> (r: Option<String>)
    ensures
        opt_str_v(r) == bare_type(t@),
    decreases t,
{
    let ghost g = type_v(*t);
    match t {
        Type::Path(p) => {
            let ghost pv = path_v(*p);
            let n: usize = p.segments.len();
            if n > 0 {
                let ghost sv = path_segment_v(p.segments[n - 1]);
                Some(p.segments[n - 1].name.clone())
            } else {
                None
            }
        },
        Type::GcRef(inner) => name_of_type(inner),
        _ => None,
    }
}

/// The type of a value, where it has a name.
fn type_of_value(v: &Value) -> (r: Option<String>)
    ensures
        opt_str_v(r) == value_type(v@),
{
    let ghost g = value_v(*v);
    match v {
        Value::Int(_) => Some("Int".to_owned()),
        Value::Float(_) => Some("Float".to_owned()),
        Value::String(_) => Some("String".to_owned()),
        Value::Bool(_) => Some("Bool".to_owned()),
        Value::Struct(n, _) => Some(n.clone()),
        _ => None,
    }
}

// ----------------------------------------------------------------------- operators

fn int_op(op: BinOp, a: i64, b: i64, span: Span) -> (r: Result<Value, Stop>)
    ensures
        ran(r) == int_result(op, a, b, span),
{
    match op {
        BinOp::Add => Ok(Value::Int(a.wrapping_add(b))),
        BinOp::Sub => Ok(Value::Int(a.wrapping_sub(b))),
        BinOp::Mul => Ok(Value::Int(a.wrapping_mul(b))),
        BinOp::Div => match a.checked_div(b) {
            Some(q) => Ok(Value::Int(q)),
            None => {
                if b == 0 {
                    Err(failure("attempt to divide by zero", span))
                } else {
                    Err(failure("attempt to divide with overflow", span))
                }
            },
        },
        BinOp::Mod => match a.checked_rem(b) {
            Some(q) => Ok(Value::Int(q)),
            None => {
                if b == 0 {
                    Err(
                        failure(
                            "attempt to calculate the remainder with a divisor of zero",
                            span,
                        ),
                    )
                } else {
                    Err(failure("attempt to calculate the remainder with overflow", span))
                }
            },
        },
        BinOp::Eq => Ok(Value::Bool(a == b)),
        BinOp::NotEq => Ok(Value::Bool(a != b)),
        BinOp::Lt => Ok(Value::Bool(a < b)),
        BinOp::Gt => Ok(Value::Bool(a > b)),
        BinOp::LtEq => Ok(Value::Bool(a <= b)),
        BinOp::GtEq => Ok(Value::Bool(a >= b)),
        BinOp::And => Err(failure("And requires bool", span)),
        BinOp::Or => Err(failure("Or requires bool", span)),
    }
}

fn float_compute(h: &Host, op: FloatOp, a: &str, b: &str) -> (r: Result<Value, Stop>)
    ensures
        ran(r) == float_value(float_result(h@, op, a@, b@)),
{
    let t = h.float(op, a, b)?;
    Ok(Value::Float(t))
}

fn float_test(h: &Host, op: FloatOp, a: &str, b: &str) -> (r: Result<Value, Stop>)
    ensures
        ran(r) == bool_value(float_holds(h@, op, a@, b@)),
{
    let t = h.compare(op, a, b)?;
    Ok(Value::Bool(t))
}

fn float_op(h: &Host, op: BinOp, a: &str, b: &str, span: Span) -> (r: Result<Value, Stop>)
    ensures
        ran(r) == float_op_result(h@, op, a@, b@, span),
{
    match op {
        BinOp::Add => float_compute(h, FloatOp::Add, a, b),
        BinOp::Sub => float_compute(h, FloatOp::Sub, a, b),
        BinOp::Mul => float_compute(h, FloatOp::Mul, a, b),
        BinOp::Div => float_compute(h, FloatOp::Div, a, b),
        BinOp::Mod => Err(failure("Cannot modulo", span)),
        BinOp::Eq => float_test(h, FloatOp::Equal, a, b),
        BinOp::NotEq => {
            let t = h.compare(FloatOp::Equal, a, b)?;
            Ok(Value::Bool(!t))
        },
        BinOp::Lt => float_test(h, FloatOp::Less, a, b),
        BinOp::Gt => float_test(h, FloatOp::Greater, a, b),
        BinOp::LtEq => float_test(h, FloatOp::LessOrEqual, a, b),
        BinOp::GtEq => float_test(h, FloatOp::GreaterOrEqual, a, b),
        BinOp::And => Err(failure("And requires bool", span)),
        BinOp::Or => Err(failure("Or requires bool", span)),
    }
}

/// Whether two values are equal.
fn equal(h: &Host, a: &Value, b: &Value) -> (r: Result<bool, Stop>)
    ensures
        bool_ran(r) == same_value(h@, a@, b@),
    decreases a,
{
    let ghost ga = value_v(*a);
    let ghost gb = value_v(*b);
    match (a, b) {
        (Value::Int(x), Value::Int(y)) => Ok(*x == *y),
        (Value::Float(x), Value::Float(y)) => h.compare(FloatOp::Equal, x, y),
        (Value::String(x), Value::String(y)) => Ok(str_eq(x, y)),
        (Value::Bool(x), Value::Bool(y)) => Ok(*x == *y),
        (Value::Nil, Value::Nil) => Ok(true),
        (Value::Enum(m, p), Value::Enum(n, q)) => {
            if !str_eq(m, n) {
                return Ok(false);
            }
            match (p, q) {
                (None, None) => Ok(true),
                (Some(x), Some(y)) => equal(h, x, y),
                _ => Ok(false),
            }
        },
        _ => Ok(false),
    }
}

fn operands_failure(op: BinOp, span: Span) -> (r: Stop)
    ensures
        r@ == fails(operands_message(op), span),
{
    match op {
        BinOp::Add => failure("Cannot add these types", span),
        BinOp::Sub => failure("Cannot subtract", span),
        BinOp::Mul => failure("Cannot multiply", span),
        BinOp::Div => failure("Cannot divide", span),
        BinOp::Mod => failure("Cannot modulo", span),
        BinOp::And => failure("And requires bool", span),
        BinOp::Or => failure("Or requires bool", span),
        _ => failure("Cannot compare", span),
    }
}

fn binary(h: &Host, op: BinOp, l: &Value, r: &Value, span: Span) -> (res: Result<Value, Stop>)
    ensures
        ran(res) == binary_result(h@, op, l@, r@, span),
{
    let ghost gl = value_v(*l);
    let ghost gr = value_v(*r);
    if matches!(op, BinOp::Eq) {
        let t = equal(h, l, r)?;
        return Ok(Value::Bool(t));
    }
    if matches!(op, BinOp::NotEq) {
        let t = equal(h, l, r)?;
        return Ok(Value::Bool(!t));
    }
    match (l, r) {
        (Value::Int(a), Value::Int(b)) => int_op(op, *a, *b, span),
        (Value::Float(a), Value::Float(b)) => float_op(h, op, a, b, span),
        (Value::String(a), Value::String(b)) => {
            if matches!(op, BinOp::Add) {
                Ok(Value::String(cat2(a, b)))
            } else {
                Err(operands_failure(op, span))
            }
        },
        (Value::Bool(a), Value::Bool(b)) => {
            if matches!(op, BinOp::And) {
                Ok(Value::Bool(*a && *b))
            } else if matches!(op, BinOp::Or) {
                Ok(Value::Bool(*a || *b))
            } else {
                Err(operands_failure(op, span))
            }
        },
        _ => Err(operands_failure(op, span)),
    }
}

fn unary(h: &Host, op: UnaryOp, v: Value, span: Span) -> (r: Result<Value, Stop>)
    ensures
        ran(r) == unary_result(h@, op, v@, span),
{
    let ghost g = value_v(v);
    match op {
        UnaryOp::Neg => match v {
            Value::Int(n) => Ok(Value::Int(0i64.wrapping_sub(n))),
            Value::Float(s) => float_compute(h, FloatOp::Neg, &s, ""),
            _ => Err(failure("Cannot negate this type", span)),
        },
        UnaryOp::Not => match v {
            Value::Bool(b) => Ok(Value::Bool(!b)),
            _ => Err(failure("Cannot ! this type", span)),
        },
    }
}

fn assign_op(op: BinOp, current: &Value, v: &Value, span: Span) -> (r: Result<Value, Stop>)
    ensures
        ran(r) == assign_op_result(op, current@, v@, span),
{
    let ghost gc = value_v(*current);
    let ghost gv = value_v(*v);
    match op {
        BinOp::Add => match (current, v) {
            (Value::Int(a), Value::Int(b)) => Ok(Value::Int((*a).wrapping_add(*b))),
            _ => Err(failure("Cannot += these types", span)),
        },
        BinOp::Sub => match (current, v) {
            (Value::Int(a), Value::Int(b)) => Ok(Value::Int((*a).wrapping_sub(*b))),
            _ => Err(failure("Cannot -= these types", span)),
        },
        _ => Err(failure("Unsupported assign-op", span)),
    }
}

// -------------------------------------------------------------- fields, indices, cases

/// The name of an item, where it has one.
pub fn name_of_item(i: &Item) -> (r: String)
    ensures
        r@ == item_name(i@),
{
    let ghost g = item_v(*i);
    match i {
        Item::Function(f) => {
            let ghost x = function_v(*f);
            f.name.clone()
        },
        Item::Struct(s) => {
            let ghost x = struct_v(*s);
            s.name.clone()
        },
        Item::Enum(e) => {
            let ghost x = enum_v(*e);
            e.name.clone()
        },
        Item::TypeAlias(t) => {
            let ghost x = type_alias_v(*t);
            t.name.clone()
        },
        Item::VarDecl(v) => {
            let ghost x = var_decl_v(*v);
            v.name.clone()
        },
        _ => "<unnamed>".to_owned(),
    }
}

fn kind_of_item(i: &Item) -> (r: String)
    ensures
        r@ == item_kind(i@),
{
    let ghost g = item_v(*i);
    match i {
        Item::Function(_) => "Function".to_owned(),
        Item::Struct(_) => "Struct".to_owned(),
        Item::Enum(_) => "Enum".to_owned(),
        Item::TypeAlias(_) => "TypeAlias".to_owned(),
        Item::VarDecl(_) => "VarDecl".to_owned(),
        Item::Macro(_) => "Macro".to_owned(),
        Item::MacroCall(_) => "MacroCall".to_owned(),
        Item::Trait(_) => "Trait".to_owned(),
        Item::Impl(_) => "Impl".to_owned(),
    }
}

fn field_failure(field: &str, span: Span) -> (r: Stop)
    ensures
        r@ == unknown_field(field@, span),
{
    failure(&cat3("Unknown field '", field, "'"), span)
}

fn access_field(obj: &Value, field: &str, span: Span) -> (r: Result<Value, Stop>)
    ensures
        ran(r) == field_result(obj@, field@, span),
{
    let ghost g = value_v(*obj);
    match obj {
        Value::Struct(n, fs) => {
            match find_value_field(fs, field) {
                Some(k) => {
                    let ghost f = value_fields_v(fs@)[k as int];
                    Ok(fs[k].1.dup())
                },
                None => Err(
                    failure(&cat5("Struct '", n, "' has no field '", field, "'"), span),
                ),
            }
        },
        Value::Module(m) => {
            let ghost mv = module_v(*m);
            if str_eq(field, "name") {
                Ok(Value::String(m.name.clone()))
            } else if str_eq(field, "items") {
                Ok(Value::Items(dup_items(&m.items)))
            } else {
                Err(field_failure(field, span))
            }
        },
        Value::Item(i) => {
            if str_eq(field, "name") {
                Ok(Value::String(name_of_item(i)))
            } else if str_eq(field, "kind") {
                Ok(Value::String(kind_of_item(i)))
            } else {
                Err(field_failure(field, span))
            }
        },
        _ => Err(field_failure(field, span)),
    }
}

fn index(obj: &Value, idx: &Value, span: Span) -> (r: Result<Value, Stop>)
    ensures
        ran(r) == index_result(obj@, idx@, span),
{
    let ghost go = value_v(*obj);
    let ghost gi = value_v(*idx);
    match (obj, idx) {
        (Value::List(xs), Value::Int(i)) => {
            let ghost xv = values_v(xs@);
            if *i < 0 || *i as u64 >= xs.len() as u64 {
                return Err(failure("Index out of bounds", span));
            }
            let k: usize = *i as usize;
            Ok(xs[k].dup())
        },
        _ => Err(failure("Can only index lists with integers", span)),
    }
}

spec fn values_ran(r: Result<Vec<Value>, Stop>) -> Result<Seq<ValueV>, StopV> {
    match r {
        Ok(v) => Ok(values_v(v@)),
        Err(s) => Err(s@),
    }
}

fn values_to_loop(v: &Value, span: Span) -> (r: Result<Vec<Value>, Stop>)
    ensures
        values_ran(r) == loop_values(v@, span),
{
    let ghost g = value_v(*v);
    match v {
        Value::List(xs) => Ok(dup_values(xs)),
        Value::Items(xs) => {
            let mut out: Vec<Value> = Vec::new();
            let ghost want = Seq::new(items_v(xs@).len(), |i: int| ValueV::Item(items_v(xs@)[i]));
            let mut i: usize = 0;
            while i < xs.len()
                invariant
                    i <= xs.len(),
                    want == Seq::new(
                        items_v(xs@).len(),
                        |i: int| ValueV::Item(items_v(xs@)[i]),
                    ),
                    values_v(out@) == want.take(i as int),
                decreases xs.len() - i,
            {
                out.push(Value::Item(xs[i].dup()));
                i = i + 1;
                assert(values_v(out@) =~= want.take(i as int));
            }
            assert(values_v(out@) =~= want);
            Ok(out)
        },
        _ => Err(failure("Can only iterate over lists", span)),
    }
}

spec fn matched(r: Result<Option<Vec<(String, Value)>>, Stop>) -> Matched {
    match r {
        Ok(Some(bs)) => Ok(Some(value_fields_v(bs@))),
        Ok(None) => Ok(None),
        Err(s) => Err(s@),
    }
}

fn matching(b: bool) -> (r: Result<Option<Vec<(String, Value)>>, Stop>)
    ensures
        matched(r) == matched_if(b),
{
    if b {
        Ok(Some(Vec::new()))
    } else {
        Ok(None)
    }
}

/// Whether a pattern matches a value, and what it binds.
fn match_pattern(v: &Value, p: &Pattern) -> (r: Result<Option<Vec<(String, Value)>>, Stop>)
    ensures
        matched(r) == pattern_match(v@, p@),
    decreases p,
{
    let ghost gv = value_v(*v);
    let ghost gp = pattern_v(*p);
    let ghost gk = pattern_kind_v(p.kind);
    match &p.kind {
        PatternKind::Wildcard => Ok(Some(Vec::new())),
        PatternKind::Variable { name, is_mut } => {
            let mut bs: Vec<(String, Value)> = Vec::new();
            bs.push((name.clone(), v.dup()));
            assert(value_fields_v(bs@) =~= seq![(name@, v@)]);
            Ok(Some(bs))
        },
        PatternKind::EnumCtor { path, case, inner } => {
            match v {
                Value::Enum(c, payload) => {
                    if !str_eq(c, case) {
                        return Ok(None);
                    }
                    match (inner, payload) {
                        (None, None) => Ok(Some(Vec::new())),
                        (Some(q), Some(x)) => match_pattern(x, q),
                        _ => Ok(None),
                    }
                },
                _ => Ok(None),
            }
        },
        PatternKind::Literal(l) => {
            let ghost gl = literal_pat_v(*l);
            match (l, v) {
                (LiteralPat::Int(a), Value::Int(b)) => matching(*a == *b),
                (LiteralPat::Bool(a), Value::Bool(b)) => matching(*a == *b),
                (LiteralPat::String(a), Value::String(b)) => matching(str_eq(a, b)),
                (LiteralPat::Nil, Value::Nil) => matching(true),
                _ => Ok(None),
            }
        },
        _ => Err(failure(&cat2("Unsupported pattern: ", &p.kind.debug()), p.span)),
    }
}

fn bind_values(env: &mut StrMap<Value>, bs: &Vec<(String, Value)>)
    ensures
        final(env)@ == bound(old(env)@, value_fields_v(bs@), 0),
{
    let mut i: usize = 0;
    while i < bs.len()
        invariant
            i <= bs.len(),
            bound(old(env)@, value_fields_v(bs@), 0) == bound(
                env@,
                value_fields_v(bs@),
                i as int,
            ),
        decreases bs.len() - i,
    {
        let ghost b = value_fields_v(bs@)[i as int];
        env.insert(&bs[i].0, bs[i].1.dup());
        i = i + 1;
    }
}

// -------------------------------------------------------------------------- built-ins

fn arg_string(args: &Vec<Value>, k: usize, span: Span) -> (r: Result<String, Stop>)
    ensures
        ran(r) == string_arg(values_v(args@), k as int, span),
{
    if k < args.len() {
        let ghost g = value_v(args[k as int]);
        match &args[k] {
            Value::String(s) => Ok(s.clone()),
            _ => Err(failure("Expected string argument", span)),
        }
    } else {
        Err(failure("Expected string argument", span))
    }
}

/// The names that a path may have on disk.
fn candidate_names(path: &str) -> (r: Vec<String>)
    ensures
        strs_v(r@) == candidates(path@),
{
    let mut out: Vec<String> = Vec::new();
    out.push(path.to_owned());
    let v = chars_of(path);
    let nv = chars_of(".nv");
    proof {
        reveal_strlit(".nv");
    }
    if v.len() >= 3 && is_text_at(&v, &nv, v.len() - 3) {
        let mut stem: Vec<char> = Vec::new();
        let ghost want = slashed(path@.take(path@.len() - 3));
        let mut i: usize = 0;
        while i < v.len() - 3
            invariant
                3 <= v.len(),
                v@ == path@,
                i <= v.len() - 3,
                want == slashed(path@.take(path@.len() - 3)),
                stem@ == want.take(i as int),
            decreases v.len() - i,
        {
            stem.push(
                if v[i] == '.' {
                    '/'
                } else {
                    v[i]
                },
            );
            i = i + 1;
            assert(stem@ =~= want.take(i as int));
        }
        assert(stem@ =~= want);
        let t = text_of(&stem);
        out.push(cat2(&t, ".nv"));
        assert(strs_v(out@) =~= candidates(path@));
    } else {
        assert(strs_v(out@) =~= candidates(path@));
    }
    out
}

fn dup_exprs_among(xs: &Vec<Value>, from: usize) -> (r: Vec<Expr>)
    ensures
        exprs_v(r@) == exprs_among(values_v(xs@), from as int, Seq::empty()),
{
    let mut out: Vec<Expr> = Vec::new();
    let mut i: usize = from;
    while i < xs.len()
        invariant
            from <= i,
            exprs_among(values_v(xs@), from as int, Seq::empty()) == exprs_among(
                values_v(xs@),
                i as int,
                exprs_v(out@),
            ),
        decreases xs.len() - i,
    {
        let ghost g = value_v(xs[i as int]);
        if let Value::Expr(e) = &xs[i] {
            out.push(e.dup());
        }
        i = i + 1;
    }
    out
}

fn splice(args: &Vec<Value>, span: Span) -> (r: Result<Value, Stop>)
    ensures
        ran(r) == b_splice(values_v(args@), span),
{
    let ghost av = values_v(args@);
    if args.len() == 0 {
        return Err(failure("splice expects items or an item", span));
    }
    let ghost g = value_v(args[0]);
    match &args[0] {
        Value::Items(xs) => Ok(Value::Items(dup_items(xs))),
        Value::Item(x) => {
            let mut out: Vec<Item> = Vec::new();
            out.push(x.dup());
            assert(items_v(out@) =~= seq![x@]);
            Ok(Value::Items(out))
        },
        Value::List(xs) => splice_list(xs, span),
        _ => Err(failure("splice expects items or an item", span)),
    }
}

fn splice_list(xs: &Vec<Value>, span: Span) -> (r: Result<Value, Stop>)
    ensures
        ran(r) == spliced(values_v(xs@), 0, Seq::empty(), span),
{
    let mut out: Vec<Item> = Vec::new();
    let mut i: usize = 0;
    while i < xs.len()
        invariant
            i <= xs.len(),
            spliced(values_v(xs@), 0, Seq::empty(), span) == spliced(
                values_v(xs@),
                i as int,
                items_v(out@),
                span,
            ),
        decreases xs.len() - i,
    {
        let ghost g = value_v(xs[i as int]);
        match &xs[i] {
            Value::Item(x) => {
                out.push(x.dup());
            },
            Value::Items(more) => {
                append_items(&mut out, more);
            },
            _ => {
                return Err(failure("splice list may only contain items", span));
            },
        }
        i = i + 1;
    }
    Ok(Value::Items(out))
}

/// Copies of items behind others.
pub fn append_items(out: &mut Vec<Item>, more: &Vec<Item>)
    ensures
        items_v(final(out)@) == items_v(old(out)@) + items_v(more@),
{
    let ghost start = items_v(out@);
    let mut i: usize = 0;
    assert(start + items_v(more@).take(0) =~= start);
    while i < more.len()
        invariant
            i <= more.len(),
            items_v(out@) == start + items_v(more@).take(i as int),
        decreases more.len() - i,
    {
        out.push(more[i].dup());
        i = i + 1;
        assert(items_v(out@) =~= start + items_v(more@).take(i as int));
    }
    assert(items_v(more@).take(i as int) =~= items_v(more@));
}

fn error_of(args: &Vec<Value>, span: Span) -> (r: Result<Value, Stop>)
    ensures
        ran(r) == b_error(values_v(args@), span),
{
    match arg_string(args, 0, span) {
        Ok(m) => Err(failure(&m, span)),
        Err(_) => Err(failure("error", span)),
    }
}

/// Whether an item can be imported.
fn item_is_public(i: &Item) -> (r: bool)
    ensures
        r == is_public(i@),
{
    let ghost g = item_v(*i);
    match i {
        Item::Function(f) => {
            let ghost x = function_v(*f);
            f.is_pub
        },
        Item::Struct(s) => {
            let ghost x = struct_v(*s);
            s.is_pub
        },
        Item::Enum(e) => {
            let ghost x = enum_v(*e);
            e.is_pub
        },
        Item::Macro(_) => true,
        Item::Trait(_) => true,
        Item::TypeAlias(_) => true,
        Item::VarDecl(_) => true,
        _ => false,
    }
}

fn filter_pub(args: &Vec<Value>, span: Span) -> (r: Result<Value, Stop>)
    ensures
        ran(r) == b_filter_pub(values_v(args@), span),
{
    let ghost av = values_v(args@);
    if args.len() == 0 {
        return Err(failure("filter_pub expects items", span));
    }
    let ghost g = value_v(args[0]);
    match &args[0] {
        Value::Items(xs) => {
            let out = public_items(xs);
            Ok(Value::Items(out))
        },
        _ => Err(failure("filter_pub expects items", span)),
    }
}

fn public_items(xs: &Vec<Item>) -> (r: Vec<Item>)
    ensures
        items_v(r@) == public_from(items_v(xs@), 0, Seq::empty()),
{
    let mut out: Vec<Item> = Vec::new();
    let mut i: usize = 0;
    while i < xs.len()
        invariant
            i <= xs.len(),
            public_from(items_v(xs@), 0, Seq::empty()) == public_from(
                items_v(xs@),
                i as int,
                items_v(out@),
            ),
        decreases xs.len() - i,
    {
        if item_is_public(&xs[i]) {
            out.push(xs[i].dup());
        }
        i = i + 1;
    }
    out
}

/// An item under another name.
pub fn rename_item(i: &Item, name: &str) -> (r: Item)
    ensures
        r@ == renamed(i@, name@),
{
    let ghost g = item_v(*i);
    let out = match i {
        Item::Function(f) => {
            let mut x = f.dup();
            let ghost before = function_v(x);
            x.name = name.to_owned();
            let ghost after = function_v(x);
            Item::Function(x)
        },
        Item::Struct(s) => {
            let mut x = s.dup();
            let ghost before = struct_v(x);
            x.name = name.to_owned();
            let ghost after = struct_v(x);
            Item::Struct(x)
        },
        Item::Enum(e) => {
            let mut x = e.dup();
            let ghost before = enum_v(x);
            x.name = name.to_owned();
            let ghost after = enum_v(x);
            Item::Enum(x)
        },
        Item::TypeAlias(t) => {
            let mut x = t.dup();
            let ghost before = type_alias_v(x);
            x.name = name.to_owned();
            let ghost after = type_alias_v(x);
            Item::TypeAlias(x)
        },
        Item::VarDecl(v) => {
            let mut x = v.dup();
            let ghost before = var_decl_v(x);
            x.name = name.to_owned();
            let ghost after = var_decl_v(x);
            Item::VarDecl(x)
        },
        _ => i.dup(),
    };
    let ghost ov = item_v(out);
    out
}

fn set_name(args: &Vec<Value>, span: Span) -> (r: Result<Value, Stop>)
    ensures
        ran(r) == b_set_name(values_v(args@), span),
{
    let ghost av = values_v(args@);
    if args.len() != 2 {
        return Err(failure("set_name(item, name) takes 2 args", span));
    }
    let name = arg_string(args, 1, span)?;
    let ghost g = value_v(args[0]);
    match &args[0] {
        Value::Item(i) => Ok(Value::Item(rename_item(i, &name))),
        _ => Err(failure("set_name: first arg must be an item", span)),
    }
}

/// A list of two texts.
fn pair_of_texts(a: String, b: String) -> (r: Value)
    ensures
        r@ == ValueV::List(seq![ValueV::String(a@), ValueV::String(b@)]),
{
    let mut v: Vec<Value> = Vec::new();
    v.push(Value::String(a));
    v.push(Value::String(b));
    assert(values_v(v@) =~= seq![ValueV::String(a@), ValueV::String(b@)]);
    Value::List(v)
}

fn struct_fields(args: &Vec<Value>, span: Span) -> (r: Result<Value, Stop>)
    ensures
        ran(r) == b_struct_fields(values_v(args@), span),
{
    let ghost av = values_v(args@);
    if args.len() == 0 {
        return Err(failure("struct_fields expects a struct", span));
    }
    let ghost g = value_v(args[0]);
    match &args[0] {
        Value::Item(Item::Struct(s)) => {
            let ghost iv = item_v(Item::Struct(*s));
            let ghost sv = struct_v(*s);
            Ok(Value::List(field_pairs(&s.fields)))
        },
        Value::Item(i) => {
            let ghost iv = item_v(*i);
            Err(failure("struct_fields expects a struct", span))
        },
        _ => Err(failure("struct_fields expects a struct", span)),
    }
}

fn field_pairs(fs: &Vec<StructField>) -> (r: Vec<Value>)
    ensures
        values_v(r@) == Seq::new(
            struct_fields_v(fs@).len(),
            |i: int| field_pair(struct_fields_v(fs@)[i]),
        ),
{
    let mut out: Vec<Value> = Vec::new();
    let ghost want = Seq::new(
        struct_fields_v(fs@).len(),
        |i: int| field_pair(struct_fields_v(fs@)[i]),
    );
    let mut i: usize = 0;
    while i < fs.len()
        invariant
            i <= fs.len(),
            want == Seq::new(
                struct_fields_v(fs@).len(),
                |i: int| field_pair(struct_fields_v(fs@)[i]),
            ),
            values_v(out@) == want.take(i as int),
        decreases fs.len() - i,
    {
        let ghost fv = struct_field_v(fs[i as int]);
        out.push(pair_of_texts(fs[i].name.clone(), fs[i].ty.display()));
        i = i + 1;
        assert(values_v(out@) =~= want.take(i as int));
    }
    assert(values_v(out@) =~= want);
    out
}

/// The two texts of a pair.
fn texts_of_pair(v: &Value) -> (r: Option<(String, String)>)
    ensures
        match r {
            Some(p) => text_pair(v@) == Some((p.0@, p.1@)),
            None => text_pair(v@) is None,
        },
{
    let ghost g = value_v(*v);
    match v {
        Value::List(p) => {
            let ghost pv = values_v(p@);
            if p.len() < 2 {
                return None;
            }
            let ghost g0 = value_v(p[0]);
            let ghost g1 = value_v(p[1]);
            match (&p[0], &p[1]) {
                (Value::String(a), Value::String(b)) => Some((a.clone(), b.clone())),
                _ => None,
            }
        },
        _ => None,
    }
}

spec fn params_ran(r: Result<Vec<Param>, Stop>) -> Result<Seq<ParamV>, StopV> {
    match r {
        Ok(v) => Ok(params_v(v@)),
        Err(s) => Err(s@),
    }
}

fn params_of_pairs(xs: &Vec<Value>, span: Span) -> (r: Result<Vec<Param>, Stop>)
    ensures
        params_ran(r) == made_params(values_v(xs@), 0, Seq::empty(), span),
{
    let mut out: Vec<Param> = Vec::new();
    let mut i: usize = 0;
    while i < xs.len()
        invariant
            i <= xs.len(),
            made_params(values_v(xs@), 0, Seq::empty(), span) == made_params(
                values_v(xs@),
                i as int,
                params_v(out@),
                span,
            ),
        decreases xs.len() - i,
    {
        match texts_of_pair(&xs[i]) {
            Some((n, t)) => {
                let p = Param {
                    name: n,
                    ty: Type::path(&t),
                    named: false,
                    default: None,
                    span: Span::zero(),
                };
                let ghost pv = param_v(p);
                out.push(p);
            },
            None => {
                return Err(failure("bad param", span));
            },
        }
        i = i + 1;
    }
    Ok(out)
}

fn body_of(args: &Vec<Value>, k: usize) -> (r: Block)
    ensures
        r@ == made_body(nth(values_v(args@), k as int)),
{
    let ghost av = values_v(args@);
    let mut stmts: Vec<Expr> = Vec::new();
    if k < args.len() {
        let ghost g = value_v(args[k as int]);
        if let Value::Expr(e) = &args[k] {
            let ghost ev = expr_v(*e);
            let ghost ek = expr_kind_v(e.kind);
            match &e.kind {
                ExprKind::Block(b) => {
                    let ghost bv = block_v(*b);
                    stmts = dup_exprs(&b.stmts);
                },
                _ => {
                    stmts.push(e.dup());
                    assert(exprs_v(stmts@) =~= seq![e@]);
                },
            }
        }
    }
    let b = Block { stmts, span: Span::zero() };
    let ghost bv = block_v(b);
    b
}

fn make_function_item(args: &Vec<Value>, span: Span) -> (r: Result<Value, Stop>)
    ensures
        ran(r) == b_make_function(values_v(args@), span),
{
    let ghost av = values_v(args@);
    let name = arg_string(args, 0, span)?;
    let ret = arg_string(args, 2, span)?;
    let mut params: Vec<Param> = Vec::new();
    if args.len() > 1 {
        let ghost g = value_v(args[1]);
        if let Value::List(xs) = &args[1] {
            params = params_of_pairs(xs, span)?;
        }
    }
    let f = Function {
        name,
        generics: Vec::new(),
        params,
        return_type: Type::path(&ret),
        body: body_of(args, 3),
        is_pub: true,
        span: Span::zero(),
    };
    let ghost fv = function_v(f);
    let item = Item::Function(f);
    let ghost iv = item_v(item);
    Ok(Value::Item(item))
}

fn first_expr(args: &Vec<Value>, k: usize) -> (r: Option<Expr>)
    ensures
        match r {
            Some(e) => nth(values_v(args@), k as int) == Some(ValueV::Expr(e@)),
            None => !(nth(values_v(args@), k as int) matches Some(ValueV::Expr(_))),
        },
{
    let ghost av = values_v(args@);
    if k < args.len() {
        let ghost g = value_v(args[k as int]);
        match &args[k] {
            Value::Expr(e) => Some(e.dup()),
            _ => None,
        }
    } else {
        None
    }
}

fn make_binary(args: &Vec<Value>, span: Span) -> (r: Result<Value, Stop>)
    ensures
        ran(r) == b_make_binary(values_v(args@), span),
{
    let text = arg_string(args, 0, span)?;
    let op = if str_eq(&text, "-") {
        BinOp::Sub
    } else if str_eq(&text, "*") {
        BinOp::Mul
    } else {
        BinOp::Add
    };
    match (first_expr(args, 1), first_expr(args, 2)) {
        (Some(l), Some(r)) => Ok(Value::Expr(Expr::binary(l, op, r, span))),
        _ => Err(failure("make_binary needs two exprs", span)),
    }
}

fn make_field(args: &Vec<Value>, span: Span) -> (r: Result<Value, Stop>)
    ensures
        ran(r) == b_make_field(values_v(args@), span),
{
    match (first_expr(args, 0), arg_string(args, 1, span)) {
        (Some(e), Ok(field)) => {
            let kind = ExprKind::Field { object: Box::new(e), field };
            let ghost k = expr_kind_v(kind);
            Ok(Value::Expr(Expr::new(kind, span)))
        },
        _ => Err(failure("make_field(obj, 'name')", span)),
    }
}

fn list_push(args: &Vec<Value>, span: Span) -> (r: Result<Value, Stop>)
    ensures
        ran(r) == b_list_push(values_v(args@), span),
{
    let ghost av = values_v(args@);
    if args.len() == 0 {
        return Err(failure("list_push needs a list", span));
    }
    let ghost g = value_v(args[0]);
    match &args[0] {
        Value::List(xs) => {
            let mut out = dup_values(xs);
            let last = if args.len() > 1 {
                let ghost g1 = av[1];
                args[1].dup()
            } else {
                Value::Nil
            };
            assert(last@ == (match nth(av, 1) {
                Some(v) => v,
                None => ValueV::Nil,
            }));
            let ghost before = out@;
            out.push(last);
            assert(values_v(out@) == values_v(before).push(last@)) by {
                lemma_values_push(before, last);
            }
            let v = Value::List(out);
            let ghost vv = value_v(v);
            assert(vv == ValueV::List(values_v(out@)));
            assert(first(av) == Some(ValueV::List(values_v(xs@))));
            Ok(v)
        },
        _ => Err(failure("list_push needs a list", span)),
    }
}

fn make_literal(name: &str, args: &Vec<Value>, span: Span) -> (r: Result<Value, Stop>)
    ensures
        ran(r) == b_make_literal(name@, values_v(args@), span),
{
    let ghost av = values_v(args@);
    let nothing = Value::Nil;
    let v: &Value = if args.len() > 0 {
        &args[0]
    } else {
        &nothing
    };
    let ghost g = value_v(*v);
    if str_eq(name, "make_int") {
        match v {
            Value::Int(n) => Ok(Value::Expr(Expr::int_literal(*n, span))),
            _ => Err(failure("make_int(n) expects an integer", span)),
        }
    } else if str_eq(name, "make_float") {
        match v {
            Value::Float(s) => {
                let kind = ExprKind::FloatLiteral(s.clone());
                let ghost k = expr_kind_v(kind);
                Ok(Value::Expr(Expr::new(kind, span)))
            },
            _ => Err(failure("make_float(n)", span)),
        }
    } else {
        match v {
            Value::Bool(b) => {
                let kind = ExprKind::BoolLiteral(*b);
                let ghost k = expr_kind_v(kind);
                Ok(Value::Expr(Expr::new(kind, span)))
            },
            _ => Err(failure("make_bool(b)", span)),
        }
    }
}

fn make_block(args: &Vec<Value>, span: Span) -> (r: Result<Value, Stop>)
    ensures
        ran(r) == b_make_block(values_v(args@), span),
{
    let ghost av = values_v(args@);
    if args.len() > 0 {
        let ghost g = value_v(args[0]);
        if let Value::List(xs) = &args[0] {
            return Ok(Value::Expr(Expr::block(dup_exprs_among(xs, 0), span)));
        }
    }
    Ok(Value::Expr(Expr::block(dup_exprs_among(args, 0), span)))
}

fn make_let(args: &Vec<Value>, span: Span) -> (r: Result<Value, Stop>)
    ensures
        ran(r) == b_make_let(values_v(args@), span),
{
    let name = arg_string(args, 0, span)?;
    match first_expr(args, 1) {
        Some(e) => Ok(Value::Expr(Expr::let_binding(&name, None, e, false, span))),
        None => Err(failure("make_let(name, expr)", span)),
    }
}

fn make_call(args: &Vec<Value>, span: Span) -> (r: Result<Value, Stop>)
    ensures
        ran(r) == b_make_call(values_v(args@), span),
{
    let ghost av = values_v(args@);
    let name = arg_string(args, 0, span)?;
    let func = Expr::ident(&name, span);
    if args.len() > 1 {
        let ghost g = value_v(args[1]);
        if let Value::List(xs) = &args[1] {
            return Ok(Value::Expr(Expr::call(func, dup_exprs_among(xs, 0), span)));
        }
    }
    Ok(Value::Expr(Expr::call(func, dup_exprs_among(args, 1), span)))
}

spec fn fields_ran(r: Result<Vec<StructField>, Stop>) -> Result<Seq<StructFieldV>, StopV> {
    match r {
        Ok(v) => Ok(struct_fields_v(v@)),
        Err(s) => Err(s@),
    }
}

fn fields_of_pairs(xs: &Vec<Value>, span: Span) -> (r: Result<Vec<StructField>, Stop>)
    ensures
        fields_ran(r) == made_fields(values_v(xs@), 0, Seq::empty(), span),
{
    let mut out: Vec<StructField> = Vec::new();
    let mut i: usize = 0;
    while i < xs.len()
        invariant
            i <= xs.len(),
            made_fields(values_v(xs@), 0, Seq::empty(), span) == made_fields(
                values_v(xs@),
                i as int,
                struct_fields_v(out@),
                span,
            ),
        decreases xs.len() - i,
    {
        match texts_of_pair(&xs[i]) {
            Some((n, t)) => {
                let f = StructField { name: n, ty: Type::path(&t), span: Span::zero() };
                let ghost fv = struct_field_v(f);
                out.push(f);
            },
            None => {
                return Err(failure("bad field", span));
            },
        }
        i = i + 1;
    }
    Ok(out)
}

fn make_struct_item(args: &Vec<Value>, span: Span) -> (r: Result<Value, Stop>)
    ensures
        ran(r) == b_make_struct(values_v(args@), span),
{
    let ghost av = values_v(args@);
    let name = arg_string(args, 0, span)?;
    let mut fields: Vec<StructField> = Vec::new();
    if args.len() > 1 {
        let ghost g = value_v(args[1]);
        if let Value::List(xs) = &args[1] {
            fields = fields_of_pairs(xs, span)?;
        }
    }
    let s = Struct { name, generics: Vec::new(), fields, is_pub: true, span: Span::zero() };
    let ghost sv = struct_v(s);
    let item = Item::Struct(s);
    let ghost iv = item_v(item);
    Ok(Value::Item(item))
}

fn dup_functions_among(xs: &Vec<Value>) -> (r: Vec<Function>)
    ensures
        functions_v(r@) == functions_among(values_v(xs@), 0, Seq::empty()),
{
    let mut out: Vec<Function> = Vec::new();
    let mut i: usize = 0;
    while i < xs.len()
        invariant
            i <= xs.len(),
            functions_among(values_v(xs@), 0, Seq::empty()) == functions_among(
                values_v(xs@),
                i as int,
                functions_v(out@),
            ),
        decreases xs.len() - i,
    {
        let ghost g = value_v(xs[i as int]);
        if let Value::Item(item) = &xs[i] {
            let ghost iv = item_v(*item);
            if let Item::Function(f) = item {
                out.push(f.dup());
            }
        }
        i = i + 1;
    }
    out
}

fn make_impl_item(args: &Vec<Value>, span: Span) -> (r: Result<Value, Stop>)
    ensures
        ran(r) == b_make_impl(values_v(args@), span),
{
    let ghost av = values_v(args@);
    let trait_name = arg_string(args, 0, span)?;
    let target = arg_string(args, 1, span)?;
    let mut methods: Vec<Function> = Vec::new();
    if args.len() > 2 {
        let ghost g = value_v(args[2]);
        if let Value::List(xs) = &args[2] {
            methods = dup_functions_among(xs);
        }
    }
    let b = ImplBlock {
        trait_name,
        generics: Vec::new(),
        target_type: Type::path(&target),
        methods,
        span: Span::zero(),
    };
    let ghost bv = impl_block_v(b);
    let item = Item::Impl(b);
    let ghost iv = item_v(item);
    Ok(Value::Item(item))
}

fn make_to_string(args: &Vec<Value>, span: Span) -> (r: Result<Value, Stop>)
    ensures
        ran(r) == b_to_string(values_v(args@), span),
{
    match first_expr(args, 0) {
        None => Err(failure("to_string needs an expr", span)),
        Some(e) => {
            let mut es: Vec<Expr> = Vec::new();
            es.push(e);
            assert(exprs_v(es@) =~= seq![e@]);
            Ok(Value::Expr(Expr::call(Expr::ident("std::to_string", span), es, span)))
        },
    }
}

fn print_text(h: &Host, v: &Value) -> (r: Result<String, Stop>)
    ensures
        ran(r) == printed(h@, v@),
{
    let ghost g = value_v(*v);
    match v {
        Value::String(s) => Ok(s.clone()),
        Value::Int(n) => Ok(show_i64(*n)),
        Value::Float(s) => h.float(FloatOp::Show, s, ""),
        Value::Bool(b) => Ok(show_debug_bool(*b)),
        _ => v.debug(h),
    }
}

fn print(h: &Host, args: &Vec<Value>, end: &str, out: &mut String) -> (r: Result<Value, Stop>)
    ensures
        (ran(r), final(out)@) == b_print(h@, values_v(args@), end@, old(out)@),
{
    let ghost av = values_v(args@);
    if args.len() > 0 {
        let t = print_text(h, &args[0])?;
        out.append(&t);
    }
    out.append(end);
    Ok(Value::Nil)
}

fn print_int(args: &Vec<Value>, span: Span, out: &mut String) -> (r: Result<Value, Stop>)
    ensures
        (ran(r), final(out)@) == b_print_int(values_v(args@), span, old(out)@),
{
    let ghost av = values_v(args@);
    if args.len() > 0 {
        let ghost g = value_v(args[0]);
        if let Value::Int(n) = &args[0] {
            let t = show_i64(*n);
            out.append(&t);
            return Ok(Value::Nil);
        }
    }
    Err(failure("print_int expects an integer", span))
}

fn render(h: &Host, args: &Vec<Value>) -> (r: Result<Value, Stop>)
    ensures
        ran(r) == b_render(h@, values_v(args@)),
{
    let ghost av = values_v(args@);
    if args.len() > 0 {
        let ghost g = value_v(args[0]);
        match &args[0] {
            Value::Int(n) => {
                return Ok(Value::String(show_i64(*n)));
            },
            Value::Float(s) => {
                let t = h.float(FloatOp::ShowFixed, s, "")?;
                return Ok(Value::String(t));
            },
            Value::String(s) => {
                return Ok(Value::String(s.clone()));
            },
            Value::Bool(b) => {
                return Ok(Value::String(show_debug_bool(*b)));
            },
            _ => {},
        }
    }
    Ok(Value::String("<unknown>".to_owned()))
}

// -------------------------------------------------------------------- the interpreter

/// The interpreter of macros and programs.
#[derive(Debug)]
pub struct Interpreter {
    search_paths: Vec<String>,
    known_structs: StrMap<Struct>,
    functions: StrMap<FunctionList>,
    impls: StrMap<StrList>,
    runtime_mode: bool,
}

/// What an interpreter knows, without the outside.
#[verifier::ext_equal]
pub struct Program {
    pub dirs: Seq<Seq<char>>,
    pub structs: Map<Seq<char>, StructV>,
    pub functions: Map<Seq<char>, Seq<FunctionV>>,
    pub impls: Map<Seq<char>, Seq<Seq<char>>>,
    pub runtime: bool,
}

impl View for Interpreter {
    type V = Program;

    closed spec fn view(&self) -> Program {
        Program {
            dirs: strs_v(self.search_paths@),
            structs: self.known_structs@,
            functions: self.functions@,
            impls: self.impls@,
            runtime: self.runtime_mode,
        }
    }
}

/// What a program knows together with the outside.
pub open spec fn ctx(p: Program, h: HostV) -> Ctx {
    Ctx {
        dirs: p.dirs,
        structs: p.structs,
        functions: p.functions,
        impls: p.impls,
        runtime: p.runtime,
        host: h,
    }
}

/// The struct that stands for a trait.
pub open spec fn trait_struct(name: Seq<char>) -> StructV {
    StructV {
        name,
        generics: Seq::empty(),
        fields: Seq::empty(),
        is_pub: true,
        span: zero_span(),
    }
}

/// The structs with those of the items from `i` on.
pub open spec fn structs_from(
    items: Seq<ItemV>,
    i: int,
    m: Map<Seq<char>, StructV>,
) -> Map<Seq<char>, StructV>
    decreases items.len() - i,
{
    if 0 <= i < items.len() {
        structs_from(
            items,
            i + 1,
            match items[i] {
                ItemV::Struct(s) => m.insert(s.name, s),
                ItemV::Trait(t) => m.insert(t.name, trait_struct(t.name)),
                _ => m,
            },
        )
    } else {
        m
    }
}

/// The functions with one more, if it has a body.
pub open spec fn with_function(
    m: Map<Seq<char>, Seq<FunctionV>>,
    f: FunctionV,
) -> Map<Seq<char>, Seq<FunctionV>> {
    if f.body.stmts.len() == 0 {
        m
    } else {
        m.insert(
            f.name,
            match lookup(m, f.name) {
                Some(fs) => fs.push(f),
                None => seq![f],
            },
        )
    }
}

/// The functions with the methods from `i` on.
pub open spec fn with_methods(
    m: Map<Seq<char>, Seq<FunctionV>>,
    ms: Seq<FunctionV>,
    i: int,
) -> Map<Seq<char>, Seq<FunctionV>>
    decreases ms.len() - i,
{
    if 0 <= i < ms.len() {
        with_methods(with_function(m, ms[i]), ms, i + 1)
    } else {
        m
    }
}

/// The functions with those of the items from `i` on.
pub open spec fn functions_from(
    items: Seq<ItemV>,
    i: int,
    m: Map<Seq<char>, Seq<FunctionV>>,
) -> Map<Seq<char>, Seq<FunctionV>>
    decreases items.len() - i,
{
    if 0 <= i < items.len() {
        functions_from(
            items,
            i + 1,
            match items[i] {
                ItemV::Function(f) => with_function(m, f),
                ItemV::Impl(b) => with_methods(m, b.methods, 0),
                _ => m,
            },
        )
    } else {
        m
    }
}

/// The traits of each type with those of the items from `i` on.
pub open spec fn impls_of(
    items: Seq<ItemV>,
    i: int,
    m: Map<Seq<char>, Seq<Seq<char>>>,
) -> Map<Seq<char>, Seq<Seq<char>>>
    decreases items.len() - i,
{
    if 0 <= i < items.len() {
        impls_of(
            items,
            i + 1,
            match items[i] {
                ItemV::Impl(b) => match bare_type(b.target_type) {
                    Some(t) => m.insert(
                        t,
                        match lookup(m, t) {
                            Some(ts) => ts.push(b.trait_name),
                            None => seq![b.trait_name],
                        },
                    ),
                    None => m,
                },
                _ => m,
            },
        )
    } else {
        m
    }
}

spec fn fields_of_ran(r: Result<Vec<(String, Value)>, Stop>) -> Result<
    Seq<(Seq<char>, ValueV)>,
    StopV,
> {
    match r {
        Ok(v) => Ok(value_fields_v(v@)),
        Err(s) => Err(s@),
    }
}

fn condition_of(v: &Value, what: &str, span: Span) -> (r: Result<bool, Stop>)
    ensures
        bool_ran(r) == condition(v@, what@, span),
{
    let ghost g = value_v(*v);
    match v {
        Value::Bool(b) => Ok(*b),
        _ => Err(failure(what, span)),
    }
}

fn functions_with_arity(fs: &Vec<Function>, n: usize) -> (r: Vec<Function>)
    ensures
        functions_v(r@) == with_arity(functions_v(fs@), n as nat, 0, Seq::empty()),
{
    let mut out: Vec<Function> = Vec::new();
    let mut i: usize = 0;
    while i < fs.len()
        invariant
            i <= fs.len(),
            with_arity(functions_v(fs@), n as nat, 0, Seq::empty()) == with_arity(
                functions_v(fs@),
                n as nat,
                i as int,
                functions_v(out@),
            ),
        decreases fs.len() - i,
    {
        let ghost fv = function_v(fs[i as int]);
        if fs[i].params.len() == n {
            out.push(fs[i].dup());
        }
        i = i + 1;
    }
    out
}

fn scope_of_call(ps: &Vec<Param>, args: &Vec<Value>) -> (r: StrMap<Value>)
    ensures
        r@ == call_scope(params_v(ps@), values_v(args@), 0, Map::empty()),
{
    let mut env: StrMap<Value> = StrMap::new();
    let mut i: usize = 0;
    while i < ps.len() && i < args.len()
        invariant
            i <= ps.len(),
            i <= args.len(),
            call_scope(params_v(ps@), values_v(args@), 0, Map::empty()) == call_scope(
                params_v(ps@),
                values_v(args@),
                i as int,
                env@,
            ),
        decreases ps.len() - i,
    {
        let ghost pv = param_v(ps[i as int]);
        let ghost av = values_v(args@)[i as int];
        env.insert(&ps[i].name, args[i].dup());
        i = i + 1;
    }
    env
}

impl Interpreter {
    /// An interpreter that knows nothing and looks for files in these directories.
    pub fn new(search_paths: Vec<String>) -> (r: Self)
        ensures
            r@ == (Program {
                dirs: strs_v(search_paths@),
                structs: Map::empty(),
                functions: Map::empty(),
                impls: Map::empty(),
                runtime: false,
            }),
    {
        Interpreter {
            search_paths,
            known_structs: StrMap::new(),
            functions: StrMap::new(),
            impls: StrMap::new(),
            runtime_mode: false,
        }
    }

    /// Printing is made possible.
    pub fn enable_runtime_mode(&mut self)
        ensures
            final(self)@ == (Program { runtime: true, ..old(self)@ }),
    {
        self.runtime_mode = true;
    }

    /// The structs and traits of a module become known.
    pub fn register_structs(&mut self, module: &Module)
        ensures
            final(self)@ == (Program {
                structs: structs_from(module@.items, 0, old(self)@.structs),
                ..old(self)@
            }),
    {
        let ghost mv = module_v(*module);
        let ghost items = items_v(module.items@);
        let mut i: usize = 0;
        while i < module.items.len()
            invariant
                i <= module.items.len(),
                items == items_v(module.items@),
                self@ == (Program { structs: self@.structs, ..old(self)@ }),
                structs_from(items, 0, old(self)@.structs) == structs_from(
                    items,
                    i as int,
                    self@.structs,
                ),
            decreases module.items.len() - i,
        {
            let ghost iv = item_v(module.items[i as int]);
            match &module.items[i] {
                Item::Struct(s) => {
                    let ghost sv = struct_v(*s);
                    self.known_structs.insert(&s.name, s.dup());
                },
                Item::Trait(t) => {
                    let ghost tv = trait_def_v(*t);
                    let s = Struct {
                        name: t.name.clone(),
                        generics: Vec::new(),
                        fields: Vec::new(),
                        is_pub: true,
                        span: Span::zero(),
                    };
                    let ghost sv = struct_v(s);
                    self.known_structs.insert(&t.name, s);
                },
                _ => {},
            }
            i = i + 1;
        }
    }

    fn add_function(&mut self, f: &Function)
        ensures
            final(self)@ == (Program {
                functions: with_function(old(self)@.functions, f@),
                ..old(self)@
            }),
    {
        let ghost fv = function_v(*f);
        let ghost bv = block_v(f.body);
        if f.body.stmts.len() == 0 {
            return;
        }
        let mut list: FunctionList = match self.functions.get(&f.name) {
            Some(l) => l.copy(),
            None => FunctionList { functions: Vec::new() },
        };
        let ghost before = list@;
        list.functions.push(f.dup());
        assert(before =~= Seq::empty() ==> list@ =~= seq![f@]);
        self.functions.insert(&f.name, list);
    }

    fn add_methods(&mut self, ms: &Vec<Function>)
        ensures
            final(self)@ == (Program {
                functions: with_methods(old(self)@.functions, functions_v(ms@), 0),
                ..old(self)@
            }),
    {
        let mut i: usize = 0;
        while i < ms.len()
            invariant
                i <= ms.len(),
                self@ == (Program { functions: self@.functions, ..old(self)@ }),
                with_methods(old(self)@.functions, functions_v(ms@), 0) == with_methods(
                    self@.functions,
                    functions_v(ms@),
                    i as int,
                ),
            decreases ms.len() - i,
        {
            self.add_function(&ms[i]);
            i = i + 1;
        }
    }

    fn add_impl(&mut self, target: &str, trait_name: &String)
        ensures
            final(self)@ == (Program {
                impls: old(self)@.impls.insert(
                    target@,
                    match lookup(old(self)@.impls, target@) {
                        Some(ts) => ts.push(trait_name@),
                        None => seq![trait_name@],
                    },
                ),
                ..old(self)@
            }),
    {
        let mut list: StrList = match self.impls.get(target) {
            Some(l) => l.copy(),
            None => StrList { items: Vec::new() },
        };
        let ghost before = list@;
        list.items.push(trait_name.clone());
        assert(before =~= Seq::empty() ==> list@ =~= seq![trait_name@]);
        self.impls.insert(target, list);
    }

    /// The structs, functions and impls of a module become known.
    pub fn register_module(&mut self, module: &Module)
        ensures
            final(self)@ == (Program {
                structs: structs_from(module@.items, 0, old(self)@.structs),
                functions: functions_from(module@.items, 0, old(self)@.functions),
                impls: impls_of(module@.items, 0, old(self)@.impls),
                ..old(self)@
            }),
    {
        let ghost mv = module_v(*module);
        let ghost items = items_v(module.items@);
        self.register_structs(module);
        let ghost mid = self@;
        let mut i: usize = 0;
        while i < module.items.len()
            invariant
                i <= module.items.len(),
                items == items_v(module.items@),
                self@ == (Program {
                    functions: self@.functions,
                    impls: self@.impls,
                    ..mid
                }),
                functions_from(items, 0, old(self)@.functions) == functions_from(
                    items,
                    i as int,
                    self@.functions,
                ),
                impls_of(items, 0, old(self)@.impls) == impls_of(
                    items,
                    i as int,
                    self@.impls,
                ),
            decreases module.items.len() - i,
        {
            let ghost iv = item_v(module.items[i as int]);
            match &module.items[i] {
                Item::Function(f) => {
                    self.add_function(f);
                },
                Item::Impl(b) => {
                    let ghost bv = impl_block_v(*b);
                    if let Some(t) = name_of_type(&b.target_type) {
                        self.add_impl(&t, &b.trait_name);
                    }
                    self.add_methods(&b.methods);
                },
                _ => {},
            }
            i = i + 1;
        }
    }

    /// How well an argument fits a parameter.
    fn fit_of(&self, p: &Param, v: &Value, h: Ghost<HostV>) -> (r: Option<u128>)
        ensures
            match r {
                Some(n) => fit(ctx(self@, h@), p@, v@) == Some(n as nat) && n <= 2,
                None => fit(ctx(self@, h@), p@, v@) is None,
            },
    {
        let ghost pv = param_v(*p);
        match (name_of_type(&p.ty), type_of_value(v)) {
            (Some(t), Some(a)) => {
                if str_eq(&t, &a) {
                    return Some(2);
                }
                match self.impls.get(&a) {
                    Some(list) => {
                        if contains_str(&list.items, &t) {
                            Some(1)
                        } else {
                            None
                        }
                    },
                    None => None,
                }
            },
            _ => Some(0),
        }
    }

    /// The score of an overload.
    fn overload_score(&self, ps: &Vec<Param>, args: &Vec<Value>, h: Ghost<HostV>) -> (r: Option<
        u128,
    >)
        ensures
            match r {
                Some(n) => score(ctx(self@, h@), params_v(ps@), values_v(args@), 0, 0) == Some(
                    n as nat,
                ),
                None => score(ctx(self@, h@), params_v(ps@), values_v(args@), 0, 0) is None,
            },
    {
        let mut total: u128 = 0;
        let mut i: usize = 0;
        while i < ps.len() && i < args.len()
            invariant
                i <= ps.len(),
                i <= args.len(),
                total <= 2 * i,
                score(ctx(self@, h@), params_v(ps@), values_v(args@), 0, 0) == score(
                    ctx(self@, h@),
                    params_v(ps@),
                    values_v(args@),
                    i as int,
                    total as nat,
                ),
            decreases ps.len() - i,
        {
            match self.fit_of(&ps[i], &args[i], h) {
                Some(n) => {
                    total = total + n;
                },
                None => {
                    return None;
                },
            }
            i = i + 1;
        }
        Some(total)
    }

    /// The overload that is called.
    fn choose_overload(
        &self,
        name: &str,
        fs: &Vec<Function>,
        args: &Vec<Value>,
        span: Span,
        h: Ghost<HostV>,
    ) -> (r: Result<Function, Stop>)
        ensures
            ran(r) == chosen(
                ctx(self@, h@),
                name@,
                functions_v(fs@),
                values_v(args@),
                span,
            ),
    {
        let ghost av = values_v(args@);
        let ghost fv = functions_v(fs@);
        let cands = functions_with_arity(fs, args.len());
        let ghost cv = functions_v(cands@);
        if cands.len() == 0 && fs.len() > 0 {
            return Ok(fs[0].dup());
        }
        if cands.len() == 1 {
            return Ok(cands[0].dup());
        }
        let mut best: Option<(u128, usize)> = None;
        let ghost mut bv: Option<(nat, FunctionV)> = None;
        let mut i: usize = 0;
        while i < cands.len()
            invariant
                i <= cands.len(),
                cv == functions_v(cands@),
                av == values_v(args@),
                match best {
                    Some(b) => b.1 < cands.len() && bv == Some((b.0 as nat, cv[b.1 as int])),
                    None => bv is None,
                },
                best_overload(ctx(self@, h@), cv, av, 0, None) == best_overload(
                    ctx(self@, h@),
                    cv,
                    av,
                    i as int,
                    bv,
                ),
            decreases cands.len() - i,
        {
            let ghost f = function_v(cands[i as int]);
            if let Some(n) = self.overload_score(&cands[i].params, args, h) {
                let better: bool = match best {
                    Some(b) => b.0 < n,
                    None => true,
                };
                if better {
                    best = Some((n, i));
                    proof {
                        bv = Some((n as nat, cv[i as int]));
                    }
                }
            }
            i = i + 1;
        }
        match best {
            Some(b) => Ok(cands[b.1].dup()),
            None => Err(
                failure(
                    &cat3("No overload of '", name, "' matches the argument types"),
                    span,
                ),
            ),
        }
    }

    /// The text of a file.
    fn read_file(&self, path: &str, host: &Host) -> (r: Result<String, Stop>)
        ensures
            ran(r) == file_text(ctx(self@, host@), path@),
    {
        let cands = candidate_names(path);
        let ghost dv = strs_v(self.search_paths@);
        let ghost cv = strs_v(cands@);
        let mut i: usize = 0;
        let mut j: usize = 0;
        while i < self.search_paths.len()
            invariant
                i <= self.search_paths.len(),
                j <= cands.len(),
                dv == strs_v(self.search_paths@),
                cv == strs_v(cands@),
                cv == candidates(path@),
                read_from(host@, dv, cv, path@, 0, 0) == read_from(
                    host@,
                    dv,
                    cv,
                    path@,
                    i as int,
                    j as int,
                ),
            decreases self.search_paths.len() - i, cands.len() - j,
        {
            if j < cands.len() {
                let full = join_path(&self.search_paths[i], &cands[j]);
                match host.file(&full)? {
                    FileState::Missing => {
                        j = j + 1;
                    },
                    FileState::Text(t) => {
                        return Ok(t);
                    },
                    FileState::Unreadable(why) => {
                        return Err(
                            Stop::Error(
                                CompileError::Generic(
                                    cat4("Cannot read '", &cands[j], "': ", &why),
                                ),
                            ),
                        );
                    },
                }
            } else {
                i = i + 1;
                j = 0;
            }
        }
        Err(failure(&cat3("File not found: '", path, "'"), Span::zero()))
    }

    fn call_inspect(&self, name: &str, args: &Vec<Value>, span: Span, host: &Host) -> (r: Option<
        Result<Value, Stop>,
    >)
        ensures
            opt_ran(r) == b_inspect(ctx(self@, host@), name@, values_v(args@), span),
    {
        if str_eq(name, "read_file") {
            Some(
                match arg_string(args, 0, span) {
                    Err(s) => Err(s),
                    Ok(path) => match self.read_file(&path, host) {
                        Err(s) => Err(s),
                        Ok(t) => Ok(Value::String(t)),
                    },
                },
            )
        } else if str_eq(name, "parse") {
            Some(
                match arg_string(args, 0, span) {
                    Err(s) => Err(s),
                    Ok(src) => match parse_source(&src, "imported") {
                        Err(e) => Err(Stop::Error(e)),
                        Ok(m) => Ok(Value::Module(m)),
                    },
                },
            )
        } else if str_eq(name, "splice") {
            Some(splice(args, span))
        } else if str_eq(name, "error") {
            Some(error_of(args, span))
        } else if str_eq(name, "filter_pub") {
            Some(filter_pub(args, span))
        } else if str_eq(name, "set_name") {
            Some(set_name(args, span))
        } else if str_eq(name, "lookup_type") {
            Some(self.find_type(args, span, Ghost(host@)))
        } else if str_eq(name, "struct_fields") {
            Some(struct_fields(args, span))
        } else if str_eq(name, "type_exists") {
            Some(
                match arg_string(args, 0, span) {
                    Err(s) => Err(s),
                    Ok(n) => Ok(Value::Bool(self.known_structs.contains(&n))),
                },
            )
        } else {
            None
        }
    }

    fn find_type(&self, args: &Vec<Value>, span: Span, h: Ghost<HostV>) -> (r: Result<Value, Stop>)
        ensures
            ran(r) == b_lookup_type(ctx(self@, h@), values_v(args@), span),
    {
        let name = arg_string(args, 0, span)?;
        match self.known_structs.get(&name) {
            Some(s) => {
                let item = Item::Struct(s.dup());
                let ghost iv = item_v(item);
                Ok(Value::Item(item))
            },
            None => Err(failure(&cat3("Type not found: '", &name, "'"), span)),
        }
    }

    /// A call of a built-in.
    fn call_builtin(
        &self,
        name: &str,
        args: &Vec<Value>,
        span: Span,
        host: &Host,
        out: &mut String,
    ) -> (r: Result<Value, Stop>)
        ensures
            (ran(r), final(out)@) == builtin(
                ctx(self@, host@),
                name@,
                values_v(args@),
                span,
                old(out)@,
            ),
    {
        if let Some(r) = self.call_inspect(name, args, span, host) {
            return r;
        }
        if let Some(r) = call_build(name, args, span) {
            return r;
        }
        if let Some(r) = call_declare(name, args, span) {
            return r;
        }
        if self.runtime_mode && str_eq(name, "print") {
            return print(host, args, "", out);
        }
        if self.runtime_mode && str_eq(name, "println") {
            return print(host, args, "\n", out);
        }
        if self.runtime_mode && str_eq(name, "print_int") {
            return print_int(args, span, out);
        }
        if self.runtime_mode && str_eq(name, "std::to_string") {
            return render(host, args);
        }
        Err(failure(&cat3("Unknown: '", name, "'"), span))
    }
}

spec fn opt_ran(r: Option<Result<Value, Stop>>) -> Option<Ran> {
    match r {
        Some(x) => Some(ran(x)),
        None => None,
    }
}

fn call_build(name: &str, args: &Vec<Value>, span: Span) -> (r: Option<Result<Value, Stop>>)
    ensures
        opt_ran(r) == b_build(name@, values_v(args@), span),
{
    if str_eq(name, "make_return") {
        Some(Ok(Value::Expr(Expr::return_expr(first_expr(args, 0), span))))
    } else if str_eq(name, "make_binary") {
        Some(make_binary(args, span))
    } else if str_eq(name, "make_string") {
        Some(
            match arg_string(args, 0, span) {
                Err(s) => Err(s),
                Ok(t) => Ok(Value::Expr(Expr::string_literal(&t, span))),
            },
        )
    } else if str_eq(name, "make_field") {
        Some(make_field(args, span))
    } else if str_eq(name, "make_ident") {
        Some(
            match arg_string(args, 0, span) {
                Err(s) => Err(s),
                Ok(t) => Ok(Value::Expr(Expr::ident(&t, span))),
            },
        )
    } else if str_eq(name, "list") {
        Some(Ok(Value::List(dup_values(args))))
    } else if str_eq(name, "list_push") {
        Some(list_push(args, span))
    } else if str_eq(name, "make_int") || str_eq(name, "make_float") || str_eq(name, "make_bool") {
        Some(make_literal(name, args, span))
    } else if str_eq(name, "make_block") {
        Some(make_block(args, span))
    } else if str_eq(name, "make_let") {
        Some(make_let(args, span))
    } else if str_eq(name, "make_call") {
        Some(make_call(args, span))
    } else if str_eq(name, "to_string") {
        Some(make_to_string(args, span))
    } else {
        None
    }
}

fn call_declare(name: &str, args: &Vec<Value>, span: Span) -> (r: Option<Result<Value, Stop>>)
    ensures
        opt_ran(r) == b_declare(name@, values_v(args@), span),
{
    if str_eq(name, "make_function") {
        Some(make_function_item(args, span))
    } else if str_eq(name, "make_struct") {
        Some(make_struct_item(args, span))
    } else if str_eq(name, "make_impl") {
        Some(make_impl_item(args, span))
    } else {
        None
    }
}

impl Interpreter {
    /// The value of an expression. What is printed goes to `out`.
    #[verifier::rlimit(60)]
    pub fn eval(
        &self,
        expr: &Expr,
        env: &mut StrMap<Value>,
        host: &Host,
        fuel: u64,
        out: &mut String,
    ) -> (r: Result<Value, Stop>)
        ensures
            (ran(r), final(env)@, final(out)@) == e_expr(
                ctx(self@, host@),
                fuel as nat,
                expr@,
                old(env)@,
                old(out)@,
            ),
        decreases fuel, 2int, expr, 1int,
    {
        proof {
            un_e_expr(ctx(self@, host@), fuel as nat, expr@, env@, out@);
        }
        let ghost g = expr_v(*expr);
        let ghost k = expr_kind_v(expr.kind);
        match &expr.kind {
            ExprKind::IntLiteral(n) => Ok(Value::Int(*n)),
            ExprKind::FloatLiteral(s) => Ok(Value::Float(s.clone())),
            ExprKind::StringLiteral(s) => Ok(Value::String(s.clone())),
            ExprKind::BoolLiteral(b) => Ok(Value::Bool(*b)),
            ExprKind::NilLiteral => Ok(Value::Nil),
            ExprKind::Ident(name) => match env.get(name) {
                Some(v) => Ok(v.dup()),
                None => Err(failure(&cat3("Undefined: '", name, "'"), expr.span)),
            },
            ExprKind::Path(names) => Ok(Value::String(join(names, "::"))),
            ExprKind::CompileTimeResult(items) => Ok(Value::Items(dup_items(items))),
            ExprKind::CppBlock(code) => self.run_cpp(code, expr.span, Ghost(host@)),
            ExprKind::Lambda { .. } => Err(
                failure("Lambdas not supported in interpreter", expr.span),
            ),
            ExprKind::Return(None) => Ok(Value::Nil),
            ExprKind::Return(Some(x)) => self.eval(x, env, host, fuel, out),
            ExprKind::NamedArg { name, value } => self.eval(value, env, host, fuel, out),
            ExprKind::Block(b) => {
                let ghost bv = block_v(*b);
                self.eval_stmts(&b.stmts, env, host, fuel, out, Value::Nil)
            },
            ExprKind::Unary { .. } => self.eval_single(expr, env, host, fuel, out),
            ExprKind::DotAccess { .. } => self.eval_single(expr, env, host, fuel, out),
            ExprKind::Field { .. } => self.eval_single(expr, env, host, fuel, out),
            ExprKind::Let { .. } => self.eval_store(expr, env, host, fuel, out),
            ExprKind::Assign { .. } => self.eval_store(expr, env, host, fuel, out),
            ExprKind::AssignOp { .. } => self.eval_store(expr, env, host, fuel, out),
            ExprKind::Binary { .. } => self.eval_double(expr, env, host, fuel, out),
            ExprKind::Index { .. } => self.eval_double(expr, env, host, fuel, out),
            ExprKind::Call { .. } => self.eval_call(expr, env, host, fuel, out),
            ExprKind::If { .. } => self.eval_if(expr, env, host, fuel, out),
            ExprKind::For { .. } => self.eval_for(expr, env, host, fuel, out),
            ExprKind::While { .. } => self.eval_while(expr, env, host, fuel, out),
            ExprKind::StructLit { .. } => self.eval_record(expr, env, host, fuel, out),
            ExprKind::GcNew { .. } => self.eval_record(expr, env, host, fuel, out),
            ExprKind::EnumCtor { .. } => self.eval_ctor(expr, env, host, fuel, out),
            ExprKind::Match { .. } => self.eval_match(expr, env, host, fuel, out),
            _ => Err(failure(&cat2("Unsupported: ", &expr.kind.debug()), expr.span)),
        }
    }

    fn run_cpp(&self, code: &str, span: Span, h: Ghost<HostV>) -> (r: Result<Value, Stop>)
        ensures
            ran(r) == cpp_result(ctx(self@, h@), code@, span),
    {
        if !self.runtime_mode {
            return Ok(Value::Nil);
        }
        if contains_text(code, "std::exit") {
            return Err(Stop::Exit(1));
        }
        let t = trim(code);
        Err(
            failure(
                &cat2("@cpp blocks are not supported in interpreter mode: ", &t),
                span,
            ),
        )
    }

    fn eval_stmts(
        &self,
        stmts: &Vec<Expr>,
        env: &mut StrMap<Value>,
        host: &Host,
        fuel: u64,
        out: &mut String,
        start: Value,
    ) -> (r: Result<Value, Stop>)
        ensures
            (ran(r), final(env)@, final(out)@) == e_stmts(
                ctx(self@, host@),
                fuel as nat,
                exprs_v(stmts@),
                0,
                old(env)@,
                old(out)@,
                start@,
            ),
        decreases fuel, 2int, stmts, 0int,
    {
        let ghost c = ctx(self@, host@);
        let ghost sv = exprs_v(stmts@);
        let ghost start_v = start@;
        let mut last = start;
        let mut i: usize = 0;
        while i < stmts.len()
            invariant
                i <= stmts.len(),
                c == ctx(self@, host@),
                sv == exprs_v(stmts@),
                start_v == start@,
                e_stmts(c, fuel as nat, sv, 0, old(env)@, old(out)@, start_v) == e_stmts(
                    c,
                    fuel as nat,
                    sv,
                    i as int,
                    env@,
                    out@,
                    last@,
                ),
            decreases stmts.len() - i,
        {
            proof {
                un_e_stmts(c, fuel as nat, sv, i as int, env@, out@, last@);
            }
            last = self.eval(&stmts[i], env, host, fuel, out)?;
            i = i + 1;
        }
        proof {
            un_e_stmts(c, fuel as nat, sv, i as int, env@, out@, last@);
        }
        Ok(last)
    }

    fn eval_single(
        &self,
        expr: &Expr,
        env: &mut StrMap<Value>,
        host: &Host,
        fuel: u64,
        out: &mut String,
    ) -> (r: Result<Value, Stop>)
        ensures
            (ran(r), final(env)@, final(out)@) == e_single(
                ctx(self@, host@),
                fuel as nat,
                expr@,
                old(env)@,
                old(out)@,
            ),
        decreases fuel, 2int, expr, 0int,
    {
        proof {
            un_e_single(ctx(self@, host@), fuel as nat, expr@, env@, out@);
        }
        let ghost g = expr_v(*expr);
        let ghost k = expr_kind_v(expr.kind);
        match &expr.kind {
            ExprKind::Unary { op, expr: x } => {
                let v = self.eval(x, env, host, fuel, out)?;
                unary(host, *op, v, expr.span)
            },
            ExprKind::DotAccess { object, field } => {
                let v = self.eval(object, env, host, fuel, out)?;
                access_field(&v, field, expr.span)
            },
            ExprKind::Field { object, field } => {
                let v = self.eval(object, env, host, fuel, out)?;
                access_field(&v, field, expr.span)
            },
            _ => Ok(Value::Nil),
        }
    }

    fn eval_store(
        &self,
        expr: &Expr,
        env: &mut StrMap<Value>,
        host: &Host,
        fuel: u64,
        out: &mut String,
    ) -> (r: Result<Value, Stop>)
        ensures
            (ran(r), final(env)@, final(out)@) == e_store(
                ctx(self@, host@),
                fuel as nat,
                expr@,
                old(env)@,
                old(out)@,
            ),
        decreases fuel, 2int, expr, 0int,
    {
        proof {
            un_e_store(ctx(self@, host@), fuel as nat, expr@, env@, out@);
        }
        let ghost g = expr_v(*expr);
        let ghost k = expr_kind_v(expr.kind);
        match &expr.kind {
            ExprKind::Let { name, ty, value, is_mut } => {
                let v = self.eval(value, env, host, fuel, out)?;
                env.insert(name, v.dup());
                Ok(v)
            },
            ExprKind::Assign { target, value } => {
                let ghost tv = expr_v(**target);
                let ghost tk = expr_kind_v(target.kind);
                let v = self.eval(value, env, host, fuel, out)?;
                match &target.kind {
                    ExprKind::Ident(name) => {
                        env.insert(name, v.dup());
                        Ok(v)
                    },
                    _ => Err(failure("Can only assign to variables", expr.span)),
                }
            },
            ExprKind::AssignOp { target, op, value } => {
                let ghost tv = expr_v(**target);
                let ghost tk = expr_kind_v(target.kind);
                match &target.kind {
                    ExprKind::Ident(name) => {
                        let current: Value = match env.get(name) {
                            Some(v) => v.dup(),
                            None => Value::Nil,
                        };
                        let v = self.eval(value, env, host, fuel, out)?;
                        let w = assign_op(*op, &current, &v, expr.span)?;
                        env.insert(name, w.dup());
                        Ok(w)
                    },
                    _ => Err(failure("Can only assign to variables", expr.span)),
                }
            },
            _ => Ok(Value::Nil),
        }
    }

    fn eval_double(
        &self,
        expr: &Expr,
        env: &mut StrMap<Value>,
        host: &Host,
        fuel: u64,
        out: &mut String,
    ) -> (r: Result<Value, Stop>)
        ensures
            (ran(r), final(env)@, final(out)@) == e_double(
                ctx(self@, host@),
                fuel as nat,
                expr@,
                old(env)@,
                old(out)@,
            ),
        decreases fuel, 2int, expr, 0int,
    {
        proof {
            un_e_double(ctx(self@, host@), fuel as nat, expr@, env@, out@);
        }
        let ghost g = expr_v(*expr);
        let ghost k = expr_kind_v(expr.kind);
        match &expr.kind {
            ExprKind::Binary { op, left, right } => {
                let l = self.eval(left, env, host, fuel, out)?;
                let x = self.eval(right, env, host, fuel, out)?;
                binary(host, *op, &l, &x, expr.span)
            },
            ExprKind::Index { object, index: i } => {
                let l = self.eval(object, env, host, fuel, out)?;
                let x = self.eval(i, env, host, fuel, out)?;
                index(&l, &x, expr.span)
            },
            _ => Ok(Value::Nil),
        }
    }

    fn eval_args(
        &self,
        args: &Vec<Expr>,
        env: &mut StrMap<Value>,
        host: &Host,
        fuel: u64,
        out: &mut String,
    ) -> (r: Result<Vec<Value>, Stop>)
        ensures
            (values_ran(r), final(env)@, final(out)@) == e_args(
                ctx(self@, host@),
                fuel as nat,
                exprs_v(args@),
                0,
                old(env)@,
                old(out)@,
                Seq::empty(),
            ),
        decreases fuel, 2int, args, 0int,
    {
        let ghost c = ctx(self@, host@);
        let ghost av = exprs_v(args@);
        let mut vals: Vec<Value> = Vec::new();
        let mut i: usize = 0;
        while i < args.len()
            invariant
                i <= args.len(),
                c == ctx(self@, host@),
                av == exprs_v(args@),
                e_args(c, fuel as nat, av, 0, old(env)@, old(out)@, Seq::empty()) == e_args(
                    c,
                    fuel as nat,
                    av,
                    i as int,
                    env@,
                    out@,
                    values_v(vals@),
                ),
            decreases args.len() - i,
        {
            proof {
                un_e_args(c, fuel as nat, av, i as int, env@, out@, values_v(vals@));
            }
            let v = self.eval(&args[i], env, host, fuel, out)?;
            vals.push(v);
            i = i + 1;
        }
        proof {
            un_e_args(c, fuel as nat, av, i as int, env@, out@, values_v(vals@));
        }
        Ok(vals)
    }

    fn eval_call(
        &self,
        expr: &Expr,
        env: &mut StrMap<Value>,
        host: &Host,
        fuel: u64,
        out: &mut String,
    ) -> (r: Result<Value, Stop>)
        ensures
            (ran(r), final(env)@, final(out)@) == e_apply(
                ctx(self@, host@),
                fuel as nat,
                expr@,
                old(env)@,
                old(out)@,
            ),
        decreases fuel, 2int, expr, 0int,
    {
        proof {
            un_e_apply(ctx(self@, host@), fuel as nat, expr@, env@, out@);
        }
        let ghost g = expr_v(*expr);
        let ghost k = expr_kind_v(expr.kind);
        match &expr.kind {
            ExprKind::Call { func, args } => {
                let ghost fv = expr_v(**func);
                let ghost fk = expr_kind_v(func.kind);
                match &func.kind {
                    ExprKind::Ident(name) => {
                        let vals = self.eval_args(args, env, host, fuel, out)?;
                        self.call_function(name, &vals, expr.span, host, fuel, out)
                    },
                    _ => Err(failure("Only named calls in macros", expr.span)),
                }
            },
            _ => Ok(Value::Nil),
        }
    }

    /// A call of a function of the program, or else of a built-in.
    pub fn call_function(
        &self,
        name: &str,
        args: &Vec<Value>,
        span: Span,
        host: &Host,
        fuel: u64,
        out: &mut String,
    ) -> (r: Result<Value, Stop>)
        ensures
            (ran(r), final(out)@) == e_call(
                ctx(self@, host@),
                fuel as nat,
                name@,
                values_v(args@),
                span,
                old(out)@,
            ),
        decreases fuel, 1int, ExprKind::NilLiteral, 0int,
    {
        proof {
            un_e_call(ctx(self@, host@), fuel as nat, name@, values_v(args@), span, out@);
        }
        match self.functions.get(name) {
            None => self.call_builtin(name, args, span, host, out),
            Some(list) => {
                let f = self.choose_overload(name, &list.functions, args, span, Ghost(host@))?;
                self.call_user_function(&f, args, span, host, fuel, out)
            },
        }
    }

    fn call_user_function(
        &self,
        f: &Function,
        args: &Vec<Value>,
        span: Span,
        host: &Host,
        fuel: u64,
        out: &mut String,
    ) -> (r: Result<Value, Stop>)
        ensures
            (ran(r), final(out)@) == e_user(
                ctx(self@, host@),
                fuel as nat,
                f@,
                values_v(args@),
                span,
                old(out)@,
            ),
        decreases fuel, 0int, ExprKind::NilLiteral, 0int,
    {
        proof {
            un_e_user(ctx(self@, host@), fuel as nat, f@, values_v(args@), span, out@);
        }
        let ghost fv = function_v(*f);
        let ghost bv = block_v(f.body);
        let ghost av = values_v(args@);
        if f.params.len() != args.len() {
            let want = show_usize(f.params.len());
            let got = show_usize(args.len());
            return Err(
                failure(
                    &cat6("Function '", &f.name, "' expects ", &want, " arguments, got ", &got),
                    span,
                ),
            );
        }
        if fuel == 0 {
            return Err(Stop::OutOfFuel);
        }
        let mut env = scope_of_call(&f.params, args);
        self.eval_body(&f.body.stmts, &mut env, host, fuel - 1, out)
    }

    fn eval_body(
        &self,
        stmts: &Vec<Expr>,
        env: &mut StrMap<Value>,
        host: &Host,
        fuel: u64,
        out: &mut String,
    ) -> (r: Result<Value, Stop>)
        ensures
            (ran(r), final(out)@) == e_body(
                ctx(self@, host@),
                fuel as nat,
                exprs_v(stmts@),
                0,
                old(env)@,
                old(out)@,
                ValueV::Nil,
            ),
        decreases fuel, 2int, stmts, 0int,
    {
        let ghost c = ctx(self@, host@);
        let ghost sv = exprs_v(stmts@);
        let mut last = Value::Nil;
        let mut i: usize = 0;
        while i < stmts.len()
            invariant
                i <= stmts.len(),
                c == ctx(self@, host@),
                sv == exprs_v(stmts@),
                e_body(c, fuel as nat, sv, 0, old(env)@, old(out)@, ValueV::Nil) == e_body(
                    c,
                    fuel as nat,
                    sv,
                    i as int,
                    env@,
                    out@,
                    last@,
                ),
            decreases stmts.len() - i,
        {
            proof {
                un_e_body(c, fuel as nat, sv, i as int, env@, out@, last@);
            }
            let ghost g = expr_v(stmts[i as int]);
            let ghost k = expr_kind_v(stmts[i as int].kind);
            if matches!(stmts[i].kind, ExprKind::Return(_)) {
                return self.eval(&stmts[i], env, host, fuel, out);
            }
            last = self.eval(&stmts[i], env, host, fuel, out)?;
            i = i + 1;
        }
        proof {
            un_e_body(c, fuel as nat, sv, i as int, env@, out@, last@);
        }
        Ok(last)
    }

    fn eval_if(
        &self,
        expr: &Expr,
        env: &mut StrMap<Value>,
        host: &Host,
        fuel: u64,
        out: &mut String,
    ) -> (r: Result<Value, Stop>)
        ensures
            (ran(r), final(env)@, final(out)@) == e_if(
                ctx(self@, host@),
                fuel as nat,
                expr@,
                old(env)@,
                old(out)@,
            ),
        decreases fuel, 2int, expr, 0int,
    {
        proof {
            un_e_if(ctx(self@, host@), fuel as nat, expr@, env@, out@);
        }
        let ghost g = expr_v(*expr);
        let ghost k = expr_kind_v(expr.kind);
        match &expr.kind {
            ExprKind::If { cond, then_branch, else_branch } => {
                let ghost tv = block_v(*then_branch);
                let v = self.eval(cond, env, host, fuel, out)?;
                if condition_of(&v, "If condition must be bool", expr.span)? {
                    self.eval_stmts(&then_branch.stmts, env, host, fuel, out, Value::Nil)
                } else {
                    match else_branch {
                        Some(b) => {
                            let ghost bv = block_v(*b);
                            self.eval_stmts(&b.stmts, env, host, fuel, out, Value::Nil)
                        },
                        None => Ok(Value::Nil),
                    }
                }
            },
            _ => Ok(Value::Nil),
        }
    }

    fn eval_for(
        &self,
        expr: &Expr,
        env: &mut StrMap<Value>,
        host: &Host,
        fuel: u64,
        out: &mut String,
    ) -> (r: Result<Value, Stop>)
        ensures
            (ran(r), final(env)@, final(out)@) == e_for(
                ctx(self@, host@),
                fuel as nat,
                expr@,
                old(env)@,
                old(out)@,
            ),
        decreases fuel, 2int, expr, 0int,
    {
        proof {
            un_e_for(ctx(self@, host@), fuel as nat, expr@, env@, out@);
        }
        let ghost g = expr_v(*expr);
        let ghost k = expr_kind_v(expr.kind);
        match &expr.kind {
            ExprKind::For { var, iter, body } => {
                let v = self.eval(iter, env, host, fuel, out)?;
                let vals = values_to_loop(&v, expr.span)?;
                self.eval_rounds(var, &vals, body, env, host, fuel, out)
            },
            _ => Ok(Value::Nil),
        }
    }

    fn eval_rounds(
        &self,
        var: &String,
        vals: &Vec<Value>,
        body: &Block,
        env: &mut StrMap<Value>,
        host: &Host,
        fuel: u64,
        out: &mut String,
    ) -> (r: Result<Value, Stop>)
        ensures
            (ran(r), final(env)@, final(out)@) == e_rounds(
                ctx(self@, host@),
                fuel as nat,
                var@,
                values_v(vals@),
                0,
                body@,
                old(env)@,
                old(out)@,
                ValueV::Nil,
            ),
        decreases fuel, 2int, body, 0int,
    {
        let ghost c = ctx(self@, host@);
        let ghost vv = values_v(vals@);
        let ghost bv = block_v(*body);
        let mut last = Value::Nil;
        let mut i: usize = 0;
        while i < vals.len()
            invariant
                i <= vals.len(),
                c == ctx(self@, host@),
                vv == values_v(vals@),
                body@.stmts == exprs_v(body.stmts@),
                e_rounds(
                    c,
                    fuel as nat,
                    var@,
                    vv,
                    0,
                    body@,
                    old(env)@,
                    old(out)@,
                    ValueV::Nil,
                ) == e_rounds(
                    c,
                    fuel as nat,
                    var@,
                    vv,
                    i as int,
                    body@,
                    env@,
                    out@,
                    last@,
                ),
            decreases vals.len() - i,
        {
            proof {
                un_e_rounds(
                    c,
                    fuel as nat,
                    var@,
                    vv,
                    i as int,
                    body@,
                    env@,
                    out@,
                    last@,
                );
            }
            let ghost x = vv[i as int];
            env.insert(var, vals[i].dup());
            last = self.eval_stmts(&body.stmts, env, host, fuel, out, last)?;
            i = i + 1;
        }
        proof {
            un_e_rounds(c, fuel as nat, var@, vv, i as int, body@, env@, out@, last@);
        }
        Ok(last)
    }

    fn eval_while(
        &self,
        expr: &Expr,
        env: &mut StrMap<Value>,
        host: &Host,
        fuel: u64,
        out: &mut String,
    ) -> (r: Result<Value, Stop>)
        ensures
            (ran(r), final(env)@, final(out)@) == e_while(
                ctx(self@, host@),
                fuel as nat,
                expr@,
                old(env)@,
                old(out)@,
                ValueV::Nil,
            ),
        decreases fuel, 2int, expr, 0int,
    {
        let ghost c = ctx(self@, host@);
        let ghost g = expr_v(*expr);
        let ghost k = expr_kind_v(expr.kind);
        match &expr.kind {
            ExprKind::While { cond, body } => {
                let ghost bv = block_v(*body);
                let mut last = Value::Nil;
                let mut left: u64 = fuel;
                loop
                    invariant
                        left <= fuel,
                        c == ctx(self@, host@),
                        g == expr@,
                        g.span == expr.span,
                        g.kind == (ExprKindV::While {
                            cond: Box::new(expr_v(**cond)),
                            body: block_v(*body),
                        }),
                        block_v(*body).stmts == exprs_v(body.stmts@),
                        expr.kind == (ExprKind::While { cond: *cond, body: *body }),
                        e_while(c, fuel as nat, g, old(env)@, old(out)@, ValueV::Nil) == e_while(
                            c,
                            left as nat,
                            g,
                            env@,
                            out@,
                            last@,
                        ),
                    decreases left,
                {
                    proof {
                        un_e_while(c, left as nat, g, env@, out@, last@);
                    }
                    let v = self.eval(cond, env, host, left, out)?;
                    if !condition_of(&v, "While condition must be bool", expr.span)? {
                        return Ok(last);
                    }
                    last = self.eval_stmts(&body.stmts, env, host, left, out, last)?;
                    if left == 0 {
                        return Err(Stop::OutOfFuel);
                    }
                    left = left - 1;
                }
            },
            _ => {
                proof {
                    un_e_while(c, fuel as nat, g, env@, out@, ValueV::Nil);
                }
                Ok(Value::Nil)
            },
        }
    }

    fn eval_fields(
        &self,
        fs: &Vec<(String, Expr)>,
        env: &mut StrMap<Value>,
        host: &Host,
        fuel: u64,
        out: &mut String,
    ) -> (r: Result<Vec<(String, Value)>, Stop>)
        ensures
            (fields_of_ran(r), final(env)@, final(out)@) == e_fields(
                ctx(self@, host@),
                fuel as nat,
                field_inits_v(fs@),
                0,
                old(env)@,
                old(out)@,
                Seq::empty(),
            ),
        decreases fuel, 2int, fs, 0int,
    {
        let ghost c = ctx(self@, host@);
        let ghost fv = field_inits_v(fs@);
        let mut vals: Vec<(String, Value)> = Vec::new();
        let mut i: usize = 0;
        while i < fs.len()
            invariant
                i <= fs.len(),
                c == ctx(self@, host@),
                fv == field_inits_v(fs@),
                e_fields(c, fuel as nat, fv, 0, old(env)@, old(out)@, Seq::empty()) == e_fields(
                    c,
                    fuel as nat,
                    fv,
                    i as int,
                    env@,
                    out@,
                    value_fields_v(vals@),
                ),
            decreases fs.len() - i,
        {
            proof {
                un_e_fields(c, fuel as nat, fv, i as int, env@, out@, value_fields_v(vals@));
            }
            let ghost f = fv[i as int];
            let v = self.eval(&fs[i].1, env, host, fuel, out)?;
            put_field(&mut vals, &fs[i].0, v);
            i = i + 1;
        }
        proof {
            un_e_fields(c, fuel as nat, fv, i as int, env@, out@, value_fields_v(vals@));
        }
        Ok(vals)
    }

    fn eval_record(
        &self,
        expr: &Expr,
        env: &mut StrMap<Value>,
        host: &Host,
        fuel: u64,
        out: &mut String,
    ) -> (r: Result<Value, Stop>)
        ensures
            (ran(r), final(env)@, final(out)@) == e_record(
                ctx(self@, host@),
                fuel as nat,
                expr@,
                old(env)@,
                old(out)@,
            ),
        decreases fuel, 2int, expr, 0int,
    {
        proof {
            un_e_record(ctx(self@, host@), fuel as nat, expr@, env@, out@);
        }
        let ghost g = expr_v(*expr);
        let ghost k = expr_kind_v(expr.kind);
        match &expr.kind {
            ExprKind::StructLit { path, fields } => {
                let fs = self.eval_fields(fields, env, host, fuel, out)?;
                let ghost pv = strs_v(path@);
                let n: usize = path.len();
                let name = if n > 0 {
                    path[n - 1].clone()
                } else {
                    String::new()
                };
                let v = Value::Struct(name, fs);
                let ghost vv = value_v(v);
                Ok(v)
            },
            ExprKind::GcNew { ty, fields } => {
                let fs = self.eval_fields(fields, env, host, fuel, out)?;
                let name = match name_of_type(ty) {
                    Some(n) => n,
                    None => String::new(),
                };
                let v = Value::Struct(name, fs);
                let ghost vv = value_v(v);
                Ok(v)
            },
            _ => Ok(Value::Nil),
        }
    }

    fn eval_ctor(
        &self,
        expr: &Expr,
        env: &mut StrMap<Value>,
        host: &Host,
        fuel: u64,
        out: &mut String,
    ) -> (r: Result<Value, Stop>)
        ensures
            (ran(r), final(env)@, final(out)@) == e_ctor(
                ctx(self@, host@),
                fuel as nat,
                expr@,
                old(env)@,
                old(out)@,
            ),
        decreases fuel, 2int, expr, 0int,
    {
        proof {
            un_e_ctor(ctx(self@, host@), fuel as nat, expr@, env@, out@);
        }
        let ghost g = expr_v(*expr);
        let ghost k = expr_kind_v(expr.kind);
        match &expr.kind {
            ExprKind::EnumCtor { path, case, arg } => {
                match arg {
                    None => {
                        let v = Value::Enum(case.clone(), None);
                        let ghost vv = value_v(v);
                        Ok(v)
                    },
                    Some(a) => {
                        let x = self.eval(a, env, host, fuel, out)?;
                        let v = Value::Enum(case.clone(), Some(Box::new(x)));
                        let ghost vv = value_v(v);
                        Ok(v)
                    },
                }
            },
            _ => Ok(Value::Nil),
        }
    }

    fn eval_match(
        &self,
        expr: &Expr,
        env: &mut StrMap<Value>,
        host: &Host,
        fuel: u64,
        out: &mut String,
    ) -> (r: Result<Value, Stop>)
        ensures
            (ran(r), final(env)@, final(out)@) == e_match(
                ctx(self@, host@),
                fuel as nat,
                expr@,
                old(env)@,
                old(out)@,
            ),
        decreases fuel, 2int, expr, 0int,
    {
        proof {
            un_e_match(ctx(self@, host@), fuel as nat, expr@, env@, out@);
        }
        let ghost g = expr_v(*expr);
        let ghost k = expr_kind_v(expr.kind);
        match &expr.kind {
            ExprKind::Match { expr: subject, arms } => {
                let v = self.eval(subject, env, host, fuel, out)?;
                self.eval_arms(arms, &v, env, expr.span, host, fuel, out)
            },
            _ => Ok(Value::Nil),
        }
    }

    fn eval_arms(
        &self,
        arms: &Vec<MatchArm>,
        v: &Value,
        env: &StrMap<Value>,
        span: Span,
        host: &Host,
        fuel: u64,
        out: &mut String,
    ) -> (r: Result<Value, Stop>)
        ensures
            (ran(r), final(out)@) == e_arms(
                ctx(self@, host@),
                fuel as nat,
                match_arms_v(arms@),
                0,
                v@,
                env@,
                old(out)@,
                span,
            ),
        decreases fuel, 2int, arms, 0int,
    {
        let ghost c = ctx(self@, host@);
        let ghost av = match_arms_v(arms@);
        let mut i: usize = 0;
        while i < arms.len()
            invariant
                i <= arms.len(),
                c == ctx(self@, host@),
                av == match_arms_v(arms@),
                e_arms(c, fuel as nat, av, 0, v@, env@, old(out)@, span) == e_arms(
                    c,
                    fuel as nat,
                    av,
                    i as int,
                    v@,
                    env@,
                    out@,
                    span,
                ),
            decreases arms.len() - i,
        {
            proof {
                un_e_arms(c, fuel as nat, av, i as int, v@, env@, out@, span);
            }
            let ghost a = match_arm_v(arms[i as int]);
            if let Some(bs) = match_pattern(v, &arms[i].pattern)? {
                let mut guard_env = env.copy();
                bind_values(&mut guard_env, &bs);
                if self.eval_guard(&arms[i].guard, &mut guard_env, host, fuel, out)? {
                    let mut body_env = env.copy();
                    bind_values(&mut body_env, &bs);
                    return self.eval(&arms[i].body, &mut body_env, host, fuel, out);
                }
            }
            i = i + 1;
        }
        proof {
            un_e_arms(c, fuel as nat, av, i as int, v@, env@, out@, span);
        }
        Err(failure("No matching pattern", span))
    }

    fn eval_guard(
        &self,
        guard: &Option<Box<Expr>>,
        env: &mut StrMap<Value>,
        host: &Host,
        fuel: u64,
        out: &mut String,
    ) -> (r: Result<bool, Stop>)
        ensures
            (bool_ran(r), final(out)@) == e_guard(
                ctx(self@, host@),
                fuel as nat,
                opt_box_v(*guard),
                old(env)@,
                old(out)@,
            ),
        decreases fuel, 2int, guard, 0int,
    {
        proof {
            un_e_guard(ctx(self@, host@), fuel as nat, opt_box_v(*guard), env@, out@);
        }
        match guard {
            None => Ok(true),
            Some(g) => {
                let v = self.eval(g, env, host, fuel, out)?;
                let ghost vv = value_v(v);
                match v {
                    Value::Bool(b) => Ok(b),
                    _ => Ok(true),
                }
            },
        }
    }
}

spec fn opt_box_v(g: Option<Box<Expr>>) -> Option<Box<ExprV>> {
    match g {
        Some(x) => Some(Box::new(expr_v(*x))),
        None => None,
    }
}

} // verus!
