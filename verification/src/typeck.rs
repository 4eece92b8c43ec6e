//! The type checker: the types of expressions, and what dot accesses stand for.
use vstd::prelude::*;
use crate::ast::{
    BinOp, Block, Enum, Expr, ExprKind, Function, FunctionType, Item, Module, Param, Path, Struct,
    StructField, TraitDef, Type, VarDecl,
};
use crate::error::{CompileError, CompileErrorV};
use crate::maps::{Dup, StrMap, TypeList};
use crate::model::{
    EnumV, ExprKindV, ExprV, FunctionTypeV, FunctionV, ItemV, ParamV, PathSegmentV, PathV,
    StructFieldV, StructV, TraitDefV, TypeV,
};
use crate::resolve::{ResolutionMap, ResolvedAs};
use crate::text::{cat3, cat5, join, str_eq};
use crate::token::Span;

verus! {

use crate::mono::contains_case;
use crate::mono_model::has_case;
use crate::ast::{named_type, type_text};
use crate::error::{res_v, type_error};
use crate::maps::lookup;
use crate::model::{
    block_v, enum_v, expr_kind_v, expr_v, exprs_v, field_inits_v, function_type_v, function_v,
    group_list_views, opt_type_v, param_v, params_v, path_segment_v, path_v, struct_field_v,
    struct_fields_v, type_v, types_v,
};
use crate::paths::{last_name, path_key, plain_segments};
use crate::text::{join_v, opt_str_v, strs_v};
use crate::typeck_rules::{un_c_args, un_c_call, un_c_expr, un_c_if, un_c_inits, un_c_stmts};

broadcast use {group_list_views, vstd::std_specs::hash::group_hash_axioms};

// ------------------------------------------------------------------ the model

/// What a type name stands for.
#[derive(Debug)]
pub enum TypeInfo {
    Struct(Struct),
    Enum(Enum),
    Alias(Type),
}

/// The model of a [`TypeInfo`].
#[verifier::ext_equal]
pub enum TypeInfoV {
    Struct(StructV),
    Enum(EnumV),
    Alias(TypeV),
}

impl View for TypeInfo {
    type V = TypeInfoV;

    open spec fn view(&self) -> TypeInfoV {
        match self {
            TypeInfo::Struct(s) => TypeInfoV::Struct(s@),
            TypeInfo::Enum(e) => TypeInfoV::Enum(e@),
            TypeInfo::Alias(t) => TypeInfoV::Alias(t@),
        }
    }
}

impl Dup for TypeInfo {
    fn copy(&self) -> (r: Self) {
        match self {
            TypeInfo::Struct(s) => TypeInfo::Struct(s.dup()),
            TypeInfo::Enum(e) => TypeInfo::Enum(e.dup()),
            TypeInfo::Alias(t) => TypeInfo::Alias(t.dup()),
        }
    }
}

/// The types and the overloads of the functions that are known.
#[verifier::ext_equal]
pub struct Known {
    pub types: Map<Seq<char>, TypeInfoV>,
    pub functions: Map<Seq<char>, Seq<TypeV>>,
}

/// The types of the variables in scope.
pub type Env = Map<Seq<char>, TypeV>;

/// What dot accesses stand for.
pub type Res = Map<usize, ResolvedAs>;

/// A type with the scope and the resolutions after it, or the error.
pub type Checked = Result<(TypeV, Env, Res), CompileErrorV>;

// ------------------------------------------------------------- types compared

/// Whether two types have the same names; only paths and references to them can.
pub open spec fn same_type(a: TypeV, b: TypeV) -> bool
    decreases a,
{
    match (a, b) {
        (TypeV::Path(p), TypeV::Path(q)) => path_key(p) == path_key(q),
        (TypeV::GcRef(x), TypeV::GcRef(y)) => same_type(*x, *y),
        _ => false,
    }
}

/// Whether a path has a segment named `void`.
pub open spec fn has_void(segs: Seq<PathSegmentV>) -> bool {
    exists|k: int| 0 <= k < segs.len() && (#[trigger] segs[k]).name == "void"@
}

/// Whether a value of type `actual` may stand where `expected` is asked for.
pub open spec fn accepts(expected: TypeV, actual: TypeV) -> bool {
    match (expected, actual) {
        (TypeV::Unit, TypeV::Unit) => true,
        (TypeV::Never, _) => true,
        (_, TypeV::Never) => true,
        (TypeV::Path(p), TypeV::Path(q)) => same_type(expected, actual),
        (TypeV::Path(p), TypeV::Unit) => has_void(p.segments),
        (TypeV::Unit, TypeV::Path(q)) => has_void(q.segments),
        _ => false,
    }
}

/// Which of two types is asked for does not matter.
pub proof fn law_accepts_symmetric(a: TypeV, b: TypeV)
    ensures
        accepts(a, b) == accepts(b, a),
{
}

/// A named type accepts itself, as do the empty ones. (References are not compared.)
pub proof fn law_accepts_itself(t: TypeV)
    requires
        t is Path || t is Unit || t is Never,
    ensures
        accepts(t, t),
{
}

pub open spec fn mismatch(expected: TypeV, actual: TypeV, span: Span) -> CompileErrorV {
    type_error(
        "Type mismatch: expected '"@ + type_text(expected) + "', got '"@ + type_text(actual)
            + "'"@,
        span,
    )
}

/// Whether a signature takes these arguments; one without parameters takes any.
pub open spec fn takes(sig: FunctionTypeV, args: Seq<TypeV>) -> bool {
    sig.params.len() == 0 || (sig.params.len() == args.len() && forall|k: int|
        0 <= k < args.len() ==> same_type(#[trigger] sig.params[k], args[k]))
}

/// Whether a candidate is a function that takes these arguments.
pub open spec fn candidate_takes(t: TypeV, args: Seq<TypeV>) -> bool {
    t matches TypeV::Function(sig) && takes(sig, args)
}

/// Why no overload is chosen.
pub enum NoChoice {
    Nothing,
    Ambiguous,
}

/// The one candidate from `i` on that takes the arguments, `best` being one before.
pub open spec fn choose_overload(
    cands: Seq<TypeV>,
    args: Seq<TypeV>,
    i: int,
    best: Option<int>,
) -> Result<int, NoChoice>
    decreases cands.len() - i,
{
    if 0 <= i < cands.len() {
        if candidate_takes(cands[i], args) {
            match best {
                None => choose_overload(cands, args, i + 1, Some(i)),
                Some(_) => Err(NoChoice::Ambiguous),
            }
        } else {
            choose_overload(cands, args, i + 1, best)
        }
    } else {
        match best {
            None => Err(NoChoice::Nothing),
            Some(k) => Ok(k),
        }
    }
}

/// The first candidate from `i` on that is a function with a parameter.
pub open spec fn first_method(cands: Seq<TypeV>, i: int) -> Option<TypeV>
    decreases cands.len() - i,
{
    if 0 <= i < cands.len() {
        match cands[i] {
            TypeV::Function(sig) => if sig.params.len() >= 1 {
                Some(*sig.ret)
            } else {
                first_method(cands, i + 1)
            },
            _ => first_method(cands, i + 1),
        }
    } else {
        None
    }
}

/// The type of the first field of this name from `i` on.
pub open spec fn field_of(fields: Seq<StructFieldV>, name: Seq<char>, i: int) -> Option<TypeV>
    decreases fields.len() - i,
{
    if 0 <= i < fields.len() {
        if fields[i].name == name {
            Some(fields[i].ty)
        } else {
            field_of(fields, name, i + 1)
        }
    } else {
        None
    }
}

/// The struct of this name.
pub open spec fn struct_named(c: Known, name: Seq<char>) -> Option<StructV> {
    match lookup(c.types, name) {
        Some(TypeInfoV::Struct(s)) => Some(s),
        _ => None,
    }
}

/// The type of a field of a value of this type.
pub open spec fn field_type(c: Known, obj: TypeV, field: Seq<char>) -> Option<TypeV> {
    match obj {
        TypeV::Path(p) => match struct_named(c, last_name(p)) {
            Some(s) => field_of(s.fields, field, 0),
            None => None,
        },
        _ => None,
    }
}

// ----------------------------------------------------------------- expressions

/// The type of a variable, or of the first overload of a function.
pub open spec fn c_ident(c: Known, name: Seq<char>, span: Span, env: Env) -> Result<
    TypeV,
    CompileErrorV,
> {
    if env.contains_key(name) {
        Ok(env[name])
    } else {
        match lookup(c.functions, name) {
            Some(cands) => if cands.len() > 0 {
                Ok(cands[0])
            } else {
                Err(type_error("Undefined: '"@ + name + "'"@, span))
            },
            None => Err(type_error("Undefined: '"@ + name + "'"@, span)),
        }
    }
}

/// The type of an operation whose operands have these types.
pub open spec fn c_operation(
    op: BinOp,
    lt: TypeV,
    ls: Span,
    rt: TypeV,
    rs: Span,
    span: Span,
) -> Result<TypeV, CompileErrorV> {
    let number = named_type("Int"@);
    let boolean = named_type("Bool"@);
    match op {
        BinOp::Add | BinOp::Sub | BinOp::Mul | BinOp::Div | BinOp::Mod => if op is Add
            && type_text(lt) == "String"@ && type_text(rt) == "String"@ {
            Ok(named_type("String"@))
        } else if !accepts(number, lt) {
            Err(mismatch(number, lt, ls))
        } else if !accepts(number, rt) {
            Err(mismatch(number, rt, rs))
        } else {
            Ok(number)
        },
        BinOp::Eq | BinOp::NotEq | BinOp::Lt | BinOp::Gt | BinOp::LtEq | BinOp::GtEq => if accepts(
            lt,
            rt,
        ) {
            Ok(boolean)
        } else {
            Err(mismatch(lt, rt, span))
        },
        BinOp::And | BinOp::Or => if !accepts(boolean, lt) {
            Err(mismatch(boolean, lt, ls))
        } else if !accepts(boolean, rt) {
            Err(mismatch(boolean, rt, rs))
        } else {
            Ok(boolean)
        },
    }
}

/// What `object.field` of this type is, and how it is resolved.
pub open spec fn c_dot(c: Known, obj: TypeV, field: Seq<char>, span: Span) -> Result<
    (TypeV, ResolvedAs),
    CompileErrorV,
> {
    match field_type(c, obj, field) {
        Some(t) => Ok((t, ResolvedAs::Field)),
        None => {
            let method = match lookup(c.functions, field) {
                Some(cands) => first_method(cands, 0),
                None => None,
            };
            match method {
                Some(t) => Ok((t, ResolvedAs::Call)),
                None => Err(
                    type_error(
                        "No field '"@ + field + "' on '"@ + type_text(obj)
                            + "' and no matching function"@,
                        span,
                    ),
                ),
            }
        },
    }
}

/// The name by which a call is looked up.
pub open spec fn callee_name(f: ExprV) -> Option<Seq<char>> {
    match f.kind {
        ExprKindV::Ident(name) => Some(name),
        ExprKindV::DotAccess { object, field } => Some(field),
        _ => None,
    }
}

/// The type that a call of this overload set gives.
pub open spec fn c_overload(
    cands: Seq<TypeV>,
    args: Seq<TypeV>,
    name: Seq<char>,
    span: Span,
) -> Result<TypeV, CompileErrorV> {
    match choose_overload(cands, args, 0, None) {
        Ok(k) => match cands[k] {
            TypeV::Function(sig) => Ok(*sig.ret),
            _ => Err(type_error("No matching overload for '"@ + name + "'"@, span)),
        },
        Err(NoChoice::Ambiguous) => Err(type_error("Ambiguous call"@, span)),
        Err(NoChoice::Nothing) => Err(
            type_error("No matching overload for '"@ + name + "'"@, span),
        ),
    }
}

/// The struct that a literal of this path makes.
pub open spec fn literal_struct(c: Known, path: Seq<Seq<char>>) -> Option<StructV> {
    let whole = join_v(path, "::"@);
    let last = if path.len() > 0 {
        path.last()
    } else {
        Seq::empty()
    };
    if c.types.contains_key(whole) {
        struct_named(c, whole)
    } else {
        struct_named(c, last)
    }
}

/// The expression is a case of the enum that the type names.
pub open spec fn is_case_of(c: Known, t: TypeV, e: ExprV) -> bool {
    match (t, e.kind) {
        (TypeV::Path(p), ExprKindV::EnumCtor { path, case, .. }) => match lookup(
            c.types,
            last_name(p),
        ) {
            Some(TypeInfoV::Enum(d)) => has_case(d.cases, case) && (path.len() == 0 || path.last()
                == d.name),
            _ => false,
        },
        _ => false,
    }
}

/// The expression fits where a value of this type is asked for, its own type being `actual`:
/// a case fits its enum.
pub open spec fn fits(c: Known, expected: TypeV, e: ExprV, actual: TypeV) -> bool {
    is_case_of(c, expected, e) || accepts(expected, actual)
}

#[verifier::opaque]
pub open spec fn c_expr(c: Known, e: ExprV, env: Env, res: Res) -> Checked
    decreases e, 2int,
{
    match e.kind {
        ExprKindV::IntLiteral(_) => Ok((named_type("Int"@), env, res)),
        ExprKindV::FloatLiteral(_) => Ok((named_type("Float"@), env, res)),
        ExprKindV::StringLiteral(_) => Ok((named_type("String"@), env, res)),
        ExprKindV::BoolLiteral(_) => Ok((named_type("Bool"@), env, res)),
        ExprKindV::NilLiteral => Ok((TypeV::Never, env, res)),
        ExprKindV::Ident(name) => match c_ident(c, name, e.span, env) {
            Err(err) => Err(err),
            Ok(t) => Ok((t, env, res)),
        },
        ExprKindV::Block(b) => match c_stmts(c, b.stmts, 0, TypeV::Unit, env, res) {
            Err(err) => Err(err),
            Ok((t, _, r)) => Ok((t, env, r)),
        },
        ExprKindV::Let { name, ty, value, is_mut } => match c_expr(c, *value, env, res) {
            Err(err) => Err(err),
            Ok((vt, env1, r)) => match ty {
                Some(dt) => if fits(c, dt, *value, vt) {
                    Ok((TypeV::Unit, env1.insert(name, dt), r))
                } else {
                    Err(mismatch(dt, vt, value.span))
                },
                None => Ok((TypeV::Unit, env1.insert(name, vt), r)),
            },
        },
        ExprKindV::Return(Some(x)) => c_expr(c, *x, env, res),
        ExprKindV::Return(None) => Ok((TypeV::Unit, env, res)),
        ExprKindV::Binary { op, left, right } => match c_expr(c, *left, env, res) {
            Err(err) => Err(err),
            Ok((lt, env1, r1)) => match c_expr(c, *right, env1, r1) {
                Err(err) => Err(err),
                Ok((rt, env2, r2)) => match c_operation(
                    op,
                    lt,
                    left.span,
                    rt,
                    right.span,
                    e.span,
                ) {
                    Err(err) => Err(err),
                    Ok(t) => Ok((t, env2, r2)),
                },
            },
        },
        ExprKindV::Call { func, args } => c_call(c, callee_name(*func), args, e.span, env, res),
        ExprKindV::DotAccess { object, field } => match c_expr(c, *object, env, res) {
            Err(err) => Err(err),
            Ok((ot, env1, r1)) => match c_dot(c, ot, field, e.span) {
                Err(err) => Err(err),
                Ok((t, how)) => Ok((t, env1, r1.insert(e.span.start, how))),
            },
        },
        ExprKindV::Field { object, field } => match c_expr(c, *object, env, res) {
            Err(err) => Err(err),
            Ok((ot, env1, r1)) => Ok(
                (
                    match field_type(c, ot, field) {
                        Some(t) => t,
                        None => TypeV::Unit,
                    },
                    env1,
                    r1,
                ),
            ),
        },
        ExprKindV::StructLit { path, fields } => match literal_struct(c, path) {
            None => Ok((TypeV::Unit, env, res)),
            Some(s) => match c_inits(c, s, fields, 0, env, res) {
                Err(err) => Err(err),
                Ok(r) => Ok(
                    (TypeV::Path(PathV { segments: plain_segments(path) }), env, r),
                ),
            },
        },
        ExprKindV::If { .. } => c_if(c, e, env, res),
        ExprKindV::While { cond, body } => match c_expr(c, *cond, env, res) {
            Err(err) => Err(err),
            Ok((t, env1, r)) => if accepts(named_type("Bool"@), t) {
                Ok((TypeV::Unit, env1, r))
            } else {
                Err(mismatch(named_type("Bool"@), t, cond.span))
            },
        },
        ExprKindV::For { var, iter, body } => match c_expr(c, *iter, env, res) {
            Err(err) => Err(err),
            Ok((t, env1, r)) => Ok((TypeV::Unit, env1, r)),
        },
        ExprKindV::Assign { target, value } => match c_expr(c, *target, env, res) {
            Err(err) => Err(err),
            Ok((tt, env1, r1)) => match c_expr(c, *value, env1, r1) {
                Err(err) => Err(err),
                Ok((vt, env2, r2)) => if fits(c, tt, *value, vt) {
                    Ok((TypeV::Unit, env2, r2))
                } else {
                    Err(mismatch(tt, vt, e.span))
                },
            },
        },
        _ => Ok((TypeV::Unit, env, res)),
    }
}

#[verifier::opaque]
pub open spec fn c_call(
    c: Known,
    callee: Option<Seq<char>>,
    args: Seq<ExprV>,
    span: Span,
    env: Env,
    res: Res,
) -> Checked
    decreases args, args.len() + 2,
{
    match callee {
        None => Ok((TypeV::Unit, env, res)),
        Some(name) => if name == "std::to_string"@ {
            match c_args(c, args, 0, Seq::empty(), env, res) {
                Err(err) => Err(err),
                Ok((ts, env1, r)) => Ok((named_type("String"@), env1, r)),
            }
        } else {
            match lookup(c.functions, name) {
                None => Ok((TypeV::Unit, env, res)),
                Some(cands) => match c_args(c, args, 0, Seq::empty(), env, res) {
                    Err(err) => Err(err),
                    Ok((ts, env1, r)) => match c_overload(cands, ts, name, span) {
                        Err(err) => Err(err),
                        Ok(t) => Ok((t, env1, r)),
                    },
                },
            }
        },
    }
}

/// The types of the arguments from `i` on, behind those of `acc`.
#[verifier::opaque]
pub open spec fn c_args(
    c: Known,
    args: Seq<ExprV>,
    i: int,
    acc: Seq<TypeV>,
    env: Env,
    res: Res,
) -> Result<(Seq<TypeV>, Env, Res), CompileErrorV>
    decreases args, args.len() - i,
{
    if 0 <= i < args.len() {
        match c_expr(c, args[i], env, res) {
            Err(err) => Err(err),
            Ok((t, env1, r1)) => c_args(c, args, i + 1, acc.push(t), env1, r1),
        }
    } else {
        Ok((acc, env, res))
    }
}

/// The type of the last statement from `i` on, `last` being that before.
#[verifier::opaque]
pub open spec fn c_stmts(
    c: Known,
    stmts: Seq<ExprV>,
    i: int,
    last: TypeV,
    env: Env,
    res: Res,
) -> Checked
    decreases stmts, stmts.len() - i,
{
    if 0 <= i < stmts.len() {
        match c_expr(c, stmts[i], env, res) {
            Err(err) => Err(err),
            Ok((t, env1, r1)) => c_stmts(c, stmts, i + 1, t, env1, r1),
        }
    } else {
        Ok((last, env, res))
    }
}

/// Checks the fields of a struct literal from `i` on, each in the same scope.
#[verifier::opaque]
pub open spec fn c_inits(
    c: Known,
    s: StructV,
    fields: Seq<(Seq<char>, ExprV)>,
    i: int,
    env: Env,
    res: Res,
) -> Result<Res, CompileErrorV>
    decreases fields, fields.len() - i,
{
    if 0 <= i < fields.len() {
        match field_of(s.fields, fields[i].0, 0) {
            None => c_inits(c, s, fields, i + 1, env, res),
            Some(ft) => match c_expr(c, fields[i].1, env, res) {
                Err(err) => Err(err),
                Ok((vt, _, r1)) => if fits(c, ft, fields[i].1, vt) {
                    c_inits(c, s, fields, i + 1, env, r1)
                } else {
                    Err(mismatch(ft, vt, fields[i].1.span))
                },
            },
        }
    } else {
        Ok(res)
    }
}

/// A conditional; both branches are checked, and the first gives the type.
#[verifier::opaque]
pub open spec fn c_if(c: Known, e: ExprV, env: Env, res: Res) -> Checked
    decreases e, 1int,
{
    match e.kind {
        ExprKindV::If { cond, then_branch, else_branch } => match c_expr(c, *cond, env, res) {
            Err(err) => Err(err),
            Ok((ct, env1, r1)) => if !accepts(named_type("Bool"@), ct) {
                Err(mismatch(named_type("Bool"@), ct, cond.span))
            } else {
                match c_stmts(c, then_branch.stmts, 0, TypeV::Unit, env1, r1) {
                    Err(err) => Err(err),
                    Ok((tt, _, r2)) => match else_branch {
                        None => Ok((TypeV::Unit, env1, r2)),
                        Some(b) => match c_stmts(c, b.stmts, 0, TypeV::Unit, env1, r2) {
                            Err(err) => Err(err),
                            Ok((et, _, r3)) => Ok((tt, env1, r3)),
                        },
                    },
                }
            },
        },
        _ => Ok((TypeV::Unit, env, res)),
    }
}

// ------------------------------------------------------------------ declarations

/// The parameters of a function, as types.
pub open spec fn param_types(params: Seq<ParamV>) -> Seq<TypeV> {
    Seq::new(params.len(), |k: int| params[k].ty)
}

/// The type of a parameter of a trait's method: the trait's own name stands for
/// the type that implements it.
pub open spec fn method_param_type(t: TraitDefV, ty: TypeV) -> TypeV {
    let alias = match t.self_alias {
        Some(a) => a,
        None => "Self"@,
    };
    match ty {
        TypeV::Path(p) => if p.segments.len() == 1 && p.segments[0].name == alias {
            named_type(t.name)
        } else {
            ty
        },
        _ => ty,
    }
}

pub open spec fn method_type(t: TraitDefV, f: FunctionV) -> TypeV {
    TypeV::Function(
        FunctionTypeV {
            params: Seq::new(f.params.len(), |k: int| method_param_type(t, f.params[k].ty)),
            ret: Box::new(f.return_type),
        },
    )
}

pub open spec fn function_type(f: FunctionV) -> TypeV {
    TypeV::Function(
        FunctionTypeV { params: param_types(f.params), ret: Box::new(f.return_type) },
    )
}

/// One more overload of a function.
pub open spec fn add_overload(c: Known, name: Seq<char>, t: TypeV) -> Known {
    let before = match lookup(c.functions, name) {
        Some(ts) => ts,
        None => Seq::empty(),
    };
    Known { functions: c.functions.insert(name, before.push(t)), ..c }
}

/// The methods of a trait from `i` on become functions.
pub open spec fn add_methods(c: Known, t: TraitDefV, i: int) -> Known
    decreases t.methods.len() - i,
{
    if 0 <= i < t.methods.len() {
        add_methods(add_overload(c, t.methods[i].name, method_type(t, t.methods[i])), t, i + 1)
    } else {
        c
    }
}

/// What is known after one more item.
pub open spec fn add_item(c: Known, item: ItemV) -> Known {
    match item {
        ItemV::Struct(s) => Known { types: c.types.insert(s.name, TypeInfoV::Struct(s)), ..c },
        ItemV::Enum(e) => Known { types: c.types.insert(e.name, TypeInfoV::Enum(e)), ..c },
        ItemV::TypeAlias(a) => Known { types: c.types.insert(a.name, TypeInfoV::Alias(a.ty)), ..c },
        ItemV::Trait(t) => add_methods(c, t, 0),
        ItemV::Function(f) => add_overload(c, f.name, function_type(f)),
        _ => c,
    }
}

/// What is known after the items from `i` on.
pub open spec fn add_items(c: Known, items: Seq<ItemV>, i: int) -> Known
    decreases items.len() - i,
{
    if 0 <= i < items.len() {
        add_items(add_item(c, items[i]), items, i + 1)
    } else {
        c
    }
}

/// The scope of the parameters from `i` on.
pub open spec fn params_env(params: Seq<ParamV>, i: int, env: Env) -> Env
    decreases params.len() - i,
{
    if 0 <= i < params.len() {
        params_env(params, i + 1, env.insert(params[i].name, params[i].ty))
    } else {
        env
    }
}

/// The resolutions after one more item.
pub open spec fn check_item(c: Known, item: ItemV, res: Res) -> Result<Res, CompileErrorV> {
    match item {
        ItemV::Function(f) => match c_stmts(
            c,
            f.body.stmts,
            0,
            TypeV::Unit,
            params_env(f.params, 0, Map::empty()),
            res,
        ) {
            Err(e) => Err(e),
            Ok((_, _, r)) => Ok(r),
        },
        ItemV::VarDecl(vd) => match vd.value {
            None => Ok(res),
            Some(v) => match c_expr(c, v, Map::empty(), res) {
                Err(e) => Err(e),
                Ok((vt, _, r)) => match vd.ty {
                    Some(dt) => if fits(c, dt, v, vt) {
                        Ok(r)
                    } else {
                        Err(mismatch(dt, vt, v.span))
                    },
                    None => Ok(r),
                },
            },
        },
        _ => Ok(res),
    }
}

/// The resolutions after the items from `i` on.
pub open spec fn check_items(c: Known, items: Seq<ItemV>, i: int, res: Res) -> Result<
    Res,
    CompileErrorV,
>
    decreases items.len() - i,
{
    if 0 <= i < items.len() {
        match check_item(c, items[i], res) {
            Err(e) => Err(e),
            Ok(r) => check_items(c, items, i + 1, r),
        }
    } else {
        Ok(res)
    }
}

/// What is known from the start.
pub open spec fn built_in() -> Known {
    let any = TypeV::Function(
        FunctionTypeV { params: Seq::empty(), ret: Box::new(TypeV::Unit) },
    );
    Known {
        types: Map::empty().insert("Int"@, TypeInfoV::Alias(named_type("int"@))).insert(
            "Float"@,
            TypeInfoV::Alias(named_type("double"@)),
        ).insert("Bool"@, TypeInfoV::Alias(named_type("bool"@))).insert(
            "String"@,
            TypeInfoV::Alias(named_type("std::string"@)),
        ).insert("Char"@, TypeInfoV::Alias(named_type("char"@))),
        functions: Map::empty().insert("print"@, seq![any]).insert("println"@, seq![any]).insert(
            "print_int"@,
            seq![any],
        ),
    }
}

// ------------------------------------------------------------------ arguments

/// The first argument from `j` on that is given by this name.
pub open spec fn named_arg(args: Seq<ExprV>, name: Seq<char>, j: int) -> Option<int>
    decreases args.len() - j,
{
    if 0 <= j < args.len() {
        match args[j].kind {
            ExprKindV::NamedArg { name: n, value } => if n == name {
                Some(j)
            } else {
                named_arg(args, name, j + 1)
            },
            _ => named_arg(args, name, j + 1),
        }
    } else {
        None
    }
}

/// The first argument from `j` on that is given by its place.
pub open spec fn next_positional(args: Seq<ExprV>, j: int) -> Option<int>
    decreases args.len() - j,
{
    if 0 <= j < args.len() {
        if args[j].kind is NamedArg {
            next_positional(args, j + 1)
        } else {
            Some(j)
        }
    } else {
        None
    }
}

/// The argument of each parameter from `k` on, behind those of `acc`: the one of
/// its name, or else the next one given by its place, of those from `next` on.
pub open spec fn slots_from(
    params: Seq<ParamV>,
    args: Seq<ExprV>,
    k: int,
    next: int,
    acc: Seq<int>,
) -> Option<Seq<int>>
    decreases params.len() - k,
{
    if 0 <= k < params.len() {
        match named_arg(args, params[k].name, 0) {
            Some(j) => if acc.contains(j) {
                None
            } else {
                slots_from(params, args, k + 1, next, acc.push(j))
            },
            None => match next_positional(args, next) {
                Some(j) => slots_from(params, args, k + 1, j + 1, acc.push(j)),
                None => None,
            },
        }
    } else {
        Some(acc)
    }
}

/// The argument of each parameter, if every argument finds its parameter.
pub open spec fn arg_slots(params: Seq<ParamV>, args: Seq<ExprV>) -> Option<Seq<int>> {
    if params.len() == args.len() {
        slots_from(params, args, 0, 0, Seq::empty())
    } else {
        None
    }
}

/// The numbers of a list of indices.
pub open spec fn indices(v: Seq<usize>) -> Seq<int> {
    Seq::new(v.len(), |k: int| v[k] as int)
}

fn find_named(args: &Vec<Expr>, name: &str) -> (r: Option<usize>)
    ensures
        match r {
            Some(j) => named_arg(exprs_v(args@), name@, 0) == Some(j as int) && j < args.len(),
            None => named_arg(exprs_v(args@), name@, 0) is None,
        },
{
    let mut j: usize = 0;
    while j < args.len()
        invariant
            j <= args.len(),
            named_arg(exprs_v(args@), name@, 0) == named_arg(exprs_v(args@), name@, j as int),
        decreases args.len() - j,
    {
        let ghost g = expr_v(args[j as int]);
        let ghost k = expr_kind_v(args[j as int].kind);
        match &args[j].kind {
            ExprKind::NamedArg { name: n, value } => {
                if str_eq(n, name) {
                    return Some(j);
                }
            },
            _ => {},
        }
        j = j + 1;
    }
    None
}

fn find_positional(args: &Vec<Expr>, from: usize) -> (r: Option<usize>)
    ensures
        match r {
            Some(j) => next_positional(exprs_v(args@), from as int) == Some(j as int) && from <= j
                < args.len(),
            None => next_positional(exprs_v(args@), from as int) is None,
        },
{
    let mut j: usize = from;
    while j < args.len()
        invariant
            from <= j,
            next_positional(exprs_v(args@), from as int) == next_positional(
                exprs_v(args@),
                j as int,
            ),
        decreases args.len() - j,
    {
        let ghost g = expr_v(args[j as int]);
        let ghost k = expr_kind_v(args[j as int].kind);
        if !matches!(args[j].kind, ExprKind::NamedArg { .. }) {
            return Some(j);
        }
        j = j + 1;
    }
    None
}

fn contains_index(v: &Vec<usize>, x: usize) -> (r: bool)
    ensures
        r == indices(v@).contains(x as int),
{
    let mut i: usize = 0;
    while i < v.len()
        invariant
            i <= v.len(),
            forall|k: int| 0 <= k < i ==> indices(v@)[k] != x,
        decreases v.len() - i,
    {
        if v[i] == x {
            assert(indices(v@)[i as int] == x);
            return true;
        }
        i = i + 1;
    }
    false
}

/// The argument of each parameter: the one given by its name, or else the next one
/// given by its place. `None` where a name is unknown or given twice, or where there
/// are more or fewer arguments than parameters.
pub fn assign_arg_slots(params: &Vec<Param>, args: &Vec<Expr>) -> (r: Option<Vec<usize>>)
    ensures
        match r {
            Some(v) => arg_slots(params_v(params@), exprs_v(args@)) == Some(indices(v@)) && v.len()
                == params.len() && forall|k: int| 0 <= k < v.len() ==> (#[trigger] v[k])
                < args.len(),
            None => arg_slots(params_v(params@), exprs_v(args@)) is None,
        },
{
    if params.len() != args.len() {
        return None;
    }
    let mut slots: Vec<usize> = Vec::new();
    let mut next: usize = 0;
    let mut k: usize = 0;
    assert(indices(slots@) =~= Seq::empty());
    while k < params.len()
        invariant
            k <= params.len(),
            params.len() == args.len(),
            next <= args.len(),
            slots.len() == k,
            forall|m: int| 0 <= m < slots.len() ==> (#[trigger] slots[m]) < args.len(),
            arg_slots(params_v(params@), exprs_v(args@)) == slots_from(
                params_v(params@),
                exprs_v(args@),
                k as int,
                next as int,
                indices(slots@),
            ),
        decreases params.len() - k,
    {
        let ghost g = param_v(params[k as int]);
        let ghost before = slots@;
        match find_named(args, &params[k].name) {
            Some(j) => {
                if contains_index(&slots, j) {
                    return None;
                }
                slots.push(j);
                assert(indices(slots@) =~= indices(before).push(j as int));
            },
            None => match find_positional(args, next) {
                Some(j) => {
                    slots.push(j);
                    assert(indices(slots@) =~= indices(before).push(j as int));
                    next = j + 1;
                },
                None => {
                    return None;
                },
            },
        }
        k = k + 1;
    }
    Some(slots)
}

// ------------------------------------------------------------------ the checker

/// The types and functions of the modules that were registered.
pub struct TypeChecker {
    types: StrMap<TypeInfo>,
    functions: StrMap<TypeList>,
}

/// Whether two types have the same names.
pub fn types_match(a: &Type, b: &Type) -> (r: bool)
    ensures
        r == same_type(a@, b@),
    decreases a,
{
    match (a, b) {
        (Type::Path(p), Type::Path(q)) => {
            let ghost g = (path_v(*p), path_v(*q));
            str_eq(&p.key(), &q.key())
        },
        (Type::GcRef(x), Type::GcRef(y)) => types_match(x, y),
        _ => false,
    }
}

fn path_has_void(p: &Path) -> (r: bool)
    ensures
        r == has_void(p@.segments),
{
    let mut k: usize = 0;
    while k < p.segments.len()
        invariant
            k <= p.segments.len(),
            forall|j: int| 0 <= j < k ==> (#[trigger] p@.segments[j]).name != "void"@,
        decreases p.segments.len() - k,
    {
        let ghost g = path_segment_v(p.segments[k as int]);
        if str_eq(&p.segments[k].name, "void") {
            assert(p@.segments[k as int].name == "void"@);
            return true;
        }
        k = k + 1;
    }
    false
}

/// Whether a value of type `actual` may stand where `expected` is asked for.
fn type_accepts(expected: &Type, actual: &Type) -> (r: bool)
    ensures
        r == accepts(expected@, actual@),
{
    match (expected, actual) {
        (Type::Unit, Type::Unit) => true,
        (Type::Never, _) => true,
        (_, Type::Never) => true,
        (Type::Path(p), Type::Path(q)) => types_match(expected, actual),
        (Type::Path(p), Type::Unit) => path_has_void(p),
        (Type::Unit, Type::Path(q)) => path_has_void(q),
        _ => false,
    }
}

/// The error where a value of type `actual` does not fit.
fn unify(expected: &Type, actual: &Type, span: Span) -> (r: Result<(), CompileError>)
    ensures
        match r {
            Ok(_) => accepts(expected@, actual@),
            Err(e) => !accepts(expected@, actual@) && e@ == mismatch(expected@, actual@, span),
        },
{
    if type_accepts(expected, actual) {
        Ok(())
    } else {
        Err(
            CompileError::type_err(
                &cat5(
                    "Type mismatch: expected '",
                    &expected.display(),
                    "', got '",
                    &actual.display(),
                    "'",
                ),
                span,
            ),
        )
    }
}

fn signature_takes(sig: &FunctionType, args: &Vec<Type>) -> (r: bool)
    ensures
        r == takes(sig@, types_v(args@)),
{
    let ghost g = function_type_v(*sig);
    if sig.params.len() == 0 {
        return true;
    }
    if sig.params.len() != args.len() {
        return false;
    }
    let mut k: usize = 0;
    while k < args.len()
        invariant
            k <= args.len(),
            sig.params.len() == args.len(),
            sig@.params == types_v(sig.params@),
            forall|j: int|
                0 <= j < k ==> same_type(#[trigger] sig@.params[j], types_v(args@)[j]),
        decreases args.len() - k,
    {
        if !types_match(&sig.params[k], &args[k]) {
            assert(!same_type(sig@.params[k as int], types_v(args@)[k as int]));
            return false;
        }
        k = k + 1;
    }
    true
}

fn chosen_overload(cands: &Vec<Type>, args: &Vec<Type>, name: &str, span: Span) -> (r: Result<
    Type,
    CompileError,
>)
    ensures
        res_v(r) == c_overload(types_v(cands@), types_v(args@), name@, span),
{
    let mut best: Option<usize> = None;
    let mut i: usize = 0;
    while i < cands.len()
        invariant
            i <= cands.len(),
            best matches Some(k) ==> k < i,
            choose_overload(types_v(cands@), types_v(args@), 0, None) == choose_overload(
                types_v(cands@),
                types_v(args@),
                i as int,
                match best {
                    None => None,
                    Some(k) => Some(k as int),
                },
            ),
        decreases cands.len() - i,
    {
        let ghost g = type_v(cands[i as int]);
        let fits: bool = match &cands[i] {
            Type::Function(sig) => signature_takes(sig, args),
            _ => false,
        };
        if fits {
            match best {
                None => {
                    best = Some(i);
                },
                Some(_) => {
                    return Err(CompileError::type_err("Ambiguous call", span));
                },
            }
        }
        i = i + 1;
    }
    match best {
        Some(k) => {
            let ghost g = type_v(cands[k as int]);
            match &cands[k] {
                Type::Function(sig) => {
                    let ghost h = function_type_v(*sig);
                    return Ok(sig.ret.dup());
                },
                _ => {},
            }
        },
        None => {},
    }
    Err(CompileError::type_err(&cat3("No matching overload for '", name, "'"), span))
}

fn find_method(cands: &Vec<Type>) -> (r: Option<Type>)
    ensures
        opt_type_v(r) == first_method(types_v(cands@), 0),
{
    let mut i: usize = 0;
    while i < cands.len()
        invariant
            i <= cands.len(),
            first_method(types_v(cands@), 0) == first_method(types_v(cands@), i as int),
        decreases cands.len() - i,
    {
        let ghost g = type_v(cands[i as int]);
        match &cands[i] {
            Type::Function(sig) => {
                let ghost h = function_type_v(*sig);
                if sig.params.len() >= 1 {
                    return Some(sig.ret.dup());
                }
            },
            _ => {},
        }
        i = i + 1;
    }
    None
}

/// The type of the field of this name.
pub fn find_field(fields: &Vec<StructField>, name: &str) -> (r: Option<Type>)
    ensures
        opt_type_v(r) == field_of(struct_fields_v(fields@), name@, 0),
{
    let mut i: usize = 0;
    while i < fields.len()
        invariant
            i <= fields.len(),
            field_of(struct_fields_v(fields@), name@, 0) == field_of(
                struct_fields_v(fields@),
                name@,
                i as int,
            ),
        decreases fields.len() - i,
    {
        let ghost g = struct_field_v(fields[i as int]);
        if str_eq(&fields[i].name, name) {
            return Some(fields[i].ty.dup());
        }
        i = i + 1;
    }
    None
}

fn operation_type(
    op: BinOp,
    lt: &Type,
    ls: Span,
    rt: &Type,
    rs: Span,
    span: Span,
) -> (r: Result<Type, CompileError>)
    ensures
        res_v(r) == c_operation(op, lt@, ls, rt@, rs, span),
{
    match op {
        BinOp::Add | BinOp::Sub | BinOp::Mul | BinOp::Div | BinOp::Mod => {
            if matches!(op, BinOp::Add) && str_eq(&lt.display(), "String") && str_eq(
                &rt.display(),
                "String",
            ) {
                return Ok(Type::path("String"));
            }
            let number = Type::path("Int");
            unify(&number, lt, ls)?;
            unify(&number, rt, rs)?;
            Ok(number)
        },
        BinOp::Eq | BinOp::NotEq | BinOp::Lt | BinOp::Gt | BinOp::LtEq | BinOp::GtEq => {
            unify(lt, rt, span)?;
            Ok(Type::path("Bool"))
        },
        BinOp::And | BinOp::Or => {
            let boolean = Type::path("Bool");
            unify(&boolean, lt, ls)?;
            unify(&boolean, rt, rs)?;
            Ok(boolean)
        },
    }
}

impl TypeChecker {
    /// What is known.
    pub closed spec fn known(&self) -> Known {
        Known { types: self.types@, functions: self.functions@ }
    }

    pub fn new() -> (r: Self)
        ensures
            r.known() == built_in(),
    {
        let mut types: StrMap<TypeInfo> = StrMap::new();
        types.insert("Int", TypeInfo::Alias(Type::path("int")));
        types.insert("Float", TypeInfo::Alias(Type::path("double")));
        types.insert("Bool", TypeInfo::Alias(Type::path("bool")));
        types.insert("String", TypeInfo::Alias(Type::path("std::string")));
        types.insert("Char", TypeInfo::Alias(Type::path("char")));
        let mut functions: StrMap<TypeList> = StrMap::new();
        functions.insert("print", any_function());
        functions.insert("println", any_function());
        functions.insert("print_int", any_function());
        TypeChecker { types, functions }
    }

    fn add_overload(&mut self, name: &str, t: Type)
        ensures
            final(self).known() == add_overload(old(self).known(), name@, t@),
    {
        let mut types: Vec<Type> = match self.functions.get(name) {
            Some(list) => crate::model::dup_types(&list.types),
            None => Vec::new(),
        };
        types.push(t);
        self.functions.insert(name, TypeList { types });
    }

    /// Makes the types, functions and trait methods of a module known.
    pub fn register_types(&mut self, module: &Module)
        ensures
            final(self).known() == add_items(old(self).known(), module@.items, 0),
    {
        let mut i: usize = 0;
        while i < module.items.len()
            invariant
                i <= module.items.len(),
                add_items(old(self).known(), module@.items, 0) == add_items(
                    self.known(),
                    module@.items,
                    i as int,
                ),
            decreases module.items.len() - i,
        {
            let ghost g = crate::model::item_v(module.items[i as int]);
            self.register_item(&module.items[i]);
            i = i + 1;
        }
    }

    fn register_item(&mut self, item: &Item)
        ensures
            final(self).known() == add_item(old(self).known(), item@),
    {
        match item {
            Item::Struct(s) => {
                let ghost g = s@;
                self.types.insert(&s.name, TypeInfo::Struct(s.dup()));
            },
            Item::Enum(e) => {
                let ghost g = e@;
                self.types.insert(&e.name, TypeInfo::Enum(e.dup()));
            },
            Item::TypeAlias(a) => {
                let ghost g = a@;
                self.types.insert(&a.name, TypeInfo::Alias(a.ty.dup()));
            },
            Item::Trait(t) => {
                self.register_trait(t);
            },
            Item::Function(f) => {
                let ghost g = f@;
                let mut params: Vec<Type> = Vec::new();
                let mut k: usize = 0;
                while k < f.params.len()
                    invariant
                        k <= f.params.len(),
                        params.len() == k,
                        forall|j: int|
                            0 <= j < k ==> type_v(#[trigger] params[j]) == params_v(
                                f.params@,
                            )[j].ty,
                    decreases f.params.len() - k,
                {
                    let ghost h = param_v(f.params[k as int]);
                    params.push(f.params[k].ty.dup());
                    k = k + 1;
                }
                assert(types_v(params@) =~= param_types(params_v(f.params@)));
                let ft = FunctionType { params, ret: Box::new(f.return_type.dup()) };
                let ghost fv = function_type_v(ft);
                self.add_overload(&f.name, Type::Function(ft));
            },
            _ => {},
        }
    }

    fn register_trait(&mut self, t: &TraitDef)
        ensures
            final(self).known() == add_methods(old(self).known(), t@, 0),
    {
        let ghost tv = t@;
        let mut i: usize = 0;
        while i < t.methods.len()
            invariant
                i <= t.methods.len(),
                add_methods(old(self).known(), t@, 0) == add_methods(self.known(), t@, i as int),
            decreases t.methods.len() - i,
        {
            let ghost g = function_v(t.methods[i as int]);
            let m = &t.methods[i];
            let ft = method_signature(t, m);
            self.add_overload(&m.name, ft);
            i = i + 1;
        }
    }

    /// Checks the functions and variables of a module: what its dot accesses stand for,
    /// or the first error.
    pub fn check_module(&self, module: &Module) -> (r: Result<ResolutionMap, CompileError>)
        ensures
            match r {
                Ok(m) => check_items(self.known(), module@.items, 0, Map::empty()) == Ok::<
                    Res,
                    CompileErrorV,
                >(m@),
                Err(e) => check_items(self.known(), module@.items, 0, Map::empty()) == Err::<
                    Res,
                    CompileErrorV,
                >(e@),
            },
    {
        let mut res: ResolutionMap = ResolutionMap::new();
        let mut i: usize = 0;
        while i < module.items.len()
            invariant
                i <= module.items.len(),
                check_items(self.known(), module@.items, 0, Map::empty()) == check_items(
                    self.known(),
                    module@.items,
                    i as int,
                    res@,
                ),
            decreases module.items.len() - i,
        {
            let ghost g = crate::model::item_v(module.items[i as int]);
            match self.check_one(&module.items[i], &mut res) {
                Ok(_) => {},
                Err(e) => {
                    return Err(e);
                },
            }
            i = i + 1;
        }
        Ok(res)
    }

    fn check_one(&self, item: &Item, res: &mut ResolutionMap) -> (r: Result<(), CompileError>)
        ensures
            match r {
                Ok(_) => check_item(self.known(), item@, old(res)@) == Ok::<Res, CompileErrorV>(
                    final(res)@,
                ),
                Err(e) => check_item(self.known(), item@, old(res)@) == Err::<Res, CompileErrorV>(
                    e@,
                ),
            },
    {
        match item {
            Item::Function(f) => self.check_function(f, res),
            Item::VarDecl(vd) => {
                let ghost g = vd@;
                match &vd.value {
                    None => Ok(()),
                    Some(v) => {
                        let mut env: StrMap<Type> = StrMap::new();
                        let ghost gv = expr_v(*v);
                        let vt = self.check_expr_with_env(v, &mut env, res)?;
                        match &vd.ty {
                            Some(dt) => self.require_fit(dt, v, &vt, v.span),
                            None => Ok(()),
                        }
                    },
                }
            },
            _ => Ok(()),
        }
    }

    fn check_function(&self, f: &Function, res: &mut ResolutionMap) -> (r: Result<
        (),
        CompileError,
    >)
        ensures
            match r {
                Ok(_) => check_item(self.known(), ItemV::Function(f@), old(res)@) == Ok::<
                    Res,
                    CompileErrorV,
                >(final(res)@),
                Err(e) => check_item(self.known(), ItemV::Function(f@), old(res)@) == Err::<
                    Res,
                    CompileErrorV,
                >(e@),
            },
    {
        let ghost g = f@;
        let mut env: StrMap<Type> = StrMap::new();
        let mut k: usize = 0;
        while k < f.params.len()
            invariant
                k <= f.params.len(),
                params_env(params_v(f.params@), 0, Map::empty()) == params_env(
                    params_v(f.params@),
                    k as int,
                    env@,
                ),
            decreases f.params.len() - k,
        {
            let ghost h = param_v(f.params[k as int]);
            env.insert(&f.params[k].name, f.params[k].ty.dup());
            k = k + 1;
        }
        let ghost b = block_v(f.body);
        let t = self.check_block(&f.body, &env, res)?;
        Ok(())
    }

    fn check_block(&self, block: &Block, env: &StrMap<Type>, res: &mut ResolutionMap) -> (r: Result<
        Type,
        CompileError,
    >)
        ensures
            match r {
                Ok(t) => c_stmts(
                    self.known(),
                    block@.stmts,
                    0,
                    TypeV::Unit,
                    env@,
                    old(res)@,
                ) matches Ok((tv, _, rv)) && tv == t@ && rv == final(res)@,
                Err(e) => c_stmts(
                    self.known(),
                    block@.stmts,
                    0,
                    TypeV::Unit,
                    env@,
                    old(res)@,
                ) == Err::<(TypeV, Env, Res), CompileErrorV>(e@),
            },
        decreases block, 0int,
    {
        let ghost g = block_v(*block);
        let mut local = env.copy();
        self.check_stmts(&block.stmts, &mut local, res)
    }

    fn check_stmts(
        &self,
        stmts: &Vec<Expr>,
        env: &mut StrMap<Type>,
        res: &mut ResolutionMap,
    ) -> (r: Result<Type, CompileError>)
        ensures
            checked_as(
                r,
                final(env)@,
                final(res)@,
                c_stmts(self.known(), exprs_v(stmts@), 0, TypeV::Unit, old(env)@, old(res)@),
            ),
        decreases stmts, 0int,
    {
        let mut last = Type::Unit;
        let mut i: usize = 0;
        while i < stmts.len()
            invariant
                i <= stmts.len(),
                c_stmts(self.known(), exprs_v(stmts@), 0, TypeV::Unit, old(env)@, old(res)@)
                    == c_stmts(
                    self.known(),
                    exprs_v(stmts@),
                    i as int,
                    last@,
                    env@,
                    res@,
                ),
            decreases stmts.len() - i,
        {
            proof {
                un_c_stmts(self.known(), exprs_v(stmts@), i as int, last@, env@, res@);
            }
            match self.check_expr_with_env(&stmts[i], env, res) {
                Ok(t) => {
                    last = t;
                },
                Err(e) => {
                    return Err(e);
                },
            }
            i = i + 1;
        }
        proof {
            un_c_stmts(self.known(), exprs_v(stmts@), i as int, last@, env@, res@);
        }
        Ok(last)
    }

    fn check_args(
        &self,
        args: &Vec<Expr>,
        env: &mut StrMap<Type>,
        res: &mut ResolutionMap,
    ) -> (r: Result<Vec<Type>, CompileError>)
        ensures
            match r {
                Ok(ts) => c_args(
                    self.known(),
                    exprs_v(args@),
                    0,
                    Seq::empty(),
                    old(env)@,
                    old(res)@,
                ) == Ok::<(Seq<TypeV>, Env, Res), CompileErrorV>(
                    (types_v(ts@), final(env)@, final(res)@),
                ),
                Err(e) => c_args(
                    self.known(),
                    exprs_v(args@),
                    0,
                    Seq::empty(),
                    old(env)@,
                    old(res)@,
                ) == Err::<(Seq<TypeV>, Env, Res), CompileErrorV>(e@),
            },
        decreases args, 0int,
    {
        let mut types: Vec<Type> = Vec::new();
        let mut i: usize = 0;
        while i < args.len()
            invariant
                i <= args.len(),
                c_args(self.known(), exprs_v(args@), 0, Seq::empty(), old(env)@, old(res)@)
                    == c_args(
                    self.known(),
                    exprs_v(args@),
                    i as int,
                    types_v(types@),
                    env@,
                    res@,
                ),
            decreases args.len() - i,
        {
            proof {
                un_c_args(self.known(), exprs_v(args@), i as int, types_v(types@), env@, res@);
            }
            match self.check_expr_with_env(&args[i], env, res) {
                Ok(t) => {
                    types.push(t);
                },
                Err(e) => {
                    return Err(e);
                },
            }
            i = i + 1;
        }
        proof {
            un_c_args(self.known(), exprs_v(args@), i as int, types_v(types@), env@, res@);
        }
        Ok(types)
    }

    fn check_inits(
        &self,
        s: &Struct,
        fields: &Vec<(String, Expr)>,
        env: &StrMap<Type>,
        res: &mut ResolutionMap,
    ) -> (r: Result<(), CompileError>)
        ensures
            match r {
                Ok(_) => c_inits(self.known(), s@, field_inits_v(fields@), 0, env@, old(res)@)
                    == Ok::<Res, CompileErrorV>(final(res)@),
                Err(e) => c_inits(self.known(), s@, field_inits_v(fields@), 0, env@, old(res)@)
                    == Err::<Res, CompileErrorV>(e@),
            },
        decreases fields, 0int,
    {
        let ghost g = s@;
        let mut i: usize = 0;
        while i < fields.len()
            invariant
                i <= fields.len(),
                s@.fields == struct_fields_v(s.fields@),
                c_inits(self.known(), s@, field_inits_v(fields@), 0, env@, old(res)@) == c_inits(
                    self.known(),
                    s@,
                    field_inits_v(fields@),
                    i as int,
                    env@,
                    res@,
                ),
            decreases fields.len() - i,
        {
            proof {
                un_c_inits(self.known(), s@, field_inits_v(fields@), i as int, env@, res@);
            }
            let ghost h = field_inits_v(fields@)[i as int];
            match find_field(&s.fields, &fields[i].0) {
                None => {},
                Some(ft) => {
                    let value = &fields[i].1;
                    let ghost hv = expr_v(*value);
                    let mut copy = env.copy();
                    match self.check_expr_with_env(value, &mut copy, res) {
                        Ok(vt) => match self.require_fit(&ft, value, &vt, value.span) {
                            Ok(_) => {},
                            Err(e) => {
                                return Err(e);
                            },
                        },
                        Err(e) => {
                            return Err(e);
                        },
                    }
                },
            }
            i = i + 1;
        }
        proof {
            un_c_inits(self.known(), s@, field_inits_v(fields@), i as int, env@, res@);
        }
        Ok(())
    }

    fn ident_type(&self, name: &str, span: Span, env: &StrMap<Type>) -> (r: Result<
        Type,
        CompileError,
    >)
        ensures
            res_v(r) == c_ident(self.known(), name@, span, env@),
    {
        match env.get(name) {
            Some(t) => {
                return Ok(t.dup());
            },
            None => {},
        }
        match self.functions.get(name) {
            Some(list) => {
                if list.types.len() > 0 {
                    return Ok(list.types[0].dup());
                }
            },
            None => {},
        }
        Err(CompileError::type_err(&cat3("Undefined: '", name, "'"), span))
    }

    /// The struct of this name.
    fn find_struct(&self, name: &str) -> (r: Option<&Struct>)
        ensures
            match r {
                Some(s) => struct_named(self.known(), name@) == Some(s@),
                None => struct_named(self.known(), name@) is None,
            },
    {
        match self.types.get(name) {
            Some(TypeInfo::Struct(s)) => Some(s),
            _ => None,
        }
    }

    /// Tells whether the expression is a case of the enum that the type names.
    fn is_case(&self, t: &Type, e: &Expr) -> (r: bool)
        ensures
            r == is_case_of(self.known(), t@, e@),
    {
        let ghost tv = type_v(*t);
        let ghost ev = expr_v(*e);
        let ghost kv = expr_kind_v(e.kind);
        match (t, &e.kind) {
            (Type::Path(p), ExprKind::EnumCtor { path, case, arg }) => match self.types.get(
                &p.last_name(),
            ) {
                Some(TypeInfo::Enum(d)) => {
                    let ghost dv = enum_v(*d);
                    let n: usize = path.len();
                    contains_case(&d.cases, case) && (n == 0 || str_eq(&path[n - 1], &d.name))
                },
                _ => false,
            },
            _ => false,
        }
    }

    /// The error where an expression does not fit.
    fn require_fit(&self, expected: &Type, e: &Expr, actual: &Type, span: Span) -> (r: Result<
        (),
        CompileError,
    >)
        ensures
            match r {
                Ok(_) => fits(self.known(), expected@, e@, actual@),
                Err(x) => !fits(self.known(), expected@, e@, actual@) && x@ == mismatch(
                    expected@,
                    actual@,
                    span,
                ),
            },
    {
        if self.is_case(expected, e) {
            Ok(())
        } else {
            unify(expected, actual, span)
        }
    }

    fn type_of_field(&self, obj: &Type, field: &str) -> (r: Option<Type>)
        ensures
            opt_type_v(r) == field_type(self.known(), obj@, field@),
    {
        match obj {
            Type::Path(p) => match self.find_struct(&p.last_name()) {
                Some(s) => {
                    let ghost g = s@;
                    find_field(&s.fields, field)
                },
                None => None,
            },
            _ => None,
        }
    }

    fn dot_type(&self, obj: &Type, field: &str, span: Span) -> (r: Result<
        (Type, ResolvedAs),
        CompileError,
    >)
        ensures
            match r {
                Ok((t, how)) => c_dot(self.known(), obj@, field@, span) == Ok::<
                    (TypeV, ResolvedAs),
                    CompileErrorV,
                >((t@, how)),
                Err(e) => c_dot(self.known(), obj@, field@, span) == Err::<
                    (TypeV, ResolvedAs),
                    CompileErrorV,
                >(e@),
            },
    {
        match self.type_of_field(obj, field) {
            Some(t) => {
                return Ok((t, ResolvedAs::Field));
            },
            None => {},
        }
        match self.functions.get(field) {
            Some(list) => match find_method(&list.types) {
                Some(t) => {
                    return Ok((t, ResolvedAs::Call));
                },
                None => {},
            },
            None => {},
        }
        Err(
            CompileError::type_err(
                &cat5(
                    "No field '",
                    field,
                    "' on '",
                    &obj.display(),
                    "' and no matching function",
                ),
                span,
            ),
        )
    }

    fn struct_of_literal(&self, path: &Vec<String>) -> (r: Option<&Struct>)
        ensures
            match r {
                Some(s) => literal_struct(self.known(), strs_v(path@)) == Some(s@),
                None => literal_struct(self.known(), strs_v(path@)) is None,
            },
    {
        let whole = join(path, "::");
        if self.types.contains(&whole) {
            return self.find_struct(&whole);
        }
        proof {
            reveal_strlit("");
            assert(""@ =~= Seq::empty());
        }
        if path.len() > 0 {
            self.find_struct(&path[path.len() - 1])
        } else {
            self.find_struct("")
        }
    }

    fn check_call(
        &self,
        callee: Option<String>,
        args: &Vec<Expr>,
        span: Span,
        env: &mut StrMap<Type>,
        res: &mut ResolutionMap,
    ) -> (r: Result<Type, CompileError>)
        ensures
            checked_as(
                r,
                final(env)@,
                final(res)@,
                c_call(
                    self.known(),
                    opt_str_v(callee),
                    exprs_v(args@),
                    span,
                    old(env)@,
                    old(res)@,
                ),
            ),
        decreases args, 1int,
    {
        proof {
            un_c_call(
                self.known(),
                opt_str_v(callee),
                exprs_v(args@),
                span,
                old(env)@,
                old(res)@,
            );
        }
        match callee {
            None => Ok(Type::Unit),
            Some(name) => {
                if str_eq(&name, "std::to_string") {
                    let ts = self.check_args(args, env, res)?;
                    return Ok(Type::path("String"));
                }
                match self.functions.get(&name) {
                    None => Ok(Type::Unit),
                    Some(list) => {
                        let ts = self.check_args(args, env, res)?;
                        chosen_overload(&list.types, &ts, &name, span)
                    },
                }
            },
        }
    }

    fn check_if(&self, expr: &Expr, env: &mut StrMap<Type>, res: &mut ResolutionMap) -> (r: Result<
        Type,
        CompileError,
    >)
        ensures
            checked_as(
                r,
                final(env)@,
                final(res)@,
                c_if(self.known(), expr@, old(env)@, old(res)@),
            ),
        decreases expr, 1int,
    {
        proof {
            un_c_if(self.known(), expr@, old(env)@, old(res)@);
        }
        let ghost g = expr_v(*expr);
        let ghost k = expr_kind_v(expr.kind);
        match &expr.kind {
            ExprKind::If { cond, then_branch, else_branch } => {
                let ghost cv = expr_v(**cond);
                let ct = self.check_expr_with_env(cond, env, res)?;
                unify(&Type::path("Bool"), &ct, cond.span)?;
                let tt = self.check_block(then_branch, env, res)?;
                match else_branch {
                    None => Ok(Type::Unit),
                    Some(b) => {
                        let et = self.check_block(b, env, res)?;
                        Ok(tt)
                    },
                }
            },
            _ => Ok(Type::Unit),
        }
    }

    fn check_expr_with_env(
        &self,
        expr: &Expr,
        env: &mut StrMap<Type>,
        res: &mut ResolutionMap,
    ) -> (r: Result<Type, CompileError>)
        ensures
            checked_as(
                r,
                final(env)@,
                final(res)@,
                c_expr(self.known(), expr@, old(env)@, old(res)@),
            ),
        decreases expr, 2int,
    {
        proof {
            un_c_expr(self.known(), expr@, old(env)@, old(res)@);
        }
        let ghost g = expr_v(*expr);
        let ghost k = expr_kind_v(expr.kind);
        match &expr.kind {
            ExprKind::IntLiteral(_) => Ok(Type::path("Int")),
            ExprKind::FloatLiteral(_) => Ok(Type::path("Float")),
            ExprKind::StringLiteral(_) => Ok(Type::path("String")),
            ExprKind::BoolLiteral(_) => Ok(Type::path("Bool")),
            ExprKind::NilLiteral => Ok(Type::Never),
            ExprKind::Ident(name) => self.ident_type(name, expr.span, env),
            ExprKind::Block(b) => self.check_block(b, env, res),
            ExprKind::Let { name, ty, value, is_mut } => {
                let ghost vv = expr_v(**value);
                let vt = self.check_expr_with_env(value, env, res)?;
                match ty {
                    Some(dt) => {
                        self.require_fit(dt, value, &vt, value.span)?;
                        env.insert(name, dt.dup());
                    },
                    None => {
                        env.insert(name, vt);
                    },
                }
                Ok(Type::Unit)
            },
            ExprKind::Return(Some(x)) => self.check_expr_with_env(x, env, res),
            ExprKind::Return(None) => Ok(Type::Unit),
            ExprKind::Binary { op, left, right } => {
                let ghost lv = expr_v(**left);
                let ghost rv = expr_v(**right);
                let lt = self.check_expr_with_env(left, env, res)?;
                let rt = self.check_expr_with_env(right, env, res)?;
                operation_type(*op, &lt, left.span, &rt, right.span, expr.span)
            },
            ExprKind::Call { func, args } => {
                let ghost fv = expr_v(**func);
                let ghost fk = expr_kind_v(func.kind);
                let callee: Option<String> = match &func.kind {
                    ExprKind::Ident(name) => Some(name.clone()),
                    ExprKind::DotAccess { object, field } => Some(field.clone()),
                    _ => None,
                };
                self.check_call(callee, args, expr.span, env, res)
            },
            ExprKind::DotAccess { object, field } => {
                let ot = self.check_expr_with_env(object, env, res)?;
                let (t, how) = self.dot_type(&ot, field, expr.span)?;
                res.insert(expr.span.start, how);
                Ok(t)
            },
            ExprKind::Field { object, field } => {
                let ot = self.check_expr_with_env(object, env, res)?;
                match self.type_of_field(&ot, field) {
                    Some(t) => Ok(t),
                    None => Ok(Type::Unit),
                }
            },
            ExprKind::StructLit { path, fields } => match self.struct_of_literal(path) {
                None => Ok(Type::Unit),
                Some(s) => {
                    self.check_inits(s, fields, env, res)?;
                    let p = Path::of_names(path);
                    Ok(Type::Path(p))
                },
            },
            ExprKind::If { .. } => self.check_if(expr, env, res),
            ExprKind::While { cond, body } => {
                let ghost cv = expr_v(**cond);
                let t = self.check_expr_with_env(cond, env, res)?;
                unify(&Type::path("Bool"), &t, cond.span)?;
                Ok(Type::Unit)
            },
            ExprKind::For { var, iter, body } => {
                let t = self.check_expr_with_env(iter, env, res)?;
                Ok(Type::Unit)
            },
            ExprKind::Assign { target, value } => {
                let tt = self.check_expr_with_env(target, env, res)?;
                let vt = self.check_expr_with_env(value, env, res)?;
                self.require_fit(&tt, value, &vt, expr.span)?;
                Ok(Type::Unit)
            },
            _ => Ok(Type::Unit),
        }
    }
}

/// Whether a result with the scope and resolutions after it is the one stated.
pub open spec fn checked_as(r: Result<Type, CompileError>, env: Env, res: Res, c: Checked) -> bool {
    match r {
        Ok(t) => c == Ok::<(TypeV, Env, Res), CompileErrorV>((t@, env, res)),
        Err(e) => c == Err::<(TypeV, Env, Res), CompileErrorV>(e@),
    }
}

fn any_function() -> (r: TypeList)
    ensures
        r@ == seq![TypeV::Function(
            FunctionTypeV { params: Seq::empty(), ret: Box::new(TypeV::Unit) },
        )],
{
    let ft = FunctionType { params: Vec::new(), ret: Box::new(Type::Unit) };
    let ghost g = function_type_v(ft);
    let t = Type::Function(ft);
    let ghost tv = type_v(t);
    let mut types: Vec<Type> = Vec::new();
    types.push(t);
    assert(types_v(types@) =~= seq![tv]);
    TypeList { types }
}

fn method_signature(t: &TraitDef, m: &Function) -> (r: Type)
    ensures
        r@ == method_type(t@, m@),
{
    let ghost tv = t@;
    let ghost mv = m@;
    let mut params: Vec<Type> = Vec::new();
    let mut k: usize = 0;
    while k < m.params.len()
        invariant
            k <= m.params.len(),
            params.len() == k,
            forall|j: int|
                0 <= j < k ==> type_v(#[trigger] params[j]) == method_param_type(
                    t@,
                    params_v(m.params@)[j].ty,
                ),
        decreases m.params.len() - k,
    {
        let ghost h = param_v(m.params[k as int]);
        params.push(self_param_type(t, &m.params[k].ty));
        k = k + 1;
    }
    assert(types_v(params@) =~= Seq::new(
        m@.params.len(),
        |k: int| method_param_type(t@, m@.params[k].ty),
    ));
    let ft = FunctionType { params, ret: Box::new(m.return_type.dup()) };
    let ghost fv = function_type_v(ft);
    Type::Function(ft)
}

fn self_param_type(t: &TraitDef, ty: &Type) -> (r: Type)
    ensures
        r@ == method_param_type(t@, ty@),
{
    let alias: String = match &t.self_alias {
        Some(a) => a.clone(),
        None => "Self".to_owned(),
    };
    match ty {
        Type::Path(p) => {
            let ghost g = path_v(*p);
            if p.segments.len() == 1 {
                let ghost h = path_segment_v(p.segments[0]);
                if str_eq(&p.segments[0].name, &alias) {
                    return Type::path(&t.name);
                }
            }
        },
        _ => {},
    }
    ty.dup()
}

} // verus!
