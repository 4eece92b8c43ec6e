//! Interpretation as a function: from an expression and a scope to a value.
use vstd::prelude::*;

verus! {

use crate::ast::{
    BinOp, Enum, Function, Struct, TypeAlias, UnaryOp, VarDecl, binary_expr, block_expr, call_expr,
    ident_expr, named_type, type_text,
};
use crate::debug::{debug_bool, debug_expr_kind, debug_pattern_kind};
use crate::error::{CompileErrorV, macro_error};
use crate::host::{FileV, FloatOp, HostV, StopV, file_at, float_holds, float_result, joined_path};
use crate::maps::lookup;
use crate::model::{
    BlockV, EnumV, ExprKindV, ExprV, FunctionV, ImplBlockV, ItemV, LiteralPatV, MatchArmV, ParamV,
    PatternKindV, PatternV, StructFieldV, StructV, TypeAliasV, TypeV, VarDeclV,
};
use crate::source::parsed;
use crate::text::{has_text, int_text, join_v, nat_text, trimmed};
use crate::token::{Span, zero_span};
use crate::value::{ValueV, debug_value, get_field, set_field};

/// What the interpreter knows while it runs.
#[verifier::ext_equal]
pub struct Ctx {
    /// The directories in which files are looked for, in order.
    pub dirs: Seq<Seq<char>>,
    /// The structs, and a struct without fields for each trait.
    pub structs: Map<Seq<char>, StructV>,
    /// The functions with a body: the overloads of each name.
    pub functions: Map<Seq<char>, Seq<FunctionV>>,
    /// The traits that each type implements.
    pub impls: Map<Seq<char>, Seq<Seq<char>>>,
    /// Whether a program is run, and not a macro.
    pub runtime: bool,
    pub host: HostV,
}

/// The variables in scope.
pub type Vars = Map<Seq<char>, ValueV>;

/// A value or why there is none.
pub type Ran = Result<ValueV, StopV>;

/// A value or why there is none, the scope after it and all that was printed.
pub type Evaled = (Ran, Vars, Seq<char>);

pub open spec fn fails(message: Seq<char>, span: Span) -> StopV {
    StopV::Error(macro_error(message, span))
}

// ------------------------------------------------------------------ types of values

/// The last name of a type, seen through references.
pub open spec fn bare_type(t: TypeV) -> Option<Seq<char>>
    decreases t,
{
    match t {
        TypeV::Path(p) => if p.segments.len() > 0 {
            Some(p.segments.last().name)
        } else {
            None
        },
        TypeV::GcRef(inner) => bare_type(*inner),
        _ => None,
    }
}

/// The type of a value, where it has a name.
pub open spec fn value_type(v: ValueV) -> Option<Seq<char>> {
    match v {
        ValueV::Int(_) => Some("Int"@),
        ValueV::Float(_) => Some("Float"@),
        ValueV::String(_) => Some("String"@),
        ValueV::Bool(_) => Some("Bool"@),
        ValueV::Struct(n, _) => Some(n),
        _ => None,
    }
}

// ----------------------------------------------------------------------- operators

/// The result of an operator on numbers.
pub open spec fn int_result(op: BinOp, a: i64, b: i64, span: Span) -> Ran {
    match op {
        BinOp::Add => Ok(ValueV::Int(a.wrapping_add(b))),
        BinOp::Sub => Ok(ValueV::Int(a.wrapping_sub(b))),
        BinOp::Mul => Ok(ValueV::Int(a.wrapping_mul(b))),
        BinOp::Div => match a.checked_div(b) {
            Some(q) => Ok(ValueV::Int(q)),
            None => if b == 0 {
                Err(fails("attempt to divide by zero"@, span))
            } else {
                Err(fails("attempt to divide with overflow"@, span))
            },
        },
        BinOp::Mod => match a.checked_rem(b) {
            Some(q) => Ok(ValueV::Int(q)),
            None => if b == 0 {
                Err(
                    fails(
                        "attempt to calculate the remainder with a divisor of zero"@,
                        span,
                    ),
                )
            } else {
                Err(fails("attempt to calculate the remainder with overflow"@, span))
            },
        },
        BinOp::Eq => Ok(ValueV::Bool(a == b)),
        BinOp::NotEq => Ok(ValueV::Bool(a != b)),
        BinOp::Lt => Ok(ValueV::Bool(a < b)),
        BinOp::Gt => Ok(ValueV::Bool(a > b)),
        BinOp::LtEq => Ok(ValueV::Bool(a <= b)),
        BinOp::GtEq => Ok(ValueV::Bool(a >= b)),
        BinOp::And => Err(fails("And requires bool"@, span)),
        BinOp::Or => Err(fails("Or requires bool"@, span)),
    }
}

/// A number that the outside computes.
pub open spec fn float_value(r: Result<Seq<char>, StopV>) -> Ran {
    match r {
        Ok(s) => Ok(ValueV::Float(s)),
        Err(s) => Err(s),
    }
}

/// A comparison that the outside computes.
pub open spec fn bool_value(r: Result<bool, StopV>) -> Ran {
    match r {
        Ok(b) => Ok(ValueV::Bool(b)),
        Err(s) => Err(s),
    }
}

pub open spec fn negated(r: Ran) -> Ran {
    match r {
        Ok(ValueV::Bool(b)) => Ok(ValueV::Bool(!b)),
        _ => r,
    }
}

/// The result of an operator on floating-point numbers.
pub open spec fn float_op_result(h: HostV, op: BinOp, a: Seq<char>, b: Seq<char>, span: Span) -> Ran {
    match op {
        BinOp::Add => float_value(float_result(h, FloatOp::Add, a, b)),
        BinOp::Sub => float_value(float_result(h, FloatOp::Sub, a, b)),
        BinOp::Mul => float_value(float_result(h, FloatOp::Mul, a, b)),
        BinOp::Div => float_value(float_result(h, FloatOp::Div, a, b)),
        BinOp::Mod => Err(fails("Cannot modulo"@, span)),
        BinOp::Eq => bool_value(float_holds(h, FloatOp::Equal, a, b)),
        BinOp::NotEq => negated(bool_value(float_holds(h, FloatOp::Equal, a, b))),
        BinOp::Lt => bool_value(float_holds(h, FloatOp::Less, a, b)),
        BinOp::Gt => bool_value(float_holds(h, FloatOp::Greater, a, b)),
        BinOp::LtEq => bool_value(float_holds(h, FloatOp::LessOrEqual, a, b)),
        BinOp::GtEq => bool_value(float_holds(h, FloatOp::GreaterOrEqual, a, b)),
        BinOp::And => Err(fails("And requires bool"@, span)),
        BinOp::Or => Err(fails("Or requires bool"@, span)),
    }
}

/// Whether two values are equal. Only simple values and cases of enums can be.
pub open spec fn same_value(h: HostV, a: ValueV, b: ValueV) -> Result<bool, StopV>
    decreases a,
{
    match (a, b) {
        (ValueV::Int(x), ValueV::Int(y)) => Ok(x == y),
        (ValueV::Float(x), ValueV::Float(y)) => float_holds(h, FloatOp::Equal, x, y),
        (ValueV::String(x), ValueV::String(y)) => Ok(x == y),
        (ValueV::Bool(x), ValueV::Bool(y)) => Ok(x == y),
        (ValueV::Nil, ValueV::Nil) => Ok(true),
        (ValueV::Enum(m, p), ValueV::Enum(n, q)) => if m != n {
            Ok(false)
        } else {
            match (p, q) {
                (None, None) => Ok(true),
                (Some(x), Some(y)) => same_value(h, *x, *y),
                _ => Ok(false),
            }
        },
        _ => Ok(false),
    }
}

/// Whether there is a floating-point number among what equality looks at.
pub open spec fn has_float(a: ValueV) -> bool
    decreases a,
{
    match a {
        ValueV::Float(_) => true,
        ValueV::Enum(_, Some(p)) => has_float(*p),
        _ => false,
    }
}

/// Equality does not depend on the order of its operands.
pub proof fn law_same_value_symmetric(h: HostV, a: ValueV, b: ValueV)
    requires
        !has_float(a),
    ensures
        same_value(h, a, b) == same_value(h, b, a),
    decreases a,
{
    match (a, b) {
        (ValueV::Enum(m, Some(x)), ValueV::Enum(n, Some(y))) => {
            law_same_value_symmetric(h, *x, *y);
        },
        _ => {},
    }
}

/// What an operator says of operands that it is not for.
pub open spec fn operands_message(op: BinOp) -> Seq<char> {
    match op {
        BinOp::Add => "Cannot add these types"@,
        BinOp::Sub => "Cannot subtract"@,
        BinOp::Mul => "Cannot multiply"@,
        BinOp::Div => "Cannot divide"@,
        BinOp::Mod => "Cannot modulo"@,
        BinOp::And => "And requires bool"@,
        BinOp::Or => "Or requires bool"@,
        _ => "Cannot compare"@,
    }
}

/// The result of an operator.
pub open spec fn binary_result(h: HostV, op: BinOp, l: ValueV, r: ValueV, span: Span) -> Ran {
    if op is Eq {
        bool_value(same_value(h, l, r))
    } else if op is NotEq {
        negated(bool_value(same_value(h, l, r)))
    } else {
        match (l, r) {
            (ValueV::Int(a), ValueV::Int(b)) => int_result(op, a, b, span),
            (ValueV::Float(a), ValueV::Float(b)) => float_op_result(h, op, a, b, span),
            (ValueV::String(a), ValueV::String(b)) => if op is Add {
                Ok(ValueV::String(a + b))
            } else {
                Err(fails(operands_message(op), span))
            },
            (ValueV::Bool(a), ValueV::Bool(b)) => if op is And {
                Ok(ValueV::Bool(a && b))
            } else if op is Or {
                Ok(ValueV::Bool(a || b))
            } else {
                Err(fails(operands_message(op), span))
            },
            _ => Err(fails(operands_message(op), span)),
        }
    }
}

/// The result of a prefix operator.
pub open spec fn unary_result(h: HostV, op: UnaryOp, v: ValueV, span: Span) -> Ran {
    match op {
        UnaryOp::Neg => match v {
            ValueV::Int(n) => Ok(ValueV::Int(0i64.wrapping_sub(n))),
            ValueV::Float(s) => float_value(float_result(h, FloatOp::Neg, s, ""@)),
            _ => Err(fails("Cannot negate this type"@, span)),
        },
        UnaryOp::Not => match v {
            ValueV::Bool(b) => Ok(ValueV::Bool(!b)),
            _ => Err(fails("Cannot ! this type"@, span)),
        },
    }
}

/// The result of `+=` or `-=`.
pub open spec fn assign_op_result(op: BinOp, current: ValueV, v: ValueV, span: Span) -> Ran {
    match op {
        BinOp::Add => match (current, v) {
            (ValueV::Int(a), ValueV::Int(b)) => Ok(ValueV::Int(a.wrapping_add(b))),
            _ => Err(fails("Cannot += these types"@, span)),
        },
        BinOp::Sub => match (current, v) {
            (ValueV::Int(a), ValueV::Int(b)) => Ok(ValueV::Int(a.wrapping_sub(b))),
            _ => Err(fails("Cannot -= these types"@, span)),
        },
        _ => Err(fails("Unsupported assign-op"@, span)),
    }
}

// -------------------------------------------------------------- fields, indices, cases

/// The name of an item, where it has one.
pub open spec fn item_name(i: ItemV) -> Seq<char> {
    match i {
        ItemV::Function(f) => f.name,
        ItemV::Struct(s) => s.name,
        ItemV::Enum(e) => e.name,
        ItemV::TypeAlias(t) => t.name,
        ItemV::VarDecl(v) => v.name,
        _ => "<unnamed>"@,
    }
}

pub open spec fn item_kind(i: ItemV) -> Seq<char> {
    match i {
        ItemV::Function(_) => "Function"@,
        ItemV::Struct(_) => "Struct"@,
        ItemV::Enum(_) => "Enum"@,
        ItemV::TypeAlias(_) => "TypeAlias"@,
        ItemV::VarDecl(_) => "VarDecl"@,
        ItemV::Macro(_) => "Macro"@,
        ItemV::MacroCall(_) => "MacroCall"@,
        ItemV::Trait(_) => "Trait"@,
        ItemV::Impl(_) => "Impl"@,
    }
}

pub open spec fn unknown_field(field: Seq<char>, span: Span) -> StopV {
    fails("Unknown field '"@ + field + "'"@, span)
}

/// A field of a value.
pub open spec fn field_result(obj: ValueV, field: Seq<char>, span: Span) -> Ran {
    match obj {
        ValueV::Struct(n, fs) => match get_field(fs, field) {
            Some(v) => Ok(v),
            None => Err(fails("Struct '"@ + n + "' has no field '"@ + field + "'"@, span)),
        },
        ValueV::Module(m) => if field == "name"@ {
            Ok(ValueV::String(m.name))
        } else if field == "items"@ {
            Ok(ValueV::Items(m.items))
        } else {
            Err(unknown_field(field, span))
        },
        ValueV::Item(i) => if field == "name"@ {
            Ok(ValueV::String(item_name(i)))
        } else if field == "kind"@ {
            Ok(ValueV::String(item_kind(i)))
        } else {
            Err(unknown_field(field, span))
        },
        _ => Err(unknown_field(field, span)),
    }
}

/// An element of a list.
pub open spec fn index_result(obj: ValueV, idx: ValueV, span: Span) -> Ran {
    match (obj, idx) {
        (ValueV::List(xs), ValueV::Int(i)) => if 0 <= i < xs.len() {
            Ok(xs[i as int])
        } else {
            Err(fails("Index out of bounds"@, span))
        },
        _ => Err(fails("Can only index lists with integers"@, span)),
    }
}

/// The values that a loop goes over.
pub open spec fn loop_values(v: ValueV, span: Span) -> Result<Seq<ValueV>, StopV> {
    match v {
        ValueV::List(xs) => Ok(xs),
        ValueV::Items(xs) => Ok(Seq::new(xs.len(), |i: int| ValueV::Item(xs[i]))),
        _ => Err(fails("Can only iterate over lists"@, span)),
    }
}

/// What a pattern binds when it matches a value.
pub type Matched = Result<Option<Seq<(Seq<char>, ValueV)>>, StopV>;

pub open spec fn matched_if(b: bool) -> Matched {
    if b {
        Ok(Some(Seq::empty()))
    } else {
        Ok(None)
    }
}

/// Whether a pattern matches a value, and what it binds.
pub open spec fn pattern_match(v: ValueV, p: PatternV) -> Matched
    decreases p,
{
    match p.kind {
        PatternKindV::Wildcard => Ok(Some(Seq::empty())),
        PatternKindV::Variable { name, is_mut } => Ok(Some(seq![(name, v)])),
        PatternKindV::EnumCtor { path, case, inner } => match v {
            ValueV::Enum(c, payload) => if c == case {
                match (inner, payload) {
                    (None, None) => Ok(Some(Seq::empty())),
                    (Some(q), Some(x)) => pattern_match(*x, *q),
                    _ => Ok(None),
                }
            } else {
                Ok(None)
            },
            _ => Ok(None),
        },
        PatternKindV::Literal(l) => match (l, v) {
            (LiteralPatV::Int(a), ValueV::Int(b)) => matched_if(a == b),
            (LiteralPatV::Bool(a), ValueV::Bool(b)) => matched_if(a == b),
            (LiteralPatV::String(a), ValueV::String(b)) => matched_if(a == b),
            (LiteralPatV::Nil, ValueV::Nil) => matched_if(true),
            _ => Ok(None),
        },
        _ => Err(fails("Unsupported pattern: "@ + debug_pattern_kind(p.kind), p.span)),
    }
}

/// A scope with the bindings from `i` on.
pub open spec fn bound(env: Vars, bs: Seq<(Seq<char>, ValueV)>, i: int) -> Vars
    decreases bs.len() - i,
{
    if 0 <= i < bs.len() {
        bound(env.insert(bs[i].0, bs[i].1), bs, i + 1)
    } else {
        env
    }
}

// ------------------------------------------------------------------------- overloads

/// The overloads from `i` on with so many parameters, behind those of `acc`.
pub open spec fn with_arity(
    fs: Seq<FunctionV>,
    n: nat,
    i: int,
    acc: Seq<FunctionV>,
) -> Seq<FunctionV>
    decreases fs.len() - i,
{
    if 0 <= i < fs.len() {
        with_arity(
            fs,
            n,
            i + 1,
            if fs[i].params.len() == n {
                acc.push(fs[i])
            } else {
                acc
            },
        )
    } else {
        acc
    }
}

/// How well an argument fits a parameter: exactly, as a trait that its type implements,
/// or as one of which nothing is known; or not at all.
pub open spec fn fit(c: Ctx, p: ParamV, v: ValueV) -> Option<nat> {
    match (bare_type(p.ty), value_type(v)) {
        (Some(t), Some(a)) => if t == a {
            Some(2)
        } else if c.impls.contains_key(a) && c.impls[a].contains(t) {
            Some(1)
        } else {
            None
        },
        _ => Some(0),
    }
}

/// The score of an overload: how well its parameters from `i` on fit, above `total`.
pub open spec fn score(
    c: Ctx,
    ps: Seq<ParamV>,
    args: Seq<ValueV>,
    i: int,
    total: nat,
) -> Option<nat>
    decreases ps.len() - i,
{
    if 0 <= i < ps.len() && i < args.len() {
        match fit(c, ps[i], args[i]) {
            Some(n) => score(c, ps, args, i + 1, total + n),
            None => None,
        }
    } else {
        Some(total)
    }
}

/// The first of the overloads with the best score, from `i` on and `best` before them.
pub open spec fn best_overload(
    c: Ctx,
    fs: Seq<FunctionV>,
    args: Seq<ValueV>,
    i: int,
    best: Option<(nat, FunctionV)>,
) -> Option<(nat, FunctionV)>
    decreases fs.len() - i,
{
    if 0 <= i < fs.len() {
        best_overload(
            c,
            fs,
            args,
            i + 1,
            match score(c, fs[i].params, args, 0, 0) {
                None => best,
                Some(n) => match best {
                    Some((m, f)) => if m >= n {
                        best
                    } else {
                        Some((n, fs[i]))
                    },
                    None => Some((n, fs[i])),
                },
            },
        )
    } else {
        best
    }
}

/// No overload that fits has a better score than the one that is chosen, and one is
/// chosen where any fits.
pub proof fn law_best_overload(
    c: Ctx,
    fs: Seq<FunctionV>,
    args: Seq<ValueV>,
    i: int,
    best: Option<(nat, FunctionV)>,
    k: int,
)
    requires
        0 <= i <= k < fs.len(),
        score(c, fs[k].params, args, 0, 0) is Some,
    ensures
        best_overload(c, fs, args, i, best) is Some,
        (best_overload(c, fs, args, i, best)->0).0 >= score(c, fs[k].params, args, 0, 0)->0,
    decreases fs.len() - i,
{
    let next = match score(c, fs[i].params, args, 0, 0) {
        None => best,
        Some(n) => match best {
            Some((m, f)) => if m >= n {
                best
            } else {
                Some((n, fs[i]))
            },
            None => Some((n, fs[i])),
        },
    };
    if i < k {
        law_best_overload(c, fs, args, i + 1, next, k);
    } else {
        lemma_best_grows(c, fs, args, i + 1, next);
    }
}

proof fn lemma_best_grows(
    c: Ctx,
    fs: Seq<FunctionV>,
    args: Seq<ValueV>,
    i: int,
    best: Option<(nat, FunctionV)>,
)
    requires
        best is Some,
        0 <= i,
    ensures
        best_overload(c, fs, args, i, best) is Some,
        (best_overload(c, fs, args, i, best)->0).0 >= (best->0).0,
    decreases fs.len() - i,
{
    if i < fs.len() {
        let next = match score(c, fs[i].params, args, 0, 0) {
            None => best,
            Some(n) => match best {
                Some((m, f)) => if m >= n {
                    best
                } else {
                    Some((n, fs[i]))
                },
                None => Some((n, fs[i])),
            },
        };
        lemma_best_grows(c, fs, args, i + 1, next);
    }
}

/// The overload that is called.
pub open spec fn chosen(
    c: Ctx,
    name: Seq<char>,
    fs: Seq<FunctionV>,
    args: Seq<ValueV>,
    span: Span,
) -> Result<FunctionV, StopV> {
    let cands = with_arity(fs, args.len(), 0, Seq::empty());
    if cands.len() == 0 && fs.len() > 0 {
        Ok(fs[0])
    } else if cands.len() == 1 {
        Ok(cands[0])
    } else {
        match best_overload(c, cands, args, 0, None) {
            Some((n, f)) => Ok(f),
            None => Err(
                fails("No overload of '"@ + name + "' matches the argument types"@, span),
            ),
        }
    }
}

/// The scope of a function: its parameters from `i` on bound to the arguments.
pub open spec fn call_scope(ps: Seq<ParamV>, args: Seq<ValueV>, i: int, env: Vars) -> Vars
    decreases ps.len() - i,
{
    if 0 <= i < ps.len() && i < args.len() {
        call_scope(ps, args, i + 1, env.insert(ps[i].name, args[i]))
    } else {
        env
    }
}

// -------------------------------------------------------------------------- built-ins

pub open spec fn string_arg(args: Seq<ValueV>, k: int, span: Span) -> Result<Seq<char>, StopV> {
    if 0 <= k < args.len() {
        match args[k] {
            ValueV::String(s) => Ok(s),
            _ => Err(fails("Expected string argument"@, span)),
        }
    } else {
        Err(fails("Expected string argument"@, span))
    }
}

/// A text with the dots replaced by slashes.
pub open spec fn slashed(s: Seq<char>) -> Seq<char> {
    Seq::new(
        s.len(),
        |i: int|
            if s[i] == '.' {
                '/'
            } else {
                s[i]
            },
    )
}

/// The names that a path may have on disk: itself, and `std/math.nv` for `std.math.nv`.
pub open spec fn candidates(path: Seq<char>) -> Seq<Seq<char>> {
    if path.len() >= 3 && path.subrange(path.len() - 3, path.len() as int) == ".nv"@ {
        seq![path, slashed(path.take(path.len() - 3)) + ".nv"@]
    } else {
        seq![path]
    }
}

/// The text of the first candidate from `j` on that is in one of the directories from `i`
/// on.
pub open spec fn read_from(
    h: HostV,
    dirs: Seq<Seq<char>>,
    cands: Seq<Seq<char>>,
    path: Seq<char>,
    i: int,
    j: int,
) -> Result<Seq<char>, StopV>
    decreases dirs.len() - i, cands.len() - j,
{
    if 0 <= i < dirs.len() {
        if 0 <= j < cands.len() {
            match file_at(h, joined_path(dirs[i], cands[j])) {
                Err(s) => Err(s),
                Ok(FileV::Missing) => read_from(h, dirs, cands, path, i, j + 1),
                Ok(FileV::Text(t)) => Ok(t),
                Ok(FileV::Unreadable(why)) => Err(
                    StopV::Error(
                        CompileErrorV::Generic("Cannot read '"@ + cands[j] + "': "@ + why),
                    ),
                ),
            }
        } else {
            read_from(h, dirs, cands, path, i + 1, 0)
        }
    } else {
        Err(fails("File not found: '"@ + path + "'"@, zero_span()))
    }
}

/// The text of a file.
pub open spec fn file_text(c: Ctx, path: Seq<char>) -> Result<Seq<char>, StopV> {
    read_from(c.host, c.dirs, candidates(path), path, 0, 0)
}

pub open spec fn b_read_file(c: Ctx, args: Seq<ValueV>, span: Span) -> Ran {
    match string_arg(args, 0, span) {
        Err(s) => Err(s),
        Ok(path) => match file_text(c, path) {
            Err(s) => Err(s),
            Ok(t) => Ok(ValueV::String(t)),
        },
    }
}

pub open spec fn b_parse(args: Seq<ValueV>, span: Span) -> Ran {
    match string_arg(args, 0, span) {
        Err(s) => Err(s),
        Ok(src) => match parsed(src, "imported"@) {
            Err(e) => Err(StopV::Error(e)),
            Ok(m) => Ok(ValueV::Module(m)),
        },
    }
}

/// The items of a list from `i` on, behind those of `acc`.
pub open spec fn spliced(xs: Seq<ValueV>, i: int, acc: Seq<ItemV>, span: Span) -> Ran
    decreases xs.len() - i,
{
    if 0 <= i < xs.len() {
        match xs[i] {
            ValueV::Item(x) => spliced(xs, i + 1, acc.push(x), span),
            ValueV::Items(more) => spliced(xs, i + 1, acc + more, span),
            _ => Err(fails("splice list may only contain items"@, span)),
        }
    } else {
        Ok(ValueV::Items(acc))
    }
}

pub open spec fn first(args: Seq<ValueV>) -> Option<ValueV> {
    nth(args, 0)
}

pub open spec fn nth(args: Seq<ValueV>, k: int) -> Option<ValueV> {
    if 0 <= k < args.len() {
        Some(args[k])
    } else {
        None
    }
}

pub open spec fn b_splice(args: Seq<ValueV>, span: Span) -> Ran {
    match first(args) {
        Some(ValueV::Items(xs)) => Ok(ValueV::Items(xs)),
        Some(ValueV::Item(x)) => Ok(ValueV::Items(seq![x])),
        Some(ValueV::List(xs)) => spliced(xs, 0, Seq::empty(), span),
        _ => Err(fails("splice expects items or an item"@, span)),
    }
}

pub open spec fn b_error(args: Seq<ValueV>, span: Span) -> Ran {
    Err(
        fails(
            match string_arg(args, 0, span) {
                Ok(m) => m,
                Err(_) => "error"@,
            },
            span,
        ),
    )
}

/// Whether an item can be imported.
pub open spec fn is_public(i: ItemV) -> bool {
    match i {
        ItemV::Function(f) => f.is_pub,
        ItemV::Struct(s) => s.is_pub,
        ItemV::Enum(e) => e.is_pub,
        ItemV::Macro(_) => true,
        ItemV::Trait(_) => true,
        ItemV::TypeAlias(_) => true,
        ItemV::VarDecl(_) => true,
        _ => false,
    }
}

/// The public items from `i` on, behind those of `acc`.
pub open spec fn public_from(xs: Seq<ItemV>, i: int, acc: Seq<ItemV>) -> Seq<ItemV>
    decreases xs.len() - i,
{
    if 0 <= i < xs.len() {
        public_from(
            xs,
            i + 1,
            if is_public(xs[i]) {
                acc.push(xs[i])
            } else {
                acc
            },
        )
    } else {
        acc
    }
}

pub open spec fn b_filter_pub(args: Seq<ValueV>, span: Span) -> Ran {
    match first(args) {
        Some(ValueV::Items(xs)) => Ok(ValueV::Items(public_from(xs, 0, Seq::empty()))),
        _ => Err(fails("filter_pub expects items"@, span)),
    }
}

/// An item under another name.
pub open spec fn renamed(i: ItemV, name: Seq<char>) -> ItemV {
    match i {
        ItemV::Function(f) => ItemV::Function(FunctionV { name, ..f }),
        ItemV::Struct(s) => ItemV::Struct(StructV { name, ..s }),
        ItemV::Enum(e) => ItemV::Enum(EnumV { name, ..e }),
        ItemV::TypeAlias(t) => ItemV::TypeAlias(TypeAliasV { name, ..t }),
        ItemV::VarDecl(v) => ItemV::VarDecl(VarDeclV { name, ..v }),
        _ => i,
    }
}

/// An item that has a name has the new name once it is renamed.
pub proof fn law_renamed(i: ItemV, name: Seq<char>)
    requires
        i is Function || i is Struct || i is Enum || i is TypeAlias || i is VarDecl,
    ensures
        item_name(renamed(i, name)) == name,
        item_kind(renamed(i, name)) == item_kind(i),
{
}

pub open spec fn b_set_name(args: Seq<ValueV>, span: Span) -> Ran {
    if args.len() != 2 {
        Err(fails("set_name(item, name) takes 2 args"@, span))
    } else {
        match string_arg(args, 1, span) {
            Err(s) => Err(s),
            Ok(name) => match args[0] {
                ValueV::Item(i) => Ok(ValueV::Item(renamed(i, name))),
                _ => Err(fails("set_name: first arg must be an item"@, span)),
            },
        }
    }
}

pub open spec fn b_lookup_type(c: Ctx, args: Seq<ValueV>, span: Span) -> Ran {
    match string_arg(args, 0, span) {
        Err(s) => Err(s),
        Ok(name) => match lookup(c.structs, name) {
            Some(s) => Ok(ValueV::Item(ItemV::Struct(s))),
            None => Err(fails("Type not found: '"@ + name + "'"@, span)),
        },
    }
}

/// A field as a list of its name and its type.
pub open spec fn field_pair(f: StructFieldV) -> ValueV {
    ValueV::List(seq![ValueV::String(f.name), ValueV::String(type_text(f.ty))])
}

pub open spec fn b_struct_fields(args: Seq<ValueV>, span: Span) -> Ran {
    match first(args) {
        Some(ValueV::Item(ItemV::Struct(s))) => Ok(
            ValueV::List(Seq::new(s.fields.len(), |i: int| field_pair(s.fields[i]))),
        ),
        _ => Err(fails("struct_fields expects a struct"@, span)),
    }
}

pub open spec fn b_type_exists(c: Ctx, args: Seq<ValueV>, span: Span) -> Ran {
    match string_arg(args, 0, span) {
        Err(s) => Err(s),
        Ok(name) => Ok(ValueV::Bool(c.structs.contains_key(name))),
    }
}

/// The two texts of a pair.
pub open spec fn text_pair(v: ValueV) -> Option<(Seq<char>, Seq<char>)> {
    match v {
        ValueV::List(p) => if p.len() >= 2 {
            match (p[0], p[1]) {
                (ValueV::String(a), ValueV::String(b)) => Some((a, b)),
                _ => None,
            }
        } else {
            None
        },
        _ => None,
    }
}

pub open spec fn plain_param(name: Seq<char>, ty: Seq<char>) -> ParamV {
    ParamV { name, ty: named_type(ty), named: false, default: None, span: zero_span() }
}

/// The parameters of the pairs from `i` on, behind those of `acc`.
pub open spec fn made_params(xs: Seq<ValueV>, i: int, acc: Seq<ParamV>, span: Span) -> Result<
    Seq<ParamV>,
    StopV,
>
    decreases xs.len() - i,
{
    if 0 <= i < xs.len() {
        match text_pair(xs[i]) {
            Some((n, t)) => made_params(xs, i + 1, acc.push(plain_param(n, t)), span),
            None => Err(fails("bad param"@, span)),
        }
    } else {
        Ok(acc)
    }
}

/// The body that a value stands for.
pub open spec fn made_body(v: Option<ValueV>) -> BlockV {
    match v {
        Some(ValueV::Expr(e)) => match e.kind {
            ExprKindV::Block(b) => BlockV { stmts: b.stmts, span: zero_span() },
            _ => BlockV { stmts: seq![e], span: zero_span() },
        },
        _ => BlockV { stmts: Seq::empty(), span: zero_span() },
    }
}

pub open spec fn b_make_function(args: Seq<ValueV>, span: Span) -> Ran {
    match (string_arg(args, 0, span), string_arg(args, 2, span)) {
        (Err(s), _) => Err(s),
        (Ok(_), Err(s)) => Err(s),
        (Ok(name), Ok(ret)) => {
            let params = match nth(args, 1) {
                Some(ValueV::List(xs)) => made_params(xs, 0, Seq::empty(), span),
                _ => Ok(Seq::empty()),
            };
            match params {
                Err(s) => Err(s),
                Ok(params) => Ok(
                    ValueV::Item(
                        ItemV::Function(
                            FunctionV {
                                name,
                                generics: Seq::empty(),
                                params,
                                return_type: named_type(ret),
                                body: made_body(nth(args, 3)),
                                is_pub: true,
                                span: zero_span(),
                            },
                        ),
                    ),
                ),
            }
        },
    }
}

pub open spec fn b_make_return(args: Seq<ValueV>, span: Span) -> Ran {
    Ok(
        ValueV::Expr(
            ExprV {
                kind: ExprKindV::Return(
                    match first(args) {
                        Some(ValueV::Expr(e)) => Some(Box::new(e)),
                        _ => None,
                    },
                ),
                span,
            },
        ),
    )
}

/// The operator of a text; anything unknown is an addition.
pub open spec fn made_op(s: Seq<char>) -> BinOp {
    if s == "-"@ {
        BinOp::Sub
    } else if s == "*"@ {
        BinOp::Mul
    } else {
        BinOp::Add
    }
}

pub open spec fn b_make_binary(args: Seq<ValueV>, span: Span) -> Ran {
    match string_arg(args, 0, span) {
        Err(s) => Err(s),
        Ok(op) => match (nth(args, 1), nth(args, 2)) {
            (Some(ValueV::Expr(l)), Some(ValueV::Expr(r))) => Ok(
                ValueV::Expr(binary_expr(l, made_op(op), r, span)),
            ),
            _ => Err(fails("make_binary needs two exprs"@, span)),
        },
    }
}

pub open spec fn b_make_string(args: Seq<ValueV>, span: Span) -> Ran {
    match string_arg(args, 0, span) {
        Err(s) => Err(s),
        Ok(t) => Ok(ValueV::Expr(ExprV { kind: ExprKindV::StringLiteral(t), span })),
    }
}

pub open spec fn b_make_field(args: Seq<ValueV>, span: Span) -> Ran {
    match (first(args), string_arg(args, 1, span)) {
        (Some(ValueV::Expr(e)), Ok(field)) => Ok(
            ValueV::Expr(
                ExprV { kind: ExprKindV::Field { object: Box::new(e), field }, span },
            ),
        ),
        _ => Err(fails("make_field(obj, 'name')"@, span)),
    }
}

pub open spec fn b_make_ident(args: Seq<ValueV>, span: Span) -> Ran {
    match string_arg(args, 0, span) {
        Err(s) => Err(s),
        Ok(t) => Ok(ValueV::Expr(ident_expr(t, span))),
    }
}

pub open spec fn b_list_push(args: Seq<ValueV>, span: Span) -> Ran {
    match first(args) {
        Some(ValueV::List(xs)) => Ok(
            ValueV::List(
                xs.push(
                    match nth(args, 1) {
                        Some(v) => v,
                        None => ValueV::Nil,
                    },
                ),
            ),
        ),
        _ => Err(fails("list_push needs a list"@, span)),
    }
}

/// A literal of a simple value.
pub open spec fn b_make_literal(name: Seq<char>, args: Seq<ValueV>, span: Span) -> Ran {
    if name == "make_int"@ {
        match first(args) {
            Some(ValueV::Int(n)) => Ok(
                ValueV::Expr(ExprV { kind: ExprKindV::IntLiteral(n), span }),
            ),
            _ => Err(fails("make_int(n) expects an integer"@, span)),
        }
    } else if name == "make_float"@ {
        match first(args) {
            Some(ValueV::Float(s)) => Ok(
                ValueV::Expr(ExprV { kind: ExprKindV::FloatLiteral(s), span }),
            ),
            _ => Err(fails("make_float(n)"@, span)),
        }
    } else {
        match first(args) {
            Some(ValueV::Bool(b)) => Ok(
                ValueV::Expr(ExprV { kind: ExprKindV::BoolLiteral(b), span }),
            ),
            _ => Err(fails("make_bool(b)"@, span)),
        }
    }
}

/// The expressions among the values from `i` on, behind those of `acc`.
pub open spec fn exprs_among(xs: Seq<ValueV>, i: int, acc: Seq<ExprV>) -> Seq<ExprV>
    decreases xs.len() - i,
{
    if 0 <= i < xs.len() {
        exprs_among(
            xs,
            i + 1,
            match xs[i] {
                ValueV::Expr(e) => acc.push(e),
                _ => acc,
            },
        )
    } else {
        acc
    }
}

pub open spec fn b_make_block(args: Seq<ValueV>, span: Span) -> Ran {
    let stmts = match first(args) {
        Some(ValueV::List(xs)) => exprs_among(xs, 0, Seq::empty()),
        _ => exprs_among(args, 0, Seq::empty()),
    };
    Ok(ValueV::Expr(block_expr(stmts, span)))
}

pub open spec fn b_make_let(args: Seq<ValueV>, span: Span) -> Ran {
    match string_arg(args, 0, span) {
        Err(s) => Err(s),
        Ok(name) => match nth(args, 1) {
            Some(ValueV::Expr(e)) => Ok(
                ValueV::Expr(
                    ExprV {
                        kind: ExprKindV::Let {
                            name,
                            ty: None,
                            value: Box::new(e),
                            is_mut: false,
                        },
                        span,
                    },
                ),
            ),
            _ => Err(fails("make_let(name, expr)"@, span)),
        },
    }
}

pub open spec fn b_make_call(args: Seq<ValueV>, span: Span) -> Ran {
    match string_arg(args, 0, span) {
        Err(s) => Err(s),
        Ok(name) => {
            let es = match nth(args, 1) {
                Some(ValueV::List(xs)) => exprs_among(xs, 0, Seq::empty()),
                _ => exprs_among(args, 1, Seq::empty()),
            };
            Ok(ValueV::Expr(call_expr(ident_expr(name, span), es, span)))
        },
    }
}

/// The fields of the pairs from `i` on, behind those of `acc`.
pub open spec fn made_fields(xs: Seq<ValueV>, i: int, acc: Seq<StructFieldV>, span: Span) -> Result<
    Seq<StructFieldV>,
    StopV,
>
    decreases xs.len() - i,
{
    if 0 <= i < xs.len() {
        match text_pair(xs[i]) {
            Some((n, t)) => made_fields(
                xs,
                i + 1,
                acc.push(StructFieldV { name: n, ty: named_type(t), span: zero_span() }),
                span,
            ),
            None => Err(fails("bad field"@, span)),
        }
    } else {
        Ok(acc)
    }
}

pub open spec fn b_make_struct(args: Seq<ValueV>, span: Span) -> Ran {
    match string_arg(args, 0, span) {
        Err(s) => Err(s),
        Ok(name) => {
            let fields = match nth(args, 1) {
                Some(ValueV::List(xs)) => made_fields(xs, 0, Seq::empty(), span),
                _ => Ok(Seq::empty()),
            };
            match fields {
                Err(s) => Err(s),
                Ok(fields) => Ok(
                    ValueV::Item(
                        ItemV::Struct(
                            StructV {
                                name,
                                generics: Seq::empty(),
                                fields,
                                is_pub: true,
                                span: zero_span(),
                            },
                        ),
                    ),
                ),
            }
        },
    }
}

/// The functions among the values from `i` on, behind those of `acc`.
pub open spec fn functions_among(xs: Seq<ValueV>, i: int, acc: Seq<FunctionV>) -> Seq<FunctionV>
    decreases xs.len() - i,
{
    if 0 <= i < xs.len() {
        functions_among(
            xs,
            i + 1,
            match xs[i] {
                ValueV::Item(ItemV::Function(f)) => acc.push(f),
                _ => acc,
            },
        )
    } else {
        acc
    }
}

pub open spec fn b_make_impl(args: Seq<ValueV>, span: Span) -> Ran {
    match (string_arg(args, 0, span), string_arg(args, 1, span)) {
        (Err(s), _) => Err(s),
        (Ok(_), Err(s)) => Err(s),
        (Ok(trait_name), Ok(target)) => Ok(
            ValueV::Item(
                ItemV::Impl(
                    ImplBlockV {
                        trait_name,
                        generics: Seq::empty(),
                        target_type: named_type(target),
                        methods: match nth(args, 2) {
                            Some(ValueV::List(xs)) => functions_among(xs, 0, Seq::empty()),
                            _ => Seq::empty(),
                        },
                        span: zero_span(),
                    },
                ),
            ),
        ),
    }
}

pub open spec fn b_to_string(args: Seq<ValueV>, span: Span) -> Ran {
    match first(args) {
        Some(ValueV::Expr(e)) => Ok(
            ValueV::Expr(call_expr(ident_expr("std::to_string"@, span), seq![e], span)),
        ),
        _ => Err(fails("to_string needs an expr"@, span)),
    }
}

/// The text of a value as it is printed.
pub open spec fn printed(h: HostV, v: ValueV) -> Result<Seq<char>, StopV> {
    match v {
        ValueV::String(s) => Ok(s),
        ValueV::Int(n) => Ok(int_text(n as int)),
        ValueV::Float(s) => float_result(h, FloatOp::Show, s, ""@),
        ValueV::Bool(b) => Ok(debug_bool(b)),
        _ => debug_value(h, v),
    }
}

/// A value or why there is none, and all that was printed.
pub type Called = (Ran, Seq<char>);

pub open spec fn b_print(h: HostV, args: Seq<ValueV>, end: Seq<char>, out: Seq<char>) -> Called {
    match first(args) {
        None => (Ok(ValueV::Nil), out + end),
        Some(v) => match printed(h, v) {
            Ok(t) => (Ok(ValueV::Nil), out + t + end),
            Err(s) => (Err(s), out),
        },
    }
}

pub open spec fn b_print_int(args: Seq<ValueV>, span: Span, out: Seq<char>) -> Called {
    match first(args) {
        Some(ValueV::Int(n)) => (Ok(ValueV::Nil), out + int_text(n as int)),
        _ => (Err(fails("print_int expects an integer"@, span)), out),
    }
}

/// The text of a value as the generated program would have it.
pub open spec fn b_render(h: HostV, args: Seq<ValueV>) -> Ran {
    match first(args) {
        Some(ValueV::Int(n)) => Ok(ValueV::String(int_text(n as int))),
        Some(ValueV::Float(s)) => match float_result(h, FloatOp::ShowFixed, s, ""@) {
            Ok(t) => Ok(ValueV::String(t)),
            Err(e) => Err(e),
        },
        Some(ValueV::String(s)) => Ok(ValueV::String(s)),
        Some(ValueV::Bool(b)) => Ok(ValueV::String(debug_bool(b))),
        _ => Ok(ValueV::String("<unknown>"@)),
    }
}

/// The built-ins that look at files, items and types.
pub open spec fn b_inspect(c: Ctx, name: Seq<char>, args: Seq<ValueV>, span: Span) -> Option<Ran> {
    if name == "read_file"@ {
        Some(b_read_file(c, args, span))
    } else if name == "parse"@ {
        Some(b_parse(args, span))
    } else if name == "splice"@ {
        Some(b_splice(args, span))
    } else if name == "error"@ {
        Some(b_error(args, span))
    } else if name == "filter_pub"@ {
        Some(b_filter_pub(args, span))
    } else if name == "set_name"@ {
        Some(b_set_name(args, span))
    } else if name == "lookup_type"@ {
        Some(b_lookup_type(c, args, span))
    } else if name == "struct_fields"@ {
        Some(b_struct_fields(args, span))
    } else if name == "type_exists"@ {
        Some(b_type_exists(c, args, span))
    } else {
        None
    }
}

/// The built-ins that make expressions and lists.
pub open spec fn b_build(name: Seq<char>, args: Seq<ValueV>, span: Span) -> Option<Ran> {
    if name == "make_return"@ {
        Some(b_make_return(args, span))
    } else if name == "make_binary"@ {
        Some(b_make_binary(args, span))
    } else if name == "make_string"@ {
        Some(b_make_string(args, span))
    } else if name == "make_field"@ {
        Some(b_make_field(args, span))
    } else if name == "make_ident"@ {
        Some(b_make_ident(args, span))
    } else if name == "list"@ {
        Some(Ok(ValueV::List(args)))
    } else if name == "list_push"@ {
        Some(b_list_push(args, span))
    } else if name == "make_int"@ || name == "make_float"@ || name == "make_bool"@ {
        Some(b_make_literal(name, args, span))
    } else if name == "make_block"@ {
        Some(b_make_block(args, span))
    } else if name == "make_let"@ {
        Some(b_make_let(args, span))
    } else if name == "make_call"@ {
        Some(b_make_call(args, span))
    } else if name == "to_string"@ {
        Some(b_to_string(args, span))
    } else {
        None
    }
}

/// The built-ins that make items.
pub open spec fn b_declare(name: Seq<char>, args: Seq<ValueV>, span: Span) -> Option<Ran> {
    if name == "make_function"@ {
        Some(b_make_function(args, span))
    } else if name == "make_struct"@ {
        Some(b_make_struct(args, span))
    } else if name == "make_impl"@ {
        Some(b_make_impl(args, span))
    } else {
        None
    }
}

/// A call of a built-in.
pub open spec fn builtin(
    c: Ctx,
    name: Seq<char>,
    args: Seq<ValueV>,
    span: Span,
    out: Seq<char>,
) -> Called {
    match b_inspect(c, name, args, span) {
        Some(r) => (r, out),
        None => match b_build(name, args, span) {
            Some(r) => (r, out),
            None => match b_declare(name, args, span) {
                Some(r) => (r, out),
                None => if c.runtime && name == "print"@ {
                    b_print(c.host, args, ""@, out)
                } else if c.runtime && name == "println"@ {
                    b_print(c.host, args, "\n"@, out)
                } else if c.runtime && name == "print_int"@ {
                    b_print_int(args, span, out)
                } else if c.runtime && name == "std::to_string"@ {
                    (b_render(c.host, args), out)
                } else {
                    (Err(fails("Unknown: '"@ + name + "'"@, span)), out)
                },
            },
        },
    }
}

// ------------------------------------------------------------------------- evaluation

/// What a block of C++ does: only ending the program is known.
pub open spec fn cpp_result(c: Ctx, code: Seq<char>, span: Span) -> Ran {
    if c.runtime {
        if has_text(code, "std::exit"@) {
            Err(StopV::Exit(1))
        } else {
            Err(
                fails(
                    "@cpp blocks are not supported in interpreter mode: "@ + trimmed(code),
                    span,
                ),
            )
        }
    } else {
        Ok(ValueV::Nil)
    }
}

/// The value of a condition.
pub open spec fn condition(v: ValueV, what: Seq<char>, span: Span) -> Result<bool, StopV> {
    match v {
        ValueV::Bool(b) => Ok(b),
        _ => Err(fails(what, span)),
    }
}

/// The value of an expression.
#[verifier::opaque]
pub open spec fn e_expr(c: Ctx, fuel: nat, e: ExprV, env: Vars, out: Seq<char>) -> Evaled
    decreases fuel, 2int, e, 1int,
{
    match e.kind {
        ExprKindV::IntLiteral(n) => (Ok(ValueV::Int(n)), env, out),
        ExprKindV::FloatLiteral(s) => (Ok(ValueV::Float(s)), env, out),
        ExprKindV::StringLiteral(s) => (Ok(ValueV::String(s)), env, out),
        ExprKindV::BoolLiteral(b) => (Ok(ValueV::Bool(b)), env, out),
        ExprKindV::NilLiteral => (Ok(ValueV::Nil), env, out),
        ExprKindV::Ident(name) => (
            match lookup(env, name) {
                Some(v) => Ok(v),
                None => Err(fails("Undefined: '"@ + name + "'"@, e.span)),
            },
            env,
            out,
        ),
        ExprKindV::Path(names) => (Ok(ValueV::String(join_v(names, "::"@))), env, out),
        ExprKindV::CompileTimeResult(items) => (Ok(ValueV::Items(items)), env, out),
        ExprKindV::CppBlock(code) => (cpp_result(c, code, e.span), env, out),
        ExprKindV::Lambda { params, return_type, body } => (
            Err(fails("Lambdas not supported in interpreter"@, e.span)),
            env,
            out,
        ),
        ExprKindV::Return(None) => (Ok(ValueV::Nil), env, out),
        ExprKindV::Return(Some(x)) => e_expr(c, fuel, *x, env, out),
        ExprKindV::NamedArg { name, value } => e_expr(c, fuel, *value, env, out),
        ExprKindV::Block(b) => e_stmts(c, fuel, b.stmts, 0, env, out, ValueV::Nil),
        ExprKindV::Unary { op, expr } => e_single(c, fuel, e, env, out),
        ExprKindV::DotAccess { object, field } => e_single(c, fuel, e, env, out),
        ExprKindV::Field { object, field } => e_single(c, fuel, e, env, out),
        ExprKindV::Let { name, ty, value, is_mut } => e_store(c, fuel, e, env, out),
        ExprKindV::Assign { target, value } => e_store(c, fuel, e, env, out),
        ExprKindV::AssignOp { target, op, value } => e_store(c, fuel, e, env, out),
        ExprKindV::Binary { op, left, right } => e_double(c, fuel, e, env, out),
        ExprKindV::Index { object, index } => e_double(c, fuel, e, env, out),
        ExprKindV::Call { func, args } => e_apply(c, fuel, e, env, out),
        ExprKindV::If { cond, then_branch, else_branch } => e_if(c, fuel, e, env, out),
        ExprKindV::For { var, iter, body } => e_for(c, fuel, e, env, out),
        ExprKindV::While { cond, body } => e_while(c, fuel, e, env, out, ValueV::Nil),
        ExprKindV::StructLit { path, fields } => e_record(c, fuel, e, env, out),
        ExprKindV::GcNew { ty, fields } => e_record(c, fuel, e, env, out),
        ExprKindV::EnumCtor { path, case, arg } => e_ctor(c, fuel, e, env, out),
        ExprKindV::Match { expr, arms } => e_match(c, fuel, e, env, out),
        _ => (Err(fails("Unsupported: "@ + debug_expr_kind(e.kind), e.span)), env, out),
    }
}

/// The statements from `i` on; the value is that of the last.
#[verifier::opaque]
pub open spec fn e_stmts(
    c: Ctx,
    fuel: nat,
    stmts: Seq<ExprV>,
    i: int,
    env: Vars,
    out: Seq<char>,
    last: ValueV,
) -> Evaled
    decreases fuel, 2int, stmts, stmts.len() - i,
{
    if 0 <= i < stmts.len() {
        let (r, env1, out1) = e_expr(c, fuel, stmts[i], env, out);
        match r {
            Err(s) => (Err(s), env1, out1),
            Ok(v) => e_stmts(c, fuel, stmts, i + 1, env1, out1, v),
        }
    } else {
        (Ok(last), env, out)
    }
}

/// An expression of one part.
#[verifier::opaque]
pub open spec fn e_single(c: Ctx, fuel: nat, e: ExprV, env: Vars, out: Seq<char>) -> Evaled
    decreases fuel, 2int, e, 0int,
{
    match e.kind {
        ExprKindV::Unary { op, expr } => {
            let (r, env1, out1) = e_expr(c, fuel, *expr, env, out);
            match r {
                Err(s) => (Err(s), env1, out1),
                Ok(v) => (unary_result(c.host, op, v, e.span), env1, out1),
            }
        },
        ExprKindV::DotAccess { object, field } => {
            let (r, env1, out1) = e_expr(c, fuel, *object, env, out);
            match r {
                Err(s) => (Err(s), env1, out1),
                Ok(v) => (field_result(v, field, e.span), env1, out1),
            }
        },
        ExprKindV::Field { object, field } => {
            let (r, env1, out1) = e_expr(c, fuel, *object, env, out);
            match r {
                Err(s) => (Err(s), env1, out1),
                Ok(v) => (field_result(v, field, e.span), env1, out1),
            }
        },
        _ => (Ok(ValueV::Nil), env, out),
    }
}

/// An expression that changes a variable.
#[verifier::opaque]
pub open spec fn e_store(c: Ctx, fuel: nat, e: ExprV, env: Vars, out: Seq<char>) -> Evaled
    decreases fuel, 2int, e, 0int,
{
    match e.kind {
        ExprKindV::Let { name, ty, value, is_mut } => {
            let (r, env1, out1) = e_expr(c, fuel, *value, env, out);
            match r {
                Err(s) => (Err(s), env1, out1),
                Ok(v) => (Ok(v), env1.insert(name, v), out1),
            }
        },
        ExprKindV::Assign { target, value } => {
            let (r, env1, out1) = e_expr(c, fuel, *value, env, out);
            match r {
                Err(s) => (Err(s), env1, out1),
                Ok(v) => match target.kind {
                    ExprKindV::Ident(name) => (Ok(v), env1.insert(name, v), out1),
                    _ => (Err(fails("Can only assign to variables"@, e.span)), env1, out1),
                },
            }
        },
        ExprKindV::AssignOp { target, op, value } => match target.kind {
            ExprKindV::Ident(name) => {
                let current = match lookup(env, name) {
                    Some(v) => v,
                    None => ValueV::Nil,
                };
                let (r, env1, out1) = e_expr(c, fuel, *value, env, out);
                match r {
                    Err(s) => (Err(s), env1, out1),
                    Ok(v) => match assign_op_result(op, current, v, e.span) {
                        Err(s) => (Err(s), env1, out1),
                        Ok(w) => (Ok(w), env1.insert(name, w), out1),
                    },
                }
            },
            _ => (Err(fails("Can only assign to variables"@, e.span)), env, out),
        },
        _ => (Ok(ValueV::Nil), env, out),
    }
}

/// An expression of two parts.
#[verifier::opaque]
pub open spec fn e_double(c: Ctx, fuel: nat, e: ExprV, env: Vars, out: Seq<char>) -> Evaled
    decreases fuel, 2int, e, 0int,
{
    match e.kind {
        ExprKindV::Binary { op, left, right } => {
            let (r, env1, out1) = e_expr(c, fuel, *left, env, out);
            match r {
                Err(s) => (Err(s), env1, out1),
                Ok(l) => {
                    let (r2, env2, out2) = e_expr(c, fuel, *right, env1, out1);
                    match r2 {
                        Err(s) => (Err(s), env2, out2),
                        Ok(x) => (binary_result(c.host, op, l, x, e.span), env2, out2),
                    }
                },
            }
        },
        ExprKindV::Index { object, index } => {
            let (r, env1, out1) = e_expr(c, fuel, *object, env, out);
            match r {
                Err(s) => (Err(s), env1, out1),
                Ok(l) => {
                    let (r2, env2, out2) = e_expr(c, fuel, *index, env1, out1);
                    match r2 {
                        Err(s) => (Err(s), env2, out2),
                        Ok(x) => (index_result(l, x, e.span), env2, out2),
                    }
                },
            }
        },
        _ => (Ok(ValueV::Nil), env, out),
    }
}

/// The arguments from `i` on, behind those of `acc`.
#[verifier::opaque]
pub open spec fn e_args(
    c: Ctx,
    fuel: nat,
    args: Seq<ExprV>,
    i: int,
    env: Vars,
    out: Seq<char>,
    acc: Seq<ValueV>,
) -> (Result<Seq<ValueV>, StopV>, Vars, Seq<char>)
    decreases fuel, 2int, args, args.len() - i,
{
    if 0 <= i < args.len() {
        let (r, env1, out1) = e_expr(c, fuel, args[i], env, out);
        match r {
            Err(s) => (Err(s), env1, out1),
            Ok(v) => e_args(c, fuel, args, i + 1, env1, out1, acc.push(v)),
        }
    } else {
        (Ok(acc), env, out)
    }
}

/// A call: only names can be called.
#[verifier::opaque]
pub open spec fn e_apply(c: Ctx, fuel: nat, e: ExprV, env: Vars, out: Seq<char>) -> Evaled
    decreases fuel, 2int, e, 0int,
{
    match e.kind {
        ExprKindV::Call { func, args } => match func.kind {
            ExprKindV::Ident(name) => {
                let (r, env1, out1) = e_args(c, fuel, args, 0, env, out, Seq::empty());
                match r {
                    Err(s) => (Err(s), env1, out1),
                    Ok(vals) => {
                        let (r2, out2) = e_call(c, fuel, name, vals, e.span, out1);
                        (r2, env1, out2)
                    },
                }
            },
            _ => (Err(fails("Only named calls in macros"@, e.span)), env, out),
        },
        _ => (Ok(ValueV::Nil), env, out),
    }
}

/// A call of a function of the program, or else of a built-in.
#[verifier::opaque]
pub open spec fn e_call(
    c: Ctx,
    fuel: nat,
    name: Seq<char>,
    args: Seq<ValueV>,
    span: Span,
    out: Seq<char>,
) -> Called
    decreases fuel, 1int, ExprKindV::NilLiteral, 0int,
{
    match lookup(c.functions, name) {
        None => builtin(c, name, args, span, out),
        Some(fs) => match chosen(c, name, fs, args, span) {
            Err(s) => (Err(s), out),
            Ok(f) => e_user(c, fuel, f, args, span, out),
        },
    }
}

/// A call of a function of the program.
#[verifier::opaque]
pub open spec fn e_user(
    c: Ctx,
    fuel: nat,
    f: FunctionV,
    args: Seq<ValueV>,
    span: Span,
    out: Seq<char>,
) -> Called
    decreases fuel, 0int, ExprKindV::NilLiteral, 0int,
{
    if f.params.len() != args.len() {
        (
            Err(
                fails(
                    "Function '"@ + f.name + "' expects "@ + nat_text(f.params.len())
                        + " arguments, got "@ + nat_text(args.len()),
                    span,
                ),
            ),
            out,
        )
    } else if fuel == 0 {
        (Err(StopV::OutOfFuel), out)
    } else {
        e_body(
            c,
            (fuel - 1) as nat,
            f.body.stmts,
            0,
            call_scope(f.params, args, 0, Map::empty()),
            out,
            ValueV::Nil,
        )
    }
}

/// The statements of a body from `i` on, up to the first `return`.
#[verifier::opaque]
pub open spec fn e_body(
    c: Ctx,
    fuel: nat,
    stmts: Seq<ExprV>,
    i: int,
    env: Vars,
    out: Seq<char>,
    last: ValueV,
) -> Called
    decreases fuel, 2int, stmts, stmts.len() - i,
{
    if 0 <= i < stmts.len() {
        let (r, env1, out1) = e_expr(c, fuel, stmts[i], env, out);
        if stmts[i].kind is Return {
            (r, out1)
        } else {
            match r {
                Err(s) => (Err(s), out1),
                Ok(v) => e_body(c, fuel, stmts, i + 1, env1, out1, v),
            }
        }
    } else {
        (Ok(last), out)
    }
}

/// A conditional.
#[verifier::opaque]
pub open spec fn e_if(c: Ctx, fuel: nat, e: ExprV, env: Vars, out: Seq<char>) -> Evaled
    decreases fuel, 2int, e, 0int,
{
    match e.kind {
        ExprKindV::If { cond, then_branch, else_branch } => {
            let (r, env1, out1) = e_expr(c, fuel, *cond, env, out);
            match r {
                Err(s) => (Err(s), env1, out1),
                Ok(v) => match condition(v, "If condition must be bool"@, e.span) {
                    Err(s) => (Err(s), env1, out1),
                    Ok(b) => if b {
                        e_stmts(c, fuel, then_branch.stmts, 0, env1, out1, ValueV::Nil)
                    } else {
                        match else_branch {
                            Some(eb) => e_stmts(c, fuel, eb.stmts, 0, env1, out1, ValueV::Nil),
                            None => (Ok(ValueV::Nil), env1, out1),
                        }
                    },
                },
            }
        },
        _ => (Ok(ValueV::Nil), env, out),
    }
}

/// A loop over a list.
#[verifier::opaque]
pub open spec fn e_for(c: Ctx, fuel: nat, e: ExprV, env: Vars, out: Seq<char>) -> Evaled
    decreases fuel, 2int, e, 0int,
{
    match e.kind {
        ExprKindV::For { var, iter, body } => {
            let (r, env1, out1) = e_expr(c, fuel, *iter, env, out);
            match r {
                Err(s) => (Err(s), env1, out1),
                Ok(v) => match loop_values(v, e.span) {
                    Err(s) => (Err(s), env1, out1),
                    Ok(vals) => e_rounds(c, fuel, var, vals, 0, body, env1, out1, ValueV::Nil),
                },
            }
        },
        _ => (Ok(ValueV::Nil), env, out),
    }
}

/// The rounds of a loop for the values from `i` on. A body without statements leaves the
/// value as it is.
#[verifier::opaque]
pub open spec fn e_rounds(
    c: Ctx,
    fuel: nat,
    var: Seq<char>,
    vals: Seq<ValueV>,
    i: int,
    body: BlockV,
    env: Vars,
    out: Seq<char>,
    last: ValueV,
) -> Evaled
    decreases fuel, 2int, body, vals.len() - i,
{
    if 0 <= i < vals.len() {
        let (r, env1, out1) = e_stmts(
            c,
            fuel,
            body.stmts,
            0,
            env.insert(var, vals[i]),
            out,
            last,
        );
        match r {
            Err(s) => (Err(s), env1, out1),
            Ok(v) => e_rounds(c, fuel, var, vals, i + 1, body, env1, out1, v),
        }
    } else {
        (Ok(last), env, out)
    }
}

/// A loop with a condition.
#[verifier::opaque]
pub open spec fn e_while(
    c: Ctx,
    fuel: nat,
    e: ExprV,
    env: Vars,
    out: Seq<char>,
    last: ValueV,
) -> Evaled
    decreases fuel, 2int, e, 0int,
{
    match e.kind {
        ExprKindV::While { cond, body } => {
            let (r, env1, out1) = e_expr(c, fuel, *cond, env, out);
            match r {
                Err(s) => (Err(s), env1, out1),
                Ok(v) => match condition(v, "While condition must be bool"@, e.span) {
                    Err(s) => (Err(s), env1, out1),
                    Ok(b) => if !b {
                        (Ok(last), env1, out1)
                    } else {
                        let (r2, env2, out2) = e_stmts(
                            c,
                            fuel,
                            body.stmts,
                            0,
                            env1,
                            out1,
                            last,
                        );
                        match r2 {
                            Err(s) => (Err(s), env2, out2),
                            Ok(w) => if fuel == 0 {
                                (Err(StopV::OutOfFuel), env2, out2)
                            } else {
                                e_while(c, (fuel - 1) as nat, e, env2, out2, w)
                            },
                        }
                    },
                },
            }
        },
        _ => (Ok(last), env, out),
    }
}

/// The fields from `i` on, set on those of `acc`.
#[verifier::opaque]
pub open spec fn e_fields(
    c: Ctx,
    fuel: nat,
    fs: Seq<(Seq<char>, ExprV)>,
    i: int,
    env: Vars,
    out: Seq<char>,
    acc: Seq<(Seq<char>, ValueV)>,
) -> (Result<Seq<(Seq<char>, ValueV)>, StopV>, Vars, Seq<char>)
    decreases fuel, 2int, fs, fs.len() - i,
{
    if 0 <= i < fs.len() {
        let (r, env1, out1) = e_expr(c, fuel, fs[i].1, env, out);
        match r {
            Err(s) => (Err(s), env1, out1),
            Ok(v) => e_fields(c, fuel, fs, i + 1, env1, out1, set_field(acc, fs[i].0, v)),
        }
    } else {
        (Ok(acc), env, out)
    }
}

/// A struct, on the stack or on the heap.
#[verifier::opaque]
pub open spec fn e_record(c: Ctx, fuel: nat, e: ExprV, env: Vars, out: Seq<char>) -> Evaled
    decreases fuel, 2int, e, 0int,
{
    match e.kind {
        ExprKindV::StructLit { path, fields } => {
            let (r, env1, out1) = e_fields(c, fuel, fields, 0, env, out, Seq::empty());
            match r {
                Err(s) => (Err(s), env1, out1),
                Ok(fs) => (
                    Ok(
                        ValueV::Struct(
                            if path.len() > 0 {
                                path.last()
                            } else {
                                Seq::empty()
                            },
                            fs,
                        ),
                    ),
                    env1,
                    out1,
                ),
            }
        },
        ExprKindV::GcNew { ty, fields } => {
            let (r, env1, out1) = e_fields(c, fuel, fields, 0, env, out, Seq::empty());
            match r {
                Err(s) => (Err(s), env1, out1),
                Ok(fs) => (
                    Ok(
                        ValueV::Struct(
                            match bare_type(ty) {
                                Some(n) => n,
                                None => Seq::empty(),
                            },
                            fs,
                        ),
                    ),
                    env1,
                    out1,
                ),
            }
        },
        _ => (Ok(ValueV::Nil), env, out),
    }
}

/// A case of an enum.
#[verifier::opaque]
pub open spec fn e_ctor(c: Ctx, fuel: nat, e: ExprV, env: Vars, out: Seq<char>) -> Evaled
    decreases fuel, 2int, e, 0int,
{
    match e.kind {
        ExprKindV::EnumCtor { path, case, arg } => match arg {
            None => (Ok(ValueV::Enum(case, None)), env, out),
            Some(a) => {
                let (r, env1, out1) = e_expr(c, fuel, *a, env, out);
                match r {
                    Err(s) => (Err(s), env1, out1),
                    Ok(v) => (Ok(ValueV::Enum(case, Some(Box::new(v)))), env1, out1),
                }
            },
        },
        _ => (Ok(ValueV::Nil), env, out),
    }
}

/// A match.
#[verifier::opaque]
pub open spec fn e_match(c: Ctx, fuel: nat, e: ExprV, env: Vars, out: Seq<char>) -> Evaled
    decreases fuel, 2int, e, 0int,
{
    match e.kind {
        ExprKindV::Match { expr, arms } => {
            let (r, env1, out1) = e_expr(c, fuel, *expr, env, out);
            match r {
                Err(s) => (Err(s), env1, out1),
                Ok(v) => {
                    let (r2, out2) = e_arms(c, fuel, arms, 0, v, env1, out1, e.span);
                    (r2, env1, out2)
                },
            }
        },
        _ => (Ok(ValueV::Nil), env, out),
    }
}

/// The first arm from `i` on that fits.
#[verifier::opaque]
pub open spec fn e_arms(
    c: Ctx,
    fuel: nat,
    arms: Seq<MatchArmV>,
    i: int,
    v: ValueV,
    env: Vars,
    out: Seq<char>,
    span: Span,
) -> Called
    decreases fuel, 2int, arms, arms.len() - i,
{
    if 0 <= i < arms.len() {
        match pattern_match(v, arms[i].pattern) {
            Err(s) => (Err(s), out),
            Ok(None) => e_arms(c, fuel, arms, i + 1, v, env, out, span),
            Ok(Some(bs)) => {
                let (g, out1) = e_guard(c, fuel, arms[i].guard, bound(env, bs, 0), out);
                match g {
                    Err(s) => (Err(s), out1),
                    Ok(false) => e_arms(c, fuel, arms, i + 1, v, env, out1, span),
                    Ok(true) => {
                        let (r, env2, out2) = e_expr(
                            c,
                            fuel,
                            *arms[i].body,
                            bound(env, bs, 0),
                            out1,
                        );
                        (r, out2)
                    },
                }
            },
        }
    } else {
        (Err(fails("No matching pattern"@, span)), out)
    }
}

/// Whether a guard lets an arm be taken: only `false` does not.
#[verifier::opaque]
pub open spec fn e_guard(
    c: Ctx,
    fuel: nat,
    guard: Option<Box<ExprV>>,
    env: Vars,
    out: Seq<char>,
) -> (Result<bool, StopV>, Seq<char>)
    decreases fuel, 2int, guard, 0int,
{
    match guard {
        None => (Ok(true), out),
        Some(g) => {
            let (r, env1, out1) = e_expr(c, fuel, *g, env, out);
            match r {
                Err(s) => (Err(s), out1),
                Ok(v) => (Ok(v != ValueV::Bool(false)), out1),
            }
        },
    }
}

} // verus!
