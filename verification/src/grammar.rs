//! The grammar: what each rule reads from a position in the tokens, as a
//! function from that position to the tree and the position after it.
use vstd::prelude::*;
use crate::ast::{BinOp, UnaryOp};
use crate::error::CompileErrorV;
use crate::model::{
    BlockV, EnumCaseV, EnumV, ExprKindV, ExprV, FunctionTypeV, FunctionV, GenericParamV, ImplBlockV,
    ImportItemV, ImportV, ItemV, LiteralPatV, MacroCallItemV, MacroDefV, MatchArmV, ModuleV, ParamV,
    PathSegmentV, PathV, PatternKindV, PatternV, StructFieldV, StructV, TraitDefV, TypeAliasV,
    TypeV, VarDeclV,
};
use crate::token::{Span, TokenKindV, TokenV};

verus! {

use crate::ast::{bin_op_of, binary_expr, block_expr, call_expr, ident_expr};
use crate::error::parse_error;
use crate::text::is_uppercase;
use crate::token::{kind_text, merge_spans, zero_span};

/// The tokens and the source they were read from.
pub struct Input {
    pub toks: Seq<TokenV>,
    pub src: Seq<char>,
}

/// The tree of a rule and the position after it, or the error.
pub type Parsed<T> = Result<(T, int), CompileErrorV>;

// ----------------------------------------------------------------- well-foundedness

/// The result of a rule read from `p`, of which success shows that it has read
/// at least one token. Every rule that this is applied to does.
pub open spec fn step<T>(i: Input, p: int, r: Parsed<T>) -> Parsed<T> {
    match r {
        Ok((x, q)) => if p < q <= i.toks.len() {
            r
        } else {
            no_rule()
        },
        Err(e) => Err(e),
    }
}

/// The result of a rule read from `p`, of which success shows that it has not
/// gone back. Every rule that this is applied to does not.
pub open spec fn stay<T>(i: Input, p: int, r: Parsed<T>) -> Parsed<T> {
    match r {
        Ok((x, q)) => if p <= q <= i.toks.len() {
            r
        } else {
            no_rule()
        },
        Err(e) => Err(e),
    }
}

/// A rule read where its first token does not stand: no rule does that.
pub open spec fn no_rule<T>() -> Parsed<T> {
    Err(CompileErrorV::Generic(Seq::empty()))
}

// -------------------------------------------------------------------------- tokens

/// The kind of the token at a position; beyond the tokens there is only the end of file.
pub open spec fn kind_at(i: Input, p: int) -> TokenKindV {
    if 0 <= p < i.toks.len() {
        i.toks[p].kind
    } else {
        TokenKindV::Eof
    }
}

/// Where the token at a position stands.
pub open spec fn span_of(i: Input, p: int) -> Span {
    if 0 <= p < i.toks.len() {
        i.toks[p].span
    } else {
        zero_span()
    }
}

/// The position after a token that may be there.
pub open spec fn skip(i: Input, p: int, k: TokenKindV) -> int {
    if kind_at(i, p) == k {
        p + 1
    } else {
        p
    }
}

/// Whether a list inside braces ends at a position.
pub open spec fn ends_list(i: Input, p: int) -> bool {
    kind_at(i, p) is RBrace || kind_at(i, p) is Eof
}

/// Whether `::` stands at a position.
pub open spec fn path_colon(i: Input, p: int) -> bool {
    kind_at(i, p) is Colon && kind_at(i, p + 1) is Colon
}

/// The keywords that can be names.
pub open spec fn keyword_is_name(k: TokenKindV) -> bool {
    k is Module || k is Macro || k is Quote || k is Import || k is Type || k is Func || k is Let
        || k is Var || k is If || k is Else || k is Match || k is Case || k is Enum || k is Struct
        || k is While || k is For || k is Return
}

/// A name: an identifier, a keyword that can be one, or `$` and an identifier.
#[verifier::opaque]
pub open spec fn g_ident(i: Input, p: int) -> Parsed<Seq<char>>
{
    let k = kind_at(i, p);
    if let TokenKindV::Ident(s) = k {
        Ok((s, p + 1))
    } else if keyword_is_name(k) {
        Ok((kind_text(k), p + 1))
    } else if k is Dollar {
        if let TokenKindV::Ident(s) = kind_at(i, p + 1) {
            Ok(("$"@ + s, p + 2))
        } else {
            Err(parse_error("Expected identifier after $"@, span_of(i, p + 1)))
        }
    } else {
        Err(parse_error("Expected identifier, got '"@ + kind_text(k) + "'"@, span_of(i, p)))
    }
}

/// The names of a path after its first `::`, behind those of `acc`.
#[verifier::opaque]
pub open spec fn g_path_rest(i: Input, p: int, acc: Seq<Seq<char>>) -> Parsed<Seq<Seq<char>>>
    decreases i.toks.len() - p,
{
    match step(i, p, g_ident(i, p)) {
        Err(e) => Err(e),
        Ok((name, q)) => if path_colon(i, q) {
            g_path_rest(i, q + 2, acc.push(name))
        } else {
            Ok((acc.push(name), q))
        },
    }
}

/// Names up to the closing bracket, with commas that may be left out.
#[verifier::opaque]
pub open spec fn g_generic_names(i: Input, p: int, acc: Seq<GenericParamV>) -> Parsed<
    Seq<GenericParamV>,
>
    decreases i.toks.len() - p,
{
    match step(i, p, g_ident(i, p)) {
        Err(e) => Err(e),
        Ok((name, q)) => {
            let acc1 = acc.push(GenericParamV { name, span: span_of(i, q) });
            if kind_at(i, q) is RBracket {
                Ok((acc1, q + 1))
            } else {
                g_generic_names(i, skip(i, q, TokenKindV::Comma), acc1)
            }
        },
    }
}

/// `[A, B]`, or nothing.
#[verifier::opaque]
pub open spec fn g_generic_params(i: Input, p: int) -> Parsed<Seq<GenericParamV>>
{
    if kind_at(i, p) is LBracket {
        g_generic_names(i, p + 1, Seq::empty())
    } else {
        Ok((Seq::empty(), p))
    }
}

// --------------------------------------------------------------------------- types

#[verifier::opaque]
pub open spec fn g_type(i: Input, p: int) -> Parsed<TypeV>
    decreases i.toks.len() - p, 3int,
{
    if kind_at(i, p) is At {
        match step(i, p, g_type(i, p + 1)) {
            Err(e) => Err(e),
            Ok((t, q)) => Ok((TypeV::GcRef(Box::new(t)), q)),
        }
    } else if kind_at(i, p) is LParen {
        let list: Parsed<Seq<TypeV>> = if kind_at(i, p + 1) is RParen {
            Ok((Seq::empty(), p + 1))
        } else {
            g_types(i, p + 1, Seq::empty())
        };
        match step(i, p, list) {
            Err(e) => Err(e),
            Ok((params, q)) => {
                let q1 = skip(i, q, TokenKindV::RParen);
                if kind_at(i, q1) is Arrow {
                    match step(i, q1, g_type(i, q1 + 1)) {
                        Err(e) => Err(e),
                        Ok((ret, r)) => Ok(
                            (TypeV::Function(FunctionTypeV { params, ret: Box::new(ret) }), r),
                        ),
                    }
                } else if params.len() == 1 {
                    Ok((params[0], q1))
                } else if params.len() == 0 {
                    Ok((TypeV::Unit, q1))
                } else {
                    Ok((TypeV::Tuple(params), q1))
                }
            },
        }
    } else {
        match g_segments(i, p, Seq::empty()) {
            Err(e) => Err(e),
            Ok((segments, q)) => Ok((TypeV::Path(PathV { segments }), q)),
        }
    }
}

/// Types with commas between them, behind those of `acc`.
#[verifier::opaque]
pub open spec fn g_types(i: Input, p: int, acc: Seq<TypeV>) -> Parsed<Seq<TypeV>>
    decreases i.toks.len() - p, 4int,
{
    match step(i, p, g_type(i, p)) {
        Err(e) => Err(e),
        Ok((t, q)) => if kind_at(i, q) is Comma {
            g_types(i, q + 1, acc.push(t))
        } else {
            Ok((acc.push(t), q))
        },
    }
}

/// The segments of a path with their arguments, behind those of `acc`.
#[verifier::opaque]
pub open spec fn g_segments(i: Input, p: int, acc: Seq<PathSegmentV>) -> Parsed<Seq<PathSegmentV>>
    decreases i.toks.len() - p, 2int,
{
    match step(i, p, g_ident(i, p)) {
        Err(e) => Err(e),
        Ok((name, p1)) => match stay(i, p1, g_generic_args(i, p1)) {
            Err(e) => Err(e),
            Ok((args, q)) => {
                let acc1 = acc.push(PathSegmentV { name, args });
                if path_colon(i, q) {
                    g_segments(i, q + 2, acc1)
                } else {
                    Ok((acc1, q))
                }
            },
        },
    }
}

/// `[T, U]`, or nothing.
#[verifier::opaque]
pub open spec fn g_generic_args(i: Input, p: int) -> Parsed<Seq<TypeV>>
    decreases i.toks.len() - p, 5int,
{
    if kind_at(i, p) is LBracket {
        g_type_args(i, p + 1, Seq::empty())
    } else {
        Ok((Seq::empty(), p))
    }
}

/// Types up to the closing bracket, with commas that may be left out.
#[verifier::opaque]
pub open spec fn g_type_args(i: Input, p: int, acc: Seq<TypeV>) -> Parsed<Seq<TypeV>>
    decreases i.toks.len() - p, 4int,
{
    match step(i, p, g_type(i, p)) {
        Err(e) => Err(e),
        Ok((t, q)) => if kind_at(i, q) is RBracket {
            Ok((acc.push(t), q + 1))
        } else {
            g_type_args(i, skip(i, q, TokenKindV::Comma), acc.push(t))
        },
    }
}

/// `: T` or nothing.
#[verifier::opaque]
pub open spec fn g_opt_type(i: Input, p: int) -> Parsed<Option<TypeV>>
{
    if kind_at(i, p) is Colon {
        match step(i, p, g_type(i, p + 1)) {
            Err(e) => Err(e),
            Ok((t, q)) => Ok((Some(t), q)),
        }
    } else {
        Ok((None, p))
    }
}

/// `-> T`; where it is missing, the unit type.
#[verifier::opaque]
pub open spec fn g_return_type(i: Input, p: int) -> Parsed<TypeV>
{
    if kind_at(i, p) is Arrow {
        step(i, p, g_type(i, p + 1))
    } else {
        Ok((TypeV::Unit, p))
    }
}

// ------------------------------------------------------------------------ patterns

/// The literal that a token is, as a pattern.
pub open spec fn literal_pattern(k: TokenKindV) -> Option<LiteralPatV> {
    match k {
        TokenKindV::IntLiteral(n) => Some(LiteralPatV::Int(n)),
        TokenKindV::FloatLiteral(s) => Some(LiteralPatV::Float(s)),
        TokenKindV::StringLiteral(s) => Some(LiteralPatV::String(s)),
        TokenKindV::CharLiteral(c) => Some(LiteralPatV::Char(c)),
        TokenKindV::True => Some(LiteralPatV::Bool(true)),
        TokenKindV::False => Some(LiteralPatV::Bool(false)),
        TokenKindV::Nil => Some(LiteralPatV::Nil),
        _ => None,
    }
}

#[verifier::opaque]
pub open spec fn g_pattern(i: Input, p: int) -> Parsed<PatternV>
    decreases i.toks.len() - p, 0int,
{
    let span = span_of(i, p);
    let k = kind_at(i, p);
    if let Some(lit) = literal_pattern(k) {
        Ok((PatternV { kind: PatternKindV::Literal(lit), span }, p + 1))
    } else if k is Underscore {
        Ok((PatternV { kind: PatternKindV::Wildcard, span }, p + 1))
    } else if k is Dot {
        match step(i, p, g_ident(i, p + 1)) {
            Err(e) => Err(e),
            Ok((case, q)) => if kind_at(i, q) is LParen {
                match step(i, q, g_pattern(i, q + 1)) {
                    Err(e) => Err(e),
                    Ok((inner, r)) => Ok(
                        (
                            PatternV {
                                kind: PatternKindV::EnumCtor {
                                    path: Seq::empty(),
                                    case,
                                    inner: Some(Box::new(inner)),
                                },
                                span,
                            },
                            skip(i, r, TokenKindV::RParen),
                        ),
                    ),
                }
            } else {
                Ok(
                    (
                        PatternV {
                            kind: PatternKindV::EnumCtor { path: Seq::empty(), case, inner: None },
                            span,
                        },
                        q,
                    ),
                )
            },
        }
    } else if k is Let || k is Var {
        match step(i, p, g_ident(i, p + 1)) {
            Err(e) => Err(e),
            Ok((name, q)) => Ok(
                (PatternV { kind: PatternKindV::Variable { name, is_mut: k is Var }, span }, q),
            ),
        }
    } else if let TokenKindV::Ident(name) = k {
        if kind_at(i, p + 1) is LBrace {
            match g_field_patterns(i, p + 2, Seq::empty()) {
                Err(e) => Err(e),
                Ok((fields, q)) => Ok(
                    (
                        PatternV {
                            kind: PatternKindV::Struct { path: seq![name], fields },
                            span,
                        },
                        skip(i, q, TokenKindV::RBrace),
                    ),
                ),
            }
        } else if path_colon(i, p + 1) {
            match g_path_rest(i, p + 3, seq![name]) {
                Err(e) => Err(e),
                Ok((path, q)) => Ok(
                    (
                        PatternV {
                            kind: PatternKindV::EnumCtor { path, case: Seq::empty(), inner: None },
                            span,
                        },
                        q,
                    ),
                ),
            }
        } else {
            Ok((PatternV { kind: PatternKindV::Variable { name, is_mut: false }, span }, p + 1))
        }
    } else {
        Err(parse_error("Expected pattern, got '"@ + kind_text(k) + "'"@, span))
    }
}

/// `name: pattern` up to the closing brace, behind those of `acc`.
#[verifier::opaque]
pub open spec fn g_field_patterns(i: Input, p: int, acc: Seq<(Seq<char>, PatternV)>) -> Parsed<
    Seq<(Seq<char>, PatternV)>,
>
    decreases i.toks.len() - p, 1int,
{
    if kind_at(i, p) is RBrace {
        Ok((acc, p))
    } else {
        match step(i, p, g_ident(i, p)) {
            Err(e) => Err(e),
            Ok((name, q)) => {
                let q1 = skip(i, q, TokenKindV::Colon);
                match step(i, q1, g_pattern(i, q1)) {
                    Err(e) => Err(e),
                    Ok((pat, r)) => g_field_patterns(
                        i,
                        skip(i, r, TokenKindV::Comma),
                        acc.push((name, pat)),
                    ),
                }
            },
        }
    }
}

// --------------------------------------------------------------------- raw C++ text

/// Inside what the scan for the closing brace of raw C++ text is.
pub enum CppMode {
    Code,
    /// A string or character literal with this quote.
    Quote(char),
}

/// The position of the first opening brace from `pos` on.
pub open spec fn find_brace(src: Seq<char>, pos: int) -> Option<int>
    decreases src.len() - pos,
{
    if pos < 0 || pos >= src.len() {
        None
    } else if src[pos] == '{' {
        Some(pos)
    } else {
        find_brace(src, pos + 1)
    }
}

/// The text from `pos` up to the brace that closes `depth` open ones, after what
/// `acc` holds. Braces in string and character literals do not count.
pub open spec fn cpp_text(
    src: Seq<char>,
    pos: int,
    depth: int,
    mode: CppMode,
    acc: Seq<char>,
) -> Option<Seq<char>>
    decreases src.len() - pos,
{
    if pos < 0 || pos >= src.len() {
        None
    } else {
        let c = src[pos];
        match mode {
            CppMode::Quote(q) => if c == '\\' && pos + 1 < src.len() {
                cpp_text(src, pos + 2, depth, mode, acc.push(c).push(src[pos + 1]))
            } else if c == q {
                cpp_text(src, pos + 1, depth, CppMode::Code, acc.push(c))
            } else {
                cpp_text(src, pos + 1, depth, mode, acc.push(c))
            },
            CppMode::Code => if c == '{' {
                cpp_text(src, pos + 1, depth + 1, mode, acc.push(c))
            } else if c == '}' {
                if depth <= 1 {
                    Some(acc)
                } else {
                    cpp_text(src, pos + 1, depth - 1, mode, acc.push(c))
                }
            } else if c == '"' || c == '\'' {
                cpp_text(src, pos + 1, depth, CppMode::Quote(c), acc.push(c))
            } else {
                cpp_text(src, pos + 1, depth, mode, acc.push(c))
            },
        }
    }
}

/// The position after the braces that open at or after `p`.
pub open spec fn skip_braces(i: Input, p: int, depth: int) -> int
    decreases i.toks.len() - p,
{
    if p < 0 || p >= i.toks.len() || kind_at(i, p) is Eof {
        p
    } else if kind_at(i, p) is LBrace {
        skip_braces(i, p + 1, depth + 1)
    } else if kind_at(i, p) is RBrace {
        if depth == 1 {
            p + 1
        } else {
            skip_braces(i, p + 1, depth - 1)
        }
    } else {
        skip_braces(i, p + 1, depth)
    }
}

// --------------------------------------------------------------------- expressions

/// The operator that a compound assignment applies.
pub open spec fn assign_op(k: TokenKindV) -> Option<BinOp> {
    match k {
        TokenKindV::PlusEq => Some(BinOp::Add),
        TokenKindV::MinusEq => Some(BinOp::Sub),
        TokenKindV::StarEq => Some(BinOp::Mul),
        TokenKindV::SlashEq => Some(BinOp::Div),
        TokenKindV::PercentEq => Some(BinOp::Mod),
        _ => None,
    }
}

#[verifier::opaque]
pub open spec fn g_expr(i: Input, p: int) -> Parsed<ExprV>
    decreases i.toks.len() - p, 20int,
{
    match step(i, p, g_binary(i, p, 0)) {
        Err(e) => Err(e),
        Ok((left, q)) => {
            let k = kind_at(i, q);
            if k is Eq {
                match step(i, q, g_expr(i, q + 1)) {
                    Err(e) => Err(e),
                    Ok((right, r)) => Ok(
                        (
                            ExprV {
                                kind: ExprKindV::Assign {
                                    target: Box::new(left),
                                    value: Box::new(right),
                                },
                                span: merge_spans(left.span, right.span),
                            },
                            r,
                        ),
                    ),
                }
            } else if let Some(op) = assign_op(k) {
                match step(i, q, g_expr(i, q + 1)) {
                    Err(e) => Err(e),
                    Ok((right, r)) => Ok(
                        (
                            ExprV {
                                kind: ExprKindV::AssignOp {
                                    target: Box::new(left),
                                    op,
                                    value: Box::new(right),
                                },
                                span: merge_spans(left.span, right.span),
                            },
                            r,
                        ),
                    ),
                }
            } else {
                Ok((left, q))
            }
        },
    }
}

/// The binary operators of a level, from the loosest (0) to the tightest (4).
pub open spec fn op_of_level(level: int, k: TokenKindV) -> Option<BinOp> {
    let here = if level == 0 {
        k is OrOr
    } else if level == 1 {
        k is AndAnd
    } else if level == 2 {
        k is EqEq || k is NotEq || k is Lt || k is Gt || k is LtEq || k is GtEq
    } else if level == 3 {
        k is Plus || k is Minus
    } else {
        k is Star || k is Slash || k is Percent
    };
    if here {
        bin_op_of(k)
    } else {
        None
    }
}

/// Operands of the next tighter level with operators of this level between
/// them, grouped to the left.
#[verifier::opaque]
pub open spec fn g_binary(i: Input, p: int, level: int) -> Parsed<ExprV>
    decreases i.toks.len() - p, 19 - level,
{
    if level < 0 || level > 4 {
        no_rule()
    } else {
        let first = if level == 4 {
            g_unary(i, p)
        } else {
            g_binary(i, p, level + 1)
        };
        match step(i, p, first) {
            Err(e) => Err(e),
            Ok((left, q)) => g_binary_rest(i, q, level, left),
        }
    }
}

#[verifier::opaque]
pub open spec fn g_binary_rest(i: Input, p: int, level: int, left: ExprV) -> Parsed<ExprV>
    decreases i.toks.len() - p, 19 - level,
{
    if level < 0 || level > 4 {
        no_rule()
    } else {
        match op_of_level(level, kind_at(i, p)) {
            None => Ok((left, p)),
            Some(op) => {
                let next = if level == 4 {
                    g_unary(i, p + 1)
                } else {
                    g_binary(i, p + 1, level + 1)
                };
                match step(i, p, next) {
                    Err(e) => Err(e),
                    Ok((right, q)) => g_binary_rest(
                        i,
                        q,
                        level,
                        binary_expr(left, op, right, merge_spans(left.span, right.span)),
                    ),
                }
            },
        }
    }
}

#[verifier::opaque]
pub open spec fn g_unary(i: Input, p: int) -> Parsed<ExprV>
    decreases i.toks.len() - p, 12int,
{
    if kind_at(i, p) is Minus || kind_at(i, p) is Not {
        match step(i, p, g_unary(i, p + 1)) {
            Err(e) => Err(e),
            Ok((e, q)) => Ok(
                (
                    ExprV {
                        kind: ExprKindV::Unary {
                            op: if kind_at(i, p) is Minus {
                                UnaryOp::Neg
                            } else {
                                UnaryOp::Not
                            },
                            expr: Box::new(e),
                        },
                        span: merge_spans(span_of(i, p), e.span),
                    },
                    q,
                ),
            ),
        }
    } else {
        g_postfix(i, p)
    }
}

#[verifier::opaque]
pub open spec fn g_postfix(i: Input, p: int) -> Parsed<ExprV>
    decreases i.toks.len() - p, 11int,
{
    match step(i, p, g_primary(i, p)) {
        Err(e) => Err(e),
        Ok((e, q)) => g_postfix_rest(i, q, e),
    }
}

/// Calls, fields, indices and path continuations behind an expression.
#[verifier::opaque]
pub open spec fn g_postfix_rest(i: Input, p: int, e: ExprV) -> Parsed<ExprV>
    decreases i.toks.len() - p, 11int,
{
    let k = kind_at(i, p);
    if k is Dot {
        match step(i, p, g_ident(i, p + 1)) {
            Err(err) => Err(err),
            Ok((field, q)) => if kind_at(i, q) is LParen {
                match step(i, q, g_call_args(i, q)) {
                    Err(err) => Err(err),
                    Ok((args, r)) => g_postfix_rest(
                        i,
                        r,
                        call_expr(ident_expr(field, e.span), seq![e] + args, e.span),
                    ),
                }
            } else {
                g_postfix_rest(
                    i,
                    q,
                    ExprV {
                        kind: ExprKindV::DotAccess { object: Box::new(e), field },
                        span: e.span,
                    },
                )
            },
        }
    } else if k is LParen {
        match step(i, p, g_call_args(i, p)) {
            Err(err) => Err(err),
            Ok((args, q)) => g_postfix_rest(i, q, call_expr(e, args, e.span)),
        }
    } else if k is LBracket {
        match step(i, p, g_expr(i, p + 1)) {
            Err(err) => Err(err),
            Ok((index, q)) => g_postfix_rest(
                i,
                skip(i, q, TokenKindV::RBracket),
                ExprV {
                    kind: ExprKindV::Index { object: Box::new(e), index: Box::new(index) },
                    span: e.span,
                },
            ),
        }
    } else if path_colon(i, p) {
        match step(i, p, g_ident(i, p + 2)) {
            Err(err) => Err(err),
            Ok((rest, q)) => match e.kind {
                ExprKindV::Ident(name) => g_postfix_rest(
                    i,
                    q,
                    ExprV { kind: ExprKindV::Path(seq![name, rest]), span: e.span },
                ),
                ExprKindV::Path(segments) => g_postfix_rest(
                    i,
                    q,
                    ExprV { kind: ExprKindV::Path(segments.push(rest)), span: e.span },
                ),
                _ => Err(parse_error("Invalid path expression"@, e.span)),
            },
        }
    } else {
        Ok((e, p))
    }
}

/// Expressions with commas between them, behind those of `acc`.
#[verifier::opaque]
pub open spec fn g_exprs(i: Input, p: int, acc: Seq<ExprV>) -> Parsed<Seq<ExprV>>
    decreases i.toks.len() - p, 21int,
{
    match step(i, p, g_expr(i, p)) {
        Err(e) => Err(e),
        Ok((e, q)) => if kind_at(i, q) is Comma {
            g_exprs(i, q + 1, acc.push(e))
        } else {
            Ok((acc.push(e), q))
        },
    }
}

/// The arguments of a call from its opening parenthesis on.
#[verifier::opaque]
pub open spec fn g_call_args(i: Input, p: int) -> Parsed<Seq<ExprV>>
    decreases i.toks.len() - p, 0int,
{
    if !(kind_at(i, p) is LParen) {
        no_rule()
    } else if kind_at(i, p + 1) is RParen {
        Ok((Seq::empty(), p + 2))
    } else {
        match step(i, p, g_exprs(i, p + 1, Seq::empty())) {
            Err(e) => Err(e),
            Ok((args, q)) => Ok((args, skip(i, q, TokenKindV::RParen))),
        }
    }
}

/// The literal that a token is, as an expression.
pub open spec fn literal_expr(k: TokenKindV) -> Option<ExprKindV> {
    match k {
        TokenKindV::IntLiteral(n) => Some(ExprKindV::IntLiteral(n)),
        TokenKindV::FloatLiteral(s) => Some(ExprKindV::FloatLiteral(s)),
        TokenKindV::StringLiteral(s) => Some(ExprKindV::StringLiteral(s)),
        TokenKindV::CharLiteral(c) => Some(ExprKindV::CharLiteral(c)),
        TokenKindV::True => Some(ExprKindV::BoolLiteral(true)),
        TokenKindV::False => Some(ExprKindV::BoolLiteral(false)),
        TokenKindV::Nil => Some(ExprKindV::NilLiteral),
        _ => None,
    }
}

/// Whether a token can be a name at the start of an expression.
pub open spec fn starts_name(k: TokenKindV) -> bool {
    k is Ident || k is Module || k is Macro || k is Type || k is Import
}

#[verifier::opaque]
pub open spec fn g_primary(i: Input, p: int) -> Parsed<ExprV>
    decreases i.toks.len() - p, 10int,
{
    let span = span_of(i, p);
    let k = kind_at(i, p);
    if let Some(kind) = literal_expr(k) {
        Ok((ExprV { kind, span }, p + 1))
    } else if k is Quote {
        g_quote(i, p)
    } else if k is Dot {
        g_case(i, p)
    } else if starts_name(k) {
        g_name(i, p)
    } else if k is At {
        g_at(i, p)
    } else if k is Dollar {
        g_dollar(i, p)
    } else if k is LBrace {
        match step(i, p, g_block_body(i, span, p + 1)) {
            Err(e) => Err(e),
            Ok((b, q)) => Ok((block_expr(b.stmts, span), q)),
        }
    } else if k is LParen {
        g_paren(i, p)
    } else if k is If {
        g_if(i, p)
    } else if k is Match {
        g_match(i, p)
    } else if k is While {
        g_while(i, p)
    } else if k is For {
        g_for(i, p)
    } else if k is Return {
        if kind_at(i, p + 1) is Semicolon || kind_at(i, p + 1) is RBrace {
            Ok((ExprV { kind: ExprKindV::Return(None), span }, p + 1))
        } else {
            match step(i, p, g_expr(i, p + 1)) {
                Err(e) => Err(e),
                Ok((e, q)) => Ok(
                    (ExprV { kind: ExprKindV::Return(Some(Box::new(e))), span }, q),
                ),
            }
        }
    } else if k is Let || k is Var {
        g_let(i, p)
    } else if k is Func {
        match step(i, p, g_function(i, p, false)) {
            Err(e) => Err(e),
            Ok((f, q)) => Ok((ExprV { kind: ExprKindV::FuncDef(f), span }, q)),
        }
    } else if k is Tilde {
        match step(i, p, g_ident(i, p + 1)) {
            Err(e) => Err(e),
            Ok((name, q)) => {
                let q1 = skip(i, q, TokenKindV::Colon);
                match step(i, q1, g_expr(i, q1)) {
                    Err(e) => Err(e),
                    Ok((value, r)) => Ok(
                        (
                            ExprV {
                                kind: ExprKindV::NamedArg { name, value: Box::new(value) },
                                span,
                            },
                            r,
                        ),
                    ),
                }
            },
        }
    } else {
        Err(parse_error("Unexpected token: "@ + kind_text(k), span))
    }
}

/// `.case` or `.case(expr)`.
#[verifier::opaque]
pub open spec fn g_case(i: Input, p: int) -> Parsed<ExprV>
    decreases i.toks.len() - p, 0int,
{
    match step(i, p, g_ident(i, p + 1)) {
        Err(e) => Err(e),
        Ok((case, q)) => if kind_at(i, q) is LParen {
            match step(i, q, g_expr(i, q + 1)) {
                Err(e) => Err(e),
                Ok((inner, r)) => Ok(
                    (
                        ExprV {
                            kind: ExprKindV::EnumCtor {
                                path: Seq::empty(),
                                case,
                                arg: Some(Box::new(inner)),
                            },
                            span: span_of(i, p),
                        },
                        skip(i, r, TokenKindV::RParen),
                    ),
                ),
            }
        } else {
            Ok(
                (
                    ExprV {
                        kind: ExprKindV::EnumCtor { path: Seq::empty(), case, arg: None },
                        span: span_of(i, p),
                    },
                    q,
                ),
            )
        },
    }
}

/// A name, a path, or a struct literal behind a capitalized name.
#[verifier::opaque]
pub open spec fn g_name(i: Input, p: int) -> Parsed<ExprV>
    decreases i.toks.len() - p, 0int,
{
    let span = span_of(i, p);
    let name = kind_text(kind_at(i, p));
    if path_colon(i, p + 1) {
        match g_path_rest(i, p + 3, seq![name]) {
            Err(e) => Err(e),
            Ok((segments, q)) => Ok((ExprV { kind: ExprKindV::Path(segments), span }, q)),
        }
    } else if kind_at(i, p + 1) is LBrace && name.len() > 0 && is_uppercase(name[0]) {
        match g_field_inits(i, p + 1) {
            Err(e) => Err(e),
            Ok((fields, q)) => Ok(
                (ExprV { kind: ExprKindV::StructLit { path: seq![name], fields }, span }, q),
            ),
        }
    } else {
        Ok((ident_expr(name, span), p + 1))
    }
}

/// `{ name: value, .. }`; both braces and the commas may be left out.
#[verifier::opaque]
pub open spec fn g_field_inits(i: Input, p: int) -> Parsed<Seq<(Seq<char>, ExprV)>>
    decreases i.toks.len() - p, 23int,
{
    let p1 = skip(i, p, TokenKindV::LBrace);
    match g_inits(i, p1, Seq::empty()) {
        Err(e) => Err(e),
        Ok((fields, q)) => Ok((fields, skip(i, q, TokenKindV::RBrace))),
    }
}

#[verifier::opaque]
pub open spec fn g_inits(i: Input, p: int, acc: Seq<(Seq<char>, ExprV)>) -> Parsed<
    Seq<(Seq<char>, ExprV)>,
>
    decreases i.toks.len() - p, 22int,
{
    if ends_list(i, p) {
        Ok((acc, p))
    } else {
        match step(i, p, g_ident(i, p)) {
            Err(e) => Err(e),
            Ok((name, q)) => {
                let q1 = skip(i, q, TokenKindV::Colon);
                match step(i, q1, g_expr(i, q1)) {
                    Err(e) => Err(e),
                    Ok((value, r)) => g_inits(
                        i,
                        skip(i, r, TokenKindV::Comma),
                        acc.push((name, value)),
                    ),
                }
            },
        }
    }
}

/// What follows `@`: raw C++ text, a macro call, or an allocation on the heap.
#[verifier::opaque]
pub open spec fn g_at(i: Input, p: int) -> Parsed<ExprV>
    decreases i.toks.len() - p, 0int,
{
    if !(kind_at(i, p) is At) {
        no_rule()
    } else {
        let span = span_of(i, p);
        if kind_at(i, p + 1) == TokenKindV::Ident("cpp"@) {
            match find_brace(i.src, span_of(i, p + 2).start as int) {
                Some(open) => match cpp_text(i.src, open + 1, 1, CppMode::Code, Seq::empty()) {
                    Some(raw) => Ok(
                        (ExprV { kind: ExprKindV::CppBlock(raw), span }, skip_braces(i, p + 2, 0)),
                    ),
                    None => Err(
                        parse_error("Unterminated cpp block — missing '}'"@, zero_span()),
                    ),
                },
                None => g_at_rest(i, p + 2, span),
            }
        } else {
            g_at_rest(i, p + 1, span)
        }
    }
}

/// A macro call or an allocation, behind its `@`.
#[verifier::opaque]
pub open spec fn g_at_rest(i: Input, p: int, span: Span) -> Parsed<ExprV>
    decreases i.toks.len() - p, 20int,
{
    if let TokenKindV::Ident(name) = kind_at(i, p) {
        if kind_at(i, p + 1) is LBrace {
            match step(i, p, g_type(i, p)) {
                Err(e) => Err(e),
                Ok((ty, q)) => match g_field_inits(i, q) {
                    Err(e) => Err(e),
                    Ok((fields, r)) => Ok(
                        (ExprV { kind: ExprKindV::GcNew { ty, fields }, span }, r)
                    ),
                },
            }
        } else if kind_at(i, p + 1) is LParen {
            match g_call_args(i, p + 1) {
                Err(e) => Err(e),
                Ok((args, q)) => Ok((ExprV { kind: ExprKindV::MacroCall { name, args }, span }, q)),
            }
        } else {
            match g_primary(i, p + 1) {
                Err(e) => Err(e),
                Ok((arg, q)) => Ok(
                    (ExprV { kind: ExprKindV::MacroCall { name, args: seq![arg] }, span }, q),
                ),
            }
        }
    } else {
        match step(i, p, g_type(i, p)) {
            Err(e) => Err(e),
            Ok((ty, q)) => if kind_at(i, q) is LBrace {
                match g_field_inits(i, q) {
                    Err(e) => Err(e),
                    Ok((fields, r)) => Ok(
                        (ExprV { kind: ExprKindV::GcNew { ty, fields }, span }, r)
                    ),
                }
            } else if kind_at(i, q) is LParen {
                match step(i, q, g_expr(i, q + 1)) {
                    Err(e) => Err(e),
                    Ok((inner, r)) => match ty {
                        TypeV::Path(path) => Ok(
                            (
                                ExprV {
                                    kind: ExprKindV::EnumCtor {
                                        path: segment_names(path.segments),
                                        case: Seq::empty(),
                                        arg: Some(Box::new(inner)),
                                    },
                                    span,
                                },
                                skip(i, r, TokenKindV::RParen),
                            ),
                        ),
                        _ => Err(parse_error("Expected type path after @"@, span)),
                    },
                }
            } else {
                Err(parse_error("Expected { or ( after @type"@, span))
            },
        }
    }
}

/// The names of the segments of a path.
pub open spec fn segment_names(segs: Seq<PathSegmentV>) -> Seq<Seq<char>> {
    Seq::new(segs.len(), |j: int| segs[j].name)
}

/// The one argument of a splice.
pub open spec fn splice_of(args: Seq<ExprV>, span: Span, q: int) -> Parsed<ExprV> {
    if args.len() == 1 {
        Ok((ExprV { kind: ExprKindV::Unquote(Box::new(args[0])), span }, q))
    } else {
        Err(parse_error("$(...) takes exactly one argument"@, span))
    }
}

/// `$name`, `$(expr)` or `$name(expr)`.
#[verifier::opaque]
pub open spec fn g_dollar(i: Input, p: int) -> Parsed<ExprV>
    decreases i.toks.len() - p, 0int,
{
    let span = span_of(i, p);
    if let TokenKindV::Ident(name) = kind_at(i, p + 1) {
        if kind_at(i, p + 2) is LParen {
            match g_call_args(i, p + 2) {
                Err(e) => Err(e),
                Ok((args, q)) => splice_of(args, span, q),
            }
        } else {
            Ok((ExprV { kind: ExprKindV::UnquoteIdent(name), span }, p + 2))
        }
    } else if kind_at(i, p + 1) is LParen {
        match g_call_args(i, p + 1) {
            Err(e) => Err(e),
            Ok((args, q)) => splice_of(args, span, q),
        }
    } else {
        Err(parse_error("Expected identifier after $"@, span))
    }
}

/// A parenthesized expression; a tuple is read, and stands as a name of its own.
#[verifier::opaque]
pub open spec fn g_paren(i: Input, p: int) -> Parsed<ExprV>
    decreases i.toks.len() - p, 0int,
{
    if !(kind_at(i, p) is LParen) {
        no_rule()
    } else {
        match step(i, p, g_expr(i, p + 1)) {
            Err(e) => Err(e),
            Ok((e, q)) => if kind_at(i, q) is Comma {
                match step(i, q, g_exprs(i, q + 1, seq![e])) {
                    Err(err) => Err(err),
                    Ok((es, r)) => Ok(
                        (ident_expr("<tuple>"@, span_of(i, p)), skip(i, r, TokenKindV::RParen)),
                    ),
                }
            } else {
                Ok((e, skip(i, q, TokenKindV::RParen)))
            },
        }
    }
}

/// `let name: T = value`; without a value it is `nil`.
#[verifier::opaque]
pub open spec fn g_let(i: Input, p: int) -> Parsed<ExprV>
    decreases i.toks.len() - p, 0int,
{
    let span = span_of(i, p);
    let is_mut = kind_at(i, p) is Var;
    match step(i, p, g_ident(i, p + 1)) {
        Err(e) => Err(e),
        Ok((name, q)) => match stay(i, q, g_opt_type(i, q)) {
            Err(e) => Err(e),
            Ok((ty, r)) => if kind_at(i, r) is Eq {
                match step(i, r, g_expr(i, r + 1)) {
                    Err(e) => Err(e),
                    Ok((value, s)) => Ok(
                        (
                            ExprV {
                                kind: ExprKindV::Let { name, ty, value: Box::new(value), is_mut },
                                span,
                            },
                            s,
                        ),
                    ),
                }
            } else {
                Ok(
                    (
                        ExprV {
                            kind: ExprKindV::Let {
                                name,
                                ty,
                                value: Box::new(ExprV { kind: ExprKindV::NilLiteral, span }),
                                is_mut,
                            },
                            span,
                        },
                        r,
                    ),
                )
            },
        },
    }
}

// -------------------------------------------------------------------------- blocks

/// A block; both its braces may be left out.
#[verifier::opaque]
pub open spec fn g_block(i: Input, p: int) -> Parsed<BlockV>
    decreases i.toks.len() - p, 23int,
{
    g_block_body(i, span_of(i, p), skip(i, p, TokenKindV::LBrace))
}

/// A block that starts at `start` and whose statements start at `p`.
#[verifier::opaque]
pub open spec fn g_block_body(i: Input, start: Span, p: int) -> Parsed<BlockV>
    decreases i.toks.len() - p, 22int,
{
    match g_stmts(i, p, Seq::empty()) {
        Err(e) => Err(e),
        Ok((stmts, q)) => Ok(
            (
                BlockV { stmts, span: merge_spans(start, span_of(i, q)) },
                skip(i, q, TokenKindV::RBrace),
            ),
        ),
    }
}

/// Expressions up to the closing brace, each with a semicolon that may be left out.
#[verifier::opaque]
pub open spec fn g_stmts(i: Input, p: int, acc: Seq<ExprV>) -> Parsed<Seq<ExprV>>
    decreases i.toks.len() - p, 21int,
{
    if ends_list(i, p) {
        Ok((acc, p))
    } else {
        match step(i, p, g_expr(i, p)) {
            Err(e) => Err(e),
            Ok((e, q)) => g_stmts(i, skip(i, q, TokenKindV::Semicolon), acc.push(e)),
        }
    }
}

#[verifier::opaque]
pub open spec fn g_if(i: Input, p: int) -> Parsed<ExprV>
    decreases i.toks.len() - p, 0int,
{
    let span = span_of(i, p);
    if !(kind_at(i, p) is If) {
        no_rule()
    } else {
        match step(i, p, g_expr(i, p + 1)) {
            Err(e) => Err(e),
            Ok((cond, q)) => match stay(i, q, g_block(i, q)) {
                Err(e) => Err(e),
                Ok((then_branch, r)) => if kind_at(i, r) is Else {
                    if kind_at(i, r + 1) is If {
                        match step(i, r, g_if(i, r + 1)) {
                            Err(e) => Err(e),
                            Ok((e, s)) => Ok(
                                (
                                    ExprV {
                                        kind: ExprKindV::If {
                                            cond: Box::new(cond),
                                            then_branch,
                                            else_branch: Some(
                                                BlockV { stmts: seq![e], span: span_of(i, s) },
                                            ),
                                        },
                                        span,
                                    },
                                    s,
                                ),
                            ),
                        }
                    } else {
                        match stay(i, r + 1, g_block(i, r + 1)) {
                            Err(e) => Err(e),
                            Ok((b, s)) => Ok(
                                (
                                    ExprV {
                                        kind: ExprKindV::If {
                                            cond: Box::new(cond),
                                            then_branch,
                                            else_branch: Some(b),
                                        },
                                        span,
                                    },
                                    s,
                                ),
                            ),
                        }
                    }
                } else {
                    Ok(
                        (
                            ExprV {
                                kind: ExprKindV::If {
                                    cond: Box::new(cond),
                                    then_branch,
                                    else_branch: None,
                                },
                                span,
                            },
                            r,
                        ),
                    )
                },
            },
        }
    }
}

#[verifier::opaque]
pub open spec fn g_match(i: Input, p: int) -> Parsed<ExprV>
    decreases i.toks.len() - p, 0int,
{
    if !(kind_at(i, p) is Match) {
        no_rule()
    } else {
        match step(i, p, g_expr(i, p + 1)) {
            Err(e) => Err(e),
            Ok((expr, q)) => match g_arms(i, skip(i, q, TokenKindV::LBrace), Seq::empty()) {
                Err(e) => Err(e),
                Ok((arms, r)) => Ok(
                    (
                        ExprV {
                            kind: ExprKindV::Match { expr: Box::new(expr), arms },
                            span: span_of(i, p),
                        },
                        skip(i, r, TokenKindV::RBrace),
                    ),
                ),
            },
        }
    }
}

/// `if guard`, or nothing.
#[verifier::opaque]
pub open spec fn g_guard(i: Input, p: int) -> Parsed<Option<Box<ExprV>>>
    decreases i.toks.len() - p, 0int,
{
    if kind_at(i, p) is If {
        match step(i, p, g_expr(i, p + 1)) {
            Err(e) => Err(e),
            Ok((e, q)) => Ok((Some(Box::new(e)), q)),
        }
    } else {
        Ok((None, p))
    }
}

/// `case pattern if guard => body` up to the closing brace, behind those of `acc`.
#[verifier::opaque]
pub open spec fn g_arms(i: Input, p: int, acc: Seq<MatchArmV>) -> Parsed<Seq<MatchArmV>>
    decreases i.toks.len() - p, 22int,
{
    if ends_list(i, p) {
        Ok((acc, p))
    } else {
        let p1 = skip(i, p, TokenKindV::Case);
        match step(i, p1, g_pattern(i, p1)) {
            Err(e) => Err(e),
            Ok((pattern, q)) => match stay(i, q, g_guard(i, q)) {
                Err(e) => Err(e),
                Ok((guard, r)) => {
                    let r1 = skip(i, r, TokenKindV::FatArrow);
                    match step(i, r1, g_expr(i, r1)) {
                        Err(e) => Err(e),
                        Ok((body, s)) => g_arms(
                            i,
                            skip(i, s, TokenKindV::Comma),
                            acc.push(MatchArmV { pattern, guard, body: Box::new(body) }),
                        ),
                    }
                },
            },
        }
    }
}

#[verifier::opaque]
pub open spec fn g_while(i: Input, p: int) -> Parsed<ExprV>
    decreases i.toks.len() - p, 0int,
{
    if !(kind_at(i, p) is While) {
        no_rule()
    } else {
        match step(i, p, g_expr(i, p + 1)) {
            Err(e) => Err(e),
            Ok((cond, q)) => match g_block(i, q) {
                Err(e) => Err(e),
                Ok((body, r)) => Ok(
                    (
                        ExprV {
                            kind: ExprKindV::While { cond: Box::new(cond), body },
                            span: span_of(i, p),
                        },
                        r,
                    ),
                ),
            },
        }
    }
}

#[verifier::opaque]
pub open spec fn g_for(i: Input, p: int) -> Parsed<ExprV>
    decreases i.toks.len() - p, 0int,
{
    match step(i, p, g_ident(i, p + 1)) {
        Err(e) => Err(e),
        Ok((var, q)) => {
            let q1 = skip(i, q, TokenKindV::In);
            match step(i, q1, g_expr(i, q1)) {
                Err(e) => Err(e),
                Ok((iter, r)) => match g_block(i, r) {
                    Err(e) => Err(e),
                    Ok((body, s)) => Ok(
                        (
                            ExprV {
                                kind: ExprKindV::For { var, iter: Box::new(iter), body },
                                span: span_of(i, p),
                            },
                            s,
                        ),
                    ),
                },
            }
        },
    }
}

#[verifier::opaque]
pub open spec fn g_quote(i: Input, p: int) -> Parsed<ExprV>
    decreases i.toks.len() - p, 0int,
{
    if !(kind_at(i, p) is Quote) {
        no_rule()
    } else {
        match g_stmts(i, skip(i, p + 1, TokenKindV::LBrace), Seq::empty()) {
            Err(e) => Err(e),
            Ok((exprs, q)) => Ok(
                (
                    ExprV { kind: ExprKindV::Quote(exprs), span: span_of(i, p) },
                    skip(i, q, TokenKindV::RBrace),
                ),
            ),
        }
    }
}

// ----------------------------------------------------------------------- functions

#[verifier::opaque]
pub open spec fn g_param(i: Input, p: int) -> Parsed<ParamV>
    decreases i.toks.len() - p, 21int,
{
    let span = span_of(i, p);
    let named = kind_at(i, p) is Tilde;
    let p1 = skip(i, p, TokenKindV::Tilde);
    match step(i, p1, g_ident(i, p1)) {
        Err(e) => Err(e),
        Ok((name, q)) => {
            let q1 = skip(i, q, TokenKindV::Colon);
            match step(i, q1, g_type(i, q1)) {
                Err(e) => Err(e),
                Ok((ty, r)) => if kind_at(i, r) is Eq {
                    match step(i, r, g_expr(i, r + 1)) {
                        Err(e) => Err(e),
                        Ok((d, s)) => Ok((ParamV { name, ty, named, default: Some(d), span }, s)),
                    }
                } else {
                    Ok((ParamV { name, ty, named, default: None, span }, r))
                },
            }
        },
    }
}

/// Parameters with commas between them, behind those of `acc`.
#[verifier::opaque]
pub open spec fn g_param_list(i: Input, p: int, acc: Seq<ParamV>) -> Parsed<Seq<ParamV>>
    decreases i.toks.len() - p, 22int,
{
    match step(i, p, g_param(i, p)) {
        Err(e) => Err(e),
        Ok((x, q)) => if kind_at(i, q) is Comma {
            g_param_list(i, q + 1, acc.push(x))
        } else {
            Ok((acc.push(x), q))
        },
    }
}

/// The parameters behind the opening parenthesis, and the closing one.
#[verifier::opaque]
pub open spec fn g_params(i: Input, p: int) -> Parsed<Seq<ParamV>>
    decreases i.toks.len() - p, 23int,
{
    if kind_at(i, p) is RParen {
        Ok((Seq::empty(), p + 1))
    } else {
        match step(i, p, g_param_list(i, p, Seq::empty())) {
            Err(e) => Err(e),
            Ok((params, q)) => Ok((params, skip(i, q, TokenKindV::RParen))),
        }
    }
}

/// A function from its keyword on, whatever the keyword is.
#[verifier::opaque]
pub open spec fn g_function(i: Input, p: int, is_pub: bool) -> Parsed<FunctionV>
    decreases i.toks.len() - p, 0int,
{
    let span = span_of(i, p);
    match step(i, p, g_ident(i, p + 1)) {
        Err(e) => Err(e),
        Ok((name, q)) => match stay(i, q, g_generic_params(i, q)) {
            Err(e) => Err(e),
            Ok((generics, r)) => {
                let r1 = skip(i, r, TokenKindV::LParen);
                match stay(i, r1, g_params(i, r1)) {
                    Err(e) => Err(e),
                    Ok((params, s)) => match stay(i, s, g_return_type(i, s)) {
                        Err(e) => Err(e),
                        Ok((return_type, t)) => match stay(i, t, g_block(i, t)) {
                            Err(e) => Err(e),
                            Ok((body, u)) => Ok(
                                (
                                    FunctionV {
                                        name,
                                        generics,
                                        params,
                                        return_type,
                                        body,
                                        is_pub,
                                        span,
                                    },
                                    u,
                                ),
                            ),
                        },
                    },
                }
            },
        },
    }
}

// -------------------------------------------------------------------- declarations

#[verifier::opaque]
pub open spec fn g_struct_fields(i: Input, p: int, acc: Seq<StructFieldV>) -> Parsed<
    Seq<StructFieldV>,
>
    decreases i.toks.len() - p,
{
    if ends_list(i, p) {
        Ok((acc, p))
    } else {
        match step(i, p, g_ident(i, p)) {
            Err(e) => Err(e),
            Ok((name, q)) => {
                let q1 = skip(i, q, TokenKindV::Colon);
                match step(i, q1, g_type(i, q1)) {
                    Err(e) => Err(e),
                    Ok((ty, r)) => g_struct_fields(
                        i,
                        skip(i, r, TokenKindV::Comma),
                        acc.push(StructFieldV { name, ty, span: span_of(i, p) }),
                    ),
                }
            },
        }
    }
}

#[verifier::opaque]
pub open spec fn g_struct(i: Input, p: int, is_pub: bool) -> Parsed<StructV>
{
    match g_ident(i, p + 1) {
        Err(e) => Err(e),
        Ok((name, q)) => match g_generic_params(i, q) {
            Err(e) => Err(e),
            Ok((generics, r)) => match g_struct_fields(
                i,
                skip(i, r, TokenKindV::LBrace),
                Seq::empty(),
            ) {
                Err(e) => Err(e),
                Ok((fields, s)) => Ok(
                    (
                        StructV { name, generics, fields, is_pub, span: span_of(i, p) },
                        skip(i, s, TokenKindV::RBrace),
                    ),
                ),
            },
        },
    }
}

/// Behind the parenthesis of a case: the label in front of the payload may be left out.
pub open spec fn skip_label(i: Input, p: int) -> int {
    if kind_at(i, p) is Ident && kind_at(i, p + 1) is Colon && !(kind_at(i, p + 2) is Colon) {
        p + 2
    } else {
        p
    }
}

/// `(label: T)`, `(T)` or nothing.
#[verifier::opaque]
pub open spec fn g_payload(i: Input, p: int) -> Parsed<Option<TypeV>>
{
    if kind_at(i, p) is LParen {
        let p1 = skip_label(i, p + 1);
        match step(i, p1, g_type(i, p1)) {
            Err(e) => Err(e),
            Ok((ty, q)) => Ok((Some(ty), skip(i, q, TokenKindV::RParen))),
        }
    } else {
        Ok((None, p))
    }
}

#[verifier::opaque]
pub open spec fn g_cases(i: Input, p: int, acc: Seq<EnumCaseV>) -> Parsed<Seq<EnumCaseV>>
    decreases i.toks.len() - p,
{
    if ends_list(i, p) {
        Ok((acc, p))
    } else {
        let p1 = skip(i, p, TokenKindV::Case);
        match step(i, p1, g_ident(i, p1)) {
            Err(e) => Err(e),
            Ok((name, q)) => match stay(i, q, g_payload(i, q)) {
                Err(e) => Err(e),
                Ok((payload, r)) => g_cases(
                    i,
                    skip(i, r, TokenKindV::Comma),
                    acc.push(EnumCaseV { name, payload, span: span_of(i, p) }),
                ),
            },
        }
    }
}

#[verifier::opaque]
pub open spec fn g_enum(i: Input, p: int, is_pub: bool) -> Parsed<EnumV>
{
    match g_ident(i, p + 1) {
        Err(e) => Err(e),
        Ok((name, q)) => match g_generic_params(i, q) {
            Err(e) => Err(e),
            Ok((generics, r)) => match g_cases(i, skip(i, r, TokenKindV::LBrace), Seq::empty()) {
                Err(e) => Err(e),
                Ok((cases, s)) => Ok(
                    (
                        EnumV { name, generics, cases, is_pub, span: span_of(i, p) },
                        skip(i, s, TokenKindV::RBrace),
                    ),
                ),
            },
        },
    }
}

#[verifier::opaque]
pub open spec fn g_type_alias(i: Input, p: int) -> Parsed<TypeAliasV>
{
    match g_ident(i, p + 1) {
        Err(e) => Err(e),
        Ok((name, q)) => match g_generic_params(i, q) {
            Err(e) => Err(e),
            Ok((generics, r)) => match g_type(i, skip(i, r, TokenKindV::Eq)) {
                Err(e) => Err(e),
                Ok((ty, s)) => Ok(
                    (
                        TypeAliasV { name, generics, ty, span: span_of(i, p) },
                        skip(i, s, TokenKindV::Semicolon),
                    ),
                ),
            },
        },
    }
}

/// A method of a trait: its body may be a semicolon.
#[verifier::opaque]
pub open spec fn g_trait_method(i: Input, p: int) -> Parsed<FunctionV>
{
    let span = span_of(i, p);
    match g_ident(i, skip(i, p, TokenKindV::Func)) {
        Err(e) => Err(e),
        Ok((name, q)) => match g_generic_params(i, q) {
            Err(e) => Err(e),
            Ok((generics, r)) => match g_params(i, skip(i, r, TokenKindV::LParen)) {
                Err(e) => Err(e),
                Ok((params, s)) => match g_return_type(i, s) {
                    Err(e) => Err(e),
                    Ok((return_type, t)) => if kind_at(i, t) is LBrace {
                        match g_block(i, t) {
                            Err(e) => Err(e),
                            Ok((body, u)) => Ok(
                                (
                                    FunctionV {
                                        name,
                                        generics,
                                        params,
                                        return_type,
                                        body,
                                        is_pub: false,
                                        span,
                                    },
                                    u,
                                ),
                            ),
                        }
                    } else {
                        Ok(
                            (
                                FunctionV {
                                    name,
                                    generics,
                                    params,
                                    return_type,
                                    body: BlockV { stmts: Seq::empty(), span },
                                    is_pub: false,
                                    span,
                                },
                                skip(i, t, TokenKindV::Semicolon),
                            ),
                        )
                    },
                },
            },
        },
    }
}

#[verifier::opaque]
pub open spec fn g_trait_methods(i: Input, p: int, acc: Seq<FunctionV>) -> Parsed<Seq<FunctionV>>
    decreases i.toks.len() - p,
{
    if ends_list(i, p) {
        Ok((acc, p))
    } else {
        match step(i, p, g_trait_method(i, p)) {
            Err(e) => Err(e),
            Ok((f, q)) => g_trait_methods(i, q, acc.push(f)),
        }
    }
}

/// `as Name`, or nothing.
#[verifier::opaque]
pub open spec fn g_alias(i: Input, p: int) -> Parsed<Option<Seq<char>>>
{
    if kind_at(i, p) is As {
        match g_ident(i, p + 1) {
            Err(e) => Err(e),
            Ok((s, q)) => Ok((Some(s), q)),
        }
    } else {
        Ok((None, p))
    }
}

#[verifier::opaque]
pub open spec fn g_trait(i: Input, p: int) -> Parsed<TraitDefV>
{
    match g_ident(i, p + 1) {
        Err(e) => Err(e),
        Ok((name, q)) => match g_generic_params(i, q) {
            Err(e) => Err(e),
            Ok((generics, r)) => match g_alias(i, r) {
                Err(e) => Err(e),
                Ok((self_alias, s)) => match g_trait_methods(
                    i,
                    skip(i, s, TokenKindV::LBrace),
                    Seq::empty(),
                ) {
                    Err(e) => Err(e),
                    Ok((methods, t)) => Ok(
                        (
                            TraitDefV { name, generics, self_alias, methods, span: span_of(i, p) },
                            skip(i, t, TokenKindV::RBrace),
                        ),
                    ),
                },
            },
        },
    }
}

#[verifier::opaque]
pub open spec fn g_methods(i: Input, p: int, acc: Seq<FunctionV>) -> Parsed<Seq<FunctionV>>
    decreases i.toks.len() - p,
{
    if ends_list(i, p) {
        Ok((acc, p))
    } else {
        match step(i, p, g_function(i, p, false)) {
            Err(e) => Err(e),
            Ok((f, q)) => g_methods(i, q, acc.push(f)),
        }
    }
}

#[verifier::opaque]
pub open spec fn g_impl(i: Input, p: int) -> Parsed<ImplBlockV>
{
    match g_ident(i, p + 1) {
        Err(e) => Err(e),
        Ok((trait_name, q)) => match g_generic_params(i, q) {
            Err(e) => Err(e),
            Ok((generics, r)) => match g_type(i, skip(i, r, TokenKindV::For)) {
                Err(e) => Err(e),
                Ok((target_type, s)) => match g_methods(
                    i,
                    skip(i, s, TokenKindV::LBrace),
                    Seq::empty(),
                ) {
                    Err(e) => Err(e),
                    Ok((methods, t)) => Ok(
                        (
                            ImplBlockV {
                                trait_name,
                                generics,
                                target_type,
                                methods,
                                span: span_of(i, p),
                            },
                            skip(i, t, TokenKindV::RBrace),
                        ),
                    ),
                },
            },
        },
    }
}

/// `= value`, or nothing.
#[verifier::opaque]
pub open spec fn g_init(i: Input, p: int) -> Parsed<Option<ExprV>>
{
    if kind_at(i, p) is Eq {
        match g_expr(i, p + 1) {
            Err(e) => Err(e),
            Ok((e, q)) => Ok((Some(e), q)),
        }
    } else {
        Ok((None, p))
    }
}

#[verifier::opaque]
pub open spec fn g_var_decl(i: Input, p: int) -> Parsed<VarDeclV>
{
    match g_ident(i, p + 1) {
        Err(e) => Err(e),
        Ok((name, q)) => match g_opt_type(i, q) {
            Err(e) => Err(e),
            Ok((ty, r)) => match g_init(i, r) {
                Err(e) => Err(e),
                Ok((value, s)) => Ok(
                    (
                        VarDeclV {
                            name,
                            ty,
                            value,
                            is_mut: kind_at(i, p) is Var,
                            span: span_of(i, p),
                        },
                        skip(i, s, TokenKindV::Semicolon),
                    ),
                ),
            },
        },
    }
}

/// The names of the parameters of a macro, with commas that may be left out.
#[verifier::opaque]
pub open spec fn g_macro_params(i: Input, p: int, acc: Seq<Seq<char>>) -> Parsed<Seq<Seq<char>>>
    decreases i.toks.len() - p,
{
    if kind_at(i, p) is RParen || kind_at(i, p) is Eof {
        Ok((acc, p))
    } else {
        match step(i, p, g_ident(i, p)) {
            Err(e) => Err(e),
            Ok((name, q)) => g_macro_params(i, skip(i, q, TokenKindV::Comma), acc.push(name)),
        }
    }
}

#[verifier::opaque]
pub open spec fn g_macro_def(i: Input, p: int) -> Parsed<MacroDefV>
{
    let span = span_of(i, p);
    match g_ident(i, p + 1) {
        Err(e) => Err(e),
        Ok((name, q)) => match g_macro_params(i, skip(i, q, TokenKindV::LParen), Seq::empty()) {
            Err(e) => Err(e),
            Ok((params, r)) => {
                let r1 = skip(i, r, TokenKindV::RParen);
                if kind_at(i, r1) is FatArrow {
                    match g_expr(i, r1 + 1) {
                        Err(e) => Err(e),
                        Ok((body, s)) => Ok(
                            (MacroDefV { name, params, body: Box::new(body), span }, s),
                        ),
                    }
                } else {
                    match g_block(i, r1) {
                        Err(e) => Err(e),
                        Ok((b, s)) => Ok(
                            (
                                MacroDefV {
                                    name,
                                    params,
                                    body: Box::new(block_expr(b.stmts, span)),
                                    span,
                                },
                                s,
                            ),
                        ),
                    }
                }
            },
        },
    }
}

// ------------------------------------------------------------------------- modules

/// One argument of `@import`: `name => alias` reads as `name = alias`.
#[verifier::opaque]
pub open spec fn g_import_arg(i: Input, p: int) -> Parsed<ExprV>
{
    match step(i, p, g_expr(i, p)) {
        Err(e) => Err(e),
        Ok((left, q)) => if kind_at(i, q) is FatArrow {
            match step(i, q, g_expr(i, q + 1)) {
                Err(e) => Err(e),
                Ok((right, r)) => Ok(
                    (
                        ExprV {
                            kind: ExprKindV::Assign {
                                target: Box::new(left),
                                value: Box::new(right),
                            },
                            span: merge_spans(left.span, right.span),
                        },
                        r,
                    ),
                ),
            }
        } else {
            Ok((left, q))
        },
    }
}

/// Arguments of `@import` with commas between them, behind those of `acc`.
#[verifier::opaque]
pub open spec fn g_import_args(i: Input, p: int, acc: Seq<ExprV>) -> Parsed<Seq<ExprV>>
    decreases i.toks.len() - p,
{
    match step(i, p, g_import_arg(i, p)) {
        Err(e) => Err(e),
        Ok((e, q)) => if kind_at(i, q) is Comma {
            g_import_args(i, q + 1, acc.push(e))
        } else {
            Ok((acc.push(e), skip(i, q, TokenKindV::RParen)))
        },
    }
}

/// The name behind an `@` at module level.
#[verifier::opaque]
pub open spec fn g_macro_name(i: Input, p: int) -> Parsed<Seq<char>>
{
    if kind_at(i, p) is Import {
        Ok(("import"@, p + 1))
    } else {
        g_ident(i, p)
    }
}

/// The arguments of a macro call at module level: a list in parentheses, or one expression.
#[verifier::opaque]
pub open spec fn g_item_args(i: Input, p: int, import: bool) -> Parsed<Seq<ExprV>>
{
    if kind_at(i, p) is LParen {
        if import && !(kind_at(i, p + 1) is RParen) {
            g_import_args(i, p + 1, Seq::empty())
        } else {
            g_call_args(i, p)
        }
    } else {
        match g_expr(i, p) {
            Err(e) => Err(e),
            Ok((e, q)) => Ok((seq![e], q)),
        }
    }
}

#[verifier::opaque]
pub open spec fn g_macro_item(i: Input, p: int) -> Parsed<MacroCallItemV>
{
    match g_macro_name(i, p + 1) {
        Err(e) => Err(e),
        Ok((name, q)) => match g_item_args(i, q, kind_at(i, p + 1) is Import) {
            Err(e) => Err(e),
            Ok((args, r)) => Ok((MacroCallItemV { name, args, span: span_of(i, p) }, r)),
        },
    }
}

#[verifier::opaque]
pub open spec fn g_item(i: Input, p0: int) -> Parsed<ItemV>
{
    let is_pub = kind_at(i, p0) is Pub;
    let p = skip(i, p0, TokenKindV::Pub);
    match kind_at(i, p) {
        TokenKindV::Func => match g_function(i, p, is_pub) {
            Err(e) => Err(e),
            Ok((x, q)) => Ok((ItemV::Function(x), q)),
        },
        TokenKindV::Struct => match g_struct(i, p, is_pub) {
            Err(e) => Err(e),
            Ok((x, q)) => Ok((ItemV::Struct(x), q)),
        },
        TokenKindV::Enum => match g_enum(i, p, is_pub) {
            Err(e) => Err(e),
            Ok((x, q)) => Ok((ItemV::Enum(x), q)),
        },
        TokenKindV::Macro => match g_macro_def(i, p) {
            Err(e) => Err(e),
            Ok((x, q)) => Ok((ItemV::Macro(x), q)),
        },
        TokenKindV::Trait => match g_trait(i, p) {
            Err(e) => Err(e),
            Ok((x, q)) => Ok((ItemV::Trait(x), q)),
        },
        TokenKindV::Impl => match g_impl(i, p) {
            Err(e) => Err(e),
            Ok((x, q)) => Ok((ItemV::Impl(x), q)),
        },
        TokenKindV::Type => match g_type_alias(i, p) {
            Err(e) => Err(e),
            Ok((x, q)) => Ok((ItemV::TypeAlias(x), q)),
        },
        TokenKindV::Let | TokenKindV::Var => match g_var_decl(i, p) {
            Err(e) => Err(e),
            Ok((x, q)) => Ok((ItemV::VarDecl(x), q)),
        },
        TokenKindV::At => match g_macro_item(i, p) {
            Err(e) => Err(e),
            Ok((x, q)) => Ok((ItemV::MacroCall(x), q)),
        },
        k => Err(
            parse_error("Expected declaration, got '"@ + kind_text(k) + "'"@, span_of(i, p)),
        ),
    }
}

/// The names of a module path with dots between them, behind those of `acc`.
#[verifier::opaque]
pub open spec fn g_import_path(i: Input, p: int, acc: Seq<Seq<char>>) -> (Seq<Seq<char>>, int)
    decreases i.toks.len() - p,
{
    if let TokenKindV::Ident(s) = kind_at(i, p) {
        if kind_at(i, p + 1) is Dot {
            g_import_path(i, p + 2, acc.push(s))
        } else {
            (acc.push(s), p + 1)
        }
    } else {
        (acc, p)
    }
}

#[verifier::opaque]
pub open spec fn g_import_items(i: Input, p: int, acc: Seq<ImportItemV>) -> Parsed<
    Seq<ImportItemV>,
>
    decreases i.toks.len() - p,
{
    if ends_list(i, p) {
        Ok((acc, p))
    } else {
        match step(i, p, g_ident(i, p)) {
            Err(e) => Err(e),
            Ok((name, q)) => match stay(i, q, g_alias(i, q)) {
                Err(e) => Err(e),
                Ok((alias, r)) => g_import_items(
                    i,
                    skip(i, r, TokenKindV::Comma),
                    acc.push(ImportItemV::Single { name, alias }),
                ),
            },
        }
    }
}

#[verifier::opaque]
pub open spec fn g_import(i: Input, p: int) -> Parsed<ImportV>
{
    let (path, q) = g_import_path(i, p + 1, Seq::empty());
    if kind_at(i, q) is LBrace {
        match g_import_items(i, q + 1, Seq::empty()) {
            Err(e) => Err(e),
            Ok((items, r)) => {
                let r1 = skip(i, r, TokenKindV::RBrace);
                Ok(
                    (
                        ImportV { path, items, span: span_of(i, p) },
                        skip(i, r1, TokenKindV::Semicolon),
                    ),
                )
            },
        }
    } else {
        Ok(
            (
                ImportV { path, items: seq![ImportItemV::All], span: span_of(i, p) },
                skip(i, q, TokenKindV::Semicolon),
            ),
        )
    }
}

/// Behind the declaration `module name;`, if there is one.
pub open spec fn module_start(i: Input, p: int) -> int {
    if kind_at(i, p) is Module {
        if kind_at(i, p + 1) is Ident {
            skip(i, p + 2, TokenKindV::Semicolon)
        } else {
            p + 1
        }
    } else {
        p
    }
}

/// Imports and items up to the end of file, behind those given.
#[verifier::opaque]
pub open spec fn g_items(
    i: Input,
    p: int,
    imports: Seq<ImportV>,
    items: Seq<ItemV>,
) -> Result<(Seq<ImportV>, Seq<ItemV>), CompileErrorV>
    decreases i.toks.len() - p,
{
    if kind_at(i, p) is Eof {
        Ok((imports, items))
    } else if kind_at(i, p) is Import {
        match step(i, p, g_import(i, p)) {
            Err(e) => Err(e),
            Ok((x, q)) => g_items(i, q, imports.push(x), items),
        }
    } else {
        match step(i, p, g_item(i, p)) {
            Err(e) => Err(e),
            Ok((x, q)) => g_items(i, q, imports, items.push(x)),
        }
    }
}

/// The module that the tokens from `p` on make.
#[verifier::opaque]
pub open spec fn g_module(i: Input, p: int, name: Seq<char>) -> Result<ModuleV, CompileErrorV>
{
    match g_items(i, module_start(i, p), Seq::empty(), Seq::empty()) {
        Err(e) => Err(e),
        Ok((imports, items)) => Ok(ModuleV { name, imports, items }),
    }
}

} // verus!
