//! Each rule of the grammar as an equation, so that a proof can use one without
//! unfolding the others.
use vstd::prelude::*;
use crate::ast::UnaryOp;
use crate::model::{
    BlockV, EnumCaseV, ExprKindV, ExprV, FunctionTypeV, FunctionV, GenericParamV, ImportItemV,
    ImportV, ItemV, MatchArmV, ParamV, PathSegmentV, PathV, PatternKindV, PatternV, StructFieldV,
    TypeV,
};
use crate::grammar::{CppMode, Input, Parsed};
use crate::token::{Span, TokenKindV};

verus! {

use crate::ast::{binary_expr, block_expr, call_expr, ident_expr};
use crate::error::parse_error;
use crate::text::is_uppercase;
use crate::token::{kind_text, merge_spans, zero_span};

use crate::grammar::{
    assign_op, cpp_text, ends_list, find_brace, g_alias, g_arms, g_at, g_at_rest, g_binary,
    g_binary_rest, g_block, g_block_body, g_call_args, g_case, g_cases, g_dollar, g_expr, g_exprs,
    g_field_inits, g_field_patterns, g_for, g_function, g_generic_args, g_generic_names,
    g_generic_params, g_guard, g_ident, g_if, g_import, g_import_arg, g_import_args, g_import_items,
    g_import_path, g_inits, g_item, g_items, g_let, g_macro_params, g_match, g_methods, g_name,
    g_opt_type, g_param, g_param_list, g_params, g_paren, g_path_rest, g_pattern, g_payload,
    g_postfix, g_postfix_rest, g_primary, g_quote, g_return_type, g_segments, g_stmts,
    g_struct_fields, g_trait_method, g_trait_methods, g_type, g_type_args, g_types, g_unary,
    g_while, kind_at, literal_expr, literal_pattern, no_rule, op_of_level, path_colon,
    segment_names, skip, skip_braces, span_of, splice_of, starts_name, stay, step,
};

pub proof fn un_path_rest(i: Input, p: int, acc: Seq<Seq<char>>)
    ensures
        g_path_rest(i, p, acc) == ({
        match step(i, p, g_ident(i, p)) {
            Err(e) => Err(e),
            Ok((name, q)) => if path_colon(i, q) {
                g_path_rest(i, q + 2, acc.push(name))
            } else {
                Ok((acc.push(name), q))
            },
        }
        }),
{
    reveal(g_path_rest);
}

pub proof fn un_generic_names(i: Input, p: int, acc: Seq<GenericParamV>)
    ensures
        g_generic_names(i, p, acc) == ({
        match step(i, p, g_ident(i, p)) {
            Err(e) => Err(e),
            Ok((name, q)) => {
                let acc1 = acc.push(GenericParamV { name, span: span_of(i, q) });
                if kind_at(i, q) is RBracket {
                    Ok((acc1, q + 1))
                } else {
                    g_generic_names(i, skip(i, q, TokenKindV::Comma), acc1)
                }
            },
        }
        }),
{
    reveal(g_generic_names);
}

pub proof fn un_type(i: Input, p: int)
    ensures
        g_type(i, p) == ({
        if kind_at(i, p) is At {
            match step(i, p, g_type(i, p + 1)) {
                Err(e) => Err(e),
                Ok((t, q)) => Ok((TypeV::GcRef(Box::new(t)), q)),
            }
        } else if kind_at(i, p) is LParen {
            let list: Parsed<Seq<TypeV>> = if kind_at(i, p + 1) is RParen {
                Ok((Seq::empty(), p + 1))
            } else {
                g_types(i, p + 1, Seq::empty())
            };
            match step(i, p, list) {
                Err(e) => Err(e),
                Ok((params, q)) => {
                    let q1 = skip(i, q, TokenKindV::RParen);
                    if kind_at(i, q1) is Arrow {
                        match step(i, q1, g_type(i, q1 + 1)) {
                            Err(e) => Err(e),
                            Ok((ret, r)) => Ok(
                                (TypeV::Function(FunctionTypeV { params, ret: Box::new(ret) }), r),
                            ),
                        }
                    } else if params.len() == 1 {
                        Ok((params[0], q1))
                    } else if params.len() == 0 {
                        Ok((TypeV::Unit, q1))
                    } else {
                        Ok((TypeV::Tuple(params), q1))
                    }
                },
            }
        } else {
            match g_segments(i, p, Seq::empty()) {
                Err(e) => Err(e),
                Ok((segments, q)) => Ok((TypeV::Path(PathV { segments }), q)),
            }
        }
        }),
{
    reveal(g_segments);
    reveal(g_type);
    reveal(g_types);
}

pub proof fn un_types(i: Input, p: int, acc: Seq<TypeV>)
    ensures
        g_types(i, p, acc) == ({
        match step(i, p, g_type(i, p)) {
            Err(e) => Err(e),
            Ok((t, q)) => if kind_at(i, q) is Comma {
                g_types(i, q + 1, acc.push(t))
            } else {
                Ok((acc.push(t), q))
            },
        }
        }),
{
    reveal(g_type);
    reveal(g_types);
}

pub proof fn un_segments(i: Input, p: int, acc: Seq<PathSegmentV>)
    ensures
        g_segments(i, p, acc) == ({
        match step(i, p, g_ident(i, p)) {
            Err(e) => Err(e),
            Ok((name, p1)) => match stay(i, p1, g_generic_args(i, p1)) {
                Err(e) => Err(e),
                Ok((args, q)) => {
                    let acc1 = acc.push(PathSegmentV { name, args });
                    if path_colon(i, q) {
                        g_segments(i, q + 2, acc1)
                    } else {
                        Ok((acc1, q))
                    }
                },
            },
        }
        }),
{
    reveal(g_generic_args);
    reveal(g_segments);
}

pub proof fn un_generic_args(i: Input, p: int)
    ensures
        g_generic_args(i, p) == ({
        if kind_at(i, p) is LBracket {
            g_type_args(i, p + 1, Seq::empty())
        } else {
            Ok((Seq::empty(), p))
        }
        }),
{
    reveal(g_generic_args);
    reveal(g_type_args);
}

pub proof fn un_type_args(i: Input, p: int, acc: Seq<TypeV>)
    ensures
        g_type_args(i, p, acc) == ({
        match step(i, p, g_type(i, p)) {
            Err(e) => Err(e),
            Ok((t, q)) => if kind_at(i, q) is RBracket {
                Ok((acc.push(t), q + 1))
            } else {
                g_type_args(i, skip(i, q, TokenKindV::Comma), acc.push(t))
            },
        }
        }),
{
    reveal(g_type);
    reveal(g_type_args);
}

pub proof fn un_pattern(i: Input, p: int)
    ensures
        g_pattern(i, p) == ({
        let span = span_of(i, p);
        let k = kind_at(i, p);
        if let Some(lit) = literal_pattern(k) {
            Ok((PatternV { kind: PatternKindV::Literal(lit), span }, p + 1))
        } else if k is Underscore {
            Ok((PatternV { kind: PatternKindV::Wildcard, span }, p + 1))
        } else if k is Dot {
            match step(i, p, g_ident(i, p + 1)) {
                Err(e) => Err(e),
                Ok((case, q)) => if kind_at(i, q) is LParen {
                    match step(i, q, g_pattern(i, q + 1)) {
                        Err(e) => Err(e),
                        Ok((inner, r)) => Ok(
                            (
                                PatternV {
                                    kind: PatternKindV::EnumCtor {
                                        path: Seq::empty(),
                                        case,
                                        inner: Some(Box::new(inner)),
                                    },
                                    span,
                                },
                                skip(i, r, TokenKindV::RParen),
                            ),
                        ),
                    }
                } else {
                    Ok(
                        (
                            PatternV {
                                kind: PatternKindV::EnumCtor {
                                    path: Seq::empty(),
                                    case,
                                    inner: None,
                                },
                                span,
                            },
                            q,
                        ),
                    )
                },
            }
        } else if k is Let || k is Var {
            match step(i, p, g_ident(i, p + 1)) {
                Err(e) => Err(e),
                Ok((name, q)) => Ok(
                    (PatternV { kind: PatternKindV::Variable { name, is_mut: k is Var }, span }, q),
                ),
            }
        } else if let TokenKindV::Ident(name) = k {
            if kind_at(i, p + 1) is LBrace {
                match g_field_patterns(i, p + 2, Seq::empty()) {
                    Err(e) => Err(e),
                    Ok((fields, q)) => Ok(
                        (
                            PatternV {
                                kind: PatternKindV::Struct { path: seq![name], fields },
                                span,
                            },
                            skip(i, q, TokenKindV::RBrace),
                        ),
                    ),
                }
            } else if path_colon(i, p + 1) {
                match g_path_rest(i, p + 3, seq![name]) {
                    Err(e) => Err(e),
                    Ok((path, q)) => Ok(
                        (
                            PatternV {
                                kind: PatternKindV::EnumCtor {
                                    path,
                                    case: Seq::empty(),
                                    inner: None,
                                },
                                span,
                            },
                            q,
                        ),
                    ),
                }
            } else {
                Ok((PatternV { kind: PatternKindV::Variable { name, is_mut: false }, span }, p + 1))
            }
        } else {
            Err(parse_error("Expected pattern, got '"@ + kind_text(k) + "'"@, span))
        }
        }),
{
    reveal(g_field_patterns);
    reveal(g_path_rest);
    reveal(g_pattern);
}

pub proof fn un_field_patterns(i: Input, p: int, acc: Seq<(Seq<char>, PatternV)>)
    ensures
        g_field_patterns(i, p, acc) == ({
        if kind_at(i, p) is RBrace {
            Ok((acc, p))
        } else {
            match step(i, p, g_ident(i, p)) {
                Err(e) => Err(e),
                Ok((name, q)) => {
                    let q1 = skip(i, q, TokenKindV::Colon);
                    match step(i, q1, g_pattern(i, q1)) {
                        Err(e) => Err(e),
                        Ok((pat, r)) => g_field_patterns(
                            i,
                            skip(i, r, TokenKindV::Comma),
                            acc.push((name, pat)),
                        ),
                    }
                },
            }
        }
        }),
{
    reveal(g_field_patterns);
    reveal(g_pattern);
}

pub proof fn un_expr(i: Input, p: int)
    ensures
        g_expr(i, p) == ({
        match step(i, p, g_binary(i, p, 0)) {
            Err(e) => Err(e),
            Ok((left, q)) => {
                let k = kind_at(i, q);
                if k is Eq {
                    match step(i, q, g_expr(i, q + 1)) {
                        Err(e) => Err(e),
                        Ok((right, r)) => Ok(
                            (
                                ExprV {
                                    kind: ExprKindV::Assign {
                                        target: Box::new(left),
                                        value: Box::new(right),
                                    },
                                    span: merge_spans(left.span, right.span),
                                },
                                r,
                            ),
                        ),
                    }
                } else if let Some(op) = assign_op(k) {
                    match step(i, q, g_expr(i, q + 1)) {
                        Err(e) => Err(e),
                        Ok((right, r)) => Ok(
                            (
                                ExprV {
                                    kind: ExprKindV::AssignOp {
                                        target: Box::new(left),
                                        op,
                                        value: Box::new(right),
                                    },
                                    span: merge_spans(left.span, right.span),
                                },
                                r,
                            ),
                        ),
                    }
                } else {
                    Ok((left, q))
                }
            },
        }
        }),
{
    reveal(g_binary);
    reveal(g_expr);
}

pub proof fn un_binary(i: Input, p: int, level: int)
    ensures
        g_binary(i, p, level) == ({
        if level < 0 || level > 4 {
            no_rule()
        } else {
            let first = if level == 4 {
                g_unary(i, p)
            } else {
                g_binary(i, p, level + 1)
            };
            match step(i, p, first) {
                Err(e) => Err(e),
                Ok((left, q)) => g_binary_rest(i, q, level, left),
            }
        }
        }),
{
    reveal(g_binary);
    reveal(g_binary_rest);
    reveal(g_unary);
}

pub proof fn un_binary_rest(i: Input, p: int, level: int, left: ExprV)
    ensures
        g_binary_rest(i, p, level, left) == ({
        if level < 0 || level > 4 {
            no_rule()
        } else {
            match op_of_level(level, kind_at(i, p)) {
                None => Ok((left, p)),
                Some(op) => {
                    let next = if level == 4 {
                        g_unary(i, p + 1)
                    } else {
                        g_binary(i, p + 1, level + 1)
                    };
                    match step(i, p, next) {
                        Err(e) => Err(e),
                        Ok((right, q)) => g_binary_rest(
                            i,
                            q,
                            level,
                            binary_expr(left, op, right, merge_spans(left.span, right.span)),
                        ),
                    }
                },
            }
        }
        }),
{
    reveal(g_binary);
    reveal(g_binary_rest);
    reveal(g_unary);
}

pub proof fn un_unary(i: Input, p: int)
    ensures
        g_unary(i, p) == ({
        if kind_at(i, p) is Minus || kind_at(i, p) is Not {
            match step(i, p, g_unary(i, p + 1)) {
                Err(e) => Err(e),
                Ok((e, q)) => Ok(
                    (
                        ExprV {
                            kind: ExprKindV::Unary {
                                op: if kind_at(i, p) is Minus {
                                    UnaryOp::Neg
                                } else {
                                    UnaryOp::Not
                                },
                                expr: Box::new(e),
                            },
                            span: merge_spans(span_of(i, p), e.span),
                        },
                        q,
                    ),
                ),
            }
        } else {
            g_postfix(i, p)
        }
        }),
{
    reveal(g_postfix);
    reveal(g_unary);
}

pub proof fn un_postfix(i: Input, p: int)
    ensures
        g_postfix(i, p) == ({
        match step(i, p, g_primary(i, p)) {
            Err(e) => Err(e),
            Ok((e, q)) => g_postfix_rest(i, q, e),
        }
        }),
{
    reveal(g_postfix);
    reveal(g_postfix_rest);
    reveal(g_primary);
}

pub proof fn un_postfix_rest(i: Input, p: int, e: ExprV)
    ensures
        g_postfix_rest(i, p, e) == ({
        let k = kind_at(i, p);
        if k is Dot {
            match step(i, p, g_ident(i, p + 1)) {
                Err(err) => Err(err),
                Ok((field, q)) => if kind_at(i, q) is LParen {
                    match step(i, q, g_call_args(i, q)) {
                        Err(err) => Err(err),
                        Ok((args, r)) => g_postfix_rest(
                            i,
                            r,
                            call_expr(ident_expr(field, e.span), seq![e] + args, e.span),
                        ),
                    }
                } else {
                    g_postfix_rest(
                        i,
                        q,
                        ExprV {
                            kind: ExprKindV::DotAccess { object: Box::new(e), field },
                            span: e.span,
                        },
                    )
                },
            }
        } else if k is LParen {
            match step(i, p, g_call_args(i, p)) {
                Err(err) => Err(err),
                Ok((args, q)) => g_postfix_rest(i, q, call_expr(e, args, e.span)),
            }
        } else if k is LBracket {
            match step(i, p, g_expr(i, p + 1)) {
                Err(err) => Err(err),
                Ok((index, q)) => g_postfix_rest(
                    i,
                    skip(i, q, TokenKindV::RBracket),
                    ExprV {
                        kind: ExprKindV::Index { object: Box::new(e), index: Box::new(index) },
                        span: e.span,
                    },
                ),
            }
        } else if path_colon(i, p) {
            match step(i, p, g_ident(i, p + 2)) {
                Err(err) => Err(err),
                Ok((rest, q)) => match e.kind {
                    ExprKindV::Ident(name) => g_postfix_rest(
                        i,
                        q,
                        ExprV { kind: ExprKindV::Path(seq![name, rest]), span: e.span },
                    ),
                    ExprKindV::Path(segments) => g_postfix_rest(
                        i,
                        q,
                        ExprV { kind: ExprKindV::Path(segments.push(rest)), span: e.span },
                    ),
                    _ => Err(parse_error("Invalid path expression"@, e.span)),
                },
            }
        } else {
            Ok((e, p))
        }
        }),
{
    reveal(g_call_args);
    reveal(g_expr);
    reveal(g_postfix_rest);
}

pub proof fn un_exprs(i: Input, p: int, acc: Seq<ExprV>)
    ensures
        g_exprs(i, p, acc) == ({
        match step(i, p, g_expr(i, p)) {
            Err(e) => Err(e),
            Ok((e, q)) => if kind_at(i, q) is Comma {
                g_exprs(i, q + 1, acc.push(e))
            } else {
                Ok((acc.push(e), q))
            },
        }
        }),
{
    reveal(g_expr);
    reveal(g_exprs);
}

pub proof fn un_call_args(i: Input, p: int)
    ensures
        g_call_args(i, p) == ({
        if !(kind_at(i, p) is LParen) {
            no_rule()
        } else if kind_at(i, p + 1) is RParen {
            Ok((Seq::empty(), p + 2))
        } else {
            match step(i, p, g_exprs(i, p + 1, Seq::empty())) {
                Err(e) => Err(e),
                Ok((args, q)) => Ok((args, skip(i, q, TokenKindV::RParen))),
            }
        }
        }),
{
    reveal(g_call_args);
    reveal(g_exprs);
}

pub proof fn un_primary(i: Input, p: int)
    ensures
        g_primary(i, p) == ({
        let span = span_of(i, p);
        let k = kind_at(i, p);
        if let Some(kind) = literal_expr(k) {
            Ok((ExprV { kind, span }, p + 1))
        } else if k is Quote {
            g_quote(i, p)
        } else if k is Dot {
            g_case(i, p)
        } else if starts_name(k) {
            g_name(i, p)
        } else if k is At {
            g_at(i, p)
        } else if k is Dollar {
            g_dollar(i, p)
        } else if k is LBrace {
            match step(i, p, g_block_body(i, span, p + 1)) {
                Err(e) => Err(e),
                Ok((b, q)) => Ok((block_expr(b.stmts, span), q)),
            }
        } else if k is LParen {
            g_paren(i, p)
        } else if k is If {
            g_if(i, p)
        } else if k is Match {
            g_match(i, p)
        } else if k is While {
            g_while(i, p)
        } else if k is For {
            g_for(i, p)
        } else if k is Return {
            if kind_at(i, p + 1) is Semicolon || kind_at(i, p + 1) is RBrace {
                Ok((ExprV { kind: ExprKindV::Return(None), span }, p + 1))
            } else {
                match step(i, p, g_expr(i, p + 1)) {
                    Err(e) => Err(e),
                    Ok((e, q)) => Ok(
                        (ExprV { kind: ExprKindV::Return(Some(Box::new(e))), span }, q),
                    ),
                }
            }
        } else if k is Let || k is Var {
            g_let(i, p)
        } else if k is Func {
            match step(i, p, g_function(i, p, false)) {
                Err(e) => Err(e),
                Ok((f, q)) => Ok((ExprV { kind: ExprKindV::FuncDef(f), span }, q)),
            }
        } else if k is Tilde {
            match step(i, p, g_ident(i, p + 1)) {
                Err(e) => Err(e),
                Ok((name, q)) => {
                    let q1 = skip(i, q, TokenKindV::Colon);
                    match step(i, q1, g_expr(i, q1)) {
                        Err(e) => Err(e),
                        Ok((value, r)) => Ok(
                            (
                                ExprV {
                                    kind: ExprKindV::NamedArg { name, value: Box::new(value) },
                                    span,
                                },
                                r,
                            ),
                        ),
                    }
                },
            }
        } else {
            Err(parse_error("Unexpected token: "@ + kind_text(k), span))
        }
        }),
{
    reveal(g_at);
    reveal(g_block_body);
    reveal(g_case);
    reveal(g_dollar);
    reveal(g_expr);
    reveal(g_for);
    reveal(g_function);
    reveal(g_if);
    reveal(g_let);
    reveal(g_match);
    reveal(g_name);
    reveal(g_paren);
    reveal(g_primary);
    reveal(g_quote);
    reveal(g_while);
}

pub proof fn un_case(i: Input, p: int)
    ensures
        g_case(i, p) == ({
        match step(i, p, g_ident(i, p + 1)) {
            Err(e) => Err(e),
            Ok((case, q)) => if kind_at(i, q) is LParen {
                match step(i, q, g_expr(i, q + 1)) {
                    Err(e) => Err(e),
                    Ok((inner, r)) => Ok(
                        (
                            ExprV {
                                kind: ExprKindV::EnumCtor {
                                    path: Seq::empty(),
                                    case,
                                    arg: Some(Box::new(inner)),
                                },
                                span: span_of(i, p),
                            },
                            skip(i, r, TokenKindV::RParen),
                        ),
                    ),
                }
            } else {
                Ok(
                    (
                        ExprV {
                            kind: ExprKindV::EnumCtor { path: Seq::empty(), case, arg: None },
                            span: span_of(i, p),
                        },
                        q,
                    ),
                )
            },
        }
        }),
{
    reveal(g_case);
    reveal(g_expr);
}

pub proof fn un_name(i: Input, p: int)
    ensures
        g_name(i, p) == ({
        let span = span_of(i, p);
        let name = kind_text(kind_at(i, p));
        if path_colon(i, p + 1) {
            match g_path_rest(i, p + 3, seq![name]) {
                Err(e) => Err(e),
                Ok((segments, q)) => Ok((ExprV { kind: ExprKindV::Path(segments), span }, q)),
            }
        } else if kind_at(i, p + 1) is LBrace && name.len() > 0 && is_uppercase(name[0]) {
            match g_field_inits(i, p + 1) {
                Err(e) => Err(e),
                Ok((fields, q)) => Ok(
                    (ExprV { kind: ExprKindV::StructLit { path: seq![name], fields }, span }, q),
                ),
            }
        } else {
            Ok((ident_expr(name, span), p + 1))
        }
        }),
{
    reveal(g_field_inits);
    reveal(g_name);
    reveal(g_path_rest);
}

pub proof fn un_field_inits(i: Input, p: int)
    ensures
        g_field_inits(i, p) == ({
        let p1 = skip(i, p, TokenKindV::LBrace);
        match g_inits(i, p1, Seq::empty()) {
            Err(e) => Err(e),
            Ok((fields, q)) => Ok((fields, skip(i, q, TokenKindV::RBrace))),
        }
        }),
{
    reveal(g_field_inits);
    reveal(g_inits);
}

pub proof fn un_inits(i: Input, p: int, acc: Seq<(Seq<char>, ExprV)>)
    ensures
        g_inits(i, p, acc) == ({
        if ends_list(i, p) {
            Ok((acc, p))
        } else {
            match step(i, p, g_ident(i, p)) {
                Err(e) => Err(e),
                Ok((name, q)) => {
                    let q1 = skip(i, q, TokenKindV::Colon);
                    match step(i, q1, g_expr(i, q1)) {
                        Err(e) => Err(e),
                        Ok((value, r)) => g_inits(
                            i,
                            skip(i, r, TokenKindV::Comma),
                            acc.push((name, value)),
                        ),
                    }
                },
            }
        }
        }),
{
    reveal(g_expr);
    reveal(g_inits);
}

pub proof fn un_at(i: Input, p: int)
    ensures
        g_at(i, p) == ({
        if !(kind_at(i, p) is At) {
            no_rule()
        } else {
            let span = span_of(i, p);
            if kind_at(i, p + 1) == TokenKindV::Ident("cpp"@) {
                match find_brace(i.src, span_of(i, p + 2).start as int) {
                    Some(open) => match cpp_text(i.src, open + 1, 1, CppMode::Code, Seq::empty()) {
                        Some(raw) => Ok(
                            (
                                ExprV { kind: ExprKindV::CppBlock(raw), span },
                                skip_braces(i, p + 2, 0),
                            ),
                        ),
                        None => Err(
                            parse_error("Unterminated cpp block — missing '}'"@, zero_span()),
                        ),
                    },
                    None => g_at_rest(i, p + 2, span),
                }
            } else {
                g_at_rest(i, p + 1, span)
            }
        }
        }),
{
    reveal(g_at);
    reveal(g_at_rest);
}

pub proof fn un_at_rest(i: Input, p: int, span: Span)
    ensures
        g_at_rest(i, p, span) == ({
        if let TokenKindV::Ident(name) = kind_at(i, p) {
            if kind_at(i, p + 1) is LBrace {
                match step(i, p, g_type(i, p)) {
                    Err(e) => Err(e),
                    Ok((ty, q)) => match g_field_inits(i, q) {
                        Err(e) => Err(e),
                        Ok((fields, r)) => Ok(
                            (ExprV { kind: ExprKindV::GcNew { ty, fields }, span }, r)
                        ),
                    },
                }
            } else if kind_at(i, p + 1) is LParen {
                match g_call_args(i, p + 1) {
                    Err(e) => Err(e),
                    Ok((args, q)) => Ok(
                        (ExprV { kind: ExprKindV::MacroCall { name, args }, span }, q)
                    ),
                }
            } else {
                match g_primary(i, p + 1) {
                    Err(e) => Err(e),
                    Ok((arg, q)) => Ok(
                        (ExprV { kind: ExprKindV::MacroCall { name, args: seq![arg] }, span }, q),
                    ),
                }
            }
        } else {
            match step(i, p, g_type(i, p)) {
                Err(e) => Err(e),
                Ok((ty, q)) => if kind_at(i, q) is LBrace {
                    match g_field_inits(i, q) {
                        Err(e) => Err(e),
                        Ok((fields, r)) => Ok(
                            (ExprV { kind: ExprKindV::GcNew { ty, fields }, span }, r)
                        ),
                    }
                } else if kind_at(i, q) is LParen {
                    match step(i, q, g_expr(i, q + 1)) {
                        Err(e) => Err(e),
                        Ok((inner, r)) => match ty {
                            TypeV::Path(path) => Ok(
                                (
                                    ExprV {
                                        kind: ExprKindV::EnumCtor {
                                            path: segment_names(path.segments),
                                            case: Seq::empty(),
                                            arg: Some(Box::new(inner)),
                                        },
                                        span,
                                    },
                                    skip(i, r, TokenKindV::RParen),
                                ),
                            ),
                            _ => Err(parse_error("Expected type path after @"@, span)),
                        },
                    }
                } else {
                    Err(parse_error("Expected { or ( after @type"@, span))
                },
            }
        }
        }),
{
    reveal(g_at_rest);
    reveal(g_call_args);
    reveal(g_expr);
    reveal(g_field_inits);
    reveal(g_primary);
    reveal(g_type);
}

pub proof fn un_dollar(i: Input, p: int)
    ensures
        g_dollar(i, p) == ({
        let span = span_of(i, p);
        if let TokenKindV::Ident(name) = kind_at(i, p + 1) {
            if kind_at(i, p + 2) is LParen {
                match g_call_args(i, p + 2) {
                    Err(e) => Err(e),
                    Ok((args, q)) => splice_of(args, span, q),
                }
            } else {
                Ok((ExprV { kind: ExprKindV::UnquoteIdent(name), span }, p + 2))
            }
        } else if kind_at(i, p + 1) is LParen {
            match g_call_args(i, p + 1) {
                Err(e) => Err(e),
                Ok((args, q)) => splice_of(args, span, q),
            }
        } else {
            Err(parse_error("Expected identifier after $"@, span))
        }
        }),
{
    reveal(g_call_args);
    reveal(g_dollar);
}

pub proof fn un_paren(i: Input, p: int)
    ensures
        g_paren(i, p) == ({
        if !(kind_at(i, p) is LParen) {
            no_rule()
        } else {
            match step(i, p, g_expr(i, p + 1)) {
                Err(e) => Err(e),
                Ok((e, q)) => if kind_at(i, q) is Comma {
                    match step(i, q, g_exprs(i, q + 1, seq![e])) {
                        Err(err) => Err(err),
                        Ok((es, r)) => Ok(
                            (ident_expr("<tuple>"@, span_of(i, p)), skip(i, r, TokenKindV::RParen)),
                        ),
                    }
                } else {
                    Ok((e, skip(i, q, TokenKindV::RParen)))
                },
            }
        }
        }),
{
    reveal(g_expr);
    reveal(g_exprs);
    reveal(g_paren);
}

pub proof fn un_let(i: Input, p: int)
    ensures
        g_let(i, p) == ({
        let span = span_of(i, p);
        let is_mut = kind_at(i, p) is Var;
        match step(i, p, g_ident(i, p + 1)) {
            Err(e) => Err(e),
            Ok((name, q)) => match stay(i, q, g_opt_type(i, q)) {
                Err(e) => Err(e),
                Ok((ty, r)) => if kind_at(i, r) is Eq {
                    match step(i, r, g_expr(i, r + 1)) {
                        Err(e) => Err(e),
                        Ok((value, s)) => Ok(
                            (
                                ExprV {
                                    kind: ExprKindV::Let {
                                        name,
                                        ty,
                                        value: Box::new(value),
                                        is_mut,
                                    },
                                    span,
                                },
                                s,
                            ),
                        ),
                    }
                } else {
                    Ok(
                        (
                            ExprV {
                                kind: ExprKindV::Let {
                                    name,
                                    ty,
                                    value: Box::new(ExprV { kind: ExprKindV::NilLiteral, span }),
                                    is_mut,
                                },
                                span,
                            },
                            r,
                        ),
                    )
                },
            },
        }
        }),
{
    reveal(g_expr);
    reveal(g_let);
}

pub proof fn un_block(i: Input, p: int)
    ensures
        g_block(i, p) == ({
        g_block_body(i, span_of(i, p), skip(i, p, TokenKindV::LBrace))
        }),
{
    reveal(g_block);
    reveal(g_block_body);
}

pub proof fn un_block_body(i: Input, start: Span, p: int)
    ensures
        g_block_body(i, start, p) == ({
        match g_stmts(i, p, Seq::empty()) {
            Err(e) => Err(e),
            Ok((stmts, q)) => Ok(
                (
                    BlockV { stmts, span: merge_spans(start, span_of(i, q)) },
                    skip(i, q, TokenKindV::RBrace),
                ),
            ),
        }
        }),
{
    reveal(g_block_body);
    reveal(g_stmts);
}

pub proof fn un_stmts(i: Input, p: int, acc: Seq<ExprV>)
    ensures
        g_stmts(i, p, acc) == ({
        if ends_list(i, p) {
            Ok((acc, p))
        } else {
            match step(i, p, g_expr(i, p)) {
                Err(e) => Err(e),
                Ok((e, q)) => g_stmts(i, skip(i, q, TokenKindV::Semicolon), acc.push(e)),
            }
        }
        }),
{
    reveal(g_expr);
    reveal(g_stmts);
}

pub proof fn un_if(i: Input, p: int)
    ensures
        g_if(i, p) == ({
        let span = span_of(i, p);
        if !(kind_at(i, p) is If) {
            no_rule()
        } else {
            match step(i, p, g_expr(i, p + 1)) {
                Err(e) => Err(e),
                Ok((cond, q)) => match stay(i, q, g_block(i, q)) {
                    Err(e) => Err(e),
                    Ok((then_branch, r)) => if kind_at(i, r) is Else {
                        if kind_at(i, r + 1) is If {
                            match step(i, r, g_if(i, r + 1)) {
                                Err(e) => Err(e),
                                Ok((e, s)) => Ok(
                                    (
                                        ExprV {
                                            kind: ExprKindV::If {
                                                cond: Box::new(cond),
                                                then_branch,
                                                else_branch: Some(
                                                    BlockV { stmts: seq![e], span: span_of(i, s) },
                                                ),
                                            },
                                            span,
                                        },
                                        s,
                                    ),
                                ),
                            }
                        } else {
                            match stay(i, r + 1, g_block(i, r + 1)) {
                                Err(e) => Err(e),
                                Ok((b, s)) => Ok(
                                    (
                                        ExprV {
                                            kind: ExprKindV::If {
                                                cond: Box::new(cond),
                                                then_branch,
                                                else_branch: Some(b),
                                            },
                                            span,
                                        },
                                        s,
                                    ),
                                ),
                            }
                        }
                    } else {
                        Ok(
                            (
                                ExprV {
                                    kind: ExprKindV::If {
                                        cond: Box::new(cond),
                                        then_branch,
                                        else_branch: None,
                                    },
                                    span,
                                },
                                r,
                            ),
                        )
                    },
                },
            }
        }
        }),
{
    reveal(g_block);
    reveal(g_expr);
    reveal(g_if);
}

pub proof fn un_match(i: Input, p: int)
    ensures
        g_match(i, p) == ({
        if !(kind_at(i, p) is Match) {
            no_rule()
        } else {
            match step(i, p, g_expr(i, p + 1)) {
                Err(e) => Err(e),
                Ok((expr, q)) => match g_arms(i, skip(i, q, TokenKindV::LBrace), Seq::empty()) {
                    Err(e) => Err(e),
                    Ok((arms, r)) => Ok(
                        (
                            ExprV {
                                kind: ExprKindV::Match { expr: Box::new(expr), arms },
                                span: span_of(i, p),
                            },
                            skip(i, r, TokenKindV::RBrace),
                        ),
                    ),
                },
            }
        }
        }),
{
    reveal(g_arms);
    reveal(g_expr);
    reveal(g_match);
}

pub proof fn un_guard(i: Input, p: int)
    ensures
        g_guard(i, p) == ({
        if kind_at(i, p) is If {
            match step(i, p, g_expr(i, p + 1)) {
                Err(e) => Err(e),
                Ok((e, q)) => Ok((Some(Box::new(e)), q)),
            }
        } else {
            Ok((None, p))
        }
        }),
{
    reveal(g_expr);
    reveal(g_guard);
}

pub proof fn un_arms(i: Input, p: int, acc: Seq<MatchArmV>)
    ensures
        g_arms(i, p, acc) == ({
        if ends_list(i, p) {
            Ok((acc, p))
        } else {
            let p1 = skip(i, p, TokenKindV::Case);
            match step(i, p1, g_pattern(i, p1)) {
                Err(e) => Err(e),
                Ok((pattern, q)) => match stay(i, q, g_guard(i, q)) {
                    Err(e) => Err(e),
                    Ok((guard, r)) => {
                        let r1 = skip(i, r, TokenKindV::FatArrow);
                        match step(i, r1, g_expr(i, r1)) {
                            Err(e) => Err(e),
                            Ok((body, s)) => g_arms(
                                i,
                                skip(i, s, TokenKindV::Comma),
                                acc.push(MatchArmV { pattern, guard, body: Box::new(body) }),
                            ),
                        }
                    },
                },
            }
        }
        }),
{
    reveal(g_arms);
    reveal(g_expr);
    reveal(g_guard);
    reveal(g_pattern);
}

pub proof fn un_while(i: Input, p: int)
    ensures
        g_while(i, p) == ({
        if !(kind_at(i, p) is While) {
            no_rule()
        } else {
            match step(i, p, g_expr(i, p + 1)) {
                Err(e) => Err(e),
                Ok((cond, q)) => match g_block(i, q) {
                    Err(e) => Err(e),
                    Ok((body, r)) => Ok(
                        (
                            ExprV {
                                kind: ExprKindV::While { cond: Box::new(cond), body },
                                span: span_of(i, p),
                            },
                            r,
                        ),
                    ),
                },
            }
        }
        }),
{
    reveal(g_block);
    reveal(g_expr);
    reveal(g_while);
}

pub proof fn un_for(i: Input, p: int)
    ensures
        g_for(i, p) == ({
        match step(i, p, g_ident(i, p + 1)) {
            Err(e) => Err(e),
            Ok((var, q)) => {
                let q1 = skip(i, q, TokenKindV::In);
                match step(i, q1, g_expr(i, q1)) {
                    Err(e) => Err(e),
                    Ok((iter, r)) => match g_block(i, r) {
                        Err(e) => Err(e),
                        Ok((body, s)) => Ok(
                            (
                                ExprV {
                                    kind: ExprKindV::For { var, iter: Box::new(iter), body },
                                    span: span_of(i, p),
                                },
                                s,
                            ),
                        ),
                    },
                }
            },
        }
        }),
{
    reveal(g_block);
    reveal(g_expr);
    reveal(g_for);
}

pub proof fn un_quote(i: Input, p: int)
    ensures
        g_quote(i, p) == ({
        if !(kind_at(i, p) is Quote) {
            no_rule()
        } else {
            match g_stmts(i, skip(i, p + 1, TokenKindV::LBrace), Seq::empty()) {
                Err(e) => Err(e),
                Ok((exprs, q)) => Ok(
                    (
                        ExprV { kind: ExprKindV::Quote(exprs), span: span_of(i, p) },
                        skip(i, q, TokenKindV::RBrace),
                    ),
                ),
            }
        }
        }),
{
    reveal(g_quote);
    reveal(g_stmts);
}

pub proof fn un_param(i: Input, p: int)
    ensures
        g_param(i, p) == ({
        let span = span_of(i, p);
        let named = kind_at(i, p) is Tilde;
        let p1 = skip(i, p, TokenKindV::Tilde);
        match step(i, p1, g_ident(i, p1)) {
            Err(e) => Err(e),
            Ok((name, q)) => {
                let q1 = skip(i, q, TokenKindV::Colon);
                match step(i, q1, g_type(i, q1)) {
                    Err(e) => Err(e),
                    Ok((ty, r)) => if kind_at(i, r) is Eq {
                        match step(i, r, g_expr(i, r + 1)) {
                            Err(e) => Err(e),
                            Ok((d, s)) => Ok(
                                (ParamV { name, ty, named, default: Some(d), span }, s)
                            ),
                        }
                    } else {
                        Ok((ParamV { name, ty, named, default: None, span }, r))
                    },
                }
            },
        }
        }),
{
    reveal(g_expr);
    reveal(g_param);
    reveal(g_type);
}

pub proof fn un_param_list(i: Input, p: int, acc: Seq<ParamV>)
    ensures
        g_param_list(i, p, acc) == ({
        match step(i, p, g_param(i, p)) {
            Err(e) => Err(e),
            Ok((x, q)) => if kind_at(i, q) is Comma {
                g_param_list(i, q + 1, acc.push(x))
            } else {
                Ok((acc.push(x), q))
            },
        }
        }),
{
    reveal(g_param);
    reveal(g_param_list);
}

pub proof fn un_params(i: Input, p: int)
    ensures
        g_params(i, p) == ({
        if kind_at(i, p) is RParen {
            Ok((Seq::empty(), p + 1))
        } else {
            match step(i, p, g_param_list(i, p, Seq::empty())) {
                Err(e) => Err(e),
                Ok((params, q)) => Ok((params, skip(i, q, TokenKindV::RParen))),
            }
        }
        }),
{
    reveal(g_param_list);
    reveal(g_params);
}

pub proof fn un_function(i: Input, p: int, is_pub: bool)
    ensures
        g_function(i, p, is_pub) == ({
        let span = span_of(i, p);
        match step(i, p, g_ident(i, p + 1)) {
            Err(e) => Err(e),
            Ok((name, q)) => match stay(i, q, g_generic_params(i, q)) {
                Err(e) => Err(e),
                Ok((generics, r)) => {
                    let r1 = skip(i, r, TokenKindV::LParen);
                    match stay(i, r1, g_params(i, r1)) {
                        Err(e) => Err(e),
                        Ok((params, s)) => match stay(i, s, g_return_type(i, s)) {
                            Err(e) => Err(e),
                            Ok((return_type, t)) => match stay(i, t, g_block(i, t)) {
                                Err(e) => Err(e),
                                Ok((body, u)) => Ok(
                                    (
                                        FunctionV {
                                            name,
                                            generics,
                                            params,
                                            return_type,
                                            body,
                                            is_pub,
                                            span,
                                        },
                                        u,
                                    ),
                                ),
                            },
                        },
                    }
                },
            },
        }
        }),
{
    reveal(g_block);
    reveal(g_function);
    reveal(g_params);
}

pub proof fn un_struct_fields(i: Input, p: int, acc: Seq<StructFieldV>)
    ensures
        g_struct_fields(i, p, acc) == ({
        if ends_list(i, p) {
            Ok((acc, p))
        } else {
            match step(i, p, g_ident(i, p)) {
                Err(e) => Err(e),
                Ok((name, q)) => {
                    let q1 = skip(i, q, TokenKindV::Colon);
                    match step(i, q1, g_type(i, q1)) {
                        Err(e) => Err(e),
                        Ok((ty, r)) => g_struct_fields(
                            i,
                            skip(i, r, TokenKindV::Comma),
                            acc.push(StructFieldV { name, ty, span: span_of(i, p) }),
                        ),
                    }
                },
            }
        }
        }),
{
    reveal(g_struct_fields);
    reveal(g_type);
}

pub proof fn un_cases(i: Input, p: int, acc: Seq<EnumCaseV>)
    ensures
        g_cases(i, p, acc) == ({
        if ends_list(i, p) {
            Ok((acc, p))
        } else {
            let p1 = skip(i, p, TokenKindV::Case);
            match step(i, p1, g_ident(i, p1)) {
                Err(e) => Err(e),
                Ok((name, q)) => match stay(i, q, g_payload(i, q)) {
                    Err(e) => Err(e),
                    Ok((payload, r)) => g_cases(
                        i,
                        skip(i, r, TokenKindV::Comma),
                        acc.push(EnumCaseV { name, payload, span: span_of(i, p) }),
                    ),
                },
            }
        }
        }),
{
    reveal(g_cases);
}

pub proof fn un_trait_methods(i: Input, p: int, acc: Seq<FunctionV>)
    ensures
        g_trait_methods(i, p, acc) == ({
        if ends_list(i, p) {
            Ok((acc, p))
        } else {
            match step(i, p, g_trait_method(i, p)) {
                Err(e) => Err(e),
                Ok((f, q)) => g_trait_methods(i, q, acc.push(f)),
            }
        }
        }),
{
    reveal(g_trait_methods);
}

pub proof fn un_methods(i: Input, p: int, acc: Seq<FunctionV>)
    ensures
        g_methods(i, p, acc) == ({
        if ends_list(i, p) {
            Ok((acc, p))
        } else {
            match step(i, p, g_function(i, p, false)) {
                Err(e) => Err(e),
                Ok((f, q)) => g_methods(i, q, acc.push(f)),
            }
        }
        }),
{
    reveal(g_function);
    reveal(g_methods);
}

pub proof fn un_macro_params(i: Input, p: int, acc: Seq<Seq<char>>)
    ensures
        g_macro_params(i, p, acc) == ({
        if kind_at(i, p) is RParen || kind_at(i, p) is Eof {
            Ok((acc, p))
        } else {
            match step(i, p, g_ident(i, p)) {
                Err(e) => Err(e),
                Ok((name, q)) => g_macro_params(i, skip(i, q, TokenKindV::Comma), acc.push(name)),
            }
        }
        }),
{
    reveal(g_macro_params);
}

pub proof fn un_import_args(i: Input, p: int, acc: Seq<ExprV>)
    ensures
        g_import_args(i, p, acc) == ({
        match step(i, p, g_import_arg(i, p)) {
            Err(e) => Err(e),
            Ok((e, q)) => if kind_at(i, q) is Comma {
                g_import_args(i, q + 1, acc.push(e))
            } else {
                Ok((acc.push(e), skip(i, q, TokenKindV::RParen)))
            },
        }
        }),
{
    reveal(g_import_args);
}

pub proof fn un_import_path(i: Input, p: int, acc: Seq<Seq<char>>)
    ensures
        g_import_path(i, p, acc) == ({
        if let TokenKindV::Ident(s) = kind_at(i, p) {
            if kind_at(i, p + 1) is Dot {
                g_import_path(i, p + 2, acc.push(s))
            } else {
                (acc.push(s), p + 1)
            }
        } else {
            (acc, p)
        }
        }),
{
    reveal(g_import_path);
}

pub proof fn un_import_items(i: Input, p: int, acc: Seq<ImportItemV>)
    ensures
        g_import_items(i, p, acc) == ({
        if ends_list(i, p) {
            Ok((acc, p))
        } else {
            match step(i, p, g_ident(i, p)) {
                Err(e) => Err(e),
                Ok((name, q)) => match stay(i, q, g_alias(i, q)) {
                    Err(e) => Err(e),
                    Ok((alias, r)) => g_import_items(
                        i,
                        skip(i, r, TokenKindV::Comma),
                        acc.push(ImportItemV::Single { name, alias }),
                    ),
                },
            }
        }
        }),
{
    reveal(g_import_items);
}

pub proof fn un_items(
    i: Input,
    p: int,
    imports: Seq<ImportV>,
    items: Seq<ItemV>,
)
    ensures
        g_items(i, p, imports, items) == ({
        if kind_at(i, p) is Eof {
            Ok((imports, items))
        } else if kind_at(i, p) is Import {
            match step(i, p, g_import(i, p)) {
                Err(e) => Err(e),
                Ok((x, q)) => g_items(i, q, imports.push(x), items),
            }
        } else {
            match step(i, p, g_item(i, p)) {
                Err(e) => Err(e),
                Ok((x, q)) => g_items(i, q, imports, items.push(x)),
            }
        }
        }),
{
    reveal(g_items);
}

} // verus!
