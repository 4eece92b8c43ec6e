//! Reading expressions and statements back from how they are written.
//!
//! A [`Term`] is an expression as a writer means it: how its operators group is part of it,
//! and brackets stand only where they are written. Parsing the tokens of a term gives the
//! tree that the term means.
use vstd::prelude::*;

verus! {

use crate::ast::{BinOp, UnaryOp, binary_expr, call_expr, ident_expr};
use crate::error::CompileErrorV;
use crate::grammar::{
    Input, g_arms, g_binary, g_binary_rest, g_block, g_block_body, g_call_args, g_expr, g_exprs,
    g_for, g_guard, g_ident, g_if, g_inits, g_let, g_opt_type, g_pattern, g_postfix, g_postfix_rest,
    g_primary, g_stmts, g_unary, g_while, kind_at, op_of_level, span_of,
};
use crate::grammar_rules::{
    un_arms, un_binary, un_binary_rest, un_block, un_block_body, un_call_args, un_case, un_expr,
    un_exprs, un_field_inits, un_for, un_guard, un_if, un_inits, un_let, un_match, un_name,
    un_paren, un_pattern, un_postfix, un_postfix_rest, un_primary, un_stmts, un_unary, un_while,
};
use crate::model::{BlockV, ExprKindV, ExprV, LiteralPatV, MatchArmV, PatternKindV, PatternV, TypeV};
use crate::round_trip::{closes_type, is_readable, lemma_parse, stand_at, type_kinds};
use crate::text::is_uppercase;
use crate::token::{Span, TokenKindV, kind_text};

/// An expression or a statement as it is meant.
pub enum Term {
    /// A literal or the name of a variable.
    Leaf(TokenKindV),
    /// A term in brackets.
    Group(Box<Term>),
    Prefix(UnaryOp, Box<Term>),
    Infix(BinOp, Box<Term>, Box<Term>),
    /// An assignment, plain or through an operator.
    Store(Option<BinOp>, Box<Term>, Box<Term>),
    Call(Box<Term>, Seq<Term>),
    /// A function called on its first argument: `x.f(y)`.
    Method(Box<Term>, Seq<char>, Seq<Term>),
    Member(Box<Term>, Seq<char>),
    Index(Box<Term>, Box<Term>),
    /// A struct with its fields: `P { x: 1, }`.
    Record(Seq<char>, Seq<(Seq<char>, Term)>),
    /// A case of an enum, with or without a payload: `.some(x)`.
    Case(Seq<char>, Option<Box<Term>>),
    /// An argument with a name: `~n: x`.
    Named(Seq<char>, Box<Term>),
    Let(bool, Seq<char>, Option<TypeV>, Box<Term>),
    Return(Option<Box<Term>>),
    If(Box<Term>, Seq<Term>, Option<Seq<Term>>),
    /// A conditional with another one behind `else`.
    ElseIf(Box<Term>, Seq<Term>, Box<Term>),
    Match(Box<Term>, Seq<Arm>),
    While(Box<Term>, Seq<Term>),
    For(Seq<char>, Box<Term>, Seq<Term>),
    Block(Seq<Term>),
}

/// An arm of a match as it is meant.
pub struct Arm {
    pub pattern: Shape,
    pub guard: Option<Box<Term>>,
    pub body: Box<Term>,
}

/// A pattern as it is meant.
pub enum Shape {
    Any,
    Literal(TokenKindV),
    /// A variable, `x`, or declared, `let x` and `var x`.
    Name(Seq<char>),
    Bind(bool, Seq<char>),
    Case(Seq<char>, Option<Box<Shape>>),
}

/// How tightly an operator binds: products before sums, sums before comparisons, comparisons
/// before `&&`, and that before `||`.
pub open spec fn tightness(op: BinOp) -> int {
    match op {
        BinOp::Mul | BinOp::Div | BinOp::Mod => 4,
        BinOp::Add | BinOp::Sub => 3,
        BinOp::Eq | BinOp::NotEq | BinOp::Lt | BinOp::Gt | BinOp::LtEq | BinOp::GtEq => 2,
        BinOp::And => 1,
        BinOp::Or => 0,
    }
}

/// How tightly a term holds together; one that no operator makes does most.
pub open spec fn rank(t: Term) -> int {
    match t {
        Term::Infix(op, _, _) => tightness(op),
        Term::Prefix(_, _) => 5,
        Term::Store(_, _, _) | Term::Named(_, _) | Term::Let(_, _, _, _) | Term::Return(_) => -1,
        _ => 6,
    }
}

/// A literal, or a name that no struct has.
pub open spec fn is_leaf(k: TokenKindV) -> bool {
    match k {
        TokenKindV::IntLiteral(_) | TokenKindV::FloatLiteral(_) | TokenKindV::StringLiteral(_)
        | TokenKindV::CharLiteral(_) | TokenKindV::True | TokenKindV::False | TokenKindV::Nil => {
            true
        },
        TokenKindV::Ident(s) => s.len() > 0 ==> !is_uppercase(s[0]),
        _ => false,
    }
}

/// A term whose operators group as they bind: the operands of an operator hold together at
/// least as tightly as it does, those on its right more.
pub open spec fn is_grouped(t: Term) -> bool
    decreases t, 0int,
{
    match t {
        Term::Leaf(k) => is_leaf(k),
        Term::Group(x) => is_grouped(*x) && rank(*x) >= 0,
        Term::Prefix(_, x) => is_grouped(*x) && rank(*x) >= 5,
        Term::Infix(op, l, r) => is_grouped(*l) && is_grouped(*r) && rank(*l) >= tightness(op)
            && rank(*r) > tightness(op),
        Term::Store(op, l, r) => is_grouped(*l) && is_grouped(*r) && rank(*l) >= 0 && rank(*r) >= 0
            && (op matches Some(o) ==> tightness(o) >= 3),
        Term::Call(f, args) => is_grouped(*f) && rank(*f) == 6 && !(*f is Member) && !(*f is Case)
            && are_arguments(args),
        Term::Method(x, _, args) => is_grouped(*x) && rank(*x) == 6 && are_arguments(args),
        Term::Member(x, _) => is_grouped(*x) && rank(*x) == 6,
        Term::Index(x, k) => is_grouped(*x) && rank(*x) == 6 && is_grouped(*k) && rank(*k) >= 0,
        Term::Record(name, fields) => name.len() > 0 && is_uppercase(name[0]) && are_fields(
            fields,
        ),
        Term::Case(_, None) => true,
        Term::Case(_, Some(x)) => is_grouped(*x) && rank(*x) >= 0,
        Term::Named(_, v) => is_grouped(*v) && rank(*v) >= 0,
        Term::Let(_, _, ty, v) => is_grouped(*v) && rank(*v) >= 0 && (ty matches Some(t)
            ==> is_readable(t)),
        Term::Return(None) => true,
        Term::Return(Some(v)) => is_grouped(*v) && rank(*v) >= 0,
        Term::If(c, a, b) => is_grouped(*c) && rank(*c) >= 0 && are_statements(a) && match b {
            Some(b) => are_statements(b),
            None => true,
        },
        Term::ElseIf(c, a, x) => is_grouped(*c) && rank(*c) >= 0 && are_statements(a) && is_grouped(
            *x,
        ) && (*x is If || *x is ElseIf),
        Term::Match(c, arms) => is_grouped(*c) && rank(*c) >= 0 && are_arms(arms),
        Term::While(c, a) => is_grouped(*c) && rank(*c) >= 0 && are_statements(a),
        Term::For(_, x, a) => is_grouped(*x) && rank(*x) >= 0 && are_statements(a),
        Term::Block(a) => are_statements(a),
    }
}

/// Terms that can be arguments.
pub open spec fn are_arguments(ts: Seq<Term>) -> bool
    decreases ts, 0int,
{
    forall|j: int|
        0 <= j < ts.len() ==> is_grouped(#[trigger] ts[j]) && (rank(ts[j]) >= 0 || ts[j] is Named)
}

/// Terms that can be the values of fields.
pub open spec fn are_fields(fs: Seq<(Seq<char>, Term)>) -> bool
    decreases fs, 0int,
{
    forall|j: int| 0 <= j < fs.len() ==> is_grouped((#[trigger] fs[j]).1) && rank(fs[j].1) >= 0
}

/// Arms whose parts can be read.
pub open spec fn are_arms(arms: Seq<Arm>) -> bool
    decreases arms, 0int,
{
    forall|j: int|
        0 <= j < arms.len() ==> is_shape((#[trigger] arms[j]).pattern) && is_grouped(*arms[j].body)
            && rank(*arms[j].body) >= 0 && match arms[j].guard {
            Some(g) => is_grouped(*g) && rank(*g) >= 0,
            None => true,
        }
}

/// A pattern whose literals are literals.
pub open spec fn is_shape(s: Shape) -> bool
    decreases s,
{
    match s {
        Shape::Literal(k) => is_leaf(k) && !(k is Ident),
        Shape::Case(_, Some(x)) => is_shape(*x),
        _ => true,
    }
}

/// Terms that can be statements.
pub open spec fn are_statements(ts: Seq<Term>) -> bool
    decreases ts, 0int,
{
    forall|j: int| 0 <= j < ts.len() ==> is_grouped(#[trigger] ts[j])
}

/// The token that an operator is written as.
pub open spec fn sign(op: BinOp) -> TokenKindV {
    match op {
        BinOp::Add => TokenKindV::Plus,
        BinOp::Sub => TokenKindV::Minus,
        BinOp::Mul => TokenKindV::Star,
        BinOp::Div => TokenKindV::Slash,
        BinOp::Mod => TokenKindV::Percent,
        BinOp::Eq => TokenKindV::EqEq,
        BinOp::NotEq => TokenKindV::NotEq,
        BinOp::Lt => TokenKindV::Lt,
        BinOp::Gt => TokenKindV::Gt,
        BinOp::LtEq => TokenKindV::LtEq,
        BinOp::GtEq => TokenKindV::GtEq,
        BinOp::And => TokenKindV::AndAnd,
        BinOp::Or => TokenKindV::OrOr,
    }
}

pub open spec fn prefix_sign(op: UnaryOp) -> TokenKindV {
    match op {
        UnaryOp::Neg => TokenKindV::Minus,
        UnaryOp::Not => TokenKindV::Not,
    }
}

/// The token of an assignment.
pub open spec fn store_sign(op: Option<BinOp>) -> TokenKindV {
    match op {
        None => TokenKindV::Eq,
        Some(BinOp::Add) => TokenKindV::PlusEq,
        Some(BinOp::Sub) => TokenKindV::MinusEq,
        Some(BinOp::Mul) => TokenKindV::StarEq,
        Some(BinOp::Div) => TokenKindV::SlashEq,
        Some(_) => TokenKindV::PercentEq,
    }
}

/// The kinds of the tokens of a term.
pub open spec fn kinds(t: Term) -> Seq<TokenKindV>
    decreases t, 0int,
{
    match t {
        Term::Leaf(k) => seq![k],
        Term::Group(x) => seq![TokenKindV::LParen] + kinds(*x) + seq![TokenKindV::RParen],
        Term::Prefix(op, x) => seq![prefix_sign(op)] + kinds(*x),
        Term::Infix(op, l, r) => kinds(*l) + seq![sign(op)] + kinds(*r),
        Term::Store(op, l, r) => kinds(*l) + seq![store_sign(op)] + kinds(*r),
        Term::Call(f, args) => kinds(*f) + bracketed(args),
        Term::Method(x, name, args) => kinds(*x) + seq![
            TokenKindV::Dot,
            TokenKindV::Ident(name),
        ] + bracketed(args),
        Term::Member(x, name) => kinds(*x) + seq![TokenKindV::Dot, TokenKindV::Ident(name)],
        Term::Index(x, k) => kinds(*x) + seq![TokenKindV::LBracket] + kinds(*k) + seq![
            TokenKindV::RBracket,
        ],
        Term::Record(name, fields) => seq![TokenKindV::Ident(name), TokenKindV::LBrace] + set_out(
            fields,
            0,
        ) + seq![TokenKindV::RBrace],
        Term::Case(name, None) => seq![TokenKindV::Dot, TokenKindV::Ident(name)],
        Term::Case(name, Some(x)) => seq![
            TokenKindV::Dot,
            TokenKindV::Ident(name),
            TokenKindV::LParen,
        ] + kinds(*x) + seq![TokenKindV::RParen],
        Term::Named(name, v) => seq![
            TokenKindV::Tilde,
            TokenKindV::Ident(name),
            TokenKindV::Colon,
        ] + kinds(*v),
        Term::Let(is_mut, name, ty, v) => let_kinds(is_mut, name) + annotation(ty) + seq![
            TokenKindV::Eq,
        ] + kinds(*v),
        Term::Return(None) => seq![TokenKindV::Return],
        Term::Return(Some(v)) => seq![TokenKindV::Return] + kinds(*v),
        Term::If(c, a, None) => seq![TokenKindV::If] + kinds(*c) + braced(a),
        Term::If(c, a, Some(b)) => seq![TokenKindV::If] + kinds(*c) + braced(a) + seq![
            TokenKindV::Else,
        ] + braced(b),
        Term::ElseIf(c, a, x) => seq![TokenKindV::If] + kinds(*c) + braced(a) + seq![
            TokenKindV::Else,
        ] + kinds(*x),
        Term::Match(c, arms) => seq![TokenKindV::Match] + kinds(*c) + seq![TokenKindV::LBrace]
            + arms_kinds(arms, 0) + seq![TokenKindV::RBrace],
        Term::While(c, a) => seq![TokenKindV::While] + kinds(*c) + braced(a),
        Term::For(name, x, a) => seq![
            TokenKindV::For,
            TokenKindV::Ident(name),
            TokenKindV::In,
        ] + kinds(*x) + braced(a),
        Term::Block(a) => braced(a),
    }
}

/// The kinds of the tokens that begin a declaration.
pub open spec fn let_kinds(is_mut: bool, name: Seq<char>) -> Seq<TokenKindV> {
    seq![
        if is_mut {
            TokenKindV::Var
        } else {
            TokenKindV::Let
        },
        TokenKindV::Ident(name),
    ]
}

/// The kinds of the tokens of a type that may be written behind a name.
pub open spec fn annotation(ty: Option<TypeV>) -> Seq<TokenKindV> {
    match ty {
        Some(t) => seq![TokenKindV::Colon] + type_kinds(t),
        None => Seq::empty(),
    }
}

/// The kinds of the tokens of the fields from `j` on, each with a comma behind it.
pub open spec fn set_out(fs: Seq<(Seq<char>, Term)>, j: int) -> Seq<TokenKindV>
    decreases fs, fs.len() - j,
{
    if 0 <= j < fs.len() {
        seq![TokenKindV::Ident(fs[j].0), TokenKindV::Colon] + kinds(fs[j].1) + seq![
            TokenKindV::Comma,
        ] + set_out(fs, j + 1)
    } else {
        Seq::empty()
    }
}

/// The kinds of the tokens of a pattern.
pub open spec fn shape_kinds(s: Shape) -> Seq<TokenKindV>
    decreases s,
{
    match s {
        Shape::Any => seq![TokenKindV::Underscore],
        Shape::Literal(k) => seq![k],
        Shape::Name(name) => seq![TokenKindV::Ident(name)],
        Shape::Bind(is_mut, name) => let_kinds(is_mut, name),
        Shape::Case(name, None) => seq![TokenKindV::Dot, TokenKindV::Ident(name)],
        Shape::Case(name, Some(x)) => seq![
            TokenKindV::Dot,
            TokenKindV::Ident(name),
            TokenKindV::LParen,
        ] + shape_kinds(*x) + seq![TokenKindV::RParen],
    }
}

/// The kinds of the tokens of a guard.
pub open spec fn guard_kinds(g: Option<Box<Term>>) -> Seq<TokenKindV>
    decreases g, 0int,
{
    match g {
        Some(x) => seq![TokenKindV::If] + kinds(*x),
        None => Seq::empty(),
    }
}

/// The kinds of the tokens of the arms from `j` on, each with a comma behind it.
pub open spec fn arms_kinds(arms: Seq<Arm>, j: int) -> Seq<TokenKindV>
    decreases arms, arms.len() - j,
{
    if 0 <= j < arms.len() {
        seq![TokenKindV::Case] + shape_kinds(arms[j].pattern) + guard_kinds(arms[j].guard) + seq![
            TokenKindV::FatArrow,
        ] + kinds(*arms[j].body) + seq![TokenKindV::Comma] + arms_kinds(arms, j + 1)
    } else {
        Seq::empty()
    }
}

/// The kinds of the tokens of arguments in brackets.
pub open spec fn bracketed(ts: Seq<Term>) -> Seq<TokenKindV>
    decreases ts, ts.len() + 1,
{
    seq![TokenKindV::LParen] + listed(ts, 0) + seq![TokenKindV::RParen]
}

/// The kinds of the tokens of the terms from `j` on, with commas between them.
pub open spec fn listed(ts: Seq<Term>, j: int) -> Seq<TokenKindV>
    decreases ts, ts.len() - j,
{
    if 0 <= j < ts.len() {
        if j + 1 < ts.len() {
            kinds(ts[j]) + seq![TokenKindV::Comma] + listed(ts, j + 1)
        } else {
            kinds(ts[j])
        }
    } else {
        Seq::empty()
    }
}

/// The kinds of the tokens of a block.
pub open spec fn braced(ts: Seq<Term>) -> Seq<TokenKindV>
    decreases ts, ts.len() + 1,
{
    seq![TokenKindV::LBrace] + ended(ts, 0) + seq![TokenKindV::RBrace]
}

/// The kinds of the tokens of the statements from `j` on, each with a semicolon behind it.
pub open spec fn ended(ts: Seq<Term>, j: int) -> Seq<TokenKindV>
    decreases ts, ts.len() - j,
{
    if 0 <= j < ts.len() {
        kinds(ts[j]) + seq![TokenKindV::Semicolon] + ended(ts, j + 1)
    } else {
        Seq::empty()
    }
}

/// The tree is what a literal or a name means.
pub open spec fn means_leaf(e: ExprKindV, k: TokenKindV) -> bool {
    match k {
        TokenKindV::IntLiteral(n) => e == ExprKindV::IntLiteral(n),
        TokenKindV::FloatLiteral(s) => e == ExprKindV::FloatLiteral(s),
        TokenKindV::StringLiteral(s) => e == ExprKindV::StringLiteral(s),
        TokenKindV::CharLiteral(c) => e == ExprKindV::CharLiteral(c),
        TokenKindV::True => e == ExprKindV::BoolLiteral(true),
        TokenKindV::False => e == ExprKindV::BoolLiteral(false),
        TokenKindV::Nil => e == ExprKindV::NilLiteral,
        TokenKindV::Ident(s) => e == ExprKindV::Ident(s),
        _ => false,
    }
}

/// The tree is what a term means: brackets are gone, and the operators group as written.
pub open spec fn means(e: ExprV, t: Term) -> bool
    decreases t, 0int,
{
    match t {
        Term::Leaf(k) => means_leaf(e.kind, k),
        Term::Group(x) => means(e, *x),
        Term::Prefix(op, x) => match e.kind {
            ExprKindV::Unary { op: o, expr } => o == op && means(*expr, *x),
            _ => false,
        },
        Term::Infix(op, l, r) => match e.kind {
            ExprKindV::Binary { op: o, left, right } => {
                &&& o == op
                &&& means(*left, *l)
                &&& means(*right, *r)
                &&& e.span.start <= left.span.start && left.span.end <= e.span.end
                &&& e.span.start <= right.span.start && right.span.end <= e.span.end
            },
            _ => false,
        },
        Term::Store(op, l, r) => match (op, e.kind) {
            (None, ExprKindV::Assign { target, value }) => means(*target, *l) && means(*value, *r),
            (Some(o), ExprKindV::AssignOp { target, op: u, value }) => o == u && means(*target, *l)
                && means(*value, *r),
            _ => false,
        },
        Term::Call(f, args) => match e.kind {
            ExprKindV::Call { func, args: es } => means(*func, *f) && mean_all(es, args),
            _ => false,
        },
        Term::Method(x, name, args) => match e.kind {
            ExprKindV::Call { func, args: es } => func.kind == ExprKindV::Ident(name) && es.len()
                == args.len() + 1 && means(es[0], *x) && mean_all(es.drop_first(), args),
            _ => false,
        },
        Term::Member(x, name) => match e.kind {
            ExprKindV::DotAccess { object, field } => field == name && means(*object, *x),
            _ => false,
        },
        Term::Index(x, k) => match e.kind {
            ExprKindV::Index { object, index } => means(*object, *x) && means(*index, *k),
            _ => false,
        },
        Term::Record(name, fields) => match e.kind {
            ExprKindV::StructLit { path, fields: fs } => path == seq![name] && mean_fields(
                fs,
                fields,
            ),
            _ => false,
        },
        Term::Case(name, arg) => match e.kind {
            ExprKindV::EnumCtor { path, case, arg: a } => path.len() == 0 && case == name && match (
                a,
                arg,
            ) {
                (Some(x), Some(y)) => means(*x, *y),
                (None, None) => true,
                _ => false,
            },
            _ => false,
        },
        Term::Named(name, v) => match e.kind {
            ExprKindV::NamedArg { name: n, value } => n == name && means(*value, *v),
            _ => false,
        },
        Term::Let(is_mut, name, ty, v) => match e.kind {
            ExprKindV::Let { name: n, ty: t, value, is_mut: m } => n == name && t == ty && m
                == is_mut && means(*value, *v),
            _ => false,
        },
        Term::Return(None) => e.kind == ExprKindV::Return(None),
        Term::Return(Some(v)) => match e.kind {
            ExprKindV::Return(Some(x)) => means(*x, *v),
            _ => false,
        },
        Term::If(c, a, b) => match e.kind {
            ExprKindV::If { cond, then_branch, else_branch } => {
                &&& means(*cond, *c)
                &&& mean_all(then_branch.stmts, a)
                &&& match (else_branch, b) {
                    (Some(x), Some(y)) => mean_all(x.stmts, y),
                    (None, None) => true,
                    _ => false,
                }
            },
            _ => false,
        },
        Term::ElseIf(c, a, x) => match e.kind {
            ExprKindV::If { cond, then_branch, else_branch } => {
                &&& means(*cond, *c)
                &&& mean_all(then_branch.stmts, a)
                &&& else_branch matches Some(b) && b.stmts.len() == 1 && means(b.stmts[0], *x)
            },
            _ => false,
        },
        Term::Match(c, arms) => match e.kind {
            ExprKindV::Match { expr, arms: xs } => means(*expr, *c) && mean_arms(xs, arms),
            _ => false,
        },
        Term::While(c, a) => match e.kind {
            ExprKindV::While { cond, body } => means(*cond, *c) && mean_all(body.stmts, a),
            _ => false,
        },
        Term::For(name, x, a) => match e.kind {
            ExprKindV::For { var, iter, body } => var == name && means(*iter, *x) && mean_all(
                body.stmts,
                a,
            ),
            _ => false,
        },
        Term::Block(a) => match e.kind {
            ExprKindV::Block(b) => mean_all(b.stmts, a),
            _ => false,
        },
    }
}

/// Each tree is what the term in its place means.
pub open spec fn mean_all(es: Seq<ExprV>, ts: Seq<Term>) -> bool
    decreases ts, 0int,
{
    es.len() == ts.len() && forall|j: int| 0 <= j < ts.len() ==> means(es[j], #[trigger] ts[j])
}

/// The fields are set in the order that they are written in, each to what is meant.
pub open spec fn mean_fields(fs: Seq<(Seq<char>, ExprV)>, ts: Seq<(Seq<char>, Term)>) -> bool
    decreases ts, 0int,
{
    fs.len() == ts.len() && forall|j: int|
        0 <= j < ts.len() ==> fs[j].0 == (#[trigger] ts[j]).0 && means(fs[j].1, ts[j].1)
}

/// The pattern is what is meant.
pub open spec fn means_shape(p: PatternV, s: Shape) -> bool
    decreases s,
{
    match s {
        Shape::Any => p.kind is Wildcard,
        Shape::Literal(k) => match k {
            TokenKindV::IntLiteral(n) => p.kind == PatternKindV::Literal(LiteralPatV::Int(n)),
            TokenKindV::FloatLiteral(x) => p.kind == PatternKindV::Literal(LiteralPatV::Float(x)),
            TokenKindV::StringLiteral(x) => p.kind == PatternKindV::Literal(LiteralPatV::String(x)),
            TokenKindV::CharLiteral(c) => p.kind == PatternKindV::Literal(LiteralPatV::Char(c)),
            TokenKindV::True => p.kind == PatternKindV::Literal(LiteralPatV::Bool(true)),
            TokenKindV::False => p.kind == PatternKindV::Literal(LiteralPatV::Bool(false)),
            _ => p.kind == PatternKindV::Literal(LiteralPatV::Nil),
        },
        Shape::Name(name) => p.kind == (PatternKindV::Variable { name, is_mut: false }),
        Shape::Bind(is_mut, name) => p.kind == (PatternKindV::Variable { name, is_mut }),
        Shape::Case(name, x) => match p.kind {
            PatternKindV::EnumCtor { path, case, inner } => path.len() == 0 && case == name
                && match (inner, x) {
                (Some(a), Some(b)) => means_shape(*a, *b),
                (None, None) => true,
                _ => false,
            },
            _ => false,
        },
    }
}

/// Each arm is what the one in its place means.
pub open spec fn mean_arms(xs: Seq<MatchArmV>, arms: Seq<Arm>) -> bool
    decreases arms, 0int,
{
    xs.len() == arms.len() && forall|j: int|
        0 <= j < arms.len() ==> means_arm(xs[j], #[trigger] arms[j])
}

/// The arm is what is meant.
pub open spec fn means_arm(x: MatchArmV, arm: Arm) -> bool
    decreases arm, 0int,
{
    &&& means_shape(x.pattern, arm.pattern)
    &&& means(*x.body, *arm.body)
    &&& match (x.guard, arm.guard) {
        (Some(a), Some(b)) => means(*a, *b),
        (None, None) => true,
        _ => false,
    }
}

/// What can stand behind a whole term: nothing that would go on with it.
pub open spec fn closes(k: TokenKindV) -> bool {
    k is Semicolon || k is Comma || k is RParen || k is RBracket || k is LBrace || k is RBrace
        || k is FatArrow || k is Eof
}

/// What can stand behind an operand: nothing that binds more tightly than an operator.
pub open spec fn follows(k: TokenKindV) -> bool {
    !(k is Dot || k is LParen || k is LBracket || k is Colon || k is Else)
}

// ------------------------------------------------------------------------- helpers

pub proof fn lemma_split(i: Input, p: int, a: Seq<TokenKindV>, b: Seq<TokenKindV>)
    requires
        stand_at(i, p, a + b),
    ensures
        stand_at(i, p, a),
        stand_at(i, p + a.len(), b),
{
    assert forall|k: int| 0 <= k < a.len() implies kind_at(i, p + k) == #[trigger] a[k] by {
        assert((a + b)[k] == a[k]);
    }
    assert forall|k: int| 0 <= k < b.len() implies kind_at(i, p + a.len() + k)
        == #[trigger] b[k] by {
        assert((a + b)[a.len() + k] == b[k]);
    }
}

pub proof fn lemma_at(i: Input, p: int, ks: Seq<TokenKindV>, k: int)
    requires
        stand_at(i, p, ks),
        0 <= k < ks.len(),
    ensures
        kind_at(i, p + k) == ks[k],
        p + k < i.toks.len(),
{
}

/// How a term begins.
pub proof fn lemma_begins(t: Term)
    requires
        is_grouped(t),
    ensures
        kinds(t).len() > 0,
        ({
            let k = kinds(t)[0];
            &&& !closes(k) || k is LBrace
            &&& rank(t) == 6 ==> !(k is Minus || k is Not)
        }),
    decreases t,
{
    match t {
        Term::Infix(op, l, r) => {
            lemma_begins(*l);
            assert(kinds(t)[0] == kinds(*l)[0]);
        },
        Term::Store(op, l, r) => {
            lemma_begins(*l);
            assert(kinds(t)[0] == kinds(*l)[0]);
        },
        Term::Call(f, args) => {
            lemma_begins(*f);
            assert(kinds(t)[0] == kinds(*f)[0]);
        },
        Term::Method(x, name, args) => {
            lemma_begins(*x);
            assert(kinds(t)[0] == kinds(*x)[0]);
        },
        Term::Member(x, name) => {
            lemma_begins(*x);
            assert(kinds(t)[0] == kinds(*x)[0]);
        },
        Term::Index(x, k) => {
            lemma_begins(*x);
            assert(kinds(t)[0] == kinds(*x)[0]);
        },
        Term::Block(a) => {
            assert(kinds(t) == braced(a));
            assert(braced(a)[0] is LBrace);
        },
        Term::If(c, a, b) => {
            assert(kinds(t)[0] is If);
        },
        Term::Let(is_mut, name, ty, v) => {
            assert(kinds(t)[0] == let_kinds(is_mut, name)[0]);
        },
        _ => {},
    }
}

/// The sign of an operator is read at its own level and at no other.
proof fn lemma_sign_level(op: BinOp, level: int)
    requires
        0 <= level <= 4,
    ensures
        op_of_level(level, sign(op)) == if level == tightness(op) {
            Some(op)
        } else {
            None
        },
        follows(sign(op)),
        0 <= tightness(op) <= 4,
{
}

// ------------------------------------------------------------------------- parsing

/// A term is read whole where nothing behind it goes on with it.
pub proof fn lemma_read(i: Input, p: int, t: Term) -> (e: ExprV)
    requires
        is_grouped(t),
        stand_at(i, p, kinds(t)),
        closes(kind_at(i, p + kinds(t).len())),
        t is Return ==> kind_at(i, p + kinds(t).len()) is Semicolon,
    ensures
        means(e, t),
        g_expr(i, p) == Ok::<(ExprV, int), CompileErrorV>((e, p + kinds(t).len())),
    decreases t, 20int,
{
    un_expr(i, p);
    lemma_begins(t);
    let q = p + kinds(t).len();
    match t {
        Term::Store(op, l, r) => {
            lemma_split(i, p, kinds(*l) + seq![store_sign(op)], kinds(*r));
            lemma_split(i, p, kinds(*l), seq![store_sign(op)]);
            let m = p + kinds(*l).len();
            lemma_at(i, m, seq![store_sign(op)], 0);
            lemma_begins(*l);
            let x = lemma_operand(i, p, *l, 0);
            un_binary_rest(i, m, 0, x);
            let y = lemma_read(i, m + 1, *r);
            g_expr(i, p)->Ok_0.0
        },
        Term::Named(_, _) | Term::Let(_, _, _, _) | Term::Return(_) => {
            let x = lemma_statement(i, p, t);
            lemma_chain(i, p, x, q, 0);
            x
        },
        _ => {
            let x = lemma_operand(i, p, t, 0);
            un_binary_rest(i, q, 0, x);
            x
        },
    }
}

/// What is read as a whole before the binary operators is read so at each of their levels,
/// if no operator follows.
proof fn lemma_chain(i: Input, p: int, e: ExprV, q: int, level: int)
    requires
        0 <= level <= 4,
        0 <= p < q <= i.toks.len(),
        g_unary(i, p) == Ok::<(ExprV, int), CompileErrorV>((e, q)),
        closes(kind_at(i, q)),
    ensures
        g_binary(i, p, level) == Ok::<(ExprV, int), CompileErrorV>((e, q)),
    decreases 4 - level,
{
    un_binary(i, p, level);
    un_binary_rest(i, q, level, e);
    if level < 4 {
        lemma_chain(i, p, e, q, level + 1);
    }
}

/// A type behind a name, where there is one.
proof fn lemma_annotation(i: Input, p: int, ty: Option<TypeV>)
    requires
        ty matches Some(t) ==> is_readable(t),
        stand_at(i, p, annotation(ty)),
        closes_type(kind_at(i, p + annotation(ty).len())),
    ensures
        g_opt_type(i, p) == Ok::<(Option<TypeV>, int), CompileErrorV>(
            (ty, p + annotation(ty).len()),
        ),
{
    reveal(g_opt_type);
    if let Some(t) = ty {
        lemma_split(i, p, seq![TokenKindV::Colon], type_kinds(t));
        lemma_at(i, p, seq![TokenKindV::Colon], 0);
        lemma_parse(i, p + 1, t);
    }
}

/// A declaration or a `return` takes all that stands behind it.
proof fn lemma_statement(i: Input, p: int, t: Term) -> (e: ExprV)
    requires
        is_grouped(t),
        t is Named || t is Let || t is Return,
        stand_at(i, p, kinds(t)),
        closes(kind_at(i, p + kinds(t).len())),
        t is Return ==> kind_at(i, p + kinds(t).len()) is Semicolon,
    ensures
        means(e, t),
        g_unary(i, p) == Ok::<(ExprV, int), CompileErrorV>((e, p + kinds(t).len())),
    decreases t, 10int,
{
    un_unary(i, p);
    un_postfix(i, p);
    un_primary(i, p);
    let q = p + kinds(t).len();
    lemma_at(i, p, kinds(t), 0);
    let e = match t {
        Term::Named(name, v) => {
            let head = seq![TokenKindV::Tilde, TokenKindV::Ident(name), TokenKindV::Colon];
            lemma_split(i, p, head, kinds(*v));
            lemma_at(i, p, head, 1);
            lemma_at(i, p, head, 2);
            let x = lemma_read(i, p + 3, *v);
            lemma_begins(*v);
            reveal(g_ident);
            g_primary(i, p)->Ok_0.0
        },
        Term::Let(is_mut, name, ty, v) => {
            let head = let_kinds(is_mut, name);
            let eq = seq![TokenKindV::Eq];
            lemma_split(i, p, head + annotation(ty) + eq, kinds(*v));
            lemma_split(i, p, head + annotation(ty), eq);
            lemma_split(i, p, head, annotation(ty));
            lemma_at(i, p, head, 0);
            lemma_at(i, p, head, 1);
            let m = p + 2 + annotation(ty).len();
            lemma_at(i, m, eq, 0);
            lemma_annotation(i, p + 2, ty);
            let x = lemma_read(i, m + 1, *v);
            lemma_begins(*v);
            un_let(i, p);
            reveal(g_ident);
            g_let(i, p)->Ok_0.0
        },
        Term::Return(None) => {
            g_primary(i, p)->Ok_0.0
        },
        Term::Return(Some(v)) => {
            lemma_split(i, p, seq![TokenKindV::Return], kinds(*v));
            lemma_begins(*v);
            lemma_at(i, p + 1, kinds(*v), 0);
            let x = lemma_read(i, p + 1, *v);
            g_primary(i, p)->Ok_0.0
        },
        _ => arbitrary(),
    };
    un_postfix_rest(i, q, e);
    e
}

/// A term is read at the level of an operator that it binds at least as tightly as, and
/// reading goes on behind it.
proof fn lemma_operand(i: Input, p: int, t: Term, level: int) -> (e: ExprV)
    requires
        is_grouped(t),
        0 <= level <= 4,
        rank(t) >= level,
        stand_at(i, p, kinds(t)),
        follows(kind_at(i, p + kinds(t).len())),
        forall|m: int|
            level < m <= 4 ==> #[trigger] op_of_level(m, kind_at(i, p + kinds(t).len())) is None,
    ensures
        means(e, t),
        g_binary(i, p, level) == g_binary_rest(i, p + kinds(t).len(), level, e),
    decreases t, 10 - level,
{
    un_binary(i, p, level);
    lemma_begins(t);
    let q = p + kinds(t).len();
    if rank(t) > level {
        if level == 4 {
            lemma_tight(i, p, t)
        } else {
            let e = lemma_operand(i, p, t, level + 1);
            un_binary_rest(i, q, level + 1, e);
            e
        }
    } else {
        match t {
            Term::Infix(op, l, r) => {
                lemma_split(i, p, kinds(*l) + seq![sign(op)], kinds(*r));
                lemma_split(i, p, kinds(*l), seq![sign(op)]);
                let m = p + kinds(*l).len();
                lemma_at(i, m, seq![sign(op)], 0);
                assert forall|n: int| level < n <= 4 implies #[trigger] op_of_level(
                    n,
                    kind_at(i, m),
                ) is None by {
                    lemma_sign_level(op, n);
                }
                lemma_sign_level(op, level);
                let x = lemma_operand(i, p, *l, level);
                un_binary_rest(i, m, level, x);
                lemma_begins(*r);
                if level == 4 {
                    let y = lemma_tight(i, m + 1, *r);
                    binary_expr(x, op, y, crate::token::merge_spans(x.span, y.span))
                } else {
                    let y = lemma_operand(i, m + 1, *r, level + 1);
                    un_binary_rest(i, q, level + 1, y);
                    binary_expr(x, op, y, crate::token::merge_spans(x.span, y.span))
                }
            },
            _ => arbitrary(),
        }
    }
}

/// A term that no binary operator makes is read before them.
proof fn lemma_tight(i: Input, p: int, t: Term) -> (e: ExprV)
    requires
        is_grouped(t),
        rank(t) >= 5,
        stand_at(i, p, kinds(t)),
        follows(kind_at(i, p + kinds(t).len())),
    ensures
        means(e, t),
        g_unary(i, p) == Ok::<(ExprV, int), CompileErrorV>((e, p + kinds(t).len())),
    decreases t, 4int,
{
    un_unary(i, p);
    lemma_begins(t);
    lemma_at(i, p, kinds(t), 0);
    let q = p + kinds(t).len();
    match t {
        Term::Prefix(op, x) => {
            lemma_split(i, p, seq![prefix_sign(op)], kinds(*x));
            lemma_begins(*x);
            let y = lemma_tight(i, p + 1, *x);
            g_unary(i, p)->Ok_0.0
        },
        _ => {
            let e = lemma_tightest(i, p, t);
            un_postfix_rest(i, q, e);
            e
        },
    }
}

/// A term that no operator makes is read first, and what is applied to it goes on.
proof fn lemma_tightest(i: Input, p: int, t: Term) -> (e: ExprV)
    requires
        is_grouped(t),
        rank(t) == 6,
        stand_at(i, p, kinds(t)),
        !(kind_at(i, p + kinds(t).len()) is Colon),
        !(kind_at(i, p + kinds(t).len()) is Else),
        t is Member || t is Case ==> !(kind_at(i, p + kinds(t).len()) is LParen),
    ensures
        means(e, t),
        g_postfix(i, p) == g_postfix_rest(i, p + kinds(t).len(), e),
    decreases t, 3int,
{
    let q = p + kinds(t).len();
    un_postfix(i, p);
    lemma_begins(t);
    match t {
        Term::Call(f, args) => {
            lemma_split(i, p, kinds(*f), bracketed(args));
            let m = p + kinds(*f).len();
            let x = lemma_tightest_before(i, p, *f, bracketed(args), m);
            un_postfix_rest(i, m, x);
            let es = lemma_arguments(i, m, args);
            lemma_at(i, m, bracketed(args), 0);
            assert(q == m + bracketed(args).len());
            call_expr(x, es, x.span)
        },
        Term::Method(x, name, args) => {
            let dot = seq![TokenKindV::Dot, TokenKindV::Ident(name)];
            lemma_split(i, p, kinds(*x) + dot, bracketed(args));
            lemma_split(i, p, kinds(*x), dot);
            let m = p + kinds(*x).len();
            lemma_at(i, m, dot, 0);
            lemma_at(i, m, dot, 1);
            let y = lemma_tightest(i, p, *x);
            un_postfix_rest(i, m, y);
            reveal(g_ident);
            let es = lemma_arguments(i, m + 2, args);
            lemma_at(i, m + 2, bracketed(args), 0);
            assert(q == m + 2 + bracketed(args).len());
            let all = seq![y] + es;
            assert(all.drop_first() =~= es);
            call_expr(ident_expr(name, y.span), all, y.span)
        },
        Term::Member(x, name) => {
            let dot = seq![TokenKindV::Dot, TokenKindV::Ident(name)];
            lemma_split(i, p, kinds(*x), dot);
            let m = p + kinds(*x).len();
            lemma_at(i, m, dot, 0);
            lemma_at(i, m, dot, 1);
            let y = lemma_tightest(i, p, *x);
            un_postfix_rest(i, m, y);
            reveal(g_ident);
            ExprV { kind: ExprKindV::DotAccess { object: Box::new(y), field: name }, span: y.span }
        },
        Term::Index(x, k) => {
            let open = seq![TokenKindV::LBracket];
            let close = seq![TokenKindV::RBracket];
            lemma_split(i, p, kinds(*x) + open + kinds(*k), close);
            lemma_split(i, p, kinds(*x) + open, kinds(*k));
            lemma_split(i, p, kinds(*x), open);
            let m = p + kinds(*x).len();
            lemma_at(i, m, open, 0);
            let n = m + 1 + kinds(*k).len();
            lemma_at(i, n, close, 0);
            let y = lemma_tightest(i, p, *x);
            un_postfix_rest(i, m, y);
            lemma_begins(*k);
            let z = lemma_read(i, m + 1, *k);
            ExprV {
                kind: ExprKindV::Index { object: Box::new(y), index: Box::new(z) },
                span: y.span,
            }
        },
        _ => lemma_primary(i, p, t),
    }
}

/// The same of a term that brackets stand behind.
proof fn lemma_tightest_before(
    i: Input,
    p: int,
    t: Term,
    behind: Seq<TokenKindV>,
    m: int,
) -> (e: ExprV)
    requires
        is_grouped(t),
        rank(t) == 6,
        stand_at(i, p, kinds(t)),
        m == p + kinds(t).len(),
        stand_at(i, m, behind),
        behind.len() > 0,
        behind[0] is LParen,
        !(t is Member || t is Case),
    ensures
        means(e, t),
        g_postfix(i, p) == g_postfix_rest(i, m, e),
    decreases t, 4int,
{
    lemma_at(i, m, behind, 0);
    lemma_tightest(i, p, t)
}

/// A term that nothing is applied in.
proof fn lemma_primary(i: Input, p: int, t: Term) -> (e: ExprV)
    requires
        is_grouped(t),
        rank(t) == 6,
        !(t is Call || t is Method || t is Member || t is Index),
        stand_at(i, p, kinds(t)),
        !(kind_at(i, p + kinds(t).len()) is Colon),
        !(kind_at(i, p + kinds(t).len()) is Else),
        t is Case ==> !(kind_at(i, p + kinds(t).len()) is LParen),
    ensures
        means(e, t),
        g_primary(i, p) == Ok::<(ExprV, int), CompileErrorV>((e, p + kinds(t).len())),
    decreases t, 2int,
{
    un_primary(i, p);
    lemma_begins(t);
    lemma_at(i, p, kinds(t), 0);
    let q = p + kinds(t).len();
    match t {
        Term::Leaf(k) => {
            if k is Ident {
                un_name(i, p);
                reveal(kind_text);
            }
            g_primary(i, p)->Ok_0.0
        },
        Term::Group(x) => {
            let open = seq![TokenKindV::LParen];
            let close = seq![TokenKindV::RParen];
            lemma_split(i, p, open + kinds(*x), close);
            lemma_split(i, p, open, kinds(*x));
            let n = p + 1 + kinds(*x).len();
            lemma_at(i, n, close, 0);
            lemma_begins(*x);
            let y = lemma_read(i, p + 1, *x);
            un_paren(i, p);
            y
        },
        Term::If(_, _, _) | Term::ElseIf(_, _, _) => lemma_if(i, p, t),
        Term::Record(name, fields) => {
            let open = seq![TokenKindV::Ident(name), TokenKindV::LBrace];
            let close = seq![TokenKindV::RBrace];
            lemma_split(i, p, open + set_out(fields, 0), close);
            lemma_split(i, p, open, set_out(fields, 0));
            lemma_at(i, p, open, 0);
            lemma_at(i, p, open, 1);
            let n = p + 2 + set_out(fields, 0).len();
            lemma_at(i, n, close, 0);
            un_name(i, p);
            reveal(kind_text);
            un_field_inits(i, p + 1);
            let fs = lemma_set_out(i, p + 2, fields, 0, Seq::empty());
            g_primary(i, p)->Ok_0.0
        },
        Term::Case(name, None) => {
            lemma_at(i, p, kinds(t), 1);
            un_case(i, p);
            reveal(g_ident);
            g_primary(i, p)->Ok_0.0
        },
        Term::Case(name, Some(x)) => {
            let open = seq![TokenKindV::Dot, TokenKindV::Ident(name), TokenKindV::LParen];
            let close = seq![TokenKindV::RParen];
            lemma_split(i, p, open + kinds(*x), close);
            lemma_split(i, p, open, kinds(*x));
            lemma_at(i, p, open, 1);
            lemma_at(i, p, open, 2);
            let n = p + 3 + kinds(*x).len();
            lemma_at(i, n, close, 0);
            lemma_begins(*x);
            let y = lemma_read(i, p + 3, *x);
            un_case(i, p);
            reveal(g_ident);
            g_primary(i, p)->Ok_0.0
        },
        Term::Match(c, arms) => {
            let open = seq![TokenKindV::LBrace];
            let close = seq![TokenKindV::RBrace];
            let all = arms_kinds(arms, 0);
            lemma_split(i, p, seq![TokenKindV::Match] + kinds(*c) + open + all, close);
            lemma_split(i, p, seq![TokenKindV::Match] + kinds(*c) + open, all);
            lemma_split(i, p, seq![TokenKindV::Match] + kinds(*c), open);
            lemma_split(i, p, seq![TokenKindV::Match], kinds(*c));
            let m = p + 1 + kinds(*c).len();
            lemma_at(i, m, open, 0);
            lemma_at(i, m + 1 + all.len(), close, 0);
            lemma_begins(*c);
            let x = lemma_read(i, p + 1, *c);
            let xs = lemma_arms(i, m + 1, arms, 0, Seq::empty());
            un_match(i, p);
            g_primary(i, p)->Ok_0.0
        },
        Term::While(c, a) => {
            lemma_split(i, p, seq![TokenKindV::While] + kinds(*c), braced(a));
            lemma_split(i, p, seq![TokenKindV::While], kinds(*c));
            let m = p + 1 + kinds(*c).len();
            lemma_at(i, m, braced(a), 0);
            let x = lemma_read(i, p + 1, *c);
            lemma_begins(*c);
            let y = lemma_block(i, m, a);
            un_while(i, p);
            g_while(i, p)->Ok_0.0
        },
        Term::For(name, x, a) => {
            let head = seq![TokenKindV::For, TokenKindV::Ident(name), TokenKindV::In];
            lemma_split(i, p, head + kinds(*x), braced(a));
            lemma_split(i, p, head, kinds(*x));
            lemma_at(i, p, head, 1);
            lemma_at(i, p, head, 2);
            let m = p + 3 + kinds(*x).len();
            lemma_at(i, m, braced(a), 0);
            let y = lemma_read(i, p + 3, *x);
            lemma_begins(*x);
            let z = lemma_block(i, m, a);
            un_for(i, p);
            reveal(g_ident);
            g_for(i, p)->Ok_0.0
        },
        Term::Block(a) => {
            let b = lemma_block_body(i, p, a, span_of(i, p));
            g_primary(i, p)->Ok_0.0
        },
        _ => arbitrary(),
    }
}

/// A conditional.
proof fn lemma_if(i: Input, p: int, t: Term) -> (e: ExprV)
    requires
        is_grouped(t),
        t is If || t is ElseIf,
        stand_at(i, p, kinds(t)),
        !(kind_at(i, p + kinds(t).len()) is Else),
    ensures
        means(e, t),
        g_if(i, p) == Ok::<(ExprV, int), CompileErrorV>((e, p + kinds(t).len())),
    decreases t, 1int,
{
    lemma_begins(t);
    lemma_at(i, p, kinds(t), 0);
    match t {
        Term::If(c, a, None) => {
            lemma_split(i, p, seq![TokenKindV::If] + kinds(*c), braced(a));
            lemma_split(i, p, seq![TokenKindV::If], kinds(*c));
            let m = p + 1 + kinds(*c).len();
            lemma_at(i, m, braced(a), 0);
            let x = lemma_read(i, p + 1, *c);
            lemma_begins(*c);
            let y = lemma_block(i, m, a);
            un_if(i, p);
            g_if(i, p)->Ok_0.0
        },
        Term::If(c, a, Some(b)) => {
            let other = seq![TokenKindV::Else];
            lemma_split(i, p, seq![TokenKindV::If] + kinds(*c) + braced(a) + other, braced(b));
            lemma_split(i, p, seq![TokenKindV::If] + kinds(*c) + braced(a), other);
            lemma_split(i, p, seq![TokenKindV::If] + kinds(*c), braced(a));
            lemma_split(i, p, seq![TokenKindV::If], kinds(*c));
            let m = p + 1 + kinds(*c).len();
            let n = m + braced(a).len();
            lemma_at(i, m, braced(a), 0);
            lemma_at(i, n, other, 0);
            lemma_at(i, n + 1, braced(b), 0);
            let x = lemma_read(i, p + 1, *c);
            lemma_begins(*c);
            let y = lemma_block(i, m, a);
            let z = lemma_block(i, n + 1, b);
            un_if(i, p);
            g_if(i, p)->Ok_0.0
        },
        Term::ElseIf(c, a, x) => {
            let other = seq![TokenKindV::Else];
            lemma_split(i, p, seq![TokenKindV::If] + kinds(*c) + braced(a) + other, kinds(*x));
            lemma_split(i, p, seq![TokenKindV::If] + kinds(*c) + braced(a), other);
            lemma_split(i, p, seq![TokenKindV::If] + kinds(*c), braced(a));
            lemma_split(i, p, seq![TokenKindV::If], kinds(*c));
            let m = p + 1 + kinds(*c).len();
            let n = m + braced(a).len();
            lemma_at(i, m, braced(a), 0);
            lemma_at(i, n, other, 0);
            lemma_begins(*x);
            lemma_at(i, n + 1, kinds(*x), 0);
            assert(kinds(*x)[0] is If);
            let y = lemma_read(i, p + 1, *c);
            lemma_begins(*c);
            let z = lemma_block(i, m, a);
            let w = lemma_if(i, n + 1, *x);
            un_if(i, p);
            g_if(i, p)->Ok_0.0
        },
        _ => arbitrary(),
    }
}

/// The fields of a struct.
proof fn lemma_set_out(
    i: Input,
    p: int,
    ts: Seq<(Seq<char>, Term)>,
    j: int,
    acc: Seq<(Seq<char>, ExprV)>,
) -> (fs: Seq<(Seq<char>, ExprV)>)
    requires
        are_fields(ts),
        0 <= j <= ts.len(),
        acc.len() == j,
        forall|k: int|
            0 <= k < j ==> acc[k].0 == (#[trigger] ts[k]).0 && means(acc[k].1, ts[k].1),
        stand_at(i, p, set_out(ts, j)),
        kind_at(i, p + set_out(ts, j).len()) is RBrace,
    ensures
        mean_fields(fs, ts),
        g_inits(i, p, acc) == Ok::<(Seq<(Seq<char>, ExprV)>, int), CompileErrorV>(
            (fs, p + set_out(ts, j).len()),
        ),
    decreases ts, ts.len() - j,
{
    un_inits(i, p, acc);
    if j < ts.len() {
        let head = seq![TokenKindV::Ident(ts[j].0), TokenKindV::Colon];
        let comma = seq![TokenKindV::Comma];
        let v = ts[j].1;
        lemma_begins(v);
        lemma_split(i, p, head + kinds(v) + comma, set_out(ts, j + 1));
        lemma_split(i, p, head + kinds(v), comma);
        lemma_split(i, p, head, kinds(v));
        lemma_at(i, p, head, 0);
        lemma_at(i, p, head, 1);
        let m = p + 2 + kinds(v).len();
        lemma_at(i, m, comma, 0);
        let e = lemma_read(i, p + 2, v);
        reveal(g_ident);
        lemma_set_out(i, m + 1, ts, j + 1, acc.push((ts[j].0, e)))
    } else {
        acc
    }
}

/// A pattern.
proof fn lemma_shape(i: Input, p: int, s: Shape) -> (x: PatternV)
    requires
        is_shape(s),
        stand_at(i, p, shape_kinds(s)),
        ({
            let k = kind_at(i, p + shape_kinds(s).len());
            k is FatArrow || k is If || k is RParen
        }),
    ensures
        means_shape(x, s),
        g_pattern(i, p) == Ok::<(PatternV, int), CompileErrorV>((x, p + shape_kinds(s).len())),
        shape_kinds(s).len() > 0,
    decreases s,
{
    un_pattern(i, p);
    match s {
        Shape::Case(name, Some(y)) => {
            let open = seq![TokenKindV::Dot, TokenKindV::Ident(name), TokenKindV::LParen];
            let close = seq![TokenKindV::RParen];
            lemma_split(i, p, open + shape_kinds(*y), close);
            lemma_split(i, p, open, shape_kinds(*y));
            lemma_at(i, p, open, 0);
            lemma_at(i, p, open, 1);
            lemma_at(i, p, open, 2);
            lemma_at(i, p + 3 + shape_kinds(*y).len(), close, 0);
            let z = lemma_shape(i, p + 3, *y);
            reveal(g_ident);
        },
        Shape::Case(name, None) => {
            lemma_at(i, p, shape_kinds(s), 0);
            lemma_at(i, p, shape_kinds(s), 1);
            reveal(g_ident);
        },
        Shape::Bind(is_mut, name) => {
            lemma_at(i, p, shape_kinds(s), 0);
            lemma_at(i, p, shape_kinds(s), 1);
            reveal(g_ident);
        },
        _ => {
            lemma_at(i, p, shape_kinds(s), 0);
        },
    }
    g_pattern(i, p)->Ok_0.0
}

/// The arms of a match.
proof fn lemma_arms(i: Input, p: int, arms: Seq<Arm>, j: int, acc: Seq<MatchArmV>) -> (xs: Seq<
    MatchArmV,
>)
    requires
        are_arms(arms),
        0 <= j <= arms.len(),
        acc.len() == j,
        forall|k: int| 0 <= k < j ==> means_arm(acc[k], #[trigger] arms[k]),
        stand_at(i, p, arms_kinds(arms, j)),
        kind_at(i, p + arms_kinds(arms, j).len()) is RBrace,
    ensures
        mean_arms(xs, arms),
        g_arms(i, p, acc) == Ok::<(Seq<MatchArmV>, int), CompileErrorV>(
            (xs, p + arms_kinds(arms, j).len()),
        ),
    decreases arms, arms.len() - j,
{
    un_arms(i, p, acc);
    if j < arms.len() {
        let arm = arms[j];
        let word = seq![TokenKindV::Case];
        let arrow = seq![TokenKindV::FatArrow];
        let comma = seq![TokenKindV::Comma];
        let shape = shape_kinds(arm.pattern);
        let guard = guard_kinds(arm.guard);
        let body = kinds(*arm.body);
        let rest = arms_kinds(arms, j + 1);
        lemma_split(i, p, word + shape + guard + arrow + body + comma, rest);
        lemma_split(i, p, word + shape + guard + arrow + body, comma);
        lemma_split(i, p, word + shape + guard + arrow, body);
        lemma_split(i, p, word + shape + guard, arrow);
        lemma_split(i, p, word + shape, guard);
        lemma_split(i, p, word, shape);
        lemma_at(i, p, word, 0);
        let q = p + 1 + shape.len();
        let r = q + guard.len();
        let s = r + 1 + body.len();
        lemma_at(i, r, arrow, 0);
        lemma_at(i, s, comma, 0);
        if guard.len() > 0 {
            lemma_at(i, q, guard, 0);
        }
        let pattern = lemma_shape(i, p + 1, arm.pattern);
        let g = lemma_guard(i, q, arm.guard);
        lemma_begins(*arm.body);
        let e = lemma_read(i, r + 1, *arm.body);
        let x = MatchArmV { pattern, guard: g, body: Box::new(e) };
        lemma_arms(i, s + 1, arms, j + 1, acc.push(x))
    } else {
        acc
    }
}

proof fn lemma_guard(i: Input, p: int, guard: Option<Box<Term>>) -> (g: Option<Box<ExprV>>)
    requires
        guard matches Some(x) ==> is_grouped(*x) && rank(*x) >= 0,
        stand_at(i, p, guard_kinds(guard)),
        kind_at(i, p + guard_kinds(guard).len()) is FatArrow,
    ensures
        match (g, guard) {
            (Some(a), Some(b)) => means(*a, *b),
            (None, None) => true,
            _ => false,
        },
        g_guard(i, p) == Ok::<(Option<Box<ExprV>>, int), CompileErrorV>(
            (g, p + guard_kinds(guard).len()),
        ),
    decreases guard, 1int,
{
    un_guard(i, p);
    match guard {
        Some(x) => {
            lemma_split(i, p, seq![TokenKindV::If], kinds(*x));
            lemma_at(i, p, seq![TokenKindV::If], 0);
            lemma_begins(*x);
            let e = lemma_read(i, p + 1, *x);
            Some(Box::new(e))
        },
        None => None,
    }
}

/// Arguments in brackets.
proof fn lemma_arguments(i: Input, p: int, ts: Seq<Term>) -> (es: Seq<ExprV>)
    requires
        are_arguments(ts),
        stand_at(i, p, bracketed(ts)),
    ensures
        mean_all(es, ts),
        g_call_args(i, p) == Ok::<(Seq<ExprV>, int), CompileErrorV>((es, p + bracketed(ts).len())),
        bracketed(ts).len() >= 2,
    decreases ts, ts.len() + 5,
{
    un_call_args(i, p);
    let open = seq![TokenKindV::LParen];
    let close = seq![TokenKindV::RParen];
    lemma_split(i, p, open + listed(ts, 0), close);
    lemma_split(i, p, open, listed(ts, 0));
    lemma_at(i, p, open, 0);
    let n = p + 1 + listed(ts, 0).len();
    lemma_at(i, n, close, 0);
    if ts.len() == 0 {
        Seq::empty()
    } else {
        lemma_begins(ts[0]);
        assert(listed(ts, 0)[0] == kinds(ts[0])[0]);
        lemma_at(i, p + 1, listed(ts, 0), 0);
        lemma_listed(i, p + 1, ts, 0, Seq::empty())
    }
}

proof fn lemma_listed(i: Input, p: int, ts: Seq<Term>, j: int, acc: Seq<ExprV>) -> (es: Seq<ExprV>)
    requires
        are_arguments(ts),
        0 <= j < ts.len(),
        acc.len() == j,
        forall|k: int| 0 <= k < j ==> means(acc[k], #[trigger] ts[k]),
        stand_at(i, p, listed(ts, j)),
        kind_at(i, p + listed(ts, j).len()) is RParen,
    ensures
        mean_all(es, ts),
        g_exprs(i, p, acc) == Ok::<(Seq<ExprV>, int), CompileErrorV>(
            (es, p + listed(ts, j).len()),
        ),
        listed(ts, j).len() > 0,
    decreases ts, ts.len() - j,
{
    un_exprs(i, p, acc);
    lemma_begins(ts[j]);
    if j + 1 < ts.len() {
        let comma = seq![TokenKindV::Comma];
        lemma_split(i, p, kinds(ts[j]) + comma, listed(ts, j + 1));
        lemma_split(i, p, kinds(ts[j]), comma);
        let m = p + kinds(ts[j]).len();
        lemma_at(i, m, comma, 0);
        let e = lemma_read(i, p, ts[j]);
        lemma_listed(i, m + 1, ts, j + 1, acc.push(e))
    } else {
        let e = lemma_read(i, p, ts[j]);
        acc.push(e)
    }
}

/// A block in braces.
pub proof fn lemma_block(i: Input, p: int, ts: Seq<Term>) -> (b: BlockV)
    requires
        are_statements(ts),
        stand_at(i, p, braced(ts)),
    ensures
        mean_all(b.stmts, ts),
        g_block(i, p) == Ok::<(BlockV, int), CompileErrorV>((b, p + braced(ts).len())),
    decreases ts, ts.len() + 6,
{
    un_block(i, p);
    lemma_at(i, p, braced(ts), 0);
    lemma_block_body(i, p, ts, span_of(i, p))
}

proof fn lemma_block_body(i: Input, p: int, ts: Seq<Term>, start: Span) -> (b: BlockV)
    requires
        are_statements(ts),
        stand_at(i, p, braced(ts)),
    ensures
        mean_all(b.stmts, ts),
        g_block_body(i, start, p + 1) == Ok::<(BlockV, int), CompileErrorV>(
            (b, p + braced(ts).len()),
        ),
    decreases ts, ts.len() + 5,
{
    let open = seq![TokenKindV::LBrace];
    let close = seq![TokenKindV::RBrace];
    lemma_split(i, p, open + ended(ts, 0), close);
    lemma_split(i, p, open, ended(ts, 0));
    let n = p + 1 + ended(ts, 0).len();
    lemma_at(i, n, close, 0);
    un_block_body(i, start, p + 1);
    let es = lemma_ended(i, p + 1, ts, 0, Seq::empty());
    g_block_body(i, start, p + 1)->Ok_0.0
}

proof fn lemma_ended(i: Input, p: int, ts: Seq<Term>, j: int, acc: Seq<ExprV>) -> (es: Seq<ExprV>)
    requires
        are_statements(ts),
        0 <= j <= ts.len(),
        acc.len() == j,
        forall|k: int| 0 <= k < j ==> means(acc[k], #[trigger] ts[k]),
        stand_at(i, p, ended(ts, j)),
        kind_at(i, p + ended(ts, j).len()) is RBrace,
    ensures
        mean_all(es, ts),
        g_stmts(i, p, acc) == Ok::<(Seq<ExprV>, int), CompileErrorV>((es, p + ended(ts, j).len())),
    decreases ts, ts.len() - j,
{
    un_stmts(i, p, acc);
    if j < ts.len() {
        let semi = seq![TokenKindV::Semicolon];
        lemma_begins(ts[j]);
        lemma_split(i, p, kinds(ts[j]) + semi, ended(ts, j + 1));
        lemma_split(i, p, kinds(ts[j]), semi);
        let m = p + kinds(ts[j]).len();
        lemma_at(i, m, semi, 0);
        lemma_at(i, p, kinds(ts[j]), 0);
        let e = lemma_read(i, p, ts[j]);
        lemma_ended(i, m + 1, ts, j + 1, acc.push(e))
    } else {
        acc
    }
}

// ---------------------------------------------------------------------------- laws

/// Parsing undoes writing: the tokens of a term whose operators group as they bind are
/// parsed to the tree that the term means, and all of them are read.
pub proof fn law_term_read_back(i: Input, p: int, t: Term)
    requires
        is_grouped(t),
        stand_at(i, p, kinds(t)),
        closes(kind_at(i, p + kinds(t).len())),
        t is Return ==> kind_at(i, p + kinds(t).len()) is Semicolon,
    ensures
        g_expr(i, p) matches Ok((e, q)) && q == p + kinds(t).len() && means(e, t),
{
    let e = lemma_read(i, p, t);
}

/// An operator that binds more tightly takes its operands first, on either side of one that
/// binds less tightly; of operators that bind alike the first is applied first.
pub proof fn law_precedence(i: Input, p: int, a: Term, x: BinOp, b: Term, y: BinOp, c: Term)
    requires
        is_grouped(a) && is_grouped(b) && is_grouped(c),
        rank(a) >= 5 && rank(b) >= 5 && rank(c) >= 5,
        stand_at(i, p, kinds(a) + seq![sign(x)] + kinds(b) + seq![sign(y)] + kinds(c)),
        closes(
            kind_at(
                i,
                p + (kinds(a) + seq![sign(x)] + kinds(b) + seq![sign(y)] + kinds(c)).len(),
            ),
        ),
    ensures
        ({
            let left = Term::Infix(
                y,
                Box::new(Term::Infix(x, Box::new(a), Box::new(b))),
                Box::new(c),
            );
            let right = Term::Infix(
                x,
                Box::new(a),
                Box::new(Term::Infix(y, Box::new(b), Box::new(c))),
            );
            g_expr(i, p) matches Ok((e, q)) && if tightness(y) > tightness(x) {
                means(e, right)
            } else {
                means(e, left)
            }
        }),
{
    let left = Term::Infix(y, Box::new(Term::Infix(x, Box::new(a), Box::new(b))), Box::new(c));
    let right = Term::Infix(x, Box::new(a), Box::new(Term::Infix(y, Box::new(b), Box::new(c))));
    let ks = kinds(a) + seq![sign(x)] + kinds(b) + seq![sign(y)] + kinds(c);
    reveal_with_fuel(kinds, 3);
    reveal_with_fuel(is_grouped, 3);
    if tightness(y) > tightness(x) {
        assert(kinds(right) =~= ks);
        law_term_read_back(i, p, right);
    } else {
        assert(kinds(left) =~= ks);
        law_term_read_back(i, p, left);
    }
}

} // verus!
