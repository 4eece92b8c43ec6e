//! The syntax tree.
use vstd::prelude::*;
use crate::model::{BlockV, ExprKindV, ExprV, PathSegmentV, PathV, TypeV};
use crate::text::{cat2, cat3, cat4, str_eq};
use crate::token::{Span, TokenKind, TokenKindV};

verus! {

use crate::model::{
    block_v, exprs_v, field_inits_v, function_type_v, group_list_views, match_arms_v, opt_block_v,
    opt_type_v, path_segment_v, path_segments_v, path_v, type_v, types_v,
};
use crate::token::kind_text;

/// A source file.
#[derive(Debug)]
pub struct Module {
    pub name: String,
    pub imports: Vec<Import>,
    pub items: Vec<Item>,
}

/// An import declaration.
#[derive(Debug)]
pub struct Import {
    pub path: Vec<String>,
    pub items: Vec<ImportItem>,
    pub span: Span,
}

/// What to import from a module.
#[derive(Debug)]
pub enum ImportItem {
    /// `import foo.bar`: everything public.
    All,
    /// `import foo.{bar, baz as qux}`: the named items.
    Single { name: String, alias: Option<String> },
}

/// A top-level declaration.
#[derive(Debug)]
pub enum Item {
    Function(Function),
    Struct(Struct),
    Enum(Enum),
    Macro(MacroDef),
    TypeAlias(TypeAlias),
    /// A module-level variable.
    VarDecl(VarDecl),
    /// `@name(args)` at module level.
    MacroCall(MacroCallItem),
    Trait(TraitDef),
    Impl(ImplBlock),
}

#[derive(Debug)]
pub struct Function {
    pub name: String,
    pub generics: Vec<GenericParam>,
    pub params: Vec<Param>,
    pub return_type: Type,
    pub body: Block,
    pub is_pub: bool,
    pub span: Span,
}

/// A parameter; `named` where it is written `~name`.
#[derive(Debug)]
pub struct Param {
    pub name: String,
    pub ty: Type,
    pub named: bool,
    pub default: Option<Expr>,
    pub span: Span,
}

#[derive(Debug)]
pub struct Struct {
    pub name: String,
    pub generics: Vec<GenericParam>,
    pub fields: Vec<StructField>,
    pub is_pub: bool,
    pub span: Span,
}

#[derive(Debug)]
pub struct StructField {
    pub name: String,
    pub ty: Type,
    pub span: Span,
}

#[derive(Debug)]
pub struct Enum {
    pub name: String,
    pub generics: Vec<GenericParam>,
    pub cases: Vec<EnumCase>,
    pub is_pub: bool,
    pub span: Span,
}

#[derive(Debug)]
pub struct EnumCase {
    pub name: String,
    pub payload: Option<Type>,
    pub span: Span,
}

#[derive(Debug)]
pub struct TypeAlias {
    pub name: String,
    pub generics: Vec<GenericParam>,
    pub ty: Type,
    pub span: Span,
}

#[derive(Debug)]
pub struct VarDecl {
    pub name: String,
    pub ty: Option<Type>,
    pub value: Option<Expr>,
    pub is_mut: bool,
    pub span: Span,
}

#[derive(Debug)]
pub struct GenericParam {
    pub name: String,
    pub span: Span,
}

#[derive(Debug)]
pub enum Type {
    Path(Path),
    /// `@T`, a reference to the garbage-collected heap.
    GcRef(Box<Type>),
    Function(FunctionType),
    Tuple(Vec<Type>),
    Unit,
    Never,
}

#[derive(Debug)]
pub struct FunctionType {
    pub params: Vec<Type>,
    pub ret: Box<Type>,
}

#[derive(Debug)]
pub struct Path {
    pub segments: Vec<PathSegment>,
}

/// One name of a path with its generic arguments.
#[derive(Debug)]
pub struct PathSegment {
    pub name: String,
    pub args: Vec<Type>,
}

#[derive(Debug)]
pub struct Expr {
    pub kind: ExprKind,
    pub span: Span,
}

#[derive(Debug)]
#[allow(inconsistent_fields)]
pub enum ExprKind {
    IntLiteral(i64),
    /// The decimal text of the number, without needless zeros.
    FloatLiteral(String),
    StringLiteral(String),
    CharLiteral(char),
    BoolLiteral(bool),
    NilLiteral,
    Ident(String),
    /// `foo::bar::baz`
    Path(Vec<String>),
    Block(Block),
    Binary { op: BinOp, left: Box<Expr>, right: Box<Expr> },
    Unary { op: UnaryOp, expr: Box<Expr> },
    Call { func: Box<Expr>, args: Vec<Expr> },
    Field { object: Box<Expr>, field: String },
    Index { object: Box<Expr>, index: Box<Expr> },
    /// A field or a call without arguments: the type checker decides.
    DotAccess { object: Box<Expr>, field: String },
    Let { name: String, ty: Option<Type>, value: Box<Expr>, is_mut: bool },
    Assign { target: Box<Expr>, value: Box<Expr> },
    AssignOp { target: Box<Expr>, op: BinOp, value: Box<Expr> },
    If { cond: Box<Expr>, then_branch: Block, else_branch: Option<Block> },
    While { cond: Box<Expr>, body: Block },
    For { var: String, iter: Box<Expr>, body: Block },
    Return(Option<Box<Expr>>),
    Match { expr: Box<Expr>, arms: Vec<MatchArm> },
    GcNew { ty: Type, fields: Vec<(String, Expr)> },
    Lambda { params: Vec<Param>, return_type: Type, body: Box<Expr> },
    StructLit { path: Vec<String>, fields: Vec<(String, Expr)> },
    EnumCtor { path: Vec<String>, case: String, arg: Option<Box<Expr>> },
    Quote(Vec<Expr>),
    /// `$(expr)`
    Unquote(Box<Expr>),
    /// `$ident`
    UnquoteIdent(String),
    MacroCall { name: String, args: Vec<Expr> },
    /// A function inside a quote.
    FuncDef(Function),
    /// `@cpp { raw C++ }`
    CppBlock(String),
    /// The items that a call at compile time gave.
    CompileTimeResult(Vec<Item>),
    /// `~name: value`
    NamedArg { name: String, value: Box<Expr> },
}

#[derive(Debug)]
pub struct Block {
    pub stmts: Vec<Expr>,
    pub span: Span,
}

#[derive(Debug)]
pub struct MatchArm {
    pub pattern: Pattern,
    pub guard: Option<Box<Expr>>,
    pub body: Box<Expr>,
}

#[derive(Debug)]
pub struct Pattern {
    pub kind: PatternKind,
    pub span: Span,
}

#[derive(Debug)]
pub enum PatternKind {
    Wildcard,
    Literal(LiteralPat),
    Variable { name: String, is_mut: bool },
    EnumCtor { path: Vec<String>, case: String, inner: Option<Box<Pattern>> },
    Struct { path: Vec<String>, fields: Vec<(String, Pattern)> },
    Or(Vec<Pattern>),
}

#[derive(Debug)]
pub enum LiteralPat {
    Int(i64),
    Float(String),
    String(String),
    Char(char),
    Bool(bool),
    Nil,
}

/// A macro; its body is a block that holds quotes.
#[derive(Debug)]
pub struct MacroDef {
    pub name: String,
    pub params: Vec<String>,
    pub body: Box<Expr>,
    pub span: Span,
}

#[derive(Debug)]
pub struct MacroCallItem {
    pub name: String,
    pub args: Vec<Expr>,
    pub span: Span,
}

#[derive(Debug)]
pub struct TraitDef {
    pub name: String,
    pub generics: Vec<GenericParam>,
    pub self_alias: Option<String>,
    pub methods: Vec<Function>,
    pub span: Span,
}

#[derive(Debug)]
pub struct ImplBlock {
    pub trait_name: String,
    pub generics: Vec<GenericParam>,
    pub target_type: Type,
    pub methods: Vec<Function>,
    pub span: Span,
}

// ------------------------------------------------------------------- operators

#[derive(Debug, Clone, Copy, PartialEq, Eq, Structural)]
pub enum BinOp {
    Add,
    Sub,
    Mul,
    Div,
    Mod,
    Eq,
    NotEq,
    Lt,
    Gt,
    LtEq,
    GtEq,
    And,
    Or,
}

#[derive(Debug, Clone, Copy, PartialEq, Eq, Structural)]
pub enum UnaryOp {
    /// `-`
    Neg,
    /// `!`
    Not,
}

/// The operator that a token writes.
pub open spec fn bin_op_of(k: TokenKindV) -> Option<BinOp> {
    match k {
        TokenKindV::Plus => Some(BinOp::Add),
        TokenKindV::Minus => Some(BinOp::Sub),
        TokenKindV::Star => Some(BinOp::Mul),
        TokenKindV::Slash => Some(BinOp::Div),
        TokenKindV::Percent => Some(BinOp::Mod),
        TokenKindV::EqEq => Some(BinOp::Eq),
        TokenKindV::NotEq => Some(BinOp::NotEq),
        TokenKindV::Lt => Some(BinOp::Lt),
        TokenKindV::Gt => Some(BinOp::Gt),
        TokenKindV::LtEq => Some(BinOp::LtEq),
        TokenKindV::GtEq => Some(BinOp::GtEq),
        TokenKindV::AndAnd => Some(BinOp::And),
        TokenKindV::OrOr => Some(BinOp::Or),
        _ => None,
    }
}

/// How C++ writes an operator.
pub open spec fn cpp_op_text(op: BinOp) -> Seq<char> {
    match op {
        BinOp::Add => "+"@,
        BinOp::Sub => "-"@,
        BinOp::Mul => "*"@,
        BinOp::Div => "/"@,
        BinOp::Mod => "%"@,
        BinOp::Eq => "=="@,
        BinOp::NotEq => "!="@,
        BinOp::Lt => "<"@,
        BinOp::Gt => ">"@,
        BinOp::LtEq => "<="@,
        BinOp::GtEq => ">="@,
        BinOp::And => "&&"@,
        BinOp::Or => "||"@,
    }
}

impl BinOp {
    pub fn from_token(kind: &TokenKind) -> (r: Option<Self>)
        ensures
            r == bin_op_of(kind@),
    {
        match kind {
            TokenKind::Plus => Some(BinOp::Add),
            TokenKind::Minus => Some(BinOp::Sub),
            TokenKind::Star => Some(BinOp::Mul),
            TokenKind::Slash => Some(BinOp::Div),
            TokenKind::Percent => Some(BinOp::Mod),
            TokenKind::EqEq => Some(BinOp::Eq),
            TokenKind::NotEq => Some(BinOp::NotEq),
            TokenKind::Lt => Some(BinOp::Lt),
            TokenKind::Gt => Some(BinOp::Gt),
            TokenKind::LtEq => Some(BinOp::LtEq),
            TokenKind::GtEq => Some(BinOp::GtEq),
            TokenKind::AndAnd => Some(BinOp::And),
            TokenKind::OrOr => Some(BinOp::Or),
            _ => None,
        }
    }

    pub fn cpp_op(&self) -> (r: &str)
        ensures
            r@ == cpp_op_text(*self),
    {
        match self {
            BinOp::Add => "+",
            BinOp::Sub => "-",
            BinOp::Mul => "*",
            BinOp::Div => "/",
            BinOp::Mod => "%",
            BinOp::Eq => "==",
            BinOp::NotEq => "!=",
            BinOp::Lt => "<",
            BinOp::Gt => ">",
            BinOp::LtEq => "<=",
            BinOp::GtEq => ">=",
            BinOp::And => "&&",
            BinOp::Or => "||",
        }
    }
}

/// An operator is written in C++ as its token is written in Nova.
pub proof fn law_operator_text(k: TokenKindV)
    ensures
        bin_op_of(k) matches Some(op) ==> cpp_op_text(op) == kind_text(k),
{
    reveal(kind_text);
}

// ----------------------------------------------------------------------- types

/// The path of one name without arguments.
pub open spec fn simple_path(name: Seq<char>) -> PathV {
    PathV { segments: seq![PathSegmentV { name, args: Seq::empty() }] }
}

/// The type named by one name without arguments.
pub open spec fn named_type(name: Seq<char>) -> TypeV {
    TypeV::Path(simple_path(name))
}

impl Path {
    pub fn simple(name: &str) -> (r: Self)
        ensures
            r@ == simple_path(name@),
    {
        broadcast use group_list_views;

        let mut segments: Vec<PathSegment> = Vec::new();
        let seg = PathSegment { name: name.to_owned(), args: Vec::new() };
        let ghost g = path_segment_v(seg);
        segments.push(seg);
        assert(path_segments_v(segments@) =~= seq![g]);
        Path { segments }
    }
}

impl Type {
    pub fn path(name: &str) -> (r: Self)
        ensures
            r@ == named_type(name@),
    {
        Type::Path(Path::simple(name))
    }

    pub fn gc_ref(inner: Type) -> (r: Self)
        ensures
            r@ == TypeV::GcRef(Box::new(inner@)),
    {
        Type::GcRef(Box::new(inner))
    }
}

/// How a type is written.
pub open spec fn type_text(t: TypeV) -> Seq<char>
    decreases t, 0int,
{
    match t {
        TypeV::Path(p) => path_text(p.segments, 0, Seq::empty()),
        TypeV::GcRef(inner) => "@"@ + type_text(*inner),
        TypeV::Function(ft) => "("@ + types_text(ft.params, 0, Seq::empty()) + ") -> "@
            + type_text(*ft.ret),
        TypeV::Tuple(types) => "("@ + types_text(types, 0, Seq::empty()) + ")"@,
        TypeV::Unit => "()"@,
        TypeV::Never => "!"@,
    }
}

/// `acc` and then the types from `i` on, with commas between them.
pub open spec fn types_text(ts: Seq<TypeV>, i: int, acc: Seq<char>) -> Seq<char>
    decreases ts, ts.len() - i,
{
    if 0 <= i < ts.len() {
        let acc1 = if i > 0 {
            acc + ", "@
        } else {
            acc
        };
        types_text(ts, i + 1, acc1 + type_text(ts[i]))
    } else {
        acc
    }
}

/// `acc` and then the path from segment `i` on.
pub open spec fn path_text(segs: Seq<PathSegmentV>, i: int, acc: Seq<char>) -> Seq<char>
    decreases segs, segs.len() - i,
{
    if 0 <= i < segs.len() {
        let acc1 = if i > 0 {
            acc + "::"@ + segs[i].name
        } else {
            acc + segs[i].name
        };
        let acc2 = if segs[i].args.len() > 0 {
            acc1 + "["@ + types_text(segs[i].args, 0, Seq::empty()) + "]"@
        } else {
            acc1
        };
        path_text(segs, i + 1, acc2)
    } else {
        acc
    }
}

impl Type {
    /// How the type is written.
    pub fn display(&self) -> (r: String)
        ensures
            r@ == type_text(self@),
        decreases self,
    {
        match self {
            Type::Path(p) => {
                let ghost g = path_v(*p);
                display_segments(&p.segments)
            },
            Type::GcRef(inner) => cat2("@", &inner.display()),
            Type::Function(ft) => {
                let ghost g = function_type_v(*ft);
                cat4("(", &display_types(&ft.params), ") -> ", &ft.ret.display())
            },
            Type::Tuple(types) => cat3("(", &display_types(types), ")"),
            Type::Unit => "()".to_owned(),
            Type::Never => "!".to_owned(),
        }
    }
}

impl Path {
    /// How the path is written.
    pub fn display(&self) -> (r: String)
        ensures
            r@ == path_text(self@.segments, 0, Seq::empty()),
    {
        display_segments(&self.segments)
    }
}

/// The types with commas between them.
pub fn display_types(ts: &Vec<Type>) -> (r: String)
    ensures
        r@ == types_text(types_v(ts@), 0, Seq::empty()),
    decreases ts,
{
    let mut s = String::new();
    let mut i: usize = 0;
    while i < ts.len()
        invariant
            i <= ts.len(),
            types_text(types_v(ts@), 0, Seq::empty()) == types_text(types_v(ts@), i as int, s@),
        decreases ts.len() - i,
    {
        if i > 0 {
            s.append(", ");
        }
        s.append(&ts[i].display());
        i += 1;
    }
    s
}

fn display_segments(segs: &Vec<PathSegment>) -> (r: String)
    ensures
        r@ == path_text(path_segments_v(segs@), 0, Seq::empty()),
    decreases segs,
{
    let mut s = String::new();
    let mut i: usize = 0;
    while i < segs.len()
        invariant
            i <= segs.len(),
            path_text(path_segments_v(segs@), 0, Seq::empty()) == path_text(
                path_segments_v(segs@),
                i as int,
                s@,
            ),
        decreases segs.len() - i,
    {
        let ghost g = path_segment_v(segs[i as int]);
        if i > 0 {
            s.append("::");
        }
        s.append(&segs[i].name);
        if segs[i].args.len() > 0 {
            s.append("[");
            s.append(&display_types(&segs[i].args));
            s.append("]");
        }
        i += 1;
    }
    s
}

impl Type {
    /// Whether the two types are the same.
    pub fn equals(&self, other: &Type) -> (r: bool)
        ensures
            r == (self@ == other@),
        decreases self,
    {
        match (self, other) {
            (Type::Path(a), Type::Path(b)) => {
                let ghost g = (path_v(*a), path_v(*b));
                segments_equal(&a.segments, &b.segments)
            },
            (Type::GcRef(a), Type::GcRef(b)) => a.equals(b),
            (Type::Function(a), Type::Function(b)) => {
                let ghost g = (function_type_v(*a), function_type_v(*b));
                types_equal(&a.params, &b.params) && a.ret.equals(&b.ret)
            },
            (Type::Tuple(a), Type::Tuple(b)) => types_equal(a, b),
            (Type::Unit, Type::Unit) => true,
            (Type::Never, Type::Never) => true,
            _ => false,
        }
    }
}

/// Whether the two lists of types are the same.
pub fn types_equal(a: &Vec<Type>, b: &Vec<Type>) -> (r: bool)
    ensures
        r == (types_v(a@) == types_v(b@)),
    decreases a,
{
    if a.len() != b.len() {
        assert(types_v(a@).len() != types_v(b@).len());
        return false;
    }
    let mut i: usize = 0;
    while i < a.len()
        invariant
            i <= a.len(),
            a.len() == b.len(),
            forall|k: int| 0 <= k < i ==> type_v(#[trigger] a[k]) == type_v(b[k]),
        decreases a.len() - i,
    {
        if !a[i].equals(&b[i]) {
            assert(types_v(a@)[i as int] != types_v(b@)[i as int]);
            return false;
        }
        i += 1;
    }
    assert(types_v(a@) =~= types_v(b@));
    true
}

fn segments_equal(a: &Vec<PathSegment>, b: &Vec<PathSegment>) -> (r: bool)
    ensures
        r == (path_segments_v(a@) == path_segments_v(b@)),
    decreases a,
{
    if a.len() != b.len() {
        assert(path_segments_v(a@).len() != path_segments_v(b@).len());
        return false;
    }
    let mut i: usize = 0;
    while i < a.len()
        invariant
            i <= a.len(),
            a.len() == b.len(),
            forall|k: int|
                0 <= k < i ==> path_segment_v(#[trigger] a[k]) == path_segment_v(b[k]),
        decreases a.len() - i,
    {
        let ghost g = (path_segment_v(a[i as int]), path_segment_v(b[i as int]));
        if !str_eq(&a[i].name, &b[i].name) || !types_equal(&a[i].args, &b[i].args) {
            assert(path_segments_v(a@)[i as int] != path_segments_v(b@)[i as int]);
            return false;
        }
        i += 1;
    }
    assert(path_segments_v(a@) =~= path_segments_v(b@));
    true
}

// ----------------------------------------------------------------- expressions

pub open spec fn ident_expr(name: Seq<char>, span: Span) -> ExprV {
    ExprV { kind: ExprKindV::Ident(name), span }
}

pub open spec fn binary_expr(left: ExprV, op: BinOp, right: ExprV, span: Span) -> ExprV {
    ExprV { kind: ExprKindV::Binary { op, left: Box::new(left), right: Box::new(right) }, span }
}

pub open spec fn call_expr(func: ExprV, args: Seq<ExprV>, span: Span) -> ExprV {
    ExprV { kind: ExprKindV::Call { func: Box::new(func), args }, span }
}

pub open spec fn block_expr(stmts: Seq<ExprV>, span: Span) -> ExprV {
    ExprV { kind: ExprKindV::Block(BlockV { stmts, span }), span }
}

impl Expr {
    pub fn new(kind: ExprKind, span: Span) -> (r: Self)
        ensures
            r@ == (ExprV { kind: kind@, span }),
            r.kind == kind,
            r.span == span,
    {
        Expr { kind, span }
    }

    pub fn ident(name: &str, span: Span) -> (r: Self)
        ensures
            r@ == ident_expr(name@, span),
    {
        Self::new(ExprKind::Ident(name.to_owned()), span)
    }

    pub fn int_literal(n: i64, span: Span) -> (r: Self)
        ensures
            r@ == (ExprV { kind: ExprKindV::IntLiteral(n), span }),
    {
        Self::new(ExprKind::IntLiteral(n), span)
    }

    pub fn string_literal(s: &str, span: Span) -> (r: Self)
        ensures
            r@ == (ExprV { kind: ExprKindV::StringLiteral(s@), span }),
    {
        Self::new(ExprKind::StringLiteral(s.to_owned()), span)
    }

    pub fn call(func: Expr, args: Vec<Expr>, span: Span) -> (r: Self)
        ensures
            r@ == call_expr(func@, exprs_v(args@), span),
    {
        Self::new(ExprKind::Call { func: Box::new(func), args }, span)
    }

    pub fn binary(left: Expr, op: BinOp, right: Expr, span: Span) -> (r: Self)
        ensures
            r@ == binary_expr(left@, op, right@, span),
    {
        Self::new(ExprKind::Binary { op, left: Box::new(left), right: Box::new(right) }, span)
    }

    pub fn block(stmts: Vec<Expr>, span: Span) -> (r: Self)
        ensures
            r@ == block_expr(exprs_v(stmts@), span),
    {
        let b = Block { stmts, span };
        let ghost g = block_v(b);
        Self::new(ExprKind::Block(b), span)
    }

    pub fn return_expr(expr: Option<Expr>, span: Span) -> (r: Self)
        ensures
            r@ == (ExprV {
                kind: ExprKindV::Return(
                    match expr {
                        None => None,
                        Some(e) => Some(Box::new(e@)),
                    },
                ),
                span,
            }),
    {
        let inner: Option<Box<Expr>> = match expr {
            None => None,
            Some(e) => Some(Box::new(e)),
        };
        Self::new(ExprKind::Return(inner), span)
    }

    pub fn let_binding(name: &str, ty: Option<Type>, value: Expr, is_mut: bool, span: Span) -> (r:
        Self)
        ensures
            r@ == (ExprV {
                kind: ExprKindV::Let {
                    name: name@,
                    ty: opt_type_v(ty),
                    value: Box::new(value@),
                    is_mut,
                },
                span,
            }),
    {
        Self::new(
            ExprKind::Let { name: name.to_owned(), ty, value: Box::new(value), is_mut },
            span,
        )
    }

    pub fn assign(target: Expr, value: Expr, span: Span) -> (r: Self)
        ensures
            r@ == (ExprV {
                kind: ExprKindV::Assign { target: Box::new(target@), value: Box::new(value@) },
                span,
            }),
    {
        Self::new(ExprKind::Assign { target: Box::new(target), value: Box::new(value) }, span)
    }

    pub fn if_expr(cond: Expr, then_branch: Block, else_branch: Option<Block>, span: Span) -> (r:
        Self)
        ensures
            r@ == (ExprV {
                kind: ExprKindV::If {
                    cond: Box::new(cond@),
                    then_branch: then_branch@,
                    else_branch: opt_block_v(else_branch),
                },
                span,
            }),
    {
        Self::new(ExprKind::If { cond: Box::new(cond), then_branch, else_branch }, span)
    }

    pub fn match_expr(expr: Expr, arms: Vec<MatchArm>, span: Span) -> (r: Self)
        ensures
            r@ == (ExprV {
                kind: ExprKindV::Match { expr: Box::new(expr@), arms: match_arms_v(arms@) },
                span,
            }),
    {
        Self::new(ExprKind::Match { expr: Box::new(expr), arms }, span)
    }

    pub fn gc_new(ty: Type, fields: Vec<(String, Expr)>, span: Span) -> (r: Self)
        ensures
            r@ == (ExprV {
                kind: ExprKindV::GcNew { ty: ty@, fields: field_inits_v(fields@) },
                span,
            }),
    {
        Self::new(ExprKind::GcNew { ty, fields }, span)
    }
}

} // verus!
