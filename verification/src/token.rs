//! Tokens and the places where they stand in the source.
use vstd::prelude::*;
use crate::text::{cat3, char_text, show_i64};

verus! {

use crate::text::int_text;

/// A stretch of the source, in characters, with a line and a column, both counted from 1;
/// a line of 0 says that the place is not known.
#[derive(Debug, Clone, Copy, PartialEq, Eq, Hash, Structural)]
pub struct Span {
    pub start: usize,
    pub end: usize,
    pub line: usize,
    pub col: usize,
}

pub open spec fn min_of(a: usize, b: usize) -> usize {
    if a <= b {
        a
    } else {
        b
    }
}

pub open spec fn max_of(a: usize, b: usize) -> usize {
    if a >= b {
        a
    } else {
        b
    }
}

/// The smallest stretch that covers both.
pub open spec fn merge_spans(a: Span, b: Span) -> Span {
    Span {
        start: min_of(a.start, b.start),
        end: max_of(a.end, b.end),
        line: min_of(a.line, b.line),
        col: min_of(a.col, b.col),
    }
}

pub open spec fn zero_span() -> Span {
    Span { start: 0, end: 0, line: 0, col: 0 }
}

impl Span {
    pub fn new(start: usize, end: usize, line: usize, col: usize) -> (r: Self)
        ensures
            r == (Span { start, end, line, col }),
    {
        Span { start, end, line, col }
    }

    pub fn zero() -> (r: Self)
        ensures
            r == zero_span(),
    {
        Span { start: 0, end: 0, line: 0, col: 0 }
    }

    pub fn merge(&self, other: &Span) -> (r: Span)
        ensures
            r == merge_spans(*self, *other),
    {
        Span {
            start: if self.start <= other.start { self.start } else { other.start },
            end: if self.end >= other.end { self.end } else { other.end },
            line: if self.line <= other.line { self.line } else { other.line },
            col: if self.col <= other.col { self.col } else { other.col },
        }
    }

    /// `line:col`.
    pub fn display(&self) -> (r: String)
        ensures
            r@ == int_text(self.line as int) + ":"@ + int_text(self.col as int),
    {
        cat3(&crate::text::show_usize(self.line), ":", &crate::text::show_usize(self.col))
    }
}

/// Merging does not depend on the order of the two.
pub proof fn law_merge_commutes(a: Span, b: Span)
    ensures
        merge_spans(a, b) == merge_spans(b, a),
{
}

/// Merging does not depend on the grouping.
pub proof fn law_merge_associates(a: Span, b: Span, c: Span)
    ensures
        merge_spans(merge_spans(a, b), c) == merge_spans(a, merge_spans(b, c)),
{
}

/// Merging a stretch with itself changes nothing.
pub proof fn law_merge_idempotent(a: Span)
    ensures
        merge_spans(a, a) == a,
{
}

/// The merged stretch covers both, and is the smallest that does.
pub proof fn law_merge_covers(a: Span, b: Span, c: Span)
    ensures
        merge_spans(a, b).start <= a.start && a.end <= merge_spans(a, b).end,
        merge_spans(a, b).start <= b.start && b.end <= merge_spans(a, b).end,
        c.start <= a.start && c.start <= b.start && a.end <= c.end && b.end <= c.end ==> c.start
            <= merge_spans(a, b).start && merge_spans(a, b).end <= c.end,
{
}

/// The kinds of token.
#[derive(Debug)]
pub enum TokenKind {
    Func,
    Let,
    Var,
    Return,
    If,
    Else,
    Match,
    Case,
    Enum,
    Struct,
    Macro,
    Quote,
    While,
    For,
    In,
    As,
    Is,
    True,
    False,
    Nil,
    Type,
    Trait,
    Impl,
    Import,
    Module,
    Pub,
    Ident(String),
    IntLiteral(i64),
    /// The decimal text of the number, without needless zeros.
    FloatLiteral(String),
    StringLiteral(String),
    CharLiteral(char),
    /// `+`
    Plus,
    /// `-`
    Minus,
    /// `*`
    Star,
    /// `/`
    Slash,
    /// `%`
    Percent,
    /// `=`
    Eq,
    /// `==`
    EqEq,
    /// `!=`
    NotEq,
    /// `<`
    Lt,
    /// `>`
    Gt,
    /// `<=`
    LtEq,
    /// `>=`
    GtEq,
    /// `&&`
    AndAnd,
    /// `||`
    OrOr,
    /// `!`
    Not,
    /// `->`
    Arrow,
    /// `=>`
    FatArrow,
    /// `.`
    Dot,
    /// `..`
    DotDot,
    /// `:`
    Colon,
    /// `;`
    Semicolon,
    /// `,`
    Comma,
    /// `@`
    At,
    /// `$`
    Dollar,
    /// `_`
    Underscore,
    /// `?`
    Question,
    /// `~`
    Tilde,
    /// `#`
    Hash,
    /// `(`
    LParen,
    /// `)`
    RParen,
    /// `{`
    LBrace,
    /// `}`
    RBrace,
    /// `[`
    LBracket,
    /// `]`
    RBracket,
    /// `+=`
    PlusEq,
    /// `-=`
    MinusEq,
    /// `*=`
    StarEq,
    /// `/=`
    SlashEq,
    /// `%=`
    PercentEq,
    /// `#cpp`
    HashCpp,
    /// `#include`
    HashInclude,
    /// `#parse`
    HashParse,
    /// `#error`
    HashError,
    /// `#splice`
    HashSplice,
    /// `#filter_pub`
    HashFilterPub,
    /// Raw C++ text.
    RawCpp(String),
    /// The end of the source.
    Eof,
}

/// The model of a [`TokenKind`].
#[verifier::ext_equal]
pub enum TokenKindV {
    Func,
    Let,
    Var,
    Return,
    If,
    Else,
    Match,
    Case,
    Enum,
    Struct,
    Macro,
    Quote,
    While,
    For,
    In,
    As,
    Is,
    True,
    False,
    Nil,
    Type,
    Trait,
    Impl,
    Import,
    Module,
    Pub,
    Ident(Seq<char>),
    IntLiteral(i64),
    FloatLiteral(Seq<char>),
    StringLiteral(Seq<char>),
    CharLiteral(char),
    Plus,
    Minus,
    Star,
    Slash,
    Percent,
    Eq,
    EqEq,
    NotEq,
    Lt,
    Gt,
    LtEq,
    GtEq,
    AndAnd,
    OrOr,
    Not,
    Arrow,
    FatArrow,
    Dot,
    DotDot,
    Colon,
    Semicolon,
    Comma,
    At,
    Dollar,
    Underscore,
    Question,
    Tilde,
    Hash,
    LParen,
    RParen,
    LBrace,
    RBrace,
    LBracket,
    RBracket,
    PlusEq,
    MinusEq,
    StarEq,
    SlashEq,
    PercentEq,
    HashCpp,
    HashInclude,
    HashParse,
    HashError,
    HashSplice,
    HashFilterPub,
    RawCpp(Seq<char>),
    Eof,
}

impl View for TokenKind {
    type V = TokenKindV;

    open spec fn view(&self) -> TokenKindV {
        match self {
            TokenKind::Func => TokenKindV::Func,
            TokenKind::Let => TokenKindV::Let,
            TokenKind::Var => TokenKindV::Var,
            TokenKind::Return => TokenKindV::Return,
            TokenKind::If => TokenKindV::If,
            TokenKind::Else => TokenKindV::Else,
            TokenKind::Match => TokenKindV::Match,
            TokenKind::Case => TokenKindV::Case,
            TokenKind::Enum => TokenKindV::Enum,
            TokenKind::Struct => TokenKindV::Struct,
            TokenKind::Macro => TokenKindV::Macro,
            TokenKind::Quote => TokenKindV::Quote,
            TokenKind::While => TokenKindV::While,
            TokenKind::For => TokenKindV::For,
            TokenKind::In => TokenKindV::In,
            TokenKind::As => TokenKindV::As,
            TokenKind::Is => TokenKindV::Is,
            TokenKind::True => TokenKindV::True,
            TokenKind::False => TokenKindV::False,
            TokenKind::Nil => TokenKindV::Nil,
            TokenKind::Type => TokenKindV::Type,
            TokenKind::Trait => TokenKindV::Trait,
            TokenKind::Impl => TokenKindV::Impl,
            TokenKind::Import => TokenKindV::Import,
            TokenKind::Module => TokenKindV::Module,
            TokenKind::Pub => TokenKindV::Pub,
            TokenKind::Ident(x) => TokenKindV::Ident(x@),
            TokenKind::IntLiteral(x) => TokenKindV::IntLiteral(*x),
            TokenKind::FloatLiteral(x) => TokenKindV::FloatLiteral(x@),
            TokenKind::StringLiteral(x) => TokenKindV::StringLiteral(x@),
            TokenKind::CharLiteral(x) => TokenKindV::CharLiteral(*x),
            TokenKind::Plus => TokenKindV::Plus,
            TokenKind::Minus => TokenKindV::Minus,
            TokenKind::Star => TokenKindV::Star,
            TokenKind::Slash => TokenKindV::Slash,
            TokenKind::Percent => TokenKindV::Percent,
            TokenKind::Eq => TokenKindV::Eq,
            TokenKind::EqEq => TokenKindV::EqEq,
            TokenKind::NotEq => TokenKindV::NotEq,
            TokenKind::Lt => TokenKindV::Lt,
            TokenKind::Gt => TokenKindV::Gt,
            TokenKind::LtEq => TokenKindV::LtEq,
            TokenKind::GtEq => TokenKindV::GtEq,
            TokenKind::AndAnd => TokenKindV::AndAnd,
            TokenKind::OrOr => TokenKindV::OrOr,
            TokenKind::Not => TokenKindV::Not,
            TokenKind::Arrow => TokenKindV::Arrow,
            TokenKind::FatArrow => TokenKindV::FatArrow,
            TokenKind::Dot => TokenKindV::Dot,
            TokenKind::DotDot => TokenKindV::DotDot,
            TokenKind::Colon => TokenKindV::Colon,
            TokenKind::Semicolon => TokenKindV::Semicolon,
            TokenKind::Comma => TokenKindV::Comma,
            TokenKind::At => TokenKindV::At,
            TokenKind::Dollar => TokenKindV::Dollar,
            TokenKind::Underscore => TokenKindV::Underscore,
            TokenKind::Question => TokenKindV::Question,
            TokenKind::Tilde => TokenKindV::Tilde,
            TokenKind::Hash => TokenKindV::Hash,
            TokenKind::LParen => TokenKindV::LParen,
            TokenKind::RParen => TokenKindV::RParen,
            TokenKind::LBrace => TokenKindV::LBrace,
            TokenKind::RBrace => TokenKindV::RBrace,
            TokenKind::LBracket => TokenKindV::LBracket,
            TokenKind::RBracket => TokenKindV::RBracket,
            TokenKind::PlusEq => TokenKindV::PlusEq,
            TokenKind::MinusEq => TokenKindV::MinusEq,
            TokenKind::StarEq => TokenKindV::StarEq,
            TokenKind::SlashEq => TokenKindV::SlashEq,
            TokenKind::PercentEq => TokenKindV::PercentEq,
            TokenKind::HashCpp => TokenKindV::HashCpp,
            TokenKind::HashInclude => TokenKindV::HashInclude,
            TokenKind::HashParse => TokenKindV::HashParse,
            TokenKind::HashError => TokenKindV::HashError,
            TokenKind::HashSplice => TokenKindV::HashSplice,
            TokenKind::HashFilterPub => TokenKindV::HashFilterPub,
            TokenKind::RawCpp(x) => TokenKindV::RawCpp(x@),
            TokenKind::Eof => TokenKindV::Eof,
        }
    }
}

/// The number of the variant, whatever it holds.
pub open spec fn variant_index(k: TokenKindV) -> int {
    match k {
        TokenKindV::Func => 0,
        TokenKindV::Let => 1,
        TokenKindV::Var => 2,
        TokenKindV::Return => 3,
        TokenKindV::If => 4,
        TokenKindV::Else => 5,
        TokenKindV::Match => 6,
        TokenKindV::Case => 7,
        TokenKindV::Enum => 8,
        TokenKindV::Struct => 9,
        TokenKindV::Macro => 10,
        TokenKindV::Quote => 11,
        TokenKindV::While => 12,
        TokenKindV::For => 13,
        TokenKindV::In => 14,
        TokenKindV::As => 15,
        TokenKindV::Is => 16,
        TokenKindV::True => 17,
        TokenKindV::False => 18,
        TokenKindV::Nil => 19,
        TokenKindV::Type => 20,
        TokenKindV::Trait => 21,
        TokenKindV::Impl => 22,
        TokenKindV::Import => 23,
        TokenKindV::Module => 24,
        TokenKindV::Pub => 25,
        TokenKindV::Ident(_) => 26,
        TokenKindV::IntLiteral(_) => 27,
        TokenKindV::FloatLiteral(_) => 28,
        TokenKindV::StringLiteral(_) => 29,
        TokenKindV::CharLiteral(_) => 30,
        TokenKindV::Plus => 31,
        TokenKindV::Minus => 32,
        TokenKindV::Star => 33,
        TokenKindV::Slash => 34,
        TokenKindV::Percent => 35,
        TokenKindV::Eq => 36,
        TokenKindV::EqEq => 37,
        TokenKindV::NotEq => 38,
        TokenKindV::Lt => 39,
        TokenKindV::Gt => 40,
        TokenKindV::LtEq => 41,
        TokenKindV::GtEq => 42,
        TokenKindV::AndAnd => 43,
        TokenKindV::OrOr => 44,
        TokenKindV::Not => 45,
        TokenKindV::Arrow => 46,
        TokenKindV::FatArrow => 47,
        TokenKindV::Dot => 48,
        TokenKindV::DotDot => 49,
        TokenKindV::Colon => 50,
        TokenKindV::Semicolon => 51,
        TokenKindV::Comma => 52,
        TokenKindV::At => 53,
        TokenKindV::Dollar => 54,
        TokenKindV::Underscore => 55,
        TokenKindV::Question => 56,
        TokenKindV::Tilde => 57,
        TokenKindV::Hash => 58,
        TokenKindV::LParen => 59,
        TokenKindV::RParen => 60,
        TokenKindV::LBrace => 61,
        TokenKindV::RBrace => 62,
        TokenKindV::LBracket => 63,
        TokenKindV::RBracket => 64,
        TokenKindV::PlusEq => 65,
        TokenKindV::MinusEq => 66,
        TokenKindV::StarEq => 67,
        TokenKindV::SlashEq => 68,
        TokenKindV::PercentEq => 69,
        TokenKindV::HashCpp => 70,
        TokenKindV::HashInclude => 71,
        TokenKindV::HashParse => 72,
        TokenKindV::HashError => 73,
        TokenKindV::HashSplice => 74,
        TokenKindV::HashFilterPub => 75,
        TokenKindV::RawCpp(_) => 76,
        TokenKindV::Eof => 77,
    }
}

/// How a token kind is written in messages.
#[verifier::opaque]
pub open spec fn kind_text(k: TokenKindV) -> Seq<char> {
    match k {
        TokenKindV::Func => "func"@,
        TokenKindV::Let => "let"@,
        TokenKindV::Var => "var"@,
        TokenKindV::Return => "return"@,
        TokenKindV::If => "if"@,
        TokenKindV::Else => "else"@,
        TokenKindV::Match => "match"@,
        TokenKindV::Case => "case"@,
        TokenKindV::Enum => "enum"@,
        TokenKindV::Struct => "struct"@,
        TokenKindV::Macro => "macro"@,
        TokenKindV::Quote => "quote"@,
        TokenKindV::While => "while"@,
        TokenKindV::For => "for"@,
        TokenKindV::In => "in"@,
        TokenKindV::As => "as"@,
        TokenKindV::Is => "is"@,
        TokenKindV::True => "true"@,
        TokenKindV::False => "false"@,
        TokenKindV::Nil => "nil"@,
        TokenKindV::Type => "type"@,
        TokenKindV::Trait => "trait"@,
        TokenKindV::Impl => "impl"@,
        TokenKindV::Import => "import"@,
        TokenKindV::Module => "module"@,
        TokenKindV::Pub => "pub"@,
        TokenKindV::Ident(s) => s,
        TokenKindV::IntLiteral(s) => int_text(s as int),
        TokenKindV::FloatLiteral(s) => s,
        TokenKindV::StringLiteral(s) => "\""@ + s + "\""@,
        TokenKindV::CharLiteral(s) => "'"@ + seq![s] + "'"@,
        TokenKindV::Plus => "+"@,
        TokenKindV::Minus => "-"@,
        TokenKindV::Star => "*"@,
        TokenKindV::Slash => "/"@,
        TokenKindV::Percent => "%"@,
        TokenKindV::Eq => "="@,
        TokenKindV::EqEq => "=="@,
        TokenKindV::NotEq => "!="@,
        TokenKindV::Lt => "<"@,
        TokenKindV::Gt => ">"@,
        TokenKindV::LtEq => "<="@,
        TokenKindV::GtEq => ">="@,
        TokenKindV::AndAnd => "&&"@,
        TokenKindV::OrOr => "||"@,
        TokenKindV::Not => "!"@,
        TokenKindV::Arrow => "->"@,
        TokenKindV::FatArrow => "=>"@,
        TokenKindV::Dot => "."@,
        TokenKindV::DotDot => ".."@,
        TokenKindV::Colon => ":"@,
        TokenKindV::Semicolon => ";"@,
        TokenKindV::Comma => ","@,
        TokenKindV::At => "@"@,
        TokenKindV::Dollar => "$"@,
        TokenKindV::Underscore => "_"@,
        TokenKindV::Question => "?"@,
        TokenKindV::Tilde => "~"@,
        TokenKindV::Hash => "#"@,
        TokenKindV::LParen => "("@,
        TokenKindV::RParen => ")"@,
        TokenKindV::LBrace => "{"@,
        TokenKindV::RBrace => "}"@,
        TokenKindV::LBracket => "["@,
        TokenKindV::RBracket => "]"@,
        TokenKindV::PlusEq => "+="@,
        TokenKindV::MinusEq => "-="@,
        TokenKindV::StarEq => "*="@,
        TokenKindV::SlashEq => "/="@,
        TokenKindV::PercentEq => "%="@,
        TokenKindV::HashCpp => "#cpp"@,
        TokenKindV::HashInclude => "#include"@,
        TokenKindV::HashParse => "#parse"@,
        TokenKindV::HashError => "#error"@,
        TokenKindV::HashSplice => "#splice"@,
        TokenKindV::HashFilterPub => "#filter_pub"@,
        TokenKindV::RawCpp(s) => "#cpp { "@ + s + " }"@,
        TokenKindV::Eof => "<eof>"@,
    }
}

impl TokenKind {
    /// The number of the variant, whatever it holds.
    pub fn variant(&self) -> (r: u8)
        ensures
            r == variant_index(self@),
    {
        match self {
            TokenKind::Func => 0,
            TokenKind::Let => 1,
            TokenKind::Var => 2,
            TokenKind::Return => 3,
            TokenKind::If => 4,
            TokenKind::Else => 5,
            TokenKind::Match => 6,
            TokenKind::Case => 7,
            TokenKind::Enum => 8,
            TokenKind::Struct => 9,
            TokenKind::Macro => 10,
            TokenKind::Quote => 11,
            TokenKind::While => 12,
            TokenKind::For => 13,
            TokenKind::In => 14,
            TokenKind::As => 15,
            TokenKind::Is => 16,
            TokenKind::True => 17,
            TokenKind::False => 18,
            TokenKind::Nil => 19,
            TokenKind::Type => 20,
            TokenKind::Trait => 21,
            TokenKind::Impl => 22,
            TokenKind::Import => 23,
            TokenKind::Module => 24,
            TokenKind::Pub => 25,
            TokenKind::Ident(_) => 26,
            TokenKind::IntLiteral(_) => 27,
            TokenKind::FloatLiteral(_) => 28,
            TokenKind::StringLiteral(_) => 29,
            TokenKind::CharLiteral(_) => 30,
            TokenKind::Plus => 31,
            TokenKind::Minus => 32,
            TokenKind::Star => 33,
            TokenKind::Slash => 34,
            TokenKind::Percent => 35,
            TokenKind::Eq => 36,
            TokenKind::EqEq => 37,
            TokenKind::NotEq => 38,
            TokenKind::Lt => 39,
            TokenKind::Gt => 40,
            TokenKind::LtEq => 41,
            TokenKind::GtEq => 42,
            TokenKind::AndAnd => 43,
            TokenKind::OrOr => 44,
            TokenKind::Not => 45,
            TokenKind::Arrow => 46,
            TokenKind::FatArrow => 47,
            TokenKind::Dot => 48,
            TokenKind::DotDot => 49,
            TokenKind::Colon => 50,
            TokenKind::Semicolon => 51,
            TokenKind::Comma => 52,
            TokenKind::At => 53,
            TokenKind::Dollar => 54,
            TokenKind::Underscore => 55,
            TokenKind::Question => 56,
            TokenKind::Tilde => 57,
            TokenKind::Hash => 58,
            TokenKind::LParen => 59,
            TokenKind::RParen => 60,
            TokenKind::LBrace => 61,
            TokenKind::RBrace => 62,
            TokenKind::LBracket => 63,
            TokenKind::RBracket => 64,
            TokenKind::PlusEq => 65,
            TokenKind::MinusEq => 66,
            TokenKind::StarEq => 67,
            TokenKind::SlashEq => 68,
            TokenKind::PercentEq => 69,
            TokenKind::HashCpp => 70,
            TokenKind::HashInclude => 71,
            TokenKind::HashParse => 72,
            TokenKind::HashError => 73,
            TokenKind::HashSplice => 74,
            TokenKind::HashFilterPub => 75,
            TokenKind::RawCpp(_) => 76,
            TokenKind::Eof => 77,
        }
    }

    /// Whether the two are of one variant, whatever they hold.
    pub fn same_variant(&self, other: &TokenKind) -> (r: bool)
        ensures
            r == (variant_index(self@) == variant_index(other@)),
    {
        self.variant() == other.variant()
    }

    /// How the kind is written in messages.
    pub fn display(&self) -> (r: String)
        ensures
            r@ == kind_text(self@),
    {
        proof {
            reveal(kind_text);
        }
        match self {
            TokenKind::Func => "func".to_owned(),
            TokenKind::Let => "let".to_owned(),
            TokenKind::Var => "var".to_owned(),
            TokenKind::Return => "return".to_owned(),
            TokenKind::If => "if".to_owned(),
            TokenKind::Else => "else".to_owned(),
            TokenKind::Match => "match".to_owned(),
            TokenKind::Case => "case".to_owned(),
            TokenKind::Enum => "enum".to_owned(),
            TokenKind::Struct => "struct".to_owned(),
            TokenKind::Macro => "macro".to_owned(),
            TokenKind::Quote => "quote".to_owned(),
            TokenKind::While => "while".to_owned(),
            TokenKind::For => "for".to_owned(),
            TokenKind::In => "in".to_owned(),
            TokenKind::As => "as".to_owned(),
            TokenKind::Is => "is".to_owned(),
            TokenKind::True => "true".to_owned(),
            TokenKind::False => "false".to_owned(),
            TokenKind::Nil => "nil".to_owned(),
            TokenKind::Type => "type".to_owned(),
            TokenKind::Trait => "trait".to_owned(),
            TokenKind::Impl => "impl".to_owned(),
            TokenKind::Import => "import".to_owned(),
            TokenKind::Module => "module".to_owned(),
            TokenKind::Pub => "pub".to_owned(),
            TokenKind::Ident(s) => s.clone(),
            TokenKind::IntLiteral(s) => show_i64(*s),
            TokenKind::FloatLiteral(s) => s.clone(),
            TokenKind::StringLiteral(s) => cat3("\"", s, "\""),
            TokenKind::CharLiteral(s) => cat3("'", &char_text(*s), "'"),
            TokenKind::Plus => "+".to_owned(),
            TokenKind::Minus => "-".to_owned(),
            TokenKind::Star => "*".to_owned(),
            TokenKind::Slash => "/".to_owned(),
            TokenKind::Percent => "%".to_owned(),
            TokenKind::Eq => "=".to_owned(),
            TokenKind::EqEq => "==".to_owned(),
            TokenKind::NotEq => "!=".to_owned(),
            TokenKind::Lt => "<".to_owned(),
            TokenKind::Gt => ">".to_owned(),
            TokenKind::LtEq => "<=".to_owned(),
            TokenKind::GtEq => ">=".to_owned(),
            TokenKind::AndAnd => "&&".to_owned(),
            TokenKind::OrOr => "||".to_owned(),
            TokenKind::Not => "!".to_owned(),
            TokenKind::Arrow => "->".to_owned(),
            TokenKind::FatArrow => "=>".to_owned(),
            TokenKind::Dot => ".".to_owned(),
            TokenKind::DotDot => "..".to_owned(),
            TokenKind::Colon => ":".to_owned(),
            TokenKind::Semicolon => ";".to_owned(),
            TokenKind::Comma => ",".to_owned(),
            TokenKind::At => "@".to_owned(),
            TokenKind::Dollar => "$".to_owned(),
            TokenKind::Underscore => "_".to_owned(),
            TokenKind::Question => "?".to_owned(),
            TokenKind::Tilde => "~".to_owned(),
            TokenKind::Hash => "#".to_owned(),
            TokenKind::LParen => "(".to_owned(),
            TokenKind::RParen => ")".to_owned(),
            TokenKind::LBrace => "{".to_owned(),
            TokenKind::RBrace => "}".to_owned(),
            TokenKind::LBracket => "[".to_owned(),
            TokenKind::RBracket => "]".to_owned(),
            TokenKind::PlusEq => "+=".to_owned(),
            TokenKind::MinusEq => "-=".to_owned(),
            TokenKind::StarEq => "*=".to_owned(),
            TokenKind::SlashEq => "/=".to_owned(),
            TokenKind::PercentEq => "%=".to_owned(),
            TokenKind::HashCpp => "#cpp".to_owned(),
            TokenKind::HashInclude => "#include".to_owned(),
            TokenKind::HashParse => "#parse".to_owned(),
            TokenKind::HashError => "#error".to_owned(),
            TokenKind::HashSplice => "#splice".to_owned(),
            TokenKind::HashFilterPub => "#filter_pub".to_owned(),
            TokenKind::RawCpp(s) => cat3("#cpp { ", s, " }"),
            TokenKind::Eof => "<eof>".to_owned(),
        }
    }

    /// A copy with the same model.
    pub fn dup(&self) -> (r: Self)
        ensures
            r@ == self@,
    {
        match self {
            TokenKind::Func => TokenKind::Func,
            TokenKind::Let => TokenKind::Let,
            TokenKind::Var => TokenKind::Var,
            TokenKind::Return => TokenKind::Return,
            TokenKind::If => TokenKind::If,
            TokenKind::Else => TokenKind::Else,
            TokenKind::Match => TokenKind::Match,
            TokenKind::Case => TokenKind::Case,
            TokenKind::Enum => TokenKind::Enum,
            TokenKind::Struct => TokenKind::Struct,
            TokenKind::Macro => TokenKind::Macro,
            TokenKind::Quote => TokenKind::Quote,
            TokenKind::While => TokenKind::While,
            TokenKind::For => TokenKind::For,
            TokenKind::In => TokenKind::In,
            TokenKind::As => TokenKind::As,
            TokenKind::Is => TokenKind::Is,
            TokenKind::True => TokenKind::True,
            TokenKind::False => TokenKind::False,
            TokenKind::Nil => TokenKind::Nil,
            TokenKind::Type => TokenKind::Type,
            TokenKind::Trait => TokenKind::Trait,
            TokenKind::Impl => TokenKind::Impl,
            TokenKind::Import => TokenKind::Import,
            TokenKind::Module => TokenKind::Module,
            TokenKind::Pub => TokenKind::Pub,
            TokenKind::Ident(s) => TokenKind::Ident(s.clone()),
            TokenKind::IntLiteral(s) => TokenKind::IntLiteral(*s),
            TokenKind::FloatLiteral(s) => TokenKind::FloatLiteral(s.clone()),
            TokenKind::StringLiteral(s) => TokenKind::StringLiteral(s.clone()),
            TokenKind::CharLiteral(s) => TokenKind::CharLiteral(*s),
            TokenKind::Plus => TokenKind::Plus,
            TokenKind::Minus => TokenKind::Minus,
            TokenKind::Star => TokenKind::Star,
            TokenKind::Slash => TokenKind::Slash,
            TokenKind::Percent => TokenKind::Percent,
            TokenKind::Eq => TokenKind::Eq,
            TokenKind::EqEq => TokenKind::EqEq,
            TokenKind::NotEq => TokenKind::NotEq,
            TokenKind::Lt => TokenKind::Lt,
            TokenKind::Gt => TokenKind::Gt,
            TokenKind::LtEq => TokenKind::LtEq,
            TokenKind::GtEq => TokenKind::GtEq,
            TokenKind::AndAnd => TokenKind::AndAnd,
            TokenKind::OrOr => TokenKind::OrOr,
            TokenKind::Not => TokenKind::Not,
            TokenKind::Arrow => TokenKind::Arrow,
            TokenKind::FatArrow => TokenKind::FatArrow,
            TokenKind::Dot => TokenKind::Dot,
            TokenKind::DotDot => TokenKind::DotDot,
            TokenKind::Colon => TokenKind::Colon,
            TokenKind::Semicolon => TokenKind::Semicolon,
            TokenKind::Comma => TokenKind::Comma,
            TokenKind::At => TokenKind::At,
            TokenKind::Dollar => TokenKind::Dollar,
            TokenKind::Underscore => TokenKind::Underscore,
            TokenKind::Question => TokenKind::Question,
            TokenKind::Tilde => TokenKind::Tilde,
            TokenKind::Hash => TokenKind::Hash,
            TokenKind::LParen => TokenKind::LParen,
            TokenKind::RParen => TokenKind::RParen,
            TokenKind::LBrace => TokenKind::LBrace,
            TokenKind::RBrace => TokenKind::RBrace,
            TokenKind::LBracket => TokenKind::LBracket,
            TokenKind::RBracket => TokenKind::RBracket,
            TokenKind::PlusEq => TokenKind::PlusEq,
            TokenKind::MinusEq => TokenKind::MinusEq,
            TokenKind::StarEq => TokenKind::StarEq,
            TokenKind::SlashEq => TokenKind::SlashEq,
            TokenKind::PercentEq => TokenKind::PercentEq,
            TokenKind::HashCpp => TokenKind::HashCpp,
            TokenKind::HashInclude => TokenKind::HashInclude,
            TokenKind::HashParse => TokenKind::HashParse,
            TokenKind::HashError => TokenKind::HashError,
            TokenKind::HashSplice => TokenKind::HashSplice,
            TokenKind::HashFilterPub => TokenKind::HashFilterPub,
            TokenKind::RawCpp(s) => TokenKind::RawCpp(s.clone()),
            TokenKind::Eof => TokenKind::Eof,
        }
    }
}

#[derive(Debug)]
pub struct Token {
    pub kind: TokenKind,
    pub span: Span,
}

/// The model of a [`Token`].
#[verifier::ext_equal]
pub struct TokenV {
    pub kind: TokenKindV,
    pub span: Span,
}

impl View for Token {
    type V = TokenV;

    open spec fn view(&self) -> TokenV {
        TokenV { kind: self.kind@, span: self.span }
    }
}

impl Token {
    pub fn new(kind: TokenKind, span: Span) -> (r: Self)
        ensures
            r@ == (TokenV { kind: kind@, span }),
    {
        Token { kind, span }
    }
}

/// The models of a list of tokens.
pub open spec fn tokens_v(s: Seq<Token>) -> Seq<TokenV> {
    Seq::new(s.len(), |i: int| s[i]@)
}

/// The keyword that a word is, or the identifier.
pub open spec fn word_kind(s: Seq<char>) -> TokenKindV {
    if s == "func"@ {
        TokenKindV::Func
    } else if s == "let"@ {
        TokenKindV::Let
    } else if s == "var"@ {
        TokenKindV::Var
    } else if s == "return"@ {
        TokenKindV::Return
    } else if s == "if"@ {
        TokenKindV::If
    } else if s == "else"@ {
        TokenKindV::Else
    } else if s == "match"@ {
        TokenKindV::Match
    } else if s == "case"@ {
        TokenKindV::Case
    } else if s == "enum"@ {
        TokenKindV::Enum
    } else if s == "struct"@ {
        TokenKindV::Struct
    } else if s == "macro"@ {
        TokenKindV::Macro
    } else if s == "quote"@ {
        TokenKindV::Quote
    } else if s == "while"@ {
        TokenKindV::While
    } else if s == "for"@ {
        TokenKindV::For
    } else if s == "in"@ {
        TokenKindV::In
    } else if s == "as"@ {
        TokenKindV::As
    } else if s == "is"@ {
        TokenKindV::Is
    } else if s == "true"@ {
        TokenKindV::True
    } else if s == "false"@ {
        TokenKindV::False
    } else if s == "nil"@ {
        TokenKindV::Nil
    } else if s == "type"@ {
        TokenKindV::Type
    } else if s == "trait"@ {
        TokenKindV::Trait
    } else if s == "impl"@ {
        TokenKindV::Impl
    } else if s == "import"@ {
        TokenKindV::Import
    } else if s == "module"@ {
        TokenKindV::Module
    } else if s == "pub"@ {
        TokenKindV::Pub
    } else {
        TokenKindV::Ident(s)
    }
}

impl TokenKind {
    /// The keyword that a word is, or the identifier.
    pub fn of_word(s: &str) -> (r: Self)
        ensures
            r@ == word_kind(s@),
    {
        if crate::text::str_eq(s, "func") {
            TokenKind::Func
        } else if crate::text::str_eq(s, "let") {
            TokenKind::Let
        } else if crate::text::str_eq(s, "var") {
            TokenKind::Var
        } else if crate::text::str_eq(s, "return") {
            TokenKind::Return
        } else if crate::text::str_eq(s, "if") {
            TokenKind::If
        } else if crate::text::str_eq(s, "else") {
            TokenKind::Else
        } else if crate::text::str_eq(s, "match") {
            TokenKind::Match
        } else if crate::text::str_eq(s, "case") {
            TokenKind::Case
        } else if crate::text::str_eq(s, "enum") {
            TokenKind::Enum
        } else if crate::text::str_eq(s, "struct") {
            TokenKind::Struct
        } else if crate::text::str_eq(s, "macro") {
            TokenKind::Macro
        } else if crate::text::str_eq(s, "quote") {
            TokenKind::Quote
        } else if crate::text::str_eq(s, "while") {
            TokenKind::While
        } else if crate::text::str_eq(s, "for") {
            TokenKind::For
        } else if crate::text::str_eq(s, "in") {
            TokenKind::In
        } else if crate::text::str_eq(s, "as") {
            TokenKind::As
        } else if crate::text::str_eq(s, "is") {
            TokenKind::Is
        } else if crate::text::str_eq(s, "true") {
            TokenKind::True
        } else if crate::text::str_eq(s, "false") {
            TokenKind::False
        } else if crate::text::str_eq(s, "nil") {
            TokenKind::Nil
        } else if crate::text::str_eq(s, "type") {
            TokenKind::Type
        } else if crate::text::str_eq(s, "trait") {
            TokenKind::Trait
        } else if crate::text::str_eq(s, "impl") {
            TokenKind::Impl
        } else if crate::text::str_eq(s, "import") {
            TokenKind::Import
        } else if crate::text::str_eq(s, "module") {
            TokenKind::Module
        } else if crate::text::str_eq(s, "pub") {
            TokenKind::Pub
        } else {
            TokenKind::Ident(s.to_owned())
        }
    }
}

/// Writing the token of a word gives the word back, be it a keyword or an identifier.
pub proof fn law_word_text(s: Seq<char>)
    ensures
        kind_text(word_kind(s)) == s,
{
    reveal(kind_text);
}

} // verus!
