//! From source text to tokens.
use vstd::prelude::*;
use crate::error::{CompileError, CompileErrorV};
use crate::text::{
    cat3, char_is_alphabetic, char_is_alphanumeric, char_text, chars_of, parse_int_literal,
    text_between, text_of,
};
use crate::token::{Span, Token, TokenKind, TokenKindV, TokenV, kind_text};

verus! {

use crate::error::{lex_error, res_v};
use crate::text::{int_literal_value, is_alphabetic, is_alphanumeric, is_digit};
use crate::token::{tokens_v, word_kind};

// ------------------------------------------------------------------- positions

/// One more, as far as the machine counts.
pub open spec fn next_count(n: usize) -> usize {
    if n == usize::MAX {
        n
    } else {
        (n + 1) as usize
    }
}

/// The line of a position: one more than the line ends before it.
pub open spec fn line_at(src: Seq<char>, pos: int) -> usize
    decreases pos,
{
    if pos <= 0 {
        1
    } else if src[pos - 1] == '\n' {
        next_count(line_at(src, pos - 1))
    } else {
        line_at(src, pos - 1)
    }
}

/// The column of a position: one more than the characters before it on its line.
pub open spec fn col_at(src: Seq<char>, pos: int) -> usize
    decreases pos,
{
    if pos <= 0 || src[pos - 1] == '\n' {
        1
    } else {
        next_count(col_at(src, pos - 1))
    }
}

/// The stretch from `start` to `pos`; it carries the line and column of `pos`.
pub open spec fn span_at(src: Seq<char>, start: int, pos: int) -> Span {
    Span {
        start: start as usize,
        end: pos as usize,
        line: line_at(src, pos),
        col: col_at(src, pos),
    }
}

/// The character at a position, if there is one.
pub open spec fn char_at(src: Seq<char>, pos: int) -> Option<char> {
    if 0 <= pos < src.len() {
        Some(src[pos])
    } else {
        None
    }
}

// --------------------------------------------------------- blanks and comments

/// The end of the line that `pos` is on.
pub open spec fn line_end(src: Seq<char>, pos: int) -> int
    decreases src.len() - pos,
{
    if 0 <= pos < src.len() && src[pos] != '\n' {
        line_end(src, pos + 1)
    } else {
        pos
    }
}

/// The position after `depth` block comments that are open at `pos`; they nest,
/// and one that is never closed reaches to the end of the source.
pub open spec fn comment_end(src: Seq<char>, pos: int, depth: int) -> int
    decreases src.len() - pos,
{
    if depth <= 0 || pos < 0 || pos >= src.len() {
        pos
    } else if src[pos] == '/' && char_at(src, pos + 1) == Some('*') {
        comment_end(src, pos + 2, depth + 1)
    } else if src[pos] == '*' && char_at(src, pos + 1) == Some('/') {
        comment_end(src, pos + 2, depth - 1)
    } else {
        comment_end(src, pos + 1, depth)
    }
}

pub open spec fn is_blank(c: char) -> bool {
    c == ' ' || c == '\t' || c == '\r' || c == '\n'
}

pub proof fn lemma_line_end(src: Seq<char>, pos: int)
    requires
        0 <= pos <= src.len(),
    ensures
        pos <= line_end(src, pos) <= src.len(),
    decreases src.len() - pos,
{
    if pos < src.len() && src[pos] != '\n' {
        lemma_line_end(src, pos + 1);
    }
}

pub proof fn lemma_comment_end(src: Seq<char>, pos: int, depth: int)
    requires
        0 <= pos <= src.len(),
    ensures
        pos <= comment_end(src, pos, depth) <= src.len(),
    decreases src.len() - pos,
{
    if depth <= 0 || pos >= src.len() {
    } else if src[pos] == '/' && char_at(src, pos + 1) == Some('*') {
        lemma_comment_end(src, pos + 2, depth + 1);
    } else if src[pos] == '*' && char_at(src, pos + 1) == Some('/') {
        lemma_comment_end(src, pos + 2, depth - 1);
    } else {
        lemma_comment_end(src, pos + 1, depth);
    }
}

/// The first position from `pos` on that is neither blank nor inside a comment.
pub open spec fn skip_blanks(src: Seq<char>, pos: int) -> int
    decreases src.len() - pos,
{
    if pos < 0 || pos >= src.len() {
        pos
    } else if is_blank(src[pos]) {
        skip_blanks(src, pos + 1)
    } else if src[pos] == '/' && char_at(src, pos + 1) == Some('/') {
        proof {
            lemma_line_end(src, pos + 2);
        }
        skip_blanks(src, line_end(src, pos + 2))
    } else if src[pos] == '/' && char_at(src, pos + 1) == Some('*') {
        proof {
            lemma_comment_end(src, pos + 2, 1);
        }
        skip_blanks(src, comment_end(src, pos + 2, 1))
    } else {
        pos
    }
}

proof fn lemma_skip_blanks(src: Seq<char>, pos: int)
    requires
        0 <= pos <= src.len(),
    ensures
        pos <= skip_blanks(src, pos) <= src.len(),
    decreases src.len() - pos,
{
    if pos >= src.len() {
    } else if is_blank(src[pos]) {
        lemma_skip_blanks(src, pos + 1);
    } else if src[pos] == '/' && char_at(src, pos + 1) == Some('/') {
        lemma_line_end(src, pos + 2);
        lemma_skip_blanks(src, line_end(src, pos + 2));
    } else if src[pos] == '/' && char_at(src, pos + 1) == Some('*') {
        lemma_comment_end(src, pos + 2, 1);
        lemma_skip_blanks(src, comment_end(src, pos + 2, 1));
    }
}

// --------------------------------------------------------------------- numbers

/// Reads a number on from `pos`: where it ends, whether it has a point, and its
/// digits and point without the underscores, after those of `acc`.
pub open spec fn scan_number(src: Seq<char>, pos: int, float: bool, acc: Seq<char>) -> (
    int,
    bool,
    Seq<char>,
)
    decreases src.len() - pos,
{
    if pos < 0 || pos >= src.len() {
        (pos, float, acc)
    } else if is_digit(src[pos]) {
        scan_number(src, pos + 1, float, acc.push(src[pos]))
    } else if src[pos] == '.' && !float {
        scan_number(src, pos + 1, true, acc.push('.'))
    } else if src[pos] == '_' {
        scan_number(src, pos + 1, float, acc)
    } else {
        (pos, float, acc)
    }
}

proof fn lemma_scan_number(src: Seq<char>, pos: int, float: bool, acc: Seq<char>)
    requires
        0 <= pos <= src.len(),
    ensures
        pos <= scan_number(src, pos, float, acc).0 <= src.len(),
    decreases src.len() - pos,
{
    if pos >= src.len() {
    } else if is_digit(src[pos]) {
        lemma_scan_number(src, pos + 1, float, acc.push(src[pos]));
    } else if src[pos] == '.' && !float {
        lemma_scan_number(src, pos + 1, true, acc.push('.'));
    } else if src[pos] == '_' {
        lemma_scan_number(src, pos + 1, float, acc);
    }
}

/// Where the point stands, or the end.
pub open spec fn point_index(s: Seq<char>, i: int) -> int
    decreases s.len() - i,
{
    if 0 <= i < s.len() && s[i] != '.' {
        point_index(s, i + 1)
    } else {
        i
    }
}

/// The position of the first digit that counts before the point at `dot`.
pub open spec fn first_digit(s: Seq<char>, i: int, dot: int) -> int
    decreases dot - i,
{
    if 0 <= i && i + 1 < dot && s[i] == '0' {
        first_digit(s, i + 1, dot)
    } else {
        i
    }
}

/// The position after the last digit that counts behind the point at `dot`.
pub open spec fn last_digit(s: Seq<char>, end: int, dot: int) -> int
    decreases end,
{
    if 0 <= dot && dot + 1 < end && s[end - 1] == '0' {
        last_digit(s, end - 1, dot)
    } else {
        end
    }
}

/// A decimal number without the zeros in front and behind that say nothing,
/// and without its point where nothing follows it.
pub open spec fn float_text(s: Seq<char>) -> Seq<char> {
    let dot = point_index(s, 0);
    let from = first_digit(s, 0, dot);
    let to = last_digit(s, s.len() as int, dot);
    if to <= dot + 1 {
        s.subrange(from, dot)
    } else {
        s.subrange(from, to)
    }
}

/// The token of a number.
pub open spec fn number_kind(float: bool, digits: Seq<char>) -> TokenKindV {
    if float {
        TokenKindV::FloatLiteral(float_text(digits))
    } else {
        TokenKindV::IntLiteral(int_literal_value(digits) as i64)
    }
}

// --------------------------------------------------------------------- strings

/// What `\c` stands for inside quotes.
pub open spec fn escape(c: char) -> Seq<char> {
    if c == 'n' {
        seq!['\n']
    } else if c == 't' {
        seq!['\t']
    } else if c == 'r' {
        seq!['\r']
    } else if c == '0' {
        seq!['\0']
    } else if c == '\\' || c == '"' || c == '\'' {
        seq![c]
    } else {
        seq!['\\', c]
    }
}

/// Why a quoted text ends too early.
pub enum Unclosed {
    Text,
    Escape,
}

/// Reads a quoted text on from `pos`, after what `acc` holds, and where it ends.
pub open spec fn scan_quoted(src: Seq<char>, pos: int, quote: char, acc: Seq<char>) -> (
    Result<Seq<char>, Unclosed>,
    int,
)
    decreases src.len() - pos,
{
    if pos < 0 || pos >= src.len() {
        (Err(Unclosed::Text), pos)
    } else if src[pos] == '\\' {
        if pos + 1 < src.len() {
            scan_quoted(src, pos + 2, quote, acc + escape(src[pos + 1]))
        } else {
            (Err(Unclosed::Escape), pos + 1)
        }
    } else if src[pos] == quote {
        (Ok(acc), pos + 1)
    } else {
        scan_quoted(src, pos + 1, quote, acc.push(src[pos]))
    }
}

proof fn lemma_scan_quoted(src: Seq<char>, pos: int, quote: char, acc: Seq<char>)
    requires
        0 <= pos <= src.len(),
    ensures
        pos <= scan_quoted(src, pos, quote, acc).1 <= src.len(),
    decreases src.len() - pos,
{
    if pos >= src.len() {
    } else if src[pos] == '\\' {
        if pos + 1 < src.len() {
            lemma_scan_quoted(src, pos + 2, quote, acc + escape(src[pos + 1]));
        }
    } else if src[pos] == quote {
    } else {
        lemma_scan_quoted(src, pos + 1, quote, acc.push(src[pos]));
    }
}

/// The token of a quoted text: `"` makes a string, `'` a character.
pub open spec fn quoted_token(src: Seq<char>, start: int, quote: char) -> (
    Result<TokenV, CompileErrorV>,
    int,
) {
    let (r, p) = scan_quoted(src, start + 1, quote, Seq::empty());
    let span = span_at(src, start, p);
    match r {
        Err(Unclosed::Text) => (Err(lex_error("Unterminated string literal"@, span)), p),
        Err(Unclosed::Escape) => (Err(lex_error("Unterminated escape sequence"@, span)), p),
        Ok(s) => if quote == '"' {
            (Ok(TokenV { kind: TokenKindV::StringLiteral(s), span }), p)
        } else if s.len() != 1 {
            (Err(lex_error("Character literal must contain exactly one character"@, span)), p)
        } else {
            (Ok(TokenV { kind: TokenKindV::CharLiteral(s[0]), span }), p)
        },
    }
}

// ----------------------------------------------------------------------- words

pub open spec fn is_word_char(c: char) -> bool {
    is_alphanumeric(c) || c == '_'
}

/// Where the word that `pos` stands in ends.
pub open spec fn word_end(src: Seq<char>, pos: int) -> int
    decreases src.len() - pos,
{
    if 0 <= pos < src.len() && is_word_char(src[pos]) {
        word_end(src, pos + 1)
    } else {
        pos
    }
}

proof fn lemma_word_end(src: Seq<char>, pos: int)
    requires
        0 <= pos <= src.len(),
    ensures
        pos <= word_end(src, pos) <= src.len(),
    decreases src.len() - pos,
{
    if pos < src.len() && is_word_char(src[pos]) {
        lemma_word_end(src, pos + 1);
    }
}

// ------------------------------------------------------------------- operators

/// The operator of two characters, if the two make one.
pub open spec fn two_char_op(a: char, b: Option<char>) -> Option<TokenKindV> {
    match b {
        Some('=') => if a == '+' {
            Some(TokenKindV::PlusEq)
        } else if a == '-' {
            Some(TokenKindV::MinusEq)
        } else if a == '*' {
            Some(TokenKindV::StarEq)
        } else if a == '/' {
            Some(TokenKindV::SlashEq)
        } else if a == '%' {
            Some(TokenKindV::PercentEq)
        } else if a == '=' {
            Some(TokenKindV::EqEq)
        } else if a == '!' {
            Some(TokenKindV::NotEq)
        } else if a == '<' {
            Some(TokenKindV::LtEq)
        } else if a == '>' {
            Some(TokenKindV::GtEq)
        } else {
            None
        },
        Some('>') => if a == '-' {
            Some(TokenKindV::Arrow)
        } else if a == '=' {
            Some(TokenKindV::FatArrow)
        } else {
            None
        },
        Some('&') => if a == '&' {
            Some(TokenKindV::AndAnd)
        } else {
            None
        },
        Some('|') => if a == '|' {
            Some(TokenKindV::OrOr)
        } else {
            None
        },
        Some('.') => if a == '.' {
            Some(TokenKindV::DotDot)
        } else {
            None
        },
        _ => None,
    }
}

/// The operator or delimiter of one character.
pub open spec fn one_char_kind(a: char) -> Option<TokenKindV> {
    match a {
        '(' => Some(TokenKindV::LParen),
        ')' => Some(TokenKindV::RParen),
        '{' => Some(TokenKindV::LBrace),
        '}' => Some(TokenKindV::RBrace),
        '[' => Some(TokenKindV::LBracket),
        ']' => Some(TokenKindV::RBracket),
        ':' => Some(TokenKindV::Colon),
        ';' => Some(TokenKindV::Semicolon),
        ',' => Some(TokenKindV::Comma),
        '@' => Some(TokenKindV::At),
        '$' => Some(TokenKindV::Dollar),
        '?' => Some(TokenKindV::Question),
        '~' => Some(TokenKindV::Tilde),
        '#' => Some(TokenKindV::Hash),
        '+' => Some(TokenKindV::Plus),
        '-' => Some(TokenKindV::Minus),
        '*' => Some(TokenKindV::Star),
        '/' => Some(TokenKindV::Slash),
        '%' => Some(TokenKindV::Percent),
        '=' => Some(TokenKindV::Eq),
        '<' => Some(TokenKindV::Lt),
        '>' => Some(TokenKindV::Gt),
        '!' => Some(TokenKindV::Not),
        '.' => Some(TokenKindV::Dot),
        _ => None,
    }
}

// ---------------------------------------------------------------------- tokens

/// The token that starts at `start`, which is neither blank nor in a comment,
/// and where it ends.
pub open spec fn token_at(src: Seq<char>, start: int) -> (Result<TokenV, CompileErrorV>, int) {
    match char_at(src, start) {
        None => (Ok(TokenV { kind: TokenKindV::Eof, span: span_at(src, start, start) }), start),
        Some(c) => if c == '"' || c == '\'' {
            quoted_token(src, start, c)
        } else if is_digit(c) {
            let (p, float, digits) = scan_number(src, start + 1, false, seq![c]);
            (Ok(TokenV { kind: number_kind(float, digits), span: span_at(src, start, p) }), p)
        } else if c == '_' && (start + 1 >= src.len() || !is_word_char(src[start + 1])) {
            let p = start + 1;
            (Ok(TokenV { kind: TokenKindV::Underscore, span: span_at(src, start, p) }), p)
        } else if let Some(k) = two_char_op(c, char_at(src, start + 1)) {
            let p = start + 2;
            (Ok(TokenV { kind: k, span: span_at(src, start, p) }), p)
        } else if let Some(k) = one_char_kind(c) {
            let p = start + 1;
            (Ok(TokenV { kind: k, span: span_at(src, start, p) }), p)
        } else if c == '_' || is_alphabetic(c) {
            let p = word_end(src, start + 1);
            (
                Ok(
                    TokenV {
                        kind: word_kind(src.subrange(start, p)),
                        span: span_at(src, start, p),
                    },
                ),
                p,
            )
        } else {
            (
                Err(
                    lex_error(
                        "Unexpected character: '"@ + seq![c] + "'"@,
                        span_at(src, start, start),
                    ),
                ),
                start,
            )
        },
    }
}

/// The next token from `pos` on, and where it ends.
pub open spec fn next_token_at(src: Seq<char>, pos: int) -> (Result<TokenV, CompileErrorV>, int) {
    token_at(src, skip_blanks(src, pos))
}

proof fn lemma_token_at(src: Seq<char>, start: int)
    requires
        0 <= start <= src.len(),
    ensures
        start <= token_at(src, start).1 <= src.len(),
        token_at(src, start).0 matches Ok(t) ==> {
            &&& (t.kind is Eof <==> start == src.len())
            &&& (t.kind !is Eof ==> start < token_at(src, start).1)
            &&& t.span == span_at(src, start, token_at(src, start).1)
        },
{
    match char_at(src, start) {
        None => {},
        Some(c) => {
            lemma_scan_quoted(src, start + 1, c, Seq::empty());
            lemma_scan_number(src, start + 1, false, seq![c]);
            lemma_word_end(src, start + 1);
        },
    }
}

/// A kind of token that is a keyword.
pub open spec fn is_keyword(k: TokenKindV) -> bool {
    match k {
        TokenKindV::Func
        | TokenKindV::Let
        | TokenKindV::Var
        | TokenKindV::Return
        | TokenKindV::If
        | TokenKindV::Else
        | TokenKindV::Match
        | TokenKindV::Case
        | TokenKindV::Enum
        | TokenKindV::Struct
        | TokenKindV::Macro
        | TokenKindV::Quote
        | TokenKindV::While
        | TokenKindV::For
        | TokenKindV::In
        | TokenKindV::As
        | TokenKindV::Is
        | TokenKindV::True
        | TokenKindV::False
        | TokenKindV::Nil
        | TokenKindV::Type
        | TokenKindV::Trait
        | TokenKindV::Impl
        | TokenKindV::Import
        | TokenKindV::Module
        | TokenKindV::Pub => true,
        _ => false,
    }
}

/// A kind of token that is an operator or a delimiter.
pub open spec fn is_mark(k: TokenKindV) -> bool {
    match k {
        TokenKindV::Plus
        | TokenKindV::Minus
        | TokenKindV::Star
        | TokenKindV::Slash
        | TokenKindV::Percent
        | TokenKindV::Eq
        | TokenKindV::EqEq
        | TokenKindV::NotEq
        | TokenKindV::Lt
        | TokenKindV::Gt
        | TokenKindV::LtEq
        | TokenKindV::GtEq
        | TokenKindV::AndAnd
        | TokenKindV::OrOr
        | TokenKindV::Not
        | TokenKindV::Arrow
        | TokenKindV::FatArrow
        | TokenKindV::Dot
        | TokenKindV::DotDot
        | TokenKindV::Colon
        | TokenKindV::Semicolon
        | TokenKindV::Comma
        | TokenKindV::At
        | TokenKindV::Dollar
        | TokenKindV::Underscore
        | TokenKindV::Question
        | TokenKindV::Tilde
        | TokenKindV::Hash
        | TokenKindV::LParen
        | TokenKindV::RParen
        | TokenKindV::LBrace
        | TokenKindV::RBrace
        | TokenKindV::LBracket
        | TokenKindV::RBracket
        | TokenKindV::PlusEq
        | TokenKindV::MinusEq
        | TokenKindV::StarEq
        | TokenKindV::SlashEq
        | TokenKindV::PercentEq => true,
        _ => false,
    }
}

/// A word ends where the characters of words do.
pub proof fn lemma_word_end_at(src: Seq<char>, pos: int, end: int)
    requires
        0 <= pos <= end <= src.len(),
        forall|i: int| pos <= i < end ==> is_word_char(#[trigger] src[i]),
        end < src.len() ==> !is_word_char(src[end]),
    ensures
        word_end(src, pos) == end,
    decreases end - pos,
{
    if pos < end {
        lemma_word_end_at(src, pos + 1, end);
    }
}

/// The word of a keyword is that keyword.
proof fn lemma_keyword(k: TokenKindV)
    requires
        is_keyword(k),
    ensures
        word_kind(kind_text(k)) == k,
        kind_text(k).len() > 0,
        forall|i: int| 0 <= i < kind_text(k).len() ==> 'a' <= #[trigger] kind_text(k)[i] <= 'z',
{
    reveal(kind_text);
    reveal_strlit("func");
    reveal_strlit("let");
    reveal_strlit("var");
    reveal_strlit("return");
    reveal_strlit("if");
    reveal_strlit("else");
    reveal_strlit("match");
    reveal_strlit("case");
    reveal_strlit("enum");
    reveal_strlit("struct");
    reveal_strlit("macro");
    reveal_strlit("quote");
    reveal_strlit("while");
    reveal_strlit("for");
    reveal_strlit("in");
    reveal_strlit("as");
    reveal_strlit("is");
    reveal_strlit("true");
    reveal_strlit("false");
    reveal_strlit("nil");
    reveal_strlit("type");
    reveal_strlit("trait");
    reveal_strlit("impl");
    reveal_strlit("import");
    reveal_strlit("module");
    reveal_strlit("pub");
    match k {
        TokenKindV::Func => {
            assert(kind_text(k) == "func"@);
            assert(word_kind("func"@) == k);
        },
        TokenKindV::Let => {
            assert(kind_text(k) == "let"@);
            assert(word_kind("let"@) == k);
        },
        TokenKindV::Var => {
            assert("var"@[0] != "let"@[0]);
            assert(kind_text(k) == "var"@);
            assert(word_kind("var"@) == k);
        },
        TokenKindV::Return => {
            assert(kind_text(k) == "return"@);
            assert(word_kind("return"@) == k);
        },
        TokenKindV::If => {
            assert(kind_text(k) == "if"@);
            assert(word_kind("if"@) == k);
        },
        TokenKindV::Else => {
            assert("else"@[0] != "func"@[0]);
            assert(kind_text(k) == "else"@);
            assert(word_kind("else"@) == k);
        },
        TokenKindV::Match => {
            assert(kind_text(k) == "match"@);
            assert(word_kind("match"@) == k);
        },
        TokenKindV::Case => {
            assert("case"@[0] != "func"@[0]);
            assert("case"@[0] != "else"@[0]);
            assert(kind_text(k) == "case"@);
            assert(word_kind("case"@) == k);
        },
        TokenKindV::Enum => {
            assert("enum"@[0] != "func"@[0]);
            assert("enum"@[1] != "else"@[1]);
            assert("enum"@[0] != "case"@[0]);
            assert(kind_text(k) == "enum"@);
            assert(word_kind("enum"@) == k);
        },
        TokenKindV::Struct => {
            assert("struct"@[0] != "return"@[0]);
            assert(kind_text(k) == "struct"@);
            assert(word_kind("struct"@) == k);
        },
        TokenKindV::Macro => {
            assert("macro"@[2] != "match"@[2]);
            assert(kind_text(k) == "macro"@);
            assert(word_kind("macro"@) == k);
        },
        TokenKindV::Quote => {
            assert("quote"@[0] != "match"@[0]);
            assert("quote"@[0] != "macro"@[0]);
            assert(kind_text(k) == "quote"@);
            assert(word_kind("quote"@) == k);
        },
        TokenKindV::While => {
            assert("while"@[0] != "match"@[0]);
            assert("while"@[0] != "macro"@[0]);
            assert("while"@[0] != "quote"@[0]);
            assert(kind_text(k) == "while"@);
            assert(word_kind("while"@) == k);
        },
        TokenKindV::For => {
            assert("for"@[0] != "let"@[0]);
            assert("for"@[0] != "var"@[0]);
            assert(kind_text(k) == "for"@);
            assert(word_kind("for"@) == k);
        },
        TokenKindV::In => {
            assert("in"@[1] != "if"@[1]);
            assert(kind_text(k) == "in"@);
            assert(word_kind("in"@) == k);
        },
        TokenKindV::As => {
            assert("as"@[0] != "if"@[0]);
            assert("as"@[0] != "in"@[0]);
            assert(kind_text(k) == "as"@);
            assert(word_kind("as"@) == k);
        },
        TokenKindV::Is => {
            assert("is"@[1] != "if"@[1]);
            assert("is"@[1] != "in"@[1]);
            assert("is"@[0] != "as"@[0]);
            assert(kind_text(k) == "is"@);
            assert(word_kind("is"@) == k);
        },
        TokenKindV::True => {
            assert("true"@[0] != "func"@[0]);
            assert("true"@[0] != "else"@[0]);
            assert("true"@[0] != "case"@[0]);
            assert("true"@[0] != "enum"@[0]);
            assert(kind_text(k) == "true"@);
            assert(word_kind("true"@) == k);
        },
        TokenKindV::False => {
            assert("false"@[0] != "match"@[0]);
            assert("false"@[0] != "macro"@[0]);
            assert("false"@[0] != "quote"@[0]);
            assert("false"@[0] != "while"@[0]);
            assert(kind_text(k) == "false"@);
            assert(word_kind("false"@) == k);
        },
        TokenKindV::Nil => {
            assert("nil"@[0] != "let"@[0]);
            assert("nil"@[0] != "var"@[0]);
            assert("nil"@[0] != "for"@[0]);
            assert(kind_text(k) == "nil"@);
            assert(word_kind("nil"@) == k);
        },
        TokenKindV::Type => {
            assert("type"@[0] != "func"@[0]);
            assert("type"@[0] != "else"@[0]);
            assert("type"@[0] != "case"@[0]);
            assert("type"@[0] != "enum"@[0]);
            assert("type"@[1] != "true"@[1]);
            assert(kind_text(k) == "type"@);
            assert(word_kind("type"@) == k);
        },
        TokenKindV::Trait => {
            assert("trait"@[0] != "match"@[0]);
            assert("trait"@[0] != "macro"@[0]);
            assert("trait"@[0] != "quote"@[0]);
            assert("trait"@[0] != "while"@[0]);
            assert("trait"@[0] != "false"@[0]);
            assert(kind_text(k) == "trait"@);
            assert(word_kind("trait"@) == k);
        },
        TokenKindV::Impl => {
            assert("impl"@[0] != "func"@[0]);
            assert("impl"@[0] != "else"@[0]);
            assert("impl"@[0] != "case"@[0]);
            assert("impl"@[0] != "enum"@[0]);
            assert("impl"@[0] != "true"@[0]);
            assert("impl"@[0] != "type"@[0]);
            assert(kind_text(k) == "impl"@);
            assert(word_kind("impl"@) == k);
        },
        TokenKindV::Import => {
            assert("import"@[0] != "return"@[0]);
            assert("import"@[0] != "struct"@[0]);
            assert(kind_text(k) == "import"@);
            assert(word_kind("import"@) == k);
        },
        TokenKindV::Module => {
            assert("module"@[0] != "return"@[0]);
            assert("module"@[0] != "struct"@[0]);
            assert("module"@[0] != "import"@[0]);
            assert(kind_text(k) == "module"@);
            assert(word_kind("module"@) == k);
        },
        TokenKindV::Pub => {
            assert("pub"@[0] != "let"@[0]);
            assert("pub"@[0] != "var"@[0]);
            assert("pub"@[0] != "for"@[0]);
            assert("pub"@[0] != "nil"@[0]);
            assert(kind_text(k) == "pub"@);
            assert(word_kind("pub"@) == k);
        },
        _ => {},
    }
}

/// Every keyword, operator and delimiter lexes back to itself.
pub proof fn law_kinds_lex_back(k: TokenKindV)
    requires
        is_keyword(k) || is_mark(k),
    ensures
        ({
            let s = kind_text(k);
            next_token_at(s, 0) == (
                Ok::<TokenV, CompileErrorV>(
                    TokenV { kind: k, span: span_at(s, 0, s.len() as int) },
                ),
                s.len() as int,
            )
        }),
{
    let s = kind_text(k);
    if is_keyword(k) {
        lemma_keyword(k);
        assert('a' <= s[0] <= 'z');
        assert forall|i: int| 0 <= i < s.len() implies is_word_char(#[trigger] s[i]) by {
            assert('a' <= kind_text(k)[i] <= 'z');
        }
        lemma_word_end_at(s, 1, s.len() as int);
        assert(s.subrange(0, s.len() as int) =~= s);
        assert(skip_blanks(s, 0) == 0);
        assert(two_char_op(s[0], char_at(s, 1)) is None);
        assert(one_char_kind(s[0]) is None);
    } else {
        reveal(kind_text);
        match k {
            TokenKindV::Plus => {
                reveal_strlit("+");
            },
            TokenKindV::Minus => {
                reveal_strlit("-");
            },
            TokenKindV::Star => {
                reveal_strlit("*");
            },
            TokenKindV::Slash => {
                reveal_strlit("/");
            },
            TokenKindV::Percent => {
                reveal_strlit("%");
            },
            TokenKindV::Eq => {
                reveal_strlit("=");
            },
            TokenKindV::EqEq => {
                reveal_strlit("==");
            },
            TokenKindV::NotEq => {
                reveal_strlit("!=");
            },
            TokenKindV::Lt => {
                reveal_strlit("<");
            },
            TokenKindV::Gt => {
                reveal_strlit(">");
            },
            TokenKindV::LtEq => {
                reveal_strlit("<=");
            },
            TokenKindV::GtEq => {
                reveal_strlit(">=");
            },
            TokenKindV::AndAnd => {
                reveal_strlit("&&");
            },
            TokenKindV::OrOr => {
                reveal_strlit("||");
            },
            TokenKindV::Not => {
                reveal_strlit("!");
            },
            TokenKindV::Arrow => {
                reveal_strlit("->");
            },
            TokenKindV::FatArrow => {
                reveal_strlit("=>");
            },
            TokenKindV::Dot => {
                reveal_strlit(".");
            },
            TokenKindV::DotDot => {
                reveal_strlit("..");
            },
            TokenKindV::Colon => {
                reveal_strlit(":");
            },
            TokenKindV::Semicolon => {
                reveal_strlit(";");
            },
            TokenKindV::Comma => {
                reveal_strlit(",");
            },
            TokenKindV::At => {
                reveal_strlit("@");
            },
            TokenKindV::Dollar => {
                reveal_strlit("$");
            },
            TokenKindV::Underscore => {
                reveal_strlit("_");
            },
            TokenKindV::Question => {
                reveal_strlit("?");
            },
            TokenKindV::Tilde => {
                reveal_strlit("~");
            },
            TokenKindV::Hash => {
                reveal_strlit("#");
            },
            TokenKindV::LParen => {
                reveal_strlit("(");
            },
            TokenKindV::RParen => {
                reveal_strlit(")");
            },
            TokenKindV::LBrace => {
                reveal_strlit("{");
            },
            TokenKindV::RBrace => {
                reveal_strlit("}");
            },
            TokenKindV::LBracket => {
                reveal_strlit("[");
            },
            TokenKindV::RBracket => {
                reveal_strlit("]");
            },
            TokenKindV::PlusEq => {
                reveal_strlit("+=");
            },
            TokenKindV::MinusEq => {
                reveal_strlit("-=");
            },
            TokenKindV::StarEq => {
                reveal_strlit("*=");
            },
            TokenKindV::SlashEq => {
                reveal_strlit("/=");
            },
            TokenKindV::PercentEq => {
                reveal_strlit("%=");
            },
            _ => {},
        }
        assert(skip_blanks(s, 0) == 0);
    }
}

/// What `next_token` consumes and where its token stands: it moves on unless the
/// source is at its end, the token is the end of file exactly there, and it covers
/// the stretch from the first character that counts to the new position.
pub proof fn law_next_token_progress(src: Seq<char>, pos: int)
    requires
        0 <= pos <= src.len(),
    ensures
        pos <= next_token_at(src, pos).1 <= src.len(),
        next_token_at(src, pos).0 matches Ok(t) ==> {
            &&& (t.kind is Eof <==> skip_blanks(src, pos) == src.len())
            &&& (t.kind !is Eof ==> pos < next_token_at(src, pos).1)
            &&& pos <= skip_blanks(src, pos) <= next_token_at(src, pos).1
            &&& t.span == span_at(src, skip_blanks(src, pos), next_token_at(src, pos).1)
        },
{
    lemma_skip_blanks(src, pos);
    lemma_token_at(src, skip_blanks(src, pos));
}

/// All tokens from `pos` on after those of `acc`, the end of file the last; or
/// the first error.
pub open spec fn tokens_from(src: Seq<char>, pos: int, acc: Seq<TokenV>) -> Result<
    Seq<TokenV>,
    CompileErrorV,
>
    decreases src.len() - pos,
{
    if pos < 0 || pos > src.len() {
        Ok(acc)
    } else {
        match next_token_at(src, pos) {
            (Err(e), _) => Err(e),
            (Ok(t), p) => if t.kind is Eof {
                Ok(acc.push(t))
            } else {
                proof {
                    law_next_token_progress(src, pos);
                }
                tokens_from(src, p, acc.push(t))
            },
        }
    }
}

/// The tokens of a source, or the first error.
pub open spec fn tokens_of(src: Seq<char>) -> Result<Seq<TokenV>, CompileErrorV> {
    tokens_from(src, 0, Seq::empty())
}

/// Tokens that stand inside the source, that carry the line and column of their ends, and
/// of which each begins where the one before has ended or later.
pub open spec fn well_placed(src: Seq<char>, ts: Seq<TokenV>) -> bool {
    &&& forall|i: int|
        0 <= i < ts.len() ==> (#[trigger] ts[i]).span.start <= ts[i].span.end <= src.len()
    &&& forall|i: int|
        0 <= i < ts.len() ==> (#[trigger] ts[i]).span.line == line_at(src, ts[i].span.end as int)
            && ts[i].span.col == col_at(src, ts[i].span.end as int)
    &&& forall|i: int, j: int|
        0 <= i < j < ts.len() ==> (#[trigger] ts[i]).span.end <= (#[trigger] ts[j]).span.start
}

proof fn lemma_tokens_from(src: Seq<char>, pos: int, acc: Seq<TokenV>)
    requires
        0 <= pos <= src.len() <= usize::MAX,
        well_placed(src, acc),
        forall|i: int| 0 <= i < acc.len() ==> (#[trigger] acc[i]).span.end <= pos,
        forall|i: int| 0 <= i < acc.len() ==> (#[trigger] acc[i]).kind !is Eof,
    ensures
        tokens_from(src, pos, acc) matches Ok(ts) ==> {
            &&& ts.len() > acc.len()
            &&& well_placed(src, ts)
            &&& ts.last().kind is Eof
            &&& forall|i: int| 0 <= i < ts.len() - 1 ==> (#[trigger] ts[i]).kind !is Eof
        },
    decreases src.len() - pos,
{
    law_next_token_progress(src, pos);
    match next_token_at(src, pos) {
        (Err(e), _) => {},
        (Ok(t), p) => {
            if t.kind !is Eof {
                lemma_tokens_from(src, p, acc.push(t));
            }
        },
    }
}

/// What every successful tokenization gives: the end of file last and only there,
/// stretches inside the source and in its order.
pub proof fn law_tokens_well_placed(src: Seq<char>)
    requires
        src.len() <= usize::MAX,
    ensures
        tokens_of(src) matches Ok(ts) ==> {
            &&& ts.len() > 0
            &&& well_placed(src, ts)
            &&& ts.last().kind is Eof
            &&& forall|i: int| 0 <= i < ts.len() - 1 ==> (#[trigger] ts[i]).kind !is Eof
        },
{
    lemma_tokens_from(src, 0, Seq::empty());
}

// ------------------------------------------------------------------- the lexer

/// A source and the position that has been read up to.
pub struct Lexer {
    source: Vec<char>,
    pos: usize,
    line: usize,
    col: usize,
}

impl Lexer {
    pub closed spec fn source(&self) -> Seq<char> {
        self.source@
    }

    pub closed spec fn pos(&self) -> int {
        self.pos as int
    }

    /// The position lies in the source, and the counts of lines and columns are its own.
    pub closed spec fn wf(&self) -> bool {
        &&& self.pos <= self.source.len()
        &&& self.line == line_at(self.source@, self.pos as int)
        &&& self.col == col_at(self.source@, self.pos as int)
    }

    pub fn new(source: &str) -> (r: Self)
        ensures
            r.wf(),
            r.source() == source@,
            r.pos() == 0,
    {
        Lexer { source: chars_of(source), pos: 0, line: 1, col: 1 }
    }

    fn current(&self) -> (r: Option<char>)
        requires
            self.wf(),
        ensures
            r == char_at(self.source@, self.pos as int),
    {
        if self.pos < self.source.len() {
            Some(self.source[self.pos])
        } else {
            None
        }
    }

    fn peek_next(&self) -> (r: Option<char>)
        requires
            self.wf(),
        ensures
            r == char_at(self.source@, self.pos + 1),
    {
        if self.pos < self.source.len() && self.pos + 1 < self.source.len() {
            Some(self.source[self.pos + 1])
        } else {
            None
        }
    }

    fn advance(&mut self)
        requires
            old(self).wf(),
            old(self).pos < old(self).source.len(),
        ensures
            final(self).wf(),
            final(self).source == old(self).source,
            final(self).pos == old(self).pos + 1,
    {
        let c: char = self.source[self.pos];
        self.pos = self.pos + 1;
        if c == '\n' {
            self.line = self.line.saturating_add(1);
            self.col = 1;
        } else {
            self.col = self.col.saturating_add(1);
        }
    }

    fn mk_span(&self, start: usize) -> (r: Span)
        requires
            self.wf(),
        ensures
            r == span_at(self.source@, start as int, self.pos as int),
    {
        Span::new(start, self.pos, self.line, self.col)
    }

    fn skip_whitespace_and_comments(&mut self)
        requires
            old(self).wf(),
        ensures
            final(self).wf(),
            final(self).source == old(self).source,
            final(self).pos == skip_blanks(old(self).source@, old(self).pos as int),
    {
        loop
            invariant
                self.wf(),
                self.source == old(self).source,
                skip_blanks(self.source@, old(self).pos as int) == skip_blanks(
                    self.source@,
                    self.pos as int,
                ),
            ensures
                self.pos == skip_blanks(self.source@, self.pos as int),
            decreases self.source.len() - self.pos,
        {
            match self.current() {
                Some(' ') | Some('\t') | Some('\r') | Some('\n') => {
                    self.advance();
                },
                Some('/') => {
                    let next = self.peek_next();
                    if next == Some('/') {
                        let ghost p0 = self.pos as int;
                        self.advance();
                        self.advance();
                        self.skip_line();
                        proof {
                            lemma_line_end(self.source@, p0 + 2);
                        }
                    } else if next == Some('*') {
                        let ghost p0 = self.pos as int;
                        self.advance();
                        self.advance();
                        self.skip_block();
                        proof {
                            lemma_comment_end(self.source@, p0 + 2, 1);
                        }
                    } else {
                        break;
                    }
                },
                _ => {
                    break;
                },
            }
        }
    }

    fn skip_line(&mut self)
        requires
            old(self).wf(),
        ensures
            final(self).wf(),
            final(self).source == old(self).source,
            final(self).pos == line_end(old(self).source@, old(self).pos as int),
    {
        loop
            invariant
                self.wf(),
                self.source == old(self).source,
                line_end(self.source@, old(self).pos as int) == line_end(
                    self.source@,
                    self.pos as int,
                ),
            ensures
                self.pos == line_end(self.source@, self.pos as int),
            decreases self.source.len() - self.pos,
        {
            match self.current() {
                Some(c) => {
                    if c == '\n' {
                        break;
                    }
                    self.advance();
                },
                None => {
                    break;
                },
            }
        }
    }

    fn skip_block(&mut self)
        requires
            old(self).wf(),
            old(self).pos > 0,
        ensures
            final(self).wf(),
            final(self).source == old(self).source,
            final(self).pos == comment_end(old(self).source@, old(self).pos as int, 1),
    {
        let mut depth: usize = 1;
        while depth > 0
            invariant
                self.wf(),
                self.source == old(self).source,
                depth <= self.pos,
                comment_end(self.source@, old(self).pos as int, 1) == comment_end(
                    self.source@,
                    self.pos as int,
                    depth as int,
                ),
            ensures
                self.pos == comment_end(self.source@, self.pos as int, depth as int),
            decreases self.source.len() - self.pos, depth,
        {
            match (self.current(), self.peek_next()) {
                (Some('/'), Some('*')) => {
                    self.advance();
                    self.advance();
                    depth = depth + 1;
                },
                (Some('*'), Some('/')) => {
                    self.advance();
                    self.advance();
                    depth = depth - 1;
                },
                (None, _) => {
                    break;
                },
                _ => {
                    self.advance();
                },
            }
        }
    }

    fn read_number(&mut self, first: char, start: usize) -> (r: Token)
        requires
            old(self).wf(),
            is_digit(first),
        ensures
            final(self).wf(),
            final(self).source == old(self).source,
            ({
                let (p, float, digits) = scan_number(
                    old(self).source@,
                    old(self).pos as int,
                    false,
                    seq![first],
                );
                &&& final(self).pos == p
                &&& r@ == (TokenV {
                    kind: number_kind(float, digits),
                    span: span_at(old(self).source@, start as int, p),
                })
            }),
    {
        let mut float: bool = false;
        let mut dot: usize = 0;
        let mut digits: Vec<char> = Vec::new();
        digits.push(first);
        assert(digits@ =~= seq![first]);
        loop
            invariant
                self.wf(),
                self.source == old(self).source,
                scan_number(self.source@, old(self).pos as int, false, seq![first]) == scan_number(
                    self.source@,
                    self.pos as int,
                    float,
                    digits@,
                ),
                digits.len() > 0,
                float ==> 0 < dot < digits.len() && digits[dot as int] == '.',
                forall|k: int|
                    0 <= k < digits.len() && !(float && k == dot) ==> is_digit(
                        #[trigger] digits[k],
                    ),
            ensures
                scan_number(self.source@, self.pos as int, float, digits@) == (
                    self.pos as int,
                    float,
                    digits@,
                ),
            decreases self.source.len() - self.pos,
        {
            match self.current() {
                Some(c) => {
                    if '0' <= c && c <= '9' {
                        digits.push(c);
                        self.advance();
                    } else if c == '.' && !float {
                        float = true;
                        dot = digits.len();
                        digits.push(c);
                        self.advance();
                    } else if c == '_' {
                        self.advance();
                    } else {
                        break;
                    }
                },
                None => {
                    break;
                },
            }
        }
        let kind = if float {
            TokenKind::FloatLiteral(normal_float(&digits, dot))
        } else {
            TokenKind::IntLiteral(parse_int_literal(&digits))
        };
        Token::new(kind, self.mk_span(start))
    }

    fn read_string(&mut self, quote: char, start: usize) -> (r: Result<Token, CompileError>)
        requires
            old(self).wf(),
            old(self).pos == start + 1,
        ensures
            final(self).wf(),
            final(self).source == old(self).source,
            (res_v(r), final(self).pos as int) == quoted_token(
                old(self).source@,
                start as int,
                quote,
            ),
    {
        let mut s: Vec<char> = Vec::new();
        loop
            invariant_except_break
                scan_quoted(self.source@, start + 1, quote, Seq::empty()) == scan_quoted(
                    self.source@,
                    self.pos as int,
                    quote,
                    s@,
                ),
            invariant
                self.wf(),
                self.source == old(self).source,
                old(self).pos == start + 1,
            ensures
                scan_quoted(self.source@, start + 1, quote, Seq::empty()) == (
                    Ok::<Seq<char>, Unclosed>(s@),
                    self.pos as int,
                ),
            decreases self.source.len() - self.pos,
        {
            match self.current() {
                None => {
                    return Err(
                        CompileError::lex("Unterminated string literal", self.mk_span(start)),
                    );
                },
                Some('\\') => {
                    let ghost s0 = s@;
                    self.advance();
                    match self.current() {
                        Some(c) => {
                            if c == 'n' {
                                s.push('\n');
                            } else if c == 't' {
                                s.push('\t');
                            } else if c == 'r' {
                                s.push('\r');
                            } else if c == '0' {
                                s.push('\0');
                            } else if c == '\\' || c == '"' || c == '\'' {
                                s.push(c);
                            } else {
                                s.push('\\');
                                s.push(c);
                            }
                            assert(s@ =~= s0 + escape(c));
                            self.advance();
                        },
                        None => {
                            return Err(
                                CompileError::lex(
                                    "Unterminated escape sequence",
                                    self.mk_span(start),
                                ),
                            );
                        },
                    }
                },
                Some(c) => {
                    if c == quote {
                        self.advance();
                        break;
                    }
                    s.push(c);
                    self.advance();
                },
            }
        }
        if quote == '"' {
            Ok(Token::new(TokenKind::StringLiteral(text_of(&s)), self.mk_span(start)))
        } else if s.len() != 1 {
            Err(
                CompileError::lex(
                    "Character literal must contain exactly one character",
                    self.mk_span(start),
                ),
            )
        } else {
            Ok(Token::new(TokenKind::CharLiteral(s[0]), self.mk_span(start)))
        }
    }

    fn read_ident(&mut self, start: usize) -> (r: Token)
        requires
            old(self).wf(),
            old(self).pos == start + 1,
        ensures
            final(self).wf(),
            final(self).source == old(self).source,
            ({
                let p = word_end(old(self).source@, start + 1);
                &&& final(self).pos == p
                &&& r@ == (TokenV {
                    kind: word_kind(old(self).source@.subrange(start as int, p)),
                    span: span_at(old(self).source@, start as int, p),
                })
            }),
    {
        loop
            invariant
                self.wf(),
                self.source == old(self).source,
                start < self.pos,
                word_end(self.source@, start + 1) == word_end(self.source@, self.pos as int),
            ensures
                self.pos == word_end(self.source@, self.pos as int),
            decreases self.source.len() - self.pos,
        {
            match self.current() {
                Some(c) => {
                    if !char_is_alphanumeric(c) && c != '_' {
                        break;
                    }
                    self.advance();
                },
                None => {
                    break;
                },
            }
        }
        let s = text_between(&self.source, start, self.pos);
        Token::new(TokenKind::of_word(&s), self.mk_span(start))
    }

    /// The operator at the position, whose first character is `first`, if there is one.
    fn read_operator(&mut self, first: char, start: usize) -> (r: Option<Token>)
        requires
            old(self).wf(),
            old(self).pos == start,
            char_at(old(self).source@, start as int) == Some(first),
        ensures
            final(self).wf(),
            final(self).source == old(self).source,
            ({
                let src = old(self).source@;
                match two_char_op(first, char_at(src, start + 1)) {
                    Some(k) => r matches Some(t) && t@ == (TokenV {
                        kind: k,
                        span: span_at(src, start as int, start + 2),
                    }) && final(self).pos == start + 2,
                    None => match one_char_kind(first) {
                        Some(k) => r matches Some(t) && t@ == (TokenV {
                            kind: k,
                            span: span_at(src, start as int, start + 1),
                        }) && final(self).pos == start + 1,
                        None => r is None && final(self).pos == start,
                    },
                }
            }),
    {
        let second = self.peek_next();
        let double: Option<TokenKind> = match (first, second) {
            ('+', Some('=')) => Some(TokenKind::PlusEq),
            ('-', Some('>')) => Some(TokenKind::Arrow),
            ('-', Some('=')) => Some(TokenKind::MinusEq),
            ('*', Some('=')) => Some(TokenKind::StarEq),
            ('/', Some('=')) => Some(TokenKind::SlashEq),
            ('%', Some('=')) => Some(TokenKind::PercentEq),
            ('=', Some('>')) => Some(TokenKind::FatArrow),
            ('=', Some('=')) => Some(TokenKind::EqEq),
            ('!', Some('=')) => Some(TokenKind::NotEq),
            ('<', Some('=')) => Some(TokenKind::LtEq),
            ('>', Some('=')) => Some(TokenKind::GtEq),
            ('&', Some('&')) => Some(TokenKind::AndAnd),
            ('|', Some('|')) => Some(TokenKind::OrOr),
            ('.', Some('.')) => Some(TokenKind::DotDot),
            _ => None,
        };
        match double {
            Some(kind) => {
                self.advance();
                self.advance();
                return Some(Token::new(kind, self.mk_span(start)));
            },
            None => {},
        }
        let single: Option<TokenKind> = match first {
            '(' => Some(TokenKind::LParen),
            ')' => Some(TokenKind::RParen),
            '{' => Some(TokenKind::LBrace),
            '}' => Some(TokenKind::RBrace),
            '[' => Some(TokenKind::LBracket),
            ']' => Some(TokenKind::RBracket),
            ':' => Some(TokenKind::Colon),
            ';' => Some(TokenKind::Semicolon),
            ',' => Some(TokenKind::Comma),
            '@' => Some(TokenKind::At),
            '$' => Some(TokenKind::Dollar),
            '?' => Some(TokenKind::Question),
            '~' => Some(TokenKind::Tilde),
            '#' => Some(TokenKind::Hash),
            '+' => Some(TokenKind::Plus),
            '-' => Some(TokenKind::Minus),
            '*' => Some(TokenKind::Star),
            '/' => Some(TokenKind::Slash),
            '%' => Some(TokenKind::Percent),
            '=' => Some(TokenKind::Eq),
            '<' => Some(TokenKind::Lt),
            '>' => Some(TokenKind::Gt),
            '!' => Some(TokenKind::Not),
            '.' => Some(TokenKind::Dot),
            _ => None,
        };
        match single {
            Some(kind) => {
                self.advance();
                Some(Token::new(kind, self.mk_span(start)))
            },
            None => None,
        }
    }

    /// The next token.
    pub fn next_token(&mut self) -> (r: Result<Token, CompileError>)
        requires
            old(self).wf(),
        ensures
            final(self).wf(),
            final(self).source() == old(self).source(),
            (res_v(r), final(self).pos()) == next_token_at(old(self).source(), old(self).pos()),
    {
        self.skip_whitespace_and_comments();
        let start: usize = self.pos;
        match self.current() {
            None => Ok(Token::new(TokenKind::Eof, self.mk_span(start))),
            Some(c) => {
                if c == '"' || c == '\'' {
                    self.advance();
                    return self.read_string(c, start);
                }
                if '0' <= c && c <= '9' {
                    self.advance();
                    return Ok(self.read_number(c, start));
                }
                if c == '_' {
                    self.advance();
                    match self.current() {
                        Some(d) => {
                            if char_is_alphanumeric(d) || d == '_' {
                                return Ok(self.read_ident(start));
                            }
                        },
                        None => {},
                    }
                    return Ok(Token::new(TokenKind::Underscore, self.mk_span(start)));
                }
                match self.read_operator(c, start) {
                    Some(t) => Ok(t),
                    None => if char_is_alphabetic(c) {
                        self.advance();
                        Ok(self.read_ident(start))
                    } else {
                        Err(
                            CompileError::lex(
                                &cat3("Unexpected character: '", &char_text(c), "'"),
                                self.mk_span(start),
                            ),
                        )
                    },
                }
            },
        }
    }

    /// All tokens that are left, the end of file the last.
    pub fn tokenize(&mut self) -> (r: Result<Vec<Token>, CompileError>)
        requires
            old(self).wf(),
        ensures
            final(self).wf(),
            final(self).source() == old(self).source(),
            (match r {
                Ok(ts) => Ok::<Seq<TokenV>, CompileErrorV>(tokens_v(ts@)),
                Err(e) => Err(e@),
            }) == tokens_from(old(self).source(), old(self).pos(), Seq::empty()),
    {
        let mut tokens: Vec<Token> = Vec::new();
        assert(tokens_v(tokens@) =~= Seq::empty());
        loop
            invariant
                self.wf(),
                self.source() == old(self).source(),
                tokens_from(old(self).source(), old(self).pos(), Seq::empty()) == tokens_from(
                    self.source(),
                    self.pos(),
                    tokens_v(tokens@),
                ),
            decreases self.source().len() - self.pos(),
        {
            proof {
                law_next_token_progress(self.source(), self.pos());
            }
            let token = self.next_token()?;
            let is_eof: bool = matches!(token.kind, TokenKind::Eof);
            let ghost before = tokens@;
            tokens.push(token);
            assert(tokens_v(tokens@) =~= tokens_v(before).push(token@));
            if is_eof {
                return Ok(tokens);
            }
        }
    }
}

/// The number without the zeros that say nothing; its point is at `dot`.
fn normal_float(digits: &Vec<char>, dot: usize) -> (r: String)
    requires
        0 < dot < digits.len(),
        digits[dot as int] == '.',
        forall|k: int| 0 <= k < digits.len() && k != dot ==> is_digit(#[trigger] digits[k]),
    ensures
        r@ == float_text(digits@),
{
    proof {
        lemma_point_index(digits@, 0, dot as int);
    }
    let mut from: usize = 0;
    while from + 1 < dot && digits[from] == '0'
        invariant
            dot < digits.len(),
            from < dot,
            first_digit(digits@, 0, dot as int) == first_digit(digits@, from as int, dot as int),
        decreases dot - from,
    {
        from = from + 1;
    }
    let mut to: usize = digits.len();
    while dot + 1 < to && digits[to - 1] == '0'
        invariant
            dot < to <= digits.len(),
            last_digit(digits@, digits.len() as int, dot as int) == last_digit(
                digits@,
                to as int,
                dot as int,
            ),
        decreases to,
    {
        to = to - 1;
    }
    if to <= dot + 1 {
        text_between(digits, from, dot)
    } else {
        text_between(digits, from, to)
    }
}

proof fn lemma_point_index(s: Seq<char>, i: int, dot: int)
    requires
        0 <= i <= dot < s.len(),
        s[dot] == '.',
        forall|k: int| 0 <= k < s.len() && k != dot ==> is_digit(#[trigger] s[k]),
    ensures
        point_index(s, i) == dot,
    decreases dot - i,
{
    if i < dot {
        assert(is_digit(s[i]));
        lemma_point_index(s, i + 1, dot);
    }
}

} // verus!
