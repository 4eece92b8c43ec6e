//! Semantic tokens: a kind and modifiers for each token of a source, with positions that
//! count from the token before.
use vstd::prelude::*;

pub mod modifier;

verus! {

use crate::lexer::{col_at, law_tokens_well_placed, line_at, tokens_of};
use crate::lsp::position::{begun_tokens, chars_before, lines_before, position_at};
use crate::maps::contains_str;
use crate::text::{char_is_uppercase, chars_of, is_uppercase, strs_v};
use crate::token::{Span, Token, TokenKind, TokenKindV, TokenV, max_of, tokens_v};

/// The kinds of semantic token, in the order of the legend.
#[derive(Debug, Clone, Copy, PartialEq, Eq, Structural)]
pub enum NovaSemanticToken {
    Keyword,
    String,
    Number,
    Comment,
    Operator,
    Type,
    Function,
    Variable,
    Parameter,
    EnumMember,
    Macro,
    Struct,
    TypeParameter,
    Property,
}

/// The place of a kind in the legend.
pub open spec fn legend_index(k: NovaSemanticToken) -> u32 {
    match k {
        NovaSemanticToken::Keyword => 0,
        NovaSemanticToken::String => 1,
        NovaSemanticToken::Number => 2,
        NovaSemanticToken::Comment => 3,
        NovaSemanticToken::Operator => 4,
        NovaSemanticToken::Type => 5,
        NovaSemanticToken::Function => 6,
        NovaSemanticToken::Variable => 7,
        NovaSemanticToken::Parameter => 8,
        NovaSemanticToken::EnumMember => 9,
        NovaSemanticToken::Macro => 10,
        NovaSemanticToken::Struct => 11,
        NovaSemanticToken::TypeParameter => 12,
        NovaSemanticToken::Property => 13,
    }
}

/// The name of a kind in the legend.
pub open spec fn legend_name(k: NovaSemanticToken) -> Seq<char> {
    match k {
        NovaSemanticToken::Keyword => "keyword"@,
        NovaSemanticToken::String => "string"@,
        NovaSemanticToken::Number => "number"@,
        NovaSemanticToken::Comment => "comment"@,
        NovaSemanticToken::Operator => "operator"@,
        NovaSemanticToken::Type => "type"@,
        NovaSemanticToken::Function => "function"@,
        NovaSemanticToken::Variable => "variable"@,
        NovaSemanticToken::Parameter => "parameter"@,
        NovaSemanticToken::EnumMember => "enumMember"@,
        NovaSemanticToken::Macro => "macro"@,
        NovaSemanticToken::Struct => "struct"@,
        NovaSemanticToken::TypeParameter => "typeParameter"@,
        NovaSemanticToken::Property => "property"@,
    }
}

impl NovaSemanticToken {
    /// The place of a kind in the legend.
    pub fn index(self) -> (r: u32)
        ensures
            r == legend_index(self),
    {
        match self {
            NovaSemanticToken::Keyword => 0,
            NovaSemanticToken::String => 1,
            NovaSemanticToken::Number => 2,
            NovaSemanticToken::Comment => 3,
            NovaSemanticToken::Operator => 4,
            NovaSemanticToken::Type => 5,
            NovaSemanticToken::Function => 6,
            NovaSemanticToken::Variable => 7,
            NovaSemanticToken::Parameter => 8,
            NovaSemanticToken::EnumMember => 9,
            NovaSemanticToken::Macro => 10,
            NovaSemanticToken::Struct => 11,
            NovaSemanticToken::TypeParameter => 12,
            NovaSemanticToken::Property => 13,
        }
    }
}

/// The names of the kinds, in the order of the legend.
pub fn semantic_token_types() -> (r: Vec<String>)
    ensures
        r.len() == 14,
        forall|k: NovaSemanticToken| #[trigger]
            strs_v(r@)[legend_index(k) as int] == legend_name(k),
{
    let mut v: Vec<String> = Vec::new();
    v.push("keyword".to_owned());
    v.push("string".to_owned());
    v.push("number".to_owned());
    v.push("comment".to_owned());
    v.push("operator".to_owned());
    v.push("type".to_owned());
    v.push("function".to_owned());
    v.push("variable".to_owned());
    v.push("parameter".to_owned());
    v.push("enumMember".to_owned());
    v.push("macro".to_owned());
    v.push("struct".to_owned());
    v.push("typeParameter".to_owned());
    v.push("property".to_owned());
    v
}

/// The names of the modifiers, in the order of their bits.
pub fn semantic_token_modifiers() -> (r: Vec<String>)
    ensures
        strs_v(r@) == seq![
            "declaration"@,
            "definition"@,
            "readonly"@,
            "defaultLibrary"@,
            "modification"@,
        ],
{
    let mut v: Vec<String> = Vec::new();
    v.push("declaration".to_owned());
    v.push("definition".to_owned());
    v.push("readonly".to_owned());
    v.push("defaultLibrary".to_owned());
    v.push("modification".to_owned());
    assert(strs_v(v@) =~= seq![
        "declaration"@,
        "definition"@,
        "readonly"@,
        "defaultLibrary"@,
        "modification"@,
    ]);
    v
}

/// Whether a name behind such a token is defined there.
pub open spec fn introduces(k: TokenKindV) -> bool {
    ||| k is Func
    ||| k is Let
    ||| k is Var
    ||| k is Struct
    ||| k is Enum
    ||| k is Trait
    ||| k is Macro
    ||| k is Type
    ||| k is Case
}

/// Whether the token behind the one at `i` defines a name.
pub open spec fn defines_at(ts: Seq<TokenV>, name: Seq<char>, i: int) -> bool {
    0 <= i < ts.len() - 1 && introduces(ts[i].kind) && ts[i + 1].kind == TokenKindV::Ident(name)
}

/// Whether a name is defined in a source.
pub open spec fn is_defined(ts: Seq<TokenV>, name: Seq<char>) -> bool {
    exists|i: int| defines_at(ts, name, i)
}

/// The kind of a token and its modifiers.
pub open spec fn token_class(ts: Seq<TokenV>, k: TokenKindV) -> Option<(NovaSemanticToken, u32)> {
    match k {
        TokenKindV::Func | TokenKindV::Let | TokenKindV::Var | TokenKindV::Return
        | TokenKindV::If | TokenKindV::Else | TokenKindV::Match | TokenKindV::Case
        | TokenKindV::Enum | TokenKindV::Struct | TokenKindV::Macro | TokenKindV::Quote
        | TokenKindV::While | TokenKindV::For | TokenKindV::In | TokenKindV::As | TokenKindV::Is
        | TokenKindV::Import | TokenKindV::Module | TokenKindV::Pub | TokenKindV::Trait
        | TokenKindV::Impl | TokenKindV::Type | TokenKindV::True | TokenKindV::False
        | TokenKindV::Nil => Some((NovaSemanticToken::Keyword, 0)),
        TokenKindV::StringLiteral(_) | TokenKindV::CharLiteral(_) => Some(
            (NovaSemanticToken::String, 0),
        ),
        TokenKindV::IntLiteral(_) | TokenKindV::FloatLiteral(_) => Some(
            (NovaSemanticToken::Number, 0),
        ),
        TokenKindV::RawCpp(_) => Some((NovaSemanticToken::Comment, 0)),
        TokenKindV::Ident(name) => Some(
            (
                if name.len() > 0 && is_uppercase(name[0]) {
                    NovaSemanticToken::Type
                } else {
                    NovaSemanticToken::Variable
                },
                if is_defined(ts, name) {
                    modifier::DECLARATION
                } else {
                    0
                },
            ),
        ),
        TokenKindV::Eof => None,
        _ => Some((NovaSemanticToken::Operator, 0)),
    }
}

/// Classifies a token of a source that defines some names.
fn classify_token(token: &Token, definitions: &Vec<String>, Ghost(ts): Ghost<Seq<TokenV>>) -> (r:
    Option<(NovaSemanticToken, u32)>)
    requires
        forall|name: Seq<char>|
            strs_v(definitions@).contains(name) <==> #[trigger] is_defined(ts, name),
    ensures
        r == token_class(ts, token@.kind),
{
    match &token.kind {
        TokenKind::Func | TokenKind::Let | TokenKind::Var | TokenKind::Return | TokenKind::If
        | TokenKind::Else | TokenKind::Match | TokenKind::Case | TokenKind::Enum
        | TokenKind::Struct | TokenKind::Macro | TokenKind::Quote | TokenKind::While
        | TokenKind::For | TokenKind::In | TokenKind::As | TokenKind::Is | TokenKind::Import
        | TokenKind::Module | TokenKind::Pub | TokenKind::Trait | TokenKind::Impl
        | TokenKind::Type | TokenKind::True | TokenKind::False | TokenKind::Nil => Some(
            (NovaSemanticToken::Keyword, 0),
        ),
        TokenKind::StringLiteral(_) | TokenKind::CharLiteral(_) => Some(
            (NovaSemanticToken::String, 0),
        ),
        TokenKind::IntLiteral(_) | TokenKind::FloatLiteral(_) => Some(
            (NovaSemanticToken::Number, 0),
        ),
        TokenKind::RawCpp(_) => Some((NovaSemanticToken::Comment, 0)),
        TokenKind::Ident(name) => {
            let mods: u32 = if contains_str(definitions, name) {
                modifier::DECLARATION
            } else {
                0
            };
            let letters = chars_of(name);
            if letters.len() > 0 && char_is_uppercase(letters[0]) {
                Some((NovaSemanticToken::Type, mods))
            } else {
                Some((NovaSemanticToken::Variable, mods))
            }
        },
        TokenKind::Eof => None,
        _ => Some((NovaSemanticToken::Operator, 0)),
    }
}

/// The line of a token, counted from 0.
pub open spec fn token_line(s: Span) -> u32 {
    (max_of(s.line, 1) - 1) as u32
}

/// The column of a token, counted from 0.
pub open spec fn token_start(s: Span) -> u32 {
    (max_of(s.col, 1) - 1) as u32
}

/// How many characters a place holds.
pub open spec fn span_len(s: Span) -> usize {
    if s.start <= s.end {
        (s.end - s.start) as usize
    } else {
        0
    }
}

/// A difference, or 0 where it would be less.
pub open spec fn less_by(a: u32, b: u32) -> u32 {
    if a >= b {
        (a - b) as u32
    } else {
        0
    }
}

/// The semantic tokens of the tokens from `i` on, of which the one before stood at
/// `(line, start)`.
pub open spec fn encoded_from(ts: Seq<TokenV>, i: int, line: u32, start: u32) -> Seq<u32>
    decreases ts.len() - i,
{
    if i < 0 || i >= ts.len() {
        Seq::empty()
    } else {
        match token_class(ts, ts[i].kind) {
            None => encoded_from(ts, i + 1, line, start),
            Some((kind, mods)) => {
                let line1 = token_line(ts[i].span);
                let start1 = token_start(ts[i].span);
                let down = less_by(line1, line);
                seq![
                    down,
                    if down == 0 {
                        less_by(start1, start)
                    } else {
                        start1
                    },
                    span_len(ts[i].span) as u32,
                    legend_index(kind),
                    mods,
                ] + encoded_from(ts, i + 1, line1, start1)
            },
        }
    }
}

/// The semantic tokens of tokens that carry the lines and columns where they begin: five
/// numbers for each token, the lines and columns counted from the token before.
pub open spec fn encoded(ts: Seq<TokenV>) -> Seq<u32> {
    encoded_from(ts, 0, 0, 0)
}

/// How many characters a place holds.
pub fn len_of(s: &Span) -> (r: usize)
    ensures
        r == span_len(*s),
{
    if s.start <= s.end {
        s.end - s.start
    } else {
        0
    }
}

/// The line of a place, counted from 0.
pub fn line_of(s: &Span) -> (r: u32)
    ensures
        r == token_line(*s),
{
    let line: usize = if s.line < 1 {
        1
    } else {
        s.line
    };
    (line - 1) as u32
}

/// The column of a place, counted from 0.
pub fn start_of(s: &Span) -> (r: u32)
    ensures
        r == token_start(*s),
{
    let col: usize = if s.col < 1 {
        1
    } else {
        s.col
    };
    (col - 1) as u32
}

/// The names that a source defines.
fn definitions_of(tokens: &[Token]) -> (r: Vec<String>)
    ensures
        forall|name: Seq<char>|
            strs_v(r@).contains(name) <==> #[trigger] is_defined(tokens_v(tokens@), name),
{
    let ghost ts = tokens_v(tokens@);
    let mut names: Vec<String> = Vec::new();
    let mut i: usize = 0;
    while tokens.len() >= 2 && i < tokens.len() - 1
        invariant
            ts == tokens_v(tokens@),
            i <= tokens.len(),
            forall|name: Seq<char>|
                #![trigger strs_v(names@).contains(name)]
                strs_v(names@).contains(name) <==> exists|j: int|
                    j < i && #[trigger] defines_at(ts, name, j),
        decreases tokens.len() - i,
    {
        let ghost before = names@;
        let intro = match &tokens[i].kind {
            TokenKind::Func | TokenKind::Let | TokenKind::Var | TokenKind::Struct
            | TokenKind::Enum | TokenKind::Trait | TokenKind::Macro | TokenKind::Type
            | TokenKind::Case => true,
            _ => false,
        };
        assert(intro == introduces(ts[i as int].kind));
        assert(ts[i + 1] == tokens@[i + 1]@);
        let mut found = false;
        if intro {
            if let TokenKind::Ident(name) = &tokens[i + 1].kind {
                names.push(name.clone());
                found = true;
                assert(strs_v(names@) =~= strs_v(before).push(name@));
            }
        }
        proof {
            assert forall|name: Seq<char>|
                #![trigger strs_v(names@).contains(name)]
                strs_v(names@).contains(name) <==> exists|j: int|
                    j < i + 1 && #[trigger] defines_at(ts, name, j) by {
                let old_names = strs_v(before);
                assert(old_names.contains(name) <==> exists|j: int|
                    j < i && #[trigger] defines_at(ts, name, j));
                if found {
                    let new = strs_v(names@).last();
                    assert(defines_at(ts, new, i as int));
                    if strs_v(names@).contains(name) {
                        let k = choose|k: int|
                            0 <= k < strs_v(names@).len() && strs_v(names@)[k] == name;
                        if k < old_names.len() {
                            assert(old_names[k] == name);
                        } else {
                            assert(defines_at(ts, name, i as int));
                        }
                    }
                    if defines_at(ts, name, i as int) {
                        assert(strs_v(names@)[old_names.len() as int] == name);
                    }
                    if old_names.contains(name) {
                        let k = choose|k: int| 0 <= k < old_names.len() && old_names[k] == name;
                        assert(strs_v(names@)[k] == name);
                    }
                } else {
                    assert(!defines_at(ts, name, i as int));
                }
            }
        }
        i = i + 1;
    }
    assert forall|name: Seq<char>|
        strs_v(names@).contains(name) <==> #[trigger] is_defined(ts, name) by {
        if is_defined(ts, name) {
            let j = choose|j: int| defines_at(ts, name, j);
            assert(j < i && defines_at(ts, name, j));
        }
    }
    names
}

/// Computes the semantic tokens of tokens that carry the lines and columns where they begin.
pub fn compute_semantic_tokens(_source: &str, tokens: &[Token]) -> (r: Vec<u32>)
    ensures
        r@ == encoded(tokens_v(tokens@)),
{
    let ghost ts = tokens_v(tokens@);
    let mut out: Vec<u32> = Vec::new();
    let definitions = definitions_of(tokens);
    let mut line: u32 = 0;
    let mut start: u32 = 0;
    let mut i: usize = 0;
    assert(out@ + encoded_from(ts, 0, 0, 0) =~= encoded(ts));
    while i < tokens.len()
        invariant
            ts == tokens_v(tokens@),
            i <= tokens.len(),
            forall|name: Seq<char>|
                strs_v(definitions@).contains(name) <==> #[trigger] is_defined(ts, name),
            out@ + encoded_from(ts, i as int, line, start) == encoded(ts),
        decreases tokens.len() - i,
    {
        let ghost before = out@;
        let token = &tokens[i];
        assert(ts[i as int] == token@);
        if let Some((kind, mods)) = classify_token(token, &definitions, Ghost(ts)) {
            let line1 = line_of(&token.span);
            let start1 = start_of(&token.span);
            let len = len_of(&token.span) as u32;
            let down: u32 = if line1 >= line {
                line1 - line
            } else {
                0
            };
            let right: u32 = if down == 0 {
                if start1 >= start {
                    start1 - start
                } else {
                    0
                }
            } else {
                start1
            };
            let ghost rest = encoded_from(ts, i + 1, line1, start1);
            out.push(down);
            out.push(right);
            out.push(len);
            out.push(kind.index());
            out.push(mods);
            assert(before + (seq![down, right, len, legend_index(kind), mods] + rest) =~= out@
                + rest);
            line = line1;
            start = start1;
        }
        i = i + 1;
    }
    assert(out@ + Seq::<u32>::empty() =~= out@);
    out
}

/// How many tokens before `i` are shown: all but the end of file.
pub open spec fn rank(ts: Seq<TokenV>, i: int) -> nat
    decreases i,
{
    if i <= 0 {
        0
    } else if ts[i - 1].kind is Eof {
        rank(ts, i - 1)
    } else {
        rank(ts, i - 1) + 1
    }
}

/// The place of the last token before `i` that is shown, counted from 0, and the start of
/// the source where there is none.
pub open spec fn place_before(ts: Seq<TokenV>, i: int) -> (u32, u32)
    decreases i,
{
    if i <= 0 {
        (0, 0)
    } else if ts[i - 1].kind is Eof {
        place_before(ts, i - 1)
    } else {
        (token_line(ts[i - 1].span), token_start(ts[i - 1].span))
    }
}

/// The place of the token at `k` as a reader of semantic tokens finds it: by adding up
/// the differences.
pub open spec fn decoded_place(data: Seq<u32>, k: int) -> (int, int)
    decreases k + 1,
{
    if k < 0 {
        (0, 0)
    } else {
        let (line, start) = decoded_place(data, k - 1);
        (
            line + data[5 * k],
            if data[5 * k] == 0 {
                start + data[5 * k + 1]
            } else {
                data[5 * k + 1] as int
            },
        )
    }
}

/// Whether a place has a line and a column, and its numbers fit in semantic tokens.
pub open spec fn is_countable(s: Span) -> bool {
    &&& 1 <= s.line <= u32::MAX
    &&& 1 <= s.col <= u32::MAX
    &&& s.start <= s.end <= u32::MAX
}

/// Whether no token stands before the one in front of it.
pub open spec fn in_order(ts: Seq<TokenV>) -> bool {
    forall|i: int, j: int|
        0 <= i < j < ts.len() ==> (#[trigger] ts[i]).span.line < (#[trigger] ts[j]).span.line || (
        ts[i].span.line == ts[j].span.line && ts[i].span.col <= ts[j].span.col)
}

proof fn lemma_encoded_tail(ts: Seq<TokenV>, i: int)
    requires
        0 <= i <= ts.len(),
    ensures
        encoded(ts).len() >= 5 * rank(ts, i),
        encoded(ts).skip(5 * rank(ts, i) as int) == encoded_from(
            ts,
            i,
            place_before(ts, i).0,
            place_before(ts, i).1,
        ),
    decreases i,
{
    if i == 0 {
        assert(encoded(ts).skip(0) =~= encoded(ts));
    } else {
        lemma_encoded_tail(ts, i - 1);
        let (line, start) = place_before(ts, i - 1);
        let (line1, start1) = place_before(ts, i);
        let whole = encoded_from(ts, i - 1, line, start);
        let rest = encoded_from(ts, i, line1, start1);
        if ts[i - 1].kind !is Eof {
            let n = rank(ts, i - 1) as int;
            assert(whole.skip(5) =~= rest);
            assert(encoded(ts).skip(5 * (n + 1)) =~= encoded(ts).skip(5 * n).skip(5));
        }
    }
}

/// The five numbers of the token at `i`.
proof fn lemma_row(ts: Seq<TokenV>, i: int)
    requires
        0 <= i < ts.len(),
        ts[i].kind !is Eof,
    ensures
        ({
            let k = rank(ts, i) as int;
            let (line, start) = place_before(ts, i);
            let down = less_by(token_line(ts[i].span), line);
            let (kind, mods) = token_class(ts, ts[i].kind)->0;
            &&& encoded(ts).len() >= 5 * k + 5
            &&& token_class(ts, ts[i].kind) is Some
            &&& encoded(ts)[5 * k] == down
            &&& encoded(ts)[5 * k + 1] == if down == 0 {
                less_by(token_start(ts[i].span), start)
            } else {
                token_start(ts[i].span)
            }
            &&& encoded(ts)[5 * k + 2] == span_len(ts[i].span) as u32
            &&& encoded(ts)[5 * k + 3] == legend_index(kind)
            &&& encoded(ts)[5 * k + 4] == mods
        }),
{
    lemma_encoded_tail(ts, i);
    let k = rank(ts, i) as int;
    let (line, start) = place_before(ts, i);
    let tail = encoded_from(ts, i, line, start);
    assert(tail.len() >= 5);
    assert forall|j: int| 0 <= j < 5 implies #[trigger] tail[j] == encoded(ts)[5 * k + j] by {
        assert(encoded(ts).skip(5 * k)[j] == encoded(ts)[5 * k + j]);
    }
    assert(tail[0] == encoded(ts)[5 * k]);
    assert(tail[1] == encoded(ts)[5 * k + 1]);
    assert(tail[2] == encoded(ts)[5 * k + 2]);
    assert(tail[3] == encoded(ts)[5 * k + 3]);
    assert(tail[4] == encoded(ts)[5 * k + 4]);
}

/// The last token that is shown before `i` stands before a token from `i` on.
proof fn lemma_before(ts: Seq<TokenV>, i: int, j: int)
    requires
        in_order(ts),
        0 <= i <= j < ts.len(),
        forall|k: int| 0 <= k < ts.len() ==> is_countable((#[trigger] ts[k]).span),
    ensures
        place_before(ts, i).0 < token_line(ts[j].span) || (place_before(ts, i).0 == token_line(
            ts[j].span,
        ) && place_before(ts, i).1 <= token_start(ts[j].span)),
    decreases i,
{
    assert(is_countable(ts[j].span));
    if i > 0 {
        assert(is_countable(ts[i - 1].span));
        if ts[i - 1].kind is Eof {
            lemma_before(ts, i - 1, j);
        }
    }
}

proof fn lemma_decoded(ts: Seq<TokenV>, i: int)
    requires
        in_order(ts),
        0 <= i <= ts.len(),
        forall|k: int| 0 <= k < ts.len() ==> is_countable((#[trigger] ts[k]).span),
    ensures
        decoded_place(encoded(ts), rank(ts, i) - 1) == (
            place_before(ts, i).0 as int,
            place_before(ts, i).1 as int,
        ),
    decreases i,
{
    if i > 0 {
        lemma_decoded(ts, i - 1);
        if ts[i - 1].kind !is Eof {
            assert(is_countable(ts[i - 1].span));
            lemma_before(ts, i - 1, i - 1);
            lemma_row(ts, i - 1);
        }
    }
}

/// The semantic tokens of tokens in order hold five numbers for each token but the end of
/// file. A reader that adds up the differences finds each at its line and column; the third
/// number is its length, and the fourth is a place in the legend.
pub proof fn law_places_decode(ts: Seq<TokenV>)
    requires
        in_order(ts),
        forall|k: int| 0 <= k < ts.len() ==> is_countable((#[trigger] ts[k]).span),
    ensures
        encoded(ts).len() == 5 * rank(ts, ts.len() as int),
        forall|i: int|
            0 <= i < ts.len() && (#[trigger] ts[i]).kind !is Eof ==> {
                let k = rank(ts, i) as int;
                &&& decoded_place(encoded(ts), k) == (ts[i].span.line - 1, ts[i].span.col - 1)
                &&& encoded(ts)[5 * k + 2] == ts[i].span.end - ts[i].span.start
                &&& encoded(ts)[5 * k + 3] <= 13
            },
{
    let n = ts.len() as int;
    lemma_encoded_tail(ts, n);
    assert(encoded(ts).skip(5 * rank(ts, n) as int).len() == 0);
    assert forall|i: int| 0 <= i < n && (#[trigger] ts[i]).kind !is Eof implies {
        let k = rank(ts, i) as int;
        &&& decoded_place(encoded(ts), k) == (ts[i].span.line - 1, ts[i].span.col - 1)
        &&& encoded(ts)[5 * k + 2] == ts[i].span.end - ts[i].span.start
        &&& encoded(ts)[5 * k + 3] <= 13
    } by {
        assert(is_countable(ts[i].span));
        lemma_decoded(ts, i + 1);
        lemma_row(ts, i);
    }
}

/// Lines do not go back, nor do columns on one line.
proof fn lemma_places_in_order(src: Seq<char>, a: int, b: int)
    requires
        0 <= a <= b,
    ensures
        1 <= line_at(src, a) <= line_at(src, b),
        line_at(src, b) <= b + 1,
        1 <= col_at(src, b) <= b + 1,
        b < usize::MAX && line_at(src, a) == line_at(src, b) ==> col_at(src, a) <= col_at(src, b),
    decreases b,
{
    if a < b {
        lemma_places_in_order(src, a, b - 1);
    } else if b > 0 {
        lemma_places_in_order(src, b - 1, b - 1);
    }
}

/// The places that the lexer counts are those of an editor.
pub proof fn lemma_places(src: Seq<char>, i: int)
    requires
        0 <= i <= src.len(),
        src.len() < u32::MAX,
    ensures
        line_at(src, i) == lines_before(src, i) + 1,
        col_at(src, i) == chars_before(src, i) + 1,
        lines_before(src, i) <= i,
        chars_before(src, i) <= i,
    decreases i,
{
    if i > 0 {
        lemma_places(src, i - 1);
    }
}

/// The rank of a token with no end of file before it.
proof fn lemma_rank(ts: Seq<TokenV>, i: int)
    requires
        0 <= i <= ts.len(),
        forall|j: int| 0 <= j < i ==> (#[trigger] ts[j]).kind !is Eof,
    ensures
        rank(ts, i) == i,
    decreases i,
{
    if i > 0 {
        lemma_rank(ts, i - 1);
    }
}

/// The semantic tokens of a document hold five numbers for each token but the end of file.
/// A reader that adds up the differences finds each token where it begins, on one line or
/// more; the third number is its length.
pub proof fn law_semantic_tokens(src: Seq<char>)
    requires
        src.len() < u32::MAX,
    ensures
        tokens_of(src) matches Ok(ts) ==> {
            let data = encoded(begun_tokens(src, ts));
            &&& data.len() == 5 * (ts.len() - 1)
            &&& forall|k: int|
                0 <= k < ts.len() - 1 ==> {
                    let place = position_at(src, (#[trigger] ts[k]).span.start as int);
                    &&& decoded_place(data, k) == (place.line as int, place.character as int)
                    &&& data[5 * k + 2] == ts[k].span.end - ts[k].span.start
                }
        },
{
    law_tokens_well_placed(src);
    if let Ok(ts) = tokens_of(src) {
        let bs = begun_tokens(src, ts);
        let data = encoded(bs);
        let n = ts.len() - 1;
        assert forall|k: int| 0 <= k < bs.len() implies is_countable((#[trigger] bs[k]).span) by {
            assert(ts[k].span.start <= ts[k].span.end <= src.len());
            lemma_places(src, ts[k].span.start as int);
        }
        assert forall|i: int, j: int| 0 <= i < j < bs.len() implies (#[trigger] bs[i]).span.line < (
        #[trigger] bs[j]).span.line || (bs[i].span.line == bs[j].span.line && bs[i].span.col
            <= bs[j].span.col) by {
            assert(ts[i].span.start <= ts[i].span.end);
            assert(ts[i].span.end <= ts[j].span.start);
            assert(ts[j].span.start <= ts[j].span.end <= src.len());
            lemma_places_in_order(src, ts[i].span.start as int, ts[j].span.start as int);
        }
        law_places_decode(bs);
        assert forall|j: int| 0 <= j < n implies (#[trigger] bs[j]).kind !is Eof by {
            assert(ts[j].kind !is Eof);
        }
        lemma_rank(bs, n);
        assert(bs[n].kind is Eof);
        assert forall|k: int| 0 <= k < n implies {
            let place = position_at(src, (#[trigger] ts[k]).span.start as int);
            &&& decoded_place(data, k) == (place.line as int, place.character as int)
            &&& data[5 * k + 2] == ts[k].span.end - ts[k].span.start
        } by {
            lemma_rank(bs, k);
            assert(bs[k].kind !is Eof);
            assert(ts[k].span.start <= ts[k].span.end <= src.len());
            lemma_places(src, ts[k].span.start as int);
        }
    }
}

} // verus!
