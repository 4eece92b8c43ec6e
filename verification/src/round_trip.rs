//! Reading a type back from how it is written.
use vstd::prelude::*;

verus! {

use crate::ast::{path_text, type_text, types_text};
use crate::error::CompileErrorV;
use crate::grammar::{
    Input, g_generic_args, g_ident, g_segments, g_type, g_type_args, g_types, kind_at,
};
use crate::grammar_rules::{un_generic_args, un_segments, un_type, un_type_args, un_types};
use crate::lexer::{
    char_at, is_blank, is_word_char, law_next_token_progress, lemma_word_end_at, next_token_at,
    one_char_kind, skip_blanks, token_at, tokens_from, tokens_of, two_char_op, word_end,
};
use crate::model::{FunctionTypeV, PathSegmentV, TypeV};
use crate::text::is_alphabetic;
use crate::token::{TokenKindV, TokenV, word_kind};

// ------------------------------------------------------------------------- types

/// A name that lexes to one identifier.
pub open spec fn is_type_name(n: Seq<char>) -> bool {
    &&& token_at(n, 0).1 == n.len()
    &&& token_at(n, 0).0 matches Ok(t) && t.kind == TokenKindV::Ident(n)
}

/// A type that can be read back: its paths have names, its tuples at least two parts, and
/// none of it is the empty type, which cannot be written.
pub open spec fn is_readable(t: TypeV) -> bool
    decreases t, 0int,
{
    match t {
        TypeV::Path(p) => p.segments.len() > 0 && are_segments(p.segments),
        TypeV::GcRef(inner) => is_readable(*inner),
        TypeV::Function(ft) => all_readable(ft.params) && is_readable(*ft.ret),
        TypeV::Tuple(ts) => ts.len() >= 2 && all_readable(ts),
        TypeV::Unit => true,
        TypeV::Never => false,
    }
}

/// The same of each type.
pub open spec fn all_readable(ts: Seq<TypeV>) -> bool
    decreases ts, 0int,
{
    forall|i: int| 0 <= i < ts.len() ==> is_readable(#[trigger] ts[i])
}

/// Each segment of a path has a name, and arguments that can be read back.
pub open spec fn are_segments(segs: Seq<PathSegmentV>) -> bool
    decreases segs, 0int,
{
    forall|i: int|
        0 <= i < segs.len() ==> is_type_name((#[trigger] segs[i]).name) && all_readable(
            segs[i].args,
        )
}

/// The kinds of the tokens of a type.
pub open spec fn type_kinds(t: TypeV) -> Seq<TokenKindV>
    decreases t, 0int,
{
    match t {
        TypeV::Path(p) => path_kinds(p.segments, 0),
        TypeV::GcRef(inner) => seq![TokenKindV::At] + type_kinds(*inner),
        TypeV::Function(ft) => seq![TokenKindV::LParen] + types_kinds(ft.params, 0) + seq![
            TokenKindV::RParen,
            TokenKindV::Arrow,
        ] + type_kinds(*ft.ret),
        TypeV::Tuple(ts) => seq![TokenKindV::LParen] + types_kinds(ts, 0) + seq![
            TokenKindV::RParen,
        ],
        TypeV::Unit => seq![TokenKindV::LParen, TokenKindV::RParen],
        TypeV::Never => Seq::empty(),
    }
}

/// The kinds of the tokens of the types from `i` on.
pub open spec fn types_kinds(ts: Seq<TypeV>, i: int) -> Seq<TokenKindV>
    decreases ts, ts.len() - i,
{
    if 0 <= i < ts.len() {
        type_kinds(ts[i]) + (if i + 1 < ts.len() {
            seq![TokenKindV::Comma] + types_kinds(ts, i + 1)
        } else {
            Seq::empty()
        })
    } else {
        Seq::empty()
    }
}

/// The kinds of the tokens of the arguments of a segment.
pub open spec fn args_kinds(args: Seq<TypeV>) -> Seq<TokenKindV>
    decreases args, args.len() + 1,
{
    if args.len() > 0 {
        seq![TokenKindV::LBracket] + types_kinds(args, 0) + seq![TokenKindV::RBracket]
    } else {
        Seq::empty()
    }
}

/// The kinds of the tokens of a path from segment `i` on.
pub open spec fn path_kinds(segs: Seq<PathSegmentV>, i: int) -> Seq<TokenKindV>
    decreases segs, segs.len() - i,
{
    if 0 <= i < segs.len() {
        seq![TokenKindV::Ident(segs[i].name)] + args_kinds(segs[i].args) + (if i + 1 < segs.len() {
            seq![TokenKindV::Colon, TokenKindV::Colon] + path_kinds(segs, i + 1)
        } else {
            Seq::empty()
        })
    } else {
        Seq::empty()
    }
}

// ----------------------------------------------------------------------- parsing

/// The tokens from `p` on are of these kinds.
pub open spec fn stand_at(i: Input, p: int, ks: Seq<TokenKindV>) -> bool {
    &&& 0 <= p
    &&& p + ks.len() <= i.toks.len()
    &&& forall|k: int| 0 <= k < ks.len() ==> kind_at(i, p + k) == #[trigger] ks[k]
}

/// What can stand behind a type.
pub open spec fn closes_type(k: TokenKindV) -> bool {
    k is Comma || k is RParen || k is RBracket || k is Eof || k is Eq || k is LBrace || k is RBrace
        || k is Semicolon
}

proof fn lemma_stand_split(i: Input, p: int, a: Seq<TokenKindV>, b: Seq<TokenKindV>)
    requires
        stand_at(i, p, a + b),
    ensures
        stand_at(i, p, a),
        stand_at(i, p + a.len(), b),
{
    assert forall|k: int| 0 <= k < a.len() implies kind_at(i, p + k) == #[trigger] a[k] by {
        assert((a + b)[k] == a[k]);
    }
    assert forall|k: int| 0 <= k < b.len() implies kind_at(i, p + a.len() + k)
        == #[trigger] b[k] by {
        assert((a + b)[a.len() + k] == b[k]);
    }
}

proof fn lemma_stand_one(i: Input, p: int, k: TokenKindV)
    requires
        stand_at(i, p, seq![k]),
    ensures
        kind_at(i, p) == k,
        p < i.toks.len(),
{
    assert(seq![k][0] == k);
}

proof fn lemma_stand_two(i: Input, p: int, k: TokenKindV, l: TokenKindV)
    requires
        stand_at(i, p, seq![k, l]),
    ensures
        kind_at(i, p) == k,
        kind_at(i, p + 1) == l,
        p + 1 < i.toks.len(),
{
    assert(seq![k, l][0] == k);
    assert(seq![k, l][1] == l);
}

pub proof fn lemma_parse(i: Input, p: int, t: TypeV)
    requires
        is_readable(t),
        stand_at(i, p, type_kinds(t)),
        closes_type(kind_at(i, p + type_kinds(t).len())),
    ensures
        g_type(i, p) == Ok::<(TypeV, int), CompileErrorV>((t, p + type_kinds(t).len())),
        type_kinds(t).len() > 0,
        !(kind_at(i, p) is RParen),
    decreases t, 0int,
{
    un_type(i, p);
    match t {
        TypeV::Path(path) => {
            let name = path.segments[0].name;
            let ks = path_kinds(path.segments, 0);
            assert(ks[0] == TokenKindV::Ident(name));
            assert(kind_at(i, p + 0) == ks[0]);
            assert(path.segments.take(0) =~= Seq::empty());
            lemma_parse_path(i, p, path.segments, 0, Seq::empty());
        },
        TypeV::GcRef(inner) => {
            lemma_stand_split(i, p, seq![TokenKindV::At], type_kinds(*inner));
            lemma_stand_one(i, p, TokenKindV::At);
            lemma_parse(i, p + 1, *inner);
        },
        TypeV::Function(ft) => {
            let open = seq![TokenKindV::LParen];
            let params = types_kinds(ft.params, 0);
            let arrow = seq![TokenKindV::RParen, TokenKindV::Arrow];
            let ret = type_kinds(*ft.ret);
            lemma_stand_split(i, p, open + params + arrow, ret);
            lemma_stand_split(i, p, open + params, arrow);
            lemma_stand_split(i, p, open, params);
            lemma_stand_one(i, p, TokenKindV::LParen);
            let q = p + 1 + params.len();
            lemma_stand_two(i, q, TokenKindV::RParen, TokenKindV::Arrow);
            lemma_parse(i, q + 2, *ft.ret);
            if ft.params.len() > 0 {
                assert(ft.params.take(0) =~= Seq::empty());
                lemma_parse_types(i, p + 1, ft.params, 0, Seq::empty());
            } else {
                assert(ft.params =~= Seq::empty());
            }
            assert(t == TypeV::Function(
                FunctionTypeV { params: ft.params, ret: Box::new(*ft.ret) },
            ));
        },
        TypeV::Tuple(ts) => {
            let open = seq![TokenKindV::LParen];
            let parts = types_kinds(ts, 0);
            lemma_stand_split(i, p, open + parts, seq![TokenKindV::RParen]);
            lemma_stand_split(i, p, open, parts);
            lemma_stand_one(i, p, TokenKindV::LParen);
            lemma_stand_one(i, p + 1 + parts.len(), TokenKindV::RParen);
            assert(ts.take(0) =~= Seq::empty());
            lemma_parse_types(i, p + 1, ts, 0, Seq::empty());
        },
        TypeV::Unit => {
            lemma_stand_two(i, p, TokenKindV::LParen, TokenKindV::RParen);
        },
        TypeV::Never => {},
    }
}

proof fn lemma_parse_types(i: Input, p: int, ts: Seq<TypeV>, k: int, acc: Seq<TypeV>)
    requires
        0 <= k < ts.len(),
        all_readable(ts),
        acc == ts.take(k),
        stand_at(i, p, types_kinds(ts, k)),
        kind_at(i, p + types_kinds(ts, k).len()) is RParen,
    ensures
        g_types(i, p, acc) == Ok::<(Seq<TypeV>, int), CompileErrorV>(
            (ts, p + types_kinds(ts, k).len()),
        ),
        types_kinds(ts, k).len() > 0,
        !(kind_at(i, p) is RParen),
    decreases ts, ts.len() - k,
{
    un_types(i, p, acc);
    let first = type_kinds(ts[k]);
    assert(acc.push(ts[k]) =~= ts.take(k + 1));
    if k + 1 < ts.len() {
        let rest = types_kinds(ts, k + 1);
        let comma = seq![TokenKindV::Comma];
        lemma_stand_split(i, p, first, comma + rest);
        lemma_stand_split(i, p + first.len(), comma, rest);
        lemma_stand_one(i, p + first.len(), TokenKindV::Comma);
        lemma_parse(i, p, ts[k]);
        lemma_parse_types(i, p + first.len() + 1, ts, k + 1, acc.push(ts[k]));
    } else {
        assert(first + Seq::empty() =~= first);
        lemma_parse(i, p, ts[k]);
        assert(ts.take(k + 1) =~= ts);
    }
}

proof fn lemma_parse_args(i: Input, p: int, ts: Seq<TypeV>, k: int, acc: Seq<TypeV>)
    requires
        0 <= k < ts.len(),
        all_readable(ts),
        acc == ts.take(k),
        stand_at(i, p, types_kinds(ts, k)),
        kind_at(i, p + types_kinds(ts, k).len()) is RBracket,
    ensures
        g_type_args(i, p, acc) == Ok::<(Seq<TypeV>, int), CompileErrorV>(
            (ts, p + types_kinds(ts, k).len() + 1),
        ),
    decreases ts, ts.len() - k,
{
    un_type_args(i, p, acc);
    let first = type_kinds(ts[k]);
    assert(acc.push(ts[k]) =~= ts.take(k + 1));
    if k + 1 < ts.len() {
        let rest = types_kinds(ts, k + 1);
        let comma = seq![TokenKindV::Comma];
        lemma_stand_split(i, p, first, comma + rest);
        lemma_stand_split(i, p + first.len(), comma, rest);
        lemma_stand_one(i, p + first.len(), TokenKindV::Comma);
        lemma_parse(i, p, ts[k]);
        lemma_parse_args(i, p + first.len() + 1, ts, k + 1, acc.push(ts[k]));
    } else {
        assert(first + Seq::empty() =~= first);
        lemma_parse(i, p, ts[k]);
        assert(ts.take(k + 1) =~= ts);
    }
}

proof fn lemma_parse_path(
    i: Input,
    p: int,
    segs: Seq<PathSegmentV>,
    k: int,
    acc: Seq<PathSegmentV>,
)
    requires
        0 <= k < segs.len(),
        are_segments(segs),
        acc == segs.take(k),
        stand_at(i, p, path_kinds(segs, k)),
        closes_type(kind_at(i, p + path_kinds(segs, k).len())),
    ensures
        g_segments(i, p, acc) == Ok::<(Seq<PathSegmentV>, int), CompileErrorV>(
            (segs, p + path_kinds(segs, k).len()),
        ),
        path_kinds(segs, k).len() > 0,
    decreases segs, segs.len() - k,
{
    un_segments(i, p, acc);
    reveal(g_ident);
    let seg = segs[k];
    let name = seq![TokenKindV::Ident(seg.name)];
    let args = args_kinds(seg.args);
    let more = if k + 1 < segs.len() {
        seq![TokenKindV::Colon, TokenKindV::Colon] + path_kinds(segs, k + 1)
    } else {
        Seq::empty()
    };
    lemma_stand_split(i, p, name + args, more);
    lemma_stand_split(i, p, name, args);
    lemma_stand_one(i, p, TokenKindV::Ident(seg.name));
    let q = p + 1 + args.len();
    assert(acc.push(PathSegmentV { name: seg.name, args: seg.args }) =~= segs.take(k + 1));
    if k + 1 < segs.len() {
        let colons = seq![TokenKindV::Colon, TokenKindV::Colon];
        lemma_stand_split(i, q, colons, path_kinds(segs, k + 1));
        lemma_stand_two(i, q, TokenKindV::Colon, TokenKindV::Colon);
    }
    un_generic_args(i, p + 1);
    if seg.args.len() > 0 {
        let open = seq![TokenKindV::LBracket];
        let inner = types_kinds(seg.args, 0);
        lemma_stand_split(i, p + 1, open + inner, seq![TokenKindV::RBracket]);
        lemma_stand_split(i, p + 1, open, inner);
        lemma_stand_one(i, p + 1, TokenKindV::LBracket);
        lemma_stand_one(i, p + 2 + inner.len(), TokenKindV::RBracket);
        assert(seg.args.take(0) =~= Seq::empty());
        lemma_parse_args(i, p + 2, seg.args, 0, Seq::empty());
    } else {
        assert(seg.args =~= Seq::empty());
    }
    assert(g_generic_args(i, p + 1) == Ok::<(Seq<TypeV>, int), CompileErrorV>((seg.args, q)));
    if k + 1 < segs.len() {
        lemma_parse_path(i, q + 2, segs, k + 1, segs.take(k + 1));
    } else {
        assert(segs.take(k + 1) =~= segs);
    }
}

// ------------------------------------------------------------------------ lexing

/// A text stands in a source.
pub open spec fn text_stands(src: Seq<char>, pos: int, s: Seq<char>) -> bool {
    &&& 0 <= pos
    &&& pos + s.len() <= src.len()
    &&& forall|k: int| 0 <= k < s.len() ==> src[pos + k] == #[trigger] s[k]
}

/// Reading from `pos` to `end` gives tokens of these kinds.
pub open spec fn lexes(src: Seq<char>, pos: int, end: int, ks: Seq<TokenKindV>) -> bool
    decreases ks.len(),
{
    if ks.len() == 0 {
        pos == end
    } else {
        &&& next_token_at(src, pos).0 matches Ok(t) && t.kind == ks[0]
        &&& lexes(src, next_token_at(src, pos).1, end, ks.drop_first())
    }
}

/// What can stand behind a type in a source.
pub open spec fn closes_text(src: Seq<char>, pos: int) -> bool {
    match char_at(src, pos) {
        None => true,
        Some(c) => c == ',' || c == ')' || c == ']',
    }
}

proof fn lemma_text_split(src: Seq<char>, pos: int, a: Seq<char>, b: Seq<char>)
    requires
        text_stands(src, pos, a + b),
    ensures
        text_stands(src, pos, a),
        text_stands(src, pos + a.len(), b),
{
    assert forall|k: int| 0 <= k < a.len() implies src[pos + k] == #[trigger] a[k] by {
        assert((a + b)[k] == a[k]);
    }
    assert forall|k: int| 0 <= k < b.len() implies src[pos + a.len() + k] == #[trigger] b[k] by {
        assert((a + b)[a.len() + k] == b[k]);
    }
}

proof fn lemma_lex_on(
    src: Seq<char>,
    a: int,
    b: int,
    c: int,
    ks: Seq<TokenKindV>,
    ls: Seq<TokenKindV>,
)
    requires
        lexes(src, a, b, ks),
        lexes(src, b, c, ls),
    ensures
        lexes(src, a, c, ks + ls),
    decreases ks.len(),
{
    if ks.len() == 0 {
        assert(ks + ls =~= ls);
    } else {
        lemma_lex_on(src, next_token_at(src, a).1, b, c, ks.drop_first(), ls);
        assert((ks + ls).drop_first() =~= ks.drop_first() + ls);
    }
}

/// A blank before a token changes nothing.
proof fn lemma_lex_blank(src: Seq<char>, pos: int, end: int, ks: Seq<TokenKindV>)
    requires
        0 <= pos < src.len(),
        is_blank(src[pos]),
        ks.len() > 0,
        lexes(src, pos + 1, end, ks),
    ensures
        lexes(src, pos, end, ks),
{
}

/// A delimiter of one character.
proof fn lemma_lex_mark(src: Seq<char>, pos: int, c: char)
    requires
        0 <= pos < src.len(),
        src[pos] == c,
        c == '(' || c == ')' || c == '[' || c == ']' || c == ',' || c == '@' || c == ':',
    ensures
        lexes(src, pos, pos + 1, seq![one_char_kind(c)->0]),
{
    assert(skip_blanks(src, pos) == pos);
    assert(two_char_op(c, char_at(src, pos + 1)) is None);
    let k = one_char_kind(c)->0;
    assert(next_token_at(src, pos).1 == pos + 1);
    assert(seq![k].drop_first() =~= Seq::empty());
    assert(lexes(src, pos + 1, pos + 1, seq![k].drop_first()));
}

/// The arrow.
proof fn lemma_lex_arrow(src: Seq<char>, pos: int)
    requires
        0 <= pos,
        pos + 1 < src.len(),
        src[pos] == '-',
        src[pos + 1] == '>',
    ensures
        lexes(src, pos, pos + 2, seq![TokenKindV::Arrow]),
{
    assert(skip_blanks(src, pos) == pos);
    assert(two_char_op('-', Some('>')) == Some(TokenKindV::Arrow));
    let ks = seq![TokenKindV::Arrow];
    assert(ks.drop_first() =~= Seq::empty());
    assert(lexes(src, pos + 2, pos + 2, ks.drop_first()));
}

proof fn lemma_word_chars(s: Seq<char>, pos: int)
    requires
        0 <= pos <= s.len(),
    ensures
        pos <= word_end(s, pos) <= s.len(),
        forall|i: int| pos <= i < word_end(s, pos) ==> is_word_char(#[trigger] s[i]),
    decreases s.len() - pos,
{
    if pos < s.len() && is_word_char(s[pos]) {
        lemma_word_chars(s, pos + 1);
    }
}

/// What a name looks like.
proof fn lemma_name(n: Seq<char>)
    requires
        is_type_name(n),
    ensures
        n.len() > 0,
        n[0] == '_' || is_alphabetic(n[0]),
        n[0] == '_' ==> n.len() > 1,
        forall|i: int| 1 <= i < n.len() ==> is_word_char(#[trigger] n[i]),
        word_kind(n) == TokenKindV::Ident(n),
{
    let c = n[0];
    assert(n.len() > 0);
    assert(two_char_op(c, char_at(n, 1)) is None || !(two_char_op(c, char_at(n, 1))->0 is Ident));
    assert(one_char_kind(c) is None || !(one_char_kind(c)->0 is Ident));
    lemma_word_chars(n, 1);
    assert(n.subrange(0, n.len() as int) =~= n);
}

/// A name in a source.
proof fn lemma_lex_name(src: Seq<char>, pos: int, n: Seq<char>)
    requires
        is_type_name(n),
        text_stands(src, pos, n),
        pos + n.len() < src.len() ==> !is_word_char(src[pos + n.len()]),
    ensures
        lexes(src, pos, pos + n.len(), seq![TokenKindV::Ident(n)]),
{
    lemma_name(n);
    let c = n[0];
    let end = pos + n.len();
    assert(src[pos + 0] == c);
    if n.len() > 1 {
        assert(src[pos + 1] == n[1]);
        assert(is_word_char(n[1]));
    }
    assert forall|i: int| pos + 1 <= i < end implies is_word_char(#[trigger] src[i]) by {
        assert(src[pos + (i - pos)] == n[i - pos]);
    }
    lemma_word_end_at(src, pos + 1, end);
    assert(src.subrange(pos, end) =~= n);
    assert(skip_blanks(src, pos) == pos);
    assert(two_char_op(c, char_at(src, pos + 1)) is None);
    assert(one_char_kind(c) is None);
    let ks = seq![TokenKindV::Ident(n)];
    assert(ks.drop_first() =~= Seq::empty());
    assert(lexes(src, end, end, ks.drop_first()));
}

/// The types from `i` on as they are written.
pub open spec fn types_tail(ts: Seq<TypeV>, i: int) -> Seq<char>
    decreases ts, ts.len() - i,
{
    if 0 <= i < ts.len() {
        type_text(ts[i]) + (if i + 1 < ts.len() {
            ", "@ + types_tail(ts, i + 1)
        } else {
            Seq::empty()
        })
    } else {
        Seq::empty()
    }
}

/// The arguments of a segment as they are written.
pub open spec fn args_text(args: Seq<TypeV>) -> Seq<char> {
    if args.len() > 0 {
        "["@ + types_tail(args, 0) + "]"@
    } else {
        Seq::empty()
    }
}

/// A path from segment `i` on as it is written.
pub open spec fn path_tail(segs: Seq<PathSegmentV>, i: int) -> Seq<char>
    decreases segs, segs.len() - i,
{
    if 0 <= i < segs.len() {
        segs[i].name + args_text(segs[i].args) + (if i + 1 < segs.len() {
            "::"@ + path_tail(segs, i + 1)
        } else {
            Seq::empty()
        })
    } else {
        Seq::empty()
    }
}

proof fn lemma_types_tail(ts: Seq<TypeV>, i: int, acc: Seq<char>)
    requires
        0 <= i <= ts.len(),
    ensures
        types_text(ts, i, acc) == acc + (if 0 < i < ts.len() {
            ", "@
        } else {
            Seq::empty()
        }) + types_tail(ts, i),
    decreases ts.len() - i,
{
    if i < ts.len() {
        let acc1 = if i > 0 {
            acc + ", "@
        } else {
            acc
        };
        lemma_types_tail(ts, i + 1, acc1 + type_text(ts[i]));
        if i + 1 < ts.len() {
            assert(acc1 + type_text(ts[i]) + ", "@ + types_tail(ts, i + 1) =~= acc1 + (type_text(
                ts[i],
            ) + (", "@ + types_tail(ts, i + 1))));
        } else {
            assert(acc1 + type_text(ts[i]) + Seq::<char>::empty() + Seq::<char>::empty() =~= acc1
                + (type_text(ts[i]) + Seq::<char>::empty()));
        }
        if i == 0 {
            assert(acc + Seq::<char>::empty() =~= acc);
        }
    } else {
        assert(acc + Seq::<char>::empty() + Seq::<char>::empty() =~= acc);
    }
}

proof fn lemma_path_tail(segs: Seq<PathSegmentV>, i: int, acc: Seq<char>)
    requires
        0 <= i <= segs.len(),
    ensures
        path_text(segs, i, acc) == acc + (if 0 < i < segs.len() {
            "::"@
        } else {
            Seq::empty()
        }) + path_tail(segs, i),
    decreases segs.len() - i,
{
    let none = Seq::<char>::empty();
    if i < segs.len() {
        let seg = segs[i];
        let acc0 = if i > 0 {
            acc + "::"@
        } else {
            acc
        };
        let acc1 = acc0 + seg.name;
        lemma_types_tail(seg.args, 0, none);
        assert(none + none + types_tail(seg.args, 0) =~= types_tail(seg.args, 0));
        let acc2 = acc1 + args_text(seg.args);
        if seg.args.len() > 0 {
            assert(acc1 + "["@ + types_tail(seg.args, 0) + "]"@ =~= acc2);
        } else {
            assert(acc1 =~= acc2);
        }
        lemma_path_tail(segs, i + 1, acc2);
        if i + 1 < segs.len() {
            assert(acc2 + "::"@ + path_tail(segs, i + 1) =~= acc0 + (seg.name + args_text(seg.args)
                + ("::"@ + path_tail(segs, i + 1))));
        } else {
            assert(acc2 + none + none =~= acc0 + (seg.name + args_text(seg.args) + none));
        }
        if i == 0 {
            assert(acc + none =~= acc);
        }
    } else {
        assert(acc + none + none =~= acc);
    }
}

proof fn lemma_lex_type(src: Seq<char>, pos: int, t: TypeV)
    requires
        is_readable(t),
        text_stands(src, pos, type_text(t)),
        closes_text(src, pos + type_text(t).len()),
    ensures
        lexes(src, pos, pos + type_text(t).len(), type_kinds(t)),
        type_kinds(t).len() > 0,
    decreases t, 0int,
{
    reveal_strlit("@");
    reveal_strlit("(");
    reveal_strlit(")");
    reveal_strlit("()");
    reveal_strlit(") -> ");
    let none = Seq::<char>::empty();
    match t {
        TypeV::Path(p) => {
            lemma_path_tail(p.segments, 0, none);
            assert(none + none + path_tail(p.segments, 0) =~= path_tail(p.segments, 0));
            lemma_lex_path(src, pos, p.segments, 0);
        },
        TypeV::GcRef(inner) => {
            lemma_text_split(src, pos, "@"@, type_text(*inner));
            assert(src[pos + 0] == "@"@[0]);
            lemma_lex_mark(src, pos, '@');
            lemma_lex_type(src, pos + 1, *inner);
            lemma_lex_on(
                src,
                pos,
                pos + 1,
                pos + type_text(t).len(),
                seq![TokenKindV::At],
                type_kinds(*inner),
            );
        },
        TypeV::Function(ft) => {
            let params = types_tail(ft.params, 0);
            lemma_types_tail(ft.params, 0, none);
            assert(none + none + params =~= params);
            let ret = type_text(*ft.ret);
            let end = pos + type_text(t).len();
            lemma_text_split(src, pos, "("@ + params + ") -> "@, ret);
            lemma_text_split(src, pos, "("@ + params, ") -> "@);
            lemma_text_split(src, pos, "("@, params);
            let q = pos + 1 + params.len();
            assert(src[pos + 0] == "("@[0]);
            assert(src[q + 0] == ") -> "@[0]);
            assert(src[q + 1] == ") -> "@[1]);
            assert(src[q + 2] == ") -> "@[2]);
            assert(src[q + 3] == ") -> "@[3]);
            assert(src[q + 4] == ") -> "@[4]);
            lemma_lex_type(src, q + 5, *ft.ret);
            lemma_lex_blank(src, q + 4, end, type_kinds(*ft.ret));
            lemma_lex_arrow(src, q + 2);
            let arrow = seq![TokenKindV::Arrow];
            lemma_lex_blank(src, q + 1, q + 4, arrow);
            lemma_lex_mark(src, q, ')');
            lemma_lex_on(src, q, q + 1, q + 4, seq![TokenKindV::RParen], arrow);
            let close = seq![TokenKindV::RParen, TokenKindV::Arrow];
            assert(seq![TokenKindV::RParen] + arrow =~= close);
            lemma_lex_mark(src, pos, '(');
            let open = seq![TokenKindV::LParen];
            let inner = types_kinds(ft.params, 0);
            if ft.params.len() > 0 {
                lemma_lex_types(src, pos + 1, ft.params, 0);
            }
            lemma_lex_on(src, pos, pos + 1, q, open, inner);
            lemma_lex_on(src, pos, q, q + 4, open + inner, close);
            lemma_lex_on(src, pos, q + 4, end, open + inner + close, type_kinds(*ft.ret));
        },
        TypeV::Tuple(ts) => {
            let parts = types_tail(ts, 0);
            lemma_types_tail(ts, 0, none);
            assert(none + none + parts =~= parts);
            lemma_text_split(src, pos, "("@ + parts, ")"@);
            lemma_text_split(src, pos, "("@, parts);
            let q = pos + 1 + parts.len();
            assert(src[pos + 0] == "("@[0]);
            assert(src[q + 0] == ")"@[0]);
            lemma_lex_mark(src, pos, '(');
            lemma_lex_mark(src, q, ')');
            lemma_lex_types(src, pos + 1, ts, 0);
            let open = seq![TokenKindV::LParen];
            let inner = types_kinds(ts, 0);
            lemma_lex_on(src, pos, pos + 1, q, open, inner);
            lemma_lex_on(src, pos, q, q + 1, open + inner, seq![TokenKindV::RParen]);
        },
        TypeV::Unit => {
            assert(src[pos + 0] == "()"@[0]);
            assert(src[pos + 1] == "()"@[1]);
            lemma_lex_mark(src, pos, '(');
            lemma_lex_mark(src, pos + 1, ')');
            let open = seq![TokenKindV::LParen];
            let close = seq![TokenKindV::RParen];
            lemma_lex_on(src, pos, pos + 1, pos + 2, open, close);
            assert(open + close =~= seq![TokenKindV::LParen, TokenKindV::RParen]);
        },
        TypeV::Never => {},
    }
}

proof fn lemma_lex_types(src: Seq<char>, pos: int, ts: Seq<TypeV>, k: int)
    requires
        0 <= k < ts.len(),
        all_readable(ts),
        text_stands(src, pos, types_tail(ts, k)),
        closes_text(src, pos + types_tail(ts, k).len()),
        pos + types_tail(ts, k).len() < src.len(),
    ensures
        lexes(src, pos, pos + types_tail(ts, k).len(), types_kinds(ts, k)),
        types_kinds(ts, k).len() > 0,
    decreases ts, ts.len() - k,
{
    reveal_strlit(", ");
    let first = type_text(ts[k]);
    let end = pos + types_tail(ts, k).len();
    if k + 1 < ts.len() {
        let rest = types_tail(ts, k + 1);
        lemma_text_split(src, pos, first, ", "@ + rest);
        lemma_text_split(src, pos + first.len(), ", "@, rest);
        let q = pos + first.len();
        assert(src[q + 0] == ", "@[0]);
        assert(src[q + 1] == ", "@[1]);
        lemma_lex_type(src, pos, ts[k]);
        lemma_lex_mark(src, q, ',');
        lemma_lex_types(src, q + 2, ts, k + 1);
        lemma_lex_blank(src, q + 1, end, types_kinds(ts, k + 1));
        let comma = seq![TokenKindV::Comma];
        lemma_lex_on(src, q, q + 1, end, comma, types_kinds(ts, k + 1));
        lemma_lex_on(src, pos, q, end, type_kinds(ts[k]), comma + types_kinds(ts, k + 1));
    } else {
        assert(first + Seq::<char>::empty() =~= first);
        assert(type_kinds(ts[k]) + Seq::<TokenKindV>::empty() =~= type_kinds(ts[k]));
        lemma_lex_type(src, pos, ts[k]);
    }
}

proof fn lemma_lex_path(src: Seq<char>, pos: int, segs: Seq<PathSegmentV>, k: int)
    requires
        0 <= k < segs.len(),
        are_segments(segs),
        text_stands(src, pos, path_tail(segs, k)),
        closes_text(src, pos + path_tail(segs, k).len()),
    ensures
        lexes(src, pos, pos + path_tail(segs, k).len(), path_kinds(segs, k)),
        path_kinds(segs, k).len() > 0,
    decreases segs, segs.len() - k,
{
    reveal_strlit("[");
    reveal_strlit("]");
    reveal_strlit("::");
    let seg = segs[k];
    let args = args_text(seg.args);
    let more = if k + 1 < segs.len() {
        "::"@ + path_tail(segs, k + 1)
    } else {
        Seq::empty()
    };
    let end = pos + path_tail(segs, k).len();
    lemma_text_split(src, pos, seg.name + args, more);
    lemma_text_split(src, pos, seg.name, args);
    let a = pos + seg.name.len();
    let q = a + args.len();
    let name = seq![TokenKindV::Ident(seg.name)];
    if k + 1 < segs.len() {
        lemma_text_split(src, q, "::"@, path_tail(segs, k + 1));
        assert(src[q + 0] == "::"@[0]);
        assert(src[q + 1] == "::"@[1]);
    }
    if seg.args.len() > 0 {
        let inner = types_tail(seg.args, 0);
        lemma_text_split(src, a, "["@ + inner, "]"@);
        lemma_text_split(src, a, "["@, inner);
        let b = a + 1 + inner.len();
        assert(src[a + 0] == "["@[0]);
        assert(src[b + 0] == "]"@[0]);
        lemma_lex_mark(src, a, '[');
        lemma_lex_types(src, a + 1, seg.args, 0);
        lemma_lex_mark(src, b, ']');
        let open = seq![TokenKindV::LBracket];
        let close = seq![TokenKindV::RBracket];
        let kinds = types_kinds(seg.args, 0);
        lemma_lex_on(src, a, a + 1, b, open, kinds);
        lemma_lex_on(src, a, b, b + 1, open + kinds, close);
    }
    assert(lexes(src, a, q, args_kinds(seg.args)));
    lemma_lex_name(src, pos, seg.name);
    lemma_lex_on(src, pos, a, q, name, args_kinds(seg.args));
    if k + 1 < segs.len() {
        lemma_lex_mark(src, q, ':');
        lemma_lex_mark(src, q + 1, ':');
        let colon = seq![TokenKindV::Colon];
        lemma_lex_on(src, q, q + 1, q + 2, colon, colon);
        let colons = seq![TokenKindV::Colon, TokenKindV::Colon];
        assert(colon + colon =~= colons);
        lemma_lex_path(src, q + 2, segs, k + 1);
        lemma_lex_on(src, q, q + 2, end, colons, path_kinds(segs, k + 1));
        lemma_lex_on(
            src,
            pos,
            q,
            end,
            name + args_kinds(seg.args),
            colons + path_kinds(segs, k + 1),
        );
    } else {
        assert(name + args_kinds(seg.args) + Seq::<TokenKindV>::empty() =~= name + args_kinds(
            seg.args,
        ));
    }
}

/// What is lexed to the end of a source are its tokens, with the end of file behind them.
proof fn lemma_all_tokens(src: Seq<char>, pos: int, acc: Seq<TokenV>, ks: Seq<TokenKindV>)
    requires
        0 <= pos <= src.len(),
        lexes(src, pos, src.len() as int, ks),
        forall|k: int| 0 <= k < ks.len() ==> !(#[trigger] ks[k] is Eof),
    ensures
        tokens_from(src, pos, acc) matches Ok(ts) && {
            &&& ts.len() == acc.len() + ks.len() + 1
            &&& ts.take(acc.len() as int) == acc
            &&& forall|k: int| 0 <= k < ks.len() ==> ts[acc.len() + k].kind == #[trigger] ks[k]
            &&& ts.last().kind is Eof
        },
    decreases ks.len(),
{
    law_next_token_progress(src, pos);
    if ks.len() == 0 {
        assert(skip_blanks(src, pos) == pos);
        let t = next_token_at(src, pos).0->Ok_0;
        assert(acc.push(t).take(acc.len() as int) =~= acc);
    } else {
        let t = next_token_at(src, pos).0->Ok_0;
        let q = next_token_at(src, pos).1;
        assert(!(ks[0] is Eof));
        let rest = ks.drop_first();
        assert forall|k: int| 0 <= k < rest.len() implies !(#[trigger] rest[k] is Eof) by {
            assert(rest[k] == ks[k + 1]);
        }
        lemma_all_tokens(src, q, acc.push(t), rest);
        let ts = tokens_from(src, q, acc.push(t))->Ok_0;
        assert(ts.take(acc.len() as int) =~= ts.take((acc.len() + 1) as int).take(acc.len() as int));
        assert(acc.push(t).take(acc.len() as int) =~= acc);
        assert(ts[acc.len() as int] == ts.take((acc.len() + 1) as int)[acc.len() as int]);
        assert forall|k: int| 0 <= k < ks.len() implies ts[acc.len() + k].kind
            == #[trigger] ks[k] by {
            if k > 0 {
                assert(rest[k - 1] == ks[k]);
                assert(ts[acc.push(t).len() + (k - 1)].kind == rest[k - 1]);
            }
        }
    }
}

proof fn lemma_no_eof(t: TypeV)
    ensures
        forall|k: int| 0 <= k < type_kinds(t).len() ==> !(#[trigger] type_kinds(t)[k] is Eof),
    decreases t, 0int,
{
    match t {
        TypeV::Path(p) => {
            lemma_no_eof_path(p.segments, 0);
        },
        TypeV::GcRef(inner) => {
            lemma_no_eof(*inner);
        },
        TypeV::Function(ft) => {
            lemma_no_eof_types(ft.params, 0);
            lemma_no_eof(*ft.ret);
        },
        TypeV::Tuple(ts) => {
            lemma_no_eof_types(ts, 0);
        },
        _ => {},
    }
}

proof fn lemma_no_eof_types(ts: Seq<TypeV>, i: int)
    ensures
        forall|k: int|
            0 <= k < types_kinds(ts, i).len() ==> !(#[trigger] types_kinds(ts, i)[k] is Eof),
    decreases ts, ts.len() - i,
{
    if 0 <= i < ts.len() {
        lemma_no_eof(ts[i]);
        lemma_no_eof_types(ts, i + 1);
    }
}

proof fn lemma_no_eof_path(segs: Seq<PathSegmentV>, i: int)
    ensures
        forall|k: int|
            0 <= k < path_kinds(segs, i).len() ==> !(#[trigger] path_kinds(segs, i)[k] is Eof),
    decreases segs, segs.len() - i,
{
    if 0 <= i < segs.len() {
        lemma_no_eof_types(segs[i].args, 0);
        lemma_no_eof_path(segs, i + 1);
        let args = args_kinds(segs[i].args);
        assert forall|k: int| 0 <= k < args.len() implies !(#[trigger] args[k] is Eof) by {
            let inner = types_kinds(segs[i].args, 0);
            if 0 < k <= inner.len() {
                assert(args[k] == inner[k - 1]);
            }
        }
    }
}

/// Parsing undoes writing: the text of a type that can be read back is lexed and parsed to
/// that type, and only the end of file is left.
pub proof fn law_type_read_back(t: TypeV)
    requires
        is_readable(t),
    ensures
        tokens_of(type_text(t)) matches Ok(ts) && g_type(
            Input { toks: ts, src: type_text(t) },
            0,
        ) == Ok::<(TypeV, int), CompileErrorV>((t, ts.len() - 1)) && ts.last().kind is Eof,
{
    let src = type_text(t);
    let ks = type_kinds(t);
    lemma_lex_type(src, 0, t);
    lemma_no_eof(t);
    lemma_all_tokens(src, 0, Seq::empty(), ks);
    let ts = tokens_of(src)->Ok_0;
    let i = Input { toks: ts, src };
    assert forall|k: int| 0 <= k < ks.len() implies kind_at(i, 0 + k) == #[trigger] ks[k] by {
        assert(ts[Seq::<TokenV>::empty().len() + k].kind == ks[k]);
    }
    assert(kind_at(i, ks.len() as int) == ts.last().kind);
    lemma_parse(i, 0, t);
}

} // verus!
