//! What is spelled in a source is what its tokens say.
use vstd::prelude::*;

verus! {

use crate::lexer::{
    comment_end, is_blank, is_keyword, is_word_char, lemma_word_end_at, line_end, next_token_at,
    one_char_kind, scan_number, scan_quoted, skip_blanks, span_at, token_at, two_char_op, word_end,
};
use crate::text::{digits_value, is_alphabetic, is_digit, nat_text};
use crate::token::{TokenKindV, kind_text, law_word_text, word_kind};

/// A text stands in a source from `pos` on.
pub open spec fn is_written(src: Seq<char>, pos: int, text: Seq<char>) -> bool {
    &&& 0 <= pos
    &&& pos + text.len() <= src.len()
    &&& src.subrange(pos, pos + text.len()) == text
}

/// The token from `pos` on is of this kind, and starts and ends there.
pub open spec fn reads_as(src: Seq<char>, pos: int, end: int, kind: TokenKindV) -> bool {
    &&& next_token_at(src, pos).0 matches Ok(t) && t.kind == kind && t.span == span_at(src, pos, end)
    &&& next_token_at(src, pos).1 == end
}

// --------------------------------------------------------------------- numbers

/// A numeral without its underscores.
pub open spec fn unmarked(s: Seq<char>) -> Seq<char>
    decreases s.len(),
{
    if s.len() == 0 {
        s
    } else {
        let rest = unmarked(s.subrange(1, s.len() as int));
        if s[0] == '_' {
            rest
        } else {
            seq![s[0]] + rest
        }
    }
}

proof fn lemma_scan(src: Seq<char>, pos: int, end: int, acc: Seq<char>)
    requires
        0 <= pos <= end <= src.len(),
        forall|i: int| pos <= i < end ==> is_digit(#[trigger] src[i]) || src[i] == '_',
        end < src.len() ==> !is_digit(src[end]) && src[end] != '_' && src[end] != '.',
    ensures
        scan_number(src, pos, false, acc) == (end, false, acc + unmarked(src.subrange(pos, end))),
    decreases end - pos,
{
    let s = src.subrange(pos, end);
    if pos < end {
        let c = src[pos];
        assert(s[0] == c);
        assert(s.subrange(1, s.len() as int) =~= src.subrange(pos + 1, end));
        if c == '_' {
            lemma_scan(src, pos + 1, end, acc);
        } else {
            lemma_scan(src, pos + 1, end, acc.push(c));
            assert(acc.push(c) + unmarked(src.subrange(pos + 1, end)) =~= acc + (seq![c]
                + unmarked(src.subrange(pos + 1, end))));
        }
    } else {
        assert(s.len() == 0);
        assert(acc + s =~= acc);
    }
}

proof fn lemma_digits(n: nat)
    ensures
        digits_value(nat_text(n)) == n,
    decreases n,
{
    if n < 10 {
        let s = nat_text(n);
        assert(s.drop_last() =~= Seq::empty());
        assert(digits_value(s.drop_last()) == 0);
    } else {
        lemma_digits(n / 10);
        let s = nat_text(n);
        assert(s.drop_last() =~= nat_text(n / 10));
    }
}

/// A number is read as itself, with underscores between its digits or without.
pub proof fn law_number_is_read(src: Seq<char>, pos: int, numeral: Seq<char>, n: nat)
    requires
        is_written(src, pos, numeral),
        numeral.len() > 0,
        is_digit(numeral[0]),
        forall|i: int| 0 <= i < numeral.len() ==> is_digit(#[trigger] numeral[i]) || numeral[i] == '_',
        unmarked(numeral) == nat_text(n),
        n <= i64::MAX,
        pos + numeral.len() < src.len() ==> ({
            let c = src[pos + numeral.len()];
            !is_digit(c) && c != '_' && c != '.'
        }),
    ensures
        reads_as(src, pos, pos + numeral.len(), TokenKindV::IntLiteral(n as i64)),
{
    let end = pos + numeral.len();
    assert forall|i: int| pos <= i < end implies is_digit(#[trigger] src[i]) || src[i] == '_' by {
        assert(src[i] == src.subrange(pos, end)[i - pos]);
        assert(src.subrange(pos, end)[i - pos] == numeral[i - pos]);
    }
    let c = src[pos];
    assert(c == src.subrange(pos, end)[0]);
    assert(skip_blanks(src, pos) == pos);
    lemma_scan(src, pos + 1, end, seq![c]);
    assert(numeral.subrange(1, numeral.len() as int) =~= src.subrange(pos + 1, end));
    lemma_digits(n);
}

// ---------------------------------------------------------------------- quotes

/// A character as it is written in quotes.
pub open spec fn in_quotes(c: char) -> Seq<char> {
    match c {
        '\n' => seq!['\\', 'n'],
        '\t' => seq!['\\', 't'],
        '\r' => seq!['\\', 'r'],
        '\0' => seq!['\\', '0'],
        '\\' => seq!['\\', '\\'],
        '"' => seq!['\\', '"'],
        '\'' => seq!['\\', '\''],
        _ => seq![c],
    }
}

/// A text as it is written in quotes.
pub open spec fn all_in_quotes(s: Seq<char>) -> Seq<char>
    decreases s.len(),
{
    if s.len() == 0 {
        s
    } else {
        in_quotes(s[0]) + all_in_quotes(s.subrange(1, s.len() as int))
    }
}

proof fn lemma_quoted(src: Seq<char>, pos: int, quote: char, s: Seq<char>, acc: Seq<char>)
    requires
        is_written(src, pos, all_in_quotes(s)),
        pos + all_in_quotes(s).len() < src.len(),
        src[pos + all_in_quotes(s).len()] == quote,
        quote == '"' || quote == '\'',
    ensures
        scan_quoted(src, pos, quote, acc) == (
            Ok::<Seq<char>, crate::lexer::Unclosed>(acc + s),
            pos + all_in_quotes(s).len() + 1,
        ),
    decreases s.len(),
{
    let w = all_in_quotes(s);
    if s.len() == 0 {
        assert(acc + s =~= acc);
    } else {
        let c = s[0];
        let first = in_quotes(c);
        let rest = s.subrange(1, s.len() as int);
        assert(w == first + all_in_quotes(rest));
        assert forall|i: int| 0 <= i < w.len() implies src[pos + i] == #[trigger] w[i] by {
            assert(src.subrange(pos, pos + w.len())[i] == w[i]);
        }
        assert(src[pos] == first[0]) by {
            assert(w[0] == first[0]);
        }
        if first.len() == 2 {
            assert(w[1] == first[1]);
            assert(src[pos + 1] == first[1]);
        }
        assert(src.subrange(pos + first.len(), pos + w.len()) =~= all_in_quotes(rest)) by {
            assert forall|i: int| 0 <= i < all_in_quotes(rest).len() implies src[pos + first.len()
                + i] == #[trigger] all_in_quotes(rest)[i] by {
                assert(w[first.len() + i] == all_in_quotes(rest)[i]);
            }
        }
        lemma_quoted(src, pos + first.len(), quote, rest, acc + seq![c]);
        assert(acc + seq![c] + rest =~= acc + s);
        assert(acc.push(c) =~= acc + seq![c]);
    }
}

/// A text in double quotes is read as that text, and a character in single quotes as that
/// character; what needs a backslash is written with one.
pub proof fn law_quoted_text_is_read(src: Seq<char>, pos: int, s: Seq<char>)
    requires
        0 <= pos < src.len(),
        is_written(src, pos + 1, all_in_quotes(s)),
        pos + 1 + all_in_quotes(s).len() < src.len(),
        src[pos + 1 + all_in_quotes(s).len()] == src[pos],
    ensures
        src[pos] == '"' ==> reads_as(
            src,
            pos,
            pos + 2 + all_in_quotes(s).len(),
            TokenKindV::StringLiteral(s),
        ),
        src[pos] == '\'' && s.len() == 1 ==> reads_as(
            src,
            pos,
            pos + 2 + all_in_quotes(s).len(),
            TokenKindV::CharLiteral(s[0]),
        ),
        src[pos] == '\'' && s.len() != 1 ==> next_token_at(src, pos).0 is Err,
{
    let quote = src[pos];
    if quote == '"' || quote == '\'' {
        assert(skip_blanks(src, pos) == pos);
        lemma_quoted(src, pos + 1, quote, s, Seq::empty());
        assert(Seq::<char>::empty() + s =~= s);
    }
}

// ----------------------------------------------------------------------- names

/// A word that is no keyword is a name, read whole.
pub proof fn law_name_is_read(src: Seq<char>, pos: int, name: Seq<char>)
    requires
        is_written(src, pos, name),
        name.len() > 0,
        is_alphabetic(name[0]) || (name[0] == '_' && name.len() > 1),
        forall|i: int| 0 <= i < name.len() ==> is_word_char(#[trigger] name[i]),
        forall|k: TokenKindV| is_keyword(k) ==> #[trigger] kind_text(k) != name,
        pos + name.len() < src.len() ==> !is_word_char(src[pos + name.len()]),
    ensures
        reads_as(src, pos, pos + name.len(), TokenKindV::Ident(name)),
{
    let end = pos + name.len();
    assert forall|i: int| pos <= i < end implies is_word_char(#[trigger] src[i]) by {
        assert(src[i] == src.subrange(pos, end)[i - pos]);
        assert(src.subrange(pos, end)[i - pos] == name[i - pos]);
    }
    let c = src[pos];
    assert(c == src.subrange(pos, end)[0]);
    assert(!is_digit(c) && !is_blank(c) && c != '/' && c != '"' && c != '\'');
    assert(skip_blanks(src, pos) == pos);
    assert(two_char_op(c, crate::lexer::char_at(src, pos + 1)) is None);
    assert(one_char_kind(c) is None);
    lemma_word_end_at(src, pos + 1, end);
    law_word_text(name);
    let k = word_kind(name);
    assert(kind_text(k) == name);
    if is_keyword(k) {
        assert(kind_text(k) != name);
    }
    assert(k == TokenKindV::Ident(name));
    if c == '_' {
        assert(is_word_char(src[pos + 1]));
    }
    assert(word_end(src, pos + 1) == end);
    assert(token_at(src, pos).1 == end);
}

// --------------------------------------------------------- blanks and comments

/// Blanks in front of a token do not change it.
pub proof fn law_blanks_are_skipped(src: Seq<char>, pos: int, end: int)
    requires
        0 <= pos <= end <= src.len(),
        forall|i: int| pos <= i < end ==> is_blank(#[trigger] src[i]),
    ensures
        next_token_at(src, pos) == next_token_at(src, end),
    decreases end - pos,
{
    if pos < end {
        law_blanks_are_skipped(src, pos + 1, end);
    }
}

proof fn lemma_line(src: Seq<char>, pos: int, end: int)
    requires
        0 <= pos <= end < src.len(),
        src[end] == '\n',
        forall|i: int| pos <= i < end ==> #[trigger] src[i] != '\n',
    ensures
        line_end(src, pos) == end,
    decreases end - pos,
{
    if pos < end {
        lemma_line(src, pos + 1, end);
    }
}

/// A comment behind two strokes reaches to the end of its line.
pub proof fn law_line_comment_is_skipped(src: Seq<char>, pos: int, end: int)
    requires
        is_written(src, pos, seq!['/', '/']),
        pos + 2 <= end < src.len(),
        src[end] == '\n',
        forall|i: int| pos + 2 <= i < end ==> #[trigger] src[i] != '\n',
    ensures
        next_token_at(src, pos) == next_token_at(src, end + 1),
{
    assert(src[pos] == src.subrange(pos, pos + 2)[0]);
    assert(src[pos + 1] == src.subrange(pos, pos + 2)[1]);
    lemma_line(src, pos + 2, end);
    assert(skip_blanks(src, end) == skip_blanks(src, end + 1));
}

proof fn lemma_comment(src: Seq<char>, pos: int, end: int, depth: int)
    requires
        0 <= pos <= end <= src.len(),
        0 < depth,
        forall|i: int| pos <= i < end ==> #[trigger] src[i] != '*' && src[i] != '/',
    ensures
        comment_end(src, pos, depth) == comment_end(src, end, depth),
    decreases end - pos,
{
    if pos < end {
        lemma_comment(src, pos + 1, end, depth);
    }
}

/// A block comment reaches to the sign that closes it, over line ends too.
pub proof fn law_block_comment_is_skipped(src: Seq<char>, pos: int, end: int)
    requires
        is_written(src, pos, seq!['/', '*']),
        pos + 2 <= end,
        is_written(src, end, seq!['*', '/']),
        forall|i: int| pos + 2 <= i < end ==> #[trigger] src[i] != '*' && src[i] != '/',
    ensures
        next_token_at(src, pos) == next_token_at(src, end + 2),
{
    assert(src[pos] == src.subrange(pos, pos + 2)[0]);
    assert(src[pos + 1] == src.subrange(pos, pos + 2)[1]);
    assert(src[end] == src.subrange(end, end + 2)[0]);
    assert(src[end + 1] == src.subrange(end, end + 2)[1]);
    lemma_comment(src, pos + 2, end, 1);
    assert(comment_end(src, end + 2, 0) == end + 2);
}

/// A block comment inside another closes only itself.
pub proof fn law_block_comments_nest(src: Seq<char>, pos: int, from: int, to: int, end: int)
    requires
        is_written(src, pos, seq!['/', '*']),
        pos + 2 <= from,
        is_written(src, from, seq!['/', '*']),
        from + 2 <= to,
        is_written(src, to, seq!['*', '/']),
        to + 2 <= end,
        is_written(src, end, seq!['*', '/']),
        forall|i: int| pos + 2 <= i < from ==> #[trigger] src[i] != '*' && src[i] != '/',
        forall|i: int| from + 2 <= i < to ==> #[trigger] src[i] != '*' && src[i] != '/',
        forall|i: int| to + 2 <= i < end ==> #[trigger] src[i] != '*' && src[i] != '/',
    ensures
        next_token_at(src, pos) == next_token_at(src, end + 2),
{
    assert(src[pos] == src.subrange(pos, pos + 2)[0]);
    assert(src[pos + 1] == src.subrange(pos, pos + 2)[1]);
    assert(src[from] == src.subrange(from, from + 2)[0]);
    assert(src[from + 1] == src.subrange(from, from + 2)[1]);
    assert(src[to] == src.subrange(to, to + 2)[0]);
    assert(src[to + 1] == src.subrange(to, to + 2)[1]);
    assert(src[end] == src.subrange(end, end + 2)[0]);
    assert(src[end + 1] == src.subrange(end, end + 2)[1]);
    lemma_comment(src, pos + 2, from, 1);
    lemma_comment(src, from + 2, to, 2);
    lemma_comment(src, to + 2, end, 1);
    assert(comment_end(src, from, 1) == comment_end(src, from + 2, 2));
    assert(comment_end(src, to, 2) == comment_end(src, to + 2, 1));
    assert(comment_end(src, end, 1) == comment_end(src, end + 2, 0));
    assert(comment_end(src, end + 2, 0) == end + 2);
}

} // verus!
