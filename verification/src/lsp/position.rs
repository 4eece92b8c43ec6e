//! Places in a source as an editor counts them: lines and characters from 0.
//!
//! An offset counts the bytes of the source, an index its characters. The places that the
//! lexer gives are indices, with the line and column where a token ends; an editor wants
//! those where it begins, which [`begun`] gives.
use vstd::prelude::*;

verus! {

use crate::lexer::{col_at, line_at, next_count};
use crate::text::{chars_of, is_text_at, text_at};
use crate::token::{Span, Token, TokenV, tokens_v};

/// A place between two characters of a source.
#[derive(Debug, Clone, Copy, PartialEq, Eq, PartialOrd, Ord, Structural)]
pub struct Position {
    pub line: u32,
    pub character: u32,
}

/// A stretch of a source.
#[derive(Debug, Clone, Copy, PartialEq, Eq, Structural)]
pub struct Range {
    pub start: Position,
    pub end: Position,
}

/// Whether a place stands before another, or is the same.
pub open spec fn not_after(a: Position, b: Position) -> bool {
    a.line < b.line || (a.line == b.line && a.character <= b.character)
}

/// How many lines end before `i`.
pub open spec fn lines_before(s: Seq<char>, i: int) -> nat
    decreases i,
{
    if i <= 0 {
        0
    } else if s[i - 1] == '\n' {
        lines_before(s, i - 1) + 1
    } else {
        lines_before(s, i - 1)
    }
}

/// How many characters stand before `i` on its line.
pub open spec fn chars_before(s: Seq<char>, i: int) -> nat
    decreases i,
{
    if i <= 0 || s[i - 1] == '\n' {
        0
    } else {
        chars_before(s, i - 1) + 1
    }
}

/// How many bytes a character takes in UTF-8.
pub open spec fn char_bytes(c: char) -> nat {
    if (c as u32) < 0x80 {
        1
    } else if (c as u32) < 0x800 {
        2
    } else if (c as u32) < 0x10000 {
        3
    } else {
        4
    }
}

fn bytes_of_char(c: char) -> (r: u128)
    ensures
        r == char_bytes(c),
{
    let n: u32 = c as u32;
    if n < 0x80 {
        1
    } else if n < 0x800 {
        2
    } else if n < 0x10000 {
        3
    } else {
        4
    }
}

/// How many bytes the first `i` characters take.
pub open spec fn bytes_before(s: Seq<char>, i: int) -> nat
    decreases i,
{
    if i <= 0 {
        0
    } else {
        bytes_before(s, i - 1) + char_bytes(s[i - 1])
    }
}

/// How many bytes a text takes.
pub fn count_bytes(text: &str) -> (r: u128)
    ensures
        r == bytes_before(text@, text@.len() as int),
{
    let v = chars_of(text);
    let mut bytes: u128 = 0;
    let mut i: usize = 0;
    while i < v.len()
        invariant
            v@ == text@,
            i <= v.len(),
            bytes == bytes_before(text@, i as int),
            bytes <= 4 * i,
        decreases v.len() - i,
    {
        bytes = bytes + bytes_of_char(v[i]);
        i = i + 1;
    }
    bytes
}

/// The first index from `i` on that does not begin before the offset.
pub open spec fn index_from(s: Seq<char>, i: int, offset: int) -> int
    decreases s.len() - i,
{
    if 0 <= i < s.len() && bytes_before(s, i) < offset {
        index_from(s, i + 1, offset)
    } else {
        i
    }
}

/// The index of an offset: how many characters begin before it.
pub open spec fn index_at(s: Seq<char>, offset: int) -> int {
    index_from(s, 0, offset)
}

/// The index of an offset.
pub fn index_of_offset(source: &str, offset: usize) -> (r: usize)
    ensures
        r == index_at(source@, offset as int),
        r <= source@.len(),
{
    let v = chars_of(source);
    let mut bytes: u128 = 0;
    let mut i: usize = 0;
    while i < v.len() && bytes < offset as u128
        invariant
            v@ == source@,
            i <= v.len(),
            bytes <= 4 * i,
            bytes == bytes_before(source@, i as int),
            index_at(source@, offset as int) == index_from(source@, i as int, offset as int),
        decreases v.len() - i,
    {
        bytes = bytes + bytes_of_char(v[i]);
        i = i + 1;
    }
    i
}

/// The place of an index. An index behind the source stands for its end.
pub open spec fn position_at(s: Seq<char>, index: int) -> Position {
    let i = if index < s.len() {
        index
    } else {
        s.len() as int
    };
    Position { line: lines_before(s, i) as u32, character: chars_before(s, i) as u32 }
}

/// The place of an offset in bytes.
pub fn offset_to_position(source: &str, offset: usize) -> (r: Position)
    ensures
        r == position_at(source@, index_at(source@, offset as int)),
{
    index_to_position(source, index_of_offset(source, offset))
}

/// The place of an index.
pub fn index_to_position(source: &str, offset: usize) -> (r: Position)
    ensures
        r == position_at(source@, offset as int),
{
    let v = chars_of(source);
    let mut line: usize = 0;
    let mut col: usize = 0;
    let mut i: usize = 0;
    while i < v.len() && i < offset
        invariant
            v@ == source@,
            i <= v.len(),
            i <= offset,
            line <= i,
            col <= i,
            line == lines_before(source@, i as int),
            col == chars_before(source@, i as int),
        decreases v.len() - i,
    {
        if v[i] == '\n' {
            line = line + 1;
            col = 0;
        } else {
            col = col + 1;
        }
        i = i + 1;
    }
    Position { line: line as u32, character: col as u32 }
}

// --------------------------------------------------------- where a token begins

/// A place with the line and column where it begins.
pub open spec fn begun_span(src: Seq<char>, s: Span) -> Span {
    let at = if s.start < src.len() {
        s.start as int
    } else {
        src.len() as int
    };
    Span { line: line_at(src, at), col: col_at(src, at), ..s }
}

/// The tokens with the lines and columns where they begin.
pub open spec fn begun_tokens(src: Seq<char>, ts: Seq<TokenV>) -> Seq<TokenV> {
    Seq::new(
        ts.len(),
        |i: int| TokenV { kind: ts[i].kind, span: begun_span(src, ts[i].span) },
    )
}

fn one_more(n: usize) -> (r: usize)
    ensures
        r == next_count(n),
{
    if n == usize::MAX {
        n
    } else {
        n + 1
    }
}

/// The line and column of `to`, from those of `from`.
fn count_on(v: &Vec<char>, from: usize, line: usize, col: usize, to: usize) -> (r: (usize, usize))
    requires
        from <= to <= v.len(),
        line == line_at(v@, from as int),
        col == col_at(v@, from as int),
    ensures
        r.0 == line_at(v@, to as int),
        r.1 == col_at(v@, to as int),
{
    let mut line = line;
    let mut col = col;
    let mut i: usize = from;
    while i < to
        invariant
            i <= to <= v.len(),
            line == line_at(v@, i as int),
            col == col_at(v@, i as int),
        decreases to - i,
    {
        if v[i] == '\n' {
            line = one_more(line);
            col = 1;
        } else {
            col = one_more(col);
        }
        i = i + 1;
    }
    (line, col)
}

/// A place with the line and column where it begins.
pub fn begin_span(source: &str, s: &Span) -> (r: Span)
    ensures
        r == begun_span(source@, *s),
{
    let v = chars_of(source);
    let at: usize = if s.start < v.len() {
        s.start
    } else {
        v.len()
    };
    let (line, col) = count_on(&v, 0, 1, 1, at);
    Span { start: s.start, end: s.end, line, col }
}

/// The tokens with the lines and columns where they begin.
pub fn begun(source: &str, tokens: &[Token]) -> (r: Vec<Token>)
    ensures
        tokens_v(r@) == begun_tokens(source@, tokens_v(tokens@)),
{
    let v = chars_of(source);
    let ghost all = begun_tokens(source@, tokens_v(tokens@));
    let mut out: Vec<Token> = Vec::new();
    let mut from: usize = 0;
    let mut line: usize = 1;
    let mut col: usize = 1;
    let mut i: usize = 0;
    while i < tokens.len()
        invariant
            v@ == source@,
            i <= tokens.len(),
            all == begun_tokens(source@, tokens_v(tokens@)),
            tokens_v(out@) == all.take(i as int),
            from <= v.len(),
            line == line_at(source@, from as int),
            col == col_at(source@, from as int),
        decreases tokens.len() - i,
    {
        let s = &tokens[i].span;
        let at: usize = if s.start < v.len() {
            s.start
        } else {
            v.len()
        };
        let here = if from <= at {
            count_on(&v, from, line, col, at)
        } else {
            count_on(&v, 0, 1, 1, at)
        };
        from = at;
        line = here.0;
        col = here.1;
        assert(tokens_v(tokens@)[i as int] == tokens[i as int]@);
        let ghost before = out@;
        out.push(
            Token {
                kind: tokens[i].kind.dup(),
                span: Span { start: s.start, end: s.end, line, col },
            },
        );
        i = i + 1;
        assert(tokens_v(out@) =~= tokens_v(before).push(all[i - 1]));
        assert(all.take(i as int) =~= all.take(i - 1).push(all[i - 1]));
    }
    assert(all.take(i as int) =~= all);
    out
}

/// Where the line ends that `i` is on.
pub open spec fn line_stop(s: Seq<char>, i: int) -> int
    decreases s.len() - i,
{
    if i < 0 || i >= s.len() || s[i] == '\n' {
        i
    } else {
        line_stop(s, i + 1)
    }
}

/// Where the line begins that is `n` lines behind the one that begins at `i`.
pub open spec fn line_start(s: Seq<char>, i: int, n: nat) -> Option<int>
    decreases n,
{
    if n == 0 {
        Some(i)
    } else if line_stop(s, i) >= s.len() {
        None
    } else {
        line_start(s, line_stop(s, i) + 1, (n - 1) as nat)
    }
}

/// The last index from `i` on, up to `stop`, that stands at most `room` bytes behind `i`.
pub open spec fn index_within(s: Seq<char>, i: int, stop: int, room: int) -> int
    decreases stop - i,
{
    if 0 <= i < stop && char_bytes(s[i]) <= room {
        index_within(s, i + 1, stop, room - char_bytes(s[i]))
    } else {
        i
    }
}

/// The index of a place whose character counts the bytes of its line. A place behind the end
/// of its line stands for that end, one inside a character for where that begins, and a line
/// behind the last one for the end of the source.
pub open spec fn place_index(s: Seq<char>, pos: Position) -> int {
    match line_start(s, 0, pos.line as nat) {
        None => s.len() as int,
        Some(i) => index_within(s, i, line_stop(s, i), pos.character as int),
    }
}

/// The offset of a place in bytes, up to the largest that can be told.
pub open spec fn offset_at(s: Seq<char>, pos: Position) -> int {
    at_most(bytes_before(s, place_index(s, pos)) as int, usize::MAX as nat)
}

pub proof fn lemma_line_stop(s: Seq<char>, i: int)
    requires
        0 <= i <= s.len(),
    ensures
        i <= line_stop(s, i) <= s.len(),
        line_stop(s, i) < s.len() ==> s[line_stop(s, i)] == '\n',
        forall|j: int| i <= j < line_stop(s, i) ==> s[j] != '\n',
    decreases s.len() - i,
{
    if i < s.len() && s[i] != '\n' {
        lemma_line_stop(s, i + 1);
    }
}

/// The offset of a place in bytes.
pub fn offset_of_position(source: &str, pos: Position) -> (r: usize)
    ensures
        r == offset_at(source@, pos),
{
    let v = chars_of(source);
    let mut bytes: u128 = 0;
    let mut i: usize = 0;
    let mut n: u32 = pos.line;
    loop
        invariant
            v@ == source@,
            i <= v.len(),
            bytes <= 4 * i,
            bytes == bytes_before(source@, i as int),
            line_start(source@, 0, pos.line as nat) == line_start(source@, i as int, n as nat),
        decreases n,
    {
        let mut room: u128 = pos.character as u128;
        let mut fits: bool = true;
        let mut at: u128 = bytes;
        let mut j: usize = i;
        let ghost stop = line_stop(source@, i as int);
        let ghost whole = index_within(source@, i as int, stop, pos.character as int);
        let ghost mut k: int = i as int;
        proof {
            lemma_line_stop(source@, i as int);
        }
        while j < v.len() && v[j] != '\n'
            invariant
                v@ == source@,
                i <= j <= v.len(),
                bytes <= 4 * j,
                bytes == bytes_before(source@, j as int),
                stop == line_stop(source@, j as int),
                j <= stop <= v.len(),
                i <= k <= j,
                at <= 4 * k,
                at == bytes_before(source@, k),
                fits ==> k == j && whole == index_within(source@, k, stop, room as int),
                !fits ==> whole == k,
            decreases v.len() - j,
        {
            let size: u128 = bytes_of_char(v[j]);
            bytes = bytes + size;
            if fits && size <= room {
                room = room - size;
                at = bytes;
                proof {
                    k = k + 1;
                }
            } else {
                fits = false;
            }
            proof {
                lemma_line_stop(source@, j as int);
            }
            j = j + 1;
        }
        assert(j == stop);
        assert(whole == k);
        if n == 0 {
            return told(at);
        }
        if j >= v.len() {
            return told(bytes);
        }
        bytes = bytes + 1;
        assert(source@[j as int] == '\n');
        assert(char_bytes('\n') == 1);
        i = j + 1;
        n = n - 1;
    }
}

/// A number up to the largest that can be told.
fn told(n: u128) -> (r: usize)
    ensures
        r == at_most(n as int, usize::MAX as nat),
{
    if n < usize::MAX as u128 {
        n as usize
    } else {
        usize::MAX
    }
}

/// The stretch of a place in a source.
pub open spec fn range_of(s: Seq<char>, span: Span) -> Range {
    Range { start: position_at(s, span.start as int), end: position_at(s, span.end as int) }
}

/// The stretch of a place in a source.
pub fn span_to_range(source: &str, span: &Span) -> (r: Range)
    ensures
        r == range_of(source@, *span),
{
    Range {
        start: index_to_position(source, span.start),
        end: index_to_position(source, span.end),
    }
}

/// Where a text stands first in a stretch of another.
pub open spec fn found_in(s: Seq<char>, part: Seq<char>, from: int, to: int) -> Option<int>
    decreases to + 1 - from,
{
    if from + part.len() > to {
        None
    } else if text_at(s, part, from) {
        Some(from)
    } else {
        found_in(s, part, from + 1, to)
    }
}

/// A number that is at most `n`.
pub open spec fn at_most(i: int, n: nat) -> int {
    if i < n {
        i
    } else {
        n as int
    }
}

/// The stretch of a name in a place, or the whole place where the name is not in it.
pub open spec fn name_range(s: Seq<char>, span: Span, name: Seq<char>) -> Range {
    let start = at_most(span.start as int, s.len());
    let end = at_most(span.end as int, s.len());
    match found_in(s, name, start, if end < start { start } else { end }) {
        Some(i) => Range { start: position_at(s, i), end: position_at(s, i + name.len()) },
        None => range_of(s, span),
    }
}

/// The stretch of a name in a place, or the whole place where the name is not in it.
pub fn name_selection_range(source: &str, span: &Span, name: &str) -> (r: Range)
    ensures
        r == name_range(source@, *span, name@),
{
    let v = chars_of(source);
    let part = chars_of(name);
    let start: usize = if span.start < v.len() {
        span.start
    } else {
        v.len()
    };
    let end0: usize = if span.end < v.len() {
        span.end
    } else {
        v.len()
    };
    let end: usize = if end0 < start {
        start
    } else {
        end0
    };
    let mut i: usize = start;
    while part.len() <= end && i <= end - part.len()
        invariant
            v@ == source@,
            part@ == name@,
            start <= i <= end + 1,
            end <= v.len(),
            found_in(source@, name@, start as int, end as int) == found_in(
                source@,
                name@,
                i as int,
                end as int,
            ),
            name_range(source@, *span, name@) == match found_in(
                source@,
                name@,
                start as int,
                end as int,
            ) {
                Some(i) => Range {
                    start: position_at(source@, i),
                    end: position_at(source@, i + name@.len()),
                },
                None => range_of(source@, *span),
            },
        decreases end + 1 - i,
    {
        if is_text_at(&v, &part, i) {
            return Range {
                start: index_to_position(source, i),
                end: index_to_position(source, i + part.len()),
            };
        }
        if i == end {
            assert(found_in(source@, name@, i + 1, end as int) is None);
            return span_to_range(source, span);
        }
        i = i + 1;
    }
    span_to_range(source, span)
}

proof fn lemma_before(s: Seq<char>, i: int)
    requires
        0 <= i <= s.len(),
    ensures
        lines_before(s, i) + chars_before(s, i) <= i,
        line_start(s, 0, lines_before(s, i)) == Some(i - chars_before(s, i)),
        forall|j: int| i - chars_before(s, i) <= j < i ==> s[j] != '\n',
        i - chars_before(s, i) == 0 || s[i - chars_before(s, i) - 1] == '\n',
    decreases i,
{
    if i > 0 {
        lemma_before(s, i - 1);
        let from = i - 1 - chars_before(s, i - 1);
        if s[i - 1] == '\n' {
            lemma_stop_is(s, from, i - 1);
            lemma_start_next(s, 0, lines_before(s, i - 1));
        }
    }
}

proof fn lemma_stop_is(s: Seq<char>, i: int, j: int)
    requires
        0 <= i <= j <= s.len(),
        forall|k: int| i <= k < j ==> s[k] != '\n',
        j < s.len() ==> s[j] == '\n',
    ensures
        line_stop(s, i) == j,
    decreases j - i,
{
    if i < j {
        lemma_stop_is(s, i + 1, j);
    }
}

proof fn lemma_start_next(s: Seq<char>, i: int, n: nat)
    requires
        0 <= i <= s.len(),
        line_start(s, i, n) matches Some(k) && line_stop(s, k) < s.len(),
    ensures
        line_start(s, i, n + 1) == Some(line_stop(s, line_start(s, i, n)->0) + 1),
    decreases n,
{
    if n > 0 {
        lemma_line_stop(s, i);
        lemma_start_next(s, line_stop(s, i) + 1, (n - 1) as nat);
    } else {
        assert(line_start(s, line_stop(s, i) + 1, 0) == Some(line_stop(s, i) + 1));
    }
}

/// What stands before an index on its line takes one byte for each character.
pub open spec fn is_ascii_line(s: Seq<char>, i: int) -> bool {
    forall|j: int| i - chars_before(s, i) <= j < i ==> (#[trigger] s[j] as u32) < 0x80
}

proof fn lemma_bytes_grow(s: Seq<char>, i: int, j: int)
    requires
        0 <= i <= j,
    ensures
        bytes_before(s, i) + (j - i) <= bytes_before(s, j),
    decreases j - i,
{
    if i < j {
        lemma_bytes_grow(s, i, j - 1);
    }
}

proof fn lemma_index_from(s: Seq<char>, i: int, j: int)
    requires
        0 <= i <= j <= s.len(),
    ensures
        index_from(s, i, bytes_before(s, j) as int) == j,
    decreases j - i,
{
    if i < j {
        lemma_bytes_grow(s, i, j);
        lemma_index_from(s, i + 1, j);
    }
}

proof fn lemma_within(s: Seq<char>, i: int, j: int, stop: int)
    requires
        0 <= i <= j <= stop <= s.len(),
        forall|k: int| i <= k < j ==> (#[trigger] s[k] as u32) < 0x80,
    ensures
        index_within(s, i, stop, j - i) == j,
    decreases j - i,
{
    if i < j {
        assert((s[i] as u32) < 0x80);
        lemma_within(s, i + 1, j, stop);
    }
}

/// Every index is found again from its offset, and every offset from its place, where what
/// stands before it on its line takes one byte for each character.
pub proof fn law_offset_round_trip(s: Seq<char>, i: int)
    requires
        0 <= i <= s.len(),
        s.len() <= u32::MAX,
        bytes_before(s, s.len() as int) <= usize::MAX,
    ensures
        index_at(s, bytes_before(s, i) as int) == i,
        is_ascii_line(s, i) ==> offset_at(s, position_at(s, i)) == bytes_before(s, i),
{
    lemma_index_from(s, 0, i);
    lemma_bytes_grow(s, i, s.len() as int);
    lemma_before(s, i);
    let from = i - chars_before(s, i);
    lemma_line_stop(s, from);
    lemma_stop_reaches(s, from, i);
    if is_ascii_line(s, i) {
        lemma_within(s, from, i, line_stop(s, from));
    }
}

proof fn lemma_stop_reaches(s: Seq<char>, i: int, j: int)
    requires
        0 <= i <= j <= s.len(),
        forall|k: int| i <= k < j ==> s[k] != '\n',
    ensures
        j <= line_stop(s, i),
    decreases j - i,
{
    if i < j {
        lemma_stop_reaches(s, i + 1, j);
    } else {
        lemma_line_stop(s, i);
    }
}

/// An index that is not behind another has a place that is not behind the other's.
pub proof fn law_positions_in_order(s: Seq<char>, a: int, b: int)
    requires
        0 <= a <= b,
        s.len() <= u32::MAX,
    ensures
        not_after(position_at(s, a), position_at(s, b)),
{
    let i = at_most(a, s.len());
    let j = at_most(b, s.len());
    lemma_before(s, i);
    lemma_before(s, j);
    lemma_in_order(s, i, j);
}

proof fn lemma_in_order(s: Seq<char>, i: int, j: int)
    requires
        0 <= i <= j <= s.len(),
    ensures
        lines_before(s, i) <= lines_before(s, j),
        lines_before(s, i) == lines_before(s, j) ==> chars_before(s, i) <= chars_before(s, j),
    decreases j,
{
    if i < j {
        lemma_in_order(s, i, j - 1);
    }
}

proof fn lemma_found(s: Seq<char>, part: Seq<char>, from: int, to: int)
    requires
        0 <= from,
        to <= s.len(),
    ensures
        found_in(s, part, from, to) matches Some(i) ==> from <= i && i + part.len() <= to
            && text_at(s, part, i) && forall|j: int| from <= j < i ==> !text_at(s, part, j),
        found_in(s, part, from, to) is None ==> forall|j: int|
            from <= j && j + part.len() <= to ==> !text_at(s, part, j),
    decreases to + 1 - from,
{
    if from + part.len() <= to && !text_at(s, part, from) {
        lemma_found(s, part, from + 1, to);
    }
}

/// The stretch of a name lies in the stretch of the place that it is looked for in.
pub proof fn law_name_range_inside(s: Seq<char>, span: Span, name: Seq<char>)
    requires
        span.start <= span.end,
        s.len() <= u32::MAX,
    ensures
        not_after(range_of(s, span).start, name_range(s, span, name).start),
        not_after(name_range(s, span, name).end, range_of(s, span).end),
{
    let start = at_most(span.start as int, s.len());
    let end = at_most(span.end as int, s.len());
    lemma_found(s, name, start, end);
    if let Some(i) = found_in(s, name, start, end) {
        law_positions_in_order(s, start, i);
        law_positions_in_order(s, i + name.len(), end);
    }
}

proof fn lemma_run(s: Seq<char>, i: int, j: int)
    requires
        0 <= i <= j <= s.len(),
        forall|k: int| i <= k < j ==> s[k] != '\n',
    ensures
        lines_before(s, j) == lines_before(s, i),
        chars_before(s, j) == chars_before(s, i) + (j - i),
    decreases j - i,
{
    if i < j {
        lemma_run(s, i, j - 1);
    }
}

proof fn lemma_starts(s: Seq<char>, i: int, n: nat)
    requires
        0 <= i <= s.len(),
        chars_before(s, i) == 0,
    ensures
        line_start(s, i, n) matches Some(k) ==> i <= k <= s.len() && chars_before(s, k) == 0
            && lines_before(s, k) == lines_before(s, i) + n,
    decreases n,
{
    if n > 0 {
        lemma_line_stop(s, i);
        let j = line_stop(s, i);
        if j < s.len() {
            lemma_run(s, i, j);
            lemma_starts(s, j + 1, (n - 1) as nat);
        }
    }
}

/// Every place on a line of a source is found again from its offset, where what stands before
/// it on its line takes one byte for each character.
pub proof fn law_position_round_trip(s: Seq<char>, pos: Position)
    requires
        line_start(s, 0, pos.line as nat) matches Some(i) && i + pos.character <= line_stop(s, i)
            && forall|j: int| i <= j < i + pos.character ==> (#[trigger] s[j] as u32) < 0x80,
        bytes_before(s, s.len() as int) <= usize::MAX,
    ensures
        position_at(s, index_at(s, offset_at(s, pos))) == pos,
{
    lemma_starts(s, 0, pos.line as nat);
    let i = line_start(s, 0, pos.line as nat)->0;
    let k = i + pos.character;
    lemma_line_stop(s, i);
    lemma_run(s, i, k);
    lemma_within(s, i, k, line_stop(s, i));
    lemma_bytes_grow(s, k, s.len() as int);
    lemma_index_from(s, 0, k);
}

} // verus!
