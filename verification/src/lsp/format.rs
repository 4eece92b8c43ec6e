//! The formatter: it gives each line the indentation that the braces before it ask for.
use vstd::prelude::*;

verus! {

use crate::lsp::position::{
    Position, Range, bytes_before, count_bytes, lemma_line_stop, line_stop,
};
use crate::text::{
    blank_end, blank_start, cat2, chars_of, is_whitespace, join, join_from, join_v, strs_v,
    text_between, trim, trimmed,
};

/// A replacement of a stretch of a document.
#[derive(Debug)]
pub struct TextEdit {
    pub range: Range,
    pub new_text: String,
}

/// The line from `i` to the line end at `j`, without a carriage return before a line feed.
pub open spec fn line_text(s: Seq<char>, i: int, j: int) -> Seq<char> {
    if j < s.len() && i < j && s[j - 1] == '\r' {
        s.subrange(i, j - 1)
    } else {
        s.subrange(i, j)
    }
}

/// The lines of a text from `i` on. A line end at the end of the text begins no line.
pub open spec fn lines_from(s: Seq<char>, i: int) -> Seq<Seq<char>>
    decreases s.len() + 1 - i,
{
    if i < 0 || i >= s.len() {
        Seq::empty()
    } else {
        let j = line_stop(s, i);
        proof {
            lemma_line_stop(s, i);
        }
        seq![line_text(s, i, j)] + lines_from(s, j + 1)
    }
}

/// The lines of a text.
pub open spec fn lines_of(s: Seq<char>) -> Seq<Seq<char>> {
    lines_from(s, 0)
}

/// The lines of a text.
pub fn split_lines(text: &str) -> (r: Vec<String>)
    ensures
        strs_v(r@) == lines_of(text@),
{
    let v = chars_of(text);
    let mut out: Vec<String> = Vec::new();
    let mut i: usize = 0;
    assert(strs_v(out@) + lines_from(text@, 0) =~= lines_of(text@));
    while i < v.len()
        invariant
            v@ == text@,
            i <= v.len(),
            strs_v(out@) + lines_from(text@, i as int) == lines_of(text@),
        decreases v.len() - i,
    {
        let ghost before = strs_v(out@);
        let mut j: usize = i;
        while j < v.len() && v[j] != '\n'
            invariant
                v@ == text@,
                i <= j <= v.len(),
                line_stop(text@, i as int) == line_stop(text@, j as int),
            decreases v.len() - j,
        {
            j = j + 1;
        }
        let end: usize = if j < v.len() && i < j && v[j - 1] == '\r' {
            j - 1
        } else {
            j
        };
        let line = text_between(&v, i, end);
        assert(line@ == line_text(text@, i as int, j as int));
        out.push(line);
        assert(before + (seq![line@] + lines_from(text@, j + 1)) =~= strs_v(out@) + lines_from(
            text@,
            j + 1,
        ));
        if j < v.len() {
            i = j + 1;
        } else {
            assert(lines_from(text@, j + 1) =~= lines_from(text@, j as int));
            i = j;
        }
    }
    assert(strs_v(out@) + Seq::<Seq<char>>::empty() =~= strs_v(out@));
    out
}

/// How often a character stands in a text.
pub open spec fn occurrences(s: Seq<char>, c: char) -> nat
    decreases s.len(),
{
    if s.len() == 0 {
        0
    } else {
        occurrences(s.drop_last(), c) + if s.last() == c {
            1nat
        } else {
            0nat
        }
    }
}

/// The spaces of an indentation.
pub open spec fn spaces(n: nat) -> Seq<char>
    decreases n,
{
    if n == 0 {
        Seq::empty()
    } else {
        "    "@ + spaces((n - 1) as nat)
    }
}

/// How deep a line stands: one level less where it begins with a closing brace.
pub open spec fn depth_of(line: Seq<char>, depth: nat) -> nat {
    if line[0] == '}' && depth > 0 {
        (depth - 1) as nat
    } else {
        depth
    }
}

/// How deep the line behind such a line stands.
pub open spec fn depth_after(line: Seq<char>, depth: nat) -> nat {
    let d = depth_of(line, depth) + occurrences(line, '{') - occurrences(line, '}');
    if d < 0 {
        0
    } else {
        d as nat
    }
}

/// The lines from `i` on, each without the blanks at its ends and behind the indentation of
/// its depth. Blank lines are empty and change no depth.
pub open spec fn indented_from(lines: Seq<Seq<char>>, i: int, depth: nat) -> Seq<Seq<char>>
    decreases lines.len() - i,
{
    if i < 0 || i >= lines.len() {
        Seq::empty()
    } else {
        let line = trimmed(lines[i]);
        if line.len() == 0 {
            seq![Seq::empty()] + indented_from(lines, i + 1, depth)
        } else {
            seq![spaces(depth_of(line, depth)) + line] + indented_from(
                lines,
                i + 1,
                depth_after(line, depth),
            )
        }
    }
}

/// A formatted source.
pub open spec fn formatted(s: Seq<char>) -> Seq<char> {
    join_v(indented_from(lines_of(s), 0, 0), "\n"@)
}

fn count_char(v: &Vec<char>, c: char) -> (r: usize)
    ensures
        r == occurrences(v@, c),
{
    let mut n: usize = 0;
    let mut i: usize = 0;
    while i < v.len()
        invariant
            i <= v.len(),
            n <= i,
            n == occurrences(v@.take(i as int), c),
        decreases v.len() - i,
    {
        assert(v@.take(i + 1).drop_last() =~= v@.take(i as int));
        if v[i] == c {
            n = n + 1;
        }
        i = i + 1;
    }
    assert(v@.take(i as int) =~= v@);
    n
}

fn indentation(depth: u128) -> (r: String)
    ensures
        r@ == spaces(depth as nat),
{
    let mut out = String::new();
    let mut n: u128 = depth;
    assert(spaces(n as nat) + out@ =~= spaces(depth as nat));
    while n > 0
        invariant
            n <= depth,
            spaces(n as nat) + out@ == spaces(depth as nat),
        decreases n,
    {
        let ghost before = out@;
        out = cat2("    ", &out);
        n = n - 1;
        proof {
            lemma_spaces_end(n as nat);
            assert(spaces(n as nat) + ("    "@ + before) =~= (spaces(n as nat) + "    "@) + before);
        }
    }
    assert(spaces(0) + out@ =~= out@);
    out
}

proof fn lemma_spaces_end(n: nat)
    ensures
        spaces(n + 1) == spaces(n) + "    "@,
    decreases n,
{
    if n == 0 {
        assert(spaces(1) =~= "    "@ + spaces(0));
        assert(spaces(0) + "    "@ =~= "    "@);
        assert("    "@ + Seq::<char>::empty() =~= "    "@);
    } else {
        lemma_spaces_end((n - 1) as nat);
        assert("    "@ + (spaces((n - 1) as nat) + "    "@) =~= ("    "@ + spaces((n - 1) as nat))
            + "    "@);
    }
}

proof fn lemma_room(i: int)
    requires
        0 <= i < usize::MAX,
    ensures
        i * usize::MAX + usize::MAX <= u128::MAX,
{
    assert(i * usize::MAX + usize::MAX <= usize::MAX * usize::MAX) by (nonlinear_arith)
        requires
            0 <= i < usize::MAX,
    ;
    assert(usize::MAX * usize::MAX <= u128::MAX) by (nonlinear_arith)
        requires
            usize::MAX <= 0xffff_ffff_ffff_ffff,
    ;
}

/// Formats a source: the indentation of each line follows the braces before it.
pub fn format_source(source: &str) -> (r: String)
    ensures
        r@ == formatted(source@),
{
    let lines = split_lines(source);
    let ghost ls = strs_v(lines@);
    let mut out: Vec<String> = Vec::new();
    let mut depth: u128 = 0;
    let mut i: usize = 0;
    assert(strs_v(out@) + indented_from(ls, 0, 0) =~= indented_from(ls, 0, 0));
    while i < lines.len()
        invariant
            ls == strs_v(lines@),
            i <= lines.len(),
            depth <= i * usize::MAX,
            strs_v(out@) + indented_from(ls, i as int, depth as nat) == indented_from(ls, 0, 0),
        decreases lines.len() - i,
    {
        let ghost before = strs_v(out@);
        assert((i + 1) * usize::MAX == i * usize::MAX + usize::MAX) by (nonlinear_arith);
        let line = trim(&lines[i]);
        assert(line@ == trimmed(ls[i as int]));
        let letters = chars_of(&line);
        if letters.len() == 0 {
            out.push(String::new());
            assert(before + (seq![Seq::<char>::empty()] + indented_from(ls, i + 1, depth as nat))
                =~= strs_v(out@) + indented_from(ls, i + 1, depth as nat));
        } else {
            let ghost old_depth = depth as nat;
            if letters[0] == '}' && depth > 0 {
                depth = depth - 1;
            }
            let text = cat2(&indentation(depth), &line);
            let opened = count_char(&letters, '{');
            let closed = count_char(&letters, '}');
            proof {
                lemma_room(i as int);
            }
            let sum: u128 = depth + opened as u128;
            depth = if sum < closed as u128 {
                0
            } else {
                sum - closed as u128
            };
            out.push(text);
            let ghost rest = indented_from(ls, i + 1, depth as nat);
            assert(before + (seq![text@] + rest) =~= strs_v(out@) + rest);
        }
        i = i + 1;
    }
    assert(strs_v(out@) + Seq::<Seq<char>>::empty() =~= strs_v(out@));
    join(&out, "\n")
}

/// Whether an edit formats a source: the whole text is replaced. Its end lies behind the
/// last line, as far as that line has bytes.
pub open spec fn is_format_edit(s: Seq<char>, e: TextEdit) -> bool {
    let ls = lines_of(s);
    &&& e.new_text@ == formatted(s)
    &&& e.range.start == (Position { line: 0, character: 0 })
    &&& e.range.end.line == ls.len() as u32
    &&& e.range.end.character == if ls.len() == 0 {
        0
    } else {
        bytes_before(ls.last(), ls.last().len() as int) as u32
    }
}

/// The edit that formats a document: the whole text is replaced.
pub fn formatting(source: &str) -> (r: TextEdit)
    ensures
        is_format_edit(source@, r),
{
    let lines = split_lines(source);
    let ghost ls = strs_v(lines@);
    let last: u128 = if lines.len() == 0 {
        0
    } else {
        let last_line = &lines[lines.len() - 1];
        assert(ls.last() == last_line@);
        count_bytes(last_line)
    };
    TextEdit {
        range: Range {
            start: Position { line: 0, character: 0 },
            end: Position { line: lines.len() as u32, character: last as u32 },
        },
        new_text: format_source(source),
    }
}

// ------------------------------------------------------------------------- laws

proof fn lemma_blank_end(s: Seq<char>, i: int)
    requires
        0 <= i <= s.len(),
    ensures
        i <= blank_end(s, i) <= s.len(),
        blank_end(s, i) < s.len() ==> !is_whitespace(s[blank_end(s, i)]),
    decreases s.len() - i,
{
    if i < s.len() && is_whitespace(s[i]) {
        lemma_blank_end(s, i + 1);
    }
}

proof fn lemma_blank_start(s: Seq<char>, j: int)
    requires
        0 <= j <= s.len(),
    ensures
        0 <= blank_start(s, j) <= j,
        blank_start(s, j) > 0 ==> !is_whitespace(s[blank_start(s, j) - 1]),
    decreases j,
{
    if j > 0 && is_whitespace(s[j - 1]) {
        lemma_blank_start(s, j - 1);
    }
}

proof fn lemma_blank_end_is(s: Seq<char>, i: int, e: int)
    requires
        0 <= i <= e < s.len(),
        forall|k: int| i <= k < e ==> is_whitespace(s[k]),
        !is_whitespace(s[e]),
    ensures
        blank_end(s, i) == e,
    decreases e - i,
{
    if i < e {
        lemma_blank_end_is(s, i + 1, e);
    }
}

/// A text without blanks at its ends has none there, and stands in the whole text.
proof fn lemma_trimmed(s: Seq<char>)
    ensures
        trimmed(s).len() > 0 ==> {
            &&& !is_whitespace(trimmed(s)[0])
            &&& !is_whitespace(trimmed(s).last())
        },
        forall|k: int| 0 <= k < trimmed(s).len() ==> s.contains(#[trigger] trimmed(s)[k]),
{
    lemma_blank_end(s, 0);
    lemma_blank_start(s, s.len() as int);
    let i = blank_end(s, 0);
    assert forall|k: int| 0 <= k < trimmed(s).len() implies s.contains(#[trigger] trimmed(s)[k]) by {
        assert(trimmed(s)[k] == s[i + k]);
    }
}

proof fn lemma_spaces_blank(n: nat)
    ensures
        forall|k: int| 0 <= k < spaces(n).len() ==> #[trigger] spaces(n)[k] == ' ',
    decreases n,
{
    reveal_strlit("    ");
    if n > 0 {
        lemma_spaces_blank((n - 1) as nat);
        assert forall|k: int| 0 <= k < spaces(n).len() implies #[trigger] spaces(n)[k] == ' ' by {
            if k >= 4 {
                assert(spaces(n)[k] == spaces((n - 1) as nat)[k - 4]);
            }
        }
    }
}

/// Spaces in front change nothing of a trimmed text.
proof fn lemma_trim_indented(n: nat, t: Seq<char>)
    requires
        t.len() > 0,
        !is_whitespace(t[0]),
        !is_whitespace(t.last()),
    ensures
        trimmed(spaces(n) + t) == t,
{
    let s = spaces(n) + t;
    lemma_spaces_blank(n);
    assert(s[spaces(n).len() as int] == t[0]);
    assert(forall|k: int| 0 <= k < spaces(n).len() ==> s[k] == spaces(n)[k]);
    lemma_blank_end_is(s, 0, spaces(n).len() as int);
    assert(s[s.len() - 1] == t.last());
    assert(s.subrange(spaces(n).len() as int, s.len() as int) =~= t);
}

/// What formatting makes of a line: nothing of a blank one, else spaces and the trimmed line.
proof fn lemma_indented(ls: Seq<Seq<char>>, i: int, depth: nat, k: int)
    requires
        0 <= i <= k < ls.len(),
    ensures
        indented_from(ls, i, depth).len() == ls.len() - i,
        ({
            let t = trimmed(ls[k]);
            let o = indented_from(ls, i, depth)[k - i];
            &&& trimmed(o) == t
            &&& t.len() == 0 ==> o.len() == 0
            &&& t.len() > 0 ==> exists|n: nat| o == #[trigger] spaces(n) + t
        }),
    decreases ls.len() - i,
{
    let t = trimmed(ls[i]);
    let d1 = if t.len() == 0 {
        depth
    } else {
        depth_after(t, depth)
    };
    let rest = indented_from(ls, i + 1, d1);
    if k > i {
        lemma_indented(ls, i + 1, d1, k);
        assert(indented_from(ls, i, depth)[k - i] == rest[k - i - 1]);
    } else {
        if i + 1 < ls.len() {
            lemma_indented(ls, i + 1, d1, i + 1);
        }
        if t.len() > 0 {
            lemma_trimmed(ls[i]);
            lemma_trim_indented(depth_of(t, depth), t);
            assert(indented_from(ls, i, depth)[0] == spaces(depth_of(t, depth)) + t);
        } else {
            assert(indented_from(ls, i, depth)[0] =~= Seq::empty());
            assert(trimmed(Seq::<char>::empty()) =~= Seq::empty());
        }
    }
}

/// Lines that agree but for the blanks at their ends are formatted alike.
proof fn lemma_indented_alike(a: Seq<Seq<char>>, b: Seq<Seq<char>>, i: int, depth: nat)
    requires
        a.len() == b.len(),
        forall|k: int| 0 <= k < a.len() ==> trimmed(#[trigger] a[k]) == trimmed(b[k]),
    ensures
        indented_from(a, i, depth) == indented_from(b, i, depth),
    decreases a.len() - i,
{
    if 0 <= i < a.len() {
        let t = trimmed(a[i]);
        lemma_indented_alike(
            a,
            b,
            i + 1,
            if t.len() == 0 {
                depth
            } else {
                depth_after(t, depth)
            },
        );
    }
}

proof fn lemma_lines_have_no_ends(s: Seq<char>, i: int, k: int)
    requires
        0 <= i,
        0 <= k < lines_from(s, i).len(),
    ensures
        !lines_from(s, i)[k].contains('\n'),
    decreases s.len() + 1 - i,
{
    if i < s.len() {
        lemma_line_stop(s, i);
        let j = line_stop(s, i);
        if k == 0 {
            let t = line_text(s, i, j);
            assert forall|x: int| 0 <= x < t.len() implies t[x] != '\n' by {
                assert(t[x] == s[i + x]);
            }
        } else {
            lemma_lines_have_no_ends(s, j + 1, k - 1);
            assert(lines_from(s, i)[k] == lines_from(s, j + 1)[k - 1]);
        }
    }
}

/// The lines from `i` on with line ends between them.
spec fn tail_text(parts: Seq<Seq<char>>, i: int) -> Seq<char>
    decreases parts.len() - i,
{
    if i < 0 || i >= parts.len() {
        Seq::empty()
    } else if i == parts.len() - 1 {
        parts[i]
    } else {
        parts[i] + seq!['\n'] + tail_text(parts, i + 1)
    }
}

proof fn lemma_join_tail(parts: Seq<Seq<char>>, i: int, acc: Seq<char>)
    requires
        0 <= i,
    ensures
        join_from(parts, "\n"@, i, acc) == if i >= parts.len() {
            acc
        } else if i == 0 {
            acc + tail_text(parts, 0)
        } else {
            acc + seq!['\n'] + tail_text(parts, i)
        },
    decreases parts.len() - i,
{
    reveal_strlit("\n");
    assert("\n"@ =~= seq!['\n']);
    if i < parts.len() {
        let acc1 = if i > 0 {
            acc + "\n"@ + parts[i]
        } else {
            acc + parts[i]
        };
        lemma_join_tail(parts, i + 1, acc1);
        assert(join_from(parts, "\n"@, i, acc) == join_from(parts, "\n"@, i + 1, acc1));
        if i == parts.len() - 1 {
            if i == 0 {
                assert(acc1 =~= acc + tail_text(parts, 0));
            } else {
                assert(acc1 =~= acc + seq!['\n'] + tail_text(parts, i));
            }
        } else {
            let rest = tail_text(parts, i + 1);
            if i == 0 {
                assert(acc1 + seq!['\n'] + rest =~= acc + tail_text(parts, 0));
            } else {
                assert(acc1 + seq!['\n'] + rest =~= acc + seq!['\n'] + tail_text(parts, i));
            }
        }
    }
}

/// Whether texts can be the lines of one text.
spec fn are_lines(parts: Seq<Seq<char>>) -> bool {
    &&& forall|k: int| 0 <= k < parts.len() ==> !(#[trigger] parts[k]).contains('\n')
    &&& forall|k: int|
        0 <= k < parts.len() && (#[trigger] parts[k]).len() > 0 ==> parts[k].last() != '\r'
    &&& parts.len() > 0 ==> parts.last().len() > 0
}

proof fn lemma_stop_at(s: Seq<char>, i: int, j: int)
    requires
        0 <= i <= j <= s.len(),
        forall|k: int| i <= k < j ==> s[k] != '\n',
        j < s.len() ==> s[j] == '\n',
    ensures
        line_stop(s, i) == j,
    decreases j - i,
{
    if i < j {
        lemma_stop_at(s, i + 1, j);
    }
}

proof fn lemma_lines_of_tail(parts: Seq<Seq<char>>, i: int, prefix: Seq<char>)
    requires
        are_lines(parts),
        0 <= i < parts.len(),
    ensures
        lines_from(prefix + tail_text(parts, i), prefix.len() as int) == parts.skip(i),
    decreases parts.len() - i,
{
    let part = parts[i];
    let s = prefix + tail_text(parts, i);
    let pos = prefix.len() as int;
    let j = pos + part.len();
    assert forall|k: int| pos <= k < j implies s[k] != '\n' by {
        assert(s[k] == part[k - pos]);
        assert(!part.contains('\n'));
    }
    if i == parts.len() - 1 {
        assert(part.len() > 0);
        lemma_stop_at(s, pos, j);
        assert(s.subrange(pos, j) =~= part);
        assert(lines_from(s, j + 1) =~= Seq::empty());
        assert(lines_from(s, pos) =~= parts.skip(i));
    } else {
        let next = prefix + part + seq!['\n'];
        assert(s =~= next + tail_text(parts, i + 1));
        assert(s[j] == next[j]);
        lemma_stop_at(s, pos, j);
        assert(s.subrange(pos, j) =~= part);
        if part.len() > 0 {
            assert(s[j - 1] == part.last());
        }
        lemma_tail_len(parts, i + 1);
        lemma_lines_of_tail(parts, i + 1, next);
        assert(pos < s.len());
        assert(lines_from(s, pos) == seq![part] + lines_from(s, j + 1));
        assert(lines_from(s, pos) =~= parts.skip(i));
    }
}

proof fn lemma_tail_len(parts: Seq<Seq<char>>, i: int)
    requires
        are_lines(parts),
        0 <= i < parts.len(),
    ensures
        tail_text(parts, i).len() > 0,
    decreases parts.len() - i,
{
    if i < parts.len() - 1 {
        lemma_tail_len(parts, i + 1);
    }
}

/// Whether a source does not end in a blank line. Formatting drops such a line.
pub open spec fn ends_well(s: Seq<char>) -> bool {
    lines_of(s).len() > 0 ==> trimmed(lines_of(s).last()).len() > 0
}

/// Formatting changes only the blanks at the ends of the lines.
pub proof fn law_formatting_keeps_lines(s: Seq<char>)
    requires
        ends_well(s),
    ensures
        lines_of(formatted(s)).len() == lines_of(s).len(),
        forall|k: int|
            0 <= k < lines_of(s).len() ==> trimmed(#[trigger] lines_of(formatted(s))[k]) == trimmed(
                lines_of(s)[k],
            ),
        lines_of(formatted(s)) == indented_from(lines_of(s), 0, 0),
{
    let ls = lines_of(s);
    let out = indented_from(ls, 0, 0);
    lemma_join_tail(out, 0, Seq::empty());
    if ls.len() == 0 {
        assert(out =~= Seq::empty());
        assert(lines_of(formatted(s)) =~= Seq::empty());
    } else {
        lemma_indented(ls, 0, 0, ls.len() - 1);
        assert forall|k: int| 0 <= k < out.len() implies !(#[trigger] out[k]).contains('\n') && (
        out[k].len() > 0 ==> out[k].last() != '\r') by {
            lemma_indented(ls, 0, 0, k);
            lemma_lines_have_no_ends(s, 0, k);
            lemma_trimmed(ls[k]);
            let t = trimmed(ls[k]);
            if t.len() > 0 {
                let n = choose|n: nat| out[k] == #[trigger] spaces(n) + t;
                lemma_spaces_blank(n);
                assert(out[k].last() == t.last());
                assert forall|x: int| 0 <= x < out[k].len() implies out[k][x] != '\n' by {
                    if x < spaces(n).len() {
                        assert(out[k][x] == spaces(n)[x]);
                    } else {
                        assert(out[k][x] == t[x - spaces(n).len()]);
                        assert(ls[k].contains(t[x - spaces(n).len()]));
                    }
                }
            }
        }
        assert(out.last() == out[ls.len() - 1]);
        assert(are_lines(out));
        lemma_lines_of_tail(out, 0, Seq::empty());
        assert(Seq::<char>::empty() + tail_text(out, 0) =~= tail_text(out, 0));
        assert(out.skip(0) =~= out);
        assert forall|k: int| 0 <= k < ls.len() implies trimmed(
            #[trigger] lines_of(formatted(s))[k],
        ) == trimmed(ls[k]) by {
            lemma_indented(ls, 0, 0, k);
        }
    }
}

/// Formatting a formatted source changes nothing.
pub proof fn law_formatting_settles(s: Seq<char>)
    requires
        ends_well(s),
    ensures
        formatted(formatted(s)) == formatted(s),
{
    law_formatting_keeps_lines(s);
    lemma_indented_alike(lines_of(formatted(s)), lines_of(s), 0, 0);
}

} // verus!
