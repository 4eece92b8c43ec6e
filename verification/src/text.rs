//! Text as a sequence of characters: comparison, concatenation, decimal
//! numbers and searching.
use vstd::prelude::*;

verus! {

// ---------------------------------------------------------------- characters

/// Calls `String::push`: the character is appended.
#[verifier::external_body]
pub(crate) fn push_char(s: &mut String, c: char)
    ensures
        final(s)@ == old(s)@.push(c),
{
    s.push(c)
}

/// What `char::is_alphanumeric` answers outside ASCII.
pub uninterp spec fn unicode_is_alphanumeric(c: char) -> bool;

/// A digit or a letter.
pub open spec fn is_alphanumeric(c: char) -> bool {
    if (c as u32) < 128 {
        '0' <= c <= '9' || 'a' <= c <= 'z' || 'A' <= c <= 'Z'
    } else {
        unicode_is_alphanumeric(c)
    }
}

/// Calls `char::is_alphanumeric`, whose Unicode tables are left uninterpreted outside ASCII; inside
/// ASCII it holds of the digits and the letters.
#[verifier::external_body]
pub(crate) fn char_is_alphanumeric(c: char) -> (r: bool)
    ensures
        (c as u32) < 128 ==> r == ('0' <= c <= '9' || 'a' <= c <= 'z' || 'A' <= c <= 'Z'),
        (c as u32) >= 128 ==> r == unicode_is_alphanumeric(c),
{
    c.is_alphanumeric()
}

/// What `char::is_alphabetic` answers outside ASCII.
pub uninterp spec fn unicode_is_alphabetic(c: char) -> bool;

/// A letter.
pub open spec fn is_alphabetic(c: char) -> bool {
    if (c as u32) < 128 {
        'a' <= c <= 'z' || 'A' <= c <= 'Z'
    } else {
        unicode_is_alphabetic(c)
    }
}

/// Calls `char::is_alphabetic`, whose Unicode tables are left uninterpreted outside ASCII; inside
/// ASCII it holds of the letters.
#[verifier::external_body]
pub(crate) fn char_is_alphabetic(c: char) -> (r: bool)
    ensures
        (c as u32) < 128 ==> r == ('a' <= c <= 'z' || 'A' <= c <= 'Z'),
        (c as u32) >= 128 ==> r == unicode_is_alphabetic(c),
{
    c.is_alphabetic()
}

/// What `char::is_uppercase` answers outside ASCII.
pub uninterp spec fn unicode_is_uppercase(c: char) -> bool;

/// A capital letter.
pub open spec fn is_uppercase(c: char) -> bool {
    if (c as u32) < 128 {
        'A' <= c <= 'Z'
    } else {
        unicode_is_uppercase(c)
    }
}

/// Calls `char::is_uppercase`, whose Unicode tables are left uninterpreted outside ASCII; inside
/// ASCII it holds of the capital letters.
#[verifier::external_body]
pub(crate) fn char_is_uppercase(c: char) -> (r: bool)
    ensures
        (c as u32) < 128 ==> r == ('A' <= c <= 'Z'),
        (c as u32) >= 128 ==> r == unicode_is_uppercase(c),
{
    c.is_uppercase()
}

/// A decimal digit.
pub open spec fn is_digit(c: char) -> bool {
    '0' <= c <= '9'
}

/// The value of a decimal digit.
pub open spec fn digit_value(c: char) -> nat {
    (c as int - '0' as int) as nat
}

/// The decimal digit of value `d`.
pub open spec fn digit_char(d: nat) -> char {
    (48 + d) as char
}

// ------------------------------------------------------------------ sequences

/// The texts of a list of strings.
pub open spec fn strs_v(s: Seq<String>) -> Seq<Seq<char>> {
    Seq::new(s.len(), |i: int| s[i]@)
}

/// The text of an optional string.
pub open spec fn opt_str_v(o: Option<String>) -> Option<Seq<char>> {
    match o {
        None => None,
        Some(s) => Some(s@),
    }
}

pub broadcast proof fn lemma_strs_empty()
    ensures
        #[trigger] strs_v(Seq::<String>::empty()) == Seq::<Seq<char>>::empty(),
{
    assert(strs_v(Seq::<String>::empty()) =~= Seq::<Seq<char>>::empty());
}

pub broadcast proof fn lemma_strs_push(s: Seq<String>, x: String)
    ensures
        #[trigger] strs_v(s.push(x)) == strs_v(s).push(x@),
{
    assert(strs_v(s.push(x)) =~= strs_v(s).push(x@));
}

pub fn dup_strs(v: &Vec<String>) -> (r: Vec<String>)
    ensures
        strs_v(r@) == strs_v(v@),
{
    let mut r: Vec<String> = Vec::new();
    let mut i: usize = 0;
    while i < v.len()
        invariant
            i <= v.len(),
            r.len() == i,
            forall|k: int| 0 <= k < i ==> (#[trigger] r[k])@ == v[k]@,
        decreases v.len() - i,
    {
        r.push(v[i].clone());
        i += 1;
    }
    r
}

pub fn dup_opt_str(o: &Option<String>) -> (r: Option<String>)
    ensures
        opt_str_v(r) == opt_str_v(*o),
{
    match o {
        None => None,
        Some(s) => Some(s.clone()),
    }
}

/// The characters of a text.
pub fn chars_of(s: &str) -> (r: Vec<char>)
    ensures
        r@ == s@,
{
    let mut v: Vec<char> = Vec::new();
    let mut it = s.chars();
    loop
        invariant_except_break
            v@ + vstd::std_specs::iter::IteratorSpec::remaining(&it) == s@,
            vstd::std_specs::iter::IteratorSpec::decrease(&it) is Some,
            vstd::std_specs::iter::IteratorSpec::obeys_prophetic_iter_laws(&it),
        ensures
            v@ == s@,
        decreases vstd::std_specs::iter::IteratorSpec::decrease(&it)->0,
    {
        match it.next() {
            Some(c) => {
                v.push(c);
                assert(v@ + vstd::std_specs::iter::IteratorSpec::remaining(&it) =~= s@);
            },
            None => {
                break;
            },
        }
    }
    v
}

/// Whether two texts are the same.
pub fn str_eq(a: &str, b: &str) -> (r: bool)
    ensures
        r == (a@ == b@),
{
    let x = a.to_owned();
    let y = b.to_owned();
    x.eq(&y)
}

/// The text from position `from` up to `to`.
pub fn text_between(v: &Vec<char>, from: usize, to: usize) -> (r: String)
    requires
        from <= to <= v.len(),
    ensures
        r@ == v@.subrange(from as int, to as int),
{
    let mut s = String::new();
    let mut i: usize = from;
    while i < to
        invariant
            from <= i <= to <= v.len(),
            s@ == v@.subrange(from as int, i as int),
        decreases to - i,
    {
        push_char(&mut s, v[i]);
        i += 1;
        assert(s@ =~= v@.subrange(from as int, i as int));
    }
    s
}

/// The text made of the given characters.
pub fn text_of(v: &Vec<char>) -> (r: String)
    ensures
        r@ == v@,
{
    let r = text_between(v, 0, v.len());
    assert(r@ =~= v@);
    r
}

/// The text of one character.
pub fn char_text(c: char) -> (r: String)
    ensures
        r@ == seq![c],
{
    let mut s = String::new();
    push_char(&mut s, c);
    assert(s@ =~= seq![c]);
    s
}

// ------------------------------------------------------------- concatenation

pub fn cat2(a: &str, b: &str) -> (r: String)
    ensures
        r@ == a@ + b@,
{
    let mut s = a.to_owned();
    s.append(b);
    s
}

pub fn cat3(a: &str, b: &str, c: &str) -> (r: String)
    ensures
        r@ == a@ + b@ + c@,
{
    let mut s = cat2(a, b);
    s.append(c);
    s
}

pub fn cat4(a: &str, b: &str, c: &str, d: &str) -> (r: String)
    ensures
        r@ == a@ + b@ + c@ + d@,
{
    let mut s = cat3(a, b, c);
    s.append(d);
    s
}

pub fn cat5(a: &str, b: &str, c: &str, d: &str, e: &str) -> (r: String)
    ensures
        r@ == a@ + b@ + c@ + d@ + e@,
{
    let mut s = cat4(a, b, c, d);
    s.append(e);
    s
}

pub fn cat6(a: &str, b: &str, c: &str, d: &str, e: &str, f: &str) -> (r: String)
    ensures
        r@ == a@ + b@ + c@ + d@ + e@ + f@,
{
    let mut s = cat5(a, b, c, d, e);
    s.append(f);
    s
}

pub fn cat7(a: &str, b: &str, c: &str, d: &str, e: &str, f: &str, g: &str) -> (r: String)
    ensures
        r@ == a@ + b@ + c@ + d@ + e@ + f@ + g@,
{
    let mut s = cat6(a, b, c, d, e, f);
    s.append(g);
    s
}

/// The parts one after the other, `sep` between each two of them, starting at part `i`.
pub open spec fn join_from(
    parts: Seq<Seq<char>>,
    sep: Seq<char>,
    i: int,
    acc: Seq<char>,
) -> Seq<char>
    decreases parts.len() - i,
{
    if 0 <= i < parts.len() {
        join_from(
            parts,
            sep,
            i + 1,
            if i == 0 {
                acc + parts[i]
            } else {
                acc + sep + parts[i]
            },
        )
    } else {
        acc
    }
}

/// The parts one after the other, `sep` between each two of them.
pub open spec fn join_v(parts: Seq<Seq<char>>, sep: Seq<char>) -> Seq<char> {
    join_from(parts, sep, 0, Seq::empty())
}

/// One more part stands behind the others.
pub proof fn lemma_joined(
    parts: Seq<Seq<char>>,
    part: Seq<char>,
    sep: Seq<char>,
    i: int,
    acc: Seq<char>,
)
    requires
        0 <= i <= parts.len(),
    ensures
        join_from(parts.push(part), sep, i, acc) == join_from(parts, sep, i, acc) + (if parts.len()
            == 0 {
            Seq::empty()
        } else {
            sep
        }) + part,
    decreases parts.len() - i,
{
    let more = parts.push(part);
    if i < parts.len() {
        assert(more[i] == parts[i]);
        let next = if i == 0 {
            acc + parts[i]
        } else {
            acc + sep + parts[i]
        };
        lemma_joined(parts, part, sep, i + 1, next);
    } else {
        let next = if i == 0 {
            acc + part
        } else {
            acc + sep + part
        };
        assert(join_from(more, sep, i, acc) == join_from(more, sep, i + 1, next));
        assert(join_from(more, sep, i + 1, next) == next);
        assert(acc + Seq::<char>::empty() + part =~= acc + part);
    }
}

pub fn join(parts: &Vec<String>, sep: &str) -> (r: String)
    ensures
        r@ == join_v(strs_v(parts@), sep@),
{
    let mut s = String::new();
    let mut i: usize = 0;
    while i < parts.len()
        invariant
            i <= parts.len(),
            join_v(strs_v(parts@), sep@) == join_from(strs_v(parts@), sep@, i as int, s@),
        decreases parts.len() - i,
    {
        if i > 0 {
            s.append(sep);
        }
        s.append(&parts[i]);
        i += 1;
    }
    s
}

// -------------------------------------------------------------- decimal text

/// The decimal digits of a natural number.
pub open spec fn nat_text(n: nat) -> Seq<char>
    decreases n,
{
    if n < 10 {
        seq![digit_char(n)]
    } else {
        nat_text(n / 10).push(digit_char(n % 10))
    }
}

/// The decimal text of an integer.
pub open spec fn int_text(n: int) -> Seq<char> {
    if n < 0 {
        "-"@ + nat_text((-n) as nat)
    } else {
        nat_text(n as nat)
    }
}

pub fn show_u128(n: u128) -> (r: String)
    ensures
        r@ == nat_text(n as nat),
    decreases n,
{
    let d: u8 = 48u8 + (n % 10) as u8;
    if n < 10 {
        char_text(d as char)
    } else {
        let mut s = show_u128(n / 10);
        push_char(&mut s, d as char);
        s
    }
}

pub fn show_u64(n: u64) -> (r: String)
    ensures
        r@ == nat_text(n as nat),
{
    show_u128(n as u128)
}

pub fn show_usize(n: usize) -> (r: String)
    ensures
        r@ == nat_text(n as nat),
{
    show_u64(n as u64)
}

pub fn show_i64(n: i64) -> (r: String)
    ensures
        r@ == int_text(n as int),
{
    if n < 0 {
        let m: u64 = if n == i64::MIN {
            9223372036854775808u64
        } else {
            (-n) as u64
        };
        cat2("-", &show_u64(m))
    } else {
        show_u64(n as u64)
    }
}

/// The number that a run of decimal digits writes.
pub open spec fn digits_value(s: Seq<char>) -> nat
    decreases s.len(),
{
    if s.len() == 0 {
        0
    } else {
        digits_value(s.drop_last()) * 10 + digit_value(s.last())
    }
}

/// The value of a run of digits, or zero if it is over `i64::MAX`.
pub open spec fn int_literal_value(s: Seq<char>) -> int {
    if digits_value(s) <= i64::MAX {
        digits_value(s) as int
    } else {
        0
    }
}

proof fn lemma_digits_prefix(s: Seq<char>, i: int)
    requires
        0 <= i <= s.len(),
    ensures
        digits_value(s.take(i)) <= digits_value(s),
    decreases s.len(),
{
    if i == s.len() {
        assert(s.take(i) =~= s);
    } else {
        lemma_digits_prefix(s.drop_last(), i);
        assert(s.drop_last().take(i) =~= s.take(i));
    }
}

pub fn parse_int_literal(v: &Vec<char>) -> (r: i64)
    requires
        forall|k: int| 0 <= k < v.len() ==> is_digit(#[trigger] v[k]),
    ensures
        r == int_literal_value(v@),
{
    let mut n: u64 = 0;
    let mut i: usize = 0;
    assert(v@.take(0) =~= Seq::empty());
    while i < v.len()
        invariant
            i <= v.len(),
            forall|k: int| 0 <= k < v.len() ==> is_digit(#[trigger] v[k]),
            n == digits_value(v@.take(i as int)),
            n <= i64::MAX,
        decreases v.len() - i,
    {
        let c: char = v[i];
        let d: u64 = (c as u32 - '0' as u32) as u64;
        proof {
            assert(v@.take(i + 1).drop_last() =~= v@.take(i as int));
            assert(digits_value(v@.take(i + 1)) == n * 10 + d);
            lemma_digits_prefix(v@, i + 1);
        }
        let m: u128 = (n as u128) * 10 + d as u128;
        if m > i64::MAX as u128 {
            return 0;
        }
        n = m as u64;
        i += 1;
    }
    assert(v@.take(v.len() as int) =~= v@);
    n as i64
}

/// Whether the one text stands in the other.
pub open spec fn has_text(s: Seq<char>, part: Seq<char>) -> bool {
    exists|i: int| #[trigger] text_at(s, part, i)
}

/// Whether the one text stands in the other at `i`.
pub open spec fn text_at(s: Seq<char>, part: Seq<char>, i: int) -> bool {
    0 <= i && i + part.len() <= s.len() && s.subrange(i, i + part.len()) == part
}

/// Whether the one text stands in the other at `i`.
pub fn is_text_at(s: &Vec<char>, part: &Vec<char>, i: usize) -> (r: bool)
    ensures
        r == text_at(s@, part@, i as int),
{
    if part.len() > s.len() || i > s.len() - part.len() {
        return false;
    }
    let mut k: usize = 0;
    while k < part.len()
        invariant
            k <= part.len(),
            i + part.len() <= s.len(),
            forall|j: int| 0 <= j < k ==> s@[i + j] == #[trigger] part@[j],
        decreases part.len() - k,
    {
        if s[i + k] != part[k] {
            assert(s@.subrange(i as int, i + part.len())[k as int] != part@[k as int]);
            return false;
        }
        k = k + 1;
    }
    assert(s@.subrange(i as int, i + part.len()) =~= part@);
    true
}

/// Whether the one text stands in the other.
pub fn contains_text(s: &str, part: &str) -> (r: bool)
    ensures
        r == has_text(s@, part@),
{
    let v = chars_of(s);
    let p = chars_of(part);
    let mut i: usize = 0;
    while i < v.len()
        invariant
            i <= v.len(),
            v@ == s@,
            p@ == part@,
            forall|j: int| 0 <= j < i ==> !#[trigger] text_at(s@, part@, j),
        decreases v.len() - i,
    {
        if is_text_at(&v, &p, i) {
            return true;
        }
        i = i + 1;
    }
    is_text_at(&v, &p, i)
}

/// Whether a character has the White_Space property of Unicode.
pub open spec fn is_whitespace(c: char) -> bool {
    ||| '\u{9}' <= c <= '\u{d}'
    ||| c == ' '
    ||| c == '\u{85}'
    ||| c == '\u{a0}'
    ||| c == '\u{1680}'
    ||| '\u{2000}' <= c <= '\u{200a}'
    ||| c == '\u{2028}'
    ||| c == '\u{2029}'
    ||| c == '\u{202f}'
    ||| c == '\u{205f}'
    ||| c == '\u{3000}'
}

/// Whether a character has the White_Space property of Unicode.
pub fn char_is_whitespace(c: char) -> (r: bool)
    ensures
        r == is_whitespace(c),
{
    ('\u{9}' <= c && c <= '\u{d}') || c == ' ' || c == '\u{85}' || c == '\u{a0}' || c == '\u{1680}'
        || ('\u{2000}' <= c && c <= '\u{200a}') || c == '\u{2028}' || c == '\u{2029}'
        || c == '\u{202f}' || c == '\u{205f}' || c == '\u{3000}'
}

/// Where the text from `i` on begins behind its white space.
pub open spec fn blank_end(s: Seq<char>, i: int) -> int
    decreases s.len() - i,
{
    if 0 <= i < s.len() && is_whitespace(s[i]) {
        blank_end(s, i + 1)
    } else {
        i
    }
}

/// Where the text up to `j` ends before its white space.
pub open spec fn blank_start(s: Seq<char>, j: int) -> int
    decreases j,
{
    if 0 < j <= s.len() && is_whitespace(s[j - 1]) {
        blank_start(s, j - 1)
    } else {
        j
    }
}

/// A text without the white space at its ends.
pub open spec fn trimmed(s: Seq<char>) -> Seq<char> {
    let i = blank_end(s, 0);
    let j = blank_start(s, s.len() as int);
    if i < j {
        s.subrange(i, j)
    } else {
        Seq::empty()
    }
}

/// A text without the white space at its ends.
pub fn trim(s: &str) -> (r: String)
    ensures
        r@ == trimmed(s@),
{
    let v = chars_of(s);
    let mut i: usize = 0;
    while i < v.len() && char_is_whitespace(v[i])
        invariant
            i <= v.len(),
            v@ == s@,
            blank_end(s@, 0) == blank_end(s@, i as int),
        decreases v.len() - i,
    {
        i = i + 1;
    }
    let mut j: usize = v.len();
    while j > 0 && char_is_whitespace(v[j - 1])
        invariant
            j <= v.len(),
            v@ == s@,
            blank_start(s@, s@.len() as int) == blank_start(s@, j as int),
        decreases j,
    {
        j = j - 1;
    }
    if i < j {
        text_between(&v, i, j)
    } else {
        String::new()
    }
}

} // verus!
