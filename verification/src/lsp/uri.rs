//! The file that a document's address names.
use vstd::prelude::*;

verus! {

use crate::driver::search_order;
use crate::text::{chars_of, is_text_at, opt_str_v, strs_v, text_at, text_between};

/// The path of an address: what is behind `file://`, or the whole address.
pub open spec fn uri_path(uri: Seq<char>) -> Seq<char> {
    if text_at(uri, "file://"@, 0) {
        uri.skip("file://"@.len() as int)
    } else {
        uri
    }
}

/// Where a path ends before the separators in front of `end`.
pub open spec fn before_slashes(p: Seq<char>, end: int) -> int
    decreases end,
{
    if 0 < end <= p.len() && p[end - 1] == '/' {
        before_slashes(p, end - 1)
    } else {
        end
    }
}

/// Where the component begins that ends at `end`.
pub open spec fn component_start(p: Seq<char>, end: int) -> int
    decreases end,
{
    if 0 < end <= p.len() && p[end - 1] != '/' {
        component_start(p, end - 1)
    } else {
        end
    }
}

pub proof fn lemma_component_bounds(p: Seq<char>, end: int)
    requires
        0 <= end <= p.len(),
    ensures
        0 <= before_slashes(p, end) <= end,
        0 <= component_start(p, end) <= end,
    decreases end,
{
    if end > 0 {
        lemma_component_bounds(p, end - 1);
    }
}

/// The last component of a path up to `end`. A `.` counts only at the start of the path.
pub open spec fn last_component(p: Seq<char>, end: int) -> Option<(int, int)>
    decreases end,
{
    if end < 0 || end > p.len() {
        None
    } else {
        let e = before_slashes(p, end);
        let b = component_start(p, e);
        proof {
            lemma_component_bounds(p, end);
            lemma_component_bounds(p, e);
        }
        if b >= e {
            None
        } else if 0 < b && p.subrange(b, e) == seq!['.'] {
            last_component(p, b)
        } else {
            Some((b, e))
        }
    }
}

/// Where the last dot of a text stands before `i`.
pub open spec fn last_dot(s: Seq<char>, i: int) -> Option<int>
    decreases i,
{
    if i <= 0 || i > s.len() {
        None
    } else if s[i - 1] == '.' {
        Some(i - 1)
    } else {
        last_dot(s, i - 1)
    }
}

/// A file name without its extension. A dot at the start begins no extension.
pub open spec fn stem(name: Seq<char>) -> Seq<char> {
    match last_dot(name, name.len() as int) {
        Some(i) => if i > 0 {
            name.take(i)
        } else {
            name
        },
        None => name,
    }
}

/// The file name of a path without its extension, or `main` where it has none.
pub open spec fn stem_of(p: Seq<char>) -> Seq<char> {
    match last_component(p, p.len() as int) {
        None => "main"@,
        Some((b, e)) => {
            let name = p.subrange(b, e);
            if name == seq!['.'] || name == seq!['.', '.'] {
                "main"@
            } else {
                stem(name)
            }
        },
    }
}

/// The directory of a path.
pub open spec fn parent_of(p: Seq<char>) -> Option<Seq<char>> {
    match last_component(p, p.len() as int) {
        None => None,
        Some((b, _)) => match last_component(p, b) {
            Some((_, e)) => Some(p.take(e)),
            None => if p[0] == '/' {
                Some("/"@)
            } else {
                Some(Seq::empty())
            },
        },
    }
}

fn path_chars(uri: &str) -> (r: Vec<char>)
    ensures
        r@ == uri_path(uri@),
{
    let v = chars_of(uri);
    let prefix = chars_of("file://");
    if is_text_at(&v, &prefix, 0) {
        let mut out: Vec<char> = Vec::new();
        let mut i: usize = prefix.len();
        while i < v.len()
            invariant
                v@ == uri@,
                prefix@ == "file://"@,
                prefix.len() <= i <= v.len(),
                out@ == uri@.subrange(prefix.len() as int, i as int),
            decreases v.len() - i,
        {
            out.push(v[i]);
            i = i + 1;
            assert(out@ =~= uri@.subrange(prefix.len() as int, i as int));
        }
        assert(out@ =~= uri@.skip("file://"@.len() as int));
        out
    } else {
        v
    }
}

fn find_component(p: &Vec<char>, end: usize) -> (r: Option<(usize, usize)>)
    requires
        end <= p.len(),
    ensures
        match r {
            Some((b, e)) => last_component(p@, end as int) == Some((b as int, e as int)) && b < e
                && e <= end,
            None => last_component(p@, end as int) is None,
        },
    decreases end,
{
    let mut e: usize = end;
    while e > 0 && p[e - 1] == '/'
        invariant
            e <= end <= p.len(),
            before_slashes(p@, end as int) == before_slashes(p@, e as int),
        decreases e,
    {
        e = e - 1;
    }
    let mut b: usize = e;
    while b > 0 && p[b - 1] != '/'
        invariant
            b <= e <= p.len(),
            component_start(p@, e as int) == component_start(p@, b as int),
        decreases b,
    {
        b = b - 1;
    }
    if b >= e {
        return None;
    }
    if b > 0 && e - b == 1 && p[b] == '.' {
        assert(p@.subrange(b as int, e as int) =~= seq!['.']);
        return find_component(p, b);
    }
    proof {
        let name = p@.subrange(b as int, e as int);
        assert(name.len() == e - b && name[0] == p@[b as int]);
        if name == seq!['.'] {
            assert(name.len() == 1 && name[0] == '.');
        }
    }
    Some((b, e))
}

/// The name of the module in a document: its file name without the extension, or `main`.
pub fn file_stem(uri: &str) -> (r: String)
    ensures
        r@ == stem_of(uri_path(uri@)),
{
    let p = path_chars(uri);
    match find_component(&p, p.len()) {
        None => "main".to_owned(),
        Some((b, e)) => {
            let ghost name = p@.subrange(b as int, e as int);
            assert(name.len() == e - b);
            if e - b == 1 && p[b] == '.' {
                assert(name =~= seq!['.']);
                return "main".to_owned();
            }
            if e - b == 2 && p[b] == '.' && p[b + 1] == '.' {
                assert(name =~= seq!['.', '.']);
                return "main".to_owned();
            }
            assert(name[0] == p@[b as int]);
            assert(e - b == 2 ==> name[1] == p@[b + 1]);
            let mut i: usize = e;
            while i > b && p[i - 1] != '.'
                invariant
                    b <= i <= e <= p.len(),
                    name == p@.subrange(b as int, e as int),
                    last_dot(name, e - b) == last_dot(name, i - b),
                decreases i,
            {
                assert(name[i - b - 1] == p@[i - 1]);
                i = i - 1;
            }
            if i > b {
                assert(name[i - b - 1] == p@[i - 1]);
            }
            if i > b + 1 {
                assert(p@.subrange(b as int, i - 1) =~= name.take(i - b - 1));
                text_between(&p, b, i - 1)
            } else {
                text_between(&p, b, e)
            }
        },
    }
}

/// Where the modules of a document are looked for: in its directory, then in the working
/// directory.
pub fn search_paths(uri: &str) -> (r: Vec<String>)
    ensures
        strs_v(r@) == search_order(parent_of(uri_path(uri@)), Seq::empty()),
{
    let p = path_chars(uri);
    let dir: Option<String> = match find_component(&p, p.len()) {
        None => None,
        Some((b, _)) => match find_component(&p, b) {
            Some((_, e)) => {
                assert(p@.subrange(0, e as int) =~= p@.take(e as int));
                Some(text_between(&p, 0, e))
            },
            None => if p[0] == '/' {
                Some("/".to_owned())
            } else {
                Some(String::new())
            },
        },
    };
    assert(opt_str_v(dir) == parent_of(uri_path(uri@)));
    let libs: Vec<String> = Vec::new();
    assert(strs_v(libs@) =~= Seq::empty());
    crate::driver::search_paths(dir, &libs)
}


// ----------------------------------------------------------------------------- laws

proof fn lemma_component_at(p: Seq<char>, b: int, e: int)
    requires
        0 <= b <= e <= p.len(),
        forall|i: int| b <= i < e ==> #[trigger] p[i] != '/',
        b > 0 ==> p[b - 1] == '/',
    ensures
        component_start(p, e) == b,
    decreases e - b,
{
    if b < e {
        lemma_component_at(p, b, e - 1);
    }
}

proof fn lemma_dot_at(s: Seq<char>, k: int, i: int)
    requires
        0 <= k < i <= s.len(),
        s[k] == '.',
        forall|j: int| k < j < i ==> #[trigger] s[j] != '.',
    ensures
        last_dot(s, i) == Some(k),
    decreases i - k,
{
    if k + 1 < i {
        lemma_dot_at(s, k, i - 1);
    }
}

/// A file in a directory has that directory, and is named without its extension.
pub proof fn law_file_in_a_directory(dir: Seq<char>, name: Seq<char>, ext: Seq<char>)
    requires
        dir.len() > 0,
        dir.last() != '/' && dir.last() != '.',
        name.len() > 0,
        forall|i: int| 0 <= i < name.len() ==> #[trigger] name[i] != '/',
        forall|i: int| 0 <= i < ext.len() ==> #[trigger] ext[i] != '/' && ext[i] != '.',
        ext.len() > 0,
    ensures
        parent_of(dir + seq!['/'] + name + seq!['.'] + ext) == Some(dir),
        stem_of(dir + seq!['/'] + name + seq!['.'] + ext) == name,
{
    let p = dir + seq!['/'] + name + seq!['.'] + ext;
    let file = name + seq!['.'] + ext;
    let d = dir.len() as int;
    let b: int = d + 1;
    let e = p.len() as int;
    assert(p.subrange(b, e) =~= file);
    assert forall|i: int| b <= i < e implies #[trigger] p[i] != '/' by {
        assert(p[i] == file[i - b]);
    }
    assert(p[d] == '/');
    assert(p[d - 1] == dir.last());
    lemma_component_at(p, b, e);
    assert(before_slashes(p, e) == e);
    assert(file.len() >= 3);
    assert(seq!['.'].len() == 1 && seq!['.', '.'].len() == 2);
    assert(last_component(p, e) == Some((b, e)));
    assert(before_slashes(p, b) == before_slashes(p, d));
    assert(before_slashes(p, d) == d);
    lemma_component_bounds(p, d);
    let c = component_start(p, d);
    assert(component_start(p, d) == component_start(p, d - 1));
    lemma_component_bounds(p, d - 1);
    if p.subrange(c, d) == seq!['.'] {
        assert(p.subrange(c, d)[0] == '.');
        assert(p[c] == '.');
        assert(p.subrange(c, d).len() == 1);
        assert(c == d - 1);
    }
    assert(last_component(p, b) == Some((c, d)));
    assert(p.take(d) =~= dir);
    assert(file[name.len() as int] == '.');
    lemma_dot_at(file, name.len() as int, file.len() as int);
    assert(file.take(name.len() as int) =~= name);
}

} // verus!
