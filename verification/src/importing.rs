//! What an import brings: the items of the module that it names, found where the search
//! paths say.
use vstd::prelude::*;

verus! {

use crate::host::{FileV, HostV, StopV, file_at, joined_path};
use crate::import_macro::{
    all_selected, dot_parts, export_name, export_place, exports, found_below, module_text, selected,
};
use crate::model::{ExprKindV, ExprV, FunctionV, ItemV};
use crate::text::{join_v, lemma_joined};

// ----------------------------------------------------------------------- the file

/// A path below the first directory that has it is the one that is read; directories behind
/// that one are not asked.
pub proof fn law_first_directory_wins(
    h: HostV,
    dirs: Seq<Seq<char>>,
    path: Seq<char>,
    i: int,
    k: int,
    f: FileV,
)
    requires
        0 <= i <= k < dirs.len(),
        forall|j: int|
            i <= j < k ==> file_at(h, joined_path(#[trigger] dirs[j], path)) == Ok::<FileV, StopV>(
                FileV::Missing,
            ),
        file_at(h, joined_path(dirs[k], path)) == Ok::<FileV, StopV>(f),
        f !is Missing,
    ensures
        found_below(h, dirs, path, i) == Ok::<Option<FileV>, StopV>(Some(f)),
    decreases k - i,
{
    if i < k {
        assert(file_at(h, joined_path(dirs[i], path)) == Ok::<FileV, StopV>(FileV::Missing));
        law_first_directory_wins(h, dirs, path, i + 1, k, f);
    }
}

/// A path that no directory has is not found.
pub proof fn law_nowhere(h: HostV, dirs: Seq<Seq<char>>, path: Seq<char>, i: int)
    requires
        0 <= i <= dirs.len(),
        forall|j: int|
            i <= j < dirs.len() ==> file_at(h, joined_path(#[trigger] dirs[j], path)) == Ok::<
                FileV,
                StopV,
            >(FileV::Missing),
    ensures
        found_below(h, dirs, path, i) == Ok::<Option<FileV>, StopV>(None),
    decreases dirs.len() - i,
{
    if i < dirs.len() {
        assert(file_at(h, joined_path(dirs[i], path)) == Ok::<FileV, StopV>(FileV::Missing));
        law_nowhere(h, dirs, path, i + 1);
    }
}

/// A text with slashes for its dots.
pub open spec fn with_slashes(s: Seq<char>) -> Seq<char> {
    Seq::new(
        s.len(),
        |i: int|
            if s[i] == '.' {
                '/'
            } else {
                s[i]
            },
    )
}

spec fn put_together(acc: Seq<Seq<char>>, cur: Seq<char>) -> Seq<char> {
    join_v(acc, "/"@) + (if acc.len() == 0 {
        Seq::empty()
    } else {
        "/"@
    }) + cur
}

proof fn lemma_slashes(s: Seq<char>, i: int, cur: Seq<char>, acc: Seq<Seq<char>>)
    requires
        0 <= i <= s.len(),
        put_together(acc, cur) == with_slashes(s.take(i)),
    ensures
        join_v(dot_parts(s, i, cur, acc), "/"@) == with_slashes(s),
    decreases s.len() - i,
{
    reveal_strlit("/");
    lemma_joined(acc, cur, "/"@, 0, Seq::empty());
    assert(join_v(acc.push(cur), "/"@) == put_together(acc, cur));
    if i < s.len() {
        assert(s.take(i + 1) =~= s.take(i).push(s[i]));
        if s[i] == '.' {
            let none = Seq::<char>::empty();
            assert(put_together(acc.push(cur), none) =~= with_slashes(s.take(i)).push('/'));
            assert(with_slashes(s.take(i)).push('/') =~= with_slashes(s.take(i + 1)));
            lemma_slashes(s, i + 1, none, acc.push(cur));
        } else {
            assert(put_together(acc, cur.push(s[i])) =~= put_together(acc, cur).push(s[i]));
            assert(with_slashes(s.take(i)).push(s[i]) =~= with_slashes(s.take(i + 1)));
            lemma_slashes(s, i + 1, cur.push(s[i]), acc);
        }
    } else {
        assert(s.take(i) =~= s);
    }
}

/// The module `foo.bar` is read from `foo/bar.nv` where the search paths have it.
pub proof fn law_module_is_read(
    h: HostV,
    dirs: Seq<Seq<char>>,
    module: Seq<char>,
    k: int,
    text: Seq<char>,
)
    requires
        0 <= k < dirs.len(),
        forall|j: int|
            0 <= j < k ==> file_at(h, joined_path(#[trigger] dirs[j], with_slashes(module) + ".nv"@))
                == Ok::<FileV, StopV>(FileV::Missing),
        file_at(h, joined_path(dirs[k], with_slashes(module) + ".nv"@)) == Ok::<FileV, StopV>(
            FileV::Text(text),
        ),
    ensures
        module_text(h, dirs, module) == Ok::<Seq<char>, StopV>(text),
{
    let none = Seq::<char>::empty();
    assert(put_together(Seq::empty(), none) =~= with_slashes(module.take(0)));
    lemma_slashes(module, 0, none, Seq::empty());
    law_first_directory_wins(h, dirs, with_slashes(module) + ".nv"@, 0, k, FileV::Text(text));
}

// ---------------------------------------------------------------------- the items

/// An item is the last of its name among the first `n`.
pub open spec fn is_last(items: Seq<ItemV>, k: int, n: int) -> bool {
    &&& 0 <= k < n <= items.len()
    &&& export_name(items[k]) is Some
    &&& forall|j: int| k < j < n ==> export_name(#[trigger] items[j]) != export_name(items[k])
}

/// The item is one of these, and the last of its name among the first `n`.
pub open spec fn comes_from(x: ItemV, items: Seq<ItemV>, n: int) -> bool {
    exists|k: int| #[trigger] is_last(items, k, n) && x == items[k]
}

/// One of these items has the name.
pub open spec fn has_name(xs: Seq<ItemV>, name: Seq<char>) -> bool {
    exists|j: int| 0 <= j < xs.len() && export_name(#[trigger] xs[j]) == Some(name)
}

/// What the first `n` items export: of each name the last item, once.
pub open spec fn exported(items: Seq<ItemV>, n: int, xs: Seq<ItemV>) -> bool {
    &&& forall|j: int| 0 <= j < xs.len() ==> comes_from(#[trigger] xs[j], items, n)
    &&& forall|a: int, b: int|
        0 <= a < b < xs.len() ==> export_name(#[trigger] xs[a]) != export_name(#[trigger] xs[b])
    &&& forall|k: int|
        0 <= k < n ==> (export_name(#[trigger] items[k]) matches Some(name) ==> has_name(xs, name))
}

proof fn lemma_place(xs: Seq<ItemV>, name: Seq<char>, i: int)
    requires
        0 <= i <= xs.len(),
    ensures
        match export_place(xs, name, i) {
            Some(k) => i <= k < xs.len() && export_name(xs[k]) == Some(name),
            None => forall|j: int|
                i <= j < xs.len() ==> export_name(#[trigger] xs[j]) != Some(name),
        },
    decreases xs.len() - i,
{
    if i < xs.len() && export_name(xs[i]) != Some(name) {
        lemma_place(xs, name, i + 1);
    }
}

proof fn lemma_exports(items: Seq<ItemV>, i: int, acc: Seq<ItemV>)
    requires
        0 <= i <= items.len(),
        exported(items, i, acc),
    ensures
        exported(items, items.len() as int, exports(items, i, acc)),
    decreases items.len() - i,
{
    if i < items.len() {
        let x = items[i];
        let next = match export_name(x) {
            None => acc,
            Some(n) => match export_place(acc, n, 0) {
                Some(k) => acc.update(k, x),
                None => acc.push(x),
            },
        };
        if let Some(n) = export_name(x) {
            lemma_place(acc, n, 0);
            assert(is_last(items, i, i + 1));
        }
        assert forall|j: int| 0 <= j < next.len() implies comes_from(
            #[trigger] next[j],
            items,
            i + 1,
        ) by {
            if j < acc.len() && next[j] == acc[j] && export_name(acc[j]) != export_name(x) {
                let k = choose|k: int| #[trigger] is_last(items, k, i) && acc[j] == items[k];
                assert(is_last(items, k, i + 1));
            } else {
                if j < acc.len() && export_name(x) is None {
                    let k = choose|k: int| #[trigger] is_last(items, k, i) && acc[j] == items[k];
                    assert(is_last(items, k, i + 1));
                } else {
                    assert(next[j] == x) by {
                        let n = export_name(x)->Some_0;
                        if let Some(k) = export_place(acc, n, 0) {
                            if j != k {
                                assert(export_name(acc[j]) == export_name(acc[k]));
                            }
                        }
                    }
                    assert(is_last(items, i, i + 1));
                }
            }
        }
        assert forall|k: int| 0 <= k < i + 1 implies (export_name(#[trigger] items[k]) matches Some(
            name,
        ) ==> has_name(next, name)) by {
            if let Some(name) = export_name(items[k]) {
                if k < i {
                    assert(has_name(acc, name));
                    let j = choose|j: int|
                        0 <= j < acc.len() && export_name(#[trigger] acc[j]) == Some(name);
                    assert(export_name(next[j]) == Some(name));
                } else {
                    match export_place(acc, name, 0) {
                        Some(j) => {
                            assert(export_name(next[j]) == Some(name));
                        },
                        None => {
                            assert(export_name(next[acc.len() as int]) == Some(name));
                        },
                    }
                }
            }
        }
        lemma_exports(items, i + 1, next);
    }
}

/// A module exports the items that have a name and may be seen, each of them once; of
/// several of one name it exports the last.
pub proof fn law_exports(items: Seq<ItemV>)
    ensures
        exported(items, items.len() as int, exports(items, 0, Seq::empty())),
{
    lemma_exports(items, 0, Seq::empty());
}

/// A function is exported only where it is public.
pub proof fn law_private_functions_stay(items: Seq<ItemV>, j: int, f: FunctionV)
    requires
        0 <= j < exports(items, 0, Seq::empty()).len(),
        exports(items, 0, Seq::empty())[j] == ItemV::Function(f),
    ensures
        f.is_pub,
{
    law_exports(items);
    let xs = exports(items, 0, Seq::empty());
    assert(comes_from(xs[j], items, items.len() as int));
}

/// The item that is asked for by its name is the last of that name in the module, and is
/// brought as it is or, where another name is given for it, under that name.
pub proof fn law_asked_by_name(
    items: Seq<ItemV>,
    k: int,
    name: Seq<char>,
    alias: Seq<char>,
    arg: ExprV,
    module: Seq<char>,
)
    requires
        is_last(items, k, items.len() as int),
        export_name(items[k]) == Some(name),
    ensures
        arg.kind == ExprKindV::Ident(name) || arg.kind == ExprKindV::StringLiteral(name)
            ==> selected(exports(items, 0, Seq::empty()), arg, module) == Ok::<ItemV, StopV>(
            items[k],
        ),
        (arg.kind matches ExprKindV::Assign { target, value } && target.kind == ExprKindV::Ident(
            name,
        ) && value.kind == ExprKindV::Ident(alias)) && !(items[k] is VarDecl || items[k] is Macro)
            ==> (selected(exports(items, 0, Seq::empty()), arg, module) matches Ok(x)
            && export_name(x) == Some(alias)),
{
    law_exports(items);
    let xs = exports(items, 0, Seq::empty());
    assert(has_name(xs, name));
    lemma_place(xs, name, 0);
    let j = export_place(xs, name, 0)->Some_0;
    assert(comes_from(xs[j], items, items.len() as int));
    let m = choose|m: int| #[trigger] is_last(items, m, items.len() as int) && xs[j] == items[m];
    assert(m == k) by {
        if m < k {
            assert(export_name(items[k]) != export_name(items[m]));
        }
        if k < m {
            assert(export_name(items[m]) != export_name(items[k]));
        }
    }
}

/// A name that no item of the module exports is refused.
pub proof fn law_unknown_name_is_refused(
    items: Seq<ItemV>,
    name: Seq<char>,
    arg: ExprV,
    module: Seq<char>,
)
    requires
        forall|k: int| 0 <= k < items.len() ==> export_name(#[trigger] items[k]) != Some(name),
        arg.kind == ExprKindV::Ident(name) || arg.kind == ExprKindV::StringLiteral(name),
    ensures
        selected(exports(items, 0, Seq::empty()), arg, module) is Err,
{
    law_exports(items);
    let xs = exports(items, 0, Seq::empty());
    lemma_place(xs, name, 0);
    if let Some(j) = export_place(xs, name, 0) {
        assert(comes_from(xs[j], items, items.len() as int));
    }
}

/// An import brings one item for each name that is asked for, in their order.
pub proof fn law_each_that_is_asked(
    xs: Seq<ItemV>,
    args: Seq<ExprV>,
    i: int,
    module: Seq<char>,
    acc: Seq<ItemV>,
)
    requires
        0 <= i <= args.len(),
    ensures
        match all_selected(xs, args, i, module, acc) {
            Ok(r) => {
                &&& r.len() == acc.len() + args.len() - i
                &&& r.take(acc.len() as int) == acc
                &&& forall|j: int|
                    i <= j < args.len() ==> selected(xs, #[trigger] args[j], module) == Ok::<
                        ItemV,
                        StopV,
                    >(r[acc.len() + j - i])
            },
            Err(_) => exists|j: int|
                i <= j < args.len() && selected(xs, #[trigger] args[j], module) is Err,
        },
    decreases args.len() - i,
{
    if i < args.len() {
        match selected(xs, args[i], module) {
            Ok(x) => {
                law_each_that_is_asked(xs, args, i + 1, module, acc.push(x));
                if let Ok(r) = all_selected(xs, args, i, module, acc) {
                    assert(r.take(acc.len() as int) =~= r.take(acc.push(x).len() as int).take(
                        acc.len() as int,
                    ));
                    assert(acc.push(x).take(acc.len() as int) =~= acc);
                    assert(r[acc.len() as int] == r.take(acc.push(x).len() as int)[acc.len() as int]);
                }
            },
            Err(_) => {
                assert(selected(xs, args[i], module) is Err);
            },
        }
    } else {
        assert(acc.take(acc.len() as int) =~= acc);
    }
}

} // verus!
