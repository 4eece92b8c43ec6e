//! The built-in macro behind `@import`:
//!
//! - `@import("std.io")` brings everything public,
//! - `@import("std.io", print)` or `@import("std.io", "print")` one item,
//! - `@import("std.io", print = display)` or `@import("std.io", "print" => "display")` one
//!   item under another name.
use vstd::prelude::*;

verus! {

use crate::ast::{Expr, ExprKind, Item};
use crate::debug::{debug_strs, show_debug_strs};
use crate::error::{CompileError, CompileErrorV};
use crate::host::{FileState, FileV, Host, HostV, Stop, StopV, file_at, join_path, joined_path, ran};
use crate::interp_model::{fails, renamed};
use crate::interpreter::rename_item;
use crate::model::{
    ExprKindV, ExprV, ItemV, enum_v, expr_kind_v, expr_v, exprs_v, function_v, group_list_views,
    item_v, items_v, macro_def_v, module_v, struct_v, type_alias_v, var_decl_v,
};
use crate::source::{parse_source, parsed};
use crate::text::{
    cat2, cat3, cat4, cat5, chars_of, join, join_from, join_v, opt_str_v, str_eq, strs_v, text_of,
};
use crate::token::Span;

broadcast use group_list_views;

// -------------------------------------------------------------------------- the model

/// The parts between the dots of a text from `i` on, behind those of `acc`; `cur` is the
/// part that is being read.
pub open spec fn dot_parts(s: Seq<char>, i: int, cur: Seq<char>, acc: Seq<Seq<char>>) -> Seq<
    Seq<char>,
>
    decreases s.len() - i,
{
    if 0 <= i < s.len() {
        if s[i] == '.' {
            dot_parts(s, i + 1, Seq::empty(), acc.push(cur))
        } else {
            dot_parts(s, i + 1, cur.push(s[i]), acc)
        }
    } else {
        acc.push(cur)
    }
}

/// What is known of the first of the paths `path` below the directories from `i` on that
/// is there.
pub open spec fn found_below(h: HostV, dirs: Seq<Seq<char>>, path: Seq<char>, i: int) -> Result<
    Option<FileV>,
    StopV,
>
    decreases dirs.len() - i,
{
    if 0 <= i < dirs.len() {
        match file_at(h, joined_path(dirs[i], path)) {
            Err(s) => Err(s),
            Ok(FileV::Missing) => found_below(h, dirs, path, i + 1),
            Ok(f) => Ok(Some(f)),
        }
    } else {
        Ok(None)
    }
}

/// The text of a file that is known.
pub open spec fn text_or_error(f: FileV, module: Seq<char>) -> Result<Seq<char>, StopV> {
    match f {
        FileV::Text(t) => Ok(t),
        FileV::Unreadable(why) => Err(
            StopV::Error(CompileErrorV::Generic("Cannot read '"@ + module + "': "@ + why)),
        ),
        FileV::Missing => Err(
            StopV::Error(CompileErrorV::Generic("Cannot read '"@ + module + "': "@)),
        ),
    }
}

/// The source of the module `foo.bar`: that of `foo/bar.nv`, or else of `foo/bar/mod.nv`.
pub open spec fn module_text(h: HostV, dirs: Seq<Seq<char>>, module: Seq<char>) -> Result<
    Seq<char>,
    StopV,
> {
    let base = join_v(dot_parts(module, 0, Seq::empty(), Seq::empty()), "/"@);
    match found_below(h, dirs, base + ".nv"@, 0) {
        Err(s) => Err(s),
        Ok(Some(f)) => text_or_error(f, module),
        Ok(None) => match found_below(h, dirs, joined_path(base, "mod.nv"@), 0) {
            Err(s) => Err(s),
            Ok(Some(f)) => text_or_error(f, module),
            Ok(None) => Err(
                StopV::Error(
                    CompileErrorV::Generic(
                        "Module not found: '"@ + module + "'. Searched in: "@ + debug_strs(
                            dirs,
                            0,
                            "["@,
                        ),
                    ),
                ),
            ),
        },
    }
}

/// The name under which an item can be imported, if it can.
pub open spec fn export_name(i: ItemV) -> Option<Seq<char>> {
    match i {
        ItemV::Function(f) => if f.is_pub {
            Some(f.name)
        } else {
            None
        },
        ItemV::Struct(s) => if s.is_pub {
            Some(s.name)
        } else {
            None
        },
        ItemV::Enum(e) => if e.is_pub {
            Some(e.name)
        } else {
            None
        },
        ItemV::TypeAlias(t) => Some(t.name),
        ItemV::Macro(m) => Some(m.name),
        ItemV::VarDecl(v) => Some(v.name),
        _ => None,
    }
}

/// Where an item of this name stands among the exported ones from `i` on.
pub open spec fn export_place(xs: Seq<ItemV>, name: Seq<char>, i: int) -> Option<int>
    decreases xs.len() - i,
{
    if 0 <= i < xs.len() {
        if export_name(xs[i]) == Some(name) {
            Some(i)
        } else {
            export_place(xs, name, i + 1)
        }
    } else {
        None
    }
}

/// The exported items of a module, those from `i` on behind those of `acc`: of several
/// items of one name the last, where the first stood.
pub open spec fn exports(items: Seq<ItemV>, i: int, acc: Seq<ItemV>) -> Seq<ItemV>
    decreases items.len() - i,
{
    if 0 <= i < items.len() {
        exports(
            items,
            i + 1,
            match export_name(items[i]) {
                None => acc,
                Some(n) => match export_place(acc, n, 0) {
                    Some(k) => acc.update(k, items[i]),
                    None => acc.push(items[i]),
                },
            },
        )
    } else {
        acc
    }
}

/// The exported items of the module of this path.
pub open spec fn module_exports(h: HostV, dirs: Seq<Seq<char>>, module: Seq<char>) -> Result<
    Seq<ItemV>,
    StopV,
> {
    match module_text(h, dirs, module) {
        Err(s) => Err(s),
        Ok(src) => match parsed(
            src,
            dot_parts(module, 0, Seq::empty(), Seq::empty()).last(),
        ) {
            Err(e) => Err(StopV::Error(e)),
            Ok(m) => Ok(exports(m.items, 0, Seq::empty())),
        },
    }
}

/// The exported item of this name.
pub open spec fn export_named(
    xs: Seq<ItemV>,
    name: Seq<char>,
    module: Seq<char>,
    span: Span,
) -> Result<
    ItemV,
    StopV,
> {
    match export_place(xs, name, 0) {
        Some(k) => Ok(xs[k]),
        None => Err(
            fails("'"@ + name + "' not found in module '"@ + module + "'"@, span),
        ),
    }
}

/// A name that is written as an identifier or as a text.
pub open spec fn written_name(k: ExprKindV) -> Option<Seq<char>> {
    match k {
        ExprKindV::Ident(n) => Some(n),
        ExprKindV::StringLiteral(n) => Some(n),
        _ => None,
    }
}

/// An imported item under another name. Variables keep theirs.
pub open spec fn imported_as(i: ItemV, name: Seq<char>) -> ItemV {
    match i {
        ItemV::VarDecl(_) => i,
        _ => renamed(i, name),
    }
}

/// What one argument behind the path asks for.
pub open spec fn selected(xs: Seq<ItemV>, arg: ExprV, module: Seq<char>) -> Result<ItemV, StopV> {
    match arg.kind {
        ExprKindV::StringLiteral(n) => export_named(xs, n, module, arg.span),
        ExprKindV::Ident(n) => export_named(xs, n, module, arg.span),
        ExprKindV::Assign { target, value } => match (
            written_name(target.kind),
            written_name(value.kind),
        ) {
            (Some(n), Some(alias)) => match export_named(xs, n, module, arg.span) {
                Ok(i) => Ok(imported_as(i, alias)),
                Err(s) => Err(s),
            },
            _ => Err(fails("Expected name = alias for import rename"@, arg.span)),
        },
        _ => Err(fails("Expected string literal (import name) in @import"@, arg.span)),
    }
}

/// What the arguments from `i` on ask for, behind `acc`.
pub open spec fn all_selected(
    xs: Seq<ItemV>,
    args: Seq<ExprV>,
    i: int,
    module: Seq<char>,
    acc: Seq<ItemV>,
) -> Result<Seq<ItemV>, StopV>
    decreases args.len() - i,
{
    if 0 <= i < args.len() {
        match selected(xs, args[i], module) {
            Err(s) => Err(s),
            Ok(x) => all_selected(xs, args, i + 1, module, acc.push(x)),
        }
    } else {
        Ok(acc)
    }
}

/// The items that an import brings.
pub open spec fn imported(h: HostV, dirs: Seq<Seq<char>>, args: Seq<ExprV>, span: Span) -> Result<
    Seq<ItemV>,
    StopV,
> {
    if args.len() == 0 {
        Err(fails("@import requires at least a module path"@, span))
    } else {
        match args[0].kind {
            ExprKindV::StringLiteral(module) => match module_exports(h, dirs, module) {
                Err(s) => Err(s),
                Ok(xs) => if args.len() == 1 {
                    Ok(xs)
                } else {
                    all_selected(xs, args, 1, module, Seq::empty())
                },
            },
            _ => Err(fails("Expected string literal for module path"@, args[0].span)),
        }
    }
}

// --------------------------------------------------------------------------- the laws

/// The parts of a text, with the dots put back between them, are the text.
pub proof fn law_dot_parts(s: Seq<char>)
    ensures
        join_v(dot_parts(s, 0, Seq::empty(), Seq::empty()), "."@) == s,
{
    assert(s.take(0) =~= Seq::<char>::empty());
    lemma_dot_parts(s, 0, Seq::empty(), Seq::empty());
}

/// Parts with dots between them, and behind them the part that is being read.
spec fn join_text(acc: Seq<Seq<char>>, cur: Seq<char>) -> Seq<char> {
    if acc.len() == 0 {
        cur
    } else {
        join_v(acc, "."@) + "."@ + cur
    }
}

proof fn lemma_join_push(parts: Seq<Seq<char>>, cur: Seq<char>, i: int, acc: Seq<char>)
    requires
        0 <= i <= parts.len(),
    ensures
        join_from(parts.push(cur), "."@, i, acc) == (if parts.len() == 0 {
            acc + cur
        } else {
            join_from(parts, "."@, i, acc) + "."@ + cur
        }),
    decreases parts.len() - i,
{
    reveal_strlit(".");
    if i < parts.len() {
        let next = if i > 0 {
            acc + "."@ + parts[i]
        } else {
            acc + parts[i]
        };
        lemma_join_push(parts, cur, i + 1, next);
        assert(parts.push(cur)[i] == parts[i]);
    } else {
        assert(parts.push(cur)[i] == cur);
        let last = if i > 0 {
            acc + "."@ + cur
        } else {
            acc + cur
        };
        assert(join_from(parts.push(cur), "."@, i + 1, last) == last);
    }
}

proof fn lemma_dot_parts(s: Seq<char>, i: int, cur: Seq<char>, acc: Seq<Seq<char>>)
    requires
        0 <= i <= s.len(),
        join_text(acc, cur) == s.take(i),
    ensures
        join_v(dot_parts(s, i, cur, acc), "."@) == s,
    decreases s.len() - i,
{
    reveal_strlit(".");
    lemma_join_push(acc, cur, 0, Seq::empty());
    if i < s.len() {
        assert(s.take(i + 1) =~= s.take(i).push(s[i]));
        if s[i] == '.' {
            assert(join_text(acc.push(cur), Seq::empty()) =~= s.take(i + 1));
            lemma_dot_parts(s, i + 1, Seq::empty(), acc.push(cur));
        } else {
            assert(join_text(acc, cur.push(s[i])) =~= s.take(i + 1));
            lemma_dot_parts(s, i + 1, cur.push(s[i]), acc);
        }
    } else {
        assert(s.take(i) =~= s);
        assert(join_v(acc.push(cur), "."@) =~= s);
    }
}

// ------------------------------------------------------------------------- the macro

/// The model of items that may not have come.
pub open spec fn items_ran(r: Result<Vec<Item>, Stop>) -> Result<Seq<ItemV>, StopV> {
    match r {
        Ok(v) => Ok(items_v(v@)),
        Err(s) => Err(s@),
    }
}

spec fn opt_file_ran(r: Result<Option<FileState>, Stop>) -> Result<Option<FileV>, StopV> {
    match r {
        Ok(Some(f)) => Ok(Some(f@)),
        Ok(None) => Ok(None),
        Err(s) => Err(s@),
    }
}

fn failure(message: &str, span: Span) -> (r: Stop)
    ensures
        r@ == fails(message@, span),
{
    Stop::Error(CompileError::macro_err(message, span))
}

fn split_dots(s: &str) -> (r: Vec<String>)
    ensures
        strs_v(r@) == dot_parts(s@, 0, Seq::empty(), Seq::empty()),
        r.len() > 0,
{
    let v = chars_of(s);
    let mut acc: Vec<String> = Vec::new();
    let mut cur: Vec<char> = Vec::new();
    let mut i: usize = 0;
    assert(cur@ =~= Seq::empty());
    while i < v.len()
        invariant
            i <= v.len(),
            v@ == s@,
            dot_parts(s@, 0, Seq::empty(), Seq::empty()) == dot_parts(
                s@,
                i as int,
                cur@,
                strs_v(acc@),
            ),
        decreases v.len() - i,
    {
        if v[i] == '.' {
            acc.push(text_of(&cur));
            cur = Vec::new();
        } else {
            cur.push(v[i]);
        }
        i = i + 1;
    }
    acc.push(text_of(&cur));
    acc
}

fn name_to_export(i: &Item) -> (r: Option<String>)
    ensures
        opt_str_v(r) == export_name(i@),
{
    let ghost g = item_v(*i);
    match i {
        Item::Function(f) => {
            let ghost x = function_v(*f);
            if f.is_pub {
                Some(f.name.clone())
            } else {
                None
            }
        },
        Item::Struct(s) => {
            let ghost x = struct_v(*s);
            if s.is_pub {
                Some(s.name.clone())
            } else {
                None
            }
        },
        Item::Enum(e) => {
            let ghost x = enum_v(*e);
            if e.is_pub {
                Some(e.name.clone())
            } else {
                None
            }
        },
        Item::TypeAlias(t) => {
            let ghost x = type_alias_v(*t);
            Some(t.name.clone())
        },
        Item::Macro(m) => {
            let ghost x = macro_def_v(*m);
            Some(m.name.clone())
        },
        Item::VarDecl(v) => {
            let ghost x = var_decl_v(*v);
            Some(v.name.clone())
        },
        _ => None,
    }
}

fn find_export(xs: &Vec<Item>, name: &str) -> (r: Option<usize>)
    ensures
        match r {
            Some(k) => export_place(items_v(xs@), name@, 0) == Some(k as int) && k < xs.len(),
            None => export_place(items_v(xs@), name@, 0) is None,
        },
{
    let mut i: usize = 0;
    while i < xs.len()
        invariant
            i <= xs.len(),
            export_place(items_v(xs@), name@, 0) == export_place(
                items_v(xs@),
                name@,
                i as int,
            ),
        decreases xs.len() - i,
    {
        let ghost iv = items_v(xs@)[i as int];
        if let Some(n) = name_to_export(&xs[i]) {
            if str_eq(&n, name) {
                return Some(i);
            }
        }
        i = i + 1;
    }
    None
}

fn collect_exports(items: &Vec<Item>) -> (r: Vec<Item>)
    ensures
        items_v(r@) == exports(items_v(items@), 0, Seq::empty()),
{
    let mut acc: Vec<Item> = Vec::new();
    let mut i: usize = 0;
    while i < items.len()
        invariant
            i <= items.len(),
            exports(items_v(items@), 0, Seq::empty()) == exports(
                items_v(items@),
                i as int,
                items_v(acc@),
            ),
        decreases items.len() - i,
    {
        let ghost before = acc@;
        let ghost iv = items_v(items@)[i as int];
        if let Some(n) = name_to_export(&items[i]) {
            match find_export(&acc, &n) {
                Some(k) => {
                    acc.set(k, items[i].dup());
                    assert(items_v(acc@) =~= items_v(before).update(k as int, iv));
                },
                None => {
                    acc.push(items[i].dup());
                },
            }
        }
        i = i + 1;
    }
    acc
}

fn name_written(k: &ExprKind) -> (r: Option<String>)
    ensures
        opt_str_v(r) == written_name(k@),
{
    let ghost g = expr_kind_v(*k);
    match k {
        ExprKind::Ident(n) => Some(n.clone()),
        ExprKind::StringLiteral(n) => Some(n.clone()),
        _ => None,
    }
}

fn find_named(xs: &Vec<Item>, name: &str, module: &str, span: Span) -> (r: Result<Item, Stop>)
    ensures
        ran(r) == export_named(items_v(xs@), name@, module@, span),
{
    match find_export(xs, name) {
        Some(k) => {
            let ghost iv = items_v(xs@)[k as int];
            Ok(xs[k].dup())
        },
        None => Err(
            failure(&cat5("'", name, "' not found in module '", module, "'"), span),
        ),
    }
}

fn select(xs: &Vec<Item>, arg: &Expr, module: &str) -> (r: Result<Item, Stop>)
    ensures
        ran(r) == selected(items_v(xs@), arg@, module@),
{
    let ghost g = expr_v(*arg);
    let ghost k = expr_kind_v(arg.kind);
    match &arg.kind {
        ExprKind::StringLiteral(n) => find_named(xs, n, module, arg.span),
        ExprKind::Ident(n) => find_named(xs, n, module, arg.span),
        ExprKind::Assign { target, value } => {
            let ghost tv = expr_v(**target);
            let ghost vv = expr_v(**value);
            match (name_written(&target.kind), name_written(&value.kind)) {
                (Some(n), Some(alias)) => {
                    let x = find_named(xs, &n, module, arg.span)?;
                    let ghost xv = item_v(x);
                    if matches!(x, Item::VarDecl(_)) {
                        Ok(x)
                    } else {
                        Ok(rename_item(&x, &alias))
                    }
                },
                _ => Err(failure("Expected name = alias for import rename", arg.span)),
            }
        },
        _ => Err(failure("Expected string literal (import name) in @import", arg.span)),
    }
}

/// The macro with the directories in which it looks for modules, in order.
#[derive(Debug)]
pub struct ImportMacro {
    search_paths: Vec<String>,
}

impl View for ImportMacro {
    type V = Seq<Seq<char>>;

    closed spec fn view(&self) -> Seq<Seq<char>> {
        strs_v(self.search_paths@)
    }
}

/// The text of the first file of this path that is there and can be read.
pub open spec fn readable_text(h: HostV, dirs: Seq<Seq<char>>, path: Seq<char>) -> Result<
    Option<Seq<char>>,
    StopV,
> {
    match found_below(h, dirs, path, 0) {
        Err(s) => Err(s),
        Ok(Some(FileV::Text(t))) => Ok(Some(t)),
        Ok(_) => Ok(None),
    }
}

impl ImportMacro {
    pub fn new(search_paths: Vec<String>) -> (r: Self)
        ensures
            r@ == strs_v(search_paths@),
    {
        ImportMacro { search_paths }
    }

    fn find_below(&self, path: &str, host: &Host) -> (r: Result<Option<FileState>, Stop>)
        ensures
            opt_file_ran(r) == found_below(host@, self@, path@, 0),
    {
        let mut i: usize = 0;
        while i < self.search_paths.len()
            invariant
                i <= self.search_paths.len(),
                found_below(host@, self@, path@, 0) == found_below(
                    host@,
                    self@,
                    path@,
                    i as int,
                ),
            decreases self.search_paths.len() - i,
        {
            let full = join_path(&self.search_paths[i], path);
            let f = host.file(&full)?;
            if !matches!(f, FileState::Missing) {
                return Ok(Some(f));
            }
            i = i + 1;
        }
        Ok(None)
    }

    /// The text of the first file of this path, if it is there and can be read.
    pub fn try_read_file(&self, path: &str, host: &Host) -> (r: Result<Option<String>, Stop>)
        ensures
            (match r {
                Ok(t) => Ok::<Option<Seq<char>>, StopV>(opt_str_v(t)),
                Err(s) => Err(s@),
            }) == readable_text(host@, self@, path@),
    {
        match self.find_below(path, host)? {
            Some(FileState::Text(t)) => Ok(Some(t)),
            _ => Ok(None),
        }
    }

    fn read_module(&self, module: &str, parts: &Vec<String>, host: &Host) -> (
        r: Result<String, Stop>
    )
        requires
            strs_v(parts@) == dot_parts(module@, 0, Seq::empty(), Seq::empty()),
        ensures
            ran(r) == module_text(host@, self@, module@),
    {
        let base = join(parts, "/");
        let direct = cat2(&base, ".nv");
        let found: Option<FileState> = match self.find_below(&direct, host)? {
            Some(f) => Some(f),
            None => {
                let inside = join_path(&base, "mod.nv");
                self.find_below(&inside, host)?
            },
        };
        match found {
            Some(FileState::Text(t)) => Ok(t),
            Some(FileState::Unreadable(why)) => Err(
                Stop::Error(CompileError::Generic(cat4("Cannot read '", module, "': ", &why))),
            ),
            Some(FileState::Missing) => Err(
                Stop::Error(CompileError::Generic(cat3("Cannot read '", module, "': "))),
            ),
            None => {
                let dirs = show_debug_strs(&self.search_paths);
                Err(
                    Stop::Error(
                        CompileError::Generic(
                            cat4("Module not found: '", module, "'. Searched in: ", &dirs),
                        ),
                    ),
                )
            },
        }
    }

    fn load_module(&self, module: &str, host: &Host) -> (r: Result<Vec<Item>, Stop>)
        ensures
            items_ran(r) == module_exports(host@, self@, module@),
    {
        let parts = split_dots(module);
        let src = self.read_module(module, &parts, host)?;
        let ghost last = strs_v(parts@).last();
        let n: usize = parts.len();
        match parse_source(&src, &parts[n - 1]) {
            Err(e) => Err(Stop::Error(e)),
            Ok(m) => {
                let ghost mv = module_v(m);
                Ok(collect_exports(&m.items))
            },
        }
    }

    /// The items that an import brings.
    pub fn eval(&self, args: &Vec<Expr>, span: Span, host: &Host) -> (r: Result<Vec<Item>, Stop>)
        ensures
            items_ran(r) == imported(host@, self@, exprs_v(args@), span),
    {
        let ghost av = exprs_v(args@);
        if args.len() == 0 {
            return Err(failure("@import requires at least a module path", span));
        }
        let ghost g = expr_v(args[0]);
        let ghost k = expr_kind_v(args[0].kind);
        match &args[0].kind {
            ExprKind::StringLiteral(module) => {
                let xs = self.load_module(module, host)?;
                if args.len() == 1 {
                    return Ok(xs);
                }
                select_all(&xs, args, module)
            },
            _ => Err(failure("Expected string literal for module path", args[0].span)),
        }
    }
}

fn select_all(xs: &Vec<Item>, args: &Vec<Expr>, module: &str) -> (r: Result<Vec<Item>, Stop>)
    requires
        args.len() > 0,
    ensures
        items_ran(r) == all_selected(
            items_v(xs@),
            exprs_v(args@),
            1,
            module@,
            Seq::empty(),
        ),
{
    let mut out: Vec<Item> = Vec::new();
    let mut i: usize = 1;
    while i < args.len()
        invariant
            1 <= i <= args.len(),
            all_selected(items_v(xs@), exprs_v(args@), 1, module@, Seq::empty())
                == all_selected(
                items_v(xs@),
                exprs_v(args@),
                i as int,
                module@,
                items_v(out@),
            ),
        decreases args.len() - i,
    {
        let x = select(xs, &args[i], module)?;
        out.push(x);
        i = i + 1;
    }
    Ok(out)
}

} // verus!
