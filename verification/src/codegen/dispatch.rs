//! Which overload sets are dispatched at run time, and on which parameters.
use vstd::prelude::*;
use crate::ast::{Function, ImplBlock, Item, Module, Path, PathSegment, Type};
use crate::maps::{StrList, StrMap, contains_str};
use crate::model::{FunctionV, ImplBlockV, ItemV, PathSegmentV, TypeV};
use crate::text::{chars_of, str_eq};

verus! {

use crate::maps::lookup;
use crate::model::{
    function_v, functions_v, group_list_views, item_v, items_v, param_v, params_v, path_segment_v,
    path_segments_v, path_v, type_v, types_v,
};
use crate::text::strs_v;
use crate::typeck::param_types;

broadcast use group_list_views;

// ---------------------------------------------------------------------- C++ types

/// How C++ names a primitive type.
pub open spec fn primitive_name(n: Seq<char>) -> Seq<char> {
    if n == "Int"@ {
        "int"@
    } else if n == "Float"@ {
        "double"@
    } else if n == "Bool"@ {
        "bool"@
    } else if n == "Char"@ {
        "char"@
    } else if n == "String"@ {
        "std::string"@
    } else {
        n
    }
}

/// How C++ writes a type. A reference to what the collector manages is a smart pointer of
/// the run-time library.
pub open spec fn cpp_type(t: TypeV) -> Seq<char>
    decreases t, 0int,
{
    match t {
        TypeV::Path(p) => cpp_segments(p.segments, 0, Seq::empty()),
        TypeV::GcRef(inner) => "nova::gc_ptr<"@ + cpp_type(*inner) + ">"@,
        TypeV::Unit => "void"@,
        _ => "auto"@,
    }
}

/// `acc` and then the segments from `i` on.
pub open spec fn cpp_segments(segs: Seq<PathSegmentV>, i: int, acc: Seq<char>) -> Seq<char>
    decreases segs, segs.len() - i,
{
    if 0 <= i < segs.len() {
        let text = if segs[i].args.len() == 0 {
            primitive_name(segs[i].name)
        } else {
            segs[i].name + "<"@ + cpp_types(segs[i].args, 0, Seq::empty()) + ">"@
        };
        cpp_segments(
            segs,
            i + 1,
            if i > 0 {
                acc + "::"@ + text
            } else {
                acc + text
            },
        )
    } else {
        acc
    }
}

/// `acc` and then the types from `i` on, with commas between them.
pub open spec fn cpp_types(ts: Seq<TypeV>, i: int, acc: Seq<char>) -> Seq<char>
    decreases ts, ts.len() - i,
{
    if 0 <= i < ts.len() {
        cpp_types(
            ts,
            i + 1,
            if i > 0 {
                acc + ", "@ + cpp_type(ts[i])
            } else {
                acc + cpp_type(ts[i])
            },
        )
    } else {
        acc
    }
}

fn map_primitive(n: &str) -> (r: String)
    ensures
        r@ == primitive_name(n@),
{
    if str_eq(n, "Int") {
        "int".to_owned()
    } else if str_eq(n, "Float") {
        "double".to_owned()
    } else if str_eq(n, "Bool") {
        "bool".to_owned()
    } else if str_eq(n, "Char") {
        "char".to_owned()
    } else if str_eq(n, "String") {
        "std::string".to_owned()
    } else {
        n.to_owned()
    }
}

/// How C++ writes a type.
pub fn gen_type(t: &Type) -> (r: String)
    ensures
        r@ == cpp_type(t@),
    decreases t,
{
    match t {
        Type::Path(p) => {
            let ghost g = path_v(*p);
            gen_segments(&p.segments)
        },
        Type::GcRef(inner) => {
            let ghost g = type_v(**inner);
            let text = gen_type(inner);
            crate::text::cat3("nova::gc_ptr<", &text, ">")
        },
        Type::Unit => "void".to_owned(),
        _ => "auto".to_owned(),
    }
}

fn gen_segments(segs: &Vec<PathSegment>) -> (r: String)
    ensures
        r@ == cpp_segments(path_segments_v(segs@), 0, Seq::empty()),
    decreases segs,
{
    let mut s = String::new();
    let mut i: usize = 0;
    while i < segs.len()
        invariant
            i <= segs.len(),
            cpp_segments(path_segments_v(segs@), 0, Seq::empty()) == cpp_segments(
                path_segments_v(segs@),
                i as int,
                s@,
            ),
        decreases segs.len() - i,
    {
        let ghost g = path_segment_v(segs[i as int]);
        if i > 0 {
            s.append("::");
        }
        let text = if segs[i].args.len() == 0 {
            map_primitive(&segs[i].name)
        } else {
            crate::text::cat4(&segs[i].name, "<", &gen_types(&segs[i].args), ">")
        };
        s.append(&text);
        i = i + 1;
    }
    s
}

fn gen_types(ts: &Vec<Type>) -> (r: String)
    ensures
        r@ == cpp_types(types_v(ts@), 0, Seq::empty()),
    decreases ts,
{
    let mut s = String::new();
    let mut i: usize = 0;
    while i < ts.len()
        invariant
            i <= ts.len(),
            cpp_types(types_v(ts@), 0, Seq::empty()) == cpp_types(types_v(ts@), i as int, s@),
        decreases ts.len() - i,
    {
        if i > 0 {
            s.append(", ");
        }
        s.append(&gen_type(&ts[i]));
        i = i + 1;
    }
    s
}

// ---------------------------------------------------------------------- overloads

/// One overload of a function or method.
#[derive(Debug)]
pub struct Overload {
    pub params: Vec<Type>,
    pub ret: Type,
}

/// The model of an [`Overload`].
#[verifier::ext_equal]
pub struct OverloadV {
    pub params: Seq<TypeV>,
    pub ret: TypeV,
}

impl View for Overload {
    type V = OverloadV;

    open spec fn view(&self) -> OverloadV {
        OverloadV { params: types_v(self.params@), ret: self.ret@ }
    }
}

impl Overload {
    pub fn dup(&self) -> (r: Self)
        ensures
            r@ == self@,
    {
        Overload { params: crate::model::dup_types(&self.params), ret: self.ret.dup() }
    }
}

/// The models of a list of overloads.
pub open spec fn overloads_v(s: Seq<Overload>) -> Seq<OverloadV> {
    Seq::new(s.len(), |i: int| s[i]@)
}

/// A declared function or method.
#[derive(Debug)]
pub struct Decl {
    pub name: String,
    pub overload: Overload,
}

/// The model of a [`Decl`].
#[verifier::ext_equal]
pub struct DeclV {
    pub name: Seq<char>,
    pub overload: OverloadV,
}

impl View for Decl {
    type V = DeclV;

    open spec fn view(&self) -> DeclV {
        DeclV { name: self.name@, overload: self.overload@ }
    }
}

/// The models of a list of declarations.
pub open spec fn decls_v(s: Seq<Decl>) -> Seq<DeclV> {
    Seq::new(s.len(), |i: int| s[i]@)
}

/// A dispatched function. At each position with a trait the type of the argument
/// decides; the run-time key packs the type ids of those positions, 16 bits each.
#[derive(Debug)]
pub struct DispatchInfo {
    pub name: String,
    /// The trait of each dispatch position.
    pub positions: Vec<Option<String>>,
    /// In declaration order: the first wins a tie.
    pub overloads: Vec<Overload>,
    /// Whether some overload takes the traits themselves.
    pub has_generic_fallback: bool,
}

/// The model of a [`DispatchInfo`].
#[verifier::ext_equal]
pub struct DispatchInfoV {
    pub name: Seq<char>,
    pub positions: Seq<Option<Seq<char>>>,
    pub overloads: Seq<OverloadV>,
    pub has_generic_fallback: bool,
}

/// The texts of a list of optional strings.
pub open spec fn opt_strs_v(s: Seq<Option<String>>) -> Seq<Option<Seq<char>>> {
    Seq::new(s.len(), |i: int| crate::text::opt_str_v(s[i]))
}

impl View for DispatchInfo {
    type V = DispatchInfoV;

    open spec fn view(&self) -> DispatchInfoV {
        DispatchInfoV {
            name: self.name@,
            positions: opt_strs_v(self.positions@),
            overloads: overloads_v(self.overloads@),
            has_generic_fallback: self.has_generic_fallback,
        }
    }
}

/// The models of a list of dispatched functions.
pub open spec fn dispatches_v(s: Seq<DispatchInfo>) -> Seq<DispatchInfoV> {
    Seq::new(s.len(), |i: int| s[i]@)
}

/// The name of the type of a parameter.
pub open spec fn param_name(ov: OverloadV, i: int) -> Option<Seq<char>> {
    if 0 <= i < ov.params.len() {
        match ov.params[i] {
            TypeV::Path(p) => if p.segments.len() > 0 {
                Some(p.segments.last().name)
            } else {
                None
            },
            _ => None,
        }
    } else {
        None
    }
}

impl Overload {
    /// The name of the type of parameter `i`.
    pub fn param_name(&self, i: usize) -> (r: Option<String>)
        ensures
            crate::text::opt_str_v(r) == param_name(self@, i as int),
    {
        if i < self.params.len() {
            let ghost g = type_v(self.params[i as int]);
            match &self.params[i] {
                Type::Path(p) => {
                    let ghost h = path_v(*p);
                    if p.segments.len() > 0 {
                        let n: usize = p.segments.len() - 1;
                        let ghost k = path_segment_v(p.segments[n as int]);
                        return Some(p.segments[n].name.clone());
                    }
                    None
                },
                _ => None,
            }
        } else {
            None
        }
    }
}

// ------------------------------------------------------------------ what is declared

/// The names of the traits of the items from `i` on, behind those of `acc`.
pub open spec fn trait_names_from(items: Seq<ItemV>, i: int, acc: Seq<Seq<char>>) -> Seq<Seq<char>>
    decreases items.len() - i,
{
    if 0 <= i < items.len() {
        trait_names_from(
            items,
            i + 1,
            match items[i] {
                ItemV::Trait(t) => acc.push(t.name),
                _ => acc,
            },
        )
    } else {
        acc
    }
}

/// The names of the methods from `i` on, behind those of `acc`.
pub open spec fn method_names_from(
    ms: Seq<FunctionV>,
    i: int,
    acc: Seq<Seq<char>>,
) -> Seq<Seq<char>>
    decreases ms.len() - i,
{
    if 0 <= i < ms.len() {
        method_names_from(ms, i + 1, acc.push(ms[i].name))
    } else {
        acc
    }
}

/// The names of the methods of all traits but `Debug`, from item `i` on.
pub open spec fn trait_methods_from(
    items: Seq<ItemV>,
    i: int,
    acc: Seq<Seq<char>>,
) -> Seq<Seq<char>>
    decreases items.len() - i,
{
    if 0 <= i < items.len() {
        trait_methods_from(
            items,
            i + 1,
            match items[i] {
                ItemV::Trait(t) => if t.name == "Debug"@ {
                    acc
                } else {
                    method_names_from(t.methods, 0, acc)
                },
                _ => acc,
            },
        )
    } else {
        acc
    }
}

pub open spec fn decl_of(f: FunctionV) -> DeclV {
    DeclV {
        name: f.name,
        overload: OverloadV { params: param_types(f.params), ret: f.return_type },
    }
}

/// The methods from `i` on, behind the declarations of `acc`.
pub open spec fn decls_of_methods(ms: Seq<FunctionV>, i: int, acc: Seq<DeclV>) -> Seq<DeclV>
    decreases ms.len() - i,
{
    if 0 <= i < ms.len() {
        decls_of_methods(ms, i + 1, acc.push(decl_of(ms[i])))
    } else {
        acc
    }
}

/// The functions and the methods of impl blocks in the items from `i` on.
pub open spec fn decls_from(items: Seq<ItemV>, i: int, acc: Seq<DeclV>) -> Seq<DeclV>
    decreases items.len() - i,
{
    if 0 <= i < items.len() {
        decls_from(
            items,
            i + 1,
            match items[i] {
                ItemV::Function(f) => acc.push(decl_of(f)),
                ItemV::Impl(imp) => decls_of_methods(imp.methods, 0, acc),
                _ => acc,
            },
        )
    } else {
        acc
    }
}

/// The name of the type that an impl block is for.
pub open spec fn impl_target(t: TypeV) -> Seq<char> {
    match t {
        TypeV::Path(p) => if p.segments.len() > 0 {
            p.segments.last().name
        } else {
            "unknown"@
        },
        _ => "unknown"@,
    }
}

/// The types that implement each trait.
pub type Impls = Map<Seq<char>, Seq<Seq<char>>>;

/// One more impl block; a trait does not count as an implementing type.
pub open spec fn add_impl(traits: Seq<Seq<char>>, imp: ImplBlockV, m: Impls) -> Impls {
    let target = impl_target(imp.target_type);
    if traits.contains(target) {
        m
    } else {
        let before = match lookup(m, imp.trait_name) {
            Some(ts) => ts,
            None => Seq::empty(),
        };
        m.insert(
            imp.trait_name,
            if before.contains(target) {
                before
            } else {
                before.push(target)
            },
        )
    }
}

/// The types that implement each trait, after the items from `i` on.
pub open spec fn impls_from(traits: Seq<Seq<char>>, items: Seq<ItemV>, i: int, m: Impls) -> Impls
    decreases items.len() - i,
{
    if 0 <= i < items.len() {
        impls_from(
            traits,
            items,
            i + 1,
            match items[i] {
                ItemV::Impl(imp) => add_impl(traits, imp, m),
                _ => m,
            },
        )
    } else {
        m
    }
}

// -------------------------------------------------------------------- what is dispatched

/// The overloads of a name among the declarations from `i` on, behind those of `acc`.
pub open spec fn overloads_named(
    decls: Seq<DeclV>,
    name: Seq<char>,
    i: int,
    acc: Seq<OverloadV>,
) -> Seq<
    OverloadV,
>
    decreases decls.len() - i,
{
    if 0 <= i < decls.len() {
        overloads_named(
            decls,
            name,
            i + 1,
            if decls[i].name == name {
                acc.push(decls[i].overload)
            } else {
                acc
            },
        )
    } else {
        acc
    }
}

/// The one trait that overloads from `k` on have at position `i`, if they have one;
/// an error where they have two.
pub open spec fn position_trait(
    traits: Seq<Seq<char>>,
    ovs: Seq<OverloadV>,
    i: int,
    k: int,
    found: Option<Seq<char>>,
) -> Result<Option<Seq<char>>, ()>
    decreases ovs.len() - k,
{
    if 0 <= k < ovs.len() {
        match param_name(ovs[k], i) {
            Some(n) => if !traits.contains(n) {
                position_trait(traits, ovs, i, k + 1, found)
            } else {
                match found {
                    None => position_trait(traits, ovs, i, k + 1, Some(n)),
                    Some(m) => if m == n {
                        position_trait(traits, ovs, i, k + 1, found)
                    } else {
                        Err(())
                    },
                }
            },
            None => position_trait(traits, ovs, i, k + 1, found),
        }
    } else {
        Ok(found)
    }
}

/// The trait of each position from `i` up to `arity`, behind those of `acc`.
pub open spec fn positions_from(
    traits: Seq<Seq<char>>,
    ovs: Seq<OverloadV>,
    arity: int,
    i: int,
    acc: Seq<Option<Seq<char>>>,
) -> Option<Seq<Option<Seq<char>>>>
    decreases arity - i,
{
    if 0 <= i < arity {
        match position_trait(traits, ovs, i, 0, None) {
            Err(_) => None,
            Ok(t) => positions_from(traits, ovs, arity, i + 1, acc.push(t)),
        }
    } else {
        Some(acc)
    }
}

/// The traits of the positions from `i` on that have one, behind those of `acc`.
pub open spec fn traits_at(
    ps: Seq<Option<Seq<char>>>,
    i: int,
    acc: Seq<Seq<char>>,
) -> Seq<Seq<char>>
    decreases ps.len() - i,
{
    if 0 <= i < ps.len() {
        traits_at(
            ps,
            i + 1,
            match ps[i] {
                Some(t) => acc.push(t),
                None => acc,
            },
        )
    } else {
        acc
    }
}

/// Whether some type implements the trait.
pub open spec fn is_implemented(impls: Impls, t: Seq<char>) -> bool {
    lookup(impls, t) matches Some(ts) && ts.len() > 0
}

/// Whether the overload takes the trait itself at every position that has one.
pub open spec fn is_generic(ov: OverloadV, ps: Seq<Option<Seq<char>>>) -> bool {
    forall|i: int|
        0 <= i < ps.len() ==> ((#[trigger] ps[i]) matches Some(t) ==> param_name(ov, i) == Some(t))
}

/// Whether the overloads agree in number of parameters and in result.
pub open spec fn agree(ovs: Seq<OverloadV>) -> bool {
    forall|k: int|
        0 <= k < ovs.len() ==> (#[trigger] ovs[k]).params.len() == ovs[0].params.len() && cpp_type(
            ovs[k].ret,
        ) == cpp_type(ovs[0].ret)
}

/// Whether the overloads agree at the positions without a trait.
pub open spec fn fixed_agree(ovs: Seq<OverloadV>, ps: Seq<Option<Seq<char>>>) -> bool {
    forall|i: int, k: int|
        0 <= i < ps.len() && ps[i] is None && 0 <= k < ovs.len() ==> cpp_type(
            (#[trigger] ovs[k]).params[i],
        ) == cpp_type(#[trigger] ovs[0].params[i])
}

/// How an overload set is dispatched, if it is.
pub open spec fn dispatch_info(
    traits: Seq<Seq<char>>,
    impls: Impls,
    name: Seq<char>,
    ovs: Seq<OverloadV>,
) -> Option<DispatchInfoV> {
    if ovs.len() < 2 || !agree(ovs) {
        None
    } else {
        match positions_from(traits, ovs, ovs[0].params.len() as int, 0, Seq::empty()) {
            None => None,
            Some(ps) => {
                let ts = traits_at(ps, 0, Seq::empty());
                if ts.len() == 0 || ts.len() > 4 {
                    None
                } else if exists|j: int| 0 <= j < ts.len() && !is_implemented(impls, #[trigger] ts[j]) {
                    None
                } else if !fixed_agree(ovs, ps) {
                    None
                } else {
                    Some(
                        DispatchInfoV {
                            name,
                            positions: ps,
                            overloads: ovs,
                            has_generic_fallback: exists|k: int|
                                0 <= k < ovs.len() && is_generic(#[trigger] ovs[k], ps),
                        },
                    )
                }
            },
        }
    }
}

/// The order of texts: by the first character that differs, a beginning before the whole.
pub open spec fn text_before(a: Seq<char>, b: Seq<char>, i: int) -> bool
    decreases a.len() - i,
{
    if i < 0 || i >= b.len() {
        false
    } else if i >= a.len() {
        true
    } else if a[i] != b[i] {
        a[i] < b[i]
    } else {
        text_before(a, b, i + 1)
    }
}

/// Of two texts that are the same up to `i` and differ behind it, one is before the other.
pub proof fn law_texts_ordered(a: Seq<char>, b: Seq<char>, i: int)
    requires
        0 <= i <= a.len(),
        i <= b.len(),
        forall|k: int| 0 <= k < i ==> a[k] == b[k],
        a != b,
    ensures
        text_before(a, b, i) != text_before(b, a, i),
    decreases a.len() - i,
{
    if i < a.len() && i < b.len() {
        if a[i] == b[i] {
            law_texts_ordered(a, b, i + 1);
        }
    } else {
        if a.len() == b.len() {
            assert(a =~= b);
        }
    }
}

/// A text before another is before what that is before.
pub proof fn law_texts_in_order(a: Seq<char>, b: Seq<char>, c: Seq<char>, i: int)
    requires
        0 <= i,
        text_before(a, b, i),
        text_before(b, c, i),
    ensures
        text_before(a, c, i),
    decreases a.len() - i,
{
    if i < a.len() && i < b.len() && i < c.len() && a[i] == b[i] && b[i] == c[i] {
        law_texts_in_order(a, b, c, i + 1);
    }
}

/// No text is before itself.
pub proof fn law_text_not_before_itself(a: Seq<char>, i: int)
    requires
        0 <= i,
    ensures
        !text_before(a, a, i),
    decreases a.len() - i,
{
    if i < a.len() {
        law_text_not_before_itself(a, i + 1);
    }
}

/// Where a name stands among dispatched functions in the order of their names.
pub open spec fn sorted_place(ds: Seq<DispatchInfoV>, name: Seq<char>, i: int) -> int
    decreases ds.len() - i,
{
    if 0 <= i < ds.len() && text_before(ds[i].name, name, 0) {
        sorted_place(ds, name, i + 1)
    } else {
        i
    }
}

/// Whether the name is declared before declaration `k`.
pub open spec fn declared_before(decls: Seq<DeclV>, k: int) -> bool {
    exists|j: int| 0 <= j < k && (#[trigger] decls[j]).name == decls[k].name
}

/// The dispatched functions among the names of the declarations from `k` on, in the
/// order of their names.
pub open spec fn dispatch_from(
    traits: Seq<Seq<char>>,
    impls: Impls,
    decls: Seq<DeclV>,
    k: int,
    acc: Seq<DispatchInfoV>,
) -> Seq<DispatchInfoV>
    decreases decls.len() - k,
{
    if 0 <= k < decls.len() {
        let acc1 = if declared_before(decls, k) {
            acc
        } else {
            match dispatch_info(
                traits,
                impls,
                decls[k].name,
                overloads_named(decls, decls[k].name, 0, Seq::empty()),
            ) {
                None => acc,
                Some(d) => acc.insert(sorted_place(acc, d.name, 0), d),
            }
        };
        dispatch_from(traits, impls, decls, k + 1, acc1)
    } else {
        acc
    }
}

/// What generation needs to know of a module.
#[verifier::ext_equal]
pub struct InfoV {
    pub dispatch: Seq<DispatchInfoV>,
    pub trait_methods: Seq<Seq<char>>,
    pub impls: Impls,
}

/// What generation needs to know of a module with these items.
pub open spec fn info_of(items: Seq<ItemV>) -> InfoV {
    let traits = trait_names_from(items, 0, Seq::empty());
    let impls = impls_from(traits, items, 0, Map::empty());
    InfoV {
        dispatch: dispatch_from(
            traits,
            impls,
            decls_from(items, 0, Seq::empty()),
            0,
            Seq::empty(),
        ),
        trait_methods: trait_methods_from(items, 0, Seq::empty()),
        impls,
    }
}

// ------------------------------------------------------------------------ collecting

/// What generation needs to know of a module.
pub struct Info {
    pub dispatch: Vec<DispatchInfo>,
    pub trait_methods: Vec<String>,
    pub impls: StrMap<StrList>,
}

impl View for Info {
    type V = InfoV;

    open spec fn view(&self) -> InfoV {
        InfoV {
            dispatch: dispatches_v(self.dispatch@),
            trait_methods: strs_v(self.trait_methods@),
            impls: self.impls@,
        }
    }
}

impl Info {
    /// Nothing known.
    pub fn new() -> (r: Info)
        ensures
            r@ == (
                InfoV { dispatch: Seq::empty(), trait_methods: Seq::empty(), impls: Map::empty() }
            ),
    {
        let r = Info { dispatch: Vec::new(), trait_methods: Vec::new(), impls: StrMap::new() };
        assert(dispatches_v(r.dispatch@) =~= Seq::empty());
        r
    }

    /// What generation needs to know of a module.
    pub fn collect(module: &Module) -> (r: Info)
        ensures
            r@ == info_of(module@.items),
    {
        let traits = trait_names(&module.items);
        let impls = collect_impls(&traits, &module.items);
        let decls = collect_decls(&module.items);
        let dispatch = collect_dispatch(&traits, &impls, &decls);
        let trait_methods = trait_method_names(&module.items);
        Info { dispatch, trait_methods, impls }
    }
}

fn trait_names(items: &Vec<Item>) -> (r: Vec<String>)
    ensures
        strs_v(r@) == trait_names_from(items_v(items@), 0, Seq::empty()),
{
    let mut names: Vec<String> = Vec::new();
    let mut i: usize = 0;
    while i < items.len()
        invariant
            i <= items.len(),
            trait_names_from(items_v(items@), 0, Seq::empty()) == trait_names_from(
                items_v(items@),
                i as int,
                strs_v(names@),
            ),
        decreases items.len() - i,
    {
        let ghost g = item_v(items[i as int]);
        match &items[i] {
            Item::Trait(t) => {
                let ghost h = t@;
                names.push(t.name.clone());
            },
            _ => {},
        }
        i = i + 1;
    }
    names
}

fn trait_method_names(items: &Vec<Item>) -> (r: Vec<String>)
    ensures
        strs_v(r@) == trait_methods_from(items_v(items@), 0, Seq::empty()),
{
    let mut names: Vec<String> = Vec::new();
    let mut i: usize = 0;
    while i < items.len()
        invariant
            i <= items.len(),
            trait_methods_from(items_v(items@), 0, Seq::empty()) == trait_methods_from(
                items_v(items@),
                i as int,
                strs_v(names@),
            ),
        decreases items.len() - i,
    {
        let ghost g = item_v(items[i as int]);
        match &items[i] {
            Item::Trait(t) => {
                let ghost h = t@;
                if !str_eq(&t.name, "Debug") {
                    push_method_names(&t.methods, &mut names);
                }
            },
            _ => {},
        }
        i = i + 1;
    }
    names
}

fn push_method_names(ms: &Vec<Function>, names: &mut Vec<String>)
    ensures
        strs_v(final(names)@) == method_names_from(functions_v(ms@), 0, strs_v(old(names)@)),
{
    let mut i: usize = 0;
    while i < ms.len()
        invariant
            i <= ms.len(),
            method_names_from(functions_v(ms@), 0, strs_v(old(names)@)) == method_names_from(
                functions_v(ms@),
                i as int,
                strs_v(names@),
            ),
        decreases ms.len() - i,
    {
        let ghost g = function_v(ms[i as int]);
        names.push(ms[i].name.clone());
        i = i + 1;
    }
}

fn mk_decl(f: &Function) -> (r: Decl)
    ensures
        r@ == decl_of(f@),
{
    let ghost g = f@;
    let mut params: Vec<Type> = Vec::new();
    let mut k: usize = 0;
    while k < f.params.len()
        invariant
            k <= f.params.len(),
            params.len() == k,
            forall|j: int|
                0 <= j < k ==> type_v(#[trigger] params[j]) == params_v(f.params@)[j].ty,
        decreases f.params.len() - k,
    {
        let ghost h = param_v(f.params[k as int]);
        params.push(f.params[k].ty.dup());
        k = k + 1;
    }
    assert(types_v(params@) =~= param_types(params_v(f.params@)));
    Decl { name: f.name.clone(), overload: Overload { params, ret: f.return_type.dup() } }
}

fn push_decl(decls: &mut Vec<Decl>, d: Decl)
    ensures
        decls_v(final(decls)@) == decls_v(old(decls)@).push(d@),
{
    decls.push(d);
    assert(decls_v(decls@) =~= decls_v(old(decls)@).push(d@));
}

fn push_method_decls(ms: &Vec<Function>, decls: &mut Vec<Decl>)
    ensures
        decls_v(final(decls)@) == decls_of_methods(functions_v(ms@), 0, decls_v(old(decls)@)),
{
    let mut i: usize = 0;
    while i < ms.len()
        invariant
            i <= ms.len(),
            decls_of_methods(functions_v(ms@), 0, decls_v(old(decls)@)) == decls_of_methods(
                functions_v(ms@),
                i as int,
                decls_v(decls@),
            ),
        decreases ms.len() - i,
    {
        push_decl(decls, mk_decl(&ms[i]));
        i = i + 1;
    }
}

fn collect_decls(items: &Vec<Item>) -> (r: Vec<Decl>)
    ensures
        decls_v(r@) == decls_from(items_v(items@), 0, Seq::empty()),
{
    let mut decls: Vec<Decl> = Vec::new();
    assert(decls_v(decls@) =~= Seq::empty());
    let mut i: usize = 0;
    while i < items.len()
        invariant
            i <= items.len(),
            decls_from(items_v(items@), 0, Seq::empty()) == decls_from(
                items_v(items@),
                i as int,
                decls_v(decls@),
            ),
        decreases items.len() - i,
    {
        let ghost g = item_v(items[i as int]);
        match &items[i] {
            Item::Function(f) => {
                push_decl(&mut decls, mk_decl(f));
            },
            Item::Impl(imp) => {
                let ghost h = imp@;
                push_method_decls(&imp.methods, &mut decls);
            },
            _ => {},
        }
        i = i + 1;
    }
    decls
}

/// The name of the type that an impl block is for.
pub fn target_name(t: &Type) -> (r: String)
    ensures
        r@ == impl_target(t@),
{
    match t {
        Type::Path(p) => {
            let ghost g = path_v(*p);
            if p.segments.len() > 0 {
                p.last_name()
            } else {
                "unknown".to_owned()
            }
        },
        _ => "unknown".to_owned(),
    }
}

fn collect_impls(traits: &Vec<String>, items: &Vec<Item>) -> (r: StrMap<StrList>)
    ensures
        r@ == impls_from(strs_v(traits@), items_v(items@), 0, Map::empty()),
{
    let mut impls: StrMap<StrList> = StrMap::new();
    let mut i: usize = 0;
    while i < items.len()
        invariant
            i <= items.len(),
            impls_from(strs_v(traits@), items_v(items@), 0, Map::empty()) == impls_from(
                strs_v(traits@),
                items_v(items@),
                i as int,
                impls@,
            ),
        decreases items.len() - i,
    {
        let ghost g = item_v(items[i as int]);
        match &items[i] {
            Item::Impl(imp) => {
                add_one_impl(traits, imp, &mut impls);
            },
            _ => {},
        }
        i = i + 1;
    }
    impls
}

fn add_one_impl(traits: &Vec<String>, imp: &ImplBlock, impls: &mut StrMap<StrList>)
    ensures
        final(impls)@ == add_impl(strs_v(traits@), imp@, old(impls)@),
{
    let ghost h = imp@;
    let target = target_name(&imp.target_type);
    if contains_str(traits, &target) {
        return;
    }
    let mut list: Vec<String> = match impls.get(&imp.trait_name) {
        Some(l) => crate::text::dup_strs(&l.items),
        None => Vec::new(),
    };
    if !contains_str(&list, &target) {
        list.push(target);
    }
    impls.insert(&imp.trait_name, StrList { items: list });
}

fn overloads_of(decls: &Vec<Decl>, name: &str) -> (r: Vec<Overload>)
    ensures
        overloads_v(r@) == overloads_named(decls_v(decls@), name@, 0, Seq::empty()),
{
    let mut ovs: Vec<Overload> = Vec::new();
    assert(overloads_v(ovs@) =~= Seq::empty());
    let mut i: usize = 0;
    while i < decls.len()
        invariant
            i <= decls.len(),
            overloads_named(decls_v(decls@), name@, 0, Seq::empty()) == overloads_named(
                decls_v(decls@),
                name@,
                i as int,
                overloads_v(ovs@),
            ),
        decreases decls.len() - i,
    {
        if str_eq(&decls[i].name, name) {
            let ghost before = ovs@;
            let ov = decls[i].overload.dup();
            ovs.push(ov);
            assert(overloads_v(ovs@) =~= overloads_v(before).push(ov@));
        }
        i = i + 1;
    }
    ovs
}

fn overloads_agree(ovs: &Vec<Overload>) -> (r: bool)
    requires
        ovs.len() > 0,
    ensures
        r == agree(overloads_v(ovs@)),
{
    let arity: usize = ovs[0].params.len();
    let ret = gen_type(&ovs[0].ret);
    let mut k: usize = 0;
    while k < ovs.len()
        invariant
            k <= ovs.len(),
            ovs.len() > 0,
            arity == overloads_v(ovs@)[0].params.len(),
            ret@ == cpp_type(overloads_v(ovs@)[0].ret),
            forall|j: int|
                0 <= j < k ==> (#[trigger] overloads_v(ovs@)[j]).params.len() == arity && cpp_type(
                    overloads_v(ovs@)[j].ret,
                ) == ret@,
        decreases ovs.len() - k,
    {
        if ovs[k].params.len() != arity || !str_eq(&gen_type(&ovs[k].ret), &ret) {
            assert(!(overloads_v(ovs@)[k as int].params.len() == arity && cpp_type(
                overloads_v(ovs@)[k as int].ret,
            ) == ret@));
            return false;
        }
        k = k + 1;
    }
    true
}

fn trait_at_position(traits: &Vec<String>, ovs: &Vec<Overload>, i: usize) -> (r: Result<
    Option<String>,
    (),
>)
    ensures
        match r {
            Ok(t) => position_trait(strs_v(traits@), overloads_v(ovs@), i as int, 0, None) == Ok::<
                Option<Seq<char>>,
                (),
            >(crate::text::opt_str_v(t)),
            Err(_) => position_trait(strs_v(traits@), overloads_v(ovs@), i as int, 0, None) is Err,
        },
{
    let mut found: Option<String> = None;
    let mut k: usize = 0;
    while k < ovs.len()
        invariant
            k <= ovs.len(),
            position_trait(strs_v(traits@), overloads_v(ovs@), i as int, 0, None)
                == position_trait(
                strs_v(traits@),
                overloads_v(ovs@),
                i as int,
                k as int,
                crate::text::opt_str_v(found),
            ),
        decreases ovs.len() - k,
    {
        match ovs[k].param_name(i) {
            Some(n) => {
                if contains_str(traits, &n) {
                    match &found {
                        None => {
                            found = Some(n);
                        },
                        Some(m) => {
                            if !str_eq(m, &n) {
                                return Err(());
                            }
                        },
                    }
                }
            },
            None => {},
        }
        k = k + 1;
    }
    Ok(found)
}

fn find_positions(traits: &Vec<String>, ovs: &Vec<Overload>, arity: usize) -> (r: Option<
    Vec<Option<String>>,
>)
    ensures
        match r {
            Some(ps) => positions_from(
                strs_v(traits@),
                overloads_v(ovs@),
                arity as int,
                0,
                Seq::empty(),
            ) == Some(opt_strs_v(ps@)) && ps.len() == arity,
            None => positions_from(
                strs_v(traits@),
                overloads_v(ovs@),
                arity as int,
                0,
                Seq::empty(),
            ) is None,
        },
{
    let mut ps: Vec<Option<String>> = Vec::new();
    assert(opt_strs_v(ps@) =~= Seq::empty());
    let mut i: usize = 0;
    while i < arity
        invariant
            i <= arity,
            ps.len() == i,
            positions_from(strs_v(traits@), overloads_v(ovs@), arity as int, 0, Seq::empty())
                == positions_from(
                strs_v(traits@),
                overloads_v(ovs@),
                arity as int,
                i as int,
                opt_strs_v(ps@),
            ),
        decreases arity - i,
    {
        match trait_at_position(traits, ovs, i) {
            Err(_) => {
                return None;
            },
            Ok(t) => {
                let ghost before = ps@;
                let ghost tv = crate::text::opt_str_v(t);
                ps.push(t);
                assert(opt_strs_v(ps@) =~= opt_strs_v(before).push(tv));
            },
        }
        i = i + 1;
    }
    Some(ps)
}

/// The traits of the positions that have one.
pub fn position_traits(ps: &Vec<Option<String>>) -> (r: Vec<String>)
    ensures
        strs_v(r@) == traits_at(opt_strs_v(ps@), 0, Seq::empty()),
{
    let mut ts: Vec<String> = Vec::new();
    let mut i: usize = 0;
    while i < ps.len()
        invariant
            i <= ps.len(),
            traits_at(opt_strs_v(ps@), 0, Seq::empty()) == traits_at(
                opt_strs_v(ps@),
                i as int,
                strs_v(ts@),
            ),
        decreases ps.len() - i,
    {
        match &ps[i] {
            Some(t) => {
                ts.push(t.clone());
            },
            None => {},
        }
        i = i + 1;
    }
    ts
}

fn all_implemented(impls: &StrMap<StrList>, ts: &Vec<String>) -> (r: bool)
    ensures
        r == !(exists|j: int|
            0 <= j < strs_v(ts@).len() && !is_implemented(impls@, #[trigger] strs_v(ts@)[j])),
{
    let mut j: usize = 0;
    while j < ts.len()
        invariant
            j <= ts.len(),
            forall|k: int| 0 <= k < j ==> is_implemented(impls@, #[trigger] strs_v(ts@)[k]),
        decreases ts.len() - j,
    {
        let ok: bool = match impls.get(&ts[j]) {
            Some(l) => l.items.len() > 0,
            None => false,
        };
        if !ok {
            assert(!is_implemented(impls@, strs_v(ts@)[j as int]));
            return false;
        }
        j = j + 1;
    }
    true
}

fn fixed_positions_agree(ovs: &Vec<Overload>, ps: &Vec<Option<String>>) -> (r: bool)
    requires
        ovs.len() > 0,
        agree(overloads_v(ovs@)),
        ps.len() == ovs[0].params.len(),
    ensures
        r == fixed_agree(overloads_v(ovs@), opt_strs_v(ps@)),
{
    let ghost os = overloads_v(ovs@);
    let ghost qs = opt_strs_v(ps@);
    let mut i: usize = 0;
    while i < ps.len()
        invariant
            i <= ps.len(),
            ovs.len() > 0,
            os == overloads_v(ovs@),
            qs == opt_strs_v(ps@),
            agree(os),
            ps.len() == ovs[0].params.len(),
            forall|x: int, k: int|
                0 <= x < i && qs[x] is None && 0 <= k < os.len() ==> cpp_type(
                    (#[trigger] os[k]).params[x],
                ) == cpp_type(#[trigger] os[0].params[x]),
        decreases ps.len() - i,
    {
        if ps[i].is_none() {
            let first = gen_type(&ovs[0].params[i]);
            let mut k: usize = 0;
            while k < ovs.len()
                invariant
                    k <= ovs.len(),
                    i < ps.len(),
                    ovs.len() > 0,
                    os == overloads_v(ovs@),
                    qs == opt_strs_v(ps@),
                    agree(os),
                    qs[i as int] is None,
                    ps.len() == ovs[0].params.len(),
                    first@ == cpp_type(os[0].params[i as int]),
                    forall|j: int|
                        0 <= j < k ==> cpp_type((#[trigger] os[j]).params[i as int]) == first@,
                decreases ovs.len() - k,
            {
                assert(os[k as int].params.len() == os[0].params.len());
                if !str_eq(&gen_type(&ovs[k].params[i]), &first) {
                    assert(cpp_type(os[k as int].params[i as int]) != cpp_type(
                        os[0].params[i as int],
                    ));
                    return false;
                }
                k = k + 1;
            }
        }
        i = i + 1;
    }
    true
}

fn overload_is_generic(ov: &Overload, ps: &Vec<Option<String>>) -> (r: bool)
    ensures
        r == is_generic(ov@, opt_strs_v(ps@)),
{
    let mut i: usize = 0;
    while i < ps.len()
        invariant
            i <= ps.len(),
            forall|k: int|
                0 <= k < i ==> ((#[trigger] opt_strs_v(ps@)[k]) matches Some(t) ==> param_name(
                    ov@,
                    k,
                ) == Some(t)),
        decreases ps.len() - i,
    {
        match &ps[i] {
            Some(t) => {
                let same: bool = match ov.param_name(i) {
                    Some(n) => str_eq(&n, t),
                    None => false,
                };
                if !same {
                    assert(opt_strs_v(ps@)[i as int] == Some(t@));
                    return false;
                }
            },
            None => {},
        }
        i = i + 1;
    }
    true
}

fn has_generic(ovs: &Vec<Overload>, ps: &Vec<Option<String>>) -> (r: bool)
    ensures
        r == (exists|k: int|
            0 <= k < overloads_v(ovs@).len() && is_generic(
                #[trigger] overloads_v(ovs@)[k],
                opt_strs_v(ps@),
            )),
{
    let mut k: usize = 0;
    while k < ovs.len()
        invariant
            k <= ovs.len(),
            forall|j: int|
                0 <= j < k ==> !is_generic(#[trigger] overloads_v(ovs@)[j], opt_strs_v(ps@)),
        decreases ovs.len() - k,
    {
        if overload_is_generic(&ovs[k], ps) {
            assert(is_generic(overloads_v(ovs@)[k as int], opt_strs_v(ps@)));
            return true;
        }
        k = k + 1;
    }
    false
}

fn find_dispatch(
    traits: &Vec<String>,
    impls: &StrMap<StrList>,
    name: &str,
    ovs: Vec<Overload>,
) -> (r: Option<DispatchInfo>)
    ensures
        match r {
            Some(d) => dispatch_info(strs_v(traits@), impls@, name@, overloads_v(ovs@)) == Some(d@),
            None => dispatch_info(strs_v(traits@), impls@, name@, overloads_v(ovs@)) is None,
        },
{
    if ovs.len() < 2 || !overloads_agree(&ovs) {
        return None;
    }
    let positions = match find_positions(traits, &ovs, ovs[0].params.len()) {
        None => {
            return None;
        },
        Some(ps) => ps,
    };
    let ts = position_traits(&positions);
    if ts.len() == 0 || ts.len() > 4 {
        return None;
    }
    if !all_implemented(impls, &ts) {
        return None;
    }
    if !fixed_positions_agree(&ovs, &positions) {
        return None;
    }
    let has_generic_fallback: bool = has_generic(&ovs, &positions);
    Some(DispatchInfo { name: name.to_owned(), positions, overloads: ovs, has_generic_fallback })
}

pub fn text_less(a: &str, b: &str) -> (r: bool)
    ensures
        r == text_before(a@, b@, 0),
{
    let x = chars_of(a);
    let y = chars_of(b);
    let mut i: usize = 0;
    while i < x.len() && i < y.len()
        invariant
            x@ == a@,
            y@ == b@,
            i <= x.len(),
            i <= y.len(),
            text_before(a@, b@, 0) == text_before(a@, b@, i as int),
        decreases x.len() - i,
    {
        if x[i] != y[i] {
            return x[i] < y[i];
        }
        i = i + 1;
    }
    i < y.len()
}

fn is_declared_before(decls: &Vec<Decl>, k: usize) -> (r: bool)
    requires
        k < decls.len(),
    ensures
        r == declared_before(decls_v(decls@), k as int),
{
    let mut j: usize = 0;
    while j < k
        invariant
            j <= k < decls.len(),
            forall|m: int|
                0 <= m < j ==> (#[trigger] decls_v(decls@)[m]).name != decls_v(
                    decls@,
                )[k as int].name,
        decreases k - j,
    {
        if str_eq(&decls[j].name, &decls[k].name) {
            assert(decls_v(decls@)[j as int].name == decls_v(decls@)[k as int].name);
            return true;
        }
        j = j + 1;
    }
    false
}

fn collect_dispatch(traits: &Vec<String>, impls: &StrMap<StrList>, decls: &Vec<Decl>) -> (r: Vec<
    DispatchInfo,
>)
    ensures
        dispatches_v(r@) == dispatch_from(
            strs_v(traits@),
            impls@,
            decls_v(decls@),
            0,
            Seq::empty(),
        ),
{
    let mut out: Vec<DispatchInfo> = Vec::new();
    assert(dispatches_v(out@) =~= Seq::empty());
    let mut k: usize = 0;
    while k < decls.len()
        invariant
            k <= decls.len(),
            dispatch_from(strs_v(traits@), impls@, decls_v(decls@), 0, Seq::empty())
                == dispatch_from(
                strs_v(traits@),
                impls@,
                decls_v(decls@),
                k as int,
                dispatches_v(out@),
            ),
        decreases decls.len() - k,
    {
        if !is_declared_before(decls, k) {
            let ovs = overloads_of(decls, &decls[k].name);
            match find_dispatch(traits, impls, &decls[k].name, ovs) {
                None => {},
                Some(d) => {
                    insert_sorted(&mut out, d);
                },
            }
        }
        k = k + 1;
    }
    out
}

fn insert_sorted(out: &mut Vec<DispatchInfo>, d: DispatchInfo)
    ensures
        dispatches_v(final(out)@) == dispatches_v(old(out)@).insert(
            sorted_place(dispatches_v(old(out)@), d@.name, 0),
            d@,
        ),
{
    let mut i: usize = 0;
    while i < out.len() && text_less(&out[i].name, &d.name)
        invariant
            *out == *old(out),
            i <= out.len(),
            sorted_place(dispatches_v(out@), d@.name, 0) == sorted_place(
                dispatches_v(out@),
                d@.name,
                i as int,
            ),
        decreases out.len() - i,
    {
        i = i + 1;
    }
    out.insert(i, d);
    assert(dispatches_v(out@) =~= dispatches_v(old(out)@).insert(i as int, d@));
}

} // verus!
