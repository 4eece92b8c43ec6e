//! Maps with text keys, kept as lists of entries in which a later entry for a
//! key hides an earlier one.
use vstd::prelude::*;
use crate::ast::{Enum, Function, Item, Struct, Type, TypeAlias};
use crate::model::TypeV;
use crate::text::str_eq;

verus! {

use crate::model::{functions_v, types_v};
use crate::text::strs_v;

/// A value that can be copied with the same model.
pub trait Dup: View + Sized {
    fn copy(&self) -> (r: Self)
        ensures
            r@ == self@,
    ;
}

impl Dup for Type {
    fn copy(&self) -> (r: Self) {
        self.dup()
    }
}

impl Dup for Struct {
    fn copy(&self) -> (r: Self) {
        self.dup()
    }
}

impl Dup for Enum {
    fn copy(&self) -> (r: Self) {
        self.dup()
    }
}

impl Dup for TypeAlias {
    fn copy(&self) -> (r: Self) {
        self.dup()
    }
}

impl Dup for Item {
    fn copy(&self) -> (r: Self) {
        self.dup()
    }
}

impl Dup for String {
    fn copy(&self) -> (r: Self) {
        self.clone()
    }
}

/// The models of a list.
pub open spec fn list_v<T: View>(s: Seq<T>) -> Seq<T::V> {
    Seq::new(s.len(), |i: int| s[i]@)
}

pub broadcast proof fn lemma_list_push<T: View>(s: Seq<T>, x: T)
    ensures
        #[trigger] list_v(s.push(x)) == list_v(s).push(x@),
{
    assert(list_v(s.push(x)) =~= list_v(s).push(x@));
}

pub broadcast proof fn lemma_list_empty<T: View>()
    ensures
        #[trigger] list_v(Seq::<T>::empty()) == Seq::<T::V>::empty(),
{
    assert(list_v(Seq::<T>::empty()) =~= Seq::<T::V>::empty());
}

/// A list of types.
#[derive(Debug)]
pub struct TypeList {
    pub types: Vec<Type>,
}

impl View for TypeList {
    type V = Seq<TypeV>;

    open spec fn view(&self) -> Seq<TypeV> {
        types_v(self.types@)
    }
}

impl Dup for TypeList {
    fn copy(&self) -> (r: Self) {
        TypeList { types: crate::model::dup_types(&self.types) }
    }
}

/// A list of texts.
#[derive(Debug)]
pub struct StrList {
    pub items: Vec<String>,
}

impl View for StrList {
    type V = Seq<Seq<char>>;

    open spec fn view(&self) -> Seq<Seq<char>> {
        strs_v(self.items@)
    }
}

impl Dup for StrList {
    fn copy(&self) -> (r: Self) {
        StrList { items: crate::text::dup_strs(&self.items) }
    }
}

/// A list of functions.
#[derive(Debug)]
pub struct FunctionList {
    pub functions: Vec<Function>,
}

impl View for FunctionList {
    type V = Seq<crate::model::FunctionV>;

    open spec fn view(&self) -> Seq<crate::model::FunctionV> {
        functions_v(self.functions@)
    }
}

impl Dup for FunctionList {
    fn copy(&self) -> (r: Self) {
        FunctionList { functions: crate::model::dup_functions(&self.functions) }
    }
}

/// The map that a list of entries stands for.
pub open spec fn entries_map<T: View>(es: Seq<(String, T)>) -> Map<Seq<char>, T::V>
    decreases es.len(),
{
    if es.len() == 0 {
        Map::empty()
    } else {
        entries_map(es.drop_last()).insert(es.last().0@, es.last().1@)
    }
}

/// The value of a key, if it has one.
pub open spec fn lookup<V>(m: Map<Seq<char>, V>, k: Seq<char>) -> Option<V> {
    if m.contains_key(k) {
        Some(m[k])
    } else {
        None
    }
}

/// A map from texts.
#[derive(Debug)]
pub struct StrMap<T> {
    entries: Vec<(String, T)>,
}

impl<T: View> View for StrMap<T> {
    type V = Map<Seq<char>, T::V>;

    closed spec fn view(&self) -> Map<Seq<char>, T::V> {
        entries_map(self.entries@)
    }
}

impl<T: Dup> StrMap<T> {
    pub fn new() -> (r: Self)
        ensures
            r@ == Map::<Seq<char>, T::V>::empty(),
    {
        StrMap { entries: Vec::new() }
    }

    pub fn insert(&mut self, key: &str, value: T)
        ensures
            final(self)@ == old(self)@.insert(key@, value@),
    {
        let ghost before = self.entries@;
        self.entries.push((key.to_owned(), value));
        assert(self.entries@.drop_last() =~= before);
    }

    pub fn get(&self, key: &str) -> (r: Option<&T>)
        ensures
            match r {
                Some(v) => lookup(self@, key@) == Some(v@),
                None => lookup(self@, key@) is None,
            },
    {
        let mut i: usize = self.entries.len();
        assert(self.entries@.take(i as int) =~= self.entries@);
        while i > 0
            invariant
                i <= self.entries.len(),
                lookup(self@, key@) == lookup(
                    entries_map(self.entries@.take(i as int)),
                    key@,
                ),
            decreases i,
        {
            i = i - 1;
            assert(self.entries@.take(i + 1).drop_last() =~= self.entries@.take(i as int));
            if str_eq(&self.entries[i].0, key) {
                return Some(&self.entries[i].1);
            }
        }
        None
    }

    pub fn contains(&self, key: &str) -> (r: bool)
        ensures
            r == self@.contains_key(key@),
    {
        self.get(key).is_some()
    }

    pub fn copy(&self) -> (r: Self)
        ensures
            r@ == self@,
    {
        let mut out: StrMap<T> = StrMap::new();
        let mut i: usize = 0;
        assert(self.entries@.take(0) =~= Seq::empty());
        while i < self.entries.len()
            invariant
                i <= self.entries.len(),
                out@ == entries_map(self.entries@.take(i as int)),
            decreases self.entries.len() - i,
        {
            assert(self.entries@.take(i + 1).drop_last() =~= self.entries@.take(i as int));
            out.insert(&self.entries[i].0, self.entries[i].1.copy());
            i = i + 1;
        }
        assert(self.entries@.take(i as int) =~= self.entries@);
        out
    }
}

/// Whether a text is in a list.
pub fn contains_str(v: &Vec<String>, s: &str) -> (r: bool)
    ensures
        r == strs_v(v@).contains(s@),
{
    let mut i: usize = 0;
    while i < v.len()
        invariant
            i <= v.len(),
            forall|k: int| 0 <= k < i ==> strs_v(v@)[k] != s@,
        decreases v.len() - i,
    {
        if str_eq(&v[i], s) {
            assert(strs_v(v@)[i as int] == s@);
            return true;
        }
        i = i + 1;
    }
    false
}

} // verus!
