//! The names of paths.
use vstd::prelude::*;
use crate::ast::{Path, PathSegment, Type};
use crate::model::{PathSegmentV, PathV, TypeV};
use crate::text::join;

verus! {

use crate::grammar::segment_names;
use crate::model::{group_list_views, path_segment_v, path_segments_v, path_v, types_v};
use crate::text::{join_v, strs_v};

broadcast use group_list_views;

/// The names of a path with `::` between them.
pub open spec fn path_key(p: PathV) -> Seq<char> {
    join_v(segment_names(p.segments), "::"@)
}

/// The last name of a path, or nothing.
pub open spec fn last_name(p: PathV) -> Seq<char> {
    if p.segments.len() > 0 {
        p.segments.last().name
    } else {
        Seq::empty()
    }
}

/// The arguments of the last segment of a path.
pub open spec fn last_args(p: PathV) -> Seq<TypeV> {
    if p.segments.len() > 0 {
        p.segments.last().args
    } else {
        Seq::empty()
    }
}

/// The segments of a path of plain names.
pub open spec fn plain_segments(names: Seq<Seq<char>>) -> Seq<PathSegmentV> {
    Seq::new(names.len(), |j: int| PathSegmentV { name: names[j], args: Seq::empty() })
}

pub fn names_of(segs: &Vec<PathSegment>) -> (r: Vec<String>)
    ensures
        strs_v(r@) == segment_names(path_segments_v(segs@)),
{
    let mut names: Vec<String> = Vec::new();
    let mut k: usize = 0;
    while k < segs.len()
        invariant
            k <= segs.len(),
            names.len() == k,
            forall|j: int| 0 <= j < k ==> (#[trigger] names[j])@ == path_segments_v(segs@)[j].name,
        decreases segs.len() - k,
    {
        let ghost g = path_segment_v(segs[k as int]);
        names.push(segs[k].name.clone());
        k = k + 1;
    }
    assert(strs_v(names@) =~= segment_names(path_segments_v(segs@)));
    names
}

impl Path {
    /// The names with `::` between them.
    pub fn key(&self) -> (r: String)
        ensures
            r@ == path_key(self@),
    {
        join(&names_of(&self.segments), "::")
    }

    /// The last name, or nothing.
    pub fn last_name(&self) -> (r: String)
        ensures
            r@ == last_name(self@),
    {
        let n: usize = self.segments.len();
        if n > 0 {
            let ghost g = path_segment_v(self.segments[n - 1]);
            self.segments[n - 1].name.clone()
        } else {
            String::new()
        }
    }

    /// The arguments of the last segment.
    pub fn last_args(&self) -> (r: Vec<Type>)
        ensures
            types_v(r@) == last_args(self@),
    {
        let n: usize = self.segments.len();
        if n > 0 {
            let ghost g = path_segment_v(self.segments[n - 1]);
            crate::model::dup_types(&self.segments[n - 1].args)
        } else {
            Vec::new()
        }
    }

    /// The path of plain names.
    pub fn of_names(names: &Vec<String>) -> (r: Path)
        ensures
            r@ == (PathV { segments: plain_segments(strs_v(names@)) }),
    {
        let mut segments: Vec<PathSegment> = Vec::new();
        let mut k: usize = 0;
        while k < names.len()
            invariant
                k <= names.len(),
                path_segments_v(segments@) == plain_segments(strs_v(names@).take(k as int)),
            decreases names.len() - k,
        {
            let seg = PathSegment { name: names[k].clone(), args: Vec::new() };
            let ghost g = path_segment_v(seg);
            segments.push(seg);
            k = k + 1;
            assert(path_segments_v(segments@) =~= plain_segments(strs_v(names@).take(k as int)));
        }
        assert(strs_v(names@).take(k as int) =~= strs_v(names@));
        Path { segments }
    }
}

/// A path of one segment with these arguments.
pub open spec fn applied_type(name: Seq<char>, args: Seq<TypeV>) -> TypeV {
    TypeV::Path(PathV { segments: seq![PathSegmentV { name, args }] })
}

impl Type {
    /// A named type with these arguments.
    pub fn applied(name: &str, args: Vec<Type>) -> (r: Type)
        ensures
            r@ == applied_type(name@, types_v(args@)),
    {
        let seg = PathSegment { name: name.to_owned(), args };
        let ghost g = path_segment_v(seg);
        let mut segments: Vec<PathSegment> = Vec::new();
        segments.push(seg);
        assert(path_segments_v(segments@) =~= seq![g]);
        let path = Path { segments };
        let ghost p = path_v(path);
        Type::Path(path)
    }
}

} // verus!
