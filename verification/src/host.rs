//! What only the outside can tell: the files on disk and the results of floating-point
//! arithmetic. A computation is given what is known so far; where it needs more it stops
//! with a question, and is run again with the answer.
use vstd::prelude::*;
use crate::error::{CompileError, CompileErrorV};
use crate::maps::{Dup, StrMap};
use crate::text::{cat2, cat3, chars_of, str_eq};

verus! {

use crate::maps::list_v;

/// What is known of the file at a path.
#[derive(Debug)]
pub enum FileState {
    Missing,
    Text(String),
    /// It is there and cannot be read, for this reason.
    Unreadable(String),
}

/// The model of a [`FileState`].
#[verifier::ext_equal]
pub enum FileV {
    Missing,
    Text(Seq<char>),
    Unreadable(Seq<char>),
}

impl View for FileState {
    type V = FileV;

    open spec fn view(&self) -> FileV {
        match self {
            FileState::Missing => FileV::Missing,
            FileState::Text(s) => FileV::Text(s@),
            FileState::Unreadable(s) => FileV::Unreadable(s@),
        }
    }
}

impl Dup for FileState {
    fn copy(&self) -> (r: Self) {
        match self {
            FileState::Missing => FileState::Missing,
            FileState::Text(s) => FileState::Text(s.clone()),
            FileState::Unreadable(s) => FileState::Unreadable(s.clone()),
        }
    }
}

/// An operation on floating-point numbers, which are written as decimal texts. A
/// comparison gives `true` or `false`. Operations on one number leave the second empty.
#[derive(Debug, Clone, Copy, PartialEq, Eq, Structural)]
pub enum FloatOp {
    Neg,
    Add,
    Sub,
    Mul,
    Div,
    Equal,
    Less,
    Greater,
    LessOrEqual,
    GreaterOrEqual,
    /// The shortest text that gives the number back.
    Show,
    /// The same with a point in every case.
    ShowDebug,
    /// The text with six decimal places.
    ShowFixed,
}

/// The result of an operation.
#[derive(Debug)]
pub struct FloatFact {
    pub op: FloatOp,
    pub a: String,
    pub b: String,
    pub result: String,
}

/// The model of a [`FloatFact`].
#[verifier::ext_equal]
pub struct FloatFactV {
    pub op: FloatOp,
    pub a: Seq<char>,
    pub b: Seq<char>,
    pub result: Seq<char>,
}

impl View for FloatFact {
    type V = FloatFactV;

    open spec fn view(&self) -> FloatFactV {
        FloatFactV { op: self.op, a: self.a@, b: self.b@, result: self.result@ }
    }
}

/// What is known of the outside.
#[derive(Debug)]
pub struct Host {
    files: StrMap<FileState>,
    floats: Vec<FloatFact>,
}

/// The model of a [`Host`].
#[verifier::ext_equal]
pub struct HostV {
    pub files: Map<Seq<char>, FileV>,
    pub floats: Seq<FloatFactV>,
}

impl View for Host {
    type V = HostV;

    closed spec fn view(&self) -> HostV {
        HostV { files: self.files@, floats: list_v(self.floats@) }
    }
}

/// Why a computation ended without a value.
#[derive(Debug)]
pub enum Stop {
    Error(CompileError),
    /// The file at this path is asked for.
    AskFile(String),
    /// The result of this operation is asked for.
    AskFloat(FloatOp, String, String),
    /// The program ended itself with this code.
    Exit(i32),
    /// It took too long.
    OutOfFuel,
}

/// The model of a [`Stop`].
#[verifier::ext_equal]
pub enum StopV {
    Error(CompileErrorV),
    AskFile(Seq<char>),
    AskFloat(FloatOp, Seq<char>, Seq<char>),
    Exit(i32),
    OutOfFuel,
}

impl View for Stop {
    type V = StopV;

    open spec fn view(&self) -> StopV {
        match self {
            Stop::Error(e) => StopV::Error(e@),
            Stop::AskFile(p) => StopV::AskFile(p@),
            Stop::AskFloat(op, a, b) => StopV::AskFloat(*op, a@, b@),
            Stop::Exit(n) => StopV::Exit(*n),
            Stop::OutOfFuel => StopV::OutOfFuel,
        }
    }
}

/// The model of a result that may have stopped.
pub open spec fn ran<T: View>(r: Result<T, Stop>) -> Result<T::V, StopV> {
    match r {
        Ok(x) => Ok(x@),
        Err(s) => Err(s@),
    }
}

/// A result of the compiler as one that may have stopped.
pub open spec fn or_stop<T>(r: Result<T, CompileErrorV>) -> Result<T, StopV> {
    match r {
        Ok(x) => Ok(x),
        Err(e) => Err(StopV::Error(e)),
    }
}

/// The result of an operation, if one of the facts from `i` on says it.
pub open spec fn fact_of(
    fs: Seq<FloatFactV>,
    op: FloatOp,
    a: Seq<char>,
    b: Seq<char>,
    i: int,
) -> Option<Seq<char>>
    decreases fs.len() - i,
{
    if 0 <= i < fs.len() {
        if fs[i].op == op && fs[i].a == a && fs[i].b == b {
            Some(fs[i].result)
        } else {
            fact_of(fs, op, a, b, i + 1)
        }
    } else {
        None
    }
}

/// The result of an operation, or the question.
pub open spec fn float_result(h: HostV, op: FloatOp, a: Seq<char>, b: Seq<char>) -> Result<
    Seq<char>,
    StopV,
> {
    match fact_of(h.floats, op, a, b, 0) {
        Some(r) => Ok(r),
        None => Err(StopV::AskFloat(op, a, b)),
    }
}

/// Whether a comparison holds, or the question.
pub open spec fn float_holds(h: HostV, op: FloatOp, a: Seq<char>, b: Seq<char>) -> Result<
    bool,
    StopV,
> {
    match float_result(h, op, a, b) {
        Ok(r) => Ok(r == "true"@),
        Err(s) => Err(s),
    }
}

/// What is known of a file, or the question.
pub open spec fn file_at(h: HostV, path: Seq<char>) -> Result<FileV, StopV> {
    if h.files.contains_key(path) {
        Ok(h.files[path])
    } else {
        Err(StopV::AskFile(path))
    }
}

/// A path below a directory; an absolute path stands for itself.
pub open spec fn joined_path(dir: Seq<char>, path: Seq<char>) -> Seq<char> {
    if dir.len() == 0 || (path.len() > 0 && path[0] == '/') {
        path
    } else if dir.last() == '/' {
        dir + path
    } else {
        dir + "/"@ + path
    }
}

pub fn join_path(dir: &str, path: &str) -> (r: String)
    ensures
        r@ == joined_path(dir@, path@),
{
    let d = chars_of(dir);
    let p = chars_of(path);
    if d.len() == 0 || (p.len() > 0 && p[0] == '/') {
        path.to_owned()
    } else if d[d.len() - 1] == '/' {
        cat2(dir, path)
    } else {
        cat3(dir, "/", path)
    }
}

impl Host {
    /// Nothing is known.
    pub fn new() -> (r: Host)
        ensures
            r@ == (HostV { files: Map::empty(), floats: Seq::empty() }),
    {
        let r = Host { files: StrMap::new(), floats: Vec::new() };
        assert(list_v(r.floats@) =~= Seq::empty());
        r
    }

    /// The state of a file is told.
    pub fn tell_file(&mut self, path: &str, state: FileState)
        ensures
            final(self)@ == (HostV { files: old(self)@.files.insert(path@, state@), ..old(self)@ }),
    {
        self.files.insert(path, state);
    }

    /// The result of an operation is told.
    pub fn tell_float(&mut self, fact: FloatFact)
        ensures
            final(self)@ == (HostV { floats: old(self)@.floats.push(fact@), ..old(self)@ }),
    {
        self.floats.push(fact);
        assert(list_v(self.floats@) =~= list_v(old(self).floats@).push(fact@));
    }

    /// The result of an operation, or the question.
    pub fn float(&self, op: FloatOp, a: &str, b: &str) -> (r: Result<String, Stop>)
        ensures
            ran(r) == float_result(self@, op, a@, b@),
    {
        let mut i: usize = 0;
        while i < self.floats.len()
            invariant
                i <= self.floats.len(),
                fact_of(self@.floats, op, a@, b@, 0) == fact_of(
                    self@.floats,
                    op,
                    a@,
                    b@,
                    i as int,
                ),
            decreases self.floats.len() - i,
        {
            let ghost f = list_v(self.floats@)[i as int];
            if self.floats[i].op == op && str_eq(&self.floats[i].a, a) && str_eq(
                &self.floats[i].b,
                b,
            ) {
                return Ok(self.floats[i].result.clone());
            }
            i = i + 1;
        }
        Err(Stop::AskFloat(op, a.to_owned(), b.to_owned()))
    }

    /// Whether a comparison holds, or the question.
    pub fn compare(&self, op: FloatOp, a: &str, b: &str) -> (r: Result<bool, Stop>)
        ensures
            (match r {
                Ok(x) => Ok::<bool, StopV>(x),
                Err(s) => Err(s@),
            }) == float_holds(self@, op, a@, b@),
    {
        let text = self.float(op, a, b)?;
        Ok(str_eq(&text, "true"))
    }

    /// What is known of a file, or the question.
    pub fn file(&self, path: &str) -> (r: Result<FileState, Stop>)
        ensures
            ran(r) == file_at(self@, path@),
    {
        match self.files.get(path) {
            Some(s) => Ok(s.copy()),
            None => Err(Stop::AskFile(path.to_owned())),
        }
    }
}

/// What was told of a file is what is known of it.
pub proof fn law_told_file(h: HostV, path: Seq<char>, state: FileV)
    ensures
        file_at(
            HostV { files: h.files.insert(path, state), ..h },
            path,
        ) == Ok::<FileV, StopV>(state),
{
}

} // verus!
