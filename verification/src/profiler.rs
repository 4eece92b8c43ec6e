//! How long the phases of the compiler take.
//!
//! Phases begin and end in pairs and may nest. The times of the phases of one name are
//! added up, and the names that have ended are listed in the order of their first use.
use vstd::prelude::*;

verus! {

use crate::maps::{lemma_list_empty, lemma_list_push, list_v};
use crate::text::str_eq;

broadcast use {lemma_list_push, lemma_list_empty};

/// `std::time::Instant`, a moment of a clock that never goes back.
#[verifier::external_type_specification]
#[verifier::external_body]
pub struct ExInstant(std::time::Instant);

/// Calls `std::time::Instant::now`. Which moment comes back is left open: it is the
/// clock's.
#[verifier::external_body]
fn now() -> std::time::Instant {
    std::time::Instant::now()
}

/// Calls `std::time::Instant::elapsed` and gives the time in nanoseconds. How long it is
/// is left open: it is the clock's.
#[verifier::external_body]
fn nanos_since(start: &std::time::Instant) -> u128 {
    start.elapsed().as_nanos()
}

/// A phase that has begun: its name and the reading of the clock when it did.
#[derive(Debug)]
struct Open {
    name: String,
    start: u128,
}

impl View for Open {
    type V = (Seq<char>, int);

    closed spec fn view(&self) -> (Seq<char>, int) {
        (self.name@, self.start as int)
    }
}

/// The time that all phases of a name took, in nanoseconds.
#[derive(Debug)]
pub struct Phase {
    pub name: String,
    pub nanos: u128,
}

impl View for Phase {
    type V = (Seq<char>, int);

    open spec fn view(&self) -> (Seq<char>, int) {
        (self.name@, self.nanos as int)
    }
}

/// A name in the order of first use, and the time of its phases once one of them has ended.
#[derive(Debug)]
struct Entry {
    name: String,
    nanos: Option<u128>,
}

impl View for Entry {
    type V = (Seq<char>, Option<int>);

    closed spec fn view(&self) -> (Seq<char>, Option<int>) {
        (
            self.name@,
            match self.nanos {
                Some(n) => Some(n as int),
                None => None,
            },
        )
    }
}

/// The profiler; one that is not enabled does nothing. A reading of its clock is the time
/// since it was made, in nanoseconds.
#[derive(Debug)]
pub struct Profiler {
    enabled: bool,
    origin: std::time::Instant,
    stack: Vec<Open>,
    entries: Vec<Entry>,
}

/// The model of a [`Profiler`].
#[verifier::ext_equal]
pub struct ProfilerV {
    pub enabled: bool,
    /// The phases that have begun, the innermost last, with the reading at which they did.
    pub stack: Seq<(Seq<char>, int)>,
    /// The names of the phases in the order of their first beginning, with their times once
    /// one of them has ended.
    pub entries: Seq<(Seq<char>, Option<int>)>,
}

impl View for Profiler {
    type V = ProfilerV;

    closed spec fn view(&self) -> ProfilerV {
        ProfilerV {
            enabled: self.enabled,
            stack: list_v(self.stack@),
            entries: list_v(self.entries@),
        }
    }
}

/// Two times added, up to the longest that can be told.
pub open spec fn sum_of(a: int, b: int) -> int {
    if a + b <= u128::MAX {
        a + b
    } else {
        u128::MAX as int
    }
}

/// Where a name stands among the entries from `i` on.
pub open spec fn entry_place(
    es: Seq<(Seq<char>, Option<int>)>,
    name: Seq<char>,
    i: int,
) -> Option<int>
    decreases es.len() - i,
{
    if 0 <= i < es.len() {
        if es[i].0 == name {
            Some(i)
        } else {
            entry_place(es, name, i + 1)
        }
    } else {
        None
    }
}

/// The entries with this name among them, at the end and without a time if it is new.
pub open spec fn entered(es: Seq<(Seq<char>, Option<int>)>, name: Seq<char>) -> Seq<
    (Seq<char>, Option<int>),
> {
    match entry_place(es, name, 0) {
        Some(_) => es,
        None => es.push((name, None)),
    }
}

/// The time so far with one more.
pub open spec fn lengthened(time: Option<int>, nanos: int) -> int {
    match time {
        Some(n) => sum_of(n, nanos),
        None => nanos,
    }
}

/// The entries with one more time for this name.
pub open spec fn accumulated(
    es: Seq<(Seq<char>, Option<int>)>,
    name: Seq<char>,
    nanos: int,
) -> Seq<(Seq<char>, Option<int>)> {
    match entry_place(es, name, 0) {
        Some(k) => es.update(k, (name, Some(lengthened(es[k].1, nanos)))),
        None => es,
    }
}

/// The names among the first `n` that have a time, with it.
pub open spec fn finished(es: Seq<(Seq<char>, Option<int>)>, n: int) -> Seq<(Seq<char>, int)>
    decreases n,
{
    if 0 < n <= es.len() {
        match es[n - 1].1 {
            Some(t) => finished(es, n - 1).push((es[n - 1].0, t)),
            None => finished(es, n - 1),
        }
    } else {
        Seq::empty()
    }
}

/// The phases that have ended, in the order of their first beginning, with their times.
pub open spec fn phases_of(p: ProfilerV) -> Seq<(Seq<char>, int)> {
    finished(p.entries, p.entries.len() as int)
}

/// The time from one reading to another; none if the clock went back.
pub open spec fn elapsed(from: int, to: int) -> int {
    if from <= to {
        to - from
    } else {
        0
    }
}

/// A phase begins at this reading.
pub open spec fn started(p: ProfilerV, name: Seq<char>, now: int) -> ProfilerV {
    if p.enabled {
        ProfilerV { stack: p.stack.push((name, now)), entries: entered(p.entries, name), ..p }
    } else {
        p
    }
}

/// The innermost phase ends at this reading. Where none has begun nothing happens.
pub open spec fn ended(p: ProfilerV, now: int) -> ProfilerV {
    if p.enabled && p.stack.len() > 0 {
        ProfilerV {
            stack: p.stack.drop_last(),
            entries: accumulated(p.entries, p.stack.last().0, elapsed(p.stack.last().1, now)),
            ..p
        }
    } else {
        p
    }
}

/// Every phase that has begun has an entry.
pub open spec fn holds_open(p: ProfilerV) -> bool {
    forall|i: int|
        0 <= i < p.stack.len() ==> entry_place(p.entries, (#[trigger] p.stack[i]).0, 0) is Some
}

/// The names of the entries, in order.
pub open spec fn entry_names(es: Seq<(Seq<char>, Option<int>)>) -> Seq<Seq<char>> {
    Seq::new(es.len(), |i: int| es[i].0)
}

/// The times of the first `n` phases added up.
pub open spec fn total_of(ps: Seq<(Seq<char>, int)>, n: int) -> int
    decreases n,
{
    if 0 < n <= ps.len() {
        sum_of(total_of(ps, n - 1), ps[n - 1].1)
    } else {
        0
    }
}

proof fn lemma_total_prefix(a: Seq<(Seq<char>, int)>, b: Seq<(Seq<char>, int)>, n: int)
    requires
        0 <= n <= a.len() <= b.len(),
        forall|i: int| 0 <= i < n ==> #[trigger] a[i] == b[i],
    ensures
        total_of(a, n) == total_of(b, n),
    decreases n,
{
    if n > 0 {
        lemma_total_prefix(a, b, n - 1);
        assert(a[n - 1] == b[n - 1]);
    }
}

/// A profiler that is not enabled stays as it is.
pub proof fn law_disabled(p: ProfilerV, name: Seq<char>, now: int)
    requires
        !p.enabled,
    ensures
        started(p, name, now) == p,
        ended(p, now) == p,
{
}

/// A phase that begins and ends leaves the phases around it open and adds the time between.
pub proof fn law_balanced(p: ProfilerV, name: Seq<char>, from: int, to: int)
    requires
        p.enabled,
    ensures
        ended(started(p, name, from), to) == (ProfilerV {
            entries: accumulated(entered(p.entries, name), name, elapsed(from, to)),
            ..p
        }),
{
    assert(p.stack.push((name, from)).drop_last() =~= p.stack);
}

/// An end without a beginning changes nothing.
pub proof fn law_unbalanced(p: ProfilerV, now: int)
    requires
        p.stack.len() == 0,
    ensures
        ended(p, now) == p,
{
}

/// Names are kept in the order of their first beginning: a beginning adds a new name at the
/// end, and an end changes no name.
pub proof fn law_first_use_order(p: ProfilerV, name: Seq<char>, now: int)
    requires
        p.enabled,
    ensures
        entry_names(started(p, name, now).entries) == (if entry_names(p.entries).contains(name) {
            entry_names(p.entries)
        } else {
            entry_names(p.entries).push(name)
        }),
        entry_names(ended(p, now).entries) == entry_names(p.entries),
{
    lemma_entry_place(p.entries, name, 0);
    let names = entry_names(p.entries);
    if entry_place(p.entries, name, 0) is Some {
        assert(names[entry_place(p.entries, name, 0)->0] == name);
    } else {
        assert(!names.contains(name));
    }
    assert(entry_names(p.entries.push((name, None))) =~= names.push(name));
    if p.stack.len() > 0 {
        lemma_entry_place(p.entries, p.stack.last().0, 0);
        assert(entry_names(ended(p, now).entries) =~= names);
    }
}

/// A phase is listed from its first end on: a beginning changes nothing of what is listed,
/// and after an end the phase that ended is listed.
pub proof fn law_listed_once_ended(p: ProfilerV, name: Seq<char>, now: int)
    ensures
        phases_of(started(p, name, now)) == phases_of(p),
        p.enabled && p.stack.len() > 0 && holds_open(p) ==> exists|k: int|
            0 <= k < phases_of(ended(p, now)).len() && (#[trigger] phases_of(ended(p, now))[k]).0
                == p.stack.last().0,
{
    let es = p.entries;
    if p.enabled && entry_place(es, name, 0) is None {
        let more = es.push((name, None));
        lemma_finished_prefix(es, more, es.len() as int);
        assert(finished(more, more.len() as int) == finished(more, es.len() as int));
    }
    if p.enabled && p.stack.len() > 0 && holds_open(p) {
        let last = p.stack.last().0;
        assert(p.stack[p.stack.len() - 1].0 == last);
        lemma_entry_place(es, last, 0);
        let k = entry_place(es, last, 0)->0;
        let r = ended(p, now);
        assert(r.entries[k].0 == last && r.entries[k].1 is Some);
        let all = finished(r.entries, r.entries.len() as int);
        lemma_finished_holds(r.entries, k, r.entries.len() as int);
        let j = choose|j: int| 0 <= j < all.len() && (#[trigger] all[j]).0 == last;
        assert(phases_of(r)[j].0 == last);
    }
}

proof fn lemma_finished_prefix(
    a: Seq<(Seq<char>, Option<int>)>,
    b: Seq<(Seq<char>, Option<int>)>,
    n: int,
)
    requires
        0 <= n <= a.len() <= b.len(),
        forall|i: int| 0 <= i < n ==> #[trigger] a[i] == b[i],
    ensures
        finished(a, n) == finished(b, n),
    decreases n,
{
    if n > 0 {
        lemma_finished_prefix(a, b, n - 1);
        assert(a[n - 1] == b[n - 1]);
    }
}

proof fn lemma_finished_holds(es: Seq<(Seq<char>, Option<int>)>, k: int, n: int)
    requires
        0 <= k < n <= es.len(),
        es[k].1 is Some,
    ensures
        exists|j: int|
            0 <= j < finished(es, n).len() && (#[trigger] finished(es, n)[j]).0 == es[k].0,
    decreases n,
{
    if k == n - 1 {
        let j = finished(es, n - 1).len() as int;
        assert(finished(es, n)[j].0 == es[k].0);
    } else {
        lemma_finished_holds(es, k, n - 1);
        let j = choose|j: int|
            0 <= j < finished(es, n - 1).len() && (#[trigger] finished(es, n - 1)[j]).0 == es[k].0;
        assert(finished(es, n)[j] == finished(es, n - 1)[j]);
    }
}

/// Every phase that has begun keeps its entry, so that its time is counted when it ends.
pub proof fn law_open_is_kept(p: ProfilerV, name: Seq<char>, now: int)
    requires
        holds_open(p),
    ensures
        holds_open(started(p, name, now)),
        holds_open(ended(p, now)),
{
    if p.enabled {
        let q = started(p, name, now);
        lemma_entry_place(p.entries, name, 0);
        lemma_entry_place(q.entries, name, 0);
        if entry_place(p.entries, name, 0) is None {
            assert(q.entries.last().0 == name);
        }
        assert forall|i: int| 0 <= i < q.stack.len() implies entry_place(
            q.entries,
            (#[trigger] q.stack[i]).0,
            0,
        ) is Some by {
            let n = q.stack[i].0;
            lemma_entry_place(p.entries, n, 0);
            lemma_entry_place(q.entries, n, 0);
            if i < p.stack.len() {
                assert(p.stack[i] == q.stack[i]);
                let k = entry_place(p.entries, n, 0)->0;
                assert(q.entries[k].0 == n);
            }
        }
        let r = ended(p, now);
        if p.stack.len() > 0 {
            lemma_entry_place(p.entries, p.stack.last().0, 0);
        }
        assert forall|i: int| 0 <= i < r.stack.len() implies entry_place(
            r.entries,
            (#[trigger] r.stack[i]).0,
            0,
        ) is Some by {
            let n = r.stack[i].0;
            assert(p.stack[i] == r.stack[i]);
            lemma_entry_place(p.entries, n, 0);
            lemma_entry_place(r.entries, n, 0);
            let k = entry_place(p.entries, n, 0)->0;
            assert(r.entries[k].0 == n);
        }
    }
}

proof fn lemma_entry_place(es: Seq<(Seq<char>, Option<int>)>, name: Seq<char>, i: int)
    requires
        0 <= i <= es.len(),
    ensures
        match entry_place(es, name, i) {
            Some(k) => i <= k < es.len() && es[k].0 == name,
            None => forall|k: int| i <= k < es.len() ==> (#[trigger] es[k]).0 != name,
        },
    decreases es.len() - i,
{
    if i < es.len() {
        lemma_entry_place(es, name, i + 1);
    }
}

/// The times of the phases and their sum.
#[derive(Debug)]
pub struct Report {
    pub phases: Vec<Phase>,
    pub total: u128,
}

fn plus(a: u128, b: u128) -> (r: u128)
    ensures
        r == sum_of(a as int, b as int),
{
    if b <= u128::MAX - a {
        a + b
    } else {
        u128::MAX
    }
}

fn find_entry(es: &Vec<Entry>, name: &str) -> (r: Option<usize>)
    ensures
        match r {
            Some(k) => entry_place(list_v(es@), name@, 0) == Some(k as int) && k < es.len(),
            None => entry_place(list_v(es@), name@, 0) is None,
        },
{
    let mut i: usize = 0;
    while i < es.len()
        invariant
            i <= es.len(),
            entry_place(list_v(es@), name@, 0) == entry_place(list_v(es@), name@, i as int),
        decreases es.len() - i,
    {
        let ghost e = list_v(es@)[i as int];
        if str_eq(&es[i].name, name) {
            return Some(i);
        }
        i = i + 1;
    }
    None
}

impl Profiler {
    pub fn new(enabled: bool) -> (r: Self)
        ensures
            r@ == (ProfilerV { enabled, stack: Seq::empty(), entries: Seq::empty() }),
            holds_open(r@),
    {
        Profiler { enabled, origin: now(), stack: Vec::new(), entries: Vec::new() }
    }

    /// A phase begins now, at whatever reading the clock has.
    pub fn start(&mut self, name: &str)
        ensures
            exists|now: u128| final(self)@ == #[trigger] started(old(self)@, name@, now as int),
    {
        let now: u128 = nanos_since(&self.origin);
        self.start_at(name, now);
        assert(self@ == started(old(self)@, name@, now as int));
    }

    /// The innermost phase ends now, at whatever reading the clock has.
    pub fn end(&mut self)
        ensures
            exists|now: u128| final(self)@ == #[trigger] ended(old(self)@, now as int),
    {
        let now: u128 = nanos_since(&self.origin);
        self.end_at(now);
        assert(self@ == ended(old(self)@, now as int));
    }

    /// A phase begins at this reading.
    pub fn start_at(&mut self, name: &str, now: u128)
        ensures
            final(self)@ == started(old(self)@, name@, now as int),
    {
        if !self.enabled {
            return;
        }
        self.stack.push(Open { name: name.to_owned(), start: now });
        if find_entry(&self.entries, name).is_none() {
            self.entries.push(Entry { name: name.to_owned(), nanos: None });
        }
    }

    /// The innermost phase ends at this reading.
    pub fn end_at(&mut self, now: u128)
        ensures
            final(self)@ == ended(old(self)@, now as int),
    {
        if !self.enabled {
            return;
        }
        let ghost before = self@;
        match self.stack.pop() {
            None => {},
            Some(open) => {
                assert(list_v(self.stack@) =~= before.stack.drop_last());
                assert(open@ == before.stack.last());
                let nanos: u128 = if open.start <= now {
                    now - open.start
                } else {
                    0
                };
                if let Some(k) = find_entry(&self.entries, &open.name) {
                    let ghost e = list_v(self.entries@)[k as int];
                    let sum: u128 = match self.entries[k].nanos {
                        Some(n) => plus(n, nanos),
                        None => nanos,
                    };
                    self.entries.set(k, Entry { name: open.name, nanos: Some(sum) });
                    assert(list_v(self.entries@) =~= before.entries.update(
                        k as int,
                        (open.name@, Some(sum as int)),
                    ));
                }
            },
        }
    }

    /// The times so far of the phases that have ended, if the profiler is enabled.
    pub fn report(&self) -> (r: Option<Report>)
        ensures
            match r {
                Some(x) => self@.enabled && list_v(x.phases@) == phases_of(self@) && x.total
                    == total_of(phases_of(self@), phases_of(self@).len() as int),
                None => !self@.enabled,
            },
    {
        if !self.enabled {
            return None;
        }
        let ghost es = list_v(self.entries@);
        let mut phases: Vec<Phase> = Vec::new();
        let mut total: u128 = 0;
        let mut i: usize = 0;
        while i < self.entries.len()
            invariant
                i <= self.entries.len(),
                es == list_v(self.entries@),
                list_v(phases@) == finished(es, i as int),
                total == total_of(list_v(phases@), phases.len() as int),
            decreases self.entries.len() - i,
        {
            let ghost e = es[i as int];
            let ghost before = list_v(phases@);
            if let Some(nanos) = self.entries[i].nanos {
                let phase = Phase { name: self.entries[i].name.clone(), nanos };
                phases.push(phase);
                total = plus(total, nanos);
                assert(list_v(phases@) =~= before.push(phase@));
                proof {
                    lemma_total_prefix(before, list_v(phases@), before.len() as int);
                }
            }
            i = i + 1;
        }
        Some(Report { phases, total })
    }
}

} // verus!
