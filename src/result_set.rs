//! The result set: the hits of the current search generation, each paired
//! with the application record it was derived from.

use vstd::prelude::*;
use crate::message::{Hit, HitV};

verus! {

/// The first position at or after `from` whose hit carries `hit_id`.
pub open spec fn position_from(hits: Seq<HitV>, hit_id: u64, from: nat) -> Option<nat>
    decreases hits.len() - from,
{
    if from >= hits.len() {
        None
    } else if hits[from as int].id == hit_id {
        Some(from)
    } else {
        position_from(hits, hit_id, from + 1)
    }
}

/// The first position of a hit carrying `hit_id`, if any.
pub open spec fn position(hits: Seq<HitV>, hit_id: u64) -> Option<nat> {
    position_from(hits, hit_id, 0)
}

/// A position found by `position_from` carries the id, and no hit before it
/// (from `from` on) does; when none is found, no hit from `from` on carries it.
pub proof fn lemma_position_from(hits: Seq<HitV>, hit_id: u64, from: nat)
    ensures
        position_from(hits, hit_id, from) matches Some(i) ==> {
            &&& from <= i < hits.len()
            &&& hits[i as int].id == hit_id
            &&& forall|j: int| from <= j < i ==> hits[j].id != hit_id
        },
        position_from(hits, hit_id, from) is None ==> forall|j: int|
            from <= j < hits.len() ==> hits[j].id != hit_id,
    decreases hits.len() - from,
{
    if from < hits.len() && hits[from as int].id != hit_id {
        lemma_position_from(hits, hit_id, from + 1);
    }
}

/// `position` finds the first hit that carries the id, and finds none
/// exactly when no hit carries it.
pub proof fn lemma_position(hits: Seq<HitV>, hit_id: u64)
    ensures
        position(hits, hit_id) matches Some(i) ==> {
            &&& i < hits.len()
            &&& hits[i as int].id == hit_id
            &&& forall|j: int| 0 <= j < i ==> hits[j].id != hit_id
        },
        position(hits, hit_id) is None <==> forall|j: int|
            0 <= j < hits.len() ==> hits[j].id != hit_id,
{
    lemma_position_from(hits, hit_id, 0);
}

/// One generation, seen mathematically.
pub struct Generation<A> {
    pub records: Seq<A>,
    pub hits: Seq<HitV>,
}

/// The hits of one generation and the records they describe: the hit at
/// position `i` and the record at position `i` stand for one application.
pub struct ResultSet<A> {
    records: Vec<A>,
    hits: Vec<Hit>,
}

impl<A> View for ResultSet<A> {
    type V = Generation<A>;

    closed spec fn view(&self) -> Generation<A> {
        Generation { records: self.records@, hits: self.hits@.map_values(|h: Hit| h@) }
    }
}

impl<A> ResultSet<A> {
    /// Records and hits are paired one for one.
    pub closed spec fn wf(&self) -> bool {
        self.records.len() == self.hits.len()
    }

    /// The empty set that a process starts with.
    pub fn new() -> (r: ResultSet<A>)
        ensures
            r.wf(),
            r@.records.len() == 0,
            r@.hits.len() == 0,
    {
        ResultSet { records: Vec::new(), hits: Vec::new() }
    }

    /// A generation made of `records` and the hits derived from them.
    pub fn from_parts(records: Vec<A>, hits: Vec<Hit>) -> (r: ResultSet<A>)
        requires
            records.len() == hits.len(),
        ensures
            r.wf(),
            r@.records == records@,
            r@.hits == hits@.map_values(|h: Hit| h@),
    {
        ResultSet { records, hits }
    }

    pub fn len(&self) -> (r: usize)
        requires
            self.wf(),
        ensures
            r == self@.hits.len(),
            r == self@.records.len(),
    {
        self.hits.len()
    }

    /// The hit at position `i`.
    pub fn hit(&self, i: usize) -> (r: &Hit)
        requires
            i < self@.hits.len(),
        ensures
            r@ == self@.hits[i as int],
    {
        &self.hits[i]
    }

    /// The record at position `i`.
    pub fn record(&self, i: usize) -> (r: &A)
        requires
            i < self@.records.len(),
        ensures
            *r == self@.records[i as int],
    {
        &self.records[i]
    }

    /// The first position whose hit carries `hit_id`, in this generation only.
    pub fn find(&self, hit_id: u64) -> (r: Option<usize>)
        ensures
            r matches Some(i) ==> position(self@.hits, hit_id) == Some(i as nat),
            r is None ==> position(self@.hits, hit_id) is None,
    {
        let n = self.hits.len();
        let mut i: usize = 0;
        while i < n
            invariant
                n == self.hits.len(),
                i <= n,
                position(self@.hits, hit_id) == position_from(self@.hits, hit_id, i as nat),
            decreases n - i,
        {
            if self.hits[i].id == hit_id {
                return Some(i);
            }
            i = i + 1;
        }
        None
    }
}

} // verus!
