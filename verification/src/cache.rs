//! The idempotence cache: the outcomes of the requests that ended, by
//! request id, the oldest dropped once the cache is full.

use vstd::prelude::*;
use crate::outcome::{verdict_of, Outcome, Verdict};

verus! {

/// One remembered request.
#[derive(Debug)]
pub struct Entry {
    pub id: u64,
    pub outcome: Outcome,
}

/// The remembered requests of a list, each as its id and its outcome.
pub open spec fn entry_views(list: Seq<Entry>) -> Seq<(u64, Verdict)> {
    Seq::new(list.len(), |i: int| (list[i].id, list[i].outcome@))
}

/// The outcome remembered for `id`: that of the first entry with this id.
pub open spec fn found(entries: Seq<(u64, Verdict)>, id: u64) -> Option<Verdict>
    decreases entries.len(),
{
    if entries.len() == 0 {
        None
    } else if entries[0].0 == id {
        Some(entries[0].1)
    } else {
        found(entries.drop_first(), id)
    }
}

/// A cache as a value: how many requests it retains, and the retained
/// requests from the oldest to the newest.
pub struct Retained {
    pub capacity: nat,
    pub entries: Seq<(u64, Verdict)>,
}

impl Retained {
    /// The cache holds no more than it may retain.
    pub open spec fn wf(self) -> bool {
        self.entries.len() <= self.capacity
    }

    /// The outcome remembered for `id`.
    pub open spec fn lookup(self, id: u64) -> Option<Verdict> {
        found(self.entries, id)
    }

    /// The cache after the request `id` ended with `verdict`. A request that
    /// is remembered keeps its first outcome; a new one is added, the oldest
    /// making room for it where the cache is full.
    pub open spec fn recorded(self, id: u64, verdict: Verdict) -> Retained {
        if self.capacity == 0 || self.lookup(id) is Some {
            self
        } else if self.entries.len() < self.capacity {
            Retained { entries: self.entries.push((id, verdict)), ..self }
        } else {
            Retained { entries: self.entries.drop_first().push((id, verdict)), ..self }
        }
    }
}

/// What is found after one more request was added at the end.
pub proof fn lemma_found_push(entries: Seq<(u64, Verdict)>, id: u64, verdict: Verdict, other: u64)
    ensures
        found(entries.push((id, verdict)), other) == (if found(entries, other) is Some {
            found(entries, other)
        } else if other == id {
            Some(verdict)
        } else {
            None
        }),
    decreases entries.len(),
{
    let after = entries.push((id, verdict));
    if entries.len() == 0 {
        assert(after.drop_first() == entries);
    } else {
        assert(after.drop_first() == entries.drop_first().push((id, verdict)));
        lemma_found_push(entries.drop_first(), id, verdict, other);
    }
}

/// A request that ended is found again: once recorded in a cache that retains
/// anything, its id has an outcome, the one it was recorded with unless the
/// id had one before.
pub proof fn law_recorded_is_found(cache: Retained, id: u64, verdict: Verdict)
    requires
        cache.capacity > 0,
    ensures
        cache.recorded(id, verdict).lookup(id) == (if cache.lookup(id) is Some {
            cache.lookup(id)
        } else {
            Some(verdict)
        }),
        cache.wf() ==> cache.recorded(id, verdict).wf(),
{
    if cache.lookup(id) is None {
        if cache.entries.len() < cache.capacity {
            lemma_found_push(cache.entries, id, verdict, id);
        } else {
            lemma_found_drop_first(cache.entries, id);
            lemma_found_push(cache.entries.drop_first(), id, verdict, id);
        }
    }
}

/// Without its oldest entry a list still finds every id but, at most, that
/// entry's, and finds none that it did not find before.
pub proof fn lemma_found_drop_first(entries: Seq<(u64, Verdict)>, id: u64)
    requires
        entries.len() > 0,
    ensures
        entries[0].0 != id ==> found(entries.drop_first(), id) == found(entries, id),
        found(entries, id) is None ==> found(entries.drop_first(), id) is None,
{
}

/// Recording another request leaves a remembered outcome in place, unless the
/// cache is full and the remembered request is its oldest.
pub proof fn law_recorded_keeps(cache: Retained, id: u64, other: u64, verdict: Verdict)
    requires
        cache.lookup(id) is Some,
        cache.entries.len() < cache.capacity || cache.entries[0].0 != id,
    ensures
        cache.recorded(other, verdict).lookup(id) == cache.lookup(id),
{
    if cache.capacity == 0 || cache.lookup(other) is Some {
    } else if cache.entries.len() < cache.capacity {
        lemma_found_push(cache.entries, other, verdict, id);
    } else {
        lemma_found_drop_first(cache.entries, id);
        lemma_found_push(cache.entries.drop_first(), other, verdict, id);
    }
}

/// The idempotence cache of a leader.
#[derive(Debug)]
pub struct IdempotenceCache {
    capacity: usize,
    entries: Vec<Entry>,
}

impl View for IdempotenceCache {
    type V = Retained;

    closed spec fn view(&self) -> Retained {
        Retained { capacity: self.capacity as nat, entries: entry_views(self.entries@) }
    }
}

impl IdempotenceCache {
    /// The cache never holds more than it may retain.
    #[verifier::type_invariant]
    pub closed spec fn inv(&self) -> bool {
        self.entries@.len() <= self.capacity
    }

    /// An empty cache that retains up to `capacity` requests.
    pub fn new(capacity: usize) -> (r: IdempotenceCache)
        ensures
            r@ == (Retained { capacity: capacity as nat, entries: Seq::empty() }),
    {
        let r = IdempotenceCache { capacity, entries: Vec::new() };
        assert(entry_views(r.entries@) == Seq::<(u64, Verdict)>::empty());
        r
    }

    /// How many requests the cache retains.
    pub fn capacity(&self) -> (r: usize)
        ensures
            r == self@.capacity,
            self@.wf(),
    {
        proof {
            use_type_invariant(self);
        }
        self.capacity
    }

    /// How many requests the cache holds.
    pub fn len(&self) -> (r: usize)
        ensures
            r == self@.entries.len(),
            self@.wf(),
    {
        proof {
            use_type_invariant(self);
        }
        self.entries.len()
    }

    /// The outcome remembered for `id`.
    pub fn lookup(&self, id: u64) -> (r: Option<Outcome>)
        ensures
            verdict_of(r) == self@.lookup(id),
    {
        let ghost all = entry_views(self.entries@);
        assert(all.skip(0) == all);
        let mut i: usize = 0;
        while i < self.entries.len()
            invariant
                i <= self.entries.len(),
                all == entry_views(self.entries@),
                found(all, id) == found(all.skip(i as int), id),
            decreases self.entries.len() - i,
        {
            proof {
                assert(all.skip(i as int)[0] == all[i as int]);
                assert(all.skip(i as int).drop_first() == all.skip(i + 1));
            }
            if self.entries[i].id == id {
                return Some(self.entries[i].outcome.copy());
            }
            i = i + 1;
        }
        assert(all.skip(i as int).len() == 0);
        None
    }

    /// Remembers that the request `id` ended with `outcome`.
    pub fn record(&mut self, id: u64, outcome: Outcome)
        ensures
            final(self)@ == old(self)@.recorded(id, outcome@),
    {
        proof {
            use_type_invariant(&*self);
        }
        if self.capacity == 0 {
            return ;
        }
        if self.lookup(id).is_some() {
            return ;
        }
        let ghost before = entry_views(self.entries@);
        // The oldest entry leaves and the new one comes in one step: the
        // cache is taken out whole and put back whole.
        let mut taken = IdempotenceCache { capacity: 0, entries: Vec::new() };
        core::mem::swap(self, &mut taken);
        let IdempotenceCache { capacity, mut entries } = taken;
        assert(entry_views(entries@) == before);
        if entries.len() >= capacity {
            entries.remove(0);
            assert(entry_views(entries@) == before.drop_first());
        }
        entries.push(Entry { id, outcome });
        assert(entry_views(entries@) == old(self)@.recorded(id, outcome@).entries);
        *self = IdempotenceCache { capacity, entries };
    }
}

} // verus!
