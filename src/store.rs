//! A counter store that keeps explicit expiry instants in place of a TTL.
//!
//! Every increment runs the whole protocol in one call that holds the store
//! exclusively, so increments on one key are totally ordered.
use vstd::prelude::*;
use crate::policy::RatePolicy;
use crate::window::{CounterRecord, Decision, step, can_step, increment};

verus! {

/// Counter records by client key.
#[derive(Debug)]
pub struct MemoryStore {
    entries: Vec<(String, CounterRecord)>,
}

impl MemoryStore {
    /// Each key is held at most once.
    pub closed spec fn wf(&self) -> bool {
        forall|i: int, j: int|
            0 <= i < j < self.entries@.len() ==> #[trigger] self.entries@[i].0@ != #[trigger] self.entries@[j].0@
    }

    /// The record held for `key`, expired or not.
    pub closed spec fn record_of(&self, key: Seq<char>) -> Option<CounterRecord> {
        if exists|i: int| 0 <= i < self.entries@.len() && #[trigger] self.entries@[i].0@ == key {
            let i = choose|i: int| 0 <= i < self.entries@.len() && #[trigger] self.entries@[i].0@ == key;
            Some(self.entries@[i].1)
        } else {
            None
        }
    }

    /// A store that holds no counter.
    pub fn new() -> (r: MemoryStore)
        ensures
            r.wf(),
            forall|k: Seq<char>| #[trigger] r.record_of(k) is None,
    {
        MemoryStore { entries: Vec::new() }
    }

    fn find(&self, key: &String) -> (r: Option<usize>)
        requires
            self.wf(),
        ensures
            r is None ==> forall|i: int| 0 <= i < self.entries@.len() ==> #[trigger] self.entries@[i].0@ != key@,
            r is Some ==> r->Some_0 < self.entries@.len() && self.entries@[r->Some_0 as int].0@ == key@,
    {
        let mut i: usize = 0;
        while i < self.entries.len()
            invariant
                i <= self.entries@.len(),
                forall|j: int| 0 <= j < i ==> #[trigger] self.entries@[j].0@ != key@,
            decreases self.entries@.len() - i,
        {
            if self.entries[i].0 == *key {
                return Some(i);
            }
            i = i + 1;
        }
        None
    }

    /// The record held for `key`.
    pub fn record(&self, key: &String) -> (r: Option<CounterRecord>)
        requires
            self.wf(),
        ensures
            r == self.record_of(key@),
    {
        match self.find(key) {
            Some(i) => {
                assert(self.entries@[i as int].0@ == key@);
                Some(self.entries[i].1)
            },
            None => None,
        }
    }

    /// Runs the counting protocol on `key` at time `now`: the key's record
    /// becomes the protocol's new record, every other key is left alone.
    pub fn increment(&mut self, key: &String, policy: RatePolicy, now: u64) -> (d: Decision)
        requires
            old(self).wf(),
            can_step(old(self).record_of(key@), policy, now),
        ensures
            final(self).wf(),
            final(self).record_of(key@) == Some(step(old(self).record_of(key@), policy, now).0),
            d == step(old(self).record_of(key@), policy, now).1,
            forall|k: Seq<char>| k != key@ ==> #[trigger] final(self).record_of(k) == old(self).record_of(k),
    {
        let prev = self.record(key);
        let (rec, d) = increment(prev, policy, now);
        match self.find(key) {
            Some(i) => {
                let k = self.entries[i].0.clone();
                self.entries.set(i, (k, rec));
                assert(self.entries@[i as int].0@ == key@);
                assert forall|k: Seq<char>| k != key@ implies #[trigger] self.record_of(k) == old(self).record_of(k) by {
                    if exists|j: int| 0 <= j < self.entries@.len() && #[trigger] self.entries@[j].0@ == k {
                        let j = choose|j: int| 0 <= j < self.entries@.len() && #[trigger] self.entries@[j].0@ == k;
                        assert(old(self).entries@[j].0@ == k);
                    }
                    if exists|j: int| 0 <= j < old(self).entries@.len() && #[trigger] old(self).entries@[j].0@ == k {
                        let j = choose|j: int| 0 <= j < old(self).entries@.len() && #[trigger] old(self).entries@[j].0@ == k;
                        assert(self.entries@[j].0@ == k);
                    }
                }
            },
            None => {
                let k = key.clone();
                self.entries.push((k, rec));
                let n = self.entries.len() - 1;
                assert(self.entries@[n as int].0@ == key@);
                assert forall|k: Seq<char>| k != key@ implies #[trigger] self.record_of(k) == old(self).record_of(k) by {
                    if exists|j: int| 0 <= j < self.entries@.len() && #[trigger] self.entries@[j].0@ == k {
                        let j = choose|j: int| 0 <= j < self.entries@.len() && #[trigger] self.entries@[j].0@ == k;
                        assert(old(self).entries@[j].0@ == k);
                    }
                    if exists|j: int| 0 <= j < old(self).entries@.len() && #[trigger] old(self).entries@[j].0@ == k {
                        let j = choose|j: int| 0 <= j < old(self).entries@.len() && #[trigger] old(self).entries@[j].0@ == k;
                        assert(self.entries@[j].0@ == k);
                    }
                }
            },
        }
        d
    }
}

} // verus!
