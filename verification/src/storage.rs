//! The in-memory id-to-run map, with ids handed out in increasing order.

use std::collections::HashMap;

use vstd::prelude::*;

use crate::models::{initial_run, spec_add_value, spec_ended, Run};

verus! {

broadcast use vstd::std_specs::hash::group_hash_axioms;

/// All known runs, keyed by id, together with the next id to hand out.
pub struct Storage {
    store: HashMap<u16, Run>,
    count: u16,
}

impl Storage {
    /// The map of runs, as contracts see it.
    pub closed spec fn runs(&self) -> Map<u16, Run> {
        self.store@
    }

    /// The id the next run will be given.
    pub closed spec fn next_id(&self) -> u16 {
        self.count
    }

    /// Ids are handed out in increasing order, so every stored id lies below
    /// the next one.
    pub closed spec fn wf(&self) -> bool {
        forall|id: u16| self.runs().contains_key(id) ==> id < self.next_id()
    }

    /// Allocate a fresh run: a new id, one higher than all before it, mapped
    /// to the initial record.
    pub fn new_run(&mut self) -> (id: u16)
        requires
            old(self).wf(),
            old(self).next_id() < u16::MAX,
        ensures
            id == old(self).next_id(),
            !old(self).runs().contains_key(id),
            final(self).runs() == old(self).runs().insert(id, initial_run()),
            final(self).next_id() == id + 1,
            final(self).wf(),
    {
        let count = self.count;
        self.count = count + 1;
        self.store.insert(count, Run::default());
        count
    }

    /// Record one successful response for run `id`: its counter rises by one
    /// and its sum by `value`. No other record changes.
    pub fn insert(&mut self, id: u16, value: usize)
        requires
            old(self).runs().contains_key(id),
            old(self).runs()[id].successful_responses_count < u16::MAX,
            old(self).runs()[id].sum + value <= usize::MAX,
        ensures
            final(self).runs() == old(self).runs().insert(
                id,
                spec_add_value(old(self).runs()[id], value),
            ),
            final(self).next_id() == old(self).next_id(),
            old(self).wf() ==> final(self).wf(),
    {
        let current: Run = match self.store.get(&id) {
            Some(run) => *run,
            None => vstd::pervasive::unreached(),
        };
        let mut updated = current;
        updated.add_value(value);
        self.store.insert(id, updated);
    }

    /// Mark run `id` finished; its tallies and every other record stay.
    pub fn run_ended(&mut self, id: u16)
        requires
            old(self).runs().contains_key(id),
        ensures
            final(self).runs() == old(self).runs().insert(id, spec_ended(old(self).runs()[id])),
            final(self).next_id() == old(self).next_id(),
            old(self).wf() ==> final(self).wf(),
    {
        let current: Run = match self.store.get(&id) {
            Some(run) => *run,
            None => vstd::pervasive::unreached(),
        };
        let mut updated = current;
        updated.ended();
        self.store.insert(id, updated);
    }

    /// The id the next run will be given, for callers that must check it has
    /// headroom before allocating.
    pub fn next_run_id(&self) -> (id: u16)
        ensures
            id == self.next_id(),
    {
        self.count
    }

    /// Look a run up: its record if the id is known, nothing otherwise.
    pub fn get_run(&self, id: &u16) -> (run: Option<&Run>)
        ensures
            (match run {
                Some(r) => self.runs().contains_key(*id) && *r == self.runs()[*id],
                None => !self.runs().contains_key(*id),
            }),
    {
        self.store.get(id)
    }
}

impl Default for Storage {
    /// An empty storage: no runs, next id zero.
    fn default() -> (storage: Self)
        ensures
            storage.runs() == Map::<u16, Run>::empty(),
            storage.next_id() == 0,
            storage.wf(),
    {
        Storage { store: HashMap::new(), count: 0 }
    }
}

} // verus!
