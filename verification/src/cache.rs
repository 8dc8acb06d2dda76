//! The snapshots that the polling tasks keep.

use std::collections::HashMap;
use vstd::prelude::*;

verus! {

/// The last payload that each task found worth a notification, by the key
/// that the task was registered under.
pub struct SnapshotCache {
    slots: HashMap<u64, serde_json::Value>,
}

impl View for SnapshotCache {
    type V = Map<u64, serde_json::Value>;

    closed spec fn view(&self) -> Map<u64, serde_json::Value> {
        self.slots@
    }
}

impl SnapshotCache {
    /// A cache without snapshots.
    pub fn new() -> (cache: Self)
        ensures
            cache@ == Map::<u64, serde_json::Value>::empty(),
    {
        SnapshotCache { slots: HashMap::new() }
    }

    /// The snapshot kept under `cache_key`, if there is one.
    pub fn get(&self, cache_key: u64) -> (slot: Option<&serde_json::Value>)
        ensures
            slot == if self@.contains_key(cache_key) {
                Some(&self@[cache_key])
            } else {
                None
            },
    {
        broadcast use vstd::std_specs::hash::group_hash_axioms;

        self.slots.get(&cache_key)
    }

    /// Puts `raw` under `cache_key`, in place of what was there.
    pub fn insert(&mut self, cache_key: u64, raw: serde_json::Value)
        ensures
            final(self)@ == old(self)@.insert(cache_key, raw),
    {
        broadcast use vstd::std_specs::hash::group_hash_axioms;

        self.slots.insert(cache_key, raw);
    }
}

} // verus!
