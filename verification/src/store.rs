//! Which handles have finished loading.

use vstd::prelude::*;

verus! {

/// The set of handle identifiers whose resources have finished loading.
///
/// The engine decodes resources asynchronously and at its own pace; this
/// library never waits on it, it only reads off which handles are done.
/// Nothing is unloaded while a loading phase runs, so a store only ever
/// gains identifiers.
pub struct BackingStore {
    loaded: Vec<u64>,
}

impl View for BackingStore {
    type V = Set<u64>;

    /// A store is viewed as the set of loaded handle identifiers.
    closed spec fn view(&self) -> Set<u64> {
        Set::new(|id: u64| self.loaded@.contains(id))
    }
}

impl BackingStore {
    /// An empty store: nothing has finished loading yet.
    pub fn new() -> (s: Self)
        ensures
            s@ == Set::<u64>::empty(),
    {
        let s = BackingStore { loaded: Vec::new() };
        proof {
            assert(s@ =~= Set::<u64>::empty());
        }
        s
    }

    /// Record that the resource behind `id` has finished loading.
    pub fn insert(&mut self, id: u64)
        ensures
            final(self)@ == old(self)@.insert(id),
    {
        self.loaded.push(id);
        proof {
            broadcast use vstd::seq_lib::lemma_seq_contains_after_push;

            assert(self@ =~= old(self)@.insert(id));
        }
    }

    /// Presence in storage is the sole readiness signal for a handle.
    pub fn contains(&self, id: u64) -> (r: bool)
        ensures
            r == self@.contains(id),
    {
        let mut i: usize = 0;
        while i < self.loaded.len()
            invariant
                i <= self.loaded.len(),
                forall|j: int| 0 <= j < i ==> self.loaded@[j] != id,
            decreases self.loaded.len() - i,
        {
            if self.loaded[i] == id {
                return true;
            }
            i = i + 1;
        }
        false
    }
}

} // verus!
