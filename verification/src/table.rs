//! Category tables and the per-category readiness predicate.

use vstd::prelude::*;
use crate::store::BackingStore;

verus! {

/// Every handle in `handles` is present in the set `loaded` of resolved
/// handle identifiers. On an empty table this holds vacuously.
pub open spec fn all_present(handles: Seq<u64>, loaded: Set<u64>) -> bool {
    forall|i: int| 0 <= i < handles.len() ==> loaded.contains(handles[i])
}

/// A fixed table of handle identifiers for one asset category, keyed by the
/// position of the logical identifier. It is populated once at entry to a
/// loading phase and never removes entries.
pub struct CategoryTable {
    handles: Vec<u64>,
}

impl View for CategoryTable {
    type V = Seq<u64>;

    /// A table is viewed as the sequence of its handle identifiers, in
    /// logical-identifier order.
    closed spec fn view(&self) -> Seq<u64> {
        self.handles@
    }
}

impl CategoryTable {
    /// A table over the given handles, keyed by position.
    pub fn from_handles(handles: Vec<u64>) -> (t: Self)
        ensures
            t@ == handles@,
    {
        CategoryTable { handles }
    }

    /// An empty table.
    pub fn new() -> (t: Self)
        ensures
            t@ == Seq::<u64>::empty(),
    {
        CategoryTable { handles: Vec::new() }
    }

    /// Add the handle for the next logical identifier. Tables only grow, and
    /// only while the loading phase is being entered.
    pub fn insert(&mut self, handle: u64)
        ensures
            final(self)@ == old(self)@.push(handle),
    {
        self.handles.push(handle);
    }

    /// How many entries the table holds.
    pub fn len(&self) -> (n: usize)
        ensures
            n == self@.len(),
    {
        self.handles.len()
    }

    /// The handle recorded for the logical identifier at position `i`.
    pub fn handle_at(&self, i: usize) -> (h: u64)
        requires
            i < self@.len(),
        ensures
            h == self@[i as int],
    {
        self.handles[i]
    }

    /// The readiness predicate of one category: true iff every handle in the
    /// table is present in the backing store. Presence is the sole signal; no
    /// handle-specific validation is performed.
    pub fn all_loaded(&self, store: &BackingStore) -> (r: bool)
        ensures
            r == all_present(self@, store@),
    {
        let mut i: usize = 0;
        while i < self.handles.len()
            invariant
                i <= self.handles.len(),
                forall|j: int| 0 <= j < i ==> store@.contains(self.handles@[j]),
            decreases self.handles.len() - i,
        {
            if !store.contains(self.handles[i]) {
                return false;
            }
            i = i + 1;
        }
        true
    }
}

/// Once a category is ready it stays ready: the store only gains identifiers
/// during a loading phase (no unloading occurs), and readiness over a fixed
/// table is preserved under growing the store.
pub proof fn lemma_all_present_monotonic(handles: Seq<u64>, before: Set<u64>, after: Set<u64>)
    requires
        all_present(handles, before),
        before.subset_of(after),
    ensures
        all_present(handles, after),
{
}

/// On an empty table readiness holds vacuously, whatever the store holds.
pub proof fn lemma_all_present_empty(loaded: Set<u64>)
    ensures
        all_present(Seq::<u64>::empty(), loaded),
{
}

} // verus!
