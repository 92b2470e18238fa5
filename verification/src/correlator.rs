//! Request/response correlation: allocates monotonically increasing request
//! IDs and keeps one pending completion slot per in-flight ID.
//!
//! A slot is removed exactly once: either by the reader delivering a matching
//! response (`resolve`) or by the caller's timeout (`expire`). A resolve or
//! expire for an ID with no slot is a no-op; under the timeout race that is
//! normal, not an error.

use std::collections::HashMap;
use vstd::prelude::*;
use vstd::std_specs::hash::obeys_key_model;

verus! {

broadcast use vstd::std_specs::hash::group_hash_axioms;

/// The pending-slot table of one connection, generic in what a slot holds
/// (the delivery handle of the waiting caller).
pub struct RequestCorrelator<T> {
    next_id: u64,
    pending: HashMap<u64, T>,
}

impl<T> RequestCorrelator<T> {
    /// The table of pending slots, keyed by request ID.
    pub closed spec fn pending_map(&self) -> Map<u64, T> {
        self.pending@
    }

    /// The ID the next registration will take.
    pub closed spec fn spec_next_id(&self) -> u64 {
        self.next_id
    }

    /// IDs start at 1 and every pending ID was allocated earlier.
    pub open spec fn wf(&self) -> bool {
        &&& obeys_key_model::<u64>()
        &&& self.spec_next_id() >= 1
        &&& forall|id: u64|
            self.pending_map().contains_key(id) ==> 1 <= id < self.spec_next_id()
    }

    /// Creates a correlator with no pending slots; the first request gets
    /// ID 1.
    pub fn new() -> (r: RequestCorrelator<T>)
        ensures
            r.wf(),
            r.spec_next_id() == 1,
            r.pending_map() == Map::<u64, T>::empty(),
    {
        RequestCorrelator { next_id: 1, pending: HashMap::new() }
    }

    /// Allocates the next ID and files `slot` under it. The ID is fresh: no
    /// slot was pending under it before.
    pub fn register(&mut self, slot: T) -> (id: u64)
        requires
            old(self).wf(),
            old(self).spec_next_id() < u64::MAX,
        ensures
            final(self).wf(),
            id == old(self).spec_next_id(),
            !old(self).pending_map().contains_key(id),
            final(self).spec_next_id() == old(self).spec_next_id() + 1,
            final(self).pending_map() == old(self).pending_map().insert(id, slot),
    {
        let id = self.next_id;
        self.next_id = self.next_id + 1;
        self.pending.insert(id, slot);
        proof {
            assert forall|k: u64| self.pending_map().contains_key(k) implies 1 <= k
                < self.spec_next_id() by {
                if k != id {
                    assert(old(self).pending_map().contains_key(k));
                }
            }
        }
        id
    }

    /// Removes and returns the slot pending under `id`, if any: the waiting
    /// caller is handed exactly the slot that `register` filed. When no slot
    /// is pending under `id` — it was never registered, already resolved, or
    /// expired — nothing happens and nothing is returned.
    pub fn resolve(&mut self, id: u64) -> (r: Option<T>)
        requires
            old(self).wf(),
        ensures
            final(self).wf(),
            final(self).spec_next_id() == old(self).spec_next_id(),
            match r {
                Some(slot) => {
                    &&& old(self).pending_map().contains_key(id)
                    &&& slot == old(self).pending_map()[id]
                    &&& final(self).pending_map() == old(self).pending_map().remove(id)
                },
                None => {
                    &&& !old(self).pending_map().contains_key(id)
                    &&& final(self).pending_map() == old(self).pending_map()
                },
            },
    {
        let r = self.pending.remove(&id);
        proof {
            if !old(self).pending_map().contains_key(id) {
                assert(old(self).pending_map().remove(id) =~= old(self).pending_map());
            }
        }
        r
    }

    /// Removes the slot pending under `id` without fulfilling it, as the
    /// caller's timeout does. A response arriving later finds no slot and is
    /// dropped. Expiring an ID with no slot changes nothing.
    pub fn expire(&mut self, id: u64)
        requires
            old(self).wf(),
        ensures
            final(self).wf(),
            final(self).spec_next_id() == old(self).spec_next_id(),
            final(self).pending_map() == old(self).pending_map().remove(id),
    {
        self.pending.remove(&id);
        proof {
            if !old(self).pending_map().contains_key(id) {
                assert(old(self).pending_map().remove(id) =~= old(self).pending_map());
            }
        }
    }

    /// The ID the next registration will take.
    pub fn next_id(&self) -> (r: u64)
        ensures
            r == self.spec_next_id(),
    {
        self.next_id
    }

    /// Whether a slot is pending under `id`.
    pub fn is_pending(&self, id: u64) -> (r: bool)
        requires
            self.wf(),
        ensures
            r == self.pending_map().contains_key(id),
    {
        self.pending.contains_key(&id)
    }
}

/// Registering an ID and then resolving it delivers exactly the registered
/// slot to the waiter, and a second resolve of the same ID is a no-op: the
/// slot was removed along with its delivery, leaving the table as it was.
/// The maps below are the pending tables that `register`'s and `resolve`'s
/// contracts leave behind.
pub proof fn lemma_register_then_resolve<T>(pending: Map<u64, T>, id: u64, slot: T)
    requires
        !pending.contains_key(id),
    ensures
        ({
            let registered = pending.insert(id, slot);
            &&& registered.contains_key(id)
            &&& registered[id] == slot
            &&& !registered.remove(id).contains_key(id)
            &&& registered.remove(id) =~= pending
        }),
{
}

/// When a timeout expires an ID before its response arrives, the waiter is
/// left unresolved, and the late resolve finds no slot: it delivers nothing,
/// resurrects nothing, and leaves the table unchanged.
pub proof fn lemma_expire_then_late_resolve<T>(pending: Map<u64, T>, id: u64)
    ensures
        ({
            let expired = pending.remove(id);
            &&& !expired.contains_key(id)
            &&& expired.remove(id) =~= expired
        }),
{
}

} // verus!
