//! Buffers that are kept open for the language servers during an agent's turn.

use std::collections::HashSet;
use vstd::prelude::*;

verus! {

/// The buffers that are leased: each is registered with the language servers once and stays so
/// until the lease is released.
pub struct LspBufferLease {
    handles: HashSet<u64>,
}

impl LspBufferLease {
    /// The ids of the leased buffers.
    pub closed spec fn buffers(&self) -> Set<u64> {
        self.handles@
    }

    /// A lease on no buffer.
    pub fn new() -> (r: Self)
        ensures
            r.buffers() == Set::<u64>::empty(),
    {
        broadcast use vstd::std_specs::hash::group_hash_axioms;

        LspBufferLease { handles: HashSet::new() }
    }

    /// Leases a buffer. The answer is whether it has to be registered with the language servers:
    /// one that is leased already is not registered again.
    pub fn acquire(&mut self, buffer_id: u64) -> (register: bool)
        ensures
            register == !old(self).buffers().contains(buffer_id),
            final(self).buffers() == old(self).buffers().insert(buffer_id),
    {
        broadcast use vstd::std_specs::hash::group_hash_axioms;

        self.handles.insert(buffer_id)
    }

    /// Gives up all leased buffers. The answer is whether there is any to unregister from the
    /// language servers.
    pub fn release(&mut self) -> (unregister: bool)
        ensures
            unregister == !(old(self).buffers() == Set::<u64>::empty()),
            final(self).buffers() == Set::<u64>::empty(),
    {
        broadcast use vstd::std_specs::hash::group_hash_axioms;

        let unregister = self.release_after();
        self.handles.clear();
        unregister
    }

    /// Whether a timer has to be set to release the lease later: not where nothing is leased.
    pub fn release_after(&self) -> (set_timer: bool)
        ensures
            set_timer == !(self.buffers() == Set::<u64>::empty()),
    {
        broadcast use vstd::std_specs::hash::group_hash_axioms;

        !self.handles.is_empty()
    }
}

impl Default for LspBufferLease {
    /// A lease on no buffer.
    fn default() -> (r: Self)
        ensures
            r.buffers() == Set::<u64>::empty(),
    {
        LspBufferLease::new()
    }
}

} // verus!
