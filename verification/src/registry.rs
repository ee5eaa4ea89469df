//! The one-to-one bookkeeping between collision-world handles and the
//! entities that carry a velocity.

use vstd::prelude::*;
use std::collections::HashMap;

verus! {

broadcast use vstd::std_specs::hash::group_hash_axioms;

/// Maps each dynamic collider's handle to the entity that owns it. Built
/// once at setup and read afterwards; static wall colliders are never
/// entered, so looking them up yields no entity.
pub struct EntityColliderMap {
    handles: HashMap<u64, u64>,
}

impl View for EntityColliderMap {
    type V = Map<u64, u64>;

    closed spec fn view(&self) -> Map<u64, u64> {
        self.handles@
    }
}

impl EntityColliderMap {
    /// An empty record: no handle resolves to anything.
    pub fn new() -> (m: EntityColliderMap)
        ensures
            m@ == Map::<u64, u64>::empty(),
    {
        EntityColliderMap { handles: HashMap::new() }
    }

    /// Records the entity that owns a dynamic collider's handle.
    pub fn insert(&mut self, handle: u64, entity: u64)
        ensures
            final(self)@ == old(self)@.insert(handle, entity),
    {
        self.handles.insert(handle, entity);
    }

    /// The entity a handle resolves to; `None` exactly for an untracked
    /// handle, as every static wall collider is.
    pub fn resolve(&self, handle: u64) -> (r: Option<u64>)
        ensures
            r == if self@.contains_key(handle) {
                Some(self@[handle])
            } else {
                None::<u64>
            },
    {
        match self.handles.get(&handle) {
            Some(e) => Some(*e),
            None => None,
        }
    }
}

} // verus!
