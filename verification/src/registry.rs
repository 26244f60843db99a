//! Registries of guest-side handlers keyed by the integer handle the host
//! assigned to the corresponding host-side listener.
//!
//! A handle and everything keyed by it must be removed together, in one
//! logical operation: deregistering a listener removes the host-side
//! listener and hands the stored handler back, so nothing keyed by a dead
//! handle can accumulate.

use std::collections::HashMap;
use vstd::prelude::*;

verus! {

broadcast use vstd::std_specs::hash::group_hash_axioms;

/// A registry of handlers keyed by handle id. The handler type is the
/// caller's — the host-facing shell stores its callbacks here.
pub struct HandlerRegistry<H> {
    handlers: HashMap<u32, H>,
}

impl<H> View for HandlerRegistry<H> {
    type V = Map<u32, H>;

    closed spec fn view(&self) -> Map<u32, H> {
        self.handlers@
    }
}

impl<H> HandlerRegistry<H> {
    /// A registry with no handlers.
    pub fn new() -> (r: Self)
        ensures
            r@ == Map::<u32, H>::empty(),
    {
        HandlerRegistry { handlers: HashMap::new() }
    }

    /// How many handlers are registered.
    pub fn len(&self) -> (n: usize)
        ensures
            n == self@.dom().len(),
    {
        self.handlers.len()
    }

    /// Whether a handler is registered under `id`.
    pub fn contains(&self, id: u32) -> (r: bool)
        ensures
            r == self@.contains_key(id),
    {
        self.handlers.contains_key(&id)
    }

    /// Register `handler` under `id`, replacing any handler already there.
    pub fn insert(&mut self, id: u32, handler: H)
        ensures
            final(self)@ == old(self)@.insert(id, handler),
    {
        self.handlers.insert(id, handler);
    }

    /// Deregister `id` and hand back the handler that was stored under it,
    /// so the entry and the handler leave the registry together.
    pub fn remove(&mut self, id: u32) -> (r: Option<H>)
        ensures
            final(self)@ == old(self)@.remove(id),
            old(self)@.contains_key(id) ==> (r matches Some(h) && h == old(self)@[id]),
            !old(self)@.contains_key(id) ==> r is None,
    {
        self.handlers.remove(&id)
    }
}

/// Registry cleanliness: registering a handler and immediately removing it
/// leaves no entry for that handle — and when the handle was fresh, the
/// registry is exactly what it was before, entry count included.
pub proof fn lemma_register_then_remove<H>(m: Map<u32, H>, id: u32, handler: H)
    requires
        m.dom().finite(),
    ensures
        !m.insert(id, handler).remove(id).contains_key(id),
        !m.contains_key(id) ==> m.insert(id, handler).remove(id) == m,
        !m.contains_key(id) ==> m.insert(id, handler).remove(id).dom().len() == m.dom().len(),
{
    if !m.contains_key(id) {
        assert(m.insert(id, handler).remove(id) =~= m);
    }
}

} // verus!
