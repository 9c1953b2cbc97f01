//! The correlation table: which caller waits for which request identifier.
use std::collections::HashMap;
use vstd::prelude::*;

verus! {

broadcast use vstd::std_specs::hash::group_hash_axioms;

/// The waiter registered under `id` in `m`, if any.
pub open spec fn waiter_of<W>(m: Map<u64, W>, id: u64) -> Option<W> {
    if m.contains_key(id) {
        Some(m[id])
    } else {
        None
    }
}

/// Maps each in-flight request identifier to the handle of its waiting caller.
/// An entry lives from registration until it is resolved or expired, and is
/// taken out exactly once.
pub struct PendingTable<W> {
    map: HashMap<u64, W>,
}

impl<W> View for PendingTable<W> {
    type V = Map<u64, W>;

    closed spec fn view(&self) -> Map<u64, W> {
        self.map@
    }
}

impl<W> PendingTable<W> {
    pub fn new() -> (r: PendingTable<W>)
        ensures
            r@ == Map::<u64, W>::empty(),
    {
        PendingTable { map: HashMap::new() }
    }

    pub fn len(&self) -> (r: usize)
        ensures
            r == self@.len(),
    {
        self.map.len()
    }

    pub fn contains(&self, id: u64) -> (r: bool)
        ensures
            r == self@.contains_key(id),
    {
        self.map.contains_key(&id)
    }

    /// Registers `waiter` under `id`; a waiter already under `id` is handed
    /// back.
    pub fn register(&mut self, id: u64, waiter: W) -> (r: Option<W>)
        ensures
            final(self)@ == old(self)@.insert(id, waiter),
            r == waiter_of(old(self)@, id),
    {
        self.map.insert(id, waiter)
    }

    /// Takes out the waiter under `id`, to deliver a response to it; `None`
    /// when no one waits for `id` (already resolved or expired).
    pub fn resolve(&mut self, id: u64) -> (r: Option<W>)
        ensures
            final(self)@ == old(self)@.remove(id),
            r == waiter_of(old(self)@, id),
    {
        self.map.remove(&id)
    }

    /// Drops the waiter under `id`; tells whether there was one.
    pub fn expire(&mut self, id: u64) -> (r: bool)
        ensures
            final(self)@ == old(self)@.remove(id),
            r == old(self)@.contains_key(id),
    {
        self.map.remove(&id).is_some()
    }
}

/// A waiter registered under `id` is the one that a response for `id` reaches;
/// the delivery takes the entry out, so a second response for `id` reaches no
/// one.
pub proof fn lemma_single_delivery<W>(m: Map<u64, W>, id: u64, waiter: W)
    ensures
        waiter_of(m.insert(id, waiter), id) == Some(waiter),
        !m.insert(id, waiter).remove(id).contains_key(id),
        waiter_of(m.insert(id, waiter).remove(id), id) is None,
{
}

/// Once the registration of `id` has expired, a response for `id` that comes
/// later reaches no one, and every other waiter stays where it was.
pub proof fn lemma_late_reply_dropped<W>(m: Map<u64, W>, id: u64, waiter: W, other: u64)
    requires
        other != id,
    ensures
        waiter_of(m.insert(id, waiter).remove(id), id) is None,
        waiter_of(m.insert(id, waiter).remove(id), other) == waiter_of(m, other),
{
}

/// Two calls with distinct identifiers are resolved each by its own
/// response, whichever response comes first.
pub proof fn lemma_independent_replies<W>(m: Map<u64, W>, a: u64, wa: W, b: u64, wb: W)
    requires
        a != b,
    ensures
        ({
            let both = m.insert(a, wa).insert(b, wb);
            &&& waiter_of(both, b) == Some(wb)
            &&& waiter_of(both.remove(b), a) == Some(wa)
            &&& waiter_of(both, a) == Some(wa)
            &&& waiter_of(both.remove(a), b) == Some(wb)
        }),
{
}

} // verus!
