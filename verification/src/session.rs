//! The in-memory session slot: the holder for the authenticated client once
//! the code-for-token exchange has completed.  It starts empty and every
//! successful callback overwrites it whole; there is no merging and no
//! rejection of later writes.

use vstd::prelude::*;

verus! {

/// The optional holder for the authenticated client.  The process owns one
/// slot for its whole lifetime, shared across requests behind a lock that
/// the caller provides.
pub struct SessionSlot<C> {
    stored: Option<C>,
}

/// The slot value after a write: the new client, whatever was there before.
pub closed spec fn spec_store<C>(slot: SessionSlot<C>, c: C) -> SessionSlot<C> {
    SessionSlot { stored: Some(c) }
}

/// A write leaves exactly the written client in the slot, whatever the slot
/// held before.
pub proof fn lemma_store_current<C>(slot: SessionSlot<C>, c: C)
    ensures
        spec_store(slot, c).current() == Some(c),
{
}

impl<C> SessionSlot<C> {
    /// What the slot currently holds.
    pub closed spec fn current(self) -> Option<C> {
        self.stored
    }

    /// A fresh slot holds nothing.
    pub fn empty() -> (slot: Self)
        ensures
            slot.current() is None,
    {
        SessionSlot { stored: None }
    }

    /// Overwrite the slot with a newly authenticated client.  This is the
    /// only mutation the slot admits.
    pub fn store(&mut self, c: C)
        ensures
            *final(self) == spec_store(*old(self), c),
            final(self).current() == Some(c),
    {
        self.stored = Some(c);
    }

    /// Whether a client is held.
    pub fn is_filled(&self) -> (filled: bool)
        ensures
            filled == (self.current() is Some),
    {
        self.stored.is_some()
    }

    /// Borrow whatever the slot holds.
    pub fn get(&self) -> (r: &Option<C>)
        ensures
            *r == self.current(),
    {
        &self.stored
    }
}

/// However two competing writes interleave, the one granted the lock last
/// determines the slot: in either order, after both writes the slot holds
/// exactly the later of the two clients in full — one of the two results,
/// never a mixture and never the earlier contents.
pub proof fn lemma_last_write_wins<C>(slot: SessionSlot<C>, c1: C, c2: C)
    ensures
        spec_store(spec_store(slot, c1), c2).current() == Some(c2),
        spec_store(spec_store(slot, c2), c1).current() == Some(c1),
{
}

} // verus!
