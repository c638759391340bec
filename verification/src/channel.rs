//! Single-slot handoff between the playback side and the analysis side.
//!
//! At most one window is in flight at a time. Offering a new window while the
//! previous one is unclaimed replaces it: a deliberate latest-window-wins
//! policy, so the producer never waits for the consumer. Claiming empties the
//! slot. (Thread-safety is the caller's concern; this type fixes the policy.)

use vstd::prelude::*;

verus! {

/// A handoff slot holding at most one in-flight item.
pub struct SingleSlot<T> {
    slot: Option<T>,
}

impl<T> SingleSlot<T> {
    /// The item currently in flight, if any.
    pub closed spec fn view(self) -> Option<T> {
        self.slot
    }

    /// A fresh, empty slot.
    pub fn empty() -> (s: SingleSlot<T>)
        ensures
            s@ is None,
    {
        SingleSlot { slot: None }
    }

    /// Whether an item is waiting to be claimed.
    pub fn is_occupied(&self) -> (b: bool)
        ensures
            b == (self@ is Some),
    {
        self.slot.is_some()
    }

    /// Offer a new item. Always succeeds and never blocks: if an unclaimed
    /// item was in the slot it is dropped, and the newest item wins.
    pub fn offer(&mut self, item: T)
        ensures
            final(self)@ == Some(item),
    {
        self.slot = Some(item);
    }

    /// Claim the in-flight item, leaving the slot empty; `None` if no item
    /// was in flight.
    pub fn claim(&mut self) -> (r: Option<T>)
        ensures
            r == old(self)@,
            final(self)@ is None,
    {
        self.slot.take()
    }
}

} // verus!
