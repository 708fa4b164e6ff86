//! A one-slot handoff cell.
//!
//! Across a context switch a value travels by pointer: the sender constructs
//! it on its own stack and the receiver takes ownership by moving it out.
//! The cell models that handoff: `put` posts a value into a free slot, and
//! `take` moves it out, exactly once.

use vstd::prelude::*;

verus! {

/// A slot through which one value at a time crosses from one side of a
/// switch to the other.
pub struct TransferCell<T> {
    slot: Option<T>,
}

impl<T> TransferCell<T> {
    /// The value currently in flight, if any.
    pub closed spec fn contents(&self) -> Option<T> {
        self.slot
    }

    /// True when a value is in flight.
    pub open spec fn is_full(&self) -> bool {
        self.contents() is Some
    }

    /// A fresh cell with nothing in flight.
    pub fn empty() -> (c: Self)
        ensures
            !c.is_full(),
    {
        TransferCell { slot: None }
    }

    /// Sender side: post `v` for the other side. The slot must be free, so a
    /// posted value can never overwrite — duplicate or lose — another.
    pub fn put(&mut self, v: T)
        requires
            !old(self).is_full(),
        ensures
            final(self).contents() == Some(v),
    {
        self.slot = Some(v);
    }

    /// Receiver side: move the posted value out, freeing the slot. The value
    /// received is exactly the value posted, and it can be received only
    /// once.
    pub fn take(&mut self) -> (r: T)
        requires
            old(self).is_full(),
        ensures
            Some(r) == old(self).contents(),
            !final(self).is_full(),
    {
        let mut posted: Option<T> = None;
        core::mem::swap(&mut posted, &mut self.slot);
        match posted {
            Some(v) => v,
            None => unreached(),
        }
    }
}

} // verus!
