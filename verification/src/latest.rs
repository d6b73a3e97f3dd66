//! The slot of a mailbox that keeps only the newest value: a producer
//! replaces what is pending instead of waiting for a busy consumer. Locking
//! and waking the consumer stay with the caller.

use vstd::prelude::*;

verus! {

/// A pending value, if any.
pub struct Slot<T> {
    pending: Option<T>,
}

impl<T> View for Slot<T> {
    type V = Option<T>;

    closed spec fn view(&self) -> Option<T> {
        self.pending
    }
}

impl<T> Slot<T> {
    /// An empty slot.
    pub fn new() -> (r: Slot<T>)
        ensures
            r@ is None,
    {
        Slot { pending: None }
    }

    /// Makes `value` the pending value, dropping any older one: whatever was
    /// put before, the next take gets `value`.
    pub fn put(&mut self, value: T)
        ensures
            final(self)@ == Some(value),
    {
        self.pending = Some(value);
    }

    /// Takes the pending value out, leaving the slot empty.
    pub fn take(&mut self) -> (r: Option<T>)
        ensures
            r == old(self)@,
            final(self)@ is None,
    {
        self.pending.take()
    }
}

} // verus!
