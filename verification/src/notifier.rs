//! The notifier: a single slot in which the consumer leaves the waiter that
//! should be woken when the native callback runs.

use vstd::prelude::*;

verus! {

/// Holds at most one waiter. Registering replaces whatever was in the slot;
/// notifying empties it and hands the waiter to the caller, who wakes it.
///
/// A notification that finds the slot empty wakes nobody. It is not lost for
/// that: the consumer registers first and inspects the result cell afterwards,
/// so it sees what the callback did before notifying.
pub struct Notifier<W> {
    waiter: Option<W>,
}

impl<W> View for Notifier<W> {
    type V = Option<W>;

    closed spec fn view(&self) -> Option<W> {
        self.waiter
    }
}

impl<W> Notifier<W> {
    /// A notifier with nobody waiting.
    pub fn new() -> (notifier: Self)
        ensures
            notifier@ is None,
    {
        Notifier { waiter: None }
    }

    /// Whether a waiter is in the slot.
    pub fn is_registered(&self) -> (registered: bool)
        ensures
            registered == (self@ is Some),
    {
        self.waiter.is_some()
    }

    /// Puts `waiter` in the slot, in place of any earlier one.
    pub fn register(&mut self, waiter: W)
        ensures
            final(self)@ == Some(waiter),
    {
        self.waiter = Some(waiter);
    }

    /// Empties the slot and returns the waiter that was in it, to be woken.
    /// Until the next registration every further notification returns `None`.
    pub fn notify(&mut self) -> (woken: Option<W>)
        ensures
            woken == old(self)@,
            final(self)@ is None,
    {
        self.waiter.take()
    }
}

} // verus!
