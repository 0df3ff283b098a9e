//! The authorization gate: a single-slot latch between the two pumps.
//!
//! The receive pump sets the latch when the pool authorizes the worker; the
//! submit pump waits on it before it produces traffic. The latch is no queue:
//! a value that is set while another is pending replaces it.

use vstd::prelude::*;

verus! {

/// A latch that holds at most one pending value.
#[derive(Clone, Copy, Debug, PartialEq, Eq, Structural)]
pub struct AuthorizationGate {
    slot: Option<bool>,
}

impl AuthorizationGate {
    /// The value that waits to be taken, if any.
    pub closed spec fn pending(&self) -> Option<bool> {
        self.slot
    }

    /// A gate with nothing pending.
    pub fn new() -> (gate: AuthorizationGate)
        ensures
            gate.pending() is None,
    {
        AuthorizationGate { slot: None }
    }

    /// Sets the latch to `value`, whatever was pending: of several signals with
    /// no wait between them only the latest is seen.
    pub fn signal(&mut self, value: bool)
        ensures
            final(self).pending() == Some(value),
    {
        self.slot = Some(value);
    }

    /// Drops what is pending.
    pub fn reset(&mut self)
        ensures
            final(self).pending() is None,
    {
        self.slot = None;
    }

    /// Takes the pending value, which leaves the latch empty. `None` means
    /// that a waiter has to go on waiting.
    pub fn take(&mut self) -> (value: Option<bool>)
        ensures
            value == old(self).pending(),
            final(self).pending() is None,
    {
        let value = self.slot;
        self.slot = None;
        value
    }

    /// Whether a value is pending; the latch is left as it is.
    pub fn signaled(&self) -> (pending: bool)
        ensures
            pending == self.pending().is_some(),
    {
        self.slot.is_some()
    }
}

} // verus!
