//! Mutual exclusion over the session.
//!
//! The two pumps share one session. Each acts on it only between being
//! granted the lock and giving it back; the lock is granted to one holder at
//! a time and is not reentrant.

use vstd::prelude::*;

verus! {

/// The two tasks that act on a session.
#[derive(Clone, Copy, Debug, PartialEq, Eq, Structural)]
pub enum Pump {
    /// Decodes inbound messages and drives the handshake.
    Receive,
    /// Submits shares.
    Submit,
}

/// Who holds the session.
#[derive(Clone, Copy, Debug, PartialEq, Eq, Structural)]
pub struct SessionLock {
    holder: Option<Pump>,
}

impl SessionLock {
    pub closed spec fn holder_spec(&self) -> Option<Pump> {
        self.holder
    }

    /// A lock that nobody holds.
    pub fn new() -> (lock: SessionLock)
        ensures
            lock.holder() is None,
    {
        SessionLock { holder: None }
    }

    /// The pump that holds the lock, if any.
    #[verifier::when_used_as_spec(holder_spec)]
    pub fn holder(&self) -> (holder: Option<Pump>)
        ensures
            holder == self.holder(),
    {
        self.holder
    }

    /// Grants the lock to `pump` if nobody holds it, `pump` included;
    /// otherwise changes nothing.
    pub fn try_acquire(&mut self, pump: Pump) -> (granted: bool)
        ensures
            granted == old(self).holder().is_none(),
            granted ==> final(self).holder() == Some(pump),
            !granted ==> final(self).holder() == old(self).holder(),
    {
        if self.holder.is_none() {
            self.holder = Some(pump);
            true
        } else {
            false
        }
    }

    /// Takes the lock back from `pump` if it holds it; otherwise changes
    /// nothing.
    pub fn release(&mut self, pump: Pump) -> (released: bool)
        ensures
            released == (old(self).holder() == Some(pump)),
            released ==> final(self).holder() is None,
            !released ==> final(self).holder() == old(self).holder(),
    {
        match self.holder {
            Some(holder) => {
                if holder == pump {
                    self.holder = None;
                    true
                } else {
                    false
                }
            },
            None => false,
        }
    }
}

} // verus!
