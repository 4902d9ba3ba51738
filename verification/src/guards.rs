//! The write gate that every mutating operation consults first.

use vstd::prelude::*;

verus! {

/// The write-enable gate. It starts closed (read-only).
///
/// The lock is advisory: it records a caller's explicit decision to allow
/// mutation and is consulted before each write, but it does not serialise
/// concurrent writers. A caller that shares one gate between threads must
/// check it and act on it within the same logical operation.
pub struct GlobalWriteLock {
    enabled: bool,
}

impl GlobalWriteLock {
    /// Whether writes are allowed by this gate.
    pub closed spec fn allowed(&self) -> bool {
        self.enabled
    }

    /// A new gate, closed.
    pub fn new() -> (gate: Self)
        ensures
            !gate.allowed(),
    {
        GlobalWriteLock { enabled: false }
    }

    /// Opens the lock. Only an explicit caller decision should lead here.
    pub fn request_write_access(&mut self)
        ensures
            final(self).allowed(),
    {
        self.enabled = true;
    }

    /// Reads the lock.
    pub fn is_write_allowed(&self) -> (allowed: bool)
        ensures
            allowed == self.allowed(),
    {
        self.enabled
    }

    /// Closes the lock again.
    pub fn revoke_access(&mut self)
        ensures
            !final(self).allowed(),
    {
        self.enabled = false;
    }
}

} // verus!
