//! The error taxonomy shared by sessions, connections and the pool.

use vstd::prelude::*;

verus! {

/// Everything that can go wrong while driving a session or the pool.
///
/// `Transport` is a network or protocol failure: it is not locally
/// recoverable and poisons an open transaction. `Query` means the server
/// rejected the statement; the session stays usable. `AlreadyInTransaction`
/// and `NoActiveTransaction` are caller protocol violations, rejected before
/// any transport call. `SessionPoisoned` rejects any further operation on a
/// lease whose transactional status is no longer trustworthy. `Timeout` is
/// pool exhaustion within the deadline, and `PoolClosed` follows a shutdown.
#[derive(Clone, Copy, Debug, PartialEq, Eq, Structural)]
pub enum DbError {
    Transport,
    Query,
    AlreadyInTransaction,
    NoActiveTransaction,
    SessionPoisoned,
    Timeout,
    PoolClosed,
}

impl DbError {
    /// Only transport-class failures make a session's state untrustworthy.
    pub open spec fn poisons(self) -> bool {
        self is Transport
    }

    /// Runtime test for the transport classification used on release.
    pub fn is_transport(&self) -> (b: bool)
        ensures
            b == self.poisons(),
    {
        match self {
            DbError::Transport => true,
            _ => false,
        }
    }
}

} // verus!
