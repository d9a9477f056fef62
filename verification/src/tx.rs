//! The transaction state machine embedded in every connection lease.

use vstd::prelude::*;

use crate::errors::DbError;

verus! {

/// Transactional status of a leased session.
///
/// `Idle --begin--> InTransaction`; `InTransaction --commit/rollback ok-->
/// Idle`; a transport failure inside a transaction, or during commit or
/// rollback, moves to `Poisoned`. `Poisoned` is terminal: it accepts no
/// operation except being discarded by the pool.
#[derive(Clone, Copy, Debug, PartialEq, Eq, Structural)]
pub enum TxState {
    Idle,
    InTransaction,
    Poisoned,
}

impl TxState {
    /// The transitions the state machine permits.
    pub open spec fn step_allowed(self, post: TxState) -> bool {
        match self {
            TxState::Idle => post is Idle || post is InTransaction,
            TxState::InTransaction => true,
            TxState::Poisoned => post is Poisoned,
        }
    }

    /// A poisoned lease accepts no further operations.
    pub fn accepts_operations(&self) -> (b: bool)
        ensures
            b == !(self is Poisoned),
    {
        match self {
            TxState::Poisoned => false,
            _ => true,
        }
    }

    /// The state after a statement ran: a transport failure inside an open
    /// transaction poisons; any other outcome leaves the state alone. This
    /// is the decision a driver applies after its own transport call.
    pub fn after_query(self, outcome_err: Option<DbError>) -> (post: TxState)
        requires
            !(self is Poisoned),
        ensures
            self.step_allowed(post),
            post == (if self is InTransaction && outcome_err == Some(DbError::Transport) {
                TxState::Poisoned
            } else {
                self
            }),
    {
        match (self, outcome_err) {
            (TxState::InTransaction, Some(DbError::Transport)) => TxState::Poisoned,
            _ => self,
        }
    }

    /// The state after the transport answered a begin request.
    pub fn after_begin(self, ok: bool) -> (post: TxState)
        requires
            self is Idle,
        ensures
            self.step_allowed(post),
            post == (if ok {
                TxState::InTransaction
            } else {
                TxState::Idle
            }),
    {
        if ok {
            TxState::InTransaction
        } else {
            TxState::Idle
        }
    }

    /// The state after the transport answered a commit or rollback request:
    /// a failure leaves the transaction's fate ambiguous, so the lease is
    /// poisoned.
    pub fn after_finalize(self, ok: bool) -> (post: TxState)
        requires
            self is InTransaction,
        ensures
            self.step_allowed(post),
            post == (if ok {
                TxState::Idle
            } else {
                TxState::Poisoned
            }),
    {
        if ok {
            TxState::Idle
        } else {
            TxState::Poisoned
        }
    }
}

} // verus!
