//! The public façade over one leased session.

use vstd::prelude::*;

use crate::errors::DbError;
use crate::query::QuerySpecification;
use crate::query::Row;
use crate::session::Session;
use crate::transport::TransportClient;
use crate::tx::TxState;

verus! {

/// An exclusively-owned lease on one [`Session`], combined with the
/// transaction state machine that guards every call.
///
/// Each operation first consults the state machine for legality — illegal
/// calls are rejected locally, with no transport round-trip — then delegates
/// to the session and updates the state from the outcome.
#[derive(Clone, Copy, Debug)]
pub struct Connection {
    pub session: Session,
    pub state: TxState,
}

impl Connection {
    /// The state machine and the session agree on whether a transaction is
    /// open. A poisoned lease may hold a dangling handle (a transport failure
    /// mid-transaction) or none (a failed commit or rollback).
    pub open spec fn wf(self) -> bool {
        &&& self.state is Idle ==> self.session.tx is None
        &&& self.state is InTransaction ==> self.session.tx is Some
    }

    /// A fresh lease over a clean session.
    pub fn new(session: Session) -> (c: Connection)
        requires
            session.tx is None,
        ensures
            c == (Connection { session, state: TxState::Idle }),
            c.wf(),
    {
        Connection { session, state: TxState::Idle }
    }

    /// The pool-assigned identity of the underlying session.
    pub fn session_id(&self) -> (id: u64)
        ensures
            id == self.session.id,
    {
        self.session.id
    }

    /// The lease's current transaction state.
    pub fn tx_state(&self) -> (s: TxState)
        ensures
            s == self.state,
    {
        self.state
    }

    /// Executes one statement through the leased session.
    ///
    /// Rejected locally when poisoned. A `Query` error leaves the state
    /// untouched; a `Transport` failure inside an open transaction poisons
    /// the lease (the dangling handle is kept for the pool to discard).
    pub fn query<T: TransportClient>(&mut self, t: &mut T, query: &QuerySpecification) -> (r:
        Result<Vec<Row>, DbError>)
        requires
            old(self).wf(),
        ensures
            final(self).wf(),
            final(self).session == old(self).session,
            old(self).state.step_allowed(final(self).state),
            old(self).state is Poisoned ==> (r matches Err(e) && e == DbError::SessionPoisoned
                && *final(self) == *old(self) && *final(t) == *old(t)),
            !(old(self).state is Poisoned) ==> (r matches Err(e) ==> e == DbError::Transport || e
                == DbError::Query),
            !(old(self).state is Poisoned) ==> (final(self).state == old(self).state || (final(self).state is Poisoned && old(self).state is InTransaction && (r matches Err(
                DbError::Transport,
            )))),
            old(self).state is InTransaction && (r matches Err(DbError::Transport)) ==> final(self).state is Poisoned,
    {
        if !self.state.accepts_operations() {
            return Err(DbError::SessionPoisoned);
        }
        let r = self.session.execute(t, query);
        if let Err(e) = &r {
            if e.is_transport() && matches!(self.state, TxState::InTransaction) {
                self.state = TxState::Poisoned;
            }
        }
        r
    }

    /// Opens a transaction; rejected locally when poisoned or already inside
    /// one. A transport failure on begin leaves the lease idle and usable.
    pub fn start_transaction<T: TransportClient>(&mut self, t: &mut T) -> (r: Result<(), DbError>)
        requires
            old(self).wf(),
        ensures
            final(self).wf(),
            final(self).session.id == old(self).session.id,
            final(self).session.handle == old(self).session.handle,
            old(self).state.step_allowed(final(self).state),
            old(self).state is Poisoned ==> (r matches Err(e) && e == DbError::SessionPoisoned
                && *final(self) == *old(self) && *final(t) == *old(t)),
            old(self).state is InTransaction ==> (r matches Err(e) && e
                == DbError::AlreadyInTransaction && *final(self) == *old(self) && *final(t) == *old(t)),
            old(self).state is Idle ==> {
                &&& (r is Ok ==> final(self).state is InTransaction && final(self).session.tx is Some)
                &&& (r matches Err(e) ==> e == DbError::Transport && *final(self) == *old(self))
            },
    {
        match self.state {
            TxState::Poisoned => Err(DbError::SessionPoisoned),
            TxState::InTransaction => Err(DbError::AlreadyInTransaction),
            TxState::Idle => {
                match self.session.begin(t) {
                    Ok(()) => {
                        self.state = TxState::InTransaction;
                        Ok(())
                    },
                    Err(e) => Err(e),
                }
            },
        }
    }

    /// Commits the open transaction; rejected locally — no transport call —
    /// when poisoned or when no transaction is open. A transport failure
    /// during commit poisons the lease: the transaction's fate is ambiguous.
    pub fn commit_transaction<T: TransportClient>(&mut self, t: &mut T) -> (r: Result<(), DbError>)
        requires
            old(self).wf(),
        ensures
            final(self).wf(),
            final(self).session.id == old(self).session.id,
            final(self).session.handle == old(self).session.handle,
            old(self).state.step_allowed(final(self).state),
            old(self).state is Poisoned ==> (r matches Err(e) && e == DbError::SessionPoisoned
                && *final(self) == *old(self) && *final(t) == *old(t)),
            old(self).state is Idle ==> (r matches Err(e) && e == DbError::NoActiveTransaction
                && *final(self) == *old(self) && *final(t) == *old(t)),
            old(self).state is InTransaction ==> {
                &&& final(self).session.tx is None
                &&& (r is Ok ==> final(self).state is Idle)
                &&& (r matches Err(e) ==> e == DbError::Transport && final(self).state is Poisoned)
            },
    {
        match self.state {
            TxState::Poisoned => Err(DbError::SessionPoisoned),
            TxState::Idle => Err(DbError::NoActiveTransaction),
            TxState::InTransaction => {
                match self.session.commit(t) {
                    Ok(()) => {
                        self.state = TxState::Idle;
                        Ok(())
                    },
                    Err(e) => {
                        self.state = TxState::Poisoned;
                        Err(e)
                    },
                }
            },
        }
    }

    /// Rolls back the open transaction; the same local rejections and
    /// poison-on-transport-failure policy as [`Connection::commit_transaction`].
    pub fn rollback_transaction<T: TransportClient>(&mut self, t: &mut T) -> (r: Result<
        (),
        DbError,
    >)
        requires
            old(self).wf(),
        ensures
            final(self).wf(),
            final(self).session.id == old(self).session.id,
            final(self).session.handle == old(self).session.handle,
            old(self).state.step_allowed(final(self).state),
            old(self).state is Poisoned ==> (r matches Err(e) && e == DbError::SessionPoisoned
                && *final(self) == *old(self) && *final(t) == *old(t)),
            old(self).state is Idle ==> (r matches Err(e) && e == DbError::NoActiveTransaction
                && *final(self) == *old(self) && *final(t) == *old(t)),
            old(self).state is InTransaction ==> {
                &&& final(self).session.tx is None
                &&& (r is Ok ==> final(self).state is Idle)
                &&& (r matches Err(e) ==> e == DbError::Transport && final(self).state is Poisoned)
            },
    {
        match self.state {
            TxState::Poisoned => Err(DbError::SessionPoisoned),
            TxState::Idle => Err(DbError::NoActiveTransaction),
            TxState::InTransaction => {
                match self.session.rollback(t) {
                    Ok(()) => {
                        self.state = TxState::Idle;
                        Ok(())
                    },
                    Err(e) => {
                        self.state = TxState::Poisoned;
                        Err(e)
                    },
                }
            },
        }
    }
}

} // verus!
