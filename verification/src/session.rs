//! One physical network session and its transaction-control primitives.

use vstd::prelude::*;

use crate::errors::DbError;
use crate::query::QuerySpecification;
use crate::query::Row;
use crate::transport::TransportClient;

verus! {

/// One live session with the server.
///
/// `id` is the pool-assigned identity, `handle` the transport's own session
/// handle, and `tx` the handle of the open server-side transaction, if any.
/// A session holds at most one open transaction at a time.
#[derive(Clone, Copy, Debug, PartialEq, Eq, Structural)]
pub struct Session {
    pub id: u64,
    pub handle: u64,
    pub tx: Option<u64>,
}

impl Session {
    /// A freshly opened session: no transaction yet.
    pub fn new(id: u64, handle: u64) -> (s: Session)
        ensures
            s == (Session { id, handle, tx: None }),
    {
        Session { id, handle, tx: None }
    }

    /// Executes one statement, inside the open transaction if any, otherwise
    /// as an implicit single-statement transaction. Rows come back eagerly in
    /// server-returned order. No local state changes: poisoning is the
    /// connection's business.
    pub fn execute<T: TransportClient>(&self, t: &mut T, query: &QuerySpecification) -> (r: Result<
        Vec<Row>,
        DbError,
    >)
        ensures
            r matches Err(e) ==> e == DbError::Transport || e == DbError::Query,
    {
        t.run(self.handle, query)
    }

    /// Opens a server-side transaction and stores its handle. Rejected
    /// locally, with no transport call, when one is already open.
    pub fn begin<T: TransportClient>(&mut self, t: &mut T) -> (r: Result<(), DbError>)
        ensures
            final(self).id == old(self).id,
            final(self).handle == old(self).handle,
            old(self).tx is Some ==> (r matches Err(e) && e == DbError::AlreadyInTransaction
                && *final(self) == *old(self) && *final(t) == *old(t)),
            old(self).tx is None && r is Ok ==> final(self).tx is Some,
            old(self).tx is None ==> (r matches Err(e) ==> e == DbError::Transport && final(self).tx is None),
    {
        if self.tx.is_some() {
            return Err(DbError::AlreadyInTransaction);
        }
        match t.begin_tx(self.handle) {
            Ok(tx) => {
                self.tx = Some(tx);
                Ok(())
            },
            Err(e) => Err(e),
        }
    }

    /// Sends the commit command. Rejected locally when no transaction is
    /// open. The handle is cleared whether or not the transport succeeds: a
    /// failed commit leaves no usable transaction behind.
    pub fn commit<T: TransportClient>(&mut self, t: &mut T) -> (r: Result<(), DbError>)
        ensures
            final(self).id == old(self).id,
            final(self).handle == old(self).handle,
            old(self).tx is None ==> (r matches Err(e) && e == DbError::NoActiveTransaction
                && *final(self) == *old(self) && *final(t) == *old(t)),
            old(self).tx is Some ==> final(self).tx is None && (r matches Err(e) ==> e
                == DbError::Transport),
    {
        match self.tx {
            None => Err(DbError::NoActiveTransaction),
            Some(tx) => {
                self.tx = None;
                t.commit_tx(self.handle, tx)
            },
        }
    }

    /// Sends the rollback command; the same local rejection and
    /// clear-regardless policy as [`Session::commit`].
    pub fn rollback<T: TransportClient>(&mut self, t: &mut T) -> (r: Result<(), DbError>)
        ensures
            final(self).id == old(self).id,
            final(self).handle == old(self).handle,
            old(self).tx is None ==> (r matches Err(e) && e == DbError::NoActiveTransaction
                && *final(self) == *old(self) && *final(t) == *old(t)),
            old(self).tx is Some ==> final(self).tx is None && (r matches Err(e) ==> e
                == DbError::Transport),
    {
        match self.tx {
            None => Err(DbError::NoActiveTransaction),
            Some(tx) => {
                self.tx = None;
                t.rollback_tx(self.handle, tx)
            },
        }
    }
}

} // verus!
