//! The opaque transport collaborator and a scripted in-memory double.
//!
//! The core never parses the wire format; it drives a [`TransportClient`]
//! through five operations and interprets success or failure. Every error a
//! transport reports is either `Transport` (the link itself failed) or
//! `Query` (the server rejected the statement); the state machines in
//! [`crate::connection`] rely on exactly that classification.

use vstd::prelude::*;

use crate::errors::DbError;
use crate::query::QuerySpecification;
use crate::query::Row;

verus! {

/// One physical link to the database server.
///
/// `open_session` yields a handle for a fresh network session and
/// `close_session` ends it. `run` executes one statement, `begin_tx` opens a
/// server-side transaction and yields its handle, and `commit_tx` /
/// `rollback_tx` finalize it. Implementations promise nothing beyond the
/// error classification: the core states what holds of every outcome.
pub trait TransportClient {
    fn open_session(&mut self) -> (r: Result<u64, DbError>)
        ensures
            r matches Err(e) ==> e == DbError::Transport,
    ;

    fn close_session(&mut self, handle: u64);

    fn run(&mut self, handle: u64, query: &QuerySpecification) -> (r: Result<Vec<Row>, DbError>)
        ensures
            r matches Err(e) ==> e == DbError::Transport || e == DbError::Query,
    ;

    fn begin_tx(&mut self, handle: u64) -> (r: Result<u64, DbError>)
        ensures
            r matches Err(e) ==> e == DbError::Transport,
    ;

    fn commit_tx(&mut self, handle: u64, tx: u64) -> (r: Result<(), DbError>)
        ensures
            r matches Err(e) ==> e == DbError::Transport,
    ;

    fn rollback_tx(&mut self, handle: u64, tx: u64) -> (r: Result<(), DbError>)
        ensures
            r matches Err(e) ==> e == DbError::Transport,
    ;
}

/// A failure a [`MockTransport`] can be scripted to report next.
#[derive(Clone, Copy, Debug, PartialEq, Eq, Structural)]
pub enum MockFailure {
    Transport,
    Query,
}

/// A deterministic, fully verified transport double.
///
/// It counts every call, hands out sequential session and transaction
/// handles, records which sessions were closed, and fails exactly once where
/// a `fail_next_*` script says so. Successful runs return no rows.
pub struct MockTransport {
    pub next_handle: u64,
    pub next_tx: u64,
    pub open_calls: u64,
    pub close_calls: u64,
    pub run_calls: u64,
    pub begin_calls: u64,
    pub commit_calls: u64,
    pub rollback_calls: u64,
    pub closed_handles: Vec<u64>,
    pub fail_next_open: bool,
    pub fail_next_run: Option<MockFailure>,
    pub fail_next_begin: bool,
    pub fail_next_commit: bool,
    pub fail_next_rollback: bool,
}

impl MockTransport {
    /// A fresh double: nothing scripted, nothing counted.
    pub fn new() -> (t: MockTransport)
        ensures
            t.next_handle == 0,
            t.next_tx == 0,
            t.open_calls == 0,
            t.close_calls == 0,
            t.run_calls == 0,
            t.begin_calls == 0,
            t.commit_calls == 0,
            t.rollback_calls == 0,
            t.closed_handles@.len() == 0,
            !t.fail_next_open,
            t.fail_next_run is None,
            !t.fail_next_begin,
            !t.fail_next_commit,
            !t.fail_next_rollback,
    {
        MockTransport {
            next_handle: 0,
            next_tx: 0,
            open_calls: 0,
            close_calls: 0,
            run_calls: 0,
            begin_calls: 0,
            commit_calls: 0,
            rollback_calls: 0,
            closed_handles: Vec::new(),
            fail_next_open: false,
            fail_next_run: None,
            fail_next_begin: false,
            fail_next_commit: false,
            fail_next_rollback: false,
        }
    }
}

impl TransportClient for MockTransport {
    fn open_session(&mut self) -> (r: Result<u64, DbError>)
        ensures
            r matches Err(e) ==> e == DbError::Transport,
            old(self).fail_next_open ==> r matches Err(DbError::Transport),
            !old(self).fail_next_open ==> (r matches Ok(h) && h == old(self).next_handle),
            !old(self).fail_next_open && old(self).next_handle < u64::MAX
                ==> final(self).next_handle == old(self).next_handle + 1,
            !final(self).fail_next_open,
            old(self).open_calls < u64::MAX ==> final(self).open_calls == old(self).open_calls
                + 1,
    {
        self.open_calls = self.open_calls.wrapping_add(1);
        if self.fail_next_open {
            self.fail_next_open = false;
            Err(DbError::Transport)
        } else {
            let h = self.next_handle;
            self.next_handle = self.next_handle.wrapping_add(1);
            Ok(h)
        }
    }

    fn close_session(&mut self, handle: u64)
        ensures
            final(self).closed_handles@ == old(self).closed_handles@.push(handle),
            old(self).close_calls < u64::MAX ==> final(self).close_calls == old(self).close_calls + 1,
    {
        self.close_calls = self.close_calls.wrapping_add(1);
        self.closed_handles.push(handle);
    }

    fn run(&mut self, handle: u64, query: &QuerySpecification) -> (r: Result<Vec<Row>, DbError>)
        ensures
            r matches Err(e) ==> e == DbError::Transport || e == DbError::Query,
            old(self).fail_next_run matches Some(f) ==> (r matches Err(e) && e == (
            match f {
                MockFailure::Transport => DbError::Transport,
                MockFailure::Query => DbError::Query,
            })),
            old(self).fail_next_run is None ==> (r matches Ok(rows) && rows@.len() == 0),
            final(self).fail_next_run is None,
            old(self).run_calls < u64::MAX ==> final(self).run_calls == old(self).run_calls + 1,
    {
        self.run_calls = self.run_calls.wrapping_add(1);
        match self.fail_next_run {
            Some(MockFailure::Transport) => {
                self.fail_next_run = None;
                Err(DbError::Transport)
            },
            Some(MockFailure::Query) => {
                self.fail_next_run = None;
                Err(DbError::Query)
            },
            None => Ok(Vec::new()),
        }
    }

    fn begin_tx(&mut self, handle: u64) -> (r: Result<u64, DbError>)
        ensures
            r matches Err(e) ==> e == DbError::Transport,
            old(self).fail_next_begin ==> r matches Err(DbError::Transport),
            !old(self).fail_next_begin ==> (r matches Ok(tx) && tx == old(self).next_tx),
            !final(self).fail_next_begin,
            old(self).begin_calls < u64::MAX ==> final(self).begin_calls == old(self).begin_calls + 1,
    {
        self.begin_calls = self.begin_calls.wrapping_add(1);
        if self.fail_next_begin {
            self.fail_next_begin = false;
            Err(DbError::Transport)
        } else {
            let tx = self.next_tx;
            self.next_tx = self.next_tx.wrapping_add(1);
            Ok(tx)
        }
    }

    fn commit_tx(&mut self, handle: u64, tx: u64) -> (r: Result<(), DbError>)
        ensures
            r matches Err(e) ==> e == DbError::Transport,
            old(self).fail_next_commit ==> r matches Err(DbError::Transport),
            !old(self).fail_next_commit ==> r is Ok,
            !final(self).fail_next_commit,
            old(self).commit_calls < u64::MAX ==> final(self).commit_calls == old(self).commit_calls + 1,
    {
        self.commit_calls = self.commit_calls.wrapping_add(1);
        if self.fail_next_commit {
            self.fail_next_commit = false;
            Err(DbError::Transport)
        } else {
            Ok(())
        }
    }

    fn rollback_tx(&mut self, handle: u64, tx: u64) -> (r: Result<(), DbError>)
        ensures
            r matches Err(e) ==> e == DbError::Transport,
            old(self).fail_next_rollback ==> r matches Err(DbError::Transport),
            !old(self).fail_next_rollback ==> r is Ok,
            !final(self).fail_next_rollback,
            old(self).rollback_calls < u64::MAX ==> final(self).rollback_calls == old(self).rollback_calls + 1,
    {
        self.rollback_calls = self.rollback_calls.wrapping_add(1);
        if self.fail_next_rollback {
            self.fail_next_rollback = false;
            Err(DbError::Transport)
        } else {
            Ok(())
        }
    }
}

} // verus!
