//! A connection-pooled, transactional database access core.
//!
//! The library manages a bounded set of [`session::Session`]s, hands them out
//! as exclusively-owned [`connection::Connection`] leases, tracks each lease's
//! transaction state, and reclaims or discards sessions on release. All
//! bookkeeping is verified; the wire protocol behind the
//! [`transport::TransportClient`] collaborator is out of scope.

use vstd::prelude::*;

pub mod connection;
pub mod errors;
pub mod fifo;
pub mod guess;
pub mod limit;
pub mod pool;
pub mod query;
pub mod rect;
pub mod session;
pub mod transport;
pub mod tx;

verus! {

/// Sum of two numbers; the caller rules out overflow.
pub fn add(left: u64, right: u64) -> (sum: u64)
    requires
        left + right <= u64::MAX,
    ensures
        sum == left + right,
{
    left + right
}

/// Adds two to a number; the caller rules out overflow.
pub fn add_two(a: usize) -> (r: usize)
    requires
        a + 2 <= usize::MAX,
    ensures
        r == a + 2,
{
    a + 2
}

} // verus!
