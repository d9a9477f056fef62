//! The bounded session pool: acquisition, FIFO waiting, recycling, discard.

use vstd::prelude::*;

use crate::connection::Connection;
use crate::errors::DbError;
use crate::session::Session;
use crate::transport::TransportClient;
use crate::tx::TxState;

verus! {

/// What an acquisition attempt yields: either a connection at once, or a
/// place in the FIFO wait queue under a fresh ticket. The caller suspends on
/// a ticket until a release hands it a grant or its deadline passes.
#[derive(Clone, Copy, Debug)]
pub enum AcquireOutcome {
    Ready(Connection),
    Enqueued(u64),
}

/// A session handed directly to the waiter holding `ticket`.
#[derive(Clone, Copy, Debug)]
pub struct Grant {
    pub ticket: u64,
    pub connection: Connection,
}

/// How the pool disposed of a released lease.
#[derive(Clone, Copy, Debug)]
pub enum ReleaseOutcome {
    /// The session went back to the idle set.
    Recycled,
    /// The session was handed, still leased, to the head of the wait queue.
    Granted(Grant),
    /// The session's transport was closed and its identity retired.
    Discarded,
}

/// Whether a released lease must be discarded rather than recycled: a
/// dangling or poisoned transaction state, a transport-class error reported
/// by the caller, or a pool already shut down.
pub open spec fn discards(state: TxState, error: Option<DbError>, closed: bool) -> bool {
    ||| !(state is Idle)
    ||| (error matches Some(e) && e.poisons())
    ||| closed
}

/// A bounded owner of sessions.
///
/// At any instant the pool partitions its sessions into `idle` (parked here)
/// and `leased` (their ids recorded here while a [`Connection`] owns them);
/// `waiters` is the FIFO queue of tickets of blocked acquirers. `retired`
/// is the ghost history of every discarded session identity: a retired id
/// never reappears.
///
/// The bookkeeping is one critical section: an embedder serializes these
/// operations under a single lock and parks or wakes callers outside it —
/// tickets and grants carry the handoff, deadlines withdraw tickets.
pub struct Pool {
    pub capacity: usize,
    pub idle: Vec<Session>,
    pub leased: Vec<u64>,
    pub waiters: Vec<u64>,
    pub next_session_id: u64,
    pub next_ticket: u64,
    pub closed: bool,
    pub retired: Ghost<Set<u64>>,
}

impl Pool {
    /// The ids of the parked sessions, in parking order.
    pub open spec fn idle_ids(self) -> Seq<u64> {
        self.idle@.map_values(|s: Session| s.id)
    }

    /// How many sessions currently exist, parked or leased.
    pub open spec fn total(self) -> int {
        self.idle@.len() + self.leased@.len() as int
    }

    /// Whether the pool may open one more session.
    pub open spec fn can_grow(self) -> bool {
        self.total() < self.capacity && self.next_session_id < u64::MAX
    }

    /// Whether one more waiter can receive a ticket.
    pub open spec fn can_enqueue(self) -> bool {
        self.next_ticket < u64::MAX
    }

    /// The pool's invariant. The capacity bound `|idle| + |leased| <=
    /// capacity` holds at every observation point; sessions are parked clean;
    /// every identity is unique, fresh ids are really fresh, and no retired
    /// id is parked or leased; tickets are unique and fresh; a closed pool
    /// has an empty wait queue.
    pub open spec fn wf(self) -> bool {
        &&& self.total() <= self.capacity
        &&& forall|i: int|
            0 <= i < self.idle@.len() ==> (#[trigger] self.idle@[i]).tx is None
        &&& forall|i: int|
            0 <= i < self.idle@.len() ==> (#[trigger] self.idle@[i]).id < self.next_session_id
        &&& forall|i: int|
            0 <= i < self.leased@.len() ==> (#[trigger] self.leased@[i]) < self.next_session_id
        &&& forall|i: int, j: int|
            0 <= i < j < self.idle@.len() ==> self.idle@[i].id != self.idle@[j].id
        &&& forall|i: int, j: int|
            0 <= i < j < self.leased@.len() ==> self.leased@[i] != self.leased@[j]
        &&& forall|i: int, j: int|
            0 <= i < self.idle@.len() && 0 <= j < self.leased@.len() ==> self.idle@[i].id
                != self.leased@[j]
        &&& forall|i: int|
            0 <= i < self.idle@.len() ==> !self.retired@.contains(
                (#[trigger] self.idle@[i]).id,
            )
        &&& forall|i: int|
            0 <= i < self.leased@.len() ==> !self.retired@.contains(
                #[trigger] self.leased@[i],
            )
        &&& forall|id: u64| #[trigger]
            self.retired@.contains(id) ==> id < self.next_session_id
        &&& forall|i: int, j: int|
            0 <= i < j < self.waiters@.len() ==> self.waiters@[i] != self.waiters@[j]
        &&& forall|i: int|
            0 <= i < self.waiters@.len() ==> (#[trigger] self.waiters@[i]) < self.next_ticket
        &&& (self.closed ==> self.waiters@.len() == 0)
    }

    /// An empty open pool with the given capacity. Sessions are opened
    /// lazily: none exists yet.
    pub fn new(capacity: usize) -> (p: Pool)
        ensures
            p.wf(),
            p.capacity == capacity,
            p.idle@.len() == 0,
            p.leased@.len() == 0,
            p.waiters@.len() == 0,
            p.next_session_id == 0,
            p.next_ticket == 0,
            !p.closed,
            p.retired@ == Set::<u64>::empty(),
    {
        Pool {
            capacity,
            idle: Vec::new(),
            leased: Vec::new(),
            waiters: Vec::new(),
            next_session_id: 0,
            next_ticket: 0,
            closed: false,
            retired: Ghost(Set::empty()),
        }
    }

    /// Requests a lease.
    ///
    /// A parked session is handed out at once; below capacity, a fresh one is
    /// opened lazily; otherwise the caller is enqueued FIFO. The caller's
    /// deadline lives outside the pool: on expiry it withdraws its ticket
    /// with [`Pool::remove_waiter`]. A session already retired is never
    /// handed out.
    pub fn acquire<T: TransportClient>(&mut self, t: &mut T) -> (r: Result<
        AcquireOutcome,
        DbError,
    >)
        requires
            old(self).wf(),
        ensures
            final(self).wf(),
            final(self).capacity == old(self).capacity,
            final(self).closed == old(self).closed,
            final(self).retired@ == old(self).retired@,
            final(self).total() <= final(self).capacity,
            old(self).closed ==> (r matches Err(e) && e == DbError::PoolClosed && *final(self)
                == *old(self) && *final(t) == *old(t)),
            !old(self).closed && old(self).idle@.len() > 0 ==> (r matches Ok(
                AcquireOutcome::Ready(c),
            ) && c.session == old(self).idle@.last() && c.state is Idle && c.wf() && final(self).idle@ == old(self).idle@.drop_last() && final(self).leased@ == old(self).leased@.push(c.session.id) && final(self).waiters@ == old(self).waiters@ && final(self).next_session_id == old(self).next_session_id && final(self).next_ticket == old(self).next_ticket && *final(t) == *old(t)),
            !old(self).closed && old(self).idle@.len() == 0 && old(self).can_grow() ==> ((r
                matches Ok(AcquireOutcome::Ready(c)) && c.session.id == old(self).next_session_id
                && c.session.tx is None && c.state is Idle && final(self).idle@ == old(self).idle@
                && final(self).leased@ == old(self).leased@.push(c.session.id) && final(self).waiters@ == old(self).waiters@ && final(self).next_session_id == old(self).next_session_id + 1 && final(self).next_ticket == old(self).next_ticket) || (r
                matches Err(e) && e == DbError::Transport && *final(self) == *old(self))),
            !old(self).closed && old(self).idle@.len() == 0 && !old(self).can_grow() && old(self).can_enqueue() ==> (r matches Ok(AcquireOutcome::Enqueued(k)) && k == old(self).next_ticket && final(self).waiters@ == old(self).waiters@.push(k) && final(self).idle@ == old(self).idle@ && final(self).leased@ == old(self).leased@ && final(self).next_ticket == old(self).next_ticket + 1 && final(self).next_session_id == old(self).next_session_id && *final(t) == *old(t)),
            !old(self).closed && old(self).idle@.len() == 0 && !old(self).can_grow() && !old(self).can_enqueue() ==> (r matches Err(e) && e == DbError::Timeout && *final(self) == *old(self) && *final(t) == *old(t)),
            r matches Ok(AcquireOutcome::Ready(c)) ==> (c.wf() && c.state is Idle && !old(self).retired@.contains(c.session.id) && final(self).leased@.contains(c.session.id)),
    {
        if self.closed {
            return Err(DbError::PoolClosed);
        }
        if self.idle.len() > 0 {
            let s = self.idle.pop().unwrap();
            self.leased.push(s.id);
            proof {
                assert(self.leased@[self.leased@.len() - 1] == s.id);
                assert(self.leased@.contains(s.id));
            }
            return Ok(AcquireOutcome::Ready(Connection::new(s)));
        }
        if self.leased.len() < self.capacity && self.next_session_id < u64::MAX {
            match t.open_session() {
                Ok(handle) => {
                    let id = self.next_session_id;
                    self.next_session_id = self.next_session_id + 1;
                    let s = Session::new(id, handle);
                    self.leased.push(id);
                    proof {
                        assert(self.leased@[self.leased@.len() - 1] == id);
                        assert(self.leased@.contains(id));
                    }
                    return Ok(AcquireOutcome::Ready(Connection::new(s)));
                },
                Err(e) => {
                    return Err(e);
                },
            }
        }
        if self.next_ticket < u64::MAX {
            let k = self.next_ticket;
            self.next_ticket = self.next_ticket + 1;
            self.waiters.push(k);
            Ok(AcquireOutcome::Enqueued(k))
        } else {
            Err(DbError::Timeout)
        }
    }

    /// Returns a lease to the pool.
    ///
    /// A clean lease is recycled: handed directly to the head of the wait
    /// queue if anyone waits, parked otherwise. A lease that
    /// [`discards`] says is unsafe — dangling or poisoned transaction state,
    /// a transport-class error, or a closed pool — has its transport closed
    /// and its identity retired for good; capacity is freed for a lazy
    /// replacement.
    pub fn release<T: TransportClient>(
        &mut self,
        t: &mut T,
        conn: Connection,
        error: Option<DbError>,
    ) -> (outcome: ReleaseOutcome)
        requires
            old(self).wf(),
            conn.wf(),
            old(self).leased@.contains(conn.session.id),
        ensures
            final(self).wf(),
            final(self).capacity == old(self).capacity,
            final(self).closed == old(self).closed,
            final(self).next_session_id == old(self).next_session_id,
            final(self).next_ticket == old(self).next_ticket,
            final(self).total() <= final(self).capacity,
            old(self).retired@.subset_of(final(self).retired@),
            discards(conn.state, error, old(self).closed) ==> (outcome is Discarded && final(self).retired@ == old(self).retired@.insert(conn.session.id) && final(self).idle@ == old(self).idle@ && final(self).leased@ == old(self).leased@.remove(
                old(self).leased@.index_of(conn.session.id),
            ) && final(self).waiters@ == old(self).waiters@),
            !discards(conn.state, error, old(self).closed) && old(self).waiters@.len() > 0 ==> (
            outcome matches ReleaseOutcome::Granted(g) && g.ticket == old(self).waiters@[0]
                && g.connection.session == conn.session && g.connection.state is Idle
                && g.connection.wf() && final(self).waiters@ == old(self).waiters@.drop_first()
                && final(self).leased@ == old(self).leased@ && final(self).idle@ == old(self).idle@
                && final(self).retired@ == old(self).retired@ && *final(t) == *old(t)),
            !discards(conn.state, error, old(self).closed) && old(self).waiters@.len() == 0 ==> (
            outcome is Recycled && final(self).idle@ == old(self).idle@.push(conn.session)
                && final(self).leased@ == old(self).leased@.remove(
                old(self).leased@.index_of(conn.session.id),
            ) && final(self).waiters@ == old(self).waiters@ && final(self).retired@ == old(self).retired@ && *final(t) == *old(t)),
    {
        let id = conn.session.id;
        let discard = !matches!(conn.state, TxState::Idle) || self.closed || (match &error {
            Some(e) => e.is_transport(),
            None => false,
        });
        if discard {
            let idx = self.index_of_leased(id);
            proof {
                lemma_unique_index(self.leased@, id, idx as int);
            }
            self.leased.remove(idx);
            t.close_session(conn.session.handle);
            self.retired = Ghost(self.retired@.insert(id));
            ReleaseOutcome::Discarded
        } else if self.waiters.len() > 0 {
            let ticket = self.waiters.remove(0);
            proof {
                assert(final(self).waiters@ =~= old(self).waiters@.drop_first());
            }
            ReleaseOutcome::Granted(Grant { ticket, connection: Connection::new(conn.session) })
        } else {
            let idx = self.index_of_leased(id);
            proof {
                lemma_unique_index(self.leased@, id, idx as int);
            }
            self.leased.remove(idx);
            self.idle.push(conn.session);
            ReleaseOutcome::Recycled
        }
    }

    /// Hands the head waiter a session if one can be had: a parked one, or a
    /// lazily opened replacement when a discard has freed capacity. `None`
    /// when nobody waits, nothing can be had, the replacement's transport
    /// failed to open, or the pool is closed.
    pub fn try_promote_waiter<T: TransportClient>(&mut self, t: &mut T) -> (g: Option<Grant>)
        requires
            old(self).wf(),
        ensures
            final(self).wf(),
            final(self).capacity == old(self).capacity,
            final(self).closed == old(self).closed,
            final(self).retired@ == old(self).retired@,
            final(self).total() <= final(self).capacity,
            old(self).closed || old(self).waiters@.len() == 0 ==> (g is None && *final(self)
                == *old(self) && *final(t) == *old(t)),
            !old(self).closed && old(self).waiters@.len() > 0 && old(self).idle@.len() > 0 ==> (g
                matches Some(gr) && gr.ticket == old(self).waiters@[0] && gr.connection.session
                == old(self).idle@.last() && gr.connection.state is Idle && gr.connection.wf()
                && final(self).waiters@ == old(self).waiters@.drop_first() && final(self).idle@
                == old(self).idle@.drop_last() && final(self).leased@ == old(self).leased@.push(
                gr.connection.session.id,
            ) && *final(t) == *old(t)),
            !old(self).closed && old(self).waiters@.len() > 0 && old(self).idle@.len() == 0 && old(self).can_grow() ==> ((g matches Some(gr) && gr.ticket == old(self).waiters@[0]
                && gr.connection.session.id == old(self).next_session_id
                && gr.connection.state is Idle && gr.connection.wf() && final(self).waiters@ == old(self).waiters@.drop_first() && final(self).leased@ == old(self).leased@.push(
                gr.connection.session.id,
            ) && final(self).next_session_id == old(self).next_session_id + 1) || (g is None
                && *final(self) == *old(self))),
            !old(self).closed && old(self).waiters@.len() > 0 && old(self).idle@.len() == 0 && !old(self).can_grow() ==> (g is None && *final(self) == *old(self) && *final(t) == *old(t)),
            g matches Some(gr) ==> (gr.connection.wf() && gr.connection.state is Idle && !old(self).retired@.contains(gr.connection.session.id) && old(self).waiters@.len() > 0
                && gr.ticket == old(self).waiters@[0] && final(self).waiters@ == old(self).waiters@.drop_first()),
    {
        if self.closed || self.waiters.len() == 0 {
            return None;
        }
        if self.idle.len() > 0 {
            let s = self.idle.pop().unwrap();
            self.leased.push(s.id);
            let ticket = self.waiters.remove(0);
            proof {
                assert(final(self).waiters@ =~= old(self).waiters@.drop_first());
            }
            return Some(Grant { ticket, connection: Connection::new(s) });
        }
        if self.leased.len() < self.capacity && self.next_session_id < u64::MAX {
            match t.open_session() {
                Ok(handle) => {
                    let id = self.next_session_id;
                    self.next_session_id = self.next_session_id + 1;
                    let s = Session::new(id, handle);
                    self.leased.push(id);
                    let ticket = self.waiters.remove(0);
                    proof {
                        assert(final(self).waiters@ =~= old(self).waiters@.drop_first());
                    }
                    return Some(Grant { ticket, connection: Connection::new(s) });
                },
                Err(_) => {
                    return None;
                },
            }
        }
        None
    }

    /// Withdraws a waiting ticket, on timeout or cancellation; no side
    /// effects beyond leaving the queue.
    pub fn remove_waiter(&mut self, ticket: u64) -> (found: bool)
        requires
            old(self).wf(),
        ensures
            final(self).wf(),
            found == old(self).waiters@.contains(ticket),
            !found ==> *final(self) == *old(self),
            found ==> final(self).waiters@ == old(self).waiters@.remove(
                old(self).waiters@.index_of(ticket),
            ),
            final(self).capacity == old(self).capacity,
            final(self).closed == old(self).closed,
            final(self).idle@ == old(self).idle@,
            final(self).leased@ == old(self).leased@,
            final(self).retired@ == old(self).retired@,
    {
        let mut i: usize = 0;
        while i < self.waiters.len()
            invariant
                old(self).wf(),
                *self == *old(self),
                i <= self.waiters@.len(),
                forall|k: int| 0 <= k < i ==> self.waiters@[k] != ticket,
            decreases self.waiters@.len() - i,
        {
            if self.waiters[i] == ticket {
                proof {
                    lemma_unique_index(self.waiters@, ticket, i as int);
                }
                self.waiters.remove(i);
                return true;
            }
            i = i + 1;
        }
        false
    }

    /// Shuts the pool down: every waiting ticket is drained (the caller
    /// fails each with `PoolClosed`), every parked session's transport is
    /// closed and its identity retired. Leased sessions are discarded as
    /// they come back. No later acquisition succeeds.
    pub fn shutdown<T: TransportClient>(&mut self, t: &mut T) -> (drained: Vec<u64>)
        requires
            old(self).wf(),
        ensures
            final(self).wf(),
            final(self).closed,
            final(self).capacity == old(self).capacity,
            final(self).idle@.len() == 0,
            final(self).waiters@.len() == 0,
            final(self).leased@ == old(self).leased@,
            final(self).next_session_id == old(self).next_session_id,
            final(self).next_ticket == old(self).next_ticket,
            drained@ == old(self).waiters@,
            forall|i: int|
                0 <= i < old(self).idle@.len() ==> final(self).retired@.contains(
                    (#[trigger] old(self).idle@[i]).id,
                ),
            forall|id: u64| #[trigger]
                final(self).retired@.contains(id) ==> old(self).retired@.contains(id) || old(self).idle_ids().contains(id),
            old(self).retired@.subset_of(final(self).retired@),
    {
        self.closed = true;
        let mut drained: Vec<u64> = Vec::new();
        loop
            invariant
                drained@ + self.waiters@ =~= old(self).waiters@,
                self.capacity == old(self).capacity,
                self.idle@ == old(self).idle@,
                self.leased@ == old(self).leased@,
                self.retired@ == old(self).retired@,
                self.next_session_id == old(self).next_session_id,
                self.next_ticket == old(self).next_ticket,
                self.closed,
            ensures
                self.waiters@.len() == 0,
                drained@ == old(self).waiters@,
                self.capacity == old(self).capacity,
                self.idle@ == old(self).idle@,
                self.leased@ == old(self).leased@,
                self.retired@ == old(self).retired@,
                self.next_session_id == old(self).next_session_id,
                self.next_ticket == old(self).next_ticket,
                self.closed,
            decreases self.waiters@.len(),
        {
            if self.waiters.len() == 0 {
                break ;
            }
            let tkt = self.waiters.remove(0);
            drained.push(tkt);
        }
        loop
            invariant
                self.idle@.len() <= old(self).idle@.len(),
                self.idle@ =~= old(self).idle@.take(self.idle@.len() as int),
                self.capacity == old(self).capacity,
                self.leased@ == old(self).leased@,
                self.waiters@.len() == 0,
                self.next_session_id == old(self).next_session_id,
                self.next_ticket == old(self).next_ticket,
                self.closed,
                old(self).wf(),
                forall|i: int|
                    self.idle@.len() <= i < old(self).idle@.len() ==> self.retired@.contains(
                        (#[trigger] old(self).idle@[i]).id,
                    ),
                forall|id: u64| #[trigger]
                    self.retired@.contains(id) ==> old(self).retired@.contains(id) || old(self).idle_ids().contains(id),
                old(self).retired@.subset_of(self.retired@),
            ensures
                self.idle@.len() == 0,
                self.capacity == old(self).capacity,
                self.leased@ == old(self).leased@,
                self.waiters@.len() == 0,
                self.next_session_id == old(self).next_session_id,
                self.next_ticket == old(self).next_ticket,
                self.closed,
                forall|i: int|
                    0 <= i < old(self).idle@.len() ==> self.retired@.contains(
                        (#[trigger] old(self).idle@[i]).id,
                    ),
                forall|id: u64| #[trigger]
                    self.retired@.contains(id) ==> old(self).retired@.contains(id) || old(self).idle_ids().contains(id),
                old(self).retired@.subset_of(self.retired@),
            decreases self.idle@.len(),
        {
            if self.idle.len() == 0 {
                break ;
            }
            let ghost pre_idle = self.idle@;
            let s = self.idle.pop().unwrap();
            t.close_session(s.handle);
            proof {
                let n = pre_idle.len() - 1;
                assert(old(self).idle@.take(pre_idle.len() as int)[n] == old(self).idle@[n]);
                assert(old(self).idle_ids()[n] == s.id);
                assert(old(self).idle_ids().contains(s.id));
                assert(self.idle@ =~= old(self).idle@.take(self.idle@.len() as int));
            }
            self.retired = Ghost(self.retired@.insert(s.id));
        }
        proof {
            lemma_shutdown_wf(*old(self), *self);
        }
        drained
    }

    /// Finds the position of a leased id; private helper.
    fn index_of_leased(&self, id: u64) -> (idx: usize)
        requires
            self.leased@.contains(id),
        ensures
            idx < self.leased@.len(),
            self.leased@[idx as int] == id,
    {
        let mut i: usize = 0;
        while i < self.leased.len()
            invariant
                i <= self.leased@.len(),
                self.leased@.contains(id),
                forall|k: int| 0 <= k < i ==> self.leased@[k] != id,
            decreases self.leased@.len() - i,
        {
            if self.leased[i] == id {
                return i;
            }
            i = i + 1;
        }
        proof {
            let j = choose|j: int| 0 <= j < self.leased@.len() && self.leased@[j] == id;
            assert(false);
        }
        0
    }
}

/// In a sequence with pairwise-distinct elements, an index holding `x` is
/// the index `index_of(x)` picks.
pub proof fn lemma_unique_index(s: Seq<u64>, x: u64, i: int)
    requires
        forall|p: int, q: int| 0 <= p < q < s.len() ==> s[p] != s[q],
        0 <= i < s.len(),
        s[i] == x,
    ensures
        s.contains(x),
        s.index_of(x) == i,
{
    assert(s.contains(x));
    let j = s.index_of(x);
    assert(0 <= j < s.len() && s[j] == x);
    if i < j {
        assert(s[i] != s[j]);
        assert(false);
    }
    if j < i {
        assert(s[j] != s[i]);
        assert(false);
    }
}

/// The capacity law: in any well-formed pool, parked plus leased sessions
/// never exceed the configured capacity.
pub proof fn lemma_capacity_bound(p: Pool)
    requires
        p.wf(),
    ensures
        p.idle@.len() + p.leased@.len() <= p.capacity,
{
}

/// The discard law: a retired session identity is offered nowhere — neither
/// parked nor leased — in any well-formed pool state that retired it. With
/// [`Pool::acquire`]'s postcondition (what it hands out is parked, or fresh,
/// and never retired) this is why a poisoned session is never seen again.
pub proof fn lemma_retired_unavailable(p: Pool, id: u64)
    requires
        p.wf(),
        p.retired@.contains(id),
    ensures
        !p.idle_ids().contains(id),
        !p.leased@.contains(id),
{
    if p.idle_ids().contains(id) {
        let i = choose|i: int| 0 <= i < p.idle_ids().len() && p.idle_ids()[i] == id;
        assert(p.idle@[i].id == id);
        assert(!p.retired@.contains(p.idle@[i].id));
        assert(false);
    }
    if p.leased@.contains(id) {
        let i = choose|i: int| 0 <= i < p.leased@.len() && p.leased@[i] == id;
        assert(!p.retired@.contains(p.leased@[i]));
        assert(false);
    }
}

/// Everything `shutdown`'s loops leave behind satisfies the invariant.
proof fn lemma_shutdown_wf(pre: Pool, post: Pool)
    requires
        pre.wf(),
        post.idle@.len() == 0,
        post.waiters@.len() == 0,
        post.leased@ == pre.leased@,
        post.capacity == pre.capacity,
        post.next_session_id == pre.next_session_id,
        post.next_ticket == pre.next_ticket,
        forall|id: u64| #[trigger]
            post.retired@.contains(id) ==> pre.retired@.contains(id) || pre.idle_ids().contains(
                id,
            ),
    ensures
        post.wf(),
{
    assert forall|i: int|
        0 <= i < post.leased@.len() implies !post.retired@.contains(
        #[trigger] post.leased@[i],
    ) by {
        let id = post.leased@[i];
        if post.retired@.contains(id) {
            if pre.retired@.contains(id) {
                assert(!pre.retired@.contains(pre.leased@[i]));
            } else {
                let k = choose|k: int|
                    0 <= k < pre.idle_ids().len() && pre.idle_ids()[k] == id;
                assert(pre.idle@[k].id == id);
                assert(pre.idle@[k].id != pre.leased@[i]);
            }
        }
    }
    assert forall|id: u64| #[trigger]
        post.retired@.contains(id) implies id < post.next_session_id by {
        if pre.retired@.contains(id) {
        } else {
            let k = choose|k: int| 0 <= k < pre.idle_ids().len() && pre.idle_ids()[k] == id;
            assert(pre.idle@[k].id == id);
        }
    }
}

} // verus!
