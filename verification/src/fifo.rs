//! The wait queue's service discipline, stated and proved over traces.
//!
//! The pool's contracts pin down how its wait queue evolves:
//! [`crate::pool::Pool::acquire`] pushes a fresh ticket at the tail, a grant
//! — in [`crate::pool::Pool::release`] or
//! [`crate::pool::Pool::try_promote_waiter`] — removes exactly the head, and
//! [`crate::pool::Pool::remove_waiter`] withdraws a ticket on timeout or
//! cancellation. This module abstracts those three shapes into a trace of
//! [`QueueEvent`]s and proves the no-overtaking law: a waiter enqueued ahead
//! of another is never granted after it.

use vstd::prelude::*;

use crate::pool::lemma_unique_index;

verus! {

/// One observable event on the wait queue.
#[derive(Clone, Copy, Debug, PartialEq, Eq, Structural)]
pub enum QueueEvent {
    /// A full pool enqueues an acquirer under this ticket, at the tail.
    Enqueue(u64),
    /// A release or promotion hands a session to the head waiter.
    Grant,
    /// A waiter withdraws its ticket: timeout or cancellation.
    Withdraw(u64),
}

/// How one event transforms the queue. Tickets are unique, so an enqueue of
/// a ticket already present is a no-op, as is granting from an empty queue
/// or withdrawing an absent ticket.
pub open spec fn apply_event(q: Seq<u64>, e: QueueEvent) -> Seq<u64> {
    match e {
        QueueEvent::Enqueue(tk) => if q.contains(tk) {
            q
        } else {
            q.push(tk)
        },
        QueueEvent::Grant => if q.len() > 0 {
            q.drop_first()
        } else {
            q
        },
        QueueEvent::Withdraw(tk) => if q.contains(tk) {
            q.remove(q.index_of(tk))
        } else {
            q
        },
    }
}

/// The queue a whole trace of events leaves behind.
pub open spec fn queue_after(q0: Seq<u64>, events: Seq<QueueEvent>) -> Seq<u64>
    decreases events.len(),
{
    if events.len() == 0 {
        q0
    } else {
        apply_event(queue_after(q0, events.drop_last()), events.last())
    }
}

/// No ticket occurs twice.
pub open spec fn pairwise_distinct(q: Seq<u64>) -> bool {
    forall|i: int, j: int| 0 <= i < j < q.len() ==> q[i] != q[j]
}

/// `a` stands in front of `b`: both wait, and `a` is nearer the head.
pub open spec fn ahead_of(q: Seq<u64>, a: u64, b: u64) -> bool {
    q.contains(a) && q.contains(b) && q.index_of(a) < q.index_of(b)
}

/// The FIFO ordering between two tickets: wherever both still wait, the
/// earlier one stands in front.
pub open spec fn serves_first(q: Seq<u64>, a: u64, b: u64) -> bool {
    q.contains(a) && q.contains(b) ==> ahead_of(q, a, b)
}

/// A well-formed pool never already holds the ticket it would hand out
/// next, so the pool's enqueue is always the real push branch of
/// [`apply_event`], never the no-op; its grants remove exactly the head,
/// and a withdrawal exactly the withdrawn ticket.
pub proof fn lemma_fresh_ticket_not_waiting(p: crate::pool::Pool)
    requires
        p.wf(),
    ensures
        !p.waiters@.contains(p.next_ticket),
{
    if p.waiters@.contains(p.next_ticket) {
        let i = choose|i: int| 0 <= i < p.waiters@.len() && p.waiters@[i] == p.next_ticket;
        assert(p.waiters@[i] < p.next_ticket);
        assert(false);
    }
}

/// In a well-formed pool, any two waiters already stand in FIFO order, so
/// the no-overtaking law below applies to every reachable pool state.
pub proof fn lemma_pool_queue_orders_waiters(p: crate::pool::Pool, i: int, j: int)
    requires
        p.wf(),
        0 <= i < j < p.waiters@.len(),
    ensures
        pairwise_distinct(p.waiters@),
        ahead_of(p.waiters@, p.waiters@[i], p.waiters@[j]),
        serves_first(p.waiters@, p.waiters@[i], p.waiters@[j]),
{
    let q = p.waiters@;
    assert(q.contains(q[i]));
    assert(q.contains(q[j]));
    lemma_unique_index(q, q[i], i);
    lemma_unique_index(q, q[j], j);
}

/// One event preserves distinctness and the FIFO ordering of `a` before
/// `b`. The one obligation on the trace: `a` is not enqueued while `b`
/// already waits — which holds of the pool, where every ticket is enqueued
/// exactly once, `a`'s enqueue being the earlier.
pub proof fn lemma_event_preserves_order(q: Seq<u64>, e: QueueEvent, a: u64, b: u64)
    requires
        a != b,
        pairwise_distinct(q),
        serves_first(q, a, b),
        e == QueueEvent::Enqueue(a) ==> !q.contains(b),
    ensures
        pairwise_distinct(apply_event(q, e)),
        serves_first(apply_event(q, e), a, b),
{
    let q1 = apply_event(q, e);
    match e {
        QueueEvent::Enqueue(tk) => {
            if q.contains(tk) {
            } else {
                assert forall|i: int, j: int| 0 <= i < j < q1.len() implies q1[i] != q1[j] by {
                    if j == q.len() {
                        assert(q1[i] == q[i]);
                        if q[i] == tk {
                            assert(q.contains(tk));
                        }
                    } else {
                        assert(q1[i] == q[i] && q1[j] == q[j]);
                    }
                }
                if q1.contains(a) && q1.contains(b) {
                    let ia = choose|i: int| 0 <= i < q1.len() && q1[i] == a;
                    let jb = choose|j: int| 0 <= j < q1.len() && q1[j] == b;
                    if tk == a {
                        if jb < q.len() {
                            assert(q[jb] == b);
                            assert(q.contains(b));
                            assert(false);
                        } else {
                            assert(q1[jb] == tk);
                            assert(false);
                        }
                    } else if tk == b {
                        assert(ia < q.len());
                        assert(q[ia] == a);
                        assert(q.contains(a));
                        assert(q1[q.len() as int] == b);
                        lemma_unique_index(q1, a, ia);
                        lemma_unique_index(q1, b, q.len() as int);
                        assert(ahead_of(q1, a, b));
                    } else {
                        assert(ia < q.len() && jb < q.len());
                        assert(q[ia] == a && q[jb] == b);
                        assert(q.contains(a) && q.contains(b));
                        lemma_unique_index(q, a, ia);
                        lemma_unique_index(q, b, jb);
                        assert(ia < jb);
                        lemma_unique_index(q1, a, ia);
                        lemma_unique_index(q1, b, jb);
                        assert(ahead_of(q1, a, b));
                    }
                }
            }
        },
        QueueEvent::Grant => {
            if q.len() == 0 {
            } else {
                assert forall|i: int, j: int| 0 <= i < j < q1.len() implies q1[i] != q1[j] by {
                    assert(q1[i] == q[i + 1] && q1[j] == q[j + 1]);
                }
                if q1.contains(a) && q1.contains(b) {
                    let ia = choose|i: int| 0 <= i < q1.len() && q1[i] == a;
                    let jb = choose|j: int| 0 <= j < q1.len() && q1[j] == b;
                    assert(q[ia + 1] == a && q[jb + 1] == b);
                    assert(q.contains(a) && q.contains(b));
                    lemma_unique_index(q, a, ia + 1);
                    lemma_unique_index(q, b, jb + 1);
                    assert(ia < jb);
                    lemma_unique_index(q1, a, ia);
                    lemma_unique_index(q1, b, jb);
                    assert(ahead_of(q1, a, b));
                }
            }
        },
        QueueEvent::Withdraw(tk) => {
            if !q.contains(tk) {
            } else {
                let k = q.index_of(tk);
                assert(0 <= k < q.len() && q[k] == tk);
                q.remove_ensures(k);
                assert forall|i: int, j: int| 0 <= i < j < q1.len() implies q1[i] != q1[j] by {
                    let pi: int = if i < k {
                        i
                    } else {
                        i + 1
                    };
                    let pj: int = if j < k {
                        j
                    } else {
                        j + 1
                    };
                    assert(q1[i] == q[pi] && q1[j] == q[pj]);
                }
                if q1.contains(a) && q1.contains(b) {
                    let ia = choose|i: int| 0 <= i < q1.len() && q1[i] == a;
                    let jb = choose|j: int| 0 <= j < q1.len() && q1[j] == b;
                    let pia: int = if ia < k {
                        ia
                    } else {
                        ia + 1
                    };
                    let pjb: int = if jb < k {
                        jb
                    } else {
                        jb + 1
                    };
                    assert(q[pia] == a && q[pjb] == b);
                    assert(q.contains(a) && q.contains(b));
                    lemma_unique_index(q, a, pia);
                    lemma_unique_index(q, b, pjb);
                    assert(pia < pjb);
                    lemma_unique_index(q1, a, ia);
                    lemma_unique_index(q1, b, jb);
                    assert(ahead_of(q1, a, b));
                }
            }
        },
    }
}

/// A whole trace preserves distinctness and the FIFO ordering.
pub proof fn lemma_trace_preserves_order(q0: Seq<u64>, events: Seq<QueueEvent>, a: u64, b: u64)
    requires
        a != b,
        pairwise_distinct(q0),
        serves_first(q0, a, b),
        forall|k: int|
            0 <= k < events.len() && events[k] == QueueEvent::Enqueue(a) ==> !queue_after(
                q0,
                #[trigger] events.take(k),
            ).contains(b),
    ensures
        pairwise_distinct(queue_after(q0, events)),
        serves_first(queue_after(q0, events), a, b),
    decreases events.len(),
{
    if events.len() == 0 {
    } else {
        let prefix = events.drop_last();
        assert forall|k: int|
            0 <= k < prefix.len() && prefix[k] == QueueEvent::Enqueue(a) implies !queue_after(
            q0,
            #[trigger] prefix.take(k),
        ).contains(b) by {
            assert(prefix.take(k) =~= events.take(k));
            assert(events[k] == QueueEvent::Enqueue(a));
        }
        lemma_trace_preserves_order(q0, prefix, a, b);
        assert(events.take(events.len() - 1) =~= prefix);
        lemma_event_preserves_order(queue_after(q0, prefix), events.last(), a, b);
    }
}

/// The no-overtaking law. Run any trace of enqueues, grants and
/// withdrawals from a queue in which ticket `a` stands in front of ticket
/// `b` (or where `b` does not wait yet and is enqueued later, behind `a`).
/// Whenever the resulting queue is about to grant `b` — that is, `b` is at
/// the head — `a` no longer waits: it was granted or withdrawn earlier.
/// `a` is therefore never granted after `b`.
pub proof fn lemma_fifo_no_overtaking(q0: Seq<u64>, events: Seq<QueueEvent>, a: u64, b: u64)
    requires
        a != b,
        pairwise_distinct(q0),
        serves_first(q0, a, b),
        forall|k: int|
            0 <= k < events.len() && events[k] == QueueEvent::Enqueue(a) ==> !queue_after(
                q0,
                #[trigger] events.take(k),
            ).contains(b),
        queue_after(q0, events).len() > 0,
        queue_after(q0, events)[0] == b,
    ensures
        !queue_after(q0, events).contains(a),
{
    let q = queue_after(q0, events);
    lemma_trace_preserves_order(q0, events, a, b);
    if q.contains(a) {
        assert(q.contains(b));
        assert(ahead_of(q, a, b));
        lemma_unique_index(q, b, 0);
        assert(q.index_of(a) < 0);
        let ia = q.index_of(a);
        assert(0 <= ia < q.len() && q[ia] == a);
        assert(false);
    }
}

} // verus!
