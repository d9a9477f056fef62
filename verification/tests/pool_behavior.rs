use session_pool::connection::Connection;
use session_pool::errors::DbError;
use session_pool::pool::AcquireOutcome;
use session_pool::pool::Grant;
use session_pool::pool::Pool;
use session_pool::pool::ReleaseOutcome;
use session_pool::query::QuerySpecification;
use session_pool::query::Row;
use session_pool::session::Session;
use session_pool::transport::MockFailure;
use session_pool::transport::MockTransport;
use session_pool::tx::TxState;

fn ready(r: Result<AcquireOutcome, DbError>) -> Connection {
    match r {
        Ok(AcquireOutcome::Ready(c)) => c,
        other => panic!("expected a ready connection, got {:?}", other),
    }
}

fn enqueued(r: Result<AcquireOutcome, DbError>) -> u64 {
    match r {
        Ok(AcquireOutcome::Enqueued(t)) => t,
        other => panic!("expected to be enqueued, got {:?}", other),
    }
}

fn granted(o: ReleaseOutcome) -> Grant {
    match o {
        ReleaseOutcome::Granted(g) => g,
        other => panic!("expected a grant, got {:?}", other),
    }
}

fn spec_of(text: &str) -> QuerySpecification {
    QuerySpecification { statement: String::from(text), parameters: Vec::new() }
}

#[test]
fn capacity_bound_holds_at_every_observation_point() {
    let mut t = MockTransport::new();
    let mut p = Pool::new(2);
    let cap = p.capacity;
    assert!(p.idle.len() + p.leased.len() <= cap);
    let a = ready(p.acquire(&mut t));
    assert!(p.idle.len() + p.leased.len() <= cap);
    let b = ready(p.acquire(&mut t));
    assert!(p.idle.len() + p.leased.len() <= cap);
    let _w = enqueued(p.acquire(&mut t));
    assert!(p.idle.len() + p.leased.len() <= cap);
    let out = p.release(&mut t, a, None);
    let g = granted(out);
    assert!(p.idle.len() + p.leased.len() <= cap);
    p.release(&mut t, g.connection, None);
    assert!(p.idle.len() + p.leased.len() <= cap);
    p.release(&mut t, b, None);
    assert!(p.idle.len() + p.leased.len() <= cap);
    assert_eq!(p.idle.len(), 2);
    assert_eq!(p.leased.len(), 0);
}

#[test]
fn waiters_are_served_in_fifo_order() {
    let mut t = MockTransport::new();
    let mut p = Pool::new(1);
    let c = ready(p.acquire(&mut t));
    let first = enqueued(p.acquire(&mut t));
    let second = enqueued(p.acquire(&mut t));
    assert!(first < second);
    let g1 = granted(p.release(&mut t, c, None));
    assert_eq!(g1.ticket, first);
    let g2 = granted(p.release(&mut t, g1.connection, None));
    assert_eq!(g2.ticket, second);
    match p.release(&mut t, g2.connection, None) {
        ReleaseOutcome::Recycled => {}
        other => panic!("expected recycling, got {:?}", other),
    }
}

#[test]
fn poisoned_session_is_discarded_then_recreated() {
    let mut t = MockTransport::new();
    let mut p = Pool::new(1);
    let mut c = ready(p.acquire(&mut t));
    let poisoned_id = c.session_id();
    c.start_transaction(&mut t).unwrap();
    t.fail_next_run = Some(MockFailure::Transport);
    let q = c.query(&mut t, &spec_of("MATCH (n) RETURN n"));
    assert_eq!(q.unwrap_err(), DbError::Transport);
    assert_eq!(c.tx_state(), TxState::Poisoned);
    let handle = c.session.handle;
    match p.release(&mut t, c, Some(DbError::Transport)) {
        ReleaseOutcome::Discarded => {}
        other => panic!("expected a discard, got {:?}", other),
    }
    assert_eq!(p.idle.len(), 0);
    assert_eq!(p.leased.len(), 0);
    assert!(t.closed_handles.contains(&handle));
    let replacement = ready(p.acquire(&mut t));
    assert_ne!(replacement.session_id(), poisoned_id);
}

#[test]
fn commit_on_idle_connection_makes_no_transport_call() {
    let mut t = MockTransport::new();
    let mut c = Connection::new(Session::new(7, 3));
    let r = c.commit_transaction(&mut t);
    assert_eq!(r.unwrap_err(), DbError::NoActiveTransaction);
    assert_eq!(t.commit_calls, 0);
    assert_eq!(t.run_calls, 0);
    assert_eq!(t.begin_calls, 0);
    assert_eq!(t.rollback_calls, 0);
}

#[test]
fn transaction_round_trip_returns_session_to_idle() {
    let mut t = MockTransport::new();
    let mut p = Pool::new(2);
    let mut c = ready(p.acquire(&mut t));
    let id = c.session_id();
    c.start_transaction(&mut t).unwrap();
    let rows = c.query(&mut t, &spec_of("CREATE (n:Item)")).unwrap();
    assert!(rows.is_empty());
    c.commit_transaction(&mut t).unwrap();
    assert_eq!(c.tx_state(), TxState::Idle);
    match p.release(&mut t, c, None) {
        ReleaseOutcome::Recycled => {}
        other => panic!("expected recycling, got {:?}", other),
    }
    assert_eq!(p.idle.len(), 1);
    let again = ready(p.acquire(&mut t));
    assert_eq!(again.session_id(), id);
}

#[test]
fn third_acquirer_waits_then_gets_the_released_session() {
    let mut t = MockTransport::new();
    let mut p = Pool::new(2);
    let a = ready(p.acquire(&mut t));
    let b = ready(p.acquire(&mut t));
    let released_id = a.session_id();
    let ticket = enqueued(p.acquire(&mut t));
    let g = granted(p.release(&mut t, a, None));
    assert_eq!(g.ticket, ticket);
    assert_eq!(g.connection.session_id(), released_id);
    p.release(&mut t, g.connection, None);
    p.release(&mut t, b, None);
}

#[test]
fn query_transport_failure_poisons_and_drops_the_session_count() {
    let mut t = MockTransport::new();
    let mut p = Pool::new(1);
    let mut c = ready(p.acquire(&mut t));
    c.start_transaction(&mut t).unwrap();
    t.fail_next_run = Some(MockFailure::Transport);
    assert_eq!(
        c.query(&mut t, &spec_of("RETURN 1")).unwrap_err(),
        DbError::Transport
    );
    let commits_before = t.commit_calls;
    let r = c.commit_transaction(&mut t);
    assert_eq!(r.unwrap_err(), DbError::SessionPoisoned);
    assert_eq!(t.commit_calls, commits_before);
    let id = c.session_id();
    match p.release(&mut t, c, Some(DbError::Transport)) {
        ReleaseOutcome::Discarded => {}
        other => panic!("expected a discard, got {:?}", other),
    }
    assert_eq!(p.idle.len() + p.leased.len(), 0);
    assert!(!p.idle.iter().any(|s| s.id == id));
}

#[test]
fn query_error_leaves_the_session_usable() {
    let mut t = MockTransport::new();
    let mut p = Pool::new(1);
    let mut c = ready(p.acquire(&mut t));
    c.start_transaction(&mut t).unwrap();
    t.fail_next_run = Some(MockFailure::Query);
    assert_eq!(
        c.query(&mut t, &spec_of("BAD SYNTAX")).unwrap_err(),
        DbError::Query
    );
    assert_eq!(c.tx_state(), TxState::InTransaction);
    c.commit_transaction(&mut t).unwrap();
    match p.release(&mut t, c, None) {
        ReleaseOutcome::Recycled => {}
        other => panic!("expected recycling, got {:?}", other),
    }
    assert_eq!(p.idle.len(), 1);
}

#[test]
fn double_start_is_rejected_locally() {
    let mut t = MockTransport::new();
    let mut c = Connection::new(Session::new(0, 0));
    c.start_transaction(&mut t).unwrap();
    let begins = t.begin_calls;
    assert_eq!(
        c.start_transaction(&mut t).unwrap_err(),
        DbError::AlreadyInTransaction
    );
    assert_eq!(t.begin_calls, begins);
}

#[test]
fn rollback_without_transaction_is_rejected() {
    let mut t = MockTransport::new();
    let mut c = Connection::new(Session::new(0, 0));
    assert_eq!(
        c.rollback_transaction(&mut t).unwrap_err(),
        DbError::NoActiveTransaction
    );
    assert_eq!(t.rollback_calls, 0);
}

#[test]
fn failed_commit_poisons_the_lease() {
    let mut t = MockTransport::new();
    let mut c = Connection::new(Session::new(0, 0));
    c.start_transaction(&mut t).unwrap();
    t.fail_next_commit = true;
    assert_eq!(c.commit_transaction(&mut t).unwrap_err(), DbError::Transport);
    assert_eq!(c.tx_state(), TxState::Poisoned);
    assert_eq!(
        c.query(&mut t, &spec_of("RETURN 1")).unwrap_err(),
        DbError::SessionPoisoned
    );
}

#[test]
fn begin_transport_failure_leaves_the_lease_idle() {
    let mut t = MockTransport::new();
    let mut c = Connection::new(Session::new(0, 0));
    t.fail_next_begin = true;
    assert_eq!(c.start_transaction(&mut t).unwrap_err(), DbError::Transport);
    assert_eq!(c.tx_state(), TxState::Idle);
    c.start_transaction(&mut t).unwrap();
    assert_eq!(c.tx_state(), TxState::InTransaction);
}

#[test]
fn withdrawn_waiter_is_forgotten() {
    let mut t = MockTransport::new();
    let mut p = Pool::new(1);
    let c = ready(p.acquire(&mut t));
    let ticket = enqueued(p.acquire(&mut t));
    assert!(p.remove_waiter(ticket));
    assert!(!p.remove_waiter(ticket));
    match p.release(&mut t, c, None) {
        ReleaseOutcome::Recycled => {}
        other => panic!("expected recycling, got {:?}", other),
    }
}

#[test]
fn ticket_exhaustion_times_out() {
    let mut t = MockTransport::new();
    let mut p = Pool::new(0);
    p.next_ticket = u64::MAX;
    assert_eq!(p.acquire(&mut t).unwrap_err(), DbError::Timeout);
}

#[test]
fn shutdown_drains_waiters_in_order() {
    let mut t = MockTransport::new();
    let mut p = Pool::new(0);
    let w1 = enqueued(p.acquire(&mut t));
    let w2 = enqueued(p.acquire(&mut t));
    assert!(p.waiters.contains(&w1));
    let drained = p.shutdown(&mut t);
    assert_eq!(drained, vec![w1, w2]);
    assert!(p.closed);
    assert_eq!(p.acquire(&mut t).unwrap_err(), DbError::PoolClosed);
}

#[test]
fn shutdown_closes_idle_sessions_and_discards_returning_leases() {
    let mut t = MockTransport::new();
    let mut p = Pool::new(2);
    let a = ready(p.acquire(&mut t));
    let b = ready(p.acquire(&mut t));
    let parked_handle = a.session.handle;
    p.release(&mut t, a, None);
    let drained = p.shutdown(&mut t);
    assert!(drained.is_empty());
    assert_eq!(p.idle.len(), 0);
    assert!(t.closed_handles.contains(&parked_handle));
    match p.release(&mut t, b, None) {
        ReleaseOutcome::Discarded => {}
        other => panic!("expected a discard after shutdown, got {:?}", other),
    }
    assert_eq!(p.leased.len(), 0);
}

#[test]
fn promotion_replaces_a_discarded_session_for_the_head_waiter() {
    let mut t = MockTransport::new();
    let mut p = Pool::new(1);
    let mut c = ready(p.acquire(&mut t));
    c.start_transaction(&mut t).unwrap();
    t.fail_next_run = Some(MockFailure::Transport);
    let _ = c.query(&mut t, &spec_of("RETURN 1"));
    let ticket = enqueued(p.acquire(&mut t));
    match p.release(&mut t, c, None) {
        ReleaseOutcome::Discarded => {}
        other => panic!("expected a discard of the poisoned lease, got {:?}", other),
    }
    let g = p.try_promote_waiter(&mut t).expect("a replacement session for the waiter");
    assert_eq!(g.ticket, ticket);
    assert_ne!(g.connection.session_id(), 0);
    assert_eq!(p.waiters.len(), 0);
}

#[test]
fn cancelled_grantee_hands_the_session_to_the_next_waiter() {
    let mut t = MockTransport::new();
    let mut p = Pool::new(1);
    let c = ready(p.acquire(&mut t));
    let id = c.session_id();
    let w1 = enqueued(p.acquire(&mut t));
    let w2 = enqueued(p.acquire(&mut t));
    let g1 = granted(p.release(&mut t, c, None));
    assert_eq!(g1.ticket, w1);
    // w1 cancelled while being handed the session: give it straight back
    let g2 = granted(p.release(&mut t, g1.connection, None));
    assert_eq!(g2.ticket, w2);
    assert_eq!(g2.connection.session_id(), id);
}

#[test]
fn rows_are_mapped_in_server_order() {
    let rows = vec![
        Row { values: vec![1, 2] },
        Row { values: vec![3] },
        Row { values: vec![] },
    ];
    let lens = session_pool::query::map_rows(&rows, |r: &Row| r.values.len());
    assert_eq!(lens, vec![2, 1, 0]);
}

#[test]
fn acquire_propagates_transport_open_failure() {
    let mut t = MockTransport::new();
    let mut p = Pool::new(1);
    t.fail_next_open = true;
    assert_eq!(p.acquire(&mut t).unwrap_err(), DbError::Transport);
    assert_eq!(p.idle.len() + p.leased.len(), 0);
    let c = ready(p.acquire(&mut t));
    assert_eq!(c.session_id(), 0);
}
