use klock::infrastructure::LeaseStore;
use klock::infrastructure_in_memory::InMemoryLeaseStore;
use klock::lease::{LeaseFailureReason, LeaseResult};
use klock::primitives::{Predicate, ResourceRef, ResourceType};

#[test]
fn test_in_memory_store_acquire_and_release() {
    let mut store = InMemoryLeaseStore::new();
    store.register_agent_priority("agent_1".to_string(), 100);

    let res = ResourceRef::new(ResourceType::File, "/test");

    // Acquire
    let result = store.acquire("agent_1", "session_1", res.clone(), Predicate::Mutates, 5000, 1000);
    let lease = match result {
        LeaseResult::Success { lease } => lease,
        _ => panic!("Expected Success"),
    };

    assert_eq!(store.get_active_leases().len(), 1);

    // Release
    assert!(store.release(&lease.id));
    assert_eq!(store.get_active_leases().len(), 0);
}

#[test]
fn test_in_memory_store_wait_die_enforcement() {
    let mut store = InMemoryLeaseStore::new();
    store.register_agent_priority("older".to_string(), 100);
    store.register_agent_priority("younger".to_string(), 200);

    let res = ResourceRef::new(ResourceType::File, "/test");

    // Older acquires a Mutates lease
    assert!(matches!(
        store.acquire("older", "s1", res.clone(), Predicate::Mutates, 5000, 1000),
        LeaseResult::Success { .. }
    ));

    // Younger tries to acquire a Mutates lease -> Should DIE
    let result = store.acquire("younger", "s2", res.clone(), Predicate::Mutates, 5000, 1000);
    assert!(matches!(
        result,
        LeaseResult::Failure { reason: LeaseFailureReason::Die, .. }
    ));
}

#[test]
fn test_in_memory_store_eviction() {
    let mut store = InMemoryLeaseStore::new();
    store.register_agent_priority("agent_1".to_string(), 100);
    let res = ResourceRef::new(ResourceType::File, "/test");

    // Acquire at t=1000, ttl=5000 -> expires at 6000
    let _ = store.acquire("agent_1", "session_1", res, Predicate::Provides, 5000, 1000);

    assert_eq!(store.get_active_leases().len(), 1);

    // Evict at t=5000 (not expired yet)
    assert_eq!(store.evict_expired(5000), 0);
    assert_eq!(store.get_active_leases().len(), 1);

    // Evict at t=7000 (expired!)
    assert_eq!(store.evict_expired(7000), 1);
    assert_eq!(store.get_active_leases().len(), 0);
}

#[test]
fn two_readers_compatible() {
    // Register A,B with priorities 100,200.  Both may read the same file.
    let mut store = InMemoryLeaseStore::new();
    store.register_agent_priority("A".to_string(), 100);
    store.register_agent_priority("B".to_string(), 200);
    let res = ResourceRef::new(ResourceType::File, "/x");

    assert!(matches!(
        store.acquire("A", "s1", res.clone(), Predicate::Consumes, 5000, 1000),
        LeaseResult::Success { .. }
    ));
    assert!(matches!(
        store.acquire("B", "s2", res.clone(), Predicate::Consumes, 5000, 1001),
        LeaseResult::Success { .. }
    ));
    assert_eq!(store.get_active_leases().len(), 2);
}

#[test]
fn writer_writer_younger_dies() {
    let mut store = InMemoryLeaseStore::new();
    store.register_agent_priority("older".to_string(), 100);
    store.register_agent_priority("younger".to_string(), 200);
    let res = ResourceRef::new(ResourceType::File, "/app");

    assert!(matches!(
        store.acquire("older", "s1", res.clone(), Predicate::Mutates, 5000, 500),
        LeaseResult::Success { .. }
    ));
    match store.acquire("younger", "s2", res, Predicate::Mutates, 5000, 1000) {
        LeaseResult::Failure { reason: LeaseFailureReason::Die, wait_time, .. } => {
            assert_eq!(wait_time, Some(1000));
        }
        _ => panic!("expected a Die failure"),
    }
}

#[test]
fn writer_writer_older_waits() {
    let mut store = InMemoryLeaseStore::new();
    store.register_agent_priority("older".to_string(), 100);
    store.register_agent_priority("younger".to_string(), 200);
    let res = ResourceRef::new(ResourceType::File, "/app");

    assert!(matches!(
        store.acquire("younger", "s2", res.clone(), Predicate::Mutates, 5000, 500),
        LeaseResult::Success { .. }
    ));
    match store.acquire("older", "s1", res, Predicate::Mutates, 5000, 1000) {
        LeaseResult::Failure { reason: LeaseFailureReason::Wait, wait_time, .. } => {
            assert_eq!(wait_time, None);
        }
        _ => panic!("expected a Wait failure"),
    }
}

#[test]
fn expiry_unblocks() {
    // A's lease (ttl=100, acquired at 1000) has expired by 1200, so the
    // store first evicts it and then grants B the same resource.
    let mut store = InMemoryLeaseStore::new();
    store.register_agent_priority("A".to_string(), 100);
    store.register_agent_priority("B".to_string(), 200);
    let res = ResourceRef::new(ResourceType::File, "/x");

    assert!(matches!(
        store.acquire("A", "s1", res.clone(), Predicate::Mutates, 100, 1000),
        LeaseResult::Success { .. }
    ));
    let granted = store.acquire("B", "s2", res, Predicate::Mutates, 5000, 1200);
    let lease = match granted {
        LeaseResult::Success { lease } => lease,
        _ => panic!("expected B to be granted after A expired"),
    };
    assert_eq!(lease.agent_id, "B");
    let active = store.get_active_leases();
    assert_eq!(active.len(), 1);
    assert_eq!(active[0].agent_id, "B");
}

#[test]
fn heartbeat_renewal_prevents_eviction() {
    // A acquires ttl=500 at now=0; heartbeats at 400; eviction at 600
    // finds nothing expired.
    let mut store = InMemoryLeaseStore::new();
    store.register_agent_priority("A".to_string(), 100);
    let res = ResourceRef::new(ResourceType::File, "/x");

    let lease = match store.acquire("A", "s1", res, Predicate::Mutates, 500, 0) {
        LeaseResult::Success { lease } => lease,
        _ => panic!("expected Success"),
    };
    assert!(store.heartbeat(&lease.id, 400));
    assert_eq!(store.evict_expired(600), 0);
    assert_eq!(store.get_active_leases().len(), 1);
}

#[test]
fn heartbeat_same_instant_is_idempotent() {
    let mut store = InMemoryLeaseStore::new();
    store.register_agent_priority("A".to_string(), 100);
    let res = ResourceRef::new(ResourceType::File, "/x");

    let lease = match store.acquire("A", "s1", res, Predicate::Mutates, 500, 0) {
        LeaseResult::Success { lease } => lease,
        _ => panic!("expected Success"),
    };
    assert!(store.heartbeat(&lease.id, 300));
    assert!(store.heartbeat(&lease.id, 300));
    let active = store.get_active_leases();
    assert_eq!(active.len(), 1);
    // Expiry is pinned at exactly now + ttl, not renewed twice over.
    assert_eq!(active[0].expires_at, 800);
    assert_eq!(active[0].last_heartbeat, 300);
    // The TTL itself is never mutated.
    assert_eq!(active[0].ttl, 500);
}

#[test]
fn heartbeats_with_increasing_now_increase_expiry() {
    let mut store = InMemoryLeaseStore::new();
    store.register_agent_priority("A".to_string(), 100);
    let res = ResourceRef::new(ResourceType::File, "/x");

    let lease = match store.acquire("A", "s1", res, Predicate::Mutates, 500, 0) {
        LeaseResult::Success { lease } => lease,
        _ => panic!("expected Success"),
    };
    assert!(store.heartbeat(&lease.id, 100));
    assert_eq!(store.get_active_leases()[0].expires_at, 600);
    assert!(store.heartbeat(&lease.id, 250));
    assert_eq!(store.get_active_leases()[0].expires_at, 750);
}

#[test]
fn release_of_unknown_or_expired_lease_is_false() {
    let mut store = InMemoryLeaseStore::new();
    store.register_agent_priority("A".to_string(), 100);
    let res = ResourceRef::new(ResourceType::File, "/x");

    assert!(!store.release("no_such_lease"));

    let lease = match store.acquire("A", "s1", res, Predicate::Mutates, 100, 1000) {
        LeaseResult::Success { lease } => lease,
        _ => panic!("expected Success"),
    };
    assert_eq!(store.evict_expired(2000), 1);
    // The lease is Expired now: releasing it is a no-op answering false.
    assert!(!store.release(&lease.id));
    // And heartbeating it cannot resurrect it.
    assert!(!store.heartbeat(&lease.id, 2500));
    assert_eq!(store.get_active_leases().len(), 0);
}

#[test]
fn eviction_is_monotone_and_counts_add_up() {
    let mut a = InMemoryLeaseStore::new();
    let mut b = InMemoryLeaseStore::new();
    for (agent, ttl) in [("p", 100u64), ("q", 300u64), ("r", 900u64)] {
        let res = ResourceRef::new(ResourceType::File, agent);
        assert!(matches!(
            a.acquire(agent, "s", res.clone(), Predicate::Consumes, ttl, 0),
            LeaseResult::Success { .. }
        ));
        assert!(matches!(
            b.acquire(agent, "s", res, Predicate::Consumes, ttl, 0),
            LeaseResult::Success { .. }
        ));
    }
    // Store a evicts twice; store b evicts once at the later instant.
    let first = a.evict_expired(200);
    let second = a.evict_expired(600);
    assert_eq!(first, 1);
    assert_eq!(second, 1);
    assert_eq!(b.evict_expired(600), first + second);
    assert_eq!(a.get_active_leases().len(), b.get_active_leases().len());
}

#[test]
fn acquire_without_any_priorities_is_granted_on_free_resource() {
    let mut store = InMemoryLeaseStore::new();
    let res = ResourceRef::new(ResourceType::File, "/free");
    assert!(matches!(
        store.acquire("anyone", "s", res, Predicate::Mutates, 1000, 0),
        LeaseResult::Success { .. }
    ));
}

#[test]
fn unregistered_requester_dies_on_conflict() {
    let mut store = InMemoryLeaseStore::new();
    let res = ResourceRef::new(ResourceType::File, "/x");
    assert!(matches!(
        store.acquire("holder", "s1", res.clone(), Predicate::Mutates, 5000, 0),
        LeaseResult::Success { .. }
    ));
    match store.acquire("stranger", "s2", res, Predicate::Mutates, 5000, 10) {
        LeaseResult::Failure { reason: LeaseFailureReason::Die, wait_time, .. } => {
            assert_eq!(wait_time, Some(1000));
        }
        _ => panic!("expected a Die failure"),
    }
}

#[test]
fn granted_lease_has_the_documented_shape() {
    let mut store = InMemoryLeaseStore::new();
    store.register_agent_priority("A".to_string(), 100);
    let res = ResourceRef::new(ResourceType::Symbol, "User.auth");
    let lease = match store.acquire("A", "s1", res, Predicate::Provides, 250, 4000) {
        LeaseResult::Success { lease } => lease,
        _ => panic!("expected Success"),
    };
    assert_eq!(lease.id, "lease_A_4000");
    assert_eq!(lease.agent_id, "A");
    assert_eq!(lease.session_id, "s1");
    assert_eq!(lease.resource.key(), "SYMBOL:User.auth");
    assert_eq!(lease.acquired_at, 4000);
    assert_eq!(lease.ttl, 250);
    assert_eq!(lease.expires_at, 4250);
    assert_eq!(lease.last_heartbeat, 4000);
}

#[test]
fn release_finds_the_active_lease_behind_a_duplicate_id() {
    // Two grants to the same agent at the same caller-supplied instant
    // synthesize the same id.  After the first lease expires, an Active
    // lease under that id still exists, and release must find and
    // release it - not stop at the expired record.
    let mut store = InMemoryLeaseStore::new();
    store.register_agent_priority("A".to_string(), 100);

    assert!(matches!(
        store.acquire("A", "s1", ResourceRef::new(ResourceType::File, "/one"), Predicate::Mutates, 1, 5),
        LeaseResult::Success { .. }
    ));
    assert_eq!(store.evict_expired(7), 1);
    let second = store.acquire(
        "A",
        "s1",
        ResourceRef::new(ResourceType::File, "/two"),
        Predicate::Mutates,
        100,
        5,
    );
    let lease = match second {
        LeaseResult::Success { lease } => lease,
        _ => panic!("expected Success"),
    };
    assert_eq!(lease.id, "lease_A_5");
    assert_eq!(store.get_active_leases().len(), 1);

    // A heartbeat under the shared id renews the Active lease.
    assert!(store.heartbeat("lease_A_5", 6));
    // And release releases it, answering true.
    assert!(store.release("lease_A_5"));
    assert_eq!(store.get_active_leases().len(), 0);
    assert!(!store.release("lease_A_5"));
}
