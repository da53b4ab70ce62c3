use klock::client::{parse_predicate, parse_resource_type, KlockClient};
use klock::infrastructure::LeaseStore;
use klock::infrastructure_sqlite::SqliteLeaseStore;
use klock::lease::{LeaseFailureReason, LeaseResult};
use klock::primitives::{Confidence, Predicate, ResourceRef, ResourceType, SPOTriple};
use klock::state::{IntentManifest, KernelVerdictStatus};

fn make_triple(id: &str, agent: &str, pred: Predicate, path: &str, session: &str) -> SPOTriple {
    SPOTriple {
        id: id.to_string(),
        subject: agent.to_string(),
        predicate: pred,
        object: ResourceRef::new(ResourceType::File, path),
        timestamp: 1000,
        confidence: Confidence::High,
        session_id: session.to_string(),
    }
}

#[test]
fn parse_predicate_is_case_insensitive_with_safe_default() {
    assert_eq!(parse_predicate("PROVIDES"), Predicate::Provides);
    assert_eq!(parse_predicate("consumes"), Predicate::Consumes);
    assert_eq!(parse_predicate("mutates"), Predicate::Mutates);
    assert_eq!(parse_predicate("Deletes"), Predicate::Deletes);
    assert_eq!(parse_predicate("depends_on"), Predicate::DependsOn);
    assert_eq!(parse_predicate("RENAMES"), Predicate::Renames);
    assert_eq!(parse_predicate("garbage"), Predicate::Consumes);
}

#[test]
fn parse_resource_type_is_case_insensitive_with_safe_default() {
    assert_eq!(parse_resource_type("file"), ResourceType::File);
    assert_eq!(parse_resource_type("SYMBOL"), ResourceType::Symbol);
    assert_eq!(parse_resource_type("api_endpoint"), ResourceType::ApiEndpoint);
    assert_eq!(parse_resource_type("Database_Table"), ResourceType::DatabaseTable);
    assert_eq!(parse_resource_type("config_key"), ResourceType::ConfigKey);
    assert_eq!(parse_resource_type("whatever"), ResourceType::File);
}

#[test]
fn next_id_counts_monotonically() {
    let mut client = KlockClient::new();
    assert_eq!(client.next_id(), "klock_1");
    assert_eq!(client.next_id(), "klock_2");
    assert_eq!(client.next_id(), "klock_3");
}

#[test]
fn declare_intent_records_granted_intents() {
    let mut client = KlockClient::new();
    client.register_agent("A", 100);
    client.register_agent("B", 200);

    let manifest = IntentManifest {
        session_id: "s1".to_string(),
        agent_id: "A".to_string(),
        intents: vec![make_triple("i1", "A", Predicate::Mutates, "/x", "s1")],
    };
    let verdict = client.declare_intent(&manifest);
    assert_eq!(verdict.status, KernelVerdictStatus::Granted);

    // B now collides with A's recorded intent (no lease exists, so the
    // scheduler still grants, but the conflict is reported).
    let manifest_b = IntentManifest {
        session_id: "s2".to_string(),
        agent_id: "B".to_string(),
        intents: vec![make_triple("i2", "B", Predicate::Mutates, "/x", "s2")],
    };
    let verdict_b = client.declare_intent(&manifest_b);
    assert_eq!(verdict_b.conflicts.len(), 1);
}

#[test]
fn reentrant_within_session() {
    // The same (agent, session) declares Mutates FILE:/x twice; the
    // second declaration must not add a conflict.
    let mut client = KlockClient::new();
    client.register_agent("A", 100);

    let manifest = IntentManifest {
        session_id: "s1".to_string(),
        agent_id: "A".to_string(),
        intents: vec![make_triple("i1", "A", Predicate::Mutates, "/x", "s1")],
    };
    let first = client.declare_intent(&manifest);
    assert_eq!(first.status, KernelVerdictStatus::Granted);
    assert!(first.conflicts.is_empty());

    let again = IntentManifest {
        session_id: "s1".to_string(),
        agent_id: "A".to_string(),
        intents: vec![make_triple("i2", "A", Predicate::Mutates, "/x", "s1")],
    };
    let second = client.declare_intent(&again);
    assert_eq!(second.status, KernelVerdictStatus::Granted);
    assert!(second.conflicts.is_empty());
}

#[test]
fn facade_acquire_and_release_round_trip() {
    let mut client = KlockClient::new();
    client.register_agent("A", 100);

    let result = client.acquire_lease("A", "s1", "file", "/x", "mutates", 60000);
    let lease = match result {
        LeaseResult::Success { lease } => lease,
        _ => panic!("expected Success"),
    };
    assert_eq!(lease.agent_id, "A");
    assert_eq!(lease.resource.key(), "FILE:/x");
    assert_eq!(client.get_active_leases().len(), 1);

    assert!(client.release_lease(&lease.id));
    assert_eq!(client.get_active_leases().len(), 0);
    assert!(!client.release_lease(&lease.id));
}

#[test]
fn facade_wait_die_between_agents() {
    let mut client = KlockClient::new();
    client.register_agent("older", 100);
    client.register_agent("younger", 200);

    assert!(matches!(
        client.acquire_lease("older", "s1", "file", "/app", "mutates", 600000),
        LeaseResult::Success { .. }
    ));
    match client.acquire_lease("younger", "s2", "file", "/app", "mutates", 600000) {
        LeaseResult::Failure { reason: LeaseFailureReason::Die, wait_time, .. } => {
            assert_eq!(wait_time, Some(1000));
        }
        _ => panic!("expected the junior to die"),
    }
}

#[test]
fn sqlite_store_full_cycle_in_memory_database() {
    let mut store = match SqliteLeaseStore::open(":memory:") {
        Ok(s) => s,
        Err(e) => panic!("could not open an in-memory database: {}", e),
    };
    store.register_agent_priority("older".to_string(), 100);
    store.register_agent_priority("younger".to_string(), 200);

    let res = ResourceRef::new(ResourceType::File, "/x");

    let lease = match store.acquire("older", "s1", res.clone(), Predicate::Mutates, 500, 1000) {
        LeaseResult::Success { lease } => lease,
        _ => panic!("expected Success"),
    };
    assert_eq!(lease.id, "lease_older_1000");
    assert_eq!(lease.expires_at, 1500);
    assert_eq!(store.get_active_leases().len(), 1);

    // The junior dies on the conflicting resource.
    assert!(matches!(
        store.acquire("younger", "s2", res.clone(), Predicate::Mutates, 500, 1100),
        LeaseResult::Failure { reason: LeaseFailureReason::Die, .. }
    ));

    // Heartbeat slides the expiry window.
    assert!(store.heartbeat(&lease.id, 1400));
    let active = store.get_active_leases();
    assert_eq!(active.len(), 1);
    assert_eq!(active[0].expires_at, 1900);
    assert_eq!(active[0].ttl, 500);

    // Release, then nothing is active and the id cannot be reused.
    assert!(store.release(&lease.id));
    assert!(!store.release(&lease.id));
    assert!(!store.heartbeat(&lease.id, 2000));
    assert_eq!(store.get_active_leases().len(), 0);

    // With the writer gone, the junior is granted.
    assert!(matches!(
        store.acquire("younger", "s2", res, Predicate::Mutates, 500, 2100),
        LeaseResult::Success { .. }
    ));
}

#[test]
fn sqlite_store_eviction_cycle() {
    let mut store = match SqliteLeaseStore::open(":memory:") {
        Ok(s) => s,
        Err(e) => panic!("could not open an in-memory database: {}", e),
    };
    store.register_agent_priority("A".to_string(), 100);
    let res = ResourceRef::new(ResourceType::File, "/x");
    assert!(matches!(
        store.acquire("A", "s1", res.clone(), Predicate::Mutates, 100, 1000),
        LeaseResult::Success { .. }
    ));
    assert_eq!(store.evict_expired(1050), 0);
    assert_eq!(store.evict_expired(1200), 1);
    assert_eq!(store.evict_expired(1300), 0);
    assert_eq!(store.get_active_leases().len(), 0);

    // An expired writer no longer blocks anyone (acquire evicts first).
    store.register_agent_priority("B".to_string(), 200);
    assert!(matches!(
        store.acquire("B", "s2", res, Predicate::Mutates, 100, 1400),
        LeaseResult::Success { .. }
    ));
}

#[test]
fn facade_over_sqlite_store() {
    let mut client = match KlockClient::with_sqlite(":memory:") {
        Ok(c) => c,
        Err(e) => panic!("{}", e),
    };
    client.register_agent("A", 100);
    let result = client.acquire_lease("A", "s1", "file", "/x", "consumes", 60000);
    let lease = match result {
        LeaseResult::Success { lease } => lease,
        _ => panic!("expected Success"),
    };
    assert_eq!(client.get_active_leases().len(), 1);
    assert!(client.heartbeat_lease(&lease.id, lease.acquired_at + 1));
    assert!(client.release_lease(&lease.id));
    assert_eq!(client.get_active_leases().len(), 0);
}
