use klock::lease::Lease;
use klock::primitives::{Predicate, ResourceRef, ResourceType};
use klock::priority::PriorityMap;
use klock::scheduler::{VerdictStatus, WaitDieScheduler};

fn create_lease(agent_id: &str, predicate: Predicate) -> Lease {
    Lease::new(
        "l1".to_string(),
        agent_id.to_string(),
        "s1".to_string(),
        ResourceRef::new(ResourceType::File, "/src/test.ts"),
        predicate,
        5000,
        1000,
    )
}

#[test]
fn test_wait_die_older_waits() {
    let mut priorities = PriorityMap::new();
    priorities.insert("older".to_string(), 100);
    priorities.insert("younger".to_string(), 200);

    let active = vec![create_lease("younger", Predicate::Mutates)];

    let verdict = WaitDieScheduler::decide(
        "older",
        Predicate::Mutates, // Conflicts with Mutates
        &ResourceRef::new(ResourceType::File, "/src/test.ts"),
        &active,
        &priorities,
    );

    assert_eq!(verdict.status, VerdictStatus::Wait);
    assert_eq!(verdict.held_by, Some("younger".to_string()));
    assert_eq!(verdict.retry_after_ms, None);
    assert_eq!(
        verdict.reason,
        Some("Senior (100) waiting for Junior (200) to complete.".to_string())
    );
}

#[test]
fn test_wait_die_younger_dies() {
    let mut priorities = PriorityMap::new();
    priorities.insert("older".to_string(), 100);
    priorities.insert("younger".to_string(), 200);

    let active = vec![create_lease("older", Predicate::Mutates)];

    let verdict = WaitDieScheduler::decide(
        "younger",
        Predicate::Mutates, // Conflicts with Mutates
        &ResourceRef::new(ResourceType::File, "/src/test.ts"),
        &active,
        &priorities,
    );

    assert_eq!(verdict.status, VerdictStatus::Die);
    assert_eq!(verdict.held_by, Some("older".to_string()));
    assert_eq!(verdict.retry_after_ms, Some(1000));
    assert_eq!(
        verdict.reason,
        Some("Conflict: Senior (100) vs Junior (200). Junior must DIE.".to_string())
    );
}

#[test]
fn no_conflicting_holder_grants() {
    let priorities = PriorityMap::new();
    let active = vec![create_lease("somebody", Predicate::Consumes)];
    let verdict = WaitDieScheduler::decide(
        "reader",
        Predicate::Consumes, // compatible with the held Consumes
        &ResourceRef::new(ResourceType::File, "/src/test.ts"),
        &active,
        &priorities,
    );
    assert_eq!(verdict.status, VerdictStatus::Granted);
    assert_eq!(verdict.reason, None);
    assert_eq!(verdict.held_by, None);
    assert_eq!(verdict.retry_after_ms, None);
}

#[test]
fn missing_requester_priority_fails_closed() {
    let priorities = PriorityMap::new();
    let active = vec![create_lease("holder", Predicate::Mutates)];
    let verdict = WaitDieScheduler::decide(
        "stranger",
        Predicate::Mutates,
        &ResourceRef::new(ResourceType::File, "/src/test.ts"),
        &active,
        &priorities,
    );
    assert_eq!(verdict.status, VerdictStatus::Die);
    assert_eq!(verdict.retry_after_ms, Some(1000));
    assert_eq!(
        verdict.reason,
        Some("Missing agent priority. Cannot ensure deadlock safety.".to_string())
    );
    assert_eq!(verdict.held_by, None);
}

#[test]
fn holder_without_priority_is_skipped() {
    let mut priorities = PriorityMap::new();
    priorities.insert("requester".to_string(), 100);
    // The only conflicting holder has no registered priority: granted.
    let active = vec![create_lease("anonymous", Predicate::Mutates)];
    let verdict = WaitDieScheduler::decide(
        "requester",
        Predicate::Mutates,
        &ResourceRef::new(ResourceType::File, "/src/test.ts"),
        &active,
        &priorities,
    );
    assert_eq!(verdict.status, VerdictStatus::Granted);
}

#[test]
fn equal_priorities_die() {
    let mut priorities = PriorityMap::new();
    priorities.insert("a".to_string(), 100);
    priorities.insert("b".to_string(), 100);
    let active = vec![create_lease("b", Predicate::Mutates)];
    let verdict = WaitDieScheduler::decide(
        "a",
        Predicate::Mutates,
        &ResourceRef::new(ResourceType::File, "/src/test.ts"),
        &active,
        &priorities,
    );
    // A tie is resolved deterministically: the requester is treated as
    // the junior and dies.
    assert_eq!(verdict.status, VerdictStatus::Die);
}

#[test]
fn own_lease_never_conflicts() {
    let mut priorities = PriorityMap::new();
    priorities.insert("a".to_string(), 100);
    let active = vec![create_lease("a", Predicate::Mutates)];
    let verdict = WaitDieScheduler::decide(
        "a",
        Predicate::Mutates,
        &ResourceRef::new(ResourceType::File, "/src/test.ts"),
        &active,
        &priorities,
    );
    assert_eq!(verdict.status, VerdictStatus::Granted);
}

#[test]
fn reregistration_overrides_priority() {
    let mut priorities = PriorityMap::new();
    priorities.insert("a".to_string(), 100);
    priorities.insert("b".to_string(), 200);
    // Re-register "a" as junior to "b": the latest stamp wins.
    priorities.insert("a".to_string(), 300);
    let active = vec![create_lease("b", Predicate::Mutates)];
    let verdict = WaitDieScheduler::decide(
        "a",
        Predicate::Mutates,
        &ResourceRef::new(ResourceType::File, "/src/test.ts"),
        &active,
        &priorities,
    );
    assert_eq!(verdict.status, VerdictStatus::Die);
}

#[test]
fn crossing_requests_cannot_both_wait() {
    // A holds /x, B holds /y; each requests the other's resource.  The
    // senior waits, the junior dies: no cycle of mutual waits can form.
    let mut priorities = PriorityMap::new();
    priorities.insert("A".to_string(), 100);
    priorities.insert("B".to_string(), 200);

    let holds_x = Lease::new(
        "lx".to_string(),
        "A".to_string(),
        "s1".to_string(),
        ResourceRef::new(ResourceType::File, "/x"),
        Predicate::Mutates,
        5000,
        1000,
    );
    let holds_y = Lease::new(
        "ly".to_string(),
        "B".to_string(),
        "s2".to_string(),
        ResourceRef::new(ResourceType::File, "/y"),
        Predicate::Mutates,
        5000,
        1000,
    );
    let active = vec![holds_x, holds_y];

    let a_wants_y = WaitDieScheduler::decide(
        "A",
        Predicate::Mutates,
        &ResourceRef::new(ResourceType::File, "/y"),
        &active,
        &priorities,
    );
    let b_wants_x = WaitDieScheduler::decide(
        "B",
        Predicate::Mutates,
        &ResourceRef::new(ResourceType::File, "/x"),
        &active,
        &priorities,
    );

    assert_eq!(a_wants_y.status, VerdictStatus::Wait);
    assert_eq!(b_wants_x.status, VerdictStatus::Die);
}
