//! Leases: time-bound locks on resources, with a strictly one-way lifecycle.

use vstd::prelude::*;
use crate::primitives::{Predicate, ResourceRef};

verus! {

/// Lifecycle state of a lease.  A lease starts `Active` and moves to exactly
/// one of the terminal states; it never returns to `Active`.
#[derive(Debug, Clone, Copy, PartialEq, Eq, Structural)]
pub enum LeaseState {
    /// Lease is held and valid
    Active,
    /// Lease TTL elapsed without heartbeat
    Expired,
    /// Lease was explicitly released
    Released,
    /// Lease was forcibly revoked (conflict resolution)
    Revoked,
}

/// A time-bound lock on a resource.
#[derive(Debug, Clone)]
pub struct Lease {
    /// Unique lease ID
    pub id: String,
    /// Agent holding the lease
    pub agent_id: String,
    /// Session the lease belongs to
    pub session_id: String,
    /// The leased resource
    pub resource: ResourceRef,
    /// What operation is being performed
    pub predicate: Predicate,
    /// Current lease state
    pub state: LeaseState,
    /// When the lease was acquired
    pub acquired_at: u64,
    /// Time-to-live in milliseconds
    pub ttl: u64,
    /// When the lease will expire (acquired_at + ttl)
    pub expires_at: u64,
    /// Last heartbeat timestamp
    pub last_heartbeat: u64,
}

/// `l` with its state replaced by `s` and everything else unchanged.
pub open spec fn with_state(l: Lease, s: LeaseState) -> Lease {
    Lease { state: s, ..l }
}

/// `l` after a heartbeat at `now`: the expiry window slides, the TTL is
/// untouched.
pub open spec fn renewed(l: Lease, now: u64) -> Lease {
    Lease { last_heartbeat: now, expires_at: (now + l.ttl) as u64, ..l }
}

impl Lease {
    /// Constructs a fresh `Active` lease acquired at `now`.
    pub fn new(
        id: String,
        agent_id: String,
        session_id: String,
        resource: ResourceRef,
        predicate: Predicate,
        ttl: u64,
        now: u64,
    ) -> (l: Lease)
        requires
            now + ttl <= u64::MAX,
        ensures
            l == (Lease {
                id,
                agent_id,
                session_id,
                resource,
                predicate,
                state: LeaseState::Active,
                acquired_at: now,
                ttl,
                expires_at: (now + ttl) as u64,
                last_heartbeat: now,
            }),
    {
        Lease {
            id,
            agent_id,
            session_id,
            resource,
            predicate,
            state: LeaseState::Active,
            acquired_at: now,
            ttl,
            expires_at: now + ttl,
            last_heartbeat: now,
        }
    }

    /// This lease moved into state `s`.
    pub fn into_state(self, s: LeaseState) -> (r: Lease)
        ensures
            r == with_state(self, s),
    {
        Lease {
            id: self.id,
            agent_id: self.agent_id,
            session_id: self.session_id,
            resource: self.resource,
            predicate: self.predicate,
            state: s,
            acquired_at: self.acquired_at,
            ttl: self.ttl,
            expires_at: self.expires_at,
            last_heartbeat: self.last_heartbeat,
        }
    }

    /// This lease after a heartbeat at `now`.
    pub fn into_renewed(self, now: u64) -> (r: Lease)
        requires
            now + self.ttl <= u64::MAX,
        ensures
            r == renewed(self, now),
    {
        let ttl = self.ttl;
        Lease {
            id: self.id,
            agent_id: self.agent_id,
            session_id: self.session_id,
            resource: self.resource,
            predicate: self.predicate,
            state: self.state,
            acquired_at: self.acquired_at,
            ttl,
            expires_at: now + ttl,
            last_heartbeat: now,
        }
    }

    /// An independent copy equal to this lease.
    pub fn duplicate(&self) -> (r: Lease)
        ensures
            r == *self,
    {
        Lease {
            id: self.id.clone(),
            agent_id: self.agent_id.clone(),
            session_id: self.session_id.clone(),
            resource: ResourceRef {
                resource_type: self.resource.resource_type,
                path: self.resource.path.clone(),
            },
            predicate: self.predicate,
            state: self.state,
            acquired_at: self.acquired_at,
            ttl: self.ttl,
            expires_at: self.expires_at,
            last_heartbeat: self.last_heartbeat,
        }
    }
}

/// Why a lease acquisition failed.
#[derive(Debug, Clone, Copy, PartialEq, Eq, Structural)]
pub enum LeaseFailureReason {
    /// Another agent holds a conflicting lease
    Conflict,
    /// Wait-Die: older agent, should wait
    Wait,
    /// Wait-Die: younger agent, should abort and retry
    Die,
    /// Resource is locked for another operation
    ResourceLocked,
    /// The session has expired
    SessionExpired,
}

/// Result of attempting to acquire a lease.
#[derive(Debug, Clone)]
pub enum LeaseResult {
    Success { lease: Lease },
    Failure {
        reason: LeaseFailureReason,
        existing_lease: Option<Lease>,
        wait_time: Option<u64>,
    },
}

} // verus!
