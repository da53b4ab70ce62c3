//! The lease-store contract: every backend offers acquire, release,
//! heartbeat, active listing and expiry eviction, plus priority
//! management.  Each backend states what its operations achieve through
//! the spec functions below, so that all backends share one decision path
//! while only the persistence medium differs.

use vstd::prelude::*;
use vstd::string::StringExecFns;
use crate::primitives::{Predicate, ResourceRef};
use crate::lease::{Lease, LeaseResult};
use crate::priority::PriorityMap;
use crate::text::{spec_decimal, u64_to_string};

verus! {

/// The identifier synthesised for a lease granted to `agent` at `now`.
pub open spec fn spec_lease_id(agent: Seq<char>, now: u64) -> Seq<char> {
    "lease_"@ + agent + "_"@ + spec_decimal(now as int)
}

/// Builds the identifier for a lease granted to `agent` at `now`.
pub fn make_lease_id(agent_id: &str, now: u64) -> (r: String)
    ensures
        r@ == spec_lease_id(agent_id@, now),
{
    let mut s = "lease_".to_owned();
    s.append(agent_id);
    s.append("_");
    let t = u64_to_string(now);
    s.append(t.as_str());
    s
}

/// The contract for lease storage backends.  Each backend defines the
/// `..._ens` predicates, saying how its operations relate its old state,
/// its new state and the returned value; callers reason through those
/// predicates.
pub trait LeaseStore: Sized {
    /// The backend's internal well-formedness.
    spec fn wf(&self) -> bool;

    /// What `acquire` achieves.
    spec fn acquire_ens(
        pre: Self,
        post: Self,
        agent: Seq<char>,
        session: Seq<char>,
        resource: ResourceRef,
        predicate: Predicate,
        ttl: u64,
        now: u64,
        r: LeaseResult,
    ) -> bool;

    /// What `release` achieves.
    spec fn release_ens(pre: Self, post: Self, lease_id: Seq<char>, r: bool) -> bool;

    /// What `heartbeat` achieves.
    spec fn heartbeat_ens(pre: Self, post: Self, lease_id: Seq<char>, now: u64, r: bool) -> bool;

    /// What `get_active_leases` returns.
    spec fn active_ens(&self, r: Seq<Lease>) -> bool;

    /// What `evict_expired` achieves.
    spec fn evict_ens(pre: Self, post: Self, now: u64, r: usize) -> bool;

    /// Attempts to acquire a lease on a resource: evicts what has expired
    /// by `now`, decides the request Wait-Die style against the remaining
    /// active leases, and on a grant stores and returns a fresh lease.
    fn acquire(
        &mut self,
        agent_id: &str,
        session_id: &str,
        resource: ResourceRef,
        predicate: Predicate,
        ttl: u64,
        now: u64,
    ) -> (r: LeaseResult)
        requires
            old(self).wf(),
            ttl > 0,
            now + ttl <= u64::MAX,
        ensures
            final(self).wf(),
            Self::acquire_ens(
                *old(self),
                *final(self),
                agent_id@,
                session_id@,
                resource,
                predicate,
                ttl,
                now,
                r,
            ),
    ;

    /// Releases an actively held lease by id; returns whether a lease was
    /// actually released.
    fn release(&mut self, lease_id: &str) -> (r: bool)
        requires
            old(self).wf(),
        ensures
            final(self).wf(),
            Self::release_ens(*old(self), *final(self), lease_id@, r),
    ;

    /// Renews an active lease's expiry window at `now`; the TTL itself is
    /// never changed.  Returns whether a lease was renewed.
    fn heartbeat(&mut self, lease_id: &str, now: u64) -> (r: bool)
        requires
            old(self).wf(),
        ensures
            final(self).wf(),
            Self::heartbeat_ens(*old(self), *final(self), lease_id@, now, r),
    ;

    /// A snapshot of all leases whose state is `Active`.
    fn get_active_leases(&self) -> (r: Vec<Lease>)
        requires
            self.wf(),
        ensures
            self.active_ens(r@),
    ;

    /// Transitions every `Active` lease whose expiry has passed `now` to
    /// `Expired`; returns how many were transitioned.
    fn evict_expired(&mut self, now: u64) -> (r: usize)
        requires
            old(self).wf(),
        ensures
            final(self).wf(),
            Self::evict_ens(*old(self), *final(self), now, r),
    ;
}

/// Priority management on top of [`LeaseStore`]: the store is the source
/// of truth for the agent priority map during decision-making.
pub trait LeaseStoreExt: LeaseStore {
    /// The priority map the backend currently holds.
    spec fn priorities_model(&self) -> Map<Seq<char>, u64>;

    /// The backend's frame condition for `register_agent_priority`: what
    /// else (beyond the priority map) is left unchanged.
    spec fn register_ens(pre: Self, post: Self) -> bool;

    /// Registers an agent's priority stamp (lower = older = senior).
    fn register_agent_priority(&mut self, agent_id: String, priority: u64)
        requires
            old(self).wf(),
        ensures
            final(self).wf(),
            final(self).priorities_model() == old(self).priorities_model().insert(
                agent_id@,
                priority,
            ),
            Self::register_ens(*old(self), *final(self)),
    ;

    /// A copy of the priority map, for building state snapshots.
    fn get_priorities(&self) -> (r: PriorityMap)
        requires
            self.wf(),
        ensures
            r@ == self.priorities_model(),
    ;
}

} // verus!
