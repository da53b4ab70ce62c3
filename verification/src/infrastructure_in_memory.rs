//! The in-memory lease store: a lease log (terminal leases are kept for
//! post-mortem inspection, never shown as active) plus the priority map.

use vstd::prelude::*;
use crate::primitives::{Predicate, ResourceRef, spec_key, str_eq};
use crate::lease::{Lease, LeaseState, LeaseFailureReason, LeaseResult, renewed, with_state};
use crate::priority::PriorityMap;
use crate::scheduler::{VerdictStatus, WaitDieScheduler, spec_decide};
use crate::infrastructure::{LeaseStore, LeaseStoreExt, make_lease_id, spec_lease_id};

verus! {

/// One lease after eviction at `now`: an active lease whose expiry has
/// passed becomes `Expired`; everything else is untouched.
pub open spec fn evict_one(l: Lease, now: u64) -> Lease {
    if l.state is Active && l.expires_at < now {
        with_state(l, LeaseState::Expired)
    } else {
        l
    }
}

/// Whether eviction at `now` expires `l`.
pub open spec fn expires_now(l: Lease, now: u64) -> bool {
    l.state is Active && l.expires_at < now
}

/// The whole lease log after eviction at `now`.
pub open spec fn evict_model(leases: Seq<Lease>, now: u64) -> Seq<Lease> {
    leases.map_values(|l: Lease| evict_one(l, now))
}

/// How many leases eviction at `now` expires.
pub open spec fn evict_count(leases: Seq<Lease>, now: u64) -> int
    decreases leases.len(),
{
    if leases.len() == 0 {
        0
    } else {
        evict_count(leases.drop_last(), now) + if expires_now(leases.last(), now) {
            1int
        } else {
            0int
        }
    }
}

/// The active leases of a log, in log order.
pub open spec fn active_model(leases: Seq<Lease>) -> Seq<Lease>
    decreases leases.len(),
{
    if leases.len() == 0 {
        Seq::empty()
    } else if leases.last().state is Active {
        active_model(leases.drop_last()).push(leases.last())
    } else {
        active_model(leases.drop_last())
    }
}

/// The position of the first `Active` lease with identifier `id`, from
/// `i` on.  Terminal leases under the same identifier are skipped: release
/// and heartbeat act on what is actively held, never on the terminal
/// record that an earlier lease left behind.
pub open spec fn find_active_lease_from(leases: Seq<Lease>, id: Seq<char>, i: int) -> Option<int>
    decreases leases.len() - i,
{
    if i < 0 || i >= leases.len() {
        None
    } else if leases[i].id@ == id && leases[i].state is Active {
        Some(i)
    } else {
        find_active_lease_from(leases, id, i + 1)
    }
}

/// The log and the answer after a release of `id`: exactly when an
/// `Active` lease with that identifier exists, it is moved to `Released`
/// and the answer is `true`; otherwise the release is a no-op answering
/// `false`.
pub open spec fn release_model(leases: Seq<Lease>, id: Seq<char>) -> (Seq<Lease>, bool) {
    match find_active_lease_from(leases, id, 0) {
        Option::None => (leases, false),
        Option::Some(j) => (leases.update(j, with_state(leases[j], LeaseState::Released)), true),
    }
}

/// The log and the answer after a heartbeat of `id` at `now`: the
/// `Active` lease with that identifier is renewed if its new expiry still
/// fits the clock; otherwise nothing changes.
pub open spec fn heartbeat_model(leases: Seq<Lease>, id: Seq<char>, now: u64) -> (Seq<Lease>, bool) {
    match find_active_lease_from(leases, id, 0) {
        Option::None => (leases, false),
        Option::Some(j) => {
            if now + leases[j].ttl <= u64::MAX {
                (leases.update(j, renewed(leases[j], now)), true)
            } else {
                (leases, false)
            }
        },
    }
}

/// A synchronous, fully in-memory lease store.  All operations expect to
/// be called under external mutual exclusion.
pub struct InMemoryLeaseStore {
    leases: Vec<Lease>,
    priorities: PriorityMap,
}

impl InMemoryLeaseStore {
    /// The full lease log, terminal leases included.
    pub closed spec fn lease_log(&self) -> Seq<Lease> {
        self.leases@
    }

    /// The registered priorities.
    pub closed spec fn prios(&self) -> Map<Seq<char>, u64> {
        self.priorities@
    }

    /// An empty store.
    pub fn new() -> (s: InMemoryLeaseStore)
        ensures
            s.lease_log() == Seq::<Lease>::empty(),
            s.prios() == Map::<Seq<char>, u64>::empty(),
    {
        InMemoryLeaseStore { leases: Vec::new(), priorities: PriorityMap::new() }
    }

    /// Registers an agent's priority stamp (lower = older = senior).
    pub fn register_agent_priority(&mut self, agent_id: String, priority: u64)
        ensures
            final(self).prios() == old(self).prios().insert(agent_id@, priority),
            final(self).lease_log() == old(self).lease_log(),
    {
        self.priorities.insert(agent_id, priority);
    }

    /// A copy of the priority map.
    pub fn get_priorities(&self) -> (r: PriorityMap)
        ensures
            r@ == self.prios(),
    {
        self.priorities.duplicate()
    }
}

impl LeaseStore for InMemoryLeaseStore {
    open spec fn wf(&self) -> bool {
        true
    }

    /// Acquire in full: evict what has expired, decide Wait-Die against
    /// the remaining active leases, then translate the verdict.
    open spec fn acquire_ens(
        pre: Self,
        post: Self,
        agent: Seq<char>,
        session: Seq<char>,
        resource: ResourceRef,
        predicate: Predicate,
        ttl: u64,
        now: u64,
        r: LeaseResult,
    ) -> bool {
        let evicted = evict_model(pre.lease_log(), now);
        let sd = spec_decide(agent, predicate, spec_key(resource), active_model(evicted), pre.prios());
        post.prios() == pre.prios() && match sd.status {
            VerdictStatus::Granted => r matches LeaseResult::Success { lease }
                && lease.id@ == spec_lease_id(agent, now) && lease.agent_id@ == agent
                && lease.session_id@ == session && lease.resource == resource && lease.predicate
                == predicate && lease.state is Active && lease.acquired_at == now && lease.ttl
                == ttl && lease.expires_at == now + ttl && lease.last_heartbeat == now
                && post.lease_log() == evicted.push(lease),
            VerdictStatus::Wait => r matches LeaseResult::Failure { reason, existing_lease, wait_time }
                && reason is Wait && existing_lease is None && wait_time is None
                && post.lease_log() == evicted,
            VerdictStatus::Die => r matches LeaseResult::Failure { reason, existing_lease, wait_time }
                && reason is Die && existing_lease is None && wait_time == sd.retry_after_ms
                && post.lease_log() == evicted,
        }
    }

    open spec fn release_ens(pre: Self, post: Self, lease_id: Seq<char>, r: bool) -> bool {
        post.prios() == pre.prios() && (post.lease_log(), r) == release_model(
            pre.lease_log(),
            lease_id,
        )
    }

    open spec fn heartbeat_ens(pre: Self, post: Self, lease_id: Seq<char>, now: u64, r: bool) -> bool {
        post.prios() == pre.prios() && (post.lease_log(), r) == heartbeat_model(
            pre.lease_log(),
            lease_id,
            now,
        )
    }

    open spec fn active_ens(&self, r: Seq<Lease>) -> bool {
        r == active_model(self.lease_log())
    }

    open spec fn evict_ens(pre: Self, post: Self, now: u64, r: usize) -> bool {
        post.prios() == pre.prios() && post.lease_log() == evict_model(pre.lease_log(), now) && r
            == evict_count(pre.lease_log(), now)
    }

    fn acquire(
        &mut self,
        agent_id: &str,
        session_id: &str,
        resource: ResourceRef,
        predicate: Predicate,
        ttl: u64,
        now: u64,
    ) -> (r: LeaseResult) {
        // Clean up expired leases first so stale holders cannot block.
        self.evict_expired(now);

        let active_leases = self.get_active_leases();

        let verdict = WaitDieScheduler::decide(
            agent_id,
            predicate,
            &resource,
            active_leases.as_slice(),
            &self.priorities,
        );

        match verdict.status {
            VerdictStatus::Wait => LeaseResult::Failure {
                reason: LeaseFailureReason::Wait,
                existing_lease: None,
                wait_time: None,
            },
            VerdictStatus::Die => LeaseResult::Failure {
                reason: LeaseFailureReason::Die,
                existing_lease: None,
                wait_time: verdict.retry_after_ms,
            },
            VerdictStatus::Granted => {
                let lease_id = make_lease_id(agent_id, now);
                let lease = Lease::new(
                    lease_id,
                    agent_id.to_owned(),
                    session_id.to_owned(),
                    resource,
                    predicate,
                    ttl,
                    now,
                );
                self.leases.push(lease.duplicate());
                LeaseResult::Success { lease }
            },
        }
    }

    fn release(&mut self, lease_id: &str) -> (r: bool) {
        let n = self.leases.len();
        let mut i: usize = 0;
        while i < n
            invariant
                n == self.leases@.len(),
                i <= n,
                self.leases@ == old(self).lease_log(),
                self.priorities@ == old(self).prios(),
                find_active_lease_from(self.leases@, lease_id@, 0) == find_active_lease_from(
                    self.leases@,
                    lease_id@,
                    i as int,
                ),
            decreases n - i,
        {
            if str_eq(self.leases[i].id.as_str(), lease_id) && self.leases[i].state
                == LeaseState::Active {
                let ghost pre = self.leases@;
                let l = self.leases.remove(i);
                self.leases.insert(i, l.into_state(LeaseState::Released));
                proof {
                    assert(self.leases@ =~= pre.update(
                        i as int,
                        with_state(pre[i as int], LeaseState::Released),
                    ));
                }
                return true;
            }
            i = i + 1;
        }
        false
    }

    fn heartbeat(&mut self, lease_id: &str, now: u64) -> (r: bool) {
        let n = self.leases.len();
        let mut i: usize = 0;
        while i < n
            invariant
                n == self.leases@.len(),
                i <= n,
                self.leases@ == old(self).lease_log(),
                self.priorities@ == old(self).prios(),
                find_active_lease_from(self.leases@, lease_id@, 0) == find_active_lease_from(
                    self.leases@,
                    lease_id@,
                    i as int,
                ),
            decreases n - i,
        {
            if str_eq(self.leases[i].id.as_str(), lease_id) && self.leases[i].state
                == LeaseState::Active {
                if self.leases[i].ttl <= u64::MAX - now {
                    let ghost pre = self.leases@;
                    let l = self.leases.remove(i);
                    self.leases.insert(i, l.into_renewed(now));
                    proof {
                        assert(self.leases@ =~= pre.update(i as int, renewed(pre[i as int], now)));
                    }
                    return true;
                } else {
                    // The renewed expiry cannot be represented.
                    return false;
                }
            }
            i = i + 1;
        }
        false
    }

    fn get_active_leases(&self) -> (r: Vec<Lease>) {
        let mut out: Vec<Lease> = Vec::new();
        let n = self.leases.len();
        let mut i: usize = 0;
        while i < n
            invariant
                n == self.leases@.len(),
                i <= n,
                out@ == active_model(self.leases@.take(i as int)),
            decreases n - i,
        {
            proof {
                assert(self.leases@.take(i + 1).drop_last() =~= self.leases@.take(i as int));
            }
            if self.leases[i].state == LeaseState::Active {
                out.push(self.leases[i].duplicate());
            }
            i = i + 1;
        }
        proof {
            assert(self.leases@.take(n as int) =~= self.leases@);
        }
        out
    }

    fn evict_expired(&mut self, now: u64) -> (r: usize) {
        let ghost pre = self.leases@;
        let mut count: usize = 0;
        let n = self.leases.len();
        let mut i: usize = 0;
        while i < n
            invariant
                n == pre.len(),
                i <= n,
                self.leases@.len() == pre.len(),
                count <= i,
                self.priorities@ == old(self).prios(),
                pre == old(self).lease_log(),
                forall|k: int| i <= k < pre.len() ==> self.leases@[k] == pre[k],
                forall|k: int| 0 <= k < i ==> self.leases@[k] == evict_one(pre[k], now),
                count == evict_count(pre.take(i as int), now),
            decreases n - i,
        {
            proof {
                assert(pre.take(i + 1).drop_last() =~= pre.take(i as int));
            }
            if self.leases[i].state == LeaseState::Active && self.leases[i].expires_at < now {
                let l = self.leases.remove(i);
                self.leases.insert(i, l.into_state(LeaseState::Expired));
                count = count + 1;
            }
            i = i + 1;
        }
        proof {
            assert(pre.take(n as int) =~= pre);
            assert(self.leases@ =~= evict_model(pre, now));
        }
        count
    }
}

impl LeaseStoreExt for InMemoryLeaseStore {
    open spec fn priorities_model(&self) -> Map<Seq<char>, u64> {
        self.prios()
    }

    open spec fn register_ens(pre: Self, post: Self) -> bool {
        post.lease_log() == pre.lease_log()
    }

    fn register_agent_priority(&mut self, agent_id: String, priority: u64) {
        InMemoryLeaseStore::register_agent_priority(self, agent_id, priority);
    }

    fn get_priorities(&self) -> (r: PriorityMap) {
        InMemoryLeaseStore::get_priorities(self)
    }
}

/// Where the first find lands: inside the log, on an `Active` lease
/// carrying the identifier.
proof fn lemma_find_in_range(leases: Seq<Lease>, id: Seq<char>, i: int)
    requires
        0 <= i <= leases.len(),
    ensures
        find_active_lease_from(leases, id, i) matches Some(b) ==> i <= b < leases.len()
            && leases[b].id@ == id && leases[b].state is Active,
    decreases leases.len() - i,
{
    if i < leases.len() && !(leases[i].id@ == id && leases[i].state is Active) {
        lemma_find_in_range(leases, id, i + 1);
    }
}

/// An update that keeps a lease's identifier and state does not move the
/// position at which any identifier is first actively found.
proof fn lemma_find_after_update(leases: Seq<Lease>, id: Seq<char>, j: int, l2: Lease, i: int)
    requires
        0 <= j < leases.len(),
        l2.id@ == leases[j].id@,
        l2.state == leases[j].state,
        0 <= i <= leases.len(),
    ensures
        find_active_lease_from(leases.update(j, l2), id, i) == find_active_lease_from(
            leases,
            id,
            i,
        ),
    decreases leases.len() - i,
{
    if i < leases.len() {
        lemma_find_after_update(leases, id, j, l2, i + 1);
    }
}

/// Lease lifecycle monotonicity, eviction: a lease that has already left
/// `Active` is untouched by eviction; it can never return to `Active`.
pub proof fn lemma_no_resurrection_evict(leases: Seq<Lease>, now: u64, j: int)
    requires
        0 <= j < leases.len(),
        !(leases[j].state is Active),
    ensures
        evict_model(leases, now)[j] == leases[j],
{
}

/// Lease lifecycle monotonicity, release: a lease that has already left
/// `Active` is untouched by any release; it can never return to `Active`.
pub proof fn lemma_no_resurrection_release(leases: Seq<Lease>, id: Seq<char>, j: int)
    requires
        0 <= j < leases.len(),
        !(leases[j].state is Active),
    ensures
        release_model(leases, id).0[j] == leases[j],
{
    lemma_find_in_range(leases, id, 0);
}

/// Lease lifecycle monotonicity, heartbeat: a lease that has already left
/// `Active` is untouched by any heartbeat; it can never return to
/// `Active`, and its expiry never slides again.
pub proof fn lemma_no_resurrection_heartbeat(leases: Seq<Lease>, id: Seq<char>, now: u64, j: int)
    requires
        0 <= j < leases.len(),
        !(leases[j].state is Active),
    ensures
        heartbeat_model(leases, id, now).0[j] == leases[j],
{
    lemma_find_in_range(leases, id, 0);
}

/// Heartbeat idempotence: a second heartbeat at the same instant answers
/// the same and leaves the log exactly as it was, with the renewed
/// lease's expiry pinned at `now + ttl`.
pub proof fn lemma_heartbeat_idempotent(leases: Seq<Lease>, id: Seq<char>, now: u64)
    ensures
        ({
            let (l1, r1) = heartbeat_model(leases, id, now);
            let (l2, r2) = heartbeat_model(l1, id, now);
            l2 == l1 && r2 == r1
        }),
{
    lemma_find_in_range(leases, id, 0);
    let (l1, r1) = heartbeat_model(leases, id, now);
    match find_active_lease_from(leases, id, 0) {
        Option::None => {},
        Option::Some(j) => {
            if now + leases[j].ttl <= u64::MAX {
                lemma_find_after_update(leases, id, j, renewed(leases[j], now), 0);
                assert(l1.update(j, renewed(l1[j], now)) =~= l1);
            }
        },
    }
}

/// Heartbeats at increasing instants strictly increase the lease's
/// expiry.
pub proof fn lemma_heartbeat_monotone(leases: Seq<Lease>, id: Seq<char>, t1: u64, t2: u64, j: int)
    requires
        t1 < t2,
        find_active_lease_from(leases, id, 0) == Some(j),
        heartbeat_model(leases, id, t1).1,
        heartbeat_model(heartbeat_model(leases, id, t1).0, id, t2).1,
    ensures
        ({
            let l1 = heartbeat_model(leases, id, t1).0;
            let l2 = heartbeat_model(l1, id, t2).0;
            l2[j].expires_at > l1[j].expires_at
        }),
{
    lemma_find_in_range(leases, id, 0);
    lemma_find_after_update(leases, id, j, renewed(leases[j], t1), 0);
}

/// Eviction monotonicity: evicting at `t1` and then at a later `t2`
/// expires exactly what a single eviction at `t2` would, and the two
/// counts add up — no lease is ever evicted twice.
pub proof fn lemma_eviction_monotone(leases: Seq<Lease>, t1: u64, t2: u64)
    requires
        t1 <= t2,
    ensures
        evict_model(evict_model(leases, t1), t2) == evict_model(leases, t2),
        evict_count(leases, t1) + evict_count(evict_model(leases, t1), t2) == evict_count(
            leases,
            t2,
        ),
    decreases leases.len(),
{
    if leases.len() == 0 {
        assert(evict_model(evict_model(leases, t1), t2) =~= evict_model(leases, t2));
        assert(evict_model(leases, t1) =~= Seq::<Lease>::empty());
    } else {
        lemma_eviction_monotone(leases.drop_last(), t1, t2);
        assert(evict_model(leases, t1).drop_last() =~= evict_model(leases.drop_last(), t1));
        assert(evict_model(leases, t1).last() == evict_one(leases.last(), t1));
        assert(evict_model(evict_model(leases, t1), t2) =~= evict_model(leases, t2));
    }
}

} // verus!
