//! The client facade: one lease store, the rolling list of active
//! intents, and a monotonic id counter, behind an ergonomic API.

use vstd::prelude::*;
use vstd::string::StringExecFns;
use crate::primitives::{Predicate, ResourceRef, ResourceType, SPOTriple, str_eq};
use crate::lease::{Lease, LeaseFailureReason, LeaseResult};
use crate::state::{
    IntentManifest,
    KernelVerdict,
    KernelVerdictStatus,
    KlockKernel,
    StateSnapshot,
    spec_execute,
    view_strings,
};
use crate::scheduler::view_opt;
use crate::infrastructure::{LeaseStore, LeaseStoreExt};
use crate::infrastructure_in_memory::InMemoryLeaseStore;
use crate::infrastructure_sqlite::{SqliteLeaseStore, describe_error};
use crate::text::{spec_decimal, to_upper, u64_to_string, upper_of};

verus! {

/// Relies on `std::time::SystemTime::now`: the milliseconds elapsed since
/// the Unix epoch.  Nothing is promised of the clock's value.
#[verifier::external_body]
pub fn now_ms() -> u64 {
    std::time::SystemTime::now().duration_since(std::time::UNIX_EPOCH).unwrap_or_default()
        .as_millis() as u64
}

/// The predicate named by an (already uppercased) wire word; anything
/// unknown falls back to the safe default `Consumes`.
pub open spec fn spec_parse_predicate(u: Seq<char>) -> Predicate {
    if u == "PROVIDES"@ {
        Predicate::Provides
    } else if u == "CONSUMES"@ {
        Predicate::Consumes
    } else if u == "MUTATES"@ {
        Predicate::Mutates
    } else if u == "DELETES"@ {
        Predicate::Deletes
    } else if u == "DEPENDS_ON"@ {
        Predicate::DependsOn
    } else if u == "RENAMES"@ {
        Predicate::Renames
    } else {
        Predicate::Consumes
    }
}

/// The resource type named by an (already uppercased) wire word; anything
/// unknown falls back to the safe default `File`.
pub open spec fn spec_parse_resource_type(u: Seq<char>) -> ResourceType {
    if u == "FILE"@ {
        ResourceType::File
    } else if u == "SYMBOL"@ {
        ResourceType::Symbol
    } else if u == "API_ENDPOINT"@ {
        ResourceType::ApiEndpoint
    } else if u == "DATABASE_TABLE"@ {
        ResourceType::DatabaseTable
    } else if u == "CONFIG_KEY"@ {
        ResourceType::ConfigKey
    } else {
        ResourceType::File
    }
}

/// Parses a predicate word, case-insensitively; unknown words fall back
/// to `Consumes`.
pub fn parse_predicate(s: &str) -> (r: Predicate)
    ensures
        r == spec_parse_predicate(upper_of(s@)),
{
    let up = to_upper(s);
    if str_eq(up.as_str(), "PROVIDES") {
        Predicate::Provides
    } else if str_eq(up.as_str(), "CONSUMES") {
        Predicate::Consumes
    } else if str_eq(up.as_str(), "MUTATES") {
        Predicate::Mutates
    } else if str_eq(up.as_str(), "DELETES") {
        Predicate::Deletes
    } else if str_eq(up.as_str(), "DEPENDS_ON") {
        Predicate::DependsOn
    } else if str_eq(up.as_str(), "RENAMES") {
        Predicate::Renames
    } else {
        Predicate::Consumes
    }
}

/// Parses a resource-type word, case-insensitively; unknown words fall
/// back to `File`.
pub fn parse_resource_type(s: &str) -> (r: ResourceType)
    ensures
        r == spec_parse_resource_type(upper_of(s@)),
{
    let up = to_upper(s);
    if str_eq(up.as_str(), "FILE") {
        ResourceType::File
    } else if str_eq(up.as_str(), "SYMBOL") {
        ResourceType::Symbol
    } else if str_eq(up.as_str(), "API_ENDPOINT") {
        ResourceType::ApiEndpoint
    } else if str_eq(up.as_str(), "DATABASE_TABLE") {
        ResourceType::DatabaseTable
    } else if str_eq(up.as_str(), "CONFIG_KEY") {
        ResourceType::ConfigKey
    } else {
        ResourceType::File
    }
}

/// The active intents left after a lease is released: every triple whose
/// id equals the released lease id is dropped.
pub open spec fn retain_model(intents: Seq<SPOTriple>, id: Seq<char>) -> Seq<SPOTriple>
    decreases intents.len(),
{
    if intents.len() == 0 {
        Seq::empty()
    } else if intents.last().id@ == id {
        retain_model(intents.drop_last(), id)
    } else {
        retain_model(intents.drop_last(), id).push(intents.last())
    }
}

fn clone_triples(v: &Vec<SPOTriple>) -> (r: Vec<SPOTriple>)
    ensures
        r@ == v@,
{
    let mut out: Vec<SPOTriple> = Vec::new();
    let n = v.len();
    let mut i: usize = 0;
    while i < n
        invariant
            n == v@.len(),
            i <= n,
            out@ =~= v@.take(i as int),
        decreases n - i,
    {
        out.push(v[i].duplicate());
        i = i + 1;
    }
    proof {
        assert(out@ =~= v@);
    }
    out
}

/// The main entry point for using the kernel: owns a lease store, the
/// rolling list of active intents, and the id counter.
pub struct KlockClient<S: LeaseStoreExt> {
    store: S,
    active_intents: Vec<SPOTriple>,
    id_counter: u64,
}

/// What a facade `declare_intent` achieves, given the snapshot of active
/// leases `ls` the store produced: the verdict is the kernel's outcome for
/// the manifest against that snapshot, and on `Granted` the manifest's
/// intents join the active list.
pub open spec fn declare_ens_with<S: LeaseStoreExt>(
    pre: KlockClient<S>,
    post: KlockClient<S>,
    manifest: IntentManifest,
    v: KernelVerdict,
    ls: Seq<Lease>,
) -> bool {
    &&& pre.store_model().active_ens(ls)
    &&& ({
        let o = spec_execute(
            ls,
            pre.intents(),
            pre.store_model().priorities_model(),
            manifest.agent_id@,
            manifest.intents@,
        );
        &&& v.agent_id@ == manifest.agent_id@
        &&& v.session_id@ == manifest.session_id@
        &&& v.status == o.status
        &&& view_opt(v.reason) == o.reason
        &&& view_opt(v.held_by) == o.held_by
        &&& v.retry_after_ms == o.retry_after_ms
        &&& view_strings(v.conflicts@) == o.conflicts
        &&& if o.status is Granted {
            post.intents() == pre.intents() + manifest.intents@
        } else {
            post.intents() == pre.intents()
        }
    })
}

/// What a facade `acquire_lease` achieves for the clock value `now` read
/// during the call and the resource `resource` it parsed: either the
/// store's own acquire contract holds, or the requested expiry cannot be
/// represented and the request dies with the store untouched.
pub open spec fn facade_acquire_ens<S: LeaseStoreExt>(
    pre: KlockClient<S>,
    post: KlockClient<S>,
    agent: Seq<char>,
    session: Seq<char>,
    resource_type: Seq<char>,
    resource_path: Seq<char>,
    predicate: Seq<char>,
    ttl: u64,
    now: u64,
    resource: ResourceRef,
    r: LeaseResult,
) -> bool {
    &&& resource.resource_type == spec_parse_resource_type(upper_of(resource_type))
    &&& resource.path@ == resource_path
    &&& ({
        ||| (now + ttl <= u64::MAX && S::acquire_ens(
            pre.store_model(),
            post.store_model(),
            agent,
            session,
            resource,
            spec_parse_predicate(upper_of(predicate)),
            ttl,
            now,
            r,
        ))
        ||| (now + ttl > u64::MAX && post.store_model() == pre.store_model() && (
        r matches LeaseResult::Failure { reason, existing_lease, wait_time } && reason is Die
            && existing_lease is None && wait_time is None))
    })
}

impl<S: LeaseStoreExt> KlockClient<S> {
    /// The owned lease store.
    pub closed spec fn store_model(&self) -> S {
        self.store
    }

    /// The rolling list of active intents.
    pub closed spec fn intents(&self) -> Seq<SPOTriple> {
        self.active_intents@
    }

    /// The id counter.
    pub closed spec fn counter(&self) -> u64 {
        self.id_counter
    }

    /// The facade is well-formed when its store is.
    pub open spec fn wf(&self) -> bool {
        self.store_model().wf()
    }

    /// Registers an agent with a priority timestamp.  Lower timestamps =
    /// higher priority (older = senior).
    pub fn register_agent(&mut self, agent_id: &str, priority: u64)
        requires
            old(self).wf(),
        ensures
            final(self).wf(),
            final(self).store_model().priorities_model() == old(
                self,
            ).store_model().priorities_model().insert(agent_id@, priority),
            S::register_ens(old(self).store_model(), final(self).store_model()),
            final(self).intents() == old(self).intents(),
            final(self).counter() == old(self).counter(),
    {
        self.store.register_agent_priority(agent_id.to_owned(), priority);
    }

    /// Declares an intent manifest and returns the kernel's verdict.  On
    /// a grant, the manifest's intents are recorded as active.
    pub fn declare_intent(&mut self, manifest: &IntentManifest) -> (v: KernelVerdict)
        requires
            old(self).wf(),
        ensures
            final(self).wf(),
            final(self).store_model() == old(self).store_model(),
            final(self).counter() == old(self).counter(),
            exists|ls: Seq<Lease>|
                declare_ens_with(*old(self), *final(self), *manifest, v, ls),
    {
        let snapshot = StateSnapshot {
            active_leases: self.store.get_active_leases(),
            active_intents: clone_triples(&self.active_intents),
            priorities: self.store.get_priorities(),
        };
        let ghost ls = snapshot.active_leases@;

        let verdict = KlockKernel::execute(&snapshot, manifest);

        if verdict.status == KernelVerdictStatus::Granted {
            let ghost pre_intents = self.active_intents@;
            let n = manifest.intents.len();
            let mut i: usize = 0;
            while i < n
                invariant
                    n == manifest.intents@.len(),
                    i <= n,
                    self.active_intents@ =~= pre_intents + manifest.intents@.take(i as int),
                    self.store == old(self).store,
                    self.id_counter == old(self).id_counter,
                decreases n - i,
            {
                self.active_intents.push(manifest.intents[i].duplicate());
                proof {
                    assert(self.active_intents@ =~= pre_intents + manifest.intents@.take(
                        i + 1,
                    ));
                }
                i = i + 1;
            }
            proof {
                assert(manifest.intents@.take(n as int) =~= manifest.intents@);
            }
        }
        proof {
            assert(declare_ens_with(*old(self), *self, *manifest, verdict, ls));
        }
        verdict
    }

    /// Acquires a lease on a resource at the current wall clock.
    pub fn acquire_lease(
        &mut self,
        agent_id: &str,
        session_id: &str,
        resource_type: &str,
        resource_path: &str,
        predicate: &str,
        ttl: u64,
    ) -> (r: LeaseResult)
        requires
            old(self).wf(),
            ttl > 0,
        ensures
            final(self).wf(),
            final(self).intents() == old(self).intents(),
            final(self).counter() == old(self).counter(),
            exists|now: u64, resource: ResourceRef|
                facade_acquire_ens(
                    *old(self),
                    *final(self),
                    agent_id@,
                    session_id@,
                    resource_type@,
                    resource_path@,
                    predicate@,
                    ttl,
                    now,
                    resource,
                    r,
                ),
    {
        let resource = ResourceRef::new(parse_resource_type(resource_type), resource_path);
        let pred = parse_predicate(predicate);
        let now = now_ms();
        let ghost res_spec = resource;

        if ttl <= u64::MAX - now {
            let r = self.store.acquire(agent_id, session_id, resource, pred, ttl, now);
            proof {
                assert(facade_acquire_ens(
                    *old(self),
                    *self,
                    agent_id@,
                    session_id@,
                    resource_type@,
                    resource_path@,
                    predicate@,
                    ttl,
                    now,
                    res_spec,
                    r,
                ));
            }
            r
        } else {
            // The requested expiry lies beyond what the clock can
            // represent; fail closed without touching the store.
            let r = LeaseResult::Failure {
                reason: LeaseFailureReason::Die,
                existing_lease: None,
                wait_time: None,
            };
            proof {
                assert(facade_acquire_ens(
                    *old(self),
                    *self,
                    agent_id@,
                    session_id@,
                    resource_type@,
                    resource_path@,
                    predicate@,
                    ttl,
                    now,
                    res_spec,
                    r,
                ));
            }
            r
        }
    }

    /// Releases a held lease by its ID, dropping any active intents
    /// recorded under the same identifier.
    pub fn release_lease(&mut self, lease_id: &str) -> (r: bool)
        requires
            old(self).wf(),
        ensures
            final(self).wf(),
            final(self).intents() == retain_model(old(self).intents(), lease_id@),
            final(self).counter() == old(self).counter(),
            S::release_ens(old(self).store_model(), final(self).store_model(), lease_id@, r),
    {
        let ghost pre_intents = self.active_intents@;
        let mut kept: Vec<SPOTriple> = Vec::new();
        let n = self.active_intents.len();
        let mut i: usize = 0;
        while i < n
            invariant
                n == self.active_intents@.len(),
                i <= n,
                self.active_intents@ == pre_intents,
                kept@ == retain_model(pre_intents.take(i as int), lease_id@),
                self.store == old(self).store,
                self.id_counter == old(self).id_counter,
            decreases n - i,
        {
            proof {
                assert(pre_intents.take(i + 1).drop_last() =~= pre_intents.take(i as int));
            }
            if !str_eq(self.active_intents[i].id.as_str(), lease_id) {
                kept.push(self.active_intents[i].duplicate());
            }
            i = i + 1;
        }
        proof {
            assert(pre_intents.take(n as int) =~= pre_intents);
        }
        self.active_intents = kept;
        self.store.release(lease_id)
    }

    /// Renews a lease's expiry window at `now`.
    pub fn heartbeat_lease(&mut self, lease_id: &str, now: u64) -> (r: bool)
        requires
            old(self).wf(),
        ensures
            final(self).wf(),
            final(self).intents() == old(self).intents(),
            final(self).counter() == old(self).counter(),
            S::heartbeat_ens(
                old(self).store_model(),
                final(self).store_model(),
                lease_id@,
                now,
                r,
            ),
    {
        self.store.heartbeat(lease_id, now)
    }

    /// A snapshot of all currently active leases.
    pub fn get_active_leases(&self) -> (r: Vec<Lease>)
        requires
            self.wf(),
        ensures
            self.store_model().active_ens(r@),
    {
        self.store.get_active_leases()
    }

    /// Evicts expired leases at the current wall clock; returns how many
    /// were evicted.
    pub fn evict_expired(&mut self) -> (r: usize)
        requires
            old(self).wf(),
        ensures
            final(self).wf(),
            final(self).intents() == old(self).intents(),
            final(self).counter() == old(self).counter(),
            exists|now: u64|
                S::evict_ens(old(self).store_model(), final(self).store_model(), now, r),
    {
        let now = now_ms();
        let r = self.store.evict_expired(now);
        proof {
            assert(S::evict_ens(old(self).store_model(), self.store_model(), now, r));
        }
        r
    }

    /// Whether another identifier can still be minted.  Callers outside
    /// the verifier test this before [`Self::next_id`].
    pub fn can_mint_id(&self) -> (r: bool)
        ensures
            r == (self.counter() < u64::MAX),
    {
        self.id_counter < u64::MAX
    }

    /// Generates a fresh unique identifier for intents and triples.
    pub fn next_id(&mut self) -> (r: String)
        requires
            old(self).wf(),
            old(self).counter() < u64::MAX,
        ensures
            final(self).wf(),
            final(self).store_model() == old(self).store_model(),
            final(self).intents() == old(self).intents(),
            final(self).counter() == old(self).counter() + 1,
            r@ == "klock_"@ + spec_decimal(final(self).counter() as int),
    {
        self.id_counter = self.id_counter + 1;
        let mut s = "klock_".to_owned();
        let t = u64_to_string(self.id_counter);
        s.append(t.as_str());
        s
    }
}

impl KlockClient<InMemoryLeaseStore> {
    /// A new client over an empty in-memory store.
    pub fn new() -> (c: KlockClient<InMemoryLeaseStore>)
        ensures
            c.wf(),
            c.store_model().lease_log() == Seq::<Lease>::empty(),
            c.store_model().prios() == Map::<Seq<char>, u64>::empty(),
            c.intents() == Seq::<SPOTriple>::empty(),
            c.counter() == 0,
    {
        KlockClient {
            store: InMemoryLeaseStore::new(),
            active_intents: Vec::new(),
            id_counter: 0,
        }
    }
}

impl KlockClient<SqliteLeaseStore> {
    /// A new client backed by SQLite at the given path.  Leases persist
    /// across restarts.
    pub fn with_sqlite(path: &str) -> (r: Result<KlockClient<SqliteLeaseStore>, String>)
        ensures
            r matches Ok(c) ==> c.wf() && c.intents() == Seq::<SPOTriple>::empty() && c.counter()
                == 0,
    {
        match SqliteLeaseStore::open(path) {
            Ok(store) => Ok(
                KlockClient { store, active_intents: Vec::new(), id_counter: 0 },
            ),
            Err(e) => {
                let mut m = "Failed to open SQLite database at '".to_owned();
                m.append(path);
                m.append("': ");
                let d = describe_error(&e);
                m.append(d.as_str());
                Err(m)
            },
        }
    }
}

impl Default for KlockClient<InMemoryLeaseStore> {
    /// The same empty client as [`KlockClient::new`].
    fn default() -> (c: KlockClient<InMemoryLeaseStore>)
        ensures
            c.wf(),
            c.store_model().lease_log() == Seq::<Lease>::empty(),
            c.store_model().prios() == Map::<Seq<char>, u64>::empty(),
            c.intents() == Seq::<SPOTriple>::empty(),
            c.counter() == 0,
    {
        KlockClient::new()
    }
}

} // verus!
