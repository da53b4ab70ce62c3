//! The Wait-Die scheduler: turns a conflict into a `Wait` or `Die` verdict
//! using the agents' priority stamps, so that waits can never form a cycle.

use vstd::prelude::*;
use vstd::string::StringExecFns;
use crate::primitives::{Predicate, ResourceRef, spec_key, str_eq};
use crate::lease::Lease;
use crate::conflict::{ConflictEngine, spec_compatible};
use crate::priority::PriorityMap;
use crate::text::{spec_decimal, u64_to_string};

verus! {

/// Scheduler outcome for one request.
#[derive(Debug, Clone, Copy, PartialEq, Eq, Structural)]
pub enum VerdictStatus {
    Granted,
    Wait,
    Die,
}

/// The scheduler's answer: a status plus, for `Wait` and `Die`, the reason,
/// the holding agent, and (for `Die` only) a suggested retry delay.
#[derive(Debug, Clone)]
pub struct SchedulerVerdict {
    pub status: VerdictStatus,
    pub reason: Option<String>,
    pub held_by: Option<String>,
    pub retry_after_ms: Option<u64>,
}

/// The mathematical shadow of a [`SchedulerVerdict`]: the same record over
/// character sequences.
pub struct SpecVerdict {
    pub status: VerdictStatus,
    pub reason: Option<Seq<char>>,
    pub held_by: Option<Seq<char>>,
    pub retry_after_ms: Option<u64>,
}

/// The contents of an optional string.
pub open spec fn view_opt(o: Option<String>) -> Option<Seq<char>> {
    match o {
        Option::None => Option::None,
        Option::Some(s) => Option::Some(s@),
    }
}

/// A `SchedulerVerdict` carries exactly the record `sd`.
pub open spec fn verdict_matches(v: SchedulerVerdict, sd: SpecVerdict) -> bool {
    v.status == sd.status && view_opt(v.reason) == sd.reason && view_opt(v.held_by) == sd.held_by
        && v.retry_after_ms == sd.retry_after_ms
}

/// An active lease held by another agent that is incompatible with the
/// request.  Unlike the conflict engine's intent check, the scheduler
/// exempts the requesting agent's own leases whatever their session.
pub open spec fn holder_conflicts(l: Lease, agent: Seq<char>, pred: Predicate, key: Seq<char>) -> bool {
    spec_key(l.resource) == key && l.agent_id@ != agent && !spec_compatible(l.predicate, pred)
}

/// Some lease in `leases` conflicts with the request.
pub open spec fn has_conflicting_holder(
    leases: Seq<Lease>,
    agent: Seq<char>,
    pred: Predicate,
    key: Seq<char>,
) -> bool {
    exists|j: int| 0 <= j < leases.len() && holder_conflicts(leases[j], agent, pred, key)
}

/// The reason attached to a `Wait` verdict.
pub open spec fn spec_wait_reason(requester: u64, holder: u64) -> Seq<char> {
    "Senior ("@ + spec_decimal(requester as int) + ") waiting for Junior ("@ + spec_decimal(
        holder as int,
    ) + ") to complete."@
}

/// The reason attached to a `Die` verdict caused by a senior holder.
pub open spec fn spec_die_reason(requester: u64, holder: u64) -> Seq<char> {
    "Conflict: Senior ("@ + spec_decimal(holder as int) + ") vs Junior ("@ + spec_decimal(
        requester as int,
    ) + "). Junior must DIE."@
}

/// The reason attached to a `Die` verdict for an unregistered requester.
pub open spec fn spec_missing_priority_reason() -> Seq<char> {
    "Missing agent priority. Cannot ensure deadlock safety."@
}

/// A `Granted` verdict.
pub open spec fn spec_granted() -> SpecVerdict {
    SpecVerdict { status: VerdictStatus::Granted, reason: None, held_by: None, retry_after_ms: None }
}

/// The verdict reached by walking the conflicting holders from position
/// `i` on: the first one with a registered priority decides, Wait-Die
/// style; holders without a priority are skipped; if none decides, the
/// request is granted.
pub open spec fn spec_decide_from(
    agent: Seq<char>,
    pred: Predicate,
    key: Seq<char>,
    leases: Seq<Lease>,
    prios: Map<Seq<char>, u64>,
    requester_priority: u64,
    i: int,
) -> SpecVerdict
    decreases leases.len() - i,
{
    if i < 0 || i >= leases.len() {
        spec_granted()
    } else if holder_conflicts(leases[i], agent, pred, key) && prios.contains_key(
        leases[i].agent_id@,
    ) {
        let holder_priority = prios[leases[i].agent_id@];
        if requester_priority < holder_priority {
            SpecVerdict {
                status: VerdictStatus::Wait,
                reason: Some(spec_wait_reason(requester_priority, holder_priority)),
                held_by: Some(leases[i].agent_id@),
                retry_after_ms: None,
            }
        } else {
            SpecVerdict {
                status: VerdictStatus::Die,
                reason: Some(spec_die_reason(requester_priority, holder_priority)),
                held_by: Some(leases[i].agent_id@),
                retry_after_ms: Some(1000u64),
            }
        }
    } else {
        spec_decide_from(agent, pred, key, leases, prios, requester_priority, i + 1)
    }
}

/// The complete Wait-Die decision: grant when nobody conflicts, fail
/// closed when the requester has no priority, and otherwise let the first
/// prioritised conflicting holder decide.
pub open spec fn spec_decide(
    agent: Seq<char>,
    pred: Predicate,
    key: Seq<char>,
    leases: Seq<Lease>,
    prios: Map<Seq<char>, u64>,
) -> SpecVerdict {
    if !has_conflicting_holder(leases, agent, pred, key) {
        spec_granted()
    } else if !prios.contains_key(agent) {
        SpecVerdict {
            status: VerdictStatus::Die,
            reason: Some(spec_missing_priority_reason()),
            held_by: None,
            retry_after_ms: Some(1000u64),
        }
    } else {
        spec_decide_from(agent, pred, key, leases, prios, prios[agent], 0)
    }
}

fn wait_reason(requester: u64, holder: u64) -> (r: String)
    ensures
        r@ == spec_wait_reason(requester, holder),
{
    let mut s = "Senior (".to_owned();
    let rp = u64_to_string(requester);
    s.append(rp.as_str());
    s.append(") waiting for Junior (");
    let hp = u64_to_string(holder);
    s.append(hp.as_str());
    s.append(") to complete.");
    s
}

fn die_reason(requester: u64, holder: u64) -> (r: String)
    ensures
        r@ == spec_die_reason(requester, holder),
{
    let mut s = "Conflict: Senior (".to_owned();
    let hp = u64_to_string(holder);
    s.append(hp.as_str());
    s.append(") vs Junior (");
    let rp = u64_to_string(requester);
    s.append(rp.as_str());
    s.append("). Junior must DIE.");
    s
}

/// The stateless Wait-Die deadlock-avoidance scheduler.
pub struct WaitDieScheduler;

impl WaitDieScheduler {
    /// Decides a request against the active leases: `Granted` when no
    /// other agent holds an incompatible lease on the resource, `Die` when
    /// the requester has no registered priority, and otherwise `Wait` or
    /// `Die` by seniority against the first prioritised conflicting
    /// holder.
    pub fn decide(
        requesting_agent_id: &str,
        requesting_predicate: Predicate,
        resource: &ResourceRef,
        active_leases: &[Lease],
        priorities: &PriorityMap,
    ) -> (v: SchedulerVerdict)
        ensures
            verdict_matches(
                v,
                spec_decide(
                    requesting_agent_id@,
                    requesting_predicate,
                    spec_key(*resource),
                    active_leases@,
                    priorities@,
                ),
            ),
    {
        let key = resource.key();
        let n = active_leases.len();

        // 1. Is any conflicting holder present at all?
        let mut found = false;
        let mut i: usize = 0;
        while i < n
            invariant
                n == active_leases@.len(),
                i <= n,
                key@ == spec_key(*resource),
                found == exists|j: int|
                    0 <= j < i && holder_conflicts(
                        active_leases@[j],
                        requesting_agent_id@,
                        requesting_predicate,
                        key@,
                    ),
            decreases n - i,
        {
            let lease = &active_leases[i];
            let lkey = lease.resource.key();
            if str_eq(lkey.as_str(), key.as_str()) && !str_eq(
                lease.agent_id.as_str(),
                requesting_agent_id,
            ) && ConflictEngine::check_pair(lease.predicate, requesting_predicate) {
                found = true;
            }
            i = i + 1;
        }
        if !found {
            return SchedulerVerdict {
                status: VerdictStatus::Granted,
                reason: None,
                held_by: None,
                retry_after_ms: None,
            };
        }

        // 2. Fetch the requester's priority; without one, fail closed.
        let requester_priority = match priorities.get(requesting_agent_id) {
            Some(p) => p,
            None => {
                return SchedulerVerdict {
                    status: VerdictStatus::Die,
                    reason: Some("Missing agent priority. Cannot ensure deadlock safety.".to_owned()),
                    held_by: None,
                    retry_after_ms: Some(1000),
                };
            },
        };

        // 3. The first conflicting holder with a known priority decides.
        let mut i: usize = 0;
        while i < n
            invariant
                n == active_leases@.len(),
                i <= n,
                key@ == spec_key(*resource),
                has_conflicting_holder(
                    active_leases@,
                    requesting_agent_id@,
                    requesting_predicate,
                    key@,
                ),
                priorities@.contains_key(requesting_agent_id@),
                requester_priority == priorities@[requesting_agent_id@],
                spec_decide_from(
                    requesting_agent_id@,
                    requesting_predicate,
                    key@,
                    active_leases@,
                    priorities@,
                    requester_priority,
                    0,
                ) == spec_decide_from(
                    requesting_agent_id@,
                    requesting_predicate,
                    key@,
                    active_leases@,
                    priorities@,
                    requester_priority,
                    i as int,
                ),
            decreases n - i,
        {
            let lease = &active_leases[i];
            let lkey = lease.resource.key();
            if str_eq(lkey.as_str(), key.as_str()) && !str_eq(
                lease.agent_id.as_str(),
                requesting_agent_id,
            ) && ConflictEngine::check_pair(lease.predicate, requesting_predicate) {
                match priorities.get(lease.agent_id.as_str()) {
                    Some(holder_priority) => {
                        if requester_priority < holder_priority {
                            // Requester is older (senior): wait.
                            return SchedulerVerdict {
                                status: VerdictStatus::Wait,
                                reason: Some(wait_reason(requester_priority, holder_priority)),
                                held_by: Some(lease.agent_id.clone()),
                                retry_after_ms: None,
                            };
                        } else {
                            // Requester is younger (junior): die.
                            return SchedulerVerdict {
                                status: VerdictStatus::Die,
                                reason: Some(die_reason(requester_priority, holder_priority)),
                                held_by: Some(lease.agent_id.clone()),
                                retry_after_ms: Some(1000),
                            };
                        }
                    },
                    None => {
                        // A holder without a priority is treated as younger.
                    },
                }
            }
            i = i + 1;
        }

        SchedulerVerdict {
            status: VerdictStatus::Granted,
            reason: None,
            held_by: None,
            retry_after_ms: None,
        }
    }
}

/// A `Wait` verdict always names a holder, and the requester's priority is
/// strictly below the holder's: seniors wait only for juniors.
pub proof fn lemma_wait_names_junior_from(
    agent: Seq<char>,
    pred: Predicate,
    key: Seq<char>,
    leases: Seq<Lease>,
    prios: Map<Seq<char>, u64>,
    requester_priority: u64,
    i: int,
)
    requires
        spec_decide_from(agent, pred, key, leases, prios, requester_priority, i).status
            is Wait,
    ensures
        ({
            let sd = spec_decide_from(agent, pred, key, leases, prios, requester_priority, i);
            &&& sd.held_by is Some
            &&& prios.contains_key(sd.held_by->0)
            &&& requester_priority < prios[sd.held_by->0]
        }),
    decreases leases.len() - i,
{
    if i < 0 || i >= leases.len() {
    } else if holder_conflicts(leases[i], agent, pred, key) && prios.contains_key(
        leases[i].agent_id@,
    ) {
    } else {
        lemma_wait_names_junior_from(agent, pred, key, leases, prios, requester_priority, i + 1);
    }
}

/// Wait-Die's key invariant: whenever the scheduler tells an agent to
/// wait, the waiting agent's priority is strictly below the priority of
/// the agent it waits for.
pub proof fn lemma_wait_implies_senior(
    agent: Seq<char>,
    pred: Predicate,
    key: Seq<char>,
    leases: Seq<Lease>,
    prios: Map<Seq<char>, u64>,
)
    requires
        spec_decide(agent, pred, key, leases, prios).status is Wait,
    ensures
        ({
            let sd = spec_decide(agent, pred, key, leases, prios);
            &&& prios.contains_key(agent)
            &&& sd.held_by is Some
            &&& prios.contains_key(sd.held_by->0)
            &&& prios[agent] < prios[sd.held_by->0]
        }),
{
    lemma_wait_names_junior_from(agent, pred, key, leases, prios, prios[agent], 0);
}

/// Reentrant safety for acquisition: when every lease on the requested
/// resource key belongs to the requesting agent itself, the Wait-Die
/// decision is `Granted`, whatever the predicate and whatever is
/// registered — an agent never conflicts with its own holdings.
pub proof fn lemma_own_holdings_grant(
    agent: Seq<char>,
    pred: Predicate,
    key: Seq<char>,
    leases: Seq<Lease>,
    prios: Map<Seq<char>, u64>,
)
    requires
        forall|j: int|
            0 <= j < leases.len() && spec_key(leases[j].resource) == key ==> leases[j].agent_id@
                == agent,
    ensures
        spec_decide(agent, pred, key, leases, prios).status is Granted,
{
    assert(!has_conflicting_holder(leases, agent, pred, key)) by {
        if exists|j: int|
            0 <= j < leases.len() && holder_conflicts(leases[j], agent, pred, key) {
            let j = choose|j: int|
                0 <= j < leases.len() && holder_conflicts(leases[j], agent, pred, key);
            assert(spec_key(leases[j].resource) == key);
        }
    }
}

/// Missing priority fails closed: as soon as any conflicting holder
/// exists, an unregistered requester is told to die (with a retry delay),
/// never granted.
pub proof fn lemma_missing_priority_dies(
    agent: Seq<char>,
    pred: Predicate,
    key: Seq<char>,
    leases: Seq<Lease>,
    prios: Map<Seq<char>, u64>,
)
    requires
        has_conflicting_holder(leases, agent, pred, key),
        !prios.contains_key(agent),
    ensures
        spec_decide(agent, pred, key, leases, prios).status is Die,
        spec_decide(agent, pred, key, leases, prios).retry_after_ms == Some(1000u64),
{
}

/// The next position around a cycle of `n` agents.
pub open spec fn next_in_cycle(k: int, n: int) -> int {
    if k + 1 == n {
        0
    } else {
        k + 1
    }
}

/// Agent `k` of the cycle is told to wait for agent `k + 1 (mod n)`.
pub open spec fn waits_for_next(
    prios: Map<Seq<char>, u64>,
    agents: Seq<Seq<char>>,
    preds: Seq<Predicate>,
    keys: Seq<Seq<char>>,
    leases: Seq<Seq<Lease>>,
    k: int,
) -> bool {
    let sd = spec_decide(agents[k], preds[k], keys[k], leases[k], prios);
    sd.status is Wait && sd.held_by == Some(agents[next_in_cycle(k, agents.len() as int)])
}

proof fn lemma_wait_chain_increases(
    prios: Map<Seq<char>, u64>,
    agents: Seq<Seq<char>>,
    preds: Seq<Predicate>,
    keys: Seq<Seq<char>>,
    leases: Seq<Seq<Lease>>,
    k: int,
)
    requires
        agents.len() > 0,
        preds.len() == agents.len(),
        keys.len() == agents.len(),
        leases.len() == agents.len(),
        forall|j: int| 0 <= j < k ==> waits_for_next(prios, agents, preds, keys, leases, j),
        1 <= k < agents.len(),
    ensures
        prios.contains_key(agents[0]) && prios.contains_key(agents[k]),
        prios[agents[0]] < prios[agents[k]],
    decreases k,
{
    assert(waits_for_next(prios, agents, preds, keys, leases, k - 1));
    lemma_wait_implies_senior(agents[k - 1], preds[k - 1], keys[k - 1], leases[k - 1], prios);
    if k > 1 {
        lemma_wait_chain_increases(prios, agents, preds, keys, leases, k - 1);
    }
}

/// Wait-Die deadlock-freedom: no cycle of agents can exist in which every
/// agent is told to wait for the next one around the cycle.  Priorities
/// rise strictly along every wait edge, so once each agent in a chain
/// waits for the next, the last agent can never be told to wait for the
/// first: any cycle of conflicts contains a `Die`.
pub proof fn lemma_no_wait_cycle(
    prios: Map<Seq<char>, u64>,
    agents: Seq<Seq<char>>,
    preds: Seq<Predicate>,
    keys: Seq<Seq<char>>,
    leases: Seq<Seq<Lease>>,
)
    requires
        agents.len() > 0,
        preds.len() == agents.len(),
        keys.len() == agents.len(),
        leases.len() == agents.len(),
        forall|j: int|
            0 <= j < agents.len() - 1 ==> waits_for_next(prios, agents, preds, keys, leases, j),
    ensures
        !waits_for_next(prios, agents, preds, keys, leases, agents.len() - 1),
{
    let n = agents.len() as int;
    if waits_for_next(prios, agents, preds, keys, leases, n - 1) {
        lemma_wait_implies_senior(agents[n - 1], preds[n - 1], keys[n - 1], leases[n - 1], prios);
        if n == 1 {
            // The single agent would wait for itself: its priority would
            // have to be strictly below itself.
        } else {
            // The chain makes agents[n - 1] strictly junior to agents[0],
            // while the closing edge makes it strictly senior: absurd.
            lemma_wait_chain_increases(prios, agents, preds, keys, leases, n - 1);
        }
    }
}

} // verus!
