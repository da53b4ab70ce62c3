//! The kernel: reduces a batch of intents against a state snapshot to one
//! verdict, worst outcome winning (`Die` over `Wait` over `Granted`).

use vstd::prelude::*;
use vstd::string::StringExecFns;
use crate::primitives::{SPOTriple, spec_key};
use crate::lease::Lease;
use crate::conflict::{
    ConflictEngine,
    ConflictResult,
    spec_conflict_reason,
    spec_first_blocker,
};
use crate::priority::PriorityMap;
use crate::scheduler::{
    SpecVerdict,
    VerdictStatus,
    WaitDieScheduler,
    spec_decide,
    verdict_matches,
    view_opt,
};

verus! {

/// A batch of intents submitted together by one `(agent, session)` pair.
/// The kernel answers with a single verdict for the whole batch.
#[derive(Debug, Clone)]
pub struct IntentManifest {
    pub session_id: String,
    pub agent_id: String,
    pub intents: Vec<SPOTriple>,
}

/// A consistent view of the world at decision time: the active leases, the
/// active intents, and the priority map.  It is immutable for the duration
/// of one kernel call.
#[derive(Debug)]
pub struct StateSnapshot {
    pub active_leases: Vec<Lease>,
    pub active_intents: Vec<SPOTriple>,
    pub priorities: PriorityMap,
}

/// Kernel-level verdict status for a whole manifest.
#[derive(Debug, Clone, Copy, PartialEq, Eq, Structural)]
pub enum KernelVerdictStatus {
    Granted,
    Wait,
    Die,
}

/// The kernel's answer for one manifest: the worst status over the batch,
/// the details of the decisive scheduler call, and every conflict observed.
#[derive(Debug, Clone)]
pub struct KernelVerdict {
    pub agent_id: String,
    pub session_id: String,
    pub status: KernelVerdictStatus,
    pub reason: Option<String>,
    pub held_by: Option<String>,
    pub conflicts: Vec<String>,
    pub retry_after_ms: Option<u64>,
}

/// The mathematical shadow of a kernel verdict (without the agent and
/// session, which are copied from the manifest).
pub struct SpecOutcome {
    pub status: KernelVerdictStatus,
    pub reason: Option<Seq<char>>,
    pub held_by: Option<Seq<char>>,
    pub retry_after_ms: Option<u64>,
    pub conflicts: Seq<Seq<char>>,
}

/// The outcome before any intent has been examined.
pub open spec fn spec_initial_outcome() -> SpecOutcome {
    SpecOutcome {
        status: KernelVerdictStatus::Granted,
        reason: None,
        held_by: None,
        retry_after_ms: None,
        conflicts: Seq::empty(),
    }
}

/// The message recorded when an intent is clean against the declared
/// intents but the scheduler still finds a conflicting lease.
pub open spec fn spec_lease_conflict_note(intent: SPOTriple) -> Seq<char> {
    "Conflict with active lease on "@ + spec_key(intent.object)
}

/// Folds one scheduler verdict into the running outcome: `Die` always
/// takes over (including the retry delay); `Wait` takes over unless a
/// `Die` was already seen; `Granted` changes nothing.
pub open spec fn spec_fold_verdict(acc: SpecOutcome, sd: SpecVerdict) -> SpecOutcome {
    match sd.status {
        VerdictStatus::Granted => acc,
        VerdictStatus::Wait => {
            if acc.status is Die {
                acc
            } else {
                SpecOutcome {
                    status: KernelVerdictStatus::Wait,
                    reason: sd.reason,
                    held_by: sd.held_by,
                    ..acc
                }
            }
        },
        VerdictStatus::Die => SpecOutcome {
            status: KernelVerdictStatus::Die,
            reason: sd.reason,
            held_by: sd.held_by,
            retry_after_ms: sd.retry_after_ms,
            ..acc
        },
    }
}

/// Processes one intent of the manifest: records the conflict reason (from
/// the intent check, or a lease-conflict note when only the scheduler
/// objects) and folds the scheduler's verdict into the outcome.
pub open spec fn spec_execute_step(
    leases: Seq<Lease>,
    snapshot_intents: Seq<SPOTriple>,
    prios: Map<Seq<char>, u64>,
    agent: Seq<char>,
    intent: SPOTriple,
    acc: SpecOutcome,
) -> SpecOutcome {
    let sd = spec_decide(agent, intent.predicate, spec_key(intent.object), leases, prios);
    match spec_first_blocker(intent, snapshot_intents, 0) {
        Some(b) => spec_fold_verdict(
            SpecOutcome {
                conflicts: acc.conflicts.push(spec_conflict_reason(snapshot_intents[b], intent)),
                ..acc
            },
            sd,
        ),
        None => {
            if !(sd.status is Granted) {
                spec_fold_verdict(
                    SpecOutcome {
                        conflicts: acc.conflicts.push(spec_lease_conflict_note(intent)),
                        ..acc
                    },
                    sd,
                )
            } else {
                acc
            }
        },
    }
}

/// The outcome of the whole manifest from intent `i` on, starting from
/// `acc`.
pub open spec fn spec_execute_from(
    leases: Seq<Lease>,
    snapshot_intents: Seq<SPOTriple>,
    prios: Map<Seq<char>, u64>,
    agent: Seq<char>,
    intents: Seq<SPOTriple>,
    i: int,
    acc: SpecOutcome,
) -> SpecOutcome
    decreases intents.len() - i,
{
    if i < 0 || i >= intents.len() {
        acc
    } else {
        spec_execute_from(
            leases,
            snapshot_intents,
            prios,
            agent,
            intents,
            i + 1,
            spec_execute_step(leases, snapshot_intents, prios, agent, intents[i], acc),
        )
    }
}

/// The kernel's outcome for a manifest against a snapshot.
pub open spec fn spec_execute(
    leases: Seq<Lease>,
    snapshot_intents: Seq<SPOTriple>,
    prios: Map<Seq<char>, u64>,
    agent: Seq<char>,
    intents: Seq<SPOTriple>,
) -> SpecOutcome {
    spec_execute_from(
        leases,
        snapshot_intents,
        prios,
        agent,
        intents,
        0,
        spec_initial_outcome(),
    )
}

/// The contents of a list of strings.
pub open spec fn view_strings(v: Seq<String>) -> Seq<Seq<char>> {
    v.map_values(|s: String| s@)
}

/// The stateless manifest evaluator.
pub struct KlockKernel;

impl KlockKernel {
    /// Reduces a manifest against a snapshot to a single verdict.  Every
    /// intent is checked against the declared intents and decided by the
    /// Wait-Die scheduler against the active leases; `Die` dominates
    /// `Wait`, which dominates `Granted`, and every conflict observed is
    /// reported.
    pub fn execute(state: &StateSnapshot, manifest: &IntentManifest) -> (v: KernelVerdict)
        ensures
            ({
                let o = spec_execute(
                    state.active_leases@,
                    state.active_intents@,
                    state.priorities@,
                    manifest.agent_id@,
                    manifest.intents@,
                );
                &&& v.agent_id@ == manifest.agent_id@
                &&& v.session_id@ == manifest.session_id@
                &&& v.status == o.status
                &&& view_opt(v.reason) == o.reason
                &&& view_opt(v.held_by) == o.held_by
                &&& v.retry_after_ms == o.retry_after_ms
                &&& view_strings(v.conflicts@) == o.conflicts
            }),
    {
        let mut conflicts: Vec<String> = Vec::new();
        let mut worst_status = KernelVerdictStatus::Granted;
        let mut return_reason: Option<String> = None;
        let mut return_held_by: Option<String> = None;
        let mut return_retry: Option<u64> = None;

        proof {
            assert(view_strings(conflicts@) =~= Seq::<Seq<char>>::empty());
        }
        let n = manifest.intents.len();
        let mut i: usize = 0;
        while i < n
            invariant
                n == manifest.intents@.len(),
                i <= n,
                spec_execute(
                    state.active_leases@,
                    state.active_intents@,
                    state.priorities@,
                    manifest.agent_id@,
                    manifest.intents@,
                ) == spec_execute_from(
                    state.active_leases@,
                    state.active_intents@,
                    state.priorities@,
                    manifest.agent_id@,
                    manifest.intents@,
                    i as int,
                    SpecOutcome {
                        status: worst_status,
                        reason: view_opt(return_reason),
                        held_by: view_opt(return_held_by),
                        retry_after_ms: return_retry,
                        conflicts: view_strings(conflicts@),
                    },
                ),
            decreases n - i,
        {
            let ghost acc = SpecOutcome {
                status: worst_status,
                reason: view_opt(return_reason),
                held_by: view_opt(return_held_by),
                retry_after_ms: return_retry,
                conflicts: view_strings(conflicts@),
            };
            let intent = &manifest.intents[i];

            // 1. Check for conflicts among the declared intents.
            let conflict_result = ConflictEngine::check(intent, state.active_intents.as_slice());

            // 2. Decide the intent against the active leases.
            let scheduler_verdict = WaitDieScheduler::decide(
                manifest.agent_id.as_str(),
                intent.predicate,
                &intent.object,
                state.active_leases.as_slice(),
                &state.priorities,
            );
            let ghost sd = spec_decide(
                manifest.agent_id@,
                intent.predicate,
                spec_key(intent.object),
                state.active_leases@,
                state.priorities@,
            );

            let mut noted = false;
            match conflict_result {
                ConflictResult::Conflict { reason } => {
                    conflicts.push(reason);
                    noted = true;
                },
                ConflictResult::NoConflict => {
                    if !matches!(scheduler_verdict.status, VerdictStatus::Granted) {
                        let mut note = "Conflict with active lease on ".to_owned();
                        let key = intent.object.key();
                        note.append(key.as_str());
                        conflicts.push(note);
                        noted = true;
                    }
                },
            }
            proof {
                if noted {
                    assert(view_strings(conflicts@) =~= acc.conflicts.push(
                        conflicts@.last()@,
                    ));
                }
            }

            // 3. Fold the scheduler verdict into the running status.
            if noted {
                match scheduler_verdict.status {
                    VerdictStatus::Wait => {
                        if !matches!(worst_status, KernelVerdictStatus::Die) {
                            worst_status = KernelVerdictStatus::Wait;
                            return_reason = scheduler_verdict.reason;
                            return_held_by = scheduler_verdict.held_by;
                        }
                    },
                    VerdictStatus::Die => {
                        worst_status = KernelVerdictStatus::Die;
                        return_reason = scheduler_verdict.reason;
                        return_held_by = scheduler_verdict.held_by;
                        return_retry = scheduler_verdict.retry_after_ms;
                    },
                    VerdictStatus::Granted => {},
                }
            }
            proof {
                assert(spec_execute_step(
                    state.active_leases@,
                    state.active_intents@,
                    state.priorities@,
                    manifest.agent_id@,
                    manifest.intents@[i as int],
                    acc,
                ) == SpecOutcome {
                    status: worst_status,
                    reason: view_opt(return_reason),
                    held_by: view_opt(return_held_by),
                    retry_after_ms: return_retry,
                    conflicts: view_strings(conflicts@),
                });
            }
            i = i + 1;
        }

        KernelVerdict {
            agent_id: manifest.agent_id.clone(),
            session_id: manifest.session_id.clone(),
            status: worst_status,
            reason: return_reason,
            held_by: return_held_by,
            conflicts,
            retry_after_ms: return_retry,
        }
    }
}

} // verus!
