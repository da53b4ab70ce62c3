//! The conflict engine: a constant compatibility matrix over predicate
//! pairs, and checks of a new intent against existing intents or leases.

use vstd::prelude::*;
use vstd::string::StringExecFns;
use crate::primitives::{Predicate, ResourceRef, SPOTriple, spec_key, str_eq};
use crate::lease::Lease;

verus! {

/// The compatibility matrix, `M[held][requesting]`, as a predicate: `true`
/// means the pair may coexist on one resource.  Multiple reads are
/// compatible; `Mutates`, `Deletes` and `Renames` conflict with everything,
/// themselves included; `Provides` and `DependsOn` sit with readers and each
/// other but not with writers.  The matrix is looked up as held-then-
/// requesting, never the reverse.
pub open spec fn spec_compatible(held: Predicate, requesting: Predicate) -> bool {
    match held {
        Predicate::Provides => requesting is Consumes || requesting is DependsOn,
        Predicate::Consumes => requesting is Provides || requesting is Consumes
            || requesting is DependsOn,
        Predicate::Mutates => false,
        Predicate::Deletes => false,
        Predicate::DependsOn => requesting is Provides || requesting is Consumes
            || requesting is DependsOn,
        Predicate::Renames => false,
    }
}

/// An existing intent blocks a new one when both name the same resource
/// key, they come from a different `(agent, session)` pair, and the held
/// predicate is incompatible with the requested one.
pub open spec fn triple_blocks(existing: SPOTriple, new: SPOTriple) -> bool {
    spec_key(existing.object) == spec_key(new.object) && !(existing.subject@ == new.subject@
        && existing.session_id@ == new.session_id@) && !spec_compatible(
        existing.predicate,
        new.predicate,
    )
}

/// An active lease blocks a request for `pred` on `key` by
/// `(agent, session)` under the same rule as [`triple_blocks`].
pub open spec fn lease_blocks(
    l: Lease,
    agent: Seq<char>,
    session: Seq<char>,
    pred: Predicate,
    key: Seq<char>,
) -> bool {
    spec_key(l.resource) == key && !(l.agent_id@ == agent && l.session_id@ == session)
        && !spec_compatible(l.predicate, pred)
}

/// The position of the first existing intent that blocks `new`, looking
/// from position `i` on.
pub open spec fn spec_first_blocker(new: SPOTriple, intents: Seq<SPOTriple>, i: int) -> Option<int>
    decreases intents.len() - i,
{
    if i < 0 || i >= intents.len() {
        None
    } else if triple_blocks(intents[i], new) {
        Some(i)
    } else {
        spec_first_blocker(new, intents, i + 1)
    }
}

/// The position of the first active lease that blocks the request,
/// looking from position `i` on.
pub open spec fn spec_first_lease_blocker(
    agent: Seq<char>,
    session: Seq<char>,
    pred: Predicate,
    key: Seq<char>,
    leases: Seq<Lease>,
    i: int,
) -> Option<int>
    decreases leases.len() - i,
{
    if i < 0 || i >= leases.len() {
        None
    } else if lease_blocks(leases[i], agent, session, pred, key) {
        Some(i)
    } else {
        spec_first_lease_blocker(agent, session, pred, key, leases, i + 1)
    }
}

/// What the first-blocker position means: `None` exactly when nothing
/// from position `i` on blocks, and `Some(b)` exactly for the earliest
/// blocking position.
pub proof fn lemma_first_blocker_characterizes(new: SPOTriple, intents: Seq<SPOTriple>, i: int)
    requires
        0 <= i <= intents.len(),
    ensures
        (spec_first_blocker(new, intents, i) is None) <==> (forall|j: int|
            i <= j < intents.len() ==> !triple_blocks(intents[j], new)),
        spec_first_blocker(new, intents, i) matches Some(b) ==> i <= b < intents.len()
            && triple_blocks(intents[b], new) && (forall|j: int|
            i <= j < b ==> !triple_blocks(intents[j], new)),
    decreases intents.len() - i,
{
    if i < intents.len() && !triple_blocks(intents[i], new) {
        lemma_first_blocker_characterizes(new, intents, i + 1);
    }
}

/// The lease analogue of [`lemma_first_blocker_characterizes`].
pub proof fn lemma_first_lease_blocker_characterizes(
    agent: Seq<char>,
    session: Seq<char>,
    pred: Predicate,
    key: Seq<char>,
    leases: Seq<Lease>,
    i: int,
)
    requires
        0 <= i <= leases.len(),
    ensures
        (spec_first_lease_blocker(agent, session, pred, key, leases, i) is None) <==> (
        forall|j: int| i <= j < leases.len() ==> !lease_blocks(leases[j], agent, session, pred, key)),
        spec_first_lease_blocker(agent, session, pred, key, leases, i) matches Some(b) ==> i <= b
            < leases.len() && lease_blocks(leases[b], agent, session, pred, key) && (forall|j: int|
            i <= j < b ==> !lease_blocks(leases[j], agent, session, pred, key)),
    decreases leases.len() - i,
{
    if i < leases.len() && !lease_blocks(leases[i], agent, session, pred, key) {
        lemma_first_lease_blocker_characterizes(agent, session, pred, key, leases, i + 1);
    }
}

/// The display name of a predicate.
pub open spec fn spec_predicate_name(p: Predicate) -> Seq<char> {
    match p {
        Predicate::Provides => "Provides"@,
        Predicate::Consumes => "Consumes"@,
        Predicate::Mutates => "Mutates"@,
        Predicate::Deletes => "Deletes"@,
        Predicate::DependsOn => "DependsOn"@,
        Predicate::Renames => "Renames"@,
    }
}

/// Renders the display name of a predicate.
pub fn predicate_name(p: Predicate) -> (r: &'static str)
    ensures
        r@ == spec_predicate_name(p),
{
    match p {
        Predicate::Provides => "Provides",
        Predicate::Consumes => "Consumes",
        Predicate::Mutates => "Mutates",
        Predicate::Deletes => "Deletes",
        Predicate::DependsOn => "DependsOn",
        Predicate::Renames => "Renames",
    }
}

/// The reason reported when `existing` blocks `new`.
pub open spec fn spec_conflict_reason(existing: SPOTriple, new: SPOTriple) -> Seq<char> {
    "Agent "@ + new.subject@ + "'s "@ + spec_predicate_name(new.predicate)
        + " operation conflicts with Agent "@ + existing.subject@ + "'s held "@
        + spec_predicate_name(existing.predicate) + " operation on "@ + spec_key(new.object)
}

/// The reason reported when an active lease blocks a request.
pub open spec fn spec_lease_reason(requesting: Predicate, held: Predicate) -> Seq<char> {
    "Conflict: "@ + spec_predicate_name(requesting) + " vs held "@ + spec_predicate_name(held)
}

fn conflict_reason(existing: &SPOTriple, new: &SPOTriple) -> (r: String)
    ensures
        r@ == spec_conflict_reason(*existing, *new),
{
    let mut s = "Agent ".to_owned();
    s.append(new.subject.as_str());
    s.append("'s ");
    s.append(predicate_name(new.predicate));
    s.append(" operation conflicts with Agent ");
    s.append(existing.subject.as_str());
    s.append("'s held ");
    s.append(predicate_name(existing.predicate));
    s.append(" operation on ");
    let key = new.object.key();
    s.append(key.as_str());
    s
}

fn lease_reason(requesting: Predicate, held: Predicate) -> (r: String)
    ensures
        r@ == spec_lease_reason(requesting, held),
{
    let mut s = "Conflict: ".to_owned();
    s.append(predicate_name(requesting));
    s.append(" vs held ");
    s.append(predicate_name(held));
    s
}

/// Outcome of a conflict check.
#[derive(Debug, Clone, PartialEq, Eq)]
pub enum ConflictResult {
    /// No conflict found
    NoConflict,
    /// A conflict was detected
    Conflict { reason: String },
}

/// A pure engine for constant-time conflict detection over the
/// compatibility matrix.
pub struct ConflictEngine;

impl ConflictEngine {
    /// Answers whether two predicates conflict: `true` exactly when the
    /// matrix marks the pair incompatible.
    pub fn check_pair(held: Predicate, requesting: Predicate) -> (conflict: bool)
        ensures
            conflict == !spec_compatible(held, requesting),
    {
        let compatible = match held {
            Predicate::Provides => matches!(requesting, Predicate::Consumes | Predicate::DependsOn),
            Predicate::Consumes => matches!(
                requesting,
                Predicate::Provides | Predicate::Consumes | Predicate::DependsOn
            ),
            Predicate::Mutates => false,
            Predicate::Deletes => false,
            Predicate::DependsOn => matches!(
                requesting,
                Predicate::Provides | Predicate::Consumes | Predicate::DependsOn
            ),
            Predicate::Renames => false,
        };
        !compatible
    }

    /// Checks a new intent against existing intents.  Returns `NoConflict` exactly
    /// when no existing intent blocks the new one; otherwise reports the
    /// first blocking intent.
    pub fn check(new_triple: &SPOTriple, existing_triples: &[SPOTriple]) -> (r: ConflictResult)
        ensures
            ({
                let fb = spec_first_blocker(*new_triple, existing_triples@, 0);
                match r {
                    ConflictResult::NoConflict => fb is None,
                    ConflictResult::Conflict { reason } => fb is Some && reason@
                        == spec_conflict_reason(existing_triples@[fb->0], *new_triple),
                }
            }),
    {
        let key = new_triple.object.key();
        let n = existing_triples.len();
        let mut i: usize = 0;
        while i < n
            invariant
                n == existing_triples@.len(),
                i <= n,
                key@ == spec_key(new_triple.object),
                spec_first_blocker(*new_triple, existing_triples@, 0) == spec_first_blocker(
                    *new_triple,
                    existing_triples@,
                    i as int,
                ),
            decreases n - i,
        {
            let existing = &existing_triples[i];
            let ekey = existing.object.key();
            if str_eq(ekey.as_str(), key.as_str()) && !(str_eq(
                existing.subject.as_str(),
                new_triple.subject.as_str(),
            ) && str_eq(existing.session_id.as_str(), new_triple.session_id.as_str()))
                && Self::check_pair(existing.predicate, new_triple.predicate) {
                return ConflictResult::Conflict { reason: conflict_reason(existing, new_triple) };
            }
            i = i + 1;
        }
        ConflictResult::NoConflict
    }

    /// Checks a requested predicate against the active leases, skipping
    /// leases held by the requesting `(agent, session)` pair itself.
    /// Returns `NoConflict` exactly when no lease blocks the request; otherwise
    /// reports the first blocking lease.
    pub fn check_against_leases(
        requesting_agent: &str,
        requesting_session: &str,
        requesting_predicate: Predicate,
        resource_key: &str,
        active_leases: &[Lease],
    ) -> (r: ConflictResult)
        ensures
            ({
                let fb = spec_first_lease_blocker(
                    requesting_agent@,
                    requesting_session@,
                    requesting_predicate,
                    resource_key@,
                    active_leases@,
                    0,
                );
                match r {
                    ConflictResult::NoConflict => fb is None,
                    ConflictResult::Conflict { reason } => fb is Some && reason@
                        == spec_lease_reason(requesting_predicate, active_leases@[fb->0].predicate),
                }
            }),
    {
        let n = active_leases.len();
        let mut i: usize = 0;
        while i < n
            invariant
                n == active_leases@.len(),
                i <= n,
                spec_first_lease_blocker(
                    requesting_agent@,
                    requesting_session@,
                    requesting_predicate,
                    resource_key@,
                    active_leases@,
                    0,
                ) == spec_first_lease_blocker(
                    requesting_agent@,
                    requesting_session@,
                    requesting_predicate,
                    resource_key@,
                    active_leases@,
                    i as int,
                ),
            decreases n - i,
        {
            let lease = &active_leases[i];
            let lkey = lease.resource.key();
            if str_eq(lkey.as_str(), resource_key) && !(str_eq(
                lease.agent_id.as_str(),
                requesting_agent,
            ) && str_eq(lease.session_id.as_str(), requesting_session)) && Self::check_pair(
                lease.predicate,
                requesting_predicate,
            ) {
                return ConflictResult::Conflict {
                    reason: lease_reason(requesting_predicate, lease.predicate),
                };
            }
            i = i + 1;
        }
        ConflictResult::NoConflict
    }
}

/// The matrix diagonal: a predicate may coexist with itself exactly when it
/// is `Consumes` or `DependsOn`; every other predicate conflicts with a
/// second request for the same verb.
pub proof fn lemma_matrix_diagonal(p: Predicate)
    ensures
        spec_compatible(p, p) <==> (p is Consumes || p is DependsOn),
{
}

/// A self-conflicting predicate requested by two different agents on the
/// same resource key is always reported as a conflict, and a
/// self-compatible predicate never is.
pub proof fn lemma_diagonal_blocks(existing: SPOTriple, new: SPOTriple)
    requires
        existing.predicate == new.predicate,
        spec_key(existing.object) == spec_key(new.object),
        existing.subject@ != new.subject@,
    ensures
        triple_blocks(existing, new) <==> !spec_compatible(new.predicate, new.predicate),
{
}

/// Reentrant safety: an intent never conflicts with prior intents of the
/// same `(agent, session)` pair, whatever the predicates and resources.
pub proof fn lemma_reentrant_intents(new: SPOTriple, existing: Seq<SPOTriple>)
    requires
        forall|j: int|
            0 <= j < existing.len() ==> existing[j].subject@ == new.subject@
                && existing[j].session_id@ == new.session_id@,
    ensures
        forall|j: int| 0 <= j < existing.len() ==> !triple_blocks(existing[j], new),
{
}

/// Reentrant safety for leases: a request never conflicts with leases held
/// by the same `(agent, session)` pair.
pub proof fn lemma_reentrant_leases(
    agent: Seq<char>,
    session: Seq<char>,
    pred: Predicate,
    key: Seq<char>,
    leases: Seq<Lease>,
)
    requires
        forall|j: int|
            0 <= j < leases.len() ==> leases[j].agent_id@ == agent && leases[j].session_id@
                == session,
    ensures
        forall|j: int| 0 <= j < leases.len() ==> !lease_blocks(leases[j], agent, session, pred, key),
{
}

/// Resource isolation: intents on different resource keys never conflict.
pub proof fn lemma_resource_isolation(existing: SPOTriple, new: SPOTriple)
    requires
        spec_key(existing.object) != spec_key(new.object),
    ensures
        !triple_blocks(existing, new),
{
}

} // verus!
