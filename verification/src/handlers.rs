//! Wire-level request/response shapes and their validation.  Validation
//! runs at the edge; rejected input never reaches the kernel.

use vstd::prelude::*;
use vstd::string::StringExecFns;
use crate::primitives::str_eq;
use crate::text::{spec_decimal, to_upper, u64_to_string, upper_of};

verus! {

/// Whether an (already uppercased) word names a predicate.
pub open spec fn spec_valid_predicate(u: Seq<char>) -> bool {
    u == "PROVIDES"@ || u == "CONSUMES"@ || u == "MUTATES"@ || u == "DELETES"@ || u
        == "DEPENDS_ON"@ || u == "RENAMES"@
}

/// Whether an (already uppercased) word names a resource type.
pub open spec fn spec_valid_resource_type(u: Seq<char>) -> bool {
    u == "FILE"@ || u == "SYMBOL"@ || u == "API_ENDPOINT"@ || u == "DATABASE_TABLE"@ || u
        == "CONFIG_KEY"@
}

/// The message rejecting an unknown predicate word.
pub open spec fn spec_invalid_predicate_msg(s: Seq<char>) -> Seq<char> {
    "Invalid predicate '"@ + s
        + "'. Must be one of: PROVIDES, CONSUMES, MUTATES, DELETES, DEPENDS_ON, RENAMES"@
}

/// The message rejecting an unknown resource-type word.
pub open spec fn spec_invalid_resource_type_msg(s: Seq<char>) -> Seq<char> {
    "Invalid resource_type '"@ + s
        + "'. Must be one of: FILE, SYMBOL, API_ENDPOINT, DATABASE_TABLE, CONFIG_KEY"@
}

/// Accepts exactly the six predicate words, case-insensitively.
pub fn validate_predicate(predicate: &str) -> (r: Result<(), String>)
    ensures
        r is Ok <==> spec_valid_predicate(upper_of(predicate@)),
        r matches Err(m) ==> m@ == spec_invalid_predicate_msg(predicate@),
{
    let up = to_upper(predicate);
    if str_eq(up.as_str(), "PROVIDES") || str_eq(up.as_str(), "CONSUMES") || str_eq(
        up.as_str(),
        "MUTATES",
    ) || str_eq(up.as_str(), "DELETES") || str_eq(up.as_str(), "DEPENDS_ON") || str_eq(
        up.as_str(),
        "RENAMES",
    ) {
        Ok(())
    } else {
        let mut m = "Invalid predicate '".to_owned();
        m.append(predicate);
        m.append("'. Must be one of: PROVIDES, CONSUMES, MUTATES, DELETES, DEPENDS_ON, RENAMES");
        Err(m)
    }
}

/// Accepts exactly the five resource-type words, case-insensitively.
pub fn validate_resource_type(resource_type: &str) -> (r: Result<(), String>)
    ensures
        r is Ok <==> spec_valid_resource_type(upper_of(resource_type@)),
        r matches Err(m) ==> m@ == spec_invalid_resource_type_msg(resource_type@),
{
    let up = to_upper(resource_type);
    if str_eq(up.as_str(), "FILE") || str_eq(up.as_str(), "SYMBOL") || str_eq(
        up.as_str(),
        "API_ENDPOINT",
    ) || str_eq(up.as_str(), "DATABASE_TABLE") || str_eq(up.as_str(), "CONFIG_KEY") {
        Ok(())
    } else {
        let mut m = "Invalid resource_type '".to_owned();
        m.append(resource_type);
        m.append("'. Must be one of: FILE, SYMBOL, API_ENDPOINT, DATABASE_TABLE, CONFIG_KEY");
        Err(m)
    }
}

/// Body of `POST /agents`.
#[derive(Debug, Clone)]
pub struct RegisterAgentRequest {
    pub agent_id: String,
    pub priority: u64,
}

/// Body of `POST /leases`.
#[derive(Debug, Clone)]
pub struct AcquireLeaseRequest {
    pub agent_id: String,
    pub session_id: String,
    pub resource_type: String,
    pub resource_path: String,
    pub predicate: String,
    pub ttl: u64,
}

/// The first validation failure of an acquire request, if any.
pub open spec fn spec_acquire_request_err(req: AcquireLeaseRequest) -> Option<Seq<char>> {
    if req.agent_id@.len() == 0 {
        Some("agent_id is required"@)
    } else if req.session_id@.len() == 0 {
        Some("session_id is required"@)
    } else if req.resource_path@.len() == 0 {
        Some("resource_path is required"@)
    } else if !spec_valid_predicate(upper_of(req.predicate@)) {
        Some(spec_invalid_predicate_msg(req.predicate@))
    } else if !spec_valid_resource_type(upper_of(req.resource_type@)) {
        Some(spec_invalid_resource_type_msg(req.resource_type@))
    } else if req.ttl == 0 {
        Some("ttl must be greater than 0"@)
    } else {
        None
    }
}

impl AcquireLeaseRequest {
    /// Rejects empty identifiers, unknown words, and a zero TTL, with the
    /// first failure's message.
    pub fn validate(&self) -> (r: Result<(), String>)
        ensures
            match spec_acquire_request_err(*self) {
                Option::None => r is Ok,
                Option::Some(m) => r matches Err(e) && e@ == m,
            },
    {
        if self.agent_id.as_str().is_empty() {
            return Err("agent_id is required".to_owned());
        }
        if self.session_id.as_str().is_empty() {
            return Err("session_id is required".to_owned());
        }
        if self.resource_path.as_str().is_empty() {
            return Err("resource_path is required".to_owned());
        }
        match validate_predicate(self.predicate.as_str()) {
            Err(e) => {
                return Err(e);
            },
            Ok(u) => u,
        }
        match validate_resource_type(self.resource_type.as_str()) {
            Err(e) => {
                return Err(e);
            },
            Ok(u) => u,
        }
        if self.ttl == 0 {
            return Err("ttl must be greater than 0".to_owned());
        }
        Ok(())
    }
}

/// Body of `DELETE /leases/{id}` as a request shape.
#[derive(Debug, Clone)]
pub struct ReleaseLeaseRequest {
    pub lease_id: String,
}

/// One intent of `POST /intents`.
#[derive(Debug, Clone)]
pub struct IntentItem {
    pub predicate: String,
    pub resource_type: String,
    pub resource_path: String,
}

/// Body of `POST /intents`.
#[derive(Debug, Clone)]
pub struct DeclareIntentRequest {
    pub session_id: String,
    pub agent_id: String,
    pub intents: Vec<IntentItem>,
}

/// The first validation failure among the intent items from `i` on, each
/// message prefixed with the item's position.
pub open spec fn spec_intent_items_err(items: Seq<IntentItem>, i: int) -> Option<Seq<char>>
    decreases items.len() - i,
{
    if i < 0 || i >= items.len() {
        None
    } else if !spec_valid_predicate(upper_of(items[i].predicate@)) {
        Some(
            "intents["@ + spec_decimal(i) + "]: "@ + spec_invalid_predicate_msg(
                items[i].predicate@,
            ),
        )
    } else if !spec_valid_resource_type(upper_of(items[i].resource_type@)) {
        Some(
            "intents["@ + spec_decimal(i) + "]: "@ + spec_invalid_resource_type_msg(
                items[i].resource_type@,
            ),
        )
    } else {
        spec_intent_items_err(items, i + 1)
    }
}

/// The first validation failure of a declare request, if any.
pub open spec fn spec_declare_request_err(req: DeclareIntentRequest) -> Option<Seq<char>> {
    if req.agent_id@.len() == 0 {
        Some("agent_id is required"@)
    } else if req.session_id@.len() == 0 {
        Some("session_id is required"@)
    } else if req.intents@.len() == 0 {
        Some("intents must not be empty"@)
    } else {
        spec_intent_items_err(req.intents@, 0)
    }
}

impl DeclareIntentRequest {
    /// Rejects empty identifiers, an empty batch, and unknown words in
    /// any item, with the first failure's message.
    pub fn validate(&self) -> (r: Result<(), String>)
        ensures
            match spec_declare_request_err(*self) {
                Option::None => r is Ok,
                Option::Some(m) => r matches Err(e) && e@ == m,
            },
    {
        if self.agent_id.as_str().is_empty() {
            return Err("agent_id is required".to_owned());
        }
        if self.session_id.as_str().is_empty() {
            return Err("session_id is required".to_owned());
        }
        if self.intents.len() == 0 {
            return Err("intents must not be empty".to_owned());
        }
        let n = self.intents.len();
        let mut i: usize = 0;
        while i < n
            invariant
                n == self.intents@.len(),
                i <= n,
                self.agent_id@.len() > 0,
                self.session_id@.len() > 0,
                self.intents@.len() > 0,
                spec_intent_items_err(self.intents@, 0) == spec_intent_items_err(
                    self.intents@,
                    i as int,
                ),
            decreases n - i,
        {
            match validate_predicate(self.intents[i].predicate.as_str()) {
                Err(e) => {
                    let mut m = "intents[".to_owned();
                    let d = u64_to_string(i as u64);
                    m.append(d.as_str());
                    m.append("]: ");
                    m.append(e.as_str());
                    return Err(m);
                },
                Ok(u) => u,
            }
            match validate_resource_type(self.intents[i].resource_type.as_str()) {
                Err(e) => {
                    let mut m = "intents[".to_owned();
                    let d = u64_to_string(i as u64);
                    m.append(d.as_str());
                    m.append("]: ");
                    m.append(e.as_str());
                    return Err(m);
                },
                Ok(u) => u,
            }
            i = i + 1;
        }
        Ok(())
    }
}

/// Payload of a successful `POST /leases`.
#[derive(Debug, Clone)]
pub struct LeaseResponse {
    pub lease_id: String,
    pub agent_id: String,
    pub resource: String,
    pub expires_at: u64,
}

/// Payload of a refused `POST /leases`.
#[derive(Debug, Clone)]
pub struct LeaseFailureResponse {
    pub reason: String,
    pub wait_time: Option<u64>,
}

/// One entry of `GET /leases`.
#[derive(Debug, Clone)]
pub struct ActiveLeaseInfo {
    pub id: String,
    pub agent_id: String,
    pub resource: String,
    pub predicate: String,
    pub expires_at: u64,
}

/// Payload of `POST /evict`.
#[derive(Debug, Clone)]
pub struct EvictResponse {
    pub evicted: usize,
}

/// Payload of `GET /health`.
#[derive(Debug, Clone)]
pub struct HealthResponse {
    pub status: String,
    pub active_leases: usize,
    pub version: String,
}

/// Payload of `POST /leases/{id}/heartbeat`.
#[derive(Debug, Clone)]
pub struct HeartbeatResponse {
    pub renewed: bool,
    pub lease_id: String,
}

} // verus!
