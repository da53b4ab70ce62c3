//! Value types: predicate verbs, resource references and intent triples.

use vstd::prelude::*;
use vstd::string::StringExecFns;

verus! {

/// The verb of a subject-predicate-object triple: what an agent intends to
/// do with a resource.
#[derive(Debug, Clone, Copy, PartialEq, Eq, Structural, Hash)]
pub enum Predicate {
    /// Agent creates/exports something new
    Provides,
    /// Agent reads/imports something existing
    Consumes,
    /// Agent modifies something existing
    Mutates,
    /// Agent removes something existing
    Deletes,
    /// Agent requires something to exist
    DependsOn,
    /// Agent renames a resource
    Renames,
}

/// The stable ordinal of each predicate, used to index the compatibility
/// matrix.
pub open spec fn spec_index(p: Predicate) -> int {
    match p {
        Predicate::Provides => 0,
        Predicate::Consumes => 1,
        Predicate::Mutates => 2,
        Predicate::Deletes => 3,
        Predicate::DependsOn => 4,
        Predicate::Renames => 5,
    }
}

impl Predicate {
    /// Returns the numeric index of this predicate for matrix lookup.
    pub fn to_index(self) -> (i: usize)
        ensures
            i == spec_index(self),
    {
        match self {
            Predicate::Provides => 0,
            Predicate::Consumes => 1,
            Predicate::Mutates => 2,
            Predicate::Deletes => 3,
            Predicate::DependsOn => 4,
            Predicate::Renames => 5,
        }
    }
}

/// Confidence level of an inferred intent.
#[derive(Debug, Clone, Copy, PartialEq, Eq, Structural, Hash)]
pub enum Confidence {
    High,
    Medium,
    Low,
}

/// Categorical tag of a leasable resource.
#[derive(Debug, Clone, Copy, PartialEq, Eq, Structural, Hash)]
pub enum ResourceType {
    /// A file path
    File,
    /// An exported symbol (function, class, variable)
    Symbol,
    /// An API route
    ApiEndpoint,
    /// A database table
    DatabaseTable,
    /// A configuration key
    ConfigKey,
}

/// The upper-snake tag that opens a resource's canonical key.
pub open spec fn spec_type_tag(t: ResourceType) -> Seq<char> {
    match t {
        ResourceType::File => "FILE"@,
        ResourceType::Symbol => "SYMBOL"@,
        ResourceType::ApiEndpoint => "API_ENDPOINT"@,
        ResourceType::DatabaseTable => "DATABASE_TABLE"@,
        ResourceType::ConfigKey => "CONFIG_KEY"@,
    }
}

impl ResourceType {
    /// The tag under which this resource type appears in canonical keys.
    pub fn tag(self) -> (r: &'static str)
        ensures
            r@ == spec_type_tag(self),
    {
        match self {
            ResourceType::File => "FILE",
            ResourceType::Symbol => "SYMBOL",
            ResourceType::ApiEndpoint => "API_ENDPOINT",
            ResourceType::DatabaseTable => "DATABASE_TABLE",
            ResourceType::ConfigKey => "CONFIG_KEY",
        }
    }
}

/// The plain variant name of a resource type, as it is persisted.
pub open spec fn spec_type_name(t: ResourceType) -> Seq<char> {
    match t {
        ResourceType::File => "File"@,
        ResourceType::Symbol => "Symbol"@,
        ResourceType::ApiEndpoint => "ApiEndpoint"@,
        ResourceType::DatabaseTable => "DatabaseTable"@,
        ResourceType::ConfigKey => "ConfigKey"@,
    }
}

impl ResourceType {
    /// The plain variant name, as it is persisted.
    pub fn name(self) -> (r: &'static str)
        ensures
            r@ == spec_type_name(self),
    {
        match self {
            ResourceType::File => "File",
            ResourceType::Symbol => "Symbol",
            ResourceType::ApiEndpoint => "ApiEndpoint",
            ResourceType::DatabaseTable => "DatabaseTable",
            ResourceType::ConfigKey => "ConfigKey",
        }
    }
}

/// A reference to a resource in the system.
#[derive(Debug, Clone, PartialEq, Eq, Hash)]
pub struct ResourceRef {
    pub resource_type: ResourceType,
    /// Normalized path (e.g., "/src/auth.ts" or "User.authenticate")
    pub path: String,
}

/// The canonical key of a resource: `"{TYPE_UPPER}:{path}"`.  All identity
/// comparisons between resources go through this key, never through the
/// fields themselves.
pub open spec fn spec_key(r: ResourceRef) -> Seq<char> {
    spec_type_tag(r.resource_type) + ":"@ + r.path@
}

impl ResourceRef {
    /// Builds a reference from a type tag and a normalized path.
    pub fn new(resource_type: ResourceType, path: &str) -> (r: ResourceRef)
        ensures
            r.resource_type == resource_type,
            r.path@ == path@,
    {
        ResourceRef { resource_type, path: path.to_owned() }
    }

    /// Creates the canonical string key for the resource.
    pub fn key(&self) -> (r: String)
        ensures
            r@ == spec_key(*self),
    {
        let mut s = self.resource_type.tag().to_owned();
        s.append(":");
        s.append(self.path.as_str());
        s
    }
}

/// A subject-predicate-object triple representing an agent's declared
/// intent.  Triples are immutable once created.
#[derive(Debug, Clone, PartialEq, Eq)]
pub struct SPOTriple {
    /// Unique triple ID
    pub id: String,
    /// Agent ID
    pub subject: String,
    /// What the agent intends to do
    pub predicate: Predicate,
    /// The resource being operated on
    pub object: ResourceRef,
    /// When this intent was registered (milliseconds since the epoch)
    pub timestamp: u64,
    /// How confident we are in this inference
    pub confidence: Confidence,
    /// The session this triple belongs to
    pub session_id: String,
}

impl SPOTriple {
    /// An independent copy equal to this triple.
    pub fn duplicate(&self) -> (r: SPOTriple)
        ensures
            r == *self,
    {
        SPOTriple {
            id: self.id.clone(),
            subject: self.subject.clone(),
            predicate: self.predicate,
            object: ResourceRef {
                resource_type: self.object.resource_type,
                path: self.object.path.clone(),
            },
            timestamp: self.timestamp,
            confidence: self.confidence,
            session_id: self.session_id.clone(),
        }
    }
}

/// Compares two string slices by contents.
pub fn str_eq(a: &str, b: &str) -> (r: bool)
    ensures
        r == (a@ == b@),
{
    let x = a.to_owned();
    let y = b.to_owned();
    x == y
}

} // verus!
