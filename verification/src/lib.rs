//! A coordination kernel for fleets of autonomous agents that share resources.
//!
//! Agents declare intents (subject-predicate-object triples) and acquire
//! time-bound leases on resources.  A constant compatibility matrix decides
//! which predicate pairs may coexist on one resource, and the Wait-Die
//! discipline turns each conflict into a `Wait` or `Die` verdict using the
//! agents' priority stamps, so that no cycle of mutual waits can form.

pub mod primitives;
pub mod text;
pub mod lease;
pub mod conflict;
pub mod priority;
pub mod scheduler;
pub mod state;
pub mod infrastructure;
pub mod infrastructure_in_memory;
pub mod infrastructure_sqlite;
pub mod client;
pub mod handlers;
