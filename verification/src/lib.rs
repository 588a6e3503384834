//! Durable persistence layer for a Lightning node.
//!
//! The node's channel-safety engine demands synchronous, failure-intolerant
//! writes for per-channel monitor state, while everything else (routing
//! graph, scorer, payment ledger, peer directory) tolerates last-write-wins
//! replacement and bounded retries.  This crate holds the verified core of
//! that layer: the logical store state with its consistency and idempotence
//! guarantees, the decision rules of the sync bridge, and the pure planning
//! and assembly steps of the surrounding tooling.

pub mod bridge;
pub mod bytes;
pub mod certs;
pub mod database;
pub mod laws;
pub mod manager;
pub mod node_info;
pub mod records;
pub mod table;
pub mod text;

use vstd::prelude::*;

verus! {

/// The smallest unit of value tracked in Lightning payments.
pub type MilliSatoshi = u64;

} // verus!
