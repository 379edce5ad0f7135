//! Upgrade governance for a long-lived service: a proxy that redirects to the
//! currently active implementation, and a governed upgrade state machine with
//! proposals, weighted votes against a quorum, authorized execution with an
//! optional migration step, an emergency bypass, and rollback.
//!
//! The durable key/value store, the caller-authentication primitive, and event
//! emission are external collaborators: a host loads the state aggregates,
//! passes the verified caller identity and the current time into each
//! operation, and persists the state afterwards. Identities and contract
//! addresses are opaque to the rules here, so they are modelled as plain
//! numeric handles.

use vstd::prelude::*;

pub mod errors;
pub mod proxy;
pub mod table;
pub mod upgrade;

verus! {

/// An opaque identity or contract-address handle. The host assigns one handle
/// per externally verified identity; the rules below only ever compare
/// handles for equality.
pub type Address = u64;

} // verus!
