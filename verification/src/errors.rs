//! The error taxonomy shared by both components. Every failing operation
//! reports exactly one of these kinds to its immediate caller; nothing is
//! retried internally.

use vstd::prelude::*;

verus! {

/// Why an operation was refused.
#[derive(Clone, Copy, Debug, PartialEq, Eq, Structural)]
pub enum ContractError {
    /// The caller identity fails the required admin or governance check.
    Unauthorized,
    /// The referenced proposal or plan id does not exist.
    NotFound,
    /// The proposal is not in the lifecycle state the operation demands.
    InvalidState,
    /// The version change violates the compatibility or rollback rule.
    InvalidTransition,
    /// The emergency path was invoked while emergency upgrades are disabled.
    NotEnabled,
    /// Core state was read before initialization.
    Uninitialized,
}

} // verus!
