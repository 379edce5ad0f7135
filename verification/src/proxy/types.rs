//! Records of the proxy redirection component.

use crate::Address;
use vstd::prelude::*;

verus! {

/// The proxy's configuration: which implementation is active and who
/// administers it. Created once at initialization; the implementation and the
/// counter move only through the upgrade operation, the admin only through
/// admin transfer.
#[derive(Clone, Copy, Debug, PartialEq, Eq, Structural)]
pub struct ProxyConfig {
    /// Handle of the current implementation contract.
    pub implementation: Address,
    /// Handle of the admin identity.
    pub admin: Address,
    /// Counts successful upgrades; starts at 1 and increments by exactly 1
    /// per upgrade.
    pub version: u32,
    /// When the proxy was last updated.
    pub last_updated: u64,
}

/// An immutable audit record, one per upgrade attempt, kept in an append-only
/// history keyed by a monotonically increasing id.
#[derive(Debug)]
pub struct UpgradeTransaction {
    pub id: u64,
    pub new_implementation: Address,
    pub initiator: Address,
    pub timestamp: u64,
    pub success: bool,
    pub failure_reason: Option<String>,
}

impl Clone for UpgradeTransaction {
    fn clone(&self) -> (r: Self)
        ensures
            r == *self,
    {
        UpgradeTransaction {
            id: self.id,
            new_implementation: self.new_implementation,
            initiator: self.initiator,
            timestamp: self.timestamp,
            success: self.success,
            failure_reason: match &self.failure_reason {
                Some(reason) => Some(reason.clone()),
                None => None,
            },
        }
    }
}

} // verus!
