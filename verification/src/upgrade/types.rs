//! Records of the governed upgrade component: versions, proposals and
//! migration plans.

use crate::Address;
use vstd::prelude::*;

verus! {

/// A contract version, totally ordered lexicographically by
/// (major, minor, patch).
#[derive(Clone, Copy, Debug, PartialEq, Eq, Structural)]
pub struct Version {
    pub major: u32,
    pub minor: u32,
    pub patch: u32,
}

/// `a` can stand in for `b`: same major series, and `a` carries at least the
/// minor features of `b`. The patch component is ignored. The predicate is
/// not symmetric.
pub open spec fn spec_compatible(a: Version, b: Version) -> bool {
    a.major == b.major && a.minor >= b.minor
}

impl Version {
    pub fn new(major: u32, minor: u32, patch: u32) -> (v: Version)
        ensures
            v == (Version { major, minor, patch }),
    {
        Version { major, minor, patch }
    }

    /// Whether `self` is compatible with `other`: `self` must be in the same
    /// major series and at least as far along in minor versions.
    pub fn is_compatible_with(&self, other: &Version) -> (r: bool)
        ensures
            r == spec_compatible(*self, *other),
    {
        self.major == other.major && self.minor >= other.minor
    }
}

/// Lifecycle state of an upgrade proposal. `Executed`, `Rejected` and
/// `Cancelled` are terminal; votes are accepted only while `Pending`.
#[derive(Clone, Copy, Debug, PartialEq, Eq, Structural)]
pub enum UpgradeStatus {
    Pending,
    Approved,
    Executed,
    Rejected,
    Cancelled,
}

/// A proposed upgrade. Created by `propose_upgrade`; the tallies and the
/// status move only through `vote_on_proposal`, `execute_upgrade` and the
/// storage operations.
#[derive(Debug)]
pub struct UpgradeProposal {
    pub id: u64,
    pub proposer: Address,
    pub new_contract_address: Address,
    pub version: Version,
    pub description: String,
    pub timestamp: u64,
    pub status: UpgradeStatus,
    /// Weighted sum of the votes in favour, not a head-count.
    pub votes_for: u32,
    /// Weighted sum of the votes against.
    pub votes_against: u32,
    /// The quorum base: total weight expected to vote. Snapshotted as 0 at
    /// creation and provisioned externally through `store_upgrade_proposal`.
    pub total_voters: u32,
}

impl Clone for UpgradeProposal {
    fn clone(&self) -> (r: Self)
        ensures
            r == *self,
    {
        UpgradeProposal {
            id: self.id,
            proposer: self.proposer,
            new_contract_address: self.new_contract_address,
            version: self.version,
            description: self.description.clone(),
            timestamp: self.timestamp,
            status: self.status,
            votes_for: self.votes_for,
            votes_against: self.votes_against,
            total_voters: self.total_voters,
        }
    }
}

/// How business data moves between two versions: the plan only selects a
/// migration routine, it does not carry the routine itself.
#[derive(Debug)]
pub struct MigrationPlan {
    pub from_version: Version,
    pub to_version: Version,
    /// Name of the migration routine the host is to invoke.
    pub migration_function_selector: String,
    pub estimated_gas: u64,
}

impl Clone for MigrationPlan {
    fn clone(&self) -> (r: Self)
        ensures
            r == *self,
    {
        MigrationPlan {
            from_version: self.from_version,
            to_version: self.to_version,
            migration_function_selector: self.migration_function_selector.clone(),
            estimated_gas: self.estimated_gas,
        }
    }
}

} // verus!
