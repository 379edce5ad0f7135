//! The governed-upgrade operations: propose, vote, execute, the emergency
//! bypass and rollback. Every operation takes the caller's identity, already
//! verified by the host's authentication primitive; a refused call leaves the
//! state untouched.

use crate::Address;
use crate::errors::ContractError;
use crate::upgrade::storage::GovernanceState;
use crate::upgrade::storage::{
    same_config, same_migration_plans, same_proposals, same_voting_power, spec_tally_fits,
    spec_voted, spec_with_status,
};
use crate::upgrade::storage;
use crate::upgrade::types::{MigrationPlan, UpgradeProposal, UpgradeStatus, Version, spec_compatible};
use vstd::prelude::*;

verus! {

/// The record a fresh proposal starts from: pending, with empty tallies and a
/// quorum base of 0 until the host provisions one.
pub open spec fn spec_new_proposal(
    id: u64,
    proposer: Address,
    new_contract_address: Address,
    version: Version,
    description: String,
    now: u64,
) -> UpgradeProposal {
    UpgradeProposal {
        id,
        proposer,
        new_contract_address,
        version,
        description,
        timestamp: now,
        status: UpgradeStatus::Pending,
        votes_for: 0,
        votes_against: 0,
        total_voters: 0,
    }
}

/// What one successful `propose_upgrade` call does: it issues id `id` from
/// the proposal counter and files the fresh pending proposal under it.
pub open spec fn propose_transition(
    pre: GovernanceState,
    post: GovernanceState,
    proposer: Address,
    new_contract_address: Address,
    version: Version,
    description: String,
    now: u64,
    id: u64,
) -> bool {
    &&& pre.spec_governance() is Some
    &&& id == pre.spec_next_proposal_id()
    &&& post.spec_next_proposal_id() == id + 1
    &&& post.spec_proposals() == pre.spec_proposals().insert(
        id,
        spec_new_proposal(id, proposer, new_contract_address, version, description, now),
    )
    &&& same_config(pre, post)
    &&& same_voting_power(pre, post)
    &&& same_migration_plans(pre, post)
}

/// Creates a pending proposal and returns its id. Any verified identity may
/// propose; the component must be initialized, since proposals are owed a
/// governance identity that can later execute them.
pub fn propose_upgrade(
    state: &mut GovernanceState,
    proposer: Address,
    new_contract_address: Address,
    target_version: &Version,
    description: String,
    now: u64,
) -> (r: Result<u64, ContractError>)
    requires
        old(state).wf(),
        old(state).spec_governance() is Some ==> old(state).spec_next_proposal_id() < u64::MAX,
    ensures
        final(state).wf(),
        r is Ok <==> old(state).spec_governance() is Some,
        match r {
            Ok(id) => propose_transition(
                *old(state),
                *final(state),
                proposer,
                new_contract_address,
                *target_version,
                description,
                now,
                id,
            ) && id == old(state).spec_next_proposal_id(),
            Err(e) => *final(state) == *old(state) && e == ContractError::Uninitialized,
        },
{
    match storage::get_governance_address(state) {
        Ok(_) => {},
        Err(e) => {
            return Err(e);
        },
    }
    let id = storage::allocate_proposal_id(state);
    let proposal = UpgradeProposal {
        id,
        proposer,
        new_contract_address,
        version: *target_version,
        description,
        timestamp: now,
        status: UpgradeStatus::Pending,
        votes_for: 0,
        votes_against: 0,
        total_voters: 0,
    };
    match storage::store_upgrade_proposal(state, &proposal) {
        Ok(_) => Ok(id),
        Err(_) => unreached(),
    }
}

/// Two proposals in a row are issued consecutive ids: the ids of a run of
/// successful proposals form an exact gap-free sequence.
pub proof fn lemma_propose_ids_consecutive(
    s0: GovernanceState,
    s1: GovernanceState,
    s2: GovernanceState,
    proposer1: Address,
    address1: Address,
    version1: Version,
    description1: String,
    now1: u64,
    id1: u64,
    proposer2: Address,
    address2: Address,
    version2: Version,
    description2: String,
    now2: u64,
    id2: u64,
)
    requires
        propose_transition(s0, s1, proposer1, address1, version1, description1, now1, id1),
        propose_transition(s1, s2, proposer2, address2, version2, description2, now2, id2),
    ensures
        id2 == id1 + 1,
{
}

/// A proposal is filed under an id the arena has never used, and it is there
/// afterwards: issued ids are never reused.
pub proof fn lemma_propose_id_fresh(
    pre: GovernanceState,
    post: GovernanceState,
    proposer: Address,
    new_contract_address: Address,
    version: Version,
    description: String,
    now: u64,
    id: u64,
)
    requires
        pre.wf(),
        propose_transition(pre, post, proposer, new_contract_address, version, description, now, id),
    ensures
        !pre.spec_proposals().dom().contains(id),
        post.spec_proposals().dom().contains(id),
        post.spec_proposals()[id] == spec_new_proposal(
            id,
            proposer,
            new_contract_address,
            version,
            description,
            now,
        ),
{
    storage::lemma_unissued_proposal_absent(pre, id);
}

/// The weight a proposal needs on one tally to be decided: a simple majority
/// of the quorum base, `floor(total_voters / 2) + 1`.
pub open spec fn spec_required_votes(total_voters: u32) -> int {
    total_voters / 2 + 1
}

/// The proposal after its tallies are held against the quorum: approved once
/// the votes in favour reach the required weight, rejected once the votes
/// against do, and unchanged while neither tally is there yet.
pub open spec fn spec_decide(proposal: UpgradeProposal) -> UpgradeProposal {
    if proposal.votes_for >= spec_required_votes(proposal.total_voters) {
        spec_with_status(proposal, UpgradeStatus::Approved)
    } else if proposal.votes_against >= spec_required_votes(proposal.total_voters) {
        spec_with_status(proposal, UpgradeStatus::Rejected)
    } else {
        proposal
    }
}

/// What one successful `vote_on_proposal` call does: the voter's weight lands
/// on one tally of a pending proposal, and the proposal is then decided
/// against the quorum.
pub open spec fn vote_transition(
    pre: GovernanceState,
    post: GovernanceState,
    voter: Address,
    proposal_id: u64,
    vote_for: bool,
) -> bool {
    &&& pre.spec_proposals().dom().contains(proposal_id)
    &&& pre.spec_proposals()[proposal_id].status is Pending
    &&& post.spec_proposals() == pre.spec_proposals().insert(
        proposal_id,
        spec_decide(
            spec_voted(
                pre.spec_proposals()[proposal_id],
                pre.spec_weight_of(voter),
                vote_for,
            ),
        ),
    )
    &&& post.spec_next_proposal_id() == pre.spec_next_proposal_id()
    &&& same_config(pre, post)
    &&& same_voting_power(pre, post)
    &&& same_migration_plans(pre, post)
}

/// Casts a weighted vote on a pending proposal and decides the proposal if a
/// tally now reaches the required weight. Votes are summed per call, not
/// deduplicated per voter, and an unregistered voter's weight of 0 lands
/// without effect. Fails with `NotFound` for an unknown id and with
/// `InvalidState` for a proposal no longer pending, changing nothing.
pub fn vote_on_proposal(
    state: &mut GovernanceState,
    voter: Address,
    proposal_id: u64,
    vote_for: bool,
) -> (r: Result<(), ContractError>)
    requires
        old(state).wf(),
        spec_tally_fits(*old(state), proposal_id, voter, vote_for),
    ensures
        final(state).wf(),
        r is Ok <==> old(state).spec_proposals().dom().contains(proposal_id) && old(
            state,
        ).spec_proposals()[proposal_id].status is Pending,
        match r {
            Ok(_) => vote_transition(*old(state), *final(state), voter, proposal_id, vote_for),
            Err(e) => *final(state) == *old(state) && e == if old(
                state,
            ).spec_proposals().dom().contains(proposal_id) {
                ContractError::InvalidState
            } else {
                ContractError::NotFound
            },
        },
{
    let ghost pre = *state;
    match storage::record_vote(state, proposal_id, voter, vote_for) {
        Err(e) => Err(e),
        Ok(_) => {
            match storage::get_upgrade_proposal(state, proposal_id) {
                None => unreached(),
                Some(proposal) => {
                    let required = proposal.total_voters / 2 + 1;
                    if proposal.votes_for >= required {
                        storage::update_proposal_status(
                            state,
                            proposal_id,
                            UpgradeStatus::Approved,
                        );
                    } else if proposal.votes_against >= required {
                        storage::update_proposal_status(
                            state,
                            proposal_id,
                            UpgradeStatus::Rejected,
                        );
                    }
                    proof {
                        assert(state.spec_proposals() =~= pre.spec_proposals().insert(
                            proposal_id,
                            spec_decide(
                                spec_voted(
                                    pre.spec_proposals()[proposal_id],
                                    pre.spec_weight_of(voter),
                                    vote_for,
                                ),
                            ),
                        ));
                    }
                    Ok(())
                },
            }
        },
    }
}

/// With a quorum base of 0 the required weight is `floor(0 / 2) + 1 == 1`, so
/// a single vote in favour with any positive weight approves the proposal.
pub proof fn lemma_zero_quorum_single_vote(
    pre: GovernanceState,
    post: GovernanceState,
    voter: Address,
    proposal_id: u64,
)
    requires
        vote_transition(pre, post, voter, proposal_id, true),
        pre.spec_proposals()[proposal_id].total_voters == 0,
        pre.spec_weight_of(voter) >= 1,
        pre.spec_proposals()[proposal_id].votes_for + pre.spec_weight_of(voter) <= u32::MAX,
    ensures
        post.spec_proposals()[proposal_id].status is Approved,
{
}

/// What one successful `execute_upgrade` call does: the approved proposal's
/// version becomes the active one and the proposal is closed as executed,
/// together or not at all.
pub open spec fn execute_transition(
    pre: GovernanceState,
    post: GovernanceState,
    executor: Address,
    proposal_id: u64,
) -> bool {
    &&& pre.spec_proposals().dom().contains(proposal_id)
    &&& pre.spec_proposals()[proposal_id].status is Approved
    &&& pre.spec_is_governance(executor)
    &&& post.spec_current_version() == Some(pre.spec_proposals()[proposal_id].version)
    &&& post.spec_proposals() == pre.spec_proposals().insert(
        proposal_id,
        spec_with_status(pre.spec_proposals()[proposal_id], UpgradeStatus::Executed),
    )
    &&& post.spec_next_proposal_id() == pre.spec_next_proposal_id()
    &&& post.spec_governance() == pre.spec_governance()
    &&& post.spec_emergency_enabled() == pre.spec_emergency_enabled()
    &&& same_voting_power(pre, post)
    &&& same_migration_plans(pre, post)
}

/// Hands a registered plan to the host's migration routine. The routine that
/// moves the business data is an external collaborator invoked by the host
/// around this call; the hook here only selects the plan, so it reports
/// success.
fn perform_state_migration(_plan: &MigrationPlan) -> (r: Result<(), ContractError>)
    ensures
        r is Ok,
{
    Ok(())
}

/// Executes an approved proposal: only the governance identity may, and only
/// from `Approved`. A registered migration plan is handed to the migration
/// hook first, and had the migration failed, the proposal would stay
/// `Approved` with the version untouched — all effects or none.
pub fn execute_upgrade(state: &mut GovernanceState, executor: Address, proposal_id: u64) -> (r:
    Result<(), ContractError>)
    requires
        old(state).wf(),
    ensures
        final(state).wf(),
        r is Ok <==> old(state).spec_proposals().dom().contains(proposal_id) && old(
            state,
        ).spec_proposals()[proposal_id].status is Approved && old(state).spec_is_governance(
            executor,
        ),
        match r {
            Ok(_) => execute_transition(*old(state), *final(state), executor, proposal_id),
            Err(e) => *final(state) == *old(state) && e == if !old(
                state,
            ).spec_proposals().dom().contains(proposal_id) {
                ContractError::NotFound
            } else if !(old(state).spec_proposals()[proposal_id].status is Approved) {
                ContractError::InvalidState
            } else if old(state).spec_governance() is None {
                ContractError::Uninitialized
            } else {
                ContractError::Unauthorized
            },
        },
{
    let proposal = match storage::get_upgrade_proposal(state, proposal_id) {
        Some(proposal) => proposal,
        None => {
            return Err(ContractError::NotFound);
        },
    };
    if proposal.status != UpgradeStatus::Approved {
        return Err(ContractError::InvalidState);
    }
    let governance = match storage::get_governance_address(state) {
        Ok(address) => address,
        Err(e) => {
            return Err(e);
        },
    };
    if executor != governance {
        return Err(ContractError::Unauthorized);
    }
    match storage::get_migration_plan(state, proposal_id) {
        Some(plan) => {
            match perform_state_migration(&plan) {
                Ok(_) => {},
                Err(e) => {
                    return Err(e);
                },
            }
        },
        None => {},
    }
    storage::set_current_version(state, &proposal.version);
    storage::update_proposal_status(state, proposal_id, UpgradeStatus::Executed);
    Ok(())
}

/// Replaces the active version at once, bypassing proposals and votes. Only
/// the governance identity may, and only while the emergency bypass is open.
/// The new contract address is accepted for the host's notification but is
/// not persisted in this design.
pub fn emergency_upgrade(
    state: &mut GovernanceState,
    caller: Address,
    _new_contract_address: Address,
    new_version: &Version,
) -> (r: Result<(), ContractError>)
    requires
        old(state).wf(),
    ensures
        final(state).wf(),
        r is Ok <==> old(state).spec_emergency_enabled() && old(state).spec_is_governance(caller),
        match r {
            Ok(_) => {
                &&& final(state).spec_current_version() == Some(*new_version)
                &&& final(state).spec_governance() == old(state).spec_governance()
                &&& final(state).spec_emergency_enabled() == old(state).spec_emergency_enabled()
                &&& same_proposals(*old(state), *final(state))
                &&& same_voting_power(*old(state), *final(state))
                &&& same_migration_plans(*old(state), *final(state))
            },
            Err(e) => *final(state) == *old(state) && e == if !old(
                state,
            ).spec_emergency_enabled() {
                ContractError::NotEnabled
            } else if old(state).spec_governance() is None {
                ContractError::Uninitialized
            } else {
                ContractError::Unauthorized
            },
        },
{
    if !storage::is_emergency_upgrade_enabled(state) {
        return Err(ContractError::NotEnabled);
    }
    let governance = match storage::get_governance_address(state) {
        Ok(address) => address,
        Err(e) => {
            return Err(e);
        },
    };
    if caller != governance {
        return Err(ContractError::Unauthorized);
    }
    storage::set_current_version(state, new_version);
    Ok(())
}

/// Opens or closes the emergency bypass; only the governance identity may.
pub fn toggle_emergency_upgrades(state: &mut GovernanceState, caller: Address, enable: bool) -> (r:
    Result<(), ContractError>)
    requires
        old(state).wf(),
    ensures
        final(state).wf(),
        r is Ok <==> old(state).spec_is_governance(caller),
        match r {
            Ok(_) => {
                &&& final(state).spec_emergency_enabled() == enable
                &&& final(state).spec_current_version() == old(state).spec_current_version()
                &&& final(state).spec_governance() == old(state).spec_governance()
                &&& same_proposals(*old(state), *final(state))
                &&& same_voting_power(*old(state), *final(state))
                &&& same_migration_plans(*old(state), *final(state))
            },
            Err(e) => *final(state) == *old(state) && e == if old(state).spec_governance()
                is None {
                ContractError::Uninitialized
            } else {
                ContractError::Unauthorized
            },
        },
{
    let governance = match storage::get_governance_address(state) {
        Ok(address) => address,
        Err(e) => {
            return Err(e);
        },
    };
    if caller != governance {
        return Err(ContractError::Unauthorized);
    }
    storage::set_emergency_upgrade_enabled(state, enable);
    Ok(())
}

/// Registers a migration plan for a proposal id, overwriting any earlier one;
/// only the governance identity may.
pub fn register_migration_plan(
    state: &mut GovernanceState,
    caller: Address,
    proposal_id: u64,
    migration_plan: &MigrationPlan,
) -> (r: Result<(), ContractError>)
    requires
        old(state).wf(),
    ensures
        final(state).wf(),
        r is Ok <==> old(state).spec_is_governance(caller),
        match r {
            Ok(_) => {
                &&& final(state).spec_migration_plans() == old(
                    state,
                ).spec_migration_plans().insert(proposal_id, *migration_plan)
                &&& same_config(*old(state), *final(state))
                &&& same_proposals(*old(state), *final(state))
                &&& same_voting_power(*old(state), *final(state))
            },
            Err(e) => *final(state) == *old(state) && e == if old(state).spec_governance()
                is None {
                ContractError::Uninitialized
            } else {
                ContractError::Unauthorized
            },
        },
{
    let governance = match storage::get_governance_address(state) {
        Ok(address) => address,
        Err(e) => {
            return Err(e);
        },
    };
    if caller != governance {
        return Err(ContractError::Unauthorized);
    }
    storage::store_migration_plan(state, proposal_id, migration_plan);
    Ok(())
}

/// Whether moving from `current` to `target` keeps compatibility: one major
/// series, and the target at least as far along in minors. This is the mirror
/// image of `Version::is_compatible_with`, whose arguments run the other way.
pub open spec fn spec_check_compatibility(current: Version, target: Version) -> bool {
    current.major == target.major && target.minor >= current.minor
}

/// Checks version compatibility in the upgrade direction.
pub fn check_version_compatibility(current: &Version, target: &Version) -> (r: bool)
    ensures
        r == spec_check_compatibility(*current, *target),
{
    current.major == target.major && target.minor >= current.minor
}

/// Compatibility is directional. Within one major series it compares minors
/// one way — `a` is compatible with `b` exactly when `a` is at least as far
/// along — so it is not symmetric; and `check_version_compatibility` is the
/// mirror image of `Version::is_compatible_with`, arguments flipped.
pub proof fn lemma_compatibility_mirror(a: Version, b: Version)
    ensures
        a.major == b.major ==> spec_compatible(a, b) == (a.minor >= b.minor),
        spec_check_compatibility(a, b) == spec_compatible(b, a),
        a.major == b.major && a.minor > b.minor ==> spec_compatible(a, b) && !spec_compatible(
            b,
            a,
        ),
{
}

/// Whether a rollback from `current` to `target` is allowed: same major
/// series and no forward move in minors.
pub open spec fn spec_rollback_allowed(target: Version, current: Version) -> bool {
    target.major == current.major && target.minor <= current.minor
}

/// Rolls the active version back within its major series, bypassing
/// proposals; only the governance identity may, and only to a version no
/// further along in minors.
pub fn rollback_to_version(state: &mut GovernanceState, caller: Address, target_version: &Version)
    -> (r: Result<(), ContractError>)
    requires
        old(state).wf(),
    ensures
        final(state).wf(),
        r is Ok <==> old(state).spec_is_governance(caller) && match old(
            state,
        ).spec_current_version() {
            Some(current) => spec_rollback_allowed(*target_version, current),
            None => false,
        },
        match r {
            Ok(_) => {
                &&& final(state).spec_current_version() == Some(*target_version)
                &&& final(state).spec_governance() == old(state).spec_governance()
                &&& final(state).spec_emergency_enabled() == old(state).spec_emergency_enabled()
                &&& same_proposals(*old(state), *final(state))
                &&& same_voting_power(*old(state), *final(state))
                &&& same_migration_plans(*old(state), *final(state))
            },
            Err(e) => *final(state) == *old(state) && e == if old(state).spec_governance()
                is None {
                ContractError::Uninitialized
            } else if !old(state).spec_is_governance(caller) {
                ContractError::Unauthorized
            } else if old(state).spec_current_version() is None {
                ContractError::Uninitialized
            } else {
                ContractError::InvalidTransition
            },
        },
{
    let governance = match storage::get_governance_address(state) {
        Ok(address) => address,
        Err(e) => {
            return Err(e);
        },
    };
    if caller != governance {
        return Err(ContractError::Unauthorized);
    }
    let current_version = match storage::get_current_version(state) {
        Ok(version) => version,
        Err(e) => {
            return Err(e);
        },
    };
    if target_version.major != current_version.major || target_version.minor
        > current_version.minor {
        return Err(ContractError::InvalidTransition);
    }
    storage::set_current_version(state, target_version);
    Ok(())
}

} // verus!
