//! Tests of the governed-upgrade component.

use upgrade_governance::errors::ContractError;
use upgrade_governance::upgrade::logic::{
    emergency_upgrade, execute_upgrade, propose_upgrade, register_migration_plan,
    rollback_to_version, toggle_emergency_upgrades, vote_on_proposal,
};
use upgrade_governance::upgrade::storage::{
    GovernanceState, get_current_version, get_governance_address, get_migration_plan,
    get_pending_proposals, get_upgrade_proposal, get_voting_power, initialize,
    is_emergency_upgrade_enabled, record_vote, set_current_version, set_voting_power,
    store_migration_plan, store_upgrade_proposal, update_proposal_status,
};
use upgrade_governance::upgrade::types::{MigrationPlan, UpgradeStatus, Version};

const GOVERNANCE: u64 = 7;
const PROPOSER: u64 = 5;
const VOTER_A: u64 = 3;
const VOTER_B: u64 = 4;
const OUTSIDER: u64 = 9;
const TARGET: u64 = 200;

fn initialized_governance() -> GovernanceState {
    let mut state = GovernanceState::new();
    initialize(&mut state, Version::new(1, 0, 0), GOVERNANCE);
    state
}

fn propose_default(state: &mut GovernanceState) -> u64 {
    propose_upgrade(
        state,
        PROPOSER,
        TARGET,
        &Version::new(1, 1, 0),
        String::from("desc"),
        100,
    )
    .unwrap()
}

/// Provisions the quorum base of an issued proposal, the way a host sets it.
fn set_total_voters(state: &mut GovernanceState, proposal_id: u64, total_voters: u32) {
    let mut proposal = get_upgrade_proposal(state, proposal_id).unwrap();
    proposal.total_voters = total_voters;
    store_upgrade_proposal(state, &proposal).unwrap();
}

#[test]
fn test_uninitialized_governance() {
    let mut state = GovernanceState::new();
    assert_eq!(get_current_version(&state), Err(ContractError::Uninitialized));
    assert_eq!(get_governance_address(&state), Err(ContractError::Uninitialized));
    assert!(!is_emergency_upgrade_enabled(&state));
    assert_eq!(
        propose_upgrade(&mut state, PROPOSER, TARGET, &Version::new(1, 1, 0), String::new(), 1),
        Err(ContractError::Uninitialized)
    );
    assert_eq!(
        toggle_emergency_upgrades(&mut state, GOVERNANCE, true),
        Err(ContractError::Uninitialized)
    );
    assert_eq!(
        rollback_to_version(&mut state, GOVERNANCE, &Version::new(1, 0, 0)),
        Err(ContractError::Uninitialized)
    );
}

#[test]
fn test_initialize_sets_singleton_config() {
    let state = initialized_governance();
    assert_eq!(get_current_version(&state), Ok(Version::new(1, 0, 0)));
    assert_eq!(get_governance_address(&state), Ok(GOVERNANCE));
    assert!(!is_emergency_upgrade_enabled(&state));
    assert!(get_pending_proposals(&state).is_empty());
}

#[test]
fn test_propose_creates_pending_proposal() {
    let mut state = initialized_governance();
    let id = propose_default(&mut state);
    assert_eq!(id, 1);

    let proposal = get_upgrade_proposal(&state, id).unwrap();
    assert_eq!(proposal.id, 1);
    assert_eq!(proposal.proposer, PROPOSER);
    assert_eq!(proposal.new_contract_address, TARGET);
    assert_eq!(proposal.version, Version::new(1, 1, 0));
    assert_eq!(proposal.description, "desc");
    assert_eq!(proposal.timestamp, 100);
    assert_eq!(proposal.status, UpgradeStatus::Pending);
    assert_eq!(proposal.votes_for, 0);
    assert_eq!(proposal.votes_against, 0);
    assert_eq!(proposal.total_voters, 0);
}

#[test]
fn test_proposal_ids_are_sequential() {
    let mut state = initialized_governance();
    assert_eq!(propose_default(&mut state), 1);
    assert_eq!(propose_default(&mut state), 2);
    assert_eq!(propose_default(&mut state), 3);
    assert_eq!(state.proposal_counter(), 4);
    assert!(get_upgrade_proposal(&state, 4).is_none());
}

#[test]
fn test_zero_quorum_single_vote_approves() {
    let mut state = initialized_governance();
    let id = propose_default(&mut state);
    set_voting_power(&mut state, VOTER_A, 1);
    // total_voters is still 0, so required = floor(0 / 2) + 1 = 1
    assert_eq!(vote_on_proposal(&mut state, VOTER_A, id, true), Ok(()));
    let proposal = get_upgrade_proposal(&state, id).unwrap();
    assert_eq!(proposal.votes_for, 1);
    assert_eq!(proposal.status, UpgradeStatus::Approved);
}

#[test]
fn test_zero_weight_vote_has_no_tallying_effect() {
    let mut state = initialized_governance();
    let id = propose_default(&mut state);
    set_total_voters(&mut state, id, 10);
    assert_eq!(get_voting_power(&state, OUTSIDER), 0);
    assert_eq!(vote_on_proposal(&mut state, OUTSIDER, id, true), Ok(()));
    let proposal = get_upgrade_proposal(&state, id).unwrap();
    assert_eq!(proposal.votes_for, 0);
    assert_eq!(proposal.status, UpgradeStatus::Pending);
}

#[test]
fn test_votes_against_reject() {
    let mut state = initialized_governance();
    let id = propose_default(&mut state);
    set_total_voters(&mut state, id, 10);
    set_voting_power(&mut state, VOTER_A, 4);
    set_voting_power(&mut state, VOTER_B, 2);
    assert_eq!(vote_on_proposal(&mut state, VOTER_A, id, false), Ok(()));
    assert_eq!(
        get_upgrade_proposal(&state, id).unwrap().status,
        UpgradeStatus::Pending
    );
    assert_eq!(vote_on_proposal(&mut state, VOTER_B, id, false), Ok(()));
    let proposal = get_upgrade_proposal(&state, id).unwrap();
    // required = floor(10 / 2) + 1 = 6
    assert_eq!(proposal.votes_against, 6);
    assert_eq!(proposal.status, UpgradeStatus::Rejected);
}

#[test]
fn test_vote_on_unknown_proposal() {
    let mut state = initialized_governance();
    assert_eq!(
        vote_on_proposal(&mut state, VOTER_A, 42, true),
        Err(ContractError::NotFound)
    );
    assert_eq!(record_vote(&mut state, 42, VOTER_A, true), Err(ContractError::NotFound));
}

#[test]
fn test_vote_and_execute_guards_on_settled_proposals() {
    let mut state = initialized_governance();
    set_voting_power(&mut state, VOTER_A, 1);
    for status in [UpgradeStatus::Executed, UpgradeStatus::Rejected, UpgradeStatus::Cancelled] {
        let id = propose_default(&mut state);
        update_proposal_status(&mut state, id, status);
        let before = get_upgrade_proposal(&state, id).unwrap();

        assert_eq!(
            vote_on_proposal(&mut state, VOTER_A, id, true),
            Err(ContractError::InvalidState)
        );
        if status != UpgradeStatus::Executed {
            assert_eq!(
                execute_upgrade(&mut state, GOVERNANCE, id),
                Err(ContractError::InvalidState)
            );
        }

        let after = get_upgrade_proposal(&state, id).unwrap();
        assert_eq!(after.status, before.status);
        assert_eq!(after.votes_for, before.votes_for);
        assert_eq!(after.votes_against, before.votes_against);
        assert_eq!(after.total_voters, before.total_voters);
        assert_eq!(after.version, before.version);
        assert_eq!(after.description, before.description);
    }
    // executing a proposal that is still pending is refused too
    let id = propose_default(&mut state);
    assert_eq!(
        execute_upgrade(&mut state, GOVERNANCE, id),
        Err(ContractError::InvalidState)
    );
    assert_eq!(
        execute_upgrade(&mut state, GOVERNANCE, 99),
        Err(ContractError::NotFound)
    );
}

#[test]
fn test_execute_unauthorized_changes_nothing() {
    let mut state = initialized_governance();
    let id = propose_default(&mut state);
    set_voting_power(&mut state, VOTER_A, 1);
    assert_eq!(vote_on_proposal(&mut state, VOTER_A, id, true), Ok(()));

    assert_eq!(
        execute_upgrade(&mut state, OUTSIDER, id),
        Err(ContractError::Unauthorized)
    );
    assert_eq!(get_current_version(&state), Ok(Version::new(1, 0, 0)));
    assert_eq!(
        get_upgrade_proposal(&state, id).unwrap().status,
        UpgradeStatus::Approved
    );
}

#[test]
fn test_end_to_end_governed_upgrade() {
    let mut state = initialized_governance();
    let id = propose_upgrade(
        &mut state,
        GOVERNANCE,
        TARGET,
        &Version::new(1, 1, 0),
        String::from("desc"),
        100,
    )
    .unwrap();
    assert_eq!(id, 1);
    assert_eq!(
        get_upgrade_proposal(&state, 1).unwrap().status,
        UpgradeStatus::Pending
    );

    set_voting_power(&mut state, VOTER_B, 10);
    set_total_voters(&mut state, 1, 10);

    assert_eq!(vote_on_proposal(&mut state, VOTER_B, 1, true), Ok(()));
    let proposal = get_upgrade_proposal(&state, 1).unwrap();
    // votes_for reaches 10 and required = floor(10 / 2) + 1 = 6
    assert_eq!(proposal.votes_for, 10);
    assert_eq!(proposal.status, UpgradeStatus::Approved);

    assert_eq!(execute_upgrade(&mut state, GOVERNANCE, 1), Ok(()));
    assert_eq!(get_current_version(&state), Ok(Version::new(1, 1, 0)));
    assert_eq!(
        get_upgrade_proposal(&state, 1).unwrap().status,
        UpgradeStatus::Executed
    );
}

#[test]
fn test_execute_with_migration_plan() {
    let mut state = initialized_governance();
    let id = propose_default(&mut state);
    set_voting_power(&mut state, VOTER_A, 1);
    assert_eq!(vote_on_proposal(&mut state, VOTER_A, id, true), Ok(()));

    let plan = MigrationPlan {
        from_version: Version::new(1, 0, 0),
        to_version: Version::new(1, 1, 0),
        migration_function_selector: String::from("migrate"),
        estimated_gas: 100000,
    };
    assert_eq!(
        register_migration_plan(&mut state, OUTSIDER, id, &plan),
        Err(ContractError::Unauthorized)
    );
    assert!(get_migration_plan(&state, id).is_none());
    assert_eq!(register_migration_plan(&mut state, GOVERNANCE, id, &plan), Ok(()));
    let stored = get_migration_plan(&state, id).unwrap();
    assert_eq!(stored.migration_function_selector, "migrate");
    assert_eq!(stored.estimated_gas, 100000);

    assert_eq!(execute_upgrade(&mut state, GOVERNANCE, id), Ok(()));
    assert_eq!(get_current_version(&state), Ok(Version::new(1, 1, 0)));
}

#[test]
fn test_register_migration_plan_overwrites() {
    let mut state = initialized_governance();
    let id = propose_default(&mut state);
    let first = MigrationPlan {
        from_version: Version::new(1, 0, 0),
        to_version: Version::new(1, 1, 0),
        migration_function_selector: String::from("migrate_v1"),
        estimated_gas: 1,
    };
    let second = MigrationPlan {
        from_version: Version::new(1, 0, 0),
        to_version: Version::new(1, 1, 0),
        migration_function_selector: String::from("migrate_v2"),
        estimated_gas: 2,
    };
    store_migration_plan(&mut state, id, &first);
    store_migration_plan(&mut state, id, &second);
    let stored = get_migration_plan(&state, id).unwrap();
    assert_eq!(stored.migration_function_selector, "migrate_v2");
    assert_eq!(stored.estimated_gas, 2);
}

#[test]
fn test_emergency_upgrade_gating() {
    let mut state = initialized_governance();
    // closed bypass refuses even the governance identity
    assert_eq!(
        emergency_upgrade(&mut state, GOVERNANCE, TARGET, &Version::new(3, 0, 0)),
        Err(ContractError::NotEnabled)
    );
    assert_eq!(
        toggle_emergency_upgrades(&mut state, OUTSIDER, true),
        Err(ContractError::Unauthorized)
    );
    assert!(!is_emergency_upgrade_enabled(&state));

    assert_eq!(toggle_emergency_upgrades(&mut state, GOVERNANCE, true), Ok(()));
    assert!(is_emergency_upgrade_enabled(&state));
    assert_eq!(
        emergency_upgrade(&mut state, OUTSIDER, TARGET, &Version::new(3, 0, 0)),
        Err(ContractError::Unauthorized)
    );
    assert_eq!(get_current_version(&state), Ok(Version::new(1, 0, 0)));

    assert_eq!(
        emergency_upgrade(&mut state, GOVERNANCE, TARGET, &Version::new(3, 0, 0)),
        Ok(())
    );
    assert_eq!(get_current_version(&state), Ok(Version::new(3, 0, 0)));
}

#[test]
fn test_rollback_guards() {
    let mut state = initialized_governance();
    set_current_version(&mut state, &Version::new(1, 2, 0));

    assert_eq!(
        rollback_to_version(&mut state, OUTSIDER, &Version::new(1, 1, 0)),
        Err(ContractError::Unauthorized)
    );
    assert_eq!(
        rollback_to_version(&mut state, GOVERNANCE, &Version::new(2, 0, 0)),
        Err(ContractError::InvalidTransition)
    );
    assert_eq!(
        rollback_to_version(&mut state, GOVERNANCE, &Version::new(1, 3, 0)),
        Err(ContractError::InvalidTransition)
    );
    assert_eq!(get_current_version(&state), Ok(Version::new(1, 2, 0)));

    assert_eq!(
        rollback_to_version(&mut state, GOVERNANCE, &Version::new(1, 1, 0)),
        Ok(())
    );
    assert_eq!(get_current_version(&state), Ok(Version::new(1, 1, 0)));
}

#[test]
fn test_get_pending_proposals_lists_only_pending_in_id_order() {
    let mut state = initialized_governance();
    let first = propose_default(&mut state);
    let second = propose_default(&mut state);
    let third = propose_default(&mut state);

    set_voting_power(&mut state, VOTER_A, 1);
    assert_eq!(vote_on_proposal(&mut state, VOTER_A, second, true), Ok(()));

    let pending = get_pending_proposals(&state);
    assert_eq!(pending.len(), 2);
    assert_eq!(pending[0].id, first);
    assert_eq!(pending[1].id, third);
}

#[test]
fn test_store_proposal_rejects_unissued_ids() {
    let mut state = initialized_governance();
    let id = propose_default(&mut state);
    let mut proposal = get_upgrade_proposal(&state, id).unwrap();
    proposal.id = 5;
    assert_eq!(
        store_upgrade_proposal(&mut state, &proposal),
        Err(ContractError::NotFound)
    );
    assert!(get_upgrade_proposal(&state, 5).is_none());
}

#[test]
fn test_governance_from_parts_round_trip() {
    let mut state = initialized_governance();
    let id = propose_default(&mut state);
    set_voting_power(&mut state, VOTER_A, 3);
    let plan = MigrationPlan {
        from_version: Version::new(1, 0, 0),
        to_version: Version::new(1, 1, 0),
        migration_function_selector: String::from("migrate"),
        estimated_gas: 9,
    };
    store_migration_plan(&mut state, id, &plan);

    let rebuilt = GovernanceState::from_parts(
        get_current_version(&state).ok(),
        get_governance_address(&state).ok(),
        is_emergency_upgrade_enabled(&state),
        state.proposal_entries().clone(),
        state.proposal_counter(),
        state.voting_power_entries().clone(),
        state.migration_plan_entries().clone(),
    )
    .unwrap();

    assert_eq!(get_current_version(&rebuilt), Ok(Version::new(1, 0, 0)));
    assert_eq!(get_governance_address(&rebuilt), Ok(GOVERNANCE));
    assert_eq!(get_voting_power(&rebuilt, VOTER_A), 3);
    assert_eq!(get_upgrade_proposal(&rebuilt, id).unwrap().description, "desc");
    assert_eq!(get_migration_plan(&rebuilt, id).unwrap().estimated_gas, 9);
    assert_eq!(rebuilt.proposal_counter(), 2);
}

#[test]
fn test_governance_from_parts_rejects_bad_proposals() {
    let mut state = initialized_governance();
    let id = propose_default(&mut state);
    let proposal = get_upgrade_proposal(&state, id).unwrap();
    // a proposal filed under an id the counter never issued is refused
    assert!(
        GovernanceState::from_parts(None, None, false, vec![(9, proposal)], 2, vec![], vec![])
            .is_none()
    );
}
