//! Tests of the proxy redirection component.

use upgrade_governance::errors::ContractError;
use upgrade_governance::proxy::implementation::{
    accept_admin, emergency_stop, get_proxy_info, is_paused, resume, transfer_admin, upgrade,
};
use upgrade_governance::proxy::storage::{
    ProxyState, get_admin, get_implementation, get_proxy_config, get_upgrade_transaction,
    initialize, is_admin, is_current_implementation, record_upgrade_transaction, set_admin,
    set_implementation,
};
use upgrade_governance::proxy::types::UpgradeTransaction;

const ADMIN: u64 = 10;
const OUTSIDER: u64 = 11;
const IMPL_A: u64 = 100;
const IMPL_B: u64 = 101;
const IMPL_C: u64 = 102;

fn initialized_proxy() -> ProxyState {
    let mut state = ProxyState::new();
    initialize(&mut state, IMPL_A, ADMIN, 1000);
    state
}

#[test]
fn test_uninitialized_proxy_reads() {
    let state = ProxyState::new();
    assert_eq!(get_proxy_config(&state), Err(ContractError::Uninitialized));
    assert_eq!(get_implementation(&state), Err(ContractError::Uninitialized));
    assert_eq!(get_admin(&state), Err(ContractError::Uninitialized));
    assert_eq!(get_proxy_info(&state), Err(ContractError::Uninitialized));
    assert!(!is_admin(&state, ADMIN));
    assert!(!is_current_implementation(&state, IMPL_A));
}

#[test]
fn test_uninitialized_proxy_mutations() {
    let mut state = ProxyState::new();
    assert_eq!(
        upgrade(&mut state, ADMIN, IMPL_B, 1),
        Err(ContractError::Uninitialized)
    );
    assert_eq!(
        transfer_admin(&mut state, ADMIN, OUTSIDER, 1),
        Err(ContractError::Uninitialized)
    );
    assert_eq!(set_implementation(&mut state, IMPL_B, 1), Err(ContractError::Uninitialized));
    assert_eq!(set_admin(&mut state, OUTSIDER, 1), Err(ContractError::Uninitialized));
    assert_eq!(emergency_stop(&state, ADMIN), Err(ContractError::Uninitialized));
    assert_eq!(resume(&state, ADMIN), Err(ContractError::Uninitialized));
}

#[test]
fn test_initialize_sets_config() {
    let state = initialized_proxy();
    let config = get_proxy_config(&state).unwrap();
    assert_eq!(config.implementation, IMPL_A);
    assert_eq!(config.admin, ADMIN);
    assert_eq!(config.version, 1);
    assert_eq!(config.last_updated, 1000);
    assert!(is_admin(&state, ADMIN));
    assert!(!is_admin(&state, OUTSIDER));
    assert!(is_current_implementation(&state, IMPL_A));
    assert!(!is_current_implementation(&state, IMPL_B));
}

#[test]
fn test_upgrade_applies_all_effects() {
    let mut state = initialized_proxy();
    assert_eq!(upgrade(&mut state, ADMIN, IMPL_B, 2000), Ok(()));

    let config = get_proxy_config(&state).unwrap();
    assert_eq!(config.implementation, IMPL_B);
    assert_eq!(config.admin, ADMIN);
    assert_eq!(config.version, 2);
    assert_eq!(config.last_updated, 2000);

    let transaction = get_upgrade_transaction(&state, 1).unwrap();
    assert_eq!(transaction.id, 1);
    assert_eq!(transaction.new_implementation, IMPL_B);
    assert_eq!(transaction.initiator, ADMIN);
    assert_eq!(transaction.timestamp, 2000);
    assert!(transaction.success);
    assert!(transaction.failure_reason.is_none());
}

#[test]
fn test_upgrade_transaction_ids_are_sequential() {
    let mut state = initialized_proxy();
    assert_eq!(upgrade(&mut state, ADMIN, IMPL_B, 1), Ok(()));
    // a refused attempt issues no id
    assert_eq!(upgrade(&mut state, OUTSIDER, IMPL_C, 2), Err(ContractError::Unauthorized));
    assert_eq!(upgrade(&mut state, ADMIN, IMPL_C, 3), Ok(()));
    assert_eq!(upgrade(&mut state, ADMIN, IMPL_A, 4), Ok(()));

    assert_eq!(get_upgrade_transaction(&state, 1).unwrap().new_implementation, IMPL_B);
    assert_eq!(get_upgrade_transaction(&state, 2).unwrap().new_implementation, IMPL_C);
    assert_eq!(get_upgrade_transaction(&state, 3).unwrap().new_implementation, IMPL_A);
    assert!(get_upgrade_transaction(&state, 4).is_none());
    assert_eq!(state.transaction_counter(), 4);
}

#[test]
fn test_upgrade_unauthorized_changes_nothing() {
    let mut state = initialized_proxy();
    let before = get_proxy_config(&state).unwrap();
    let counter_before = state.transaction_counter();

    assert_eq!(upgrade(&mut state, OUTSIDER, IMPL_B, 9999), Err(ContractError::Unauthorized));

    assert_eq!(get_proxy_config(&state).unwrap(), before);
    assert_eq!(state.transaction_counter(), counter_before);
    assert!(get_upgrade_transaction(&state, 1).is_none());
}

#[test]
fn test_transfer_admin() {
    let mut state = initialized_proxy();
    let before = get_proxy_config(&state).unwrap();
    assert_eq!(
        transfer_admin(&mut state, OUTSIDER, OUTSIDER, 5),
        Err(ContractError::Unauthorized)
    );
    assert_eq!(get_proxy_config(&state).unwrap(), before);

    assert_eq!(transfer_admin(&mut state, ADMIN, OUTSIDER, 5), Ok(()));
    let config = get_proxy_config(&state).unwrap();
    assert_eq!(config.admin, OUTSIDER);
    assert_eq!(config.implementation, IMPL_A);
    assert_eq!(config.version, 1);
    assert_eq!(config.last_updated, 5);
    assert!(is_admin(&state, OUTSIDER));
    assert!(!is_admin(&state, ADMIN));
}

#[test]
fn test_accept_admin_is_a_no_op() {
    let state = initialized_proxy();
    let before = get_proxy_config(&state).unwrap();
    assert_eq!(accept_admin(&state, OUTSIDER), Ok(()));
    assert_eq!(get_proxy_config(&state).unwrap(), before);
}

#[test]
fn test_emergency_stop_and_resume_are_admin_gated() {
    let state = initialized_proxy();
    assert_eq!(emergency_stop(&state, OUTSIDER), Err(ContractError::Unauthorized));
    assert_eq!(emergency_stop(&state, ADMIN), Ok(()));
    assert_eq!(resume(&state, OUTSIDER), Err(ContractError::Unauthorized));
    assert_eq!(resume(&state, ADMIN), Ok(()));
    assert!(!is_paused(&state));
}

#[test]
fn test_record_transaction_rejects_unissued_ids() {
    let mut state = initialized_proxy();
    let stray = UpgradeTransaction {
        id: 7,
        new_implementation: IMPL_B,
        initiator: ADMIN,
        timestamp: 0,
        success: false,
        failure_reason: Some(String::from("too early")),
    };
    assert_eq!(
        record_upgrade_transaction(&mut state, &stray),
        Err(ContractError::NotFound)
    );
    assert!(get_upgrade_transaction(&state, 7).is_none());

    assert_eq!(upgrade(&mut state, ADMIN, IMPL_B, 1), Ok(()));
    let amended = UpgradeTransaction {
        id: 1,
        new_implementation: IMPL_B,
        initiator: ADMIN,
        timestamp: 1,
        success: false,
        failure_reason: Some(String::from("rolled back by operator")),
    };
    assert_eq!(record_upgrade_transaction(&mut state, &amended), Ok(()));
    let read_back = get_upgrade_transaction(&state, 1).unwrap();
    assert!(!read_back.success);
    assert_eq!(read_back.failure_reason, Some(String::from("rolled back by operator")));
}

#[test]
fn test_proxy_from_parts_round_trip() {
    let mut state = initialized_proxy();
    assert_eq!(upgrade(&mut state, ADMIN, IMPL_B, 2000), Ok(()));

    let config = get_proxy_config(&state).ok();
    let history = state.history_entries().clone();
    let counter = state.transaction_counter();

    let rebuilt = ProxyState::from_parts(config, history, counter).unwrap();
    assert_eq!(get_proxy_config(&rebuilt).unwrap(), get_proxy_config(&state).unwrap());
    assert_eq!(rebuilt.transaction_counter(), 2);
    assert_eq!(get_upgrade_transaction(&rebuilt, 1).unwrap().new_implementation, IMPL_B);
}

#[test]
fn test_proxy_from_parts_rejects_bad_history() {
    let stray = UpgradeTransaction {
        id: 3,
        new_implementation: IMPL_B,
        initiator: ADMIN,
        timestamp: 0,
        success: true,
        failure_reason: None,
    };
    // id 3 was never issued by a counter standing at 2
    assert!(ProxyState::from_parts(None, vec![(3, stray)], 2).is_none());
}
