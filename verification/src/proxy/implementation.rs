//! The proxy component's operations. Every mutating operation takes the
//! caller's identity, already verified by the host's authentication
//! primitive, and is gated on the stored admin; an unauthorized or
//! uninitialized call leaves the state untouched.

use crate::Address;
use crate::errors::ContractError;
use crate::proxy::storage::ProxyState;
use crate::proxy::storage;
use crate::proxy::types::{ProxyConfig, UpgradeTransaction};
use vstd::prelude::*;

verus! {

/// The audit record a successful upgrade files.
pub open spec fn spec_upgrade_transaction(
    id: u64,
    new_implementation: Address,
    initiator: Address,
    now: u64,
) -> UpgradeTransaction {
    UpgradeTransaction {
        id,
        new_implementation,
        initiator,
        timestamp: now,
        success: true,
        failure_reason: None,
    }
}

/// What one successful `upgrade` call does: it issues id `id` from the shared
/// counter, files a successful audit record under it, redirects the proxy to
/// `new_implementation`, increments the version counter and stamps the time —
/// all of it together, never a part.
pub open spec fn upgrade_transition(
    pre: ProxyState,
    post: ProxyState,
    caller: Address,
    new_implementation: Address,
    now: u64,
    id: u64,
) -> bool {
    &&& pre.spec_is_admin(caller)
    &&& id == pre.spec_next_transaction_id()
    &&& post.spec_next_transaction_id() == id + 1
    &&& post.spec_history() == pre.spec_history().insert(
        id,
        spec_upgrade_transaction(id, new_implementation, caller, now),
    )
    &&& match pre.spec_config() {
        Some(config) => post.spec_config() == (Some(
            ProxyConfig {
                implementation: new_implementation,
                admin: config.admin,
                version: (config.version + 1) as u32,
                last_updated: now,
            },
        )),
        None => false,
    }
}

/// Replaces the active implementation. Only the admin may do so; the audit
/// record, the redirection, the version bump and the timestamp are applied
/// atomically, so a partial write can never be observed.
pub fn upgrade(
    state: &mut ProxyState,
    caller: Address,
    new_implementation: Address,
    now: u64,
) -> (r: Result<(), ContractError>)
    requires
        old(state).wf(),
        old(state).spec_is_admin(caller) ==> old(state).spec_next_transaction_id() < u64::MAX,
        match old(state).spec_config() {
            Some(config) => config.admin == caller ==> config.version < u32::MAX,
            None => true,
        },
    ensures
        final(state).wf(),
        r is Ok <==> old(state).spec_is_admin(caller),
        match r {
            Ok(_) => upgrade_transition(
                *old(state),
                *final(state),
                caller,
                new_implementation,
                now,
                old(state).spec_next_transaction_id(),
            ),
            Err(e) => *final(state) == *old(state) && e == if old(state).spec_is_initialized() {
                ContractError::Unauthorized
            } else {
                ContractError::Uninitialized
            },
        },
{
    let config = match storage::get_proxy_config(state) {
        Ok(config) => config,
        Err(e) => {
            return Err(e);
        },
    };
    if config.admin != caller {
        return Err(ContractError::Unauthorized);
    }
    let id = storage::allocate_transaction_id(state);
    match storage::set_implementation(state, new_implementation, now) {
        Ok(_) => {},
        Err(_) => unreached(),
    }
    let transaction = UpgradeTransaction {
        id,
        new_implementation,
        initiator: caller,
        timestamp: now,
        success: true,
        failure_reason: None,
    };
    match storage::record_upgrade_transaction(state, &transaction) {
        Ok(_) => Ok(()),
        Err(_) => unreached(),
    }
}

/// Two upgrades in a row issue consecutive transaction ids: the issued ids of
/// a run of successful upgrades form an exact gap-free sequence.
pub proof fn lemma_upgrade_ids_consecutive(
    s0: ProxyState,
    s1: ProxyState,
    s2: ProxyState,
    caller1: Address,
    impl1: Address,
    now1: u64,
    id1: u64,
    caller2: Address,
    impl2: Address,
    now2: u64,
    id2: u64,
)
    requires
        upgrade_transition(s0, s1, caller1, impl1, now1, id1),
        upgrade_transition(s1, s2, caller2, impl2, now2, id2),
    ensures
        id2 == id1 + 1,
{
}

/// An upgrade files its record under an id the history has never used, and
/// the record is there afterwards: the history is append-only.
pub proof fn lemma_upgrade_id_fresh(
    pre: ProxyState,
    post: ProxyState,
    caller: Address,
    new_implementation: Address,
    now: u64,
    id: u64,
)
    requires
        pre.wf(),
        upgrade_transition(pre, post, caller, new_implementation, now, id),
    ensures
        !pre.spec_history().dom().contains(id),
        post.spec_history().dom().contains(id),
        post.spec_history()[id] == spec_upgrade_transaction(id, new_implementation, caller, now),
{
    storage::lemma_unissued_id_absent(pre, id);
}

/// Hands the admin role to `new_admin` at once; there is no two-phase
/// acceptance in this design. Only the current admin may transfer.
pub fn transfer_admin(state: &mut ProxyState, caller: Address, new_admin: Address, now: u64) -> (r:
    Result<(), ContractError>)
    requires
        old(state).wf(),
    ensures
        final(state).wf(),
        r is Ok <==> old(state).spec_is_admin(caller),
        match r {
            Ok(_) => match old(state).spec_config() {
                Some(config) => {
                    &&& final(state).spec_config() == (Some(
                        ProxyConfig {
                            implementation: config.implementation,
                            admin: new_admin,
                            version: config.version,
                            last_updated: now,
                        },
                    ))
                    &&& final(state).spec_history() == old(state).spec_history()
                    &&& final(state).spec_next_transaction_id() == old(
                        state,
                    ).spec_next_transaction_id()
                },
                None => false,
            },
            Err(e) => *final(state) == *old(state) && e == if old(state).spec_is_initialized() {
                ContractError::Unauthorized
            } else {
                ContractError::Uninitialized
            },
        },
{
    let config = match storage::get_proxy_config(state) {
        Ok(config) => config,
        Err(e) => {
            return Err(e);
        },
    };
    if config.admin != caller {
        return Err(ContractError::Unauthorized);
    }
    storage::set_admin(state, new_admin, now)
}

/// Acknowledges an admin transfer. In this design the transfer in
/// `transfer_admin` is already complete, so accepting changes nothing; the
/// operation exists for hosts that notify observers on acceptance.
pub fn accept_admin(_state: &ProxyState, _new_admin: Address) -> (r: Result<(), ContractError>)
    ensures
        r is Ok,
{
    Ok(())
}

/// Admin-gated emergency stop. In this design it changes no stored state and
/// no other operation consults a paused flag; the admin check alone is real,
/// so a host can rely on the returned verdict to notify observers.
pub fn emergency_stop(state: &ProxyState, caller: Address) -> (r: Result<(), ContractError>)
    ensures
        r is Ok <==> state.spec_is_admin(caller),
        r matches Err(e) ==> e == if state.spec_is_initialized() {
            ContractError::Unauthorized
        } else {
            ContractError::Uninitialized
        },
{
    match storage::get_proxy_config(state) {
        Err(e) => Err(e),
        Ok(config) => {
            if config.admin != caller {
                Err(ContractError::Unauthorized)
            } else {
                Ok(())
            }
        },
    }
}

/// Admin-gated resume after an emergency stop; like `emergency_stop` it
/// changes no stored state in this design.
pub fn resume(state: &ProxyState, caller: Address) -> (r: Result<(), ContractError>)
    ensures
        r is Ok <==> state.spec_is_admin(caller),
        r matches Err(e) ==> e == if state.spec_is_initialized() {
            ContractError::Unauthorized
        } else {
            ContractError::Uninitialized
        },
{
    match storage::get_proxy_config(state) {
        Err(e) => Err(e),
        Ok(config) => {
            if config.admin != caller {
                Err(ContractError::Unauthorized)
            } else {
                Ok(())
            }
        },
    }
}

/// The full proxy configuration, or `Uninitialized`.
pub fn get_proxy_info(state: &ProxyState) -> (r: Result<ProxyConfig, ContractError>)
    ensures
        r == match state.spec_config() {
            Some(config) => Ok::<ProxyConfig, ContractError>(config),
            None => Err::<ProxyConfig, ContractError>(ContractError::Uninitialized),
        },
{
    storage::get_proxy_config(state)
}

/// Whether the proxy is paused. No operation in this design sets a paused
/// state, so the answer is always no.
pub fn is_paused(_state: &ProxyState) -> (r: bool)
    ensures
        r == false,
{
    false
}

} // verus!
