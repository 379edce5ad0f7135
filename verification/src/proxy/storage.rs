//! The proxy component's state aggregate and the operations that read and
//! write it. A host keeps one `ProxyState` in its durable store, loads it for
//! each call and persists it afterwards; every operation here is a single
//! atomic unit of work on that aggregate.

use crate::Address;
use crate::errors::ContractError;
use crate::proxy::types::{ProxyConfig, UpgradeTransaction};
use crate::table::{Table, map_of};
use vstd::prelude::*;

verus! {

/// Everything the proxy component owns: its configuration, the append-only
/// upgrade history, and the shared transaction-id counter.
pub struct ProxyState {
    /// `None` until `initialize` has run.
    pub(crate) config: Option<ProxyConfig>,
    /// Audit records of upgrade attempts, keyed by transaction id.
    pub(crate) history: Table<UpgradeTransaction>,
    /// The next transaction id to issue. Starts at 1, advances by exactly 1
    /// per issued id, and never goes back, so ids are never reused.
    pub(crate) next_transaction_id: u64,
}

impl ProxyState {
    /// The configuration, if initialized.
    pub closed spec fn spec_config(self) -> Option<ProxyConfig> {
        self.config
    }

    /// The recorded upgrade transactions, by id.
    pub closed spec fn spec_history(self) -> Map<u64, UpgradeTransaction> {
        self.history@
    }

    /// The next transaction id the shared counter will issue.
    pub closed spec fn spec_next_transaction_id(self) -> u64 {
        self.next_transaction_id
    }

    /// Internal consistency: ids were issued by the counter, and each record
    /// sits under its own id.
    pub closed spec fn wf(self) -> bool {
        &&& self.history.wf()
        &&& self.next_transaction_id >= 1
        &&& forall|id: u64| #[trigger]
            self.history@.dom().contains(id) ==> 1 <= id < self.next_transaction_id
                && self.history@[id].id == id
    }

    /// Whether `initialize` has run.
    pub open spec fn spec_is_initialized(self) -> bool {
        self.spec_config() is Some
    }

    /// Whether `address` is the admin of an initialized proxy.
    pub open spec fn spec_is_admin(self, address: Address) -> bool {
        match self.spec_config() {
            Some(config) => config.admin == address,
            None => false,
        }
    }

    /// A proxy with no configuration, an empty history, and the transaction
    /// counter at its starting point.
    pub fn new() -> (state: ProxyState)
        ensures
            state.wf(),
            state.spec_config() is None,
            state.spec_history() == Map::<u64, UpgradeTransaction>::empty(),
            state.spec_next_transaction_id() == 1,
    {
        ProxyState { config: None, history: Table::new(), next_transaction_id: 1 }
    }

    /// Read-only access to the history entries, for a host that persists the
    /// aggregate between calls.
    pub fn history_entries(&self) -> (r: &Vec<(u64, UpgradeTransaction)>)
        ensures
            map_of(r@) == self.spec_history(),
    {
        self.history.entries()
    }

    /// The next transaction id the shared counter will issue.
    pub fn transaction_counter(&self) -> (r: u64)
        ensures
            r == self.spec_next_transaction_id(),
    {
        self.next_transaction_id
    }

    /// Rebuilds the aggregate a host persisted. The parts are validated: the
    /// counter must have a sane starting point and every history entry must
    /// sit under an issued id of its own, else nothing is built.
    pub fn from_parts(
        config: Option<ProxyConfig>,
        history: Vec<(u64, UpgradeTransaction)>,
        next_transaction_id: u64,
    ) -> (r: Option<ProxyState>)
        ensures
            r is Some <==> spec_history_parts_ok(history@, next_transaction_id),
            match r {
                Some(state) => {
                    &&& state.wf()
                    &&& state.spec_config() == config
                    &&& state.spec_history() == map_of(history@)
                    &&& state.spec_next_transaction_id() == next_transaction_id
                },
                None => true,
            },
    {
        if next_transaction_id < 1 {
            return None;
        }
        let n = history.len();
        let mut i: usize = 0;
        while i < n
            invariant
                n == history@.len(),
                i <= n,
                forall|j: int|
                    0 <= j < i ==> 1 <= #[trigger] history@[j].0 < next_transaction_id
                        && history@[j].1.id == history@[j].0,
            decreases n - i,
        {
            let entry = &history[i];
            if !(1 <= entry.0 && entry.0 < next_transaction_id && entry.1.id == entry.0) {
                return None;
            }
            i = i + 1;
        }
        let ghost entries = history@;
        let table = Table::from_entries(history);
        proof {
            crate::table::lemma_map_of_values(entries);
        }
        Some(ProxyState { config, history: table, next_transaction_id })
    }
}

/// Persisted history parts a `ProxyState` can be rebuilt from: the counter
/// has been past every entry's id, and each record sits under its own id.
pub open spec fn spec_history_parts_ok(
    entries: Seq<(u64, UpgradeTransaction)>,
    next_transaction_id: u64,
) -> bool {
    &&& next_transaction_id >= 1
    &&& forall|j: int|
        0 <= j < entries.len() ==> 1 <= #[trigger] entries[j].0 < next_transaction_id
            && entries[j].1.id == entries[j].0
}

/// Sets up the proxy: the given implementation becomes active under the given
/// admin, the version counter starts at 1, and the history is reset. The
/// transaction-id counter is shared across initializations and keeps its
/// value.
pub fn initialize(
    state: &mut ProxyState,
    initial_implementation: Address,
    admin: Address,
    now: u64,
)
    requires
        old(state).wf(),
    ensures
        final(state).wf(),
        final(state).spec_config() == (Some(
            ProxyConfig { implementation: initial_implementation, admin, version: 1, last_updated: now },
        )),
        final(state).spec_history() == Map::<u64, UpgradeTransaction>::empty(),
        final(state).spec_next_transaction_id() == old(state).spec_next_transaction_id(),
{
    state.config = Some(
        ProxyConfig { implementation: initial_implementation, admin, version: 1, last_updated: now },
    );
    state.history = Table::new();
}

/// Issues the next transaction id from the shared monotonic counter.
pub(crate) fn allocate_transaction_id(state: &mut ProxyState) -> (id: u64)
    requires
        old(state).wf(),
        old(state).spec_next_transaction_id() < u64::MAX,
    ensures
        final(state).wf(),
        id == old(state).spec_next_transaction_id(),
        id >= 1,
        final(state).spec_next_transaction_id() == id + 1,
        final(state).spec_config() == old(state).spec_config(),
        final(state).spec_history() == old(state).spec_history(),
{
    let id = state.next_transaction_id;
    state.next_transaction_id = id + 1;
    id
}

/// An id the shared counter has not issued yet never sits in the history.
pub proof fn lemma_unissued_id_absent(state: ProxyState, id: u64)
    requires
        state.wf(),
        id >= state.spec_next_transaction_id(),
    ensures
        !state.spec_history().dom().contains(id),
{
}

/// The current proxy configuration, or `Uninitialized` before `initialize`.
pub fn get_proxy_config(state: &ProxyState) -> (r: Result<ProxyConfig, ContractError>)
    ensures
        r == match state.spec_config() {
            Some(config) => Ok::<ProxyConfig, ContractError>(config),
            None => Err::<ProxyConfig, ContractError>(ContractError::Uninitialized),
        },
{
    match &state.config {
        Some(config) => Ok(*config),
        None => Err(ContractError::Uninitialized),
    }
}

/// The active implementation's handle, or `Uninitialized`.
pub fn get_implementation(state: &ProxyState) -> (r: Result<Address, ContractError>)
    ensures
        r == match state.spec_config() {
            Some(config) => Ok::<Address, ContractError>(config.implementation),
            None => Err::<Address, ContractError>(ContractError::Uninitialized),
        },
{
    match &state.config {
        Some(config) => Ok(config.implementation),
        None => Err(ContractError::Uninitialized),
    }
}

/// Makes `implementation` the active one, increments the version counter and
/// stamps the time. Fails with `Uninitialized` before `initialize`.
pub fn set_implementation(state: &mut ProxyState, implementation: Address, now: u64) -> (r: Result<
    (),
    ContractError,
>)
    requires
        old(state).wf(),
        match old(state).spec_config() {
            Some(config) => config.version < u32::MAX,
            None => true,
        },
    ensures
        final(state).wf(),
        match old(state).spec_config() {
            Some(config) => {
                &&& r == Ok::<(), ContractError>(())
                &&& final(state).spec_config() == (Some(
                    ProxyConfig {
                        implementation,
                        admin: config.admin,
                        version: (config.version + 1) as u32,
                        last_updated: now,
                    },
                ))
                &&& final(state).spec_history() == old(state).spec_history()
                &&& final(state).spec_next_transaction_id() == old(
                    state,
                ).spec_next_transaction_id()
            },
            None => r == Err::<(), ContractError>(ContractError::Uninitialized) && *final(state)
                == *old(state),
        },
{
    match &state.config {
        Some(config) => {
            state.config = Some(
                ProxyConfig {
                    implementation,
                    admin: config.admin,
                    version: config.version + 1,
                    last_updated: now,
                },
            );
            Ok(())
        },
        None => Err(ContractError::Uninitialized),
    }
}

/// The admin's handle, or `Uninitialized`.
pub fn get_admin(state: &ProxyState) -> (r: Result<Address, ContractError>)
    ensures
        r == match state.spec_config() {
            Some(config) => Ok::<Address, ContractError>(config.admin),
            None => Err::<Address, ContractError>(ContractError::Uninitialized),
        },
{
    match &state.config {
        Some(config) => Ok(config.admin),
        None => Err(ContractError::Uninitialized),
    }
}

/// Overwrites the admin and stamps the time. Fails with `Uninitialized`
/// before `initialize`.
pub fn set_admin(state: &mut ProxyState, admin: Address, now: u64) -> (r: Result<
    (),
    ContractError,
>)
    requires
        old(state).wf(),
    ensures
        final(state).wf(),
        match old(state).spec_config() {
            Some(config) => {
                &&& r == Ok::<(), ContractError>(())
                &&& final(state).spec_config() == (Some(
                    ProxyConfig {
                        implementation: config.implementation,
                        admin,
                        version: config.version,
                        last_updated: now,
                    },
                ))
                &&& final(state).spec_history() == old(state).spec_history()
                &&& final(state).spec_next_transaction_id() == old(
                    state,
                ).spec_next_transaction_id()
            },
            None => r == Err::<(), ContractError>(ContractError::Uninitialized) && *final(state)
                == *old(state),
        },
{
    match &state.config {
        Some(config) => {
            state.config = Some(
                ProxyConfig {
                    implementation: config.implementation,
                    admin,
                    version: config.version,
                    last_updated: now,
                },
            );
            Ok(())
        },
        None => Err(ContractError::Uninitialized),
    }
}

/// Files an audit record under its own id. Only ids the shared counter has
/// already issued are accepted; anything else is `NotFound`, so the history
/// stays keyed by issued ids.
pub fn record_upgrade_transaction(state: &mut ProxyState, transaction: &UpgradeTransaction) -> (r:
    Result<(), ContractError>)
    requires
        old(state).wf(),
    ensures
        final(state).wf(),
        if 1 <= transaction.id < old(state).spec_next_transaction_id() {
            &&& r == Ok::<(), ContractError>(())
            &&& final(state).spec_history() == old(state).spec_history().insert(
                transaction.id,
                *transaction,
            )
            &&& final(state).spec_config() == old(state).spec_config()
            &&& final(state).spec_next_transaction_id() == old(state).spec_next_transaction_id()
        } else {
            r == Err::<(), ContractError>(ContractError::NotFound) && *final(state) == *old(state)
        },
{
    if 1 <= transaction.id && transaction.id < state.next_transaction_id {
        state.history.set(transaction.id, transaction.clone());
        Ok(())
    } else {
        Err(ContractError::NotFound)
    }
}

/// Looks an audit record up by id.
pub fn get_upgrade_transaction(state: &ProxyState, id: u64) -> (r: Option<UpgradeTransaction>)
    requires
        state.wf(),
    ensures
        match r {
            Some(transaction) => state.spec_history().dom().contains(id) && transaction
                == state.spec_history()[id],
            None => !state.spec_history().dom().contains(id),
        },
{
    match state.history.get(id) {
        Some(transaction) => Some(transaction.clone()),
        None => None,
    }
}

/// Whether `address` is the admin. An uninitialized proxy has no admin.
pub fn is_admin(state: &ProxyState, address: Address) -> (r: bool)
    ensures
        r == state.spec_is_admin(address),
{
    match &state.config {
        Some(config) => config.admin == address,
        None => false,
    }
}

/// Whether `address` is the active implementation. An uninitialized proxy has
/// none.
pub fn is_current_implementation(state: &ProxyState, address: Address) -> (r: bool)
    ensures
        r == match state.spec_config() {
            Some(config) => config.implementation == address,
            None => false,
        },
{
    match &state.config {
        Some(config) => config.implementation == address,
        None => false,
    }
}

} // verus!
