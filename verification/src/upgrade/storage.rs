//! The governed-upgrade component's state aggregate and the operations that
//! read and write it. A host keeps one `GovernanceState` in its durable
//! store; each operation is a single atomic unit of work on that aggregate.

use crate::Address;
use crate::errors::ContractError;
use crate::table::{Table, map_of};
use crate::upgrade::types::{MigrationPlan, UpgradeProposal, UpgradeStatus, Version};
use vstd::prelude::*;

verus! {

/// Everything the governed-upgrade component owns: the singleton
/// configuration, the proposal arena with its id counter, the externally
/// provisioned voting weights, and the registered migration plans.
pub struct GovernanceState {
    /// The active version; `None` until `initialize` has run.
    pub(crate) current_version: Option<Version>,
    /// The single identity allowed to execute, roll back, toggle the
    /// emergency path and register plans; `None` until `initialize` has run.
    pub(crate) governance: Option<Address>,
    /// Whether the emergency bypass is open. Off until toggled on.
    pub(crate) emergency_enabled: bool,
    /// Proposals, keyed by proposal id.
    pub(crate) proposals: Table<UpgradeProposal>,
    /// The next proposal id to issue. Starts at 1, advances by exactly 1 per
    /// issued id, and never goes back, so ids are never reused.
    pub(crate) next_proposal_id: u64,
    /// Voting weight per identity; an unregistered identity weighs 0.
    pub(crate) voting_power: Table<u32>,
    /// Migration plans, keyed by the proposal id they belong to.
    pub(crate) migration_plans: Table<MigrationPlan>,
}

impl GovernanceState {
    /// The active version, if initialized.
    pub closed spec fn spec_current_version(self) -> Option<Version> {
        self.current_version
    }

    /// The governance identity, if initialized.
    pub closed spec fn spec_governance(self) -> Option<Address> {
        self.governance
    }

    /// Whether the emergency bypass is open.
    pub closed spec fn spec_emergency_enabled(self) -> bool {
        self.emergency_enabled
    }

    /// The stored proposals, by id.
    pub closed spec fn spec_proposals(self) -> Map<u64, UpgradeProposal> {
        self.proposals@
    }

    /// The next proposal id the counter will issue.
    pub closed spec fn spec_next_proposal_id(self) -> u64 {
        self.next_proposal_id
    }

    /// The provisioned voting weights, by identity.
    pub closed spec fn spec_voting_power(self) -> Map<Address, u32> {
        self.voting_power@
    }

    /// The registered migration plans, by proposal id.
    pub closed spec fn spec_migration_plans(self) -> Map<u64, MigrationPlan> {
        self.migration_plans@
    }

    /// The weight a vote by `voter` carries: the registered weight, or 0.
    pub open spec fn spec_weight_of(self, voter: Address) -> u32 {
        if self.spec_voting_power().dom().contains(voter) {
            self.spec_voting_power()[voter]
        } else {
            0
        }
    }

    /// Whether `address` is the governance identity.
    pub open spec fn spec_is_governance(self, address: Address) -> bool {
        self.spec_governance() == Some(address)
    }

    /// Internal consistency: proposal ids were issued by the counter, and
    /// each proposal sits under its own id.
    pub closed spec fn wf(self) -> bool {
        &&& self.proposals.wf()
        &&& self.voting_power.wf()
        &&& self.migration_plans.wf()
        &&& self.next_proposal_id >= 1
        &&& forall|id: u64| #[trigger]
            self.proposals@.dom().contains(id) ==> 1 <= id < self.next_proposal_id
                && self.proposals@[id].id == id
    }

    /// A component with nothing configured, no records, and the proposal
    /// counter at its starting point.
    pub fn new() -> (state: GovernanceState)
        ensures
            state.wf(),
            state.spec_current_version() is None,
            state.spec_governance() is None,
            !state.spec_emergency_enabled(),
            state.spec_proposals() == Map::<u64, UpgradeProposal>::empty(),
            state.spec_next_proposal_id() == 1,
            state.spec_voting_power() == Map::<Address, u32>::empty(),
            state.spec_migration_plans() == Map::<u64, MigrationPlan>::empty(),
    {
        GovernanceState {
            current_version: None,
            governance: None,
            emergency_enabled: false,
            proposals: Table::new(),
            next_proposal_id: 1,
            voting_power: Table::new(),
            migration_plans: Table::new(),
        }
    }

    /// Read-only access to the proposal entries, for a host that persists the
    /// aggregate between calls.
    pub fn proposal_entries(&self) -> (r: &Vec<(u64, UpgradeProposal)>)
        ensures
            map_of(r@) == self.spec_proposals(),
    {
        self.proposals.entries()
    }

    /// The next proposal id the counter will issue.
    pub fn proposal_counter(&self) -> (r: u64)
        ensures
            r == self.spec_next_proposal_id(),
    {
        self.next_proposal_id
    }

    /// Read-only access to the voting-weight entries.
    pub fn voting_power_entries(&self) -> (r: &Vec<(Address, u32)>)
        ensures
            map_of(r@) == self.spec_voting_power(),
    {
        self.voting_power.entries()
    }

    /// Read-only access to the migration-plan entries.
    pub fn migration_plan_entries(&self) -> (r: &Vec<(u64, MigrationPlan)>)
        ensures
            map_of(r@) == self.spec_migration_plans(),
    {
        self.migration_plans.entries()
    }

    /// Rebuilds the aggregate a host persisted. The parts are validated: the
    /// proposal counter must have a sane starting point and every proposal
    /// entry must sit under an issued id of its own, else nothing is built.
    pub fn from_parts(
        current_version: Option<Version>,
        governance: Option<Address>,
        emergency_enabled: bool,
        proposals: Vec<(u64, UpgradeProposal)>,
        next_proposal_id: u64,
        voting_power: Vec<(Address, u32)>,
        migration_plans: Vec<(u64, MigrationPlan)>,
    ) -> (r: Option<GovernanceState>)
        ensures
            r is Some <==> spec_proposal_parts_ok(proposals@, next_proposal_id),
            match r {
                Some(state) => {
                    &&& state.wf()
                    &&& state.spec_current_version() == current_version
                    &&& state.spec_governance() == governance
                    &&& state.spec_emergency_enabled() == emergency_enabled
                    &&& state.spec_proposals() == map_of(proposals@)
                    &&& state.spec_next_proposal_id() == next_proposal_id
                    &&& state.spec_voting_power() == map_of(voting_power@)
                    &&& state.spec_migration_plans() == map_of(migration_plans@)
                },
                None => true,
            },
    {
        if next_proposal_id < 1 {
            return None;
        }
        let n = proposals.len();
        let mut i: usize = 0;
        while i < n
            invariant
                n == proposals@.len(),
                i <= n,
                forall|j: int|
                    0 <= j < i ==> 1 <= #[trigger] proposals@[j].0 < next_proposal_id
                        && proposals@[j].1.id == proposals@[j].0,
            decreases n - i,
        {
            let entry = &proposals[i];
            if !(1 <= entry.0 && entry.0 < next_proposal_id && entry.1.id == entry.0) {
                return None;
            }
            i = i + 1;
        }
        let ghost proposal_entries = proposals@;
        let proposal_table = Table::from_entries(proposals);
        proof {
            crate::table::lemma_map_of_values(proposal_entries);
        }
        Some(
            GovernanceState {
                current_version,
                governance,
                emergency_enabled,
                proposals: proposal_table,
                next_proposal_id,
                voting_power: Table::from_entries(voting_power),
                migration_plans: Table::from_entries(migration_plans),
            },
        )
    }
}

/// Persisted proposal parts a `GovernanceState` can be rebuilt from: the
/// counter has been past every entry's id, and each proposal sits under its
/// own id.
pub open spec fn spec_proposal_parts_ok(
    entries: Seq<(u64, UpgradeProposal)>,
    next_proposal_id: u64,
) -> bool {
    &&& next_proposal_id >= 1
    &&& forall|j: int|
        0 <= j < entries.len() ==> 1 <= #[trigger] entries[j].0 < next_proposal_id
            && entries[j].1.id == entries[j].0
}

/// The parts of the singleton configuration agree between two states.
pub open spec fn same_config(pre: GovernanceState, post: GovernanceState) -> bool {
    &&& post.spec_current_version() == pre.spec_current_version()
    &&& post.spec_governance() == pre.spec_governance()
    &&& post.spec_emergency_enabled() == pre.spec_emergency_enabled()
}

/// The proposal arena and its id counter agree between two states.
pub open spec fn same_proposals(pre: GovernanceState, post: GovernanceState) -> bool {
    &&& post.spec_proposals() == pre.spec_proposals()
    &&& post.spec_next_proposal_id() == pre.spec_next_proposal_id()
}

/// The voting weights agree between two states.
pub open spec fn same_voting_power(pre: GovernanceState, post: GovernanceState) -> bool {
    post.spec_voting_power() == pre.spec_voting_power()
}

/// The migration plans agree between two states.
pub open spec fn same_migration_plans(pre: GovernanceState, post: GovernanceState) -> bool {
    post.spec_migration_plans() == pre.spec_migration_plans()
}

/// Sets up governance: the given version becomes active under the given
/// governance identity, the emergency bypass is closed, and the proposal,
/// weight and plan records are reset. The proposal-id counter keeps its
/// value, so ids are never reissued across initializations.
pub fn initialize(state: &mut GovernanceState, initial_version: Version, governance_address: Address)
    requires
        old(state).wf(),
    ensures
        final(state).wf(),
        final(state).spec_current_version() == Some(initial_version),
        final(state).spec_governance() == Some(governance_address),
        !final(state).spec_emergency_enabled(),
        final(state).spec_proposals() == Map::<u64, UpgradeProposal>::empty(),
        final(state).spec_next_proposal_id() == old(state).spec_next_proposal_id(),
        final(state).spec_voting_power() == Map::<Address, u32>::empty(),
        final(state).spec_migration_plans() == Map::<u64, MigrationPlan>::empty(),
{
    state.current_version = Some(initial_version);
    state.governance = Some(governance_address);
    state.emergency_enabled = false;
    state.proposals = Table::new();
    state.voting_power = Table::new();
    state.migration_plans = Table::new();
}

/// The active version, or `Uninitialized` before `initialize`.
pub fn get_current_version(state: &GovernanceState) -> (r: Result<Version, ContractError>)
    ensures
        r == match state.spec_current_version() {
            Some(version) => Ok::<Version, ContractError>(version),
            None => Err::<Version, ContractError>(ContractError::Uninitialized),
        },
{
    match &state.current_version {
        Some(version) => Ok(*version),
        None => Err(ContractError::Uninitialized),
    }
}

/// Makes `version` the active one.
pub fn set_current_version(state: &mut GovernanceState, version: &Version)
    requires
        old(state).wf(),
    ensures
        final(state).wf(),
        final(state).spec_current_version() == Some(*version),
        final(state).spec_governance() == old(state).spec_governance(),
        final(state).spec_emergency_enabled() == old(state).spec_emergency_enabled(),
        same_proposals(*old(state), *final(state)),
        same_voting_power(*old(state), *final(state)),
        same_migration_plans(*old(state), *final(state)),
{
    state.current_version = Some(*version);
}

/// The governance identity, or `Uninitialized` before `initialize`.
pub fn get_governance_address(state: &GovernanceState) -> (r: Result<Address, ContractError>)
    ensures
        r == match state.spec_governance() {
            Some(address) => Ok::<Address, ContractError>(address),
            None => Err::<Address, ContractError>(ContractError::Uninitialized),
        },
{
    match &state.governance {
        Some(address) => Ok(*address),
        None => Err(ContractError::Uninitialized),
    }
}

/// Issues the next proposal id from the monotonic counter.
pub(crate) fn allocate_proposal_id(state: &mut GovernanceState) -> (id: u64)
    requires
        old(state).wf(),
        old(state).spec_next_proposal_id() < u64::MAX,
    ensures
        final(state).wf(),
        id == old(state).spec_next_proposal_id(),
        id >= 1,
        final(state).spec_next_proposal_id() == id + 1,
        same_config(*old(state), *final(state)),
        final(state).spec_proposals() == old(state).spec_proposals(),
        same_voting_power(*old(state), *final(state)),
        same_migration_plans(*old(state), *final(state)),
{
    let id = state.next_proposal_id;
    state.next_proposal_id = id + 1;
    id
}

/// An id the counter has not issued yet never sits in the proposal arena.
pub proof fn lemma_unissued_proposal_absent(state: GovernanceState, id: u64)
    requires
        state.wf(),
        id >= state.spec_next_proposal_id(),
    ensures
        !state.spec_proposals().dom().contains(id),
{
}

/// Every stored proposal sits under its own id.
pub proof fn lemma_proposal_id_consistent(state: GovernanceState, id: u64)
    requires
        state.wf(),
        state.spec_proposals().dom().contains(id),
    ensures
        state.spec_proposals()[id].id == id,
        1 <= id < state.spec_next_proposal_id(),
{
}

/// Files a proposal under its own id, overwriting what was there. Only ids
/// the counter has already issued are accepted — this is also how a host
/// provisions `total_voters` with the quorum base snapshotted for an issued
/// proposal — and anything else is `NotFound`.
pub fn store_upgrade_proposal(state: &mut GovernanceState, proposal: &UpgradeProposal) -> (r:
    Result<(), ContractError>)
    requires
        old(state).wf(),
    ensures
        final(state).wf(),
        if 1 <= proposal.id < old(state).spec_next_proposal_id() {
            &&& r == Ok::<(), ContractError>(())
            &&& final(state).spec_proposals() == old(state).spec_proposals().insert(
                proposal.id,
                *proposal,
            )
            &&& final(state).spec_next_proposal_id() == old(state).spec_next_proposal_id()
            &&& same_config(*old(state), *final(state))
            &&& same_voting_power(*old(state), *final(state))
            &&& same_migration_plans(*old(state), *final(state))
        } else {
            r == Err::<(), ContractError>(ContractError::NotFound) && *final(state) == *old(state)
        },
{
    if 1 <= proposal.id && proposal.id < state.next_proposal_id {
        state.proposals.set(proposal.id, proposal.clone());
        Ok(())
    } else {
        Err(ContractError::NotFound)
    }
}

/// Looks a proposal up by id.
pub fn get_upgrade_proposal(state: &GovernanceState, proposal_id: u64) -> (r: Option<
    UpgradeProposal,
>)
    requires
        state.wf(),
    ensures
        match r {
            Some(proposal) => state.spec_proposals().dom().contains(proposal_id) && proposal
                == state.spec_proposals()[proposal_id],
            None => !state.spec_proposals().dom().contains(proposal_id),
        },
{
    match state.proposals.get(proposal_id) {
        Some(proposal) => Some(proposal.clone()),
        None => None,
    }
}

/// All proposals still pending, in increasing id order: every entry is a
/// stored pending proposal, and every stored pending proposal is an entry.
pub fn get_pending_proposals(state: &GovernanceState) -> (r: Vec<UpgradeProposal>)
    requires
        state.wf(),
    ensures
        forall|j: int| #![trigger r@[j]]
            0 <= j < r@.len() ==> state.spec_proposals().dom().contains(r@[j].id) && r@[j]
                == state.spec_proposals()[r@[j].id] && r@[j].status is Pending,
        forall|j1: int, j2: int|
            #![trigger r@[j1].id, r@[j2].id]
            0 <= j1 < j2 < r@.len() ==> r@[j1].id < r@[j2].id,
        forall|id: u64| #[trigger]
            state.spec_proposals().dom().contains(id) && state.spec_proposals()[id].status
                is Pending ==> exists|j: int| 0 <= j < r@.len() && r@[j].id == id,
{
    let mut result: Vec<UpgradeProposal> = Vec::new();
    let mut id: u64 = 1;
    while id < state.next_proposal_id
        invariant
            state.wf(),
            1 <= id <= state.spec_next_proposal_id(),
            forall|j: int| #![trigger result@[j]]
                0 <= j < result@.len() ==> state.spec_proposals().dom().contains(result@[j].id)
                    && result@[j] == state.spec_proposals()[result@[j].id] && result@[j].status
                    is Pending && result@[j].id < id,
            forall|j1: int, j2: int|
                #![trigger result@[j1].id, result@[j2].id]
                0 <= j1 < j2 < result@.len() ==> result@[j1].id < result@[j2].id,
            forall|id2: u64| #[trigger]
                state.spec_proposals().dom().contains(id2) && state.spec_proposals()[id2].status
                    is Pending && id2 < id ==> exists|j: int|
                    0 <= j < result@.len() && result@[j].id == id2,
        decreases state.spec_next_proposal_id() - id,
    {
        let ghost prev = result@;
        match state.proposals.get(id) {
            Some(proposal) => {
                if proposal.status == UpgradeStatus::Pending {
                    proof {
                        lemma_proposal_id_consistent(*state, id);
                    }
                    result.push(proposal.clone());
                }
            },
            None => {},
        }
        proof {
            assert forall|id2: u64| #[trigger]
                state.spec_proposals().dom().contains(id2) && state.spec_proposals()[id2].status
                    is Pending && id2 < id + 1 implies exists|j: int|
                0 <= j < result@.len() && result@[j].id == id2 by {
                if id2 < id {
                    let j = choose|j: int| 0 <= j < prev.len() && prev[j].id == id2;
                    assert(result@[j].id == id2);
                } else {
                    assert(result@[result@.len() - 1].id == id2);
                }
            }
        }
        id = id + 1;
    }
    proof {
        assert forall|id2: u64| #[trigger]
            state.spec_proposals().dom().contains(id2) && state.spec_proposals()[id2].status
                is Pending implies id2 < id by {
            lemma_proposal_id_consistent(*state, id2);
        }
    }
    result
}

/// Rewrites a stored proposal's status, leaving every other field alone; an
/// unknown id changes nothing.
pub fn update_proposal_status(state: &mut GovernanceState, proposal_id: u64, status: UpgradeStatus)
    requires
        old(state).wf(),
    ensures
        final(state).wf(),
        if old(state).spec_proposals().dom().contains(proposal_id) {
            final(state).spec_proposals() == old(state).spec_proposals().insert(
                proposal_id,
                spec_with_status(old(state).spec_proposals()[proposal_id], status),
            ) && final(state).spec_next_proposal_id() == old(state).spec_next_proposal_id()
                && same_config(*old(state), *final(state)) && same_voting_power(
                *old(state),
                *final(state),
            ) && same_migration_plans(*old(state), *final(state))
        } else {
            *final(state) == *old(state)
        },
{
    let existing = match state.proposals.get(proposal_id) {
        Some(proposal) => Some(proposal.clone()),
        None => None,
    };
    match existing {
        Some(mut proposal) => {
            proof {
                lemma_proposal_id_consistent(*state, proposal_id);
            }
            proposal.status = status;
            state.proposals.set(proposal_id, proposal);
        },
        None => {},
    }
}

/// The same proposal with only its status replaced.
pub open spec fn spec_with_status(proposal: UpgradeProposal, status: UpgradeStatus) -> UpgradeProposal {
    UpgradeProposal { status, ..proposal }
}

/// Registers `power` as the voting weight of `address`, overwriting any
/// earlier weight. This is the administrative provisioning step; the voting
/// algorithm only reads weights.
pub fn set_voting_power(state: &mut GovernanceState, address: Address, power: u32)
    requires
        old(state).wf(),
    ensures
        final(state).wf(),
        final(state).spec_voting_power() == old(state).spec_voting_power().insert(address, power),
        same_config(*old(state), *final(state)),
        same_proposals(*old(state), *final(state)),
        same_migration_plans(*old(state), *final(state)),
{
    state.voting_power.set(address, power);
}

/// The voting weight of `address`; an unregistered identity weighs 0.
pub fn get_voting_power(state: &GovernanceState, address: Address) -> (r: u32)
    requires
        state.wf(),
    ensures
        r == state.spec_weight_of(address),
{
    match state.voting_power.get(address) {
        Some(power) => *power,
        None => 0,
    }
}

/// The proposal as it stands after a vote's weight lands on one tally.
pub open spec fn spec_voted(proposal: UpgradeProposal, weight: u32, vote_for: bool) -> UpgradeProposal {
    if vote_for {
        UpgradeProposal { votes_for: (proposal.votes_for + weight) as u32, ..proposal }
    } else {
        UpgradeProposal { votes_against: (proposal.votes_against + weight) as u32, ..proposal }
    }
}

/// The tally a vote is about to bump stays within its machine width.
pub open spec fn spec_tally_fits(
    state: GovernanceState,
    proposal_id: u64,
    voter: Address,
    vote_for: bool,
) -> bool {
    state.spec_proposals().dom().contains(proposal_id) ==> {
        let proposal = state.spec_proposals()[proposal_id];
        proposal.status is Pending ==> if vote_for {
            proposal.votes_for + state.spec_weight_of(voter) <= u32::MAX
        } else {
            proposal.votes_against + state.spec_weight_of(voter) <= u32::MAX
        }
    }
}

/// Adds the voter's current weight to one tally of a pending proposal. Every
/// call adds the weight again: votes are summed, not deduplicated, and a
/// zero-weight vote lands without effect. Fails with `NotFound` for an
/// unknown id and `InvalidState` for a proposal no longer pending, leaving
/// everything unchanged.
pub fn record_vote(state: &mut GovernanceState, proposal_id: u64, voter: Address, vote_for: bool)
    -> (r: Result<(), ContractError>)
    requires
        old(state).wf(),
        spec_tally_fits(*old(state), proposal_id, voter, vote_for),
    ensures
        final(state).wf(),
        r is Ok <==> old(state).spec_proposals().dom().contains(proposal_id) && old(
            state,
        ).spec_proposals()[proposal_id].status is Pending,
        match r {
            Ok(_) => final(state).spec_proposals() == old(state).spec_proposals().insert(
                proposal_id,
                spec_voted(
                    old(state).spec_proposals()[proposal_id],
                    old(state).spec_weight_of(voter),
                    vote_for,
                ),
            ) && final(state).spec_next_proposal_id() == old(state).spec_next_proposal_id()
                && same_config(*old(state), *final(state)) && same_voting_power(
                *old(state),
                *final(state),
            ) && same_migration_plans(*old(state), *final(state)),
            Err(e) => *final(state) == *old(state) && e == if old(
                state,
            ).spec_proposals().dom().contains(proposal_id) {
                ContractError::InvalidState
            } else {
                ContractError::NotFound
            },
        },
{
    let existing = match state.proposals.get(proposal_id) {
        Some(proposal) => Some(proposal.clone()),
        None => None,
    };
    match existing {
        None => Err(ContractError::NotFound),
        Some(mut proposal) => {
            if proposal.status != UpgradeStatus::Pending {
                return Err(ContractError::InvalidState);
            }
            proof {
                lemma_proposal_id_consistent(*state, proposal_id);
            }
            let weight = get_voting_power(state, voter);
            if vote_for {
                proposal.votes_for = proposal.votes_for + weight;
            } else {
                proposal.votes_against = proposal.votes_against + weight;
            }
            state.proposals.set(proposal_id, proposal);
            Ok(())
        },
    }
}

/// Registers a migration plan for a proposal id, overwriting any earlier
/// plan for that id: re-registration replaces, it never merges.
pub fn store_migration_plan(state: &mut GovernanceState, proposal_id: u64, plan: &MigrationPlan)
    requires
        old(state).wf(),
    ensures
        final(state).wf(),
        final(state).spec_migration_plans() == old(state).spec_migration_plans().insert(
            proposal_id,
            *plan,
        ),
        same_config(*old(state), *final(state)),
        same_proposals(*old(state), *final(state)),
        same_voting_power(*old(state), *final(state)),
{
    state.migration_plans.set(proposal_id, plan.clone());
}

/// Looks a migration plan up by proposal id.
pub fn get_migration_plan(state: &GovernanceState, proposal_id: u64) -> (r: Option<MigrationPlan>)
    requires
        state.wf(),
    ensures
        match r {
            Some(plan) => state.spec_migration_plans().dom().contains(proposal_id) && plan
                == state.spec_migration_plans()[proposal_id],
            None => !state.spec_migration_plans().dom().contains(proposal_id),
        },
{
    match state.migration_plans.get(proposal_id) {
        Some(plan) => Some(plan.clone()),
        None => None,
    }
}

/// Whether the emergency bypass is open.
pub fn is_emergency_upgrade_enabled(state: &GovernanceState) -> (r: bool)
    ensures
        r == state.spec_emergency_enabled(),
{
    state.emergency_enabled
}

/// Opens or closes the emergency bypass.
pub fn set_emergency_upgrade_enabled(state: &mut GovernanceState, enabled: bool)
    requires
        old(state).wf(),
    ensures
        final(state).wf(),
        final(state).spec_emergency_enabled() == enabled,
        final(state).spec_current_version() == old(state).spec_current_version(),
        final(state).spec_governance() == old(state).spec_governance(),
        same_proposals(*old(state), *final(state)),
        same_voting_power(*old(state), *final(state)),
        same_migration_plans(*old(state), *final(state)),
{
    state.emergency_enabled = enabled;
}

} // verus!
