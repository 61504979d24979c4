//! Code upgrades by proposal: the admin proposes a new code hash, approves
//! the pending proposal and executes the approved one.
use vstd::prelude::*;
use crate::assoc::AssocList;

verus! {

#[derive(Clone, Copy, Debug, PartialEq, Eq, Structural)]
pub enum UpgradeStatus {
    Pending,
    Approved,
    Rejected,
    Executed,
}

#[derive(Clone, Copy, Debug, PartialEq, Eq, Structural)]
pub enum UpgradeError {
    /// No admin is stored.
    NoAdmin,
    /// No proposal has that id.
    ProposalNotFound,
    /// Only a pending proposal can be approved.
    InvalidStatus,
    /// Only an approved proposal can be executed.
    NotApproved,
    /// No code version is recorded.
    VersionNotFound,
}

pub struct UpgradeProposal {
    pub proposal_id: String,
    pub proposed_by: String,
    pub new_wasm_hash: Vec<u8>,
    pub status: UpgradeStatus,
    pub created_at: u64,
    pub executed_at: Option<u64>,
}

pub struct UpgradeProposalView {
    pub proposal_id: Seq<char>,
    pub proposed_by: Seq<char>,
    pub new_wasm_hash: Seq<u8>,
    pub status: UpgradeStatus,
    pub created_at: u64,
    pub executed_at: Option<u64>,
}

impl DeepView for UpgradeProposal {
    type V = UpgradeProposalView;

    open spec fn deep_view(&self) -> UpgradeProposalView {
        UpgradeProposalView {
            proposal_id: self.proposal_id@,
            proposed_by: self.proposed_by@,
            new_wasm_hash: self.new_wasm_hash@,
            status: self.status,
            created_at: self.created_at,
            executed_at: self.executed_at,
        }
    }
}

impl UpgradeProposal {
    /// A copy of the proposal.
    pub fn duplicate(&self) -> (r: Self)
        ensures
            r.deep_view() == self.deep_view(),
    {
        let mut hash: Vec<u8> = Vec::new();
        let mut i: usize = 0;
        while i < self.new_wasm_hash.len()
            invariant
                0 <= i <= self.new_wasm_hash.len(),
                hash@ == self.new_wasm_hash@.subrange(0, i as int),
            decreases self.new_wasm_hash.len() - i,
        {
            hash.push(self.new_wasm_hash[i]);
            i += 1;
        }
        assert(hash@ =~= self.new_wasm_hash@);
        UpgradeProposal {
            proposal_id: self.proposal_id.clone(),
            proposed_by: self.proposed_by.clone(),
            new_wasm_hash: hash,
            status: self.status,
            created_at: self.created_at,
            executed_at: self.executed_at,
        }
    }
}

/// What upgrades work on: the stored admin, the proposals by id and the
/// recorded code version.
pub struct UpgradeStore {
    pub admin: Option<String>,
    pub proposals: AssocList<String, UpgradeProposal>,
    pub wasm_version: Option<Vec<u8>>,
}

/// Propose `new_wasm_hash` under `proposal_id` at time `now`, replacing any
/// proposal with that id. The stored admin must authorise the call.
pub fn propose_upgrade(store: &mut UpgradeStore, proposal_id: &str, new_wasm_hash: Vec<u8>, now: u64) -> (r:
    Result<(), UpgradeError>)
    ensures
        old(store).admin is None ==> r == Err::<(), UpgradeError>(UpgradeError::NoAdmin) && final(store).proposals.map() == old(store).proposals.map(),
        old(store).admin matches Some(a) ==> r is Ok && final(store).proposals.map() == old(store).proposals.map().insert(
            proposal_id@,
            UpgradeProposalView {
                proposal_id: proposal_id@,
                proposed_by: a@,
                new_wasm_hash: new_wasm_hash@,
                status: UpgradeStatus::Pending,
                created_at: now,
                executed_at: None,
            },
        ),
        final(store).admin == old(store).admin,
        final(store).wasm_version == old(store).wasm_version,
{
    let admin = match &store.admin {
        Some(a) => a.clone(),
        None => {
            return Err(UpgradeError::NoAdmin);
        },
    };
    let proposal = UpgradeProposal {
        proposal_id: String::from_str(proposal_id),
        proposed_by: admin,
        new_wasm_hash,
        status: UpgradeStatus::Pending,
        created_at: now,
        executed_at: None,
    };
    store.proposals.insert(String::from_str(proposal_id), proposal);
    Ok(())
}

/// The proposal's status after a successful step, or the step's error.
pub open spec fn step_result(
    store: &UpgradeStore,
    proposal_id: Seq<char>,
    from: UpgradeStatus,
    refusal: UpgradeError,
) -> Result<(), UpgradeError> {
    if store.admin is None {
        Err(UpgradeError::NoAdmin)
    } else if !store.proposals.map().contains_key(proposal_id) {
        Err(UpgradeError::ProposalNotFound)
    } else if store.proposals.map()[proposal_id].status != from {
        Err(refusal)
    } else {
        Ok(())
    }
}

/// Approve the pending proposal `proposal_id`. The stored admin must
/// authorise the call.
pub fn approve_upgrade(store: &mut UpgradeStore, proposal_id: &str) -> (r: Result<(), UpgradeError>)
    ensures
        r == step_result(old(store), proposal_id@, UpgradeStatus::Pending, UpgradeError::InvalidStatus),
        r is Ok ==> final(store).proposals.map() == old(store).proposals.map().insert(
            proposal_id@,
            UpgradeProposalView { status: UpgradeStatus::Approved, ..old(store).proposals.map()[proposal_id@] },
        ),
        r is Err ==> final(store).proposals.map() == old(store).proposals.map(),
        final(store).admin == old(store).admin,
        final(store).wasm_version == old(store).wasm_version,
{
    if store.admin.is_none() {
        return Err(UpgradeError::NoAdmin);
    }
    let key = String::from_str(proposal_id);
    let mut proposal = match store.proposals.get(&key) {
        Some(p) => p.duplicate(),
        None => {
            return Err(UpgradeError::ProposalNotFound);
        },
    };
    if proposal.status != UpgradeStatus::Pending {
        return Err(UpgradeError::InvalidStatus);
    }
    proposal.status = UpgradeStatus::Approved;
    store.proposals.insert(key, proposal);
    Ok(())
}

/// Execute the approved proposal `proposal_id` at time `now`. The stored
/// admin must authorise the call.
pub fn execute_upgrade(store: &mut UpgradeStore, proposal_id: &str, now: u64) -> (r: Result<(), UpgradeError>)
    ensures
        r == step_result(old(store), proposal_id@, UpgradeStatus::Approved, UpgradeError::NotApproved),
        r is Ok ==> final(store).proposals.map() == old(store).proposals.map().insert(
            proposal_id@,
            UpgradeProposalView {
                status: UpgradeStatus::Executed,
                executed_at: Some(now),
                ..old(store).proposals.map()[proposal_id@]
            },
        ),
        r is Err ==> final(store).proposals.map() == old(store).proposals.map(),
        final(store).admin == old(store).admin,
        final(store).wasm_version == old(store).wasm_version,
{
    if store.admin.is_none() {
        return Err(UpgradeError::NoAdmin);
    }
    let key = String::from_str(proposal_id);
    let mut proposal = match store.proposals.get(&key) {
        Some(p) => p.duplicate(),
        None => {
            return Err(UpgradeError::ProposalNotFound);
        },
    };
    if proposal.status != UpgradeStatus::Approved {
        return Err(UpgradeError::NotApproved);
    }
    proposal.status = UpgradeStatus::Executed;
    proposal.executed_at = Some(now);
    store.proposals.insert(key, proposal);
    Ok(())
}

/// The recorded code version.
pub fn get_current_wasm_version(store: &UpgradeStore) -> (r: Result<Vec<u8>, UpgradeError>)
    ensures
        match store.wasm_version {
            Some(v) => r is Ok && r->Ok_0@ == v@,
            None => r == Err::<Vec<u8>, UpgradeError>(UpgradeError::VersionNotFound),
        },
{
    match &store.wasm_version {
        Some(v) => Ok(v.clone()),
        None => Err(UpgradeError::VersionNotFound),
    }
}

/// A proposal runs Pending, Approved, Executed: a pending proposal can be
/// approved but not executed, and once approved it can be executed but not
/// approved again.
pub proof fn law_upgrade_needs_approval(pending: UpgradeStore, approved: UpgradeStore, proposal_id: Seq<char>)
    requires
        pending.admin is Some,
        pending.proposals.map().contains_key(proposal_id),
        pending.proposals.map()[proposal_id].status == UpgradeStatus::Pending,
        approved.admin == pending.admin,
        approved.proposals.map() == pending.proposals.map().insert(
            proposal_id,
            UpgradeProposalView { status: UpgradeStatus::Approved, ..pending.proposals.map()[proposal_id] },
        ),
    ensures
        step_result(&pending, proposal_id, UpgradeStatus::Pending, UpgradeError::InvalidStatus) is Ok,
        step_result(&pending, proposal_id, UpgradeStatus::Approved, UpgradeError::NotApproved) == Err::<
            (),
            UpgradeError,
        >(UpgradeError::NotApproved),
        step_result(&approved, proposal_id, UpgradeStatus::Approved, UpgradeError::NotApproved) is Ok,
        step_result(&approved, proposal_id, UpgradeStatus::Pending, UpgradeError::InvalidStatus) == Err::<
            (),
            UpgradeError,
        >(UpgradeError::InvalidStatus),
{
}

} // verus!
