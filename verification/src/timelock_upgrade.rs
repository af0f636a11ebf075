//! Multi-signature timelock for contract upgrades.
//!
//! A signer proposes a new code hash; the proposal can be executed once
//! enough distinct signers approved it and its waiting period (fourteen
//! days by default) is over. Signers may cancel a proposal that has not
//! been executed.
use vstd::prelude::*;
use std::collections::{HashMap, HashSet};
use crate::accounts::AccountId;

verus! {

broadcast use vstd::std_specs::hash::group_hash_axioms;

/// Waiting period used when none is configured: fourteen days.
pub const DEFAULT_TIMELOCK_DURATION: u64 = 1_209_600;
/// Approvals required when none is configured.
pub const DEFAULT_MIN_APPROVALS: u32 = 3;

/// Where an upgrade proposal stands.
#[derive(Copy, Clone, Debug, Eq, PartialEq, Structural)]
pub enum UpgradeProposalStatus {
    Pending,
    Approved,
    Executed,
    Cancelled,
}

/// An upgrade proposal.
#[derive(Clone, Debug)]
pub struct UpgradeProposal {
    pub proposal_id: u64,
    pub proposer: AccountId,
    pub new_wasm_hash: [u8; 32],
    pub description: String,
    pub status: UpgradeProposalStatus,
    pub created_at: u64,
    pub approvals: Vec<AccountId>,
    pub approval_count: u32,
    pub required_approvals: u32,
    /// Earliest time of execution.
    pub execution_time: u64,
}

/// Reported when an upgrade is executed.
#[derive(Copy, Clone, Debug, PartialEq, Eq)]
pub struct UpgradeExecuted {
    pub proposal_id: u64,
    pub old_wasm_hash: [u8; 32],
    pub new_wasm_hash: [u8; 32],
    pub timestamp: u64,
}

/// Reported when an upgrade is proposed.
#[derive(Clone, Debug, PartialEq, Eq)]
pub struct UpgradeProposed {
    pub proposal_id: u64,
    pub proposer: AccountId,
    pub new_wasm_hash: [u8; 32],
    pub description: String,
    pub execution_time: u64,
    pub timestamp: u64,
}

/// Reported when a signer approves a proposal.
#[derive(Copy, Clone, Debug, PartialEq, Eq)]
pub struct UpgradeApproved {
    pub proposal_id: u64,
    pub approver: AccountId,
    pub approval_count: u32,
    pub timestamp: u64,
}

/// Reported when a proposal is cancelled.
#[derive(Clone, Debug, PartialEq, Eq)]
pub struct UpgradeCancelled {
    pub proposal_id: u64,
    pub cancelled_by: AccountId,
    pub reason: String,
    pub timestamp: u64,
}

/// Reported when a signer is added.
#[derive(Copy, Clone, Debug, PartialEq, Eq)]
pub struct SignerAdded {
    pub signer: AccountId,
    pub added_by: AccountId,
    pub timestamp: u64,
}

/// Reported when a signer is removed.
#[derive(Copy, Clone, Debug, PartialEq, Eq)]
pub struct SignerRemoved {
    pub signer: AccountId,
    pub removed_by: AccountId,
    pub timestamp: u64,
}

/// Why a timelock operation was refused.
#[derive(Copy, Clone, Debug, Eq, PartialEq, Structural)]
pub enum TimelockError {
    AlreadyInitialized,
    NotAuthorizedSigner,
    ProposalNotFound,
    ProposalAlreadyExecuted,
    ProposalCancelled,
    AlreadyApproved,
    ProposalNotApproved,
    TimelockPeriodNotElapsed,
    ProposalAlreadyCancelled,
}

impl TimelockError {
    /// The message the contract reports for this error.
    pub fn message(&self) -> (r: &'static str)
        ensures
            match self {
                TimelockError::AlreadyInitialized => r@ == "Already initialized"@,
                TimelockError::NotAuthorizedSigner => r@ == "Not authorized signer"@,
                TimelockError::ProposalNotFound => r@ == "Proposal not found"@,
                TimelockError::ProposalAlreadyExecuted => r@ == "Proposal already executed"@,
                TimelockError::ProposalCancelled => r@ == "Proposal cancelled"@,
                TimelockError::AlreadyApproved => r@ == "Already approved"@,
                TimelockError::ProposalNotApproved => r@ == "Proposal not approved"@,
                TimelockError::TimelockPeriodNotElapsed => r@ == "Timelock period not elapsed"@,
                TimelockError::ProposalAlreadyCancelled => r@ == "Proposal already cancelled"@,
            },
    {
        match self {
            TimelockError::AlreadyInitialized => "Already initialized",
            TimelockError::NotAuthorizedSigner => "Not authorized signer",
            TimelockError::ProposalNotFound => "Proposal not found",
            TimelockError::ProposalAlreadyExecuted => "Proposal already executed",
            TimelockError::ProposalCancelled => "Proposal cancelled",
            TimelockError::AlreadyApproved => "Already approved",
            TimelockError::ProposalNotApproved => "Proposal not approved",
            TimelockError::TimelockPeriodNotElapsed => "Timelock period not elapsed",
            TimelockError::ProposalAlreadyCancelled => "Proposal already cancelled",
        }
    }
}

/// The approvals of `p` are distinct and counted, and a proposal that
/// reached `Approved` (or was executed) has enough of them.
pub open spec fn proposal_consistent(p: UpgradeProposal) -> bool {
    &&& p.approvals@.no_duplicates()
    &&& p.approval_count == p.approvals@.len()
    &&& (p.status == UpgradeProposalStatus::Approved || p.status == UpgradeProposalStatus::Executed)
        ==> p.approval_count >= p.required_approvals
}

/// The timelock module's state.
#[derive(Debug)]
pub struct TimelockUpgradeModule {
    /// The waiting period; set once, by initialization.
    pub timelock_duration: Option<u64>,
    pub min_approvals: Option<u32>,
    pub signers: HashSet<AccountId>,
    pub proposal_count: Option<u64>,
    pub proposals: HashMap<u64, UpgradeProposal>,
    pub current_wasm_hash: Option<[u8; 32]>,
}

impl TimelockUpgradeModule {
    /// Every proposal is stored under its id and is consistent.
    pub open spec fn wf(&self) -> bool {
        forall|id: u64| #[trigger]
            self.proposals@.contains_key(id) ==> self.proposals@[id].proposal_id == id
                && proposal_consistent(self.proposals@[id])
    }

    /// The proposal stored under `id`.
    pub open spec fn proposal(&self, id: u64) -> UpgradeProposal {
        self.proposals@[id]
    }

    /// The waiting period in force.
    pub open spec fn duration(&self) -> u64 {
        match self.timelock_duration {
            Some(d) => d,
            None => DEFAULT_TIMELOCK_DURATION,
        }
    }

    /// The number of approvals new proposals require.
    pub open spec fn required(&self) -> u32 {
        match self.min_approvals {
            Some(m) => m,
            None => DEFAULT_MIN_APPROVALS,
        }
    }

    /// The id the next proposal gets.
    pub open spec fn next_id(&self) -> u64 {
        match self.proposal_count {
            Some(c) => c,
            None => 0,
        }
    }

    /// A module that was never initialized.
    pub fn new() -> (r: Self)
        ensures
            r.wf(),
            r.timelock_duration is None,
            r.min_approvals is None,
            r.signers@ == Set::<AccountId>::empty(),
            r.proposal_count is None,
            r.proposals@ == Map::<u64, UpgradeProposal>::empty(),
            r.current_wasm_hash is None,
    {
        TimelockUpgradeModule {
            timelock_duration: None,
            min_approvals: None,
            signers: HashSet::new(),
            proposal_count: None,
            proposals: HashMap::new(),
            current_wasm_hash: None,
        }
    }

    /// Whether `address` is a signer.
    pub fn is_signer(&self, address: AccountId) -> (r: bool)
        ensures
            r == self.signers@.contains(address),
    {
        self.signers.contains(&address)
    }

    fn require_signer(&self, address: AccountId) -> (r: Result<(), TimelockError>)
        ensures
            r == (if self.signers@.contains(address) {
                Ok(())
            } else {
                Err(TimelockError::NotAuthorizedSigner)
            }),
    {
        if !self.is_signer(address) {
            return Err(TimelockError::NotAuthorizedSigner);
        }
        Ok(())
    }

    /// The waiting period in force.
    pub fn get_timelock_duration(&self) -> (r: u64)
        ensures
            r == self.duration(),
    {
        match self.timelock_duration {
            Some(d) => d,
            None => DEFAULT_TIMELOCK_DURATION,
        }
    }

    /// Sets the waiting period (fourteen days for 0) and the approvals
    /// required (3 for 0), and makes `admin` the first signer. A module
    /// is initialized once, at `now`.
    pub fn initialize_timelock(
        &mut self,
        admin: AccountId,
        timelock_duration: u64,
        min_approvals: u32,
        now: u64,
    ) -> (r: Result<SignerAdded, TimelockError>)
        requires
            old(self).wf(),
        ensures
            final(self).wf(),
            old(self).timelock_duration is Some ==> r == Err::<SignerAdded, TimelockError>(
                TimelockError::AlreadyInitialized,
            ) && *final(self) == *old(self),
            old(self).timelock_duration is None ==> {
                &&& r == Ok::<SignerAdded, TimelockError>(
                    SignerAdded { signer: admin, added_by: admin, timestamp: now },
                )
                &&& final(self).timelock_duration == Some(
                    if timelock_duration > 0 {
                        timelock_duration
                    } else {
                        DEFAULT_TIMELOCK_DURATION
                    },
                )
                &&& final(self).min_approvals == Some(
                    if min_approvals > 0 {
                        min_approvals
                    } else {
                        DEFAULT_MIN_APPROVALS
                    },
                )
                &&& final(self).signers@ == old(self).signers@.insert(admin)
                &&& final(self).proposal_count == Some(0u64)
                &&& final(self).proposals == old(self).proposals
                &&& final(self).current_wasm_hash == old(self).current_wasm_hash
            },
    {
        if self.timelock_duration.is_some() {
            return Err(TimelockError::AlreadyInitialized);
        }
        let duration = if timelock_duration > 0 {
            timelock_duration
        } else {
            DEFAULT_TIMELOCK_DURATION
        };
        self.timelock_duration = Some(duration);
        let min = if min_approvals > 0 {
            min_approvals
        } else {
            DEFAULT_MIN_APPROVALS
        };
        self.min_approvals = Some(min);
        self.signers.insert(admin);
        self.proposal_count = Some(0);
        Ok(SignerAdded { signer: admin, added_by: admin, timestamp: now })
    }

    /// A signer adds a signer at `now`.
    pub fn add_signer(&mut self, caller: AccountId, new_signer: AccountId, now: u64) -> (r: Result<
        SignerAdded,
        TimelockError,
    >)
        requires
            old(self).wf(),
        ensures
            final(self).wf(),
            !old(self).signers@.contains(caller) ==> r == Err::<SignerAdded, TimelockError>(
                TimelockError::NotAuthorizedSigner,
            ) && *final(self) == *old(self),
            old(self).signers@.contains(caller) ==> r == Ok::<SignerAdded, TimelockError>(
                SignerAdded { signer: new_signer, added_by: caller, timestamp: now },
            ) && final(self).signers@ == old(self).signers@.insert(new_signer),
            final(self).proposals == old(self).proposals,
            final(self).timelock_duration == old(self).timelock_duration,
            final(self).min_approvals == old(self).min_approvals,
            final(self).proposal_count == old(self).proposal_count,
            final(self).current_wasm_hash == old(self).current_wasm_hash,
    {
        match self.require_signer(caller) {
            Ok(()) => {},
            Err(e) => {
                return Err(e);
            },
        }
        self.signers.insert(new_signer);
        Ok(SignerAdded { signer: new_signer, added_by: caller, timestamp: now })
    }

    /// A signer removes a signer at `now`.
    pub fn remove_signer(&mut self, caller: AccountId, signer_to_remove: AccountId, now: u64) -> (r:
        Result<SignerRemoved, TimelockError>)
        requires
            old(self).wf(),
        ensures
            final(self).wf(),
            !old(self).signers@.contains(caller) ==> r == Err::<SignerRemoved, TimelockError>(
                TimelockError::NotAuthorizedSigner,
            ) && *final(self) == *old(self),
            old(self).signers@.contains(caller) ==> r == Ok::<SignerRemoved, TimelockError>(
                SignerRemoved { signer: signer_to_remove, removed_by: caller, timestamp: now },
            ) && final(self).signers@ == old(self).signers@.remove(signer_to_remove),
            final(self).proposals == old(self).proposals,
            final(self).timelock_duration == old(self).timelock_duration,
            final(self).min_approvals == old(self).min_approvals,
            final(self).proposal_count == old(self).proposal_count,
            final(self).current_wasm_hash == old(self).current_wasm_hash,
    {
        match self.require_signer(caller) {
            Ok(()) => {},
            Err(e) => {
                return Err(e);
            },
        }
        self.signers.remove(&signer_to_remove);
        Ok(SignerRemoved { signer: signer_to_remove, removed_by: caller, timestamp: now })
    }

    /// A signer proposes an upgrade to `new_wasm_hash` at `now`; the
    /// proposal may be executed once its waiting period is over. The
    /// proposal, with its id, is reported.
    pub fn propose_upgrade(
        &mut self,
        proposer: AccountId,
        new_wasm_hash: [u8; 32],
        description: String,
        now: u64,
    ) -> (r: Result<UpgradeProposed, TimelockError>)
        requires
            old(self).wf(),
            old(self).next_id() < u64::MAX,
            now + old(self).duration() <= u64::MAX,
        ensures
            final(self).wf(),
            !old(self).signers@.contains(proposer) ==> r == Err::<UpgradeProposed, TimelockError>(
                TimelockError::NotAuthorizedSigner,
            ) && *final(self) == *old(self),
            old(self).signers@.contains(proposer) ==> {
                let id = old(self).next_id();
                let p = final(self).proposal(id);
                &&& r is Ok
                &&& r->Ok_0.proposal_id == id
                &&& r->Ok_0.proposer == proposer
                &&& r->Ok_0.new_wasm_hash == new_wasm_hash
                &&& r->Ok_0.description@ == description@
                &&& r->Ok_0.execution_time == now + old(self).duration()
                &&& r->Ok_0.timestamp == now
                &&& final(self).proposals@ == old(self).proposals@.insert(id, p)
                &&& p == UpgradeProposal {
                    proposal_id: id,
                    proposer,
                    new_wasm_hash,
                    description,
                    status: UpgradeProposalStatus::Pending,
                    created_at: now,
                    approvals: p.approvals,
                    approval_count: 0,
                    required_approvals: old(self).required(),
                    execution_time: (now + old(self).duration()) as u64,
                }
                &&& p.approvals@ == Seq::<AccountId>::empty()
                &&& final(self).proposal_count == Some((id + 1) as u64)
                &&& final(self).signers == old(self).signers
                &&& final(self).timelock_duration == old(self).timelock_duration
                &&& final(self).min_approvals == old(self).min_approvals
                &&& final(self).current_wasm_hash == old(self).current_wasm_hash
            },
    {
        match self.require_signer(proposer) {
            Ok(()) => {},
            Err(e) => {
                return Err(e);
            },
        }
        let proposal_count = match self.proposal_count {
            Some(c) => c,
            None => 0,
        };
        let proposal_id = proposal_count;
        let timelock_duration = self.get_timelock_duration();
        let required_approvals = match self.min_approvals {
            Some(m) => m,
            None => DEFAULT_MIN_APPROVALS,
        };
        let event = UpgradeProposed {
            proposal_id,
            proposer,
            new_wasm_hash,
            description: description.clone(),
            execution_time: now + timelock_duration,
            timestamp: now,
        };
        let proposal = UpgradeProposal {
            proposal_id,
            proposer,
            new_wasm_hash,
            description,
            status: UpgradeProposalStatus::Pending,
            created_at: now,
            approvals: Vec::new(),
            approval_count: 0,
            required_approvals,
            execution_time: now + timelock_duration,
        };
        self.proposals.insert(proposal_id, proposal);
        self.proposal_count = Some(proposal_count + 1);
        Ok(event)
    }

    /// A signer approves a proposal that is neither executed nor cancelled,
    /// once, at `now`; the proposal is approved when it has enough
    /// approvals.
    pub fn approve_upgrade(&mut self, approver: AccountId, proposal_id: u64, now: u64) -> (r: Result<
        UpgradeApproved,
        TimelockError,
    >)
        requires
            old(self).wf(),
            old(self).proposals@.contains_key(proposal_id) ==> old(self).proposal(
                proposal_id,
            ).approval_count < u32::MAX,
        ensures
            final(self).wf(),
            match approval_outcome(*old(self), approver, proposal_id) {
                Ok(_) => r is Ok,
                Err(e) => r == Err::<UpgradeApproved, TimelockError>(e),
            },
            r is Err ==> *final(self) == *old(self),
            r is Ok ==> {
                let p = old(self).proposal(proposal_id);
                let q = final(self).proposal(proposal_id);
                let count = (p.approval_count + 1) as u32;
                &&& r == Ok::<UpgradeApproved, TimelockError>(
                    UpgradeApproved { proposal_id, approver, approval_count: count, timestamp: now },
                )
                &&& final(self).proposals@ == old(self).proposals@.insert(proposal_id, q)
                &&& q == UpgradeProposal {
                    approvals: q.approvals,
                    approval_count: count,
                    status: if count >= p.required_approvals {
                        UpgradeProposalStatus::Approved
                    } else {
                        p.status
                    },
                    ..p
                }
                &&& q.approvals@ == p.approvals@.push(approver)
                &&& final(self).signers == old(self).signers
                &&& final(self).proposal_count == old(self).proposal_count
                &&& final(self).current_wasm_hash == old(self).current_wasm_hash
                &&& final(self).timelock_duration == old(self).timelock_duration
                &&& final(self).min_approvals == old(self).min_approvals
            },
    {
        match self.require_signer(approver) {
            Ok(()) => {},
            Err(e) => {
                return Err(e);
            },
        }
        match self.proposals.get(&proposal_id) {
            None => {
                return Err(TimelockError::ProposalNotFound);
            },
            Some(p) => {
                if p.status == UpgradeProposalStatus::Executed {
                    return Err(TimelockError::ProposalAlreadyExecuted);
                }
                if p.status == UpgradeProposalStatus::Cancelled {
                    return Err(TimelockError::ProposalCancelled);
                }
                if crate::accounts::contains_id(&p.approvals, approver) {
                    return Err(TimelockError::AlreadyApproved);
                }
            },
        }
        let mut proposal = self.proposals.remove(&proposal_id).unwrap();
        let ghost before = proposal.approvals@;
        proposal.approvals.push(approver);
        proposal.approval_count = proposal.approval_count + 1;
        if proposal.approval_count >= proposal.required_approvals {
            proposal.status = UpgradeProposalStatus::Approved;
        }
        assert(proposal.approvals@.no_duplicates()) by {
            assert forall|i: int, j: int|
                0 <= i < j < proposal.approvals@.len() implies proposal.approvals@[i]
                != proposal.approvals@[j] by {
                if j == before.len() {
                    assert(before.contains(before[i]));
                }
            }
        }
        let approval_count = proposal.approval_count;
        self.proposals.insert(proposal_id, proposal);
        Ok(UpgradeApproved { proposal_id, approver, approval_count, timestamp: now })
    }

    /// Executes an approved proposal at `now`, once its waiting period is
    /// over: the proposal's code hash becomes the current one. The caller
    /// installs the code; what changed is returned.
    pub fn execute_upgrade(&mut self, executor: AccountId, proposal_id: u64, now: u64) -> (r: Result<
        UpgradeExecuted,
        TimelockError,
    >)
        requires
            old(self).wf(),
        ensures
            final(self).wf(),
            !old(self).proposals@.contains_key(proposal_id) ==> r == Err::<UpgradeExecuted, TimelockError>(TimelockError::ProposalNotFound),
            old(self).proposals@.contains_key(proposal_id) && old(self).proposal(proposal_id).status
                != UpgradeProposalStatus::Approved ==> r == Err::<UpgradeExecuted, TimelockError>(TimelockError::ProposalNotApproved),
            old(self).proposals@.contains_key(proposal_id) && old(self).proposal(proposal_id).status
                == UpgradeProposalStatus::Approved && now < old(self).proposal(
                proposal_id,
            ).execution_time ==> r == Err::<UpgradeExecuted, TimelockError>(TimelockError::TimelockPeriodNotElapsed),
            r is Err ==> *final(self) == *old(self),
            r matches Ok(ev) ==> {
                let p = old(self).proposal(proposal_id);
                &&& p.status == UpgradeProposalStatus::Approved
                &&& p.approval_count >= p.required_approvals
                &&& now >= p.execution_time
                &&& ev.proposal_id == proposal_id
                &&& old(self).current_wasm_hash matches Some(h) ==> ev.old_wasm_hash == h
                &&& old(self).current_wasm_hash is None ==> ev.old_wasm_hash@ == Seq::new(
                    32,
                    |i: int| 0u8,
                )
                &&& ev.new_wasm_hash == p.new_wasm_hash
                &&& ev.timestamp == now
                &&& final(self).proposals@ == old(self).proposals@.insert(
                    proposal_id,
                    UpgradeProposal { status: UpgradeProposalStatus::Executed, ..p },
                )
                &&& final(self).current_wasm_hash == Some(p.new_wasm_hash)
                &&& final(self).signers == old(self).signers
                &&& final(self).proposal_count == old(self).proposal_count
                &&& final(self).timelock_duration == old(self).timelock_duration
                &&& final(self).min_approvals == old(self).min_approvals
            },
    {
        match self.proposals.get(&proposal_id) {
            None => {
                return Err(TimelockError::ProposalNotFound);
            },
            Some(p) => {
                if p.status != UpgradeProposalStatus::Approved {
                    return Err(TimelockError::ProposalNotApproved);
                }
                if now < p.execution_time {
                    return Err(TimelockError::TimelockPeriodNotElapsed);
                }
            },
        }
        let old_wasm_hash = match self.current_wasm_hash {
            Some(h) => h,
            None => [0u8; 32],
        };
        let mut proposal = self.proposals.remove(&proposal_id).unwrap();
        proposal.status = UpgradeProposalStatus::Executed;
        let new_wasm_hash = proposal.new_wasm_hash;
        self.proposals.insert(proposal_id, proposal);
        self.current_wasm_hash = Some(new_wasm_hash);
        Ok(UpgradeExecuted { proposal_id, old_wasm_hash, new_wasm_hash, timestamp: now })
    }

    /// A signer cancels a proposal that is neither executed nor cancelled,
    /// for `reason`, at `now`.
    pub fn cancel_upgrade(&mut self, canceller: AccountId, proposal_id: u64, reason: String, now: u64) -> (r:
        Result<UpgradeCancelled, TimelockError>)
        requires
            old(self).wf(),
        ensures
            final(self).wf(),
            !old(self).signers@.contains(canceller) ==> r == Err::<UpgradeCancelled, TimelockError>(
                TimelockError::NotAuthorizedSigner,
            ),
            old(self).signers@.contains(canceller) && !old(self).proposals@.contains_key(proposal_id)
                ==> r == Err::<UpgradeCancelled, TimelockError>(TimelockError::ProposalNotFound),
            old(self).signers@.contains(canceller) && old(self).proposals@.contains_key(proposal_id)
                ==> {
                let p = old(self).proposal(proposal_id);
                &&& p.status == UpgradeProposalStatus::Executed ==> r == Err::<UpgradeCancelled, TimelockError>(
                    TimelockError::ProposalAlreadyExecuted,
                )
                &&& p.status == UpgradeProposalStatus::Cancelled ==> r == Err::<UpgradeCancelled, TimelockError>(
                    TimelockError::ProposalAlreadyCancelled,
                )
                &&& p.status != UpgradeProposalStatus::Executed && p.status
                    != UpgradeProposalStatus::Cancelled ==> r == Ok::<UpgradeCancelled, TimelockError>(
                    UpgradeCancelled { proposal_id, cancelled_by: canceller, reason, timestamp: now },
                ) && final(self).proposals@ == old(self).proposals@.insert(
                    proposal_id,
                    UpgradeProposal { status: UpgradeProposalStatus::Cancelled, ..p },
                )
            },
            r is Err ==> *final(self) == *old(self),
            final(self).signers == old(self).signers,
            final(self).proposal_count == old(self).proposal_count,
            final(self).current_wasm_hash == old(self).current_wasm_hash,
            final(self).timelock_duration == old(self).timelock_duration,
            final(self).min_approvals == old(self).min_approvals,
    {
        match self.require_signer(canceller) {
            Ok(()) => {},
            Err(e) => {
                return Err(e);
            },
        }
        match self.proposals.get(&proposal_id) {
            None => {
                return Err(TimelockError::ProposalNotFound);
            },
            Some(p) => {
                if p.status == UpgradeProposalStatus::Executed {
                    return Err(TimelockError::ProposalAlreadyExecuted);
                }
                if p.status == UpgradeProposalStatus::Cancelled {
                    return Err(TimelockError::ProposalAlreadyCancelled);
                }
            },
        }
        let mut proposal = self.proposals.remove(&proposal_id).unwrap();
        proposal.status = UpgradeProposalStatus::Cancelled;
        self.proposals.insert(proposal_id, proposal);
        Ok(UpgradeCancelled { proposal_id, cancelled_by: canceller, reason, timestamp: now })
    }

    /// The proposal stored under `proposal_id`.
    pub fn get_proposal(&self, proposal_id: u64) -> (r: Result<&UpgradeProposal, TimelockError>)
        ensures
            self.proposals@.contains_key(proposal_id) ==> r == Ok::<&UpgradeProposal, TimelockError>(
                &self.proposal(proposal_id),
            ),
            !self.proposals@.contains_key(proposal_id) ==> r == Err::<&UpgradeProposal, TimelockError>(
                TimelockError::ProposalNotFound,
            ),
    {
        match self.proposals.get(&proposal_id) {
            Some(p) => Ok(p),
            None => Err(TimelockError::ProposalNotFound),
        }
    }
}

/// What `approve_upgrade` answers.
pub open spec fn approval_outcome(m: TimelockUpgradeModule, approver: AccountId, id: u64) -> Result<
    (),
    TimelockError,
> {
    if !m.signers@.contains(approver) {
        Err(TimelockError::NotAuthorizedSigner)
    } else if !m.proposals@.contains_key(id) {
        Err(TimelockError::ProposalNotFound)
    } else {
        let p = m.proposals@[id];
        if p.status == UpgradeProposalStatus::Executed {
            Err(TimelockError::ProposalAlreadyExecuted)
        } else if p.status == UpgradeProposalStatus::Cancelled {
            Err(TimelockError::ProposalCancelled)
        } else if p.approvals@.contains(approver) {
            Err(TimelockError::AlreadyApproved)
        } else {
            Ok(())
        }
    }
}

} // verus!
