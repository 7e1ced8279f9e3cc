//! The two records of the system: the multisig with its members and its
//! threshold, and the proposal with its stored call and its approvals.

use vstd::prelude::*;
use crate::error::MultisigError;
use crate::instruction::{AccountInfo, InstructionData, InstructionDataView};
use crate::members::{contains_key, count_distinct, strictly_increasing};
use crate::pubkey::Pubkey;

verus! {

/// A group of members and the number of them that must approve a call.
///
/// Made once by `create_multisig`; afterwards only the proposal counter
/// changes.
#[derive(Debug, PartialEq, Eq)]
pub struct Multisig {
    /// Who made the group.
    pub creator: Pubkey,
    /// Picked by the creator; part of the group's address.
    pub nonce: u8,
    /// The members, strictly increasing.
    pub members: Vec<Pubkey>,
    /// How many different members must approve a call.
    pub threshold: u8,
    /// How many proposals have been made; the next proposal is addressed by it.
    pub proposals_count: u32,
    /// Completes the seeds of the group's address.
    pub bump: u8,
}

pub struct MultisigView {
    pub creator: Pubkey,
    pub nonce: u8,
    pub members: Seq<Pubkey>,
    pub threshold: u8,
    pub proposals_count: u32,
    pub bump: u8,
}

impl View for Multisig {
    type V = MultisigView;

    open spec fn view(&self) -> MultisigView {
        MultisigView {
            creator: self.creator,
            nonce: self.nonce,
            members: self.members@,
            threshold: self.threshold,
            proposals_count: self.proposals_count,
            bump: self.bump,
        }
    }
}

impl MultisigView {
    /// What holds of every multisig that `create_multisig` made: the member
    /// list is strictly increasing and not empty, and the threshold lies
    /// between one and the number of members.
    pub open spec fn wf(self) -> bool {
        &&& strictly_increasing(self.members)
        &&& self.members.len() > 0
        &&& 1 <= self.threshold <= self.members.len()
    }

    /// Whether a multisig can be made of the submitted members and
    /// threshold, and if not, why not.
    pub open spec fn creation_outcome(members: Seq<Pubkey>, threshold: u8) -> Result<
        (),
        MultisigError,
    > {
        if members.len() == 0 {
            Err(MultisigError::InvalidMembers)
        } else if threshold == 0 || threshold > members.to_set().len() {
            Err(MultisigError::InvalidThreshold)
        } else {
            Ok(())
        }
    }

    pub open spec fn is_member(self, who: Pubkey) -> bool {
        self.members.contains(who)
    }

    /// Whether `proposer` may submit a call, and if not, why not.
    pub open spec fn proposal_outcome(self, proposer: Pubkey) -> Result<(), MultisigError> {
        if !self.is_member(proposer) {
            Err(MultisigError::NotMember)
        } else {
            Ok(())
        }
    }

    /// The same multisig after one more proposal was made.
    pub open spec fn after_proposal(self) -> MultisigView {
        MultisigView { proposals_count: (self.proposals_count + 1) as u32, ..self }
    }
}

impl Clone for Multisig {
    fn clone(&self) -> (copy: Self)
        ensures
            copy@ == self@,
    {
        let members = self.members.clone();
        Multisig {
            creator: self.creator,
            nonce: self.nonce,
            members,
            threshold: self.threshold,
            proposals_count: self.proposals_count,
            bump: self.bump,
        }
    }
}

impl Multisig {
    pub fn is_member(&self, who: &Pubkey) -> (found: bool)
        ensures
            found == self@.is_member(*who),
    {
        contains_key(&self.members, who)
    }
}

/// Where a proposal stands in its life.
#[derive(Clone, Copy, Debug, PartialEq, Eq, Structural)]
pub enum ProposalStatus {
    /// Open for approvals, execution and cancellation.
    Pending,
    /// Its call was released. Final.
    Executed,
    /// Withdrawn by its proposer. Final.
    Cancelled,
}

/// One call submitted to a multisig, with the approvals collected for it.
#[derive(Debug, PartialEq, Eq)]
pub struct Proposal {
    /// The address of the multisig that the proposal belongs to.
    pub multisig: Pubkey,
    /// Who made the proposal; the only one who may cancel it.
    pub proposer: Pubkey,
    /// The call, as submitted.
    pub instruction: InstructionData,
    /// The members who approved, each once.
    pub approvals: Vec<Pubkey>,
    pub executed: bool,
    pub cancelled: bool,
    /// Completes the seeds of the proposal's address.
    pub bump: u8,
}

pub struct ProposalView {
    pub multisig: Pubkey,
    pub proposer: Pubkey,
    pub instruction: InstructionDataView,
    pub approvals: Seq<Pubkey>,
    pub executed: bool,
    pub cancelled: bool,
    pub bump: u8,
}

impl View for Proposal {
    type V = ProposalView;

    open spec fn view(&self) -> ProposalView {
        ProposalView {
            multisig: self.multisig,
            proposer: self.proposer,
            instruction: self.instruction@,
            approvals: self.approvals@,
            executed: self.executed,
            cancelled: self.cancelled,
            bump: self.bump,
        }
    }
}

impl ProposalView {
    /// The proposal as `propose_transaction` makes it: pending, with no approvals.
    pub open spec fn fresh(
        multisig: Pubkey,
        proposer: Pubkey,
        instruction: InstructionDataView,
        bump: u8,
    ) -> ProposalView {
        ProposalView {
            multisig,
            proposer,
            instruction,
            approvals: Seq::empty(),
            executed: false,
            cancelled: false,
            bump,
        }
    }

    pub open spec fn status(self) -> ProposalStatus {
        if self.executed {
            ProposalStatus::Executed
        } else if self.cancelled {
            ProposalStatus::Cancelled
        } else {
            ProposalStatus::Pending
        }
    }

    /// What holds of every proposal that the operations made: nobody is
    /// listed twice among the approvals, and the proposal was not both
    /// executed and cancelled.
    pub open spec fn wf(self) -> bool {
        &&& self.approvals.no_duplicates()
        &&& !(self.executed && self.cancelled)
    }

    /// How many different identities have approved.
    pub open spec fn distinct_approvals(self) -> nat {
        self.approvals.to_set().len()
    }

    /// The quorum rule: at least `threshold` different identities have approved.
    pub open spec fn is_executable(self, multisig: MultisigView) -> bool {
        self.distinct_approvals() >= multisig.threshold
    }

    /// Whether `approver` may approve, and if not, why not.
    pub open spec fn approval_outcome(self, multisig: MultisigView, approver: Pubkey) -> Result<
        (),
        MultisigError,
    > {
        if self.status() != ProposalStatus::Pending {
            Err(MultisigError::AlreadyProcessed)
        } else if !multisig.is_member(approver) {
            Err(MultisigError::NotMember)
        } else if self.approvals.contains(approver) {
            Err(MultisigError::AlreadyApproved)
        } else {
            Ok(())
        }
    }

    /// The same proposal with `approver` added to the approvals.
    pub open spec fn approved_by(self, approver: Pubkey) -> ProposalView {
        ProposalView { approvals: self.approvals.push(approver), ..self }
    }

    /// Whether the call may be released against the supplied accounts, and
    /// if not, why not.
    pub open spec fn execution_outcome(
        self,
        multisig: MultisigView,
        supplied: Seq<AccountInfo>,
    ) -> Result<(), MultisigError> {
        if self.status() != ProposalStatus::Pending {
            Err(MultisigError::AlreadyProcessed)
        } else if !self.is_executable(multisig) {
            Err(MultisigError::NotExecutable)
        } else if !self.instruction.matches_accounts(supplied) {
            Err(MultisigError::AccountMismatch)
        } else {
            Ok(())
        }
    }

    /// The same proposal, executed.
    pub open spec fn marked_executed(self) -> ProposalView {
        ProposalView { executed: true, ..self }
    }

    /// Whether `canceller` may cancel, and if not, why not.
    pub open spec fn cancellation_outcome(self, canceller: Pubkey) -> Result<(), MultisigError> {
        if self.status() != ProposalStatus::Pending {
            Err(MultisigError::AlreadyProcessed)
        } else if self.proposer != canceller {
            Err(MultisigError::NotProposer)
        } else {
            Ok(())
        }
    }

    /// The same proposal, cancelled.
    pub open spec fn marked_cancelled(self) -> ProposalView {
        ProposalView { cancelled: true, ..self }
    }
}

impl Clone for Proposal {
    fn clone(&self) -> (copy: Self)
        ensures
            copy@ == self@,
    {
        let approvals = self.approvals.clone();
        Proposal {
            multisig: self.multisig,
            proposer: self.proposer,
            instruction: self.instruction.clone(),
            approvals,
            executed: self.executed,
            cancelled: self.cancelled,
            bump: self.bump,
        }
    }
}

impl Proposal {
    pub fn status(&self) -> (status: ProposalStatus)
        ensures
            status == self@.status(),
    {
        if self.executed {
            ProposalStatus::Executed
        } else if self.cancelled {
            ProposalStatus::Cancelled
        } else {
            ProposalStatus::Pending
        }
    }

    /// Counts the different identities among the approvals. The stored list
    /// is not trusted to be free of repetitions: each identity counts once.
    pub fn distinct_approvals(&self) -> (count: usize)
        ensures
            count == self@.distinct_approvals(),
    {
        count_distinct(&self.approvals)
    }

    /// The quorum evaluator: whether enough different members have approved.
    pub fn is_executable(&self, multisig: &Multisig) -> (ok: bool)
        ensures
            ok == self@.is_executable(multisig@),
    {
        self.distinct_approvals() >= multisig.threshold as usize
    }
}

} // verus!
