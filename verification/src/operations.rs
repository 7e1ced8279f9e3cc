//! The five operations on a multisig and its proposals.
//!
//! Each operation takes the records it works on in a context of its own,
//! checks what must hold in a fixed order, and either refuses with the first
//! rule that is broken, leaving every record as it was, or carries out its
//! effect.

use vstd::prelude::*;
use crate::error::MultisigError;
use crate::instruction::{AccountInfo, Instruction, InstructionData, InstructionDataView, InstructionView};
use crate::members::{contains_key, lemma_strictly_increasing_no_duplicates, normalize_members};
use crate::pubkey::Pubkey;
use crate::seeds::{seeds_view, signer_seeds, signer_seeds_of};
use crate::state::{Multisig, MultisigView, Proposal, ProposalStatus, ProposalView};

verus! {

/// What `create_multisig` works on.
#[derive(Clone, Copy, Debug, PartialEq, Eq)]
pub struct CreateMultisig {
    /// Who makes the group.
    pub creator: Pubkey,
    /// The bump of the new record's address.
    pub bump: u8,
}

/// What `propose_transaction` works on.
#[derive(Debug, PartialEq, Eq)]
pub struct ProposeTransaction {
    /// The address of `multisig`.
    pub multisig_key: Pubkey,
    pub multisig: Multisig,
    /// Who submits the call.
    pub proposer: Pubkey,
    /// The bump of the new record's address.
    pub bump: u8,
}

/// What `approve_transaction` works on.
#[derive(Debug, PartialEq, Eq)]
pub struct ApproveTransaction {
    /// The address of `multisig`.
    pub multisig_key: Pubkey,
    pub multisig: Multisig,
    pub proposal: Proposal,
    /// Who approves.
    pub approver: Pubkey,
}

/// What `execute_transaction` works on.
#[derive(Debug, PartialEq, Eq)]
pub struct ExecuteTransaction {
    /// The address of `multisig`.
    pub multisig_key: Pubkey,
    pub multisig: Multisig,
    pub proposal: Proposal,
}

/// What `cancel_transaction` works on.
#[derive(Debug, PartialEq, Eq)]
pub struct CancelTransaction {
    /// The address of `multisig`.
    pub multisig_key: Pubkey,
    pub multisig: Multisig,
    pub proposal: Proposal,
    /// Who cancels.
    pub canceller: Pubkey,
}

/// A call that a multisig has released: the host is to invoke `instruction`
/// with the multisig's address as a signer, which `signer_seeds` authorize.
#[derive(Debug, PartialEq, Eq)]
pub struct SignedInvocation {
    pub instruction: Instruction,
    pub signer_seeds: Vec<Vec<u8>>,
}

pub struct SignedInvocationView {
    pub instruction: InstructionView,
    pub signer_seeds: Seq<Seq<u8>>,
}

impl View for SignedInvocation {
    type V = SignedInvocationView;

    open spec fn view(&self) -> SignedInvocationView {
        SignedInvocationView {
            instruction: self.instruction@,
            signer_seeds: seeds_view(self.signer_seeds@),
        }
    }
}

/// The invocation that releases `call` in the name of `multisig`: the call
/// as it is stored, signed with the seeds of the multisig's own address.
pub open spec fn invocation_of(multisig: MultisigView, call: InstructionDataView) -> SignedInvocationView {
    SignedInvocationView {
        instruction: call.to_instruction(),
        signer_seeds: signer_seeds_of(multisig.creator, multisig.nonce, multisig.bump),
    }
}

/// Makes a multisig of the submitted members and threshold.
///
/// The members are sorted and repeated identities dropped. An empty list is
/// refused with `InvalidMembers`; a threshold of zero, or one above the
/// number of different members, with `InvalidThreshold`.
pub fn create_multisig(
    ctx: &CreateMultisig,
    nonce: u8,
    members: Vec<Pubkey>,
    threshold: u8,
) -> (created: Result<Multisig, MultisigError>)
    ensures
        (created is Ok) == (MultisigView::creation_outcome(members@, threshold) is Ok),
        created matches Err(e) ==> MultisigView::creation_outcome(members@, threshold) == Err::<
            (),
            MultisigError,
        >(e),
        created matches Ok(m) ==> m@.wf() && m@.members.no_duplicates() && m@.members.to_set()
            == members@.to_set(),
        created matches Ok(m) ==> m@.creator == ctx.creator && m@.nonce == nonce && m@.threshold
            == threshold && m@.proposals_count == 0 && m@.bump == ctx.bump,
{
    proof {
        members@.lemma_cardinality_of_empty_set_is_0();
    }
    let members = normalize_members(members);
    if members.len() == 0 {
        return Err(MultisigError::InvalidMembers);
    }
    if threshold == 0 || threshold as usize > members.len() {
        return Err(MultisigError::InvalidThreshold);
    }
    proof {
        lemma_strictly_increasing_no_duplicates(members@);
    }
    Ok(
        Multisig {
            creator: ctx.creator,
            nonce,
            members,
            threshold,
            proposals_count: 0,
            bump: ctx.bump,
        },
    )
}

/// Submits a call to the multisig.
///
/// Only a member may propose. The new proposal is pending and has no
/// approvals; it stores the call as submitted. The proposal counter goes up
/// by one, and only when the proposal was made.
pub fn propose_transaction(ctx: &mut ProposeTransaction, instruction_data: InstructionData) -> (made:
    Result<Proposal, MultisigError>)
    requires
        old(ctx).multisig.proposals_count < u32::MAX,
    ensures
        (made is Ok) == (old(ctx).multisig@.proposal_outcome(old(ctx).proposer) is Ok),
        made matches Err(e) ==> old(ctx).multisig@.proposal_outcome(old(ctx).proposer) == Err::<
            (),
            MultisigError,
        >(e) && *final(ctx) == *old(ctx),
        made matches Ok(p) ==> p@ == ProposalView::fresh(
            old(ctx).multisig_key,
            old(ctx).proposer,
            instruction_data@,
            old(ctx).bump,
        ) && final(ctx).multisig@ == old(ctx).multisig@.after_proposal(),
        final(ctx).multisig@.wf() == old(ctx).multisig@.wf(),
        final(ctx).multisig_key == old(ctx).multisig_key,
        final(ctx).proposer == old(ctx).proposer,
        final(ctx).bump == old(ctx).bump,
{
    if !ctx.multisig.is_member(&ctx.proposer) {
        return Err(MultisigError::NotMember);
    }
    let proposal = Proposal {
        multisig: ctx.multisig_key,
        proposer: ctx.proposer,
        instruction: instruction_data,
        approvals: Vec::new(),
        executed: false,
        cancelled: false,
        bump: ctx.bump,
    };
    ctx.multisig.proposals_count = ctx.multisig.proposals_count + 1;
    Ok(proposal)
}

/// Records the approval of one member.
///
/// Refused with `AlreadyProcessed` unless the proposal is pending, with
/// `NotMember` unless the approver is a member, and with `AlreadyApproved`
/// if the approver is among the approvals already.
pub fn approve_transaction(ctx: &mut ApproveTransaction) -> (done: Result<(), MultisigError>)
    requires
        old(ctx).proposal.multisig == old(ctx).multisig_key,
    ensures
        done == old(ctx).proposal@.approval_outcome(old(ctx).multisig@, old(ctx).approver),
        done is Ok ==> final(ctx).proposal@ == old(ctx).proposal@.approved_by(old(ctx).approver),
        done is Err ==> *final(ctx) == *old(ctx),
        old(ctx).proposal@.wf() ==> final(ctx).proposal@.wf(),
        final(ctx).multisig == old(ctx).multisig,
        final(ctx).multisig_key == old(ctx).multisig_key,
        final(ctx).approver == old(ctx).approver,
{
    match ctx.proposal.status() {
        ProposalStatus::Pending => {},
        _ => {
            return Err(MultisigError::AlreadyProcessed);
        },
    }
    if !ctx.multisig.is_member(&ctx.approver) {
        return Err(MultisigError::NotMember);
    }
    if contains_key(&ctx.proposal.approvals, &ctx.approver) {
        return Err(MultisigError::AlreadyApproved);
    }
    ctx.proposal.approvals.push(ctx.approver);
    Ok(())
}

/// Releases the call of a proposal that has reached its quorum.
///
/// Refused with `AlreadyProcessed` unless the proposal is pending, with
/// `NotExecutable` unless at least `threshold` different identities have
/// approved, and with `AccountMismatch` unless `remaining_accounts` are the
/// accounts of the stored call, as many and with the same address at each
/// position. The access flags of the supplied accounts are not looked at.
///
/// On success the proposal is marked executed, and the result is the call
/// for the host to invoke: the stored program, the stored accounts with
/// the access flags as stored, the stored payload, signed with the seeds
/// of the multisig. The mark is set before the host sees the call.
pub fn execute_transaction(ctx: &mut ExecuteTransaction, remaining_accounts: &Vec<AccountInfo>) -> (released:
    Result<SignedInvocation, MultisigError>)
    requires
        old(ctx).proposal.multisig == old(ctx).multisig_key,
    ensures
        (released is Ok) == (old(ctx).proposal@.execution_outcome(
            old(ctx).multisig@,
            remaining_accounts@,
        ) is Ok),
        released matches Err(e) ==> old(ctx).proposal@.execution_outcome(
            old(ctx).multisig@,
            remaining_accounts@,
        ) == Err::<(), MultisigError>(e) && *final(ctx) == *old(ctx),
        released matches Ok(call) ==> call@ == invocation_of(
            old(ctx).multisig@,
            old(ctx).proposal@.instruction,
        ) && final(ctx).proposal@ == old(ctx).proposal@.marked_executed(),
        final(ctx).proposal@.status() == ProposalStatus::Executed && old(ctx).proposal@.status()
            != ProposalStatus::Executed ==> old(ctx).proposal@.distinct_approvals() >= old(
            ctx,
        ).multisig@.threshold,
        old(ctx).proposal@.wf() ==> final(ctx).proposal@.wf(),
        final(ctx).multisig == old(ctx).multisig,
        final(ctx).multisig_key == old(ctx).multisig_key,
{
    match ctx.proposal.status() {
        ProposalStatus::Pending => {},
        _ => {
            return Err(MultisigError::AlreadyProcessed);
        },
    }
    if !ctx.proposal.is_executable(&ctx.multisig) {
        return Err(MultisigError::NotExecutable);
    }
    if !ctx.proposal.instruction.matches_accounts(remaining_accounts) {
        return Err(MultisigError::AccountMismatch);
    }
    ctx.proposal.executed = true;
    let instruction = ctx.proposal.instruction.to_instruction();
    let signer_seeds = signer_seeds(&ctx.multisig.creator, ctx.multisig.nonce, ctx.multisig.bump);
    Ok(SignedInvocation { instruction, signer_seeds })
}

/// Withdraws a pending proposal.
///
/// Refused with `AlreadyProcessed` unless the proposal is pending, and with
/// `NotProposer` unless the canceller is the one who made the proposal.
pub fn cancel_transaction(ctx: &mut CancelTransaction) -> (done: Result<(), MultisigError>)
    requires
        old(ctx).proposal.multisig == old(ctx).multisig_key,
    ensures
        done == old(ctx).proposal@.cancellation_outcome(old(ctx).canceller),
        done is Ok ==> final(ctx).proposal@ == old(ctx).proposal@.marked_cancelled(),
        done is Err ==> *final(ctx) == *old(ctx),
        old(ctx).proposal@.wf() ==> final(ctx).proposal@.wf(),
        final(ctx).multisig == old(ctx).multisig,
        final(ctx).multisig_key == old(ctx).multisig_key,
        final(ctx).canceller == old(ctx).canceller,
{
    match ctx.proposal.status() {
        ProposalStatus::Pending => {},
        _ => {
            return Err(MultisigError::AlreadyProcessed);
        },
    }
    if ctx.proposal.proposer != ctx.canceller {
        return Err(MultisigError::NotProposer);
    }
    ctx.proposal.cancelled = true;
    Ok(())
}

} // verus!
