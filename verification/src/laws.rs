//! What holds of the operations taken together.
//!
//! Each operation's contract says which outcome it has and what it leaves
//! behind, in terms of the outcome and effect functions of the records'
//! views. The lemmas here are stated over those same functions.

use vstd::prelude::*;
use crate::error::MultisigError;
use crate::instruction::AccountInfo;
use crate::members::lemma_strictly_increasing_no_duplicates;
use crate::pubkey::Pubkey;
use crate::state::{MultisigView, ProposalStatus, ProposalView};

verus! {

/// A member list is refused with `InvalidMembers` exactly when nothing is
/// left of it once repeated identities are dropped.
pub proof fn lemma_invalid_members_iff_empty(members: Seq<Pubkey>, threshold: u8)
    ensures
        (MultisigView::creation_outcome(members, threshold) == Err::<(), MultisigError>(
            MultisigError::InvalidMembers,
        )) <==> members.to_set().len() == 0,
{
    members.lemma_cardinality_of_empty_set_is_0();
}

/// With at least one member submitted, a threshold of zero or above the
/// number of different members is refused with `InvalidThreshold`, and no
/// other threshold is.
pub proof fn lemma_invalid_threshold_iff_out_of_range(members: Seq<Pubkey>, threshold: u8)
    requires
        members.len() > 0,
    ensures
        (MultisigView::creation_outcome(members, threshold) == Err::<(), MultisigError>(
            MultisigError::InvalidThreshold,
        )) <==> !(1 <= threshold <= members.to_set().len()),
        (MultisigView::creation_outcome(members, threshold) is Ok) <==> 1 <= threshold
            <= members.to_set().len(),
{
}

/// A well-formed multisig holds no member twice, and never needs more
/// approvals than it has members.
pub proof fn lemma_well_formed_multisig(multisig: MultisigView)
    requires
        multisig.wf(),
    ensures
        multisig.members.no_duplicates(),
        multisig.members.to_set().len() == multisig.members.len(),
        1 <= multisig.threshold <= multisig.members.to_set().len(),
{
    lemma_strictly_increasing_no_duplicates(multisig.members);
}

/// Making a proposal changes nothing of a multisig but its counter, so a
/// well-formed multisig stays well-formed.
pub proof fn lemma_proposal_keeps_multisig(multisig: MultisigView)
    ensures
        multisig.after_proposal().members == multisig.members,
        multisig.after_proposal().threshold == multisig.threshold,
        multisig.after_proposal().wf() == multisig.wf(),
        multisig.proposals_count < u32::MAX ==> multisig.after_proposal().proposals_count
            == multisig.proposals_count + 1,
{
}

/// Whoever has approved cannot approve again, and an approval that is
/// accepted keeps the approvals free of repetitions.
pub proof fn lemma_second_approval_refused(
    proposal: ProposalView,
    multisig: MultisigView,
    approver: Pubkey,
)
    requires
        proposal.approval_outcome(multisig, approver) is Ok,
    ensures
        proposal.approved_by(approver).approval_outcome(multisig, approver) == Err::<
            (),
            MultisigError,
        >(MultisigError::AlreadyApproved),
        proposal.approvals.no_duplicates() ==> proposal.approved_by(approver).approvals.no_duplicates(),
        proposal.wf() ==> proposal.approved_by(approver).wf(),
        proposal.wf() ==> proposal.approved_by(approver).distinct_approvals()
            == proposal.distinct_approvals() + 1,
{
    let before = proposal.approvals;
    let after = before.push(approver);
    assert(after[before.len() as int] == approver);
    if before.no_duplicates() {
        // The approver is not among the approvals yet, so none repeats.
        assert(after.no_duplicates());
        before.unique_seq_to_set();
        after.unique_seq_to_set();
    }
}

/// The order in which two members approve makes no difference to the
/// identities that have approved, nor to the quorum.
pub proof fn lemma_approvals_commute(
    proposal: ProposalView,
    multisig: MultisigView,
    first: Pubkey,
    second: Pubkey,
)
    ensures
        proposal.approved_by(first).approved_by(second).approvals.to_set() == proposal.approved_by(
            second,
        ).approved_by(first).approvals.to_set(),
        proposal.approved_by(first).approved_by(second).is_executable(multisig)
            == proposal.approved_by(second).approved_by(first).is_executable(multisig),
{
    let s = proposal.approvals;
    s.lemma_push_to_set_commute(first);
    s.lemma_push_to_set_commute(second);
    s.push(first).lemma_push_to_set_commute(second);
    s.push(second).lemma_push_to_set_commute(first);
}

/// A call is released only to a pending proposal whose different approvers
/// number at least the threshold; the proposal is executed from then on.
pub proof fn lemma_execution_needs_quorum(
    proposal: ProposalView,
    multisig: MultisigView,
    supplied: Seq<AccountInfo>,
)
    requires
        proposal.execution_outcome(multisig, supplied) is Ok,
    ensures
        proposal.status() == ProposalStatus::Pending,
        proposal.distinct_approvals() >= multisig.threshold,
        proposal.marked_executed().status() == ProposalStatus::Executed,
{
}

/// Below the quorum a pending proposal is refused with `NotExecutable`,
/// whatever accounts are supplied.
pub proof fn lemma_below_quorum_not_executable(
    proposal: ProposalView,
    multisig: MultisigView,
    supplied: Seq<AccountInfo>,
)
    requires
        proposal.status() == ProposalStatus::Pending,
        proposal.distinct_approvals() < multisig.threshold,
    ensures
        proposal.execution_outcome(multisig, supplied) == Err::<(), MultisigError>(
            MultisigError::NotExecutable,
        ),
{
}

/// Neither an approval nor a cancellation makes a proposal executed.
pub proof fn lemma_only_execution_marks_executed(proposal: ProposalView, who: Pubkey)
    ensures
        proposal.approved_by(who).status() == proposal.status(),
        proposal.marked_cancelled().status() == ProposalStatus::Executed ==> proposal.status()
            == ProposalStatus::Executed,
        proposal.status() == ProposalStatus::Pending ==> proposal.marked_cancelled().status()
            == ProposalStatus::Cancelled,
{
}

/// An executed or cancelled proposal refuses every operation with
/// `AlreadyProcessed`. As a refused operation changes nothing, such a
/// proposal is never pending again.
pub proof fn lemma_terminal_proposal_refuses_all(
    proposal: ProposalView,
    multisig: MultisigView,
    who: Pubkey,
    supplied: Seq<AccountInfo>,
)
    requires
        proposal.status() == ProposalStatus::Executed || proposal.status()
            == ProposalStatus::Cancelled,
    ensures
        proposal.approval_outcome(multisig, who) == Err::<(), MultisigError>(
            MultisigError::AlreadyProcessed,
        ),
        proposal.execution_outcome(multisig, supplied) == Err::<(), MultisigError>(
            MultisigError::AlreadyProcessed,
        ),
        proposal.cancellation_outcome(who) == Err::<(), MultisigError>(
            MultisigError::AlreadyProcessed,
        ),
{
}

/// The operations that succeed on a pending proposal leave it pending
/// (approval) or bring it to an end (execution, cancellation): the status
/// never goes back.
pub proof fn lemma_status_never_goes_back(proposal: ProposalView, who: Pubkey)
    ensures
        proposal.status() != ProposalStatus::Pending ==> proposal.approved_by(who).status()
            != ProposalStatus::Pending,
        proposal.marked_executed().status() != ProposalStatus::Pending,
        proposal.marked_cancelled().status() != ProposalStatus::Pending,
{
}

/// A pending proposal that has its quorum is refused with `AccountMismatch`
/// whenever the supplied accounts differ from the stored ones in number or
/// in the address at some position.
pub proof fn lemma_mismatched_accounts_refused(
    proposal: ProposalView,
    multisig: MultisigView,
    supplied: Seq<AccountInfo>,
)
    requires
        proposal.status() == ProposalStatus::Pending,
        proposal.is_executable(multisig),
        supplied.len() != proposal.instruction.accounts.len() || exists|i: int|
            0 <= i < supplied.len() && #[trigger] supplied[i].key
                != proposal.instruction.accounts[i].pubkey,
    ensures
        proposal.execution_outcome(multisig, supplied) == Err::<(), MultisigError>(
            MultisigError::AccountMismatch,
        ),
{
}

/// Only the addresses of the supplied accounts count: two lists with the
/// same addresses at the same positions have the same outcome, whatever
/// their access flags.
pub proof fn lemma_access_flags_not_checked(
    proposal: ProposalView,
    multisig: MultisigView,
    supplied: Seq<AccountInfo>,
    other: Seq<AccountInfo>,
)
    requires
        supplied.len() == other.len(),
        forall|i: int| 0 <= i < supplied.len() ==> supplied[i].key == other[i].key,
    ensures
        proposal.execution_outcome(multisig, supplied) == proposal.execution_outcome(
            multisig,
            other,
        ),
{
    assert(proposal.instruction.matches_accounts(supplied) == proposal.instruction.matches_accounts(
        other,
    ));
}

/// Only the proposer can cancel, and only while the proposal is pending.
pub proof fn lemma_cancellation_by_proposer_only(proposal: ProposalView, canceller: Pubkey)
    ensures
        (proposal.cancellation_outcome(canceller) is Ok) <==> (proposal.status()
            == ProposalStatus::Pending && canceller == proposal.proposer),
{
}

} // verus!
