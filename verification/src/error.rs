//! The ways in which an operation on a multisig can be refused.

use vstd::prelude::*;

verus! {

/// Why an operation was refused. A refused operation changes nothing.
#[derive(Clone, Copy, Debug, PartialEq, Eq, Structural)]
pub enum MultisigError {
    /// The submitted member list is empty.
    InvalidMembers,
    /// The threshold is zero or exceeds the number of distinct members.
    InvalidThreshold,
    /// The caller is not a member of the multisig.
    NotMember,
    /// The caller has approved this proposal before.
    AlreadyApproved,
    /// Fewer distinct members than the threshold have approved.
    NotExecutable,
    /// Only the proposer may cancel a proposal.
    NotProposer,
    /// The proposal was executed or cancelled before.
    AlreadyProcessed,
    /// The accounts supplied for execution are not those of the stored call.
    AccountMismatch,
}

impl MultisigError {
    /// The text shown to a caller for each refusal.
    pub open spec fn message_text(self) -> Seq<char> {
        match self {
            MultisigError::InvalidMembers => "Members must be sorted and unique"@,
            MultisigError::InvalidThreshold => "Threshold out of range"@,
            MultisigError::NotMember => "Only members can interact"@,
            MultisigError::AlreadyApproved => "Already approved"@,
            MultisigError::NotExecutable => "Not enough approvals"@,
            MultisigError::NotProposer => "Only proposer can cancel"@,
            MultisigError::AlreadyProcessed => "Already processed"@,
            MultisigError::AccountMismatch => "CPI account mismatch"@,
        }
    }

    pub fn message(&self) -> (text: &'static str)
        ensures
            text@ == self.message_text(),
    {
        match self {
            MultisigError::InvalidMembers => "Members must be sorted and unique",
            MultisigError::InvalidThreshold => "Threshold out of range",
            MultisigError::NotMember => "Only members can interact",
            MultisigError::AlreadyApproved => "Already approved",
            MultisigError::NotExecutable => "Not enough approvals",
            MultisigError::NotProposer => "Only proposer can cancel",
            MultisigError::AlreadyProcessed => "Already processed",
            MultisigError::AccountMismatch => "CPI account mismatch",
        }
    }
}

} // verus!
