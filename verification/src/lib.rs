//! A verified multi-party approval gate: a fixed group of members collects
//! approvals for one external call and releases it once a quorum is reached.

pub mod error;
pub mod instruction;
pub mod laws;
pub mod members;
pub mod operations;
pub mod pubkey;
pub mod seeds;
pub mod state;

pub use error::MultisigError;
pub use instruction::{AccountInfo, AccountMeta, Instruction, InstructionData, SerializableAccountMeta};
pub use operations::{
    approve_transaction, cancel_transaction, create_multisig, execute_transaction,
    propose_transaction, ApproveTransaction, CancelTransaction, CreateMultisig,
    ExecuteTransaction, ProposeTransaction, SignedInvocation,
};
pub use pubkey::Pubkey;
pub use state::{Multisig, Proposal, ProposalStatus};
