use multisig::{
    approve_transaction, cancel_transaction, create_multisig, execute_transaction,
    propose_transaction, AccountInfo, ApproveTransaction, CancelTransaction, CreateMultisig,
    ExecuteTransaction, InstructionData, Multisig, MultisigError, Proposal, ProposalStatus,
    ProposeTransaction, Pubkey, SerializableAccountMeta,
};

fn key(fill: u8) -> Pubkey {
    Pubkey::new_from_array([fill; 32])
}

fn address() -> Pubkey {
    key(77)
}

fn call() -> InstructionData {
    InstructionData {
        program_id: key(200),
        accounts: vec![
            SerializableAccountMeta { pubkey: key(101), is_signer: false, is_writable: true },
            SerializableAccountMeta { pubkey: key(102), is_signer: true, is_writable: false },
        ],
        data: vec![9, 8, 7],
    }
}

fn supplied() -> Vec<AccountInfo> {
    vec![
        AccountInfo { key: key(101), is_signer: false, is_writable: true },
        AccountInfo { key: key(102), is_signer: false, is_writable: false },
    ]
}

fn group(threshold: u8) -> Multisig {
    let ctx = CreateMultisig { creator: key(1), bump: 250 };
    create_multisig(&ctx, 0, vec![key(1), key(2), key(3)], threshold).unwrap()
}

fn pending(approvals: Vec<Pubkey>) -> Proposal {
    Proposal {
        multisig: address(),
        proposer: key(1),
        instruction: call(),
        approvals,
        executed: false,
        cancelled: false,
        bump: 3,
    }
}

fn executed() -> Proposal {
    Proposal { executed: true, ..pending(vec![key(1), key(2)]) }
}

fn cancelled() -> Proposal {
    Proposal { cancelled: true, ..pending(vec![key(1)]) }
}

#[test]
fn proposal_by_a_member_is_pending_and_empty() {
    let mut ctx =
        ProposeTransaction { multisig_key: address(), multisig: group(2), proposer: key(2), bump: 5 };
    let made = propose_transaction(&mut ctx, call()).unwrap();
    assert_eq!(made, Proposal { proposer: key(2), bump: 5, ..pending(vec![]) });
    assert_eq!(made.instruction, call());
    assert_eq!(ctx.multisig, Multisig { proposals_count: 1, ..group(2) });
}

#[test]
fn proposal_by_a_stranger_is_not_member() {
    let mut ctx =
        ProposeTransaction { multisig_key: address(), multisig: group(2), proposer: key(9), bump: 5 };
    assert_eq!(propose_transaction(&mut ctx, call()), Err(MultisigError::NotMember));
    assert_eq!(ctx.multisig, group(2));
    assert_eq!(ctx.multisig.proposals_count, 0);
}

#[test]
fn counter_goes_up_by_one_for_each_proposal() {
    let mut ctx =
        ProposeTransaction { multisig_key: address(), multisig: group(2), proposer: key(1), bump: 5 };
    for made in 1..=5u32 {
        assert!(propose_transaction(&mut ctx, call()).is_ok());
        assert_eq!(ctx.multisig.proposals_count, made);
    }
    ctx.proposer = key(9);
    assert!(propose_transaction(&mut ctx, call()).is_err());
    assert_eq!(ctx.multisig.proposals_count, 5);
}

#[test]
fn counter_reaches_its_last_value() {
    let multisig = Multisig { proposals_count: u32::MAX - 1, ..group(2) };
    let mut ctx = ProposeTransaction { multisig_key: address(), multisig, proposer: key(1), bump: 5 };
    assert!(propose_transaction(&mut ctx, call()).is_ok());
    assert_eq!(ctx.multisig.proposals_count, u32::MAX);
}

#[test]
fn approval_is_appended() {
    let mut ctx = ApproveTransaction {
        multisig_key: address(),
        multisig: group(2),
        proposal: pending(vec![key(3)]),
        approver: key(1),
    };
    assert_eq!(approve_transaction(&mut ctx), Ok(()));
    assert_eq!(ctx.proposal, pending(vec![key(3), key(1)]));
    assert_eq!(ctx.multisig, group(2));
}

#[test]
fn second_approval_is_already_approved_and_changes_nothing() {
    let mut ctx = ApproveTransaction {
        multisig_key: address(),
        multisig: group(2),
        proposal: pending(vec![]),
        approver: key(2),
    };
    assert_eq!(approve_transaction(&mut ctx), Ok(()));
    assert_eq!(approve_transaction(&mut ctx), Err(MultisigError::AlreadyApproved));
    assert_eq!(ctx.proposal, pending(vec![key(2)]));
    assert_eq!(approve_transaction(&mut ctx), Err(MultisigError::AlreadyApproved));
    assert_eq!(ctx.proposal.approvals, vec![key(2)]);
}

#[test]
fn approval_by_a_stranger_is_not_member() {
    let mut ctx = ApproveTransaction {
        multisig_key: address(),
        multisig: group(2),
        proposal: pending(vec![key(1)]),
        approver: key(9),
    };
    assert_eq!(approve_transaction(&mut ctx), Err(MultisigError::NotMember));
    assert_eq!(ctx.proposal, pending(vec![key(1)]));
}

#[test]
fn approval_checks_status_before_membership() {
    let mut ctx = ApproveTransaction {
        multisig_key: address(),
        multisig: group(2),
        proposal: executed(),
        approver: key(9),
    };
    assert_eq!(approve_transaction(&mut ctx), Err(MultisigError::AlreadyProcessed));
}

#[test]
fn approval_checks_membership_before_repetition() {
    let mut ctx = ApproveTransaction {
        multisig_key: address(),
        multisig: group(2),
        proposal: pending(vec![key(9)]),
        approver: key(9),
    };
    assert_eq!(approve_transaction(&mut ctx), Err(MultisigError::NotMember));
}

#[test]
fn order_of_approvals_does_not_matter_for_the_quorum() {
    let one = pending(vec![key(1), key(2)]);
    let other = pending(vec![key(2), key(1)]);
    assert_eq!(one.distinct_approvals(), other.distinct_approvals());
    assert!(one.is_executable(&group(2)));
    assert!(other.is_executable(&group(2)));
}

#[test]
fn quorum_is_reached_at_the_threshold() {
    assert!(!pending(vec![]).is_executable(&group(1)));
    assert!(pending(vec![key(1)]).is_executable(&group(1)));
    assert!(!pending(vec![key(1)]).is_executable(&group(2)));
    assert!(pending(vec![key(1), key(3)]).is_executable(&group(2)));
    assert!(pending(vec![key(1), key(2), key(3)]).is_executable(&group(2)));
    assert!(!pending(vec![key(1), key(2)]).is_executable(&group(3)));
}

#[test]
fn repeated_approvals_count_once() {
    let stuffed = pending(vec![key(1), key(1), key(1)]);
    assert_eq!(stuffed.distinct_approvals(), 1);
    assert!(!stuffed.is_executable(&group(2)));
    let mut ctx = ExecuteTransaction { multisig_key: address(), multisig: group(2), proposal: stuffed };
    assert_eq!(execute_transaction(&mut ctx, &supplied()), Err(MultisigError::NotExecutable));
    assert_eq!(ctx.proposal.status(), ProposalStatus::Pending);
}

#[test]
fn execution_below_quorum_is_not_executable() {
    let mut ctx = ExecuteTransaction {
        multisig_key: address(),
        multisig: group(2),
        proposal: pending(vec![key(1)]),
    };
    assert_eq!(execute_transaction(&mut ctx, &supplied()), Err(MultisigError::NotExecutable));
    assert_eq!(ctx.proposal, pending(vec![key(1)]));
}

#[test]
fn execution_checks_quorum_before_accounts() {
    let mut ctx = ExecuteTransaction {
        multisig_key: address(),
        multisig: group(2),
        proposal: pending(vec![key(1)]),
    };
    assert_eq!(execute_transaction(&mut ctx, &vec![]), Err(MultisigError::NotExecutable));
}

#[test]
fn execution_with_too_few_accounts_is_account_mismatch() {
    let mut ctx = ExecuteTransaction {
        multisig_key: address(),
        multisig: group(2),
        proposal: pending(vec![key(1), key(2)]),
    };
    let mut short = supplied();
    short.pop();
    assert_eq!(execute_transaction(&mut ctx, &short), Err(MultisigError::AccountMismatch));
    assert_eq!(execute_transaction(&mut ctx, &vec![]), Err(MultisigError::AccountMismatch));
    assert_eq!(ctx.proposal, pending(vec![key(1), key(2)]));
    assert_eq!(ctx.proposal.status(), ProposalStatus::Pending);
}

#[test]
fn execution_with_too_many_accounts_is_account_mismatch() {
    let mut ctx = ExecuteTransaction {
        multisig_key: address(),
        multisig: group(2),
        proposal: pending(vec![key(1), key(2)]),
    };
    let mut long = supplied();
    long.push(AccountInfo { key: key(103), is_signer: false, is_writable: false });
    assert_eq!(execute_transaction(&mut ctx, &long), Err(MultisigError::AccountMismatch));
    assert_eq!(ctx.proposal.status(), ProposalStatus::Pending);
}

#[test]
fn execution_with_another_address_is_account_mismatch() {
    let mut ctx = ExecuteTransaction {
        multisig_key: address(),
        multisig: group(2),
        proposal: pending(vec![key(1), key(2)]),
    };
    let mut wrong_last = supplied();
    wrong_last[1].key = key(250);
    assert_eq!(execute_transaction(&mut ctx, &wrong_last), Err(MultisigError::AccountMismatch));
    let mut wrong_first = supplied();
    wrong_first[0].key = key(250);
    assert_eq!(execute_transaction(&mut ctx, &wrong_first), Err(MultisigError::AccountMismatch));
    assert_eq!(ctx.proposal.status(), ProposalStatus::Pending);
    assert_eq!(ctx.proposal.approvals, vec![key(1), key(2)]);
}

#[test]
fn execution_with_swapped_accounts_is_account_mismatch() {
    let mut ctx = ExecuteTransaction {
        multisig_key: address(),
        multisig: group(2),
        proposal: pending(vec![key(1), key(2)]),
    };
    let mut swapped = supplied();
    swapped.reverse();
    assert_eq!(execute_transaction(&mut ctx, &swapped), Err(MultisigError::AccountMismatch));
    assert_eq!(ctx.proposal.status(), ProposalStatus::Pending);
}

#[test]
fn execution_ignores_the_flags_of_the_supplied_accounts() {
    let mut ctx = ExecuteTransaction {
        multisig_key: address(),
        multisig: group(2),
        proposal: pending(vec![key(1), key(2)]),
    };
    let flipped = vec![
        AccountInfo { key: key(101), is_signer: true, is_writable: false },
        AccountInfo { key: key(102), is_signer: true, is_writable: true },
    ];
    let released = execute_transaction(&mut ctx, &flipped).unwrap();
    assert!(!released.instruction.accounts[0].is_signer);
    assert!(released.instruction.accounts[0].is_writable);
    assert!(released.instruction.accounts[1].is_signer);
    assert!(!released.instruction.accounts[1].is_writable);
}

#[test]
fn execution_of_a_call_without_accounts() {
    let mut proposal = pending(vec![key(3)]);
    proposal.instruction.accounts = vec![];
    let mut ctx = ExecuteTransaction { multisig_key: address(), multisig: group(1), proposal };
    let released = execute_transaction(&mut ctx, &vec![]).unwrap();
    assert_eq!(released.instruction.accounts, vec![]);
    assert_eq!(released.instruction.data, vec![9, 8, 7]);
    assert_eq!(ctx.proposal.status(), ProposalStatus::Executed);
}

#[test]
fn failed_forwarding_can_be_retried_from_the_kept_record() {
    let kept = pending(vec![key(1), key(2)]);
    let mut ctx = ExecuteTransaction { multisig_key: address(), multisig: group(2), proposal: kept.clone() };
    let first = execute_transaction(&mut ctx, &supplied()).unwrap();
    assert_eq!(ctx.proposal.status(), ProposalStatus::Executed);

    let mut retry = ExecuteTransaction { multisig_key: address(), multisig: ctx.multisig, proposal: kept };
    let second = execute_transaction(&mut retry, &supplied()).unwrap();
    assert_eq!(first, second);
    assert_eq!(retry.proposal.approvals, vec![key(1), key(2)]);
}

#[test]
fn executed_proposal_refuses_every_operation() {
    let mut approve = ApproveTransaction {
        multisig_key: address(),
        multisig: group(2),
        proposal: executed(),
        approver: key(3),
    };
    assert_eq!(approve_transaction(&mut approve), Err(MultisigError::AlreadyProcessed));
    assert_eq!(approve.proposal, executed());

    let mut execute =
        ExecuteTransaction { multisig_key: address(), multisig: group(2), proposal: executed() };
    assert_eq!(
        execute_transaction(&mut execute, &supplied()),
        Err(MultisigError::AlreadyProcessed)
    );
    assert_eq!(execute.proposal, executed());

    let mut cancel = CancelTransaction {
        multisig_key: address(),
        multisig: group(2),
        proposal: executed(),
        canceller: key(1),
    };
    assert_eq!(cancel_transaction(&mut cancel), Err(MultisigError::AlreadyProcessed));
    assert_eq!(cancel.proposal, executed());
    assert_eq!(cancel.proposal.status(), ProposalStatus::Executed);
}

#[test]
fn cancelled_proposal_refuses_every_operation() {
    let mut approve = ApproveTransaction {
        multisig_key: address(),
        multisig: group(1),
        proposal: cancelled(),
        approver: key(3),
    };
    assert_eq!(approve_transaction(&mut approve), Err(MultisigError::AlreadyProcessed));
    assert_eq!(approve.proposal, cancelled());

    let mut execute =
        ExecuteTransaction { multisig_key: address(), multisig: group(1), proposal: cancelled() };
    assert_eq!(
        execute_transaction(&mut execute, &supplied()),
        Err(MultisigError::AlreadyProcessed)
    );
    assert_eq!(execute.proposal, cancelled());

    let mut cancel = CancelTransaction {
        multisig_key: address(),
        multisig: group(1),
        proposal: cancelled(),
        canceller: key(1),
    };
    assert_eq!(cancel_transaction(&mut cancel), Err(MultisigError::AlreadyProcessed));
    assert_eq!(cancel.proposal.status(), ProposalStatus::Cancelled);
}

#[test]
fn cancellation_by_the_proposer() {
    let mut ctx = CancelTransaction {
        multisig_key: address(),
        multisig: group(2),
        proposal: pending(vec![key(2), key(3)]),
        canceller: key(1),
    };
    assert_eq!(cancel_transaction(&mut ctx), Ok(()));
    assert_eq!(ctx.proposal, Proposal { cancelled: true, ..pending(vec![key(2), key(3)]) });
    assert_eq!(ctx.multisig, group(2));
}

#[test]
fn cancellation_by_another_member_is_not_proposer() {
    let mut ctx = CancelTransaction {
        multisig_key: address(),
        multisig: group(2),
        proposal: pending(vec![]),
        canceller: key(2),
    };
    assert_eq!(cancel_transaction(&mut ctx), Err(MultisigError::NotProposer));
    assert_eq!(ctx.proposal, pending(vec![]));
    assert_eq!(ctx.proposal.status(), ProposalStatus::Pending);
}

#[test]
fn status_follows_the_two_marks() {
    assert_eq!(pending(vec![]).status(), ProposalStatus::Pending);
    assert_eq!(executed().status(), ProposalStatus::Executed);
    assert_eq!(cancelled().status(), ProposalStatus::Cancelled);
}

#[test]
fn copies_hold_the_same_values() {
    assert_eq!(group(2).clone(), group(2));
    assert_eq!(pending(vec![key(1)]).clone(), pending(vec![key(1)]));
    assert_eq!(call().clone(), call());
    assert_eq!(call().to_instruction().clone(), call().to_instruction());
}

#[test]
fn stored_call_matches_accounts_by_address_and_position() {
    assert!(call().matches_accounts(&supplied()));
    assert!(!call().matches_accounts(&vec![]));
    let mut other = supplied();
    other[0].key = key(102);
    other[1].key = key(101);
    assert!(!call().matches_accounts(&other));
}
