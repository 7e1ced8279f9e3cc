//! The external call that a proposal carries, as it is stored and as it is
//! handed to the host for invocation.

use vstd::prelude::*;
use vstd::std_specs::convert::FromSpecImpl;
use crate::pubkey::Pubkey;

verus! {

/// One account of a stored call: its address and the access the call needs.
#[derive(Clone, Copy, Debug, PartialEq, Eq)]
pub struct SerializableAccountMeta {
    pub pubkey: Pubkey,
    pub is_signer: bool,
    pub is_writable: bool,
}

/// One account of a call as the host takes it.
#[derive(Clone, Copy, Debug, PartialEq, Eq)]
pub struct AccountMeta {
    pub pubkey: Pubkey,
    pub is_signer: bool,
    pub is_writable: bool,
}

impl SerializableAccountMeta {
    /// The same account in the form in which the host takes it.
    pub open spec fn invocable(self) -> AccountMeta {
        AccountMeta { pubkey: self.pubkey, is_signer: self.is_signer, is_writable: self.is_writable }
    }
}

impl AccountMeta {
    /// The same account in the form in which a proposal stores it.
    pub open spec fn stored(self) -> SerializableAccountMeta {
        SerializableAccountMeta {
            pubkey: self.pubkey,
            is_signer: self.is_signer,
            is_writable: self.is_writable,
        }
    }
}

impl From<AccountMeta> for SerializableAccountMeta {
    fn from(meta: AccountMeta) -> (stored: Self) {
        SerializableAccountMeta {
            pubkey: meta.pubkey,
            is_signer: meta.is_signer,
            is_writable: meta.is_writable,
        }
    }
}

impl FromSpecImpl<AccountMeta> for SerializableAccountMeta {
    open spec fn obeys_from_spec() -> bool {
        true
    }

    open spec fn from_spec(meta: AccountMeta) -> Self {
        meta.stored()
    }
}

impl From<SerializableAccountMeta> for AccountMeta {
    fn from(s: SerializableAccountMeta) -> (meta: Self) {
        AccountMeta { pubkey: s.pubkey, is_signer: s.is_signer, is_writable: s.is_writable }
    }
}

impl FromSpecImpl<SerializableAccountMeta> for AccountMeta {
    open spec fn obeys_from_spec() -> bool {
        true
    }

    open spec fn from_spec(s: SerializableAccountMeta) -> Self {
        s.invocable()
    }
}

/// An account as the caller of an execution presents it.
#[derive(Clone, Copy, Debug, PartialEq, Eq)]
pub struct AccountInfo {
    pub key: Pubkey,
    pub is_signer: bool,
    pub is_writable: bool,
}

/// The call that a proposal asks for: the program to invoke, the accounts
/// the call touches, and its payload. Stored when the proposal is made and
/// never changed afterwards.
#[derive(Debug, PartialEq, Eq)]
pub struct InstructionData {
    pub program_id: Pubkey,
    pub accounts: Vec<SerializableAccountMeta>,
    pub data: Vec<u8>,
}

pub struct InstructionDataView {
    pub program_id: Pubkey,
    pub accounts: Seq<SerializableAccountMeta>,
    pub data: Seq<u8>,
}

impl View for InstructionData {
    type V = InstructionDataView;

    open spec fn view(&self) -> InstructionDataView {
        InstructionDataView { program_id: self.program_id, accounts: self.accounts@, data: self.data@ }
    }
}

/// A call in the form in which the host invokes it.
#[derive(Debug, PartialEq, Eq)]
pub struct Instruction {
    pub program_id: Pubkey,
    pub accounts: Vec<AccountMeta>,
    pub data: Vec<u8>,
}

pub struct InstructionView {
    pub program_id: Pubkey,
    pub accounts: Seq<AccountMeta>,
    pub data: Seq<u8>,
}

impl View for Instruction {
    type V = InstructionView;

    open spec fn view(&self) -> InstructionView {
        InstructionView { program_id: self.program_id, accounts: self.accounts@, data: self.data@ }
    }
}

impl Clone for InstructionData {
    fn clone(&self) -> (copy: Self)
        ensures
            copy@ == self@,
    {
        let accounts = self.accounts.clone();
        let data = self.data.clone();
        InstructionData { program_id: self.program_id, accounts, data }
    }
}

impl Clone for Instruction {
    fn clone(&self) -> (copy: Self)
        ensures
            copy@ == self@,
    {
        let accounts = self.accounts.clone();
        let data = self.data.clone();
        Instruction { program_id: self.program_id, accounts, data }
    }
}

impl InstructionDataView {
    /// The call to invoke for a stored call: the same program, the same
    /// accounts with the access flags as stored, the same payload.
    pub open spec fn to_instruction(self) -> InstructionView {
        InstructionView {
            program_id: self.program_id,
            accounts: self.accounts.map_values(|s: SerializableAccountMeta| s.invocable()),
            data: self.data,
        }
    }

    /// The supplied accounts are those of the stored call: as many, and at
    /// each position the same address. Access flags play no part.
    pub open spec fn matches_accounts(self, supplied: Seq<AccountInfo>) -> bool {
        &&& supplied.len() == self.accounts.len()
        &&& forall|i: int| 0 <= i < self.accounts.len() ==> self.accounts[i].pubkey == supplied[i].key
    }
}

impl InstructionData {
    /// Builds the call to invoke from the stored one.
    pub fn to_instruction(&self) -> (call: Instruction)
        ensures
            call@ == self@.to_instruction(),
    {
        let mut accounts: Vec<AccountMeta> = Vec::new();
        let mut i: usize = 0;
        while i < self.accounts.len()
            invariant
                i <= self.accounts.len(),
                accounts@.len() == i,
                forall|j: int| 0 <= j < i ==> accounts@[j] == self.accounts@[j].invocable(),
            decreases self.accounts.len() - i,
        {
            accounts.push(AccountMeta::from(self.accounts[i]));
            i += 1;
        }
        let data = self.data.clone();
        assert(accounts@ =~= self@.to_instruction().accounts);
        Instruction { program_id: self.program_id, accounts, data }
    }

    /// Whether the supplied accounts are those of the stored call.
    pub fn matches_accounts(&self, supplied: &Vec<AccountInfo>) -> (ok: bool)
        ensures
            ok == self@.matches_accounts(supplied@),
    {
        if self.accounts.len() != supplied.len() {
            return false;
        }
        let mut i: usize = 0;
        while i < self.accounts.len()
            invariant
                i <= self.accounts.len(),
                self.accounts.len() == supplied.len(),
                forall|j: int| 0 <= j < i ==> self.accounts@[j].pubkey == supplied@[j].key,
            decreases self.accounts.len() - i,
        {
            if self.accounts[i].pubkey != supplied[i].key {
                return false;
            }
            i += 1;
        }
        true
    }
}

} // verus!
