//! What a transaction asks to have done: a list of sub-operations for the host
//! to perform under the wallet's delegated authority.

use crate::constants::{MAX_ACCOUNTS, MAX_DATA_SIZE};
use crate::errors::MultisigError;
use crate::identity::same_key;
use anchor_lang::prelude::Pubkey;
use vstd::prelude::*;

verus! {

/// A reference to an account that a sub-operation works on.
#[derive(Clone, Copy, Debug, PartialEq, Eq)]
pub struct TransactionAccountMeta {
    pub pubkey: Pubkey,
    /// The account has to sign the sub-operation.
    pub is_signer: bool,
    pub is_writable: bool,
}

/// One sub-operation: the program to call, the accounts it works on, its data.
#[derive(Clone, Debug, PartialEq, Eq)]
pub struct TransactionInstruction {
    pub program_id: Pubkey,
    pub accounts: Vec<TransactionAccountMeta>,
    pub data: Vec<u8>,
}

/// A sub-operation as a mathematical value.
pub struct InstructionView {
    pub program_id: Pubkey,
    pub accounts: Seq<TransactionAccountMeta>,
    pub data: Seq<u8>,
}

impl View for TransactionInstruction {
    type V = InstructionView;

    open spec fn view(&self) -> InstructionView {
        InstructionView { program_id: self.program_id, accounts: self.accounts@, data: self.data@ }
    }
}

/// A payload as a mathematical value: its sub-operations in order.
pub open spec fn payload_view(instructions: Seq<TransactionInstruction>) -> Seq<InstructionView> {
    instructions.map_values(|ix: TransactionInstruction| ix@)
}

/// Some sub-operation carries more account references than a record holds.
pub open spec fn has_too_many_accounts(payload: Seq<InstructionView>) -> bool {
    exists|i: int| 0 <= i < payload.len() && (#[trigger] payload[i]).accounts.len() > MAX_ACCOUNTS
}

/// Some sub-operation carries more data than a record holds.
pub open spec fn has_too_much_data(payload: Seq<InstructionView>) -> bool {
    exists|i: int| 0 <= i < payload.len() && (#[trigger] payload[i]).data.len() > MAX_DATA_SIZE
}

/// Why a payload cannot be stored, if it cannot: too many account references
/// anywhere in it come before too much data anywhere in it.
pub open spec fn payload_error(payload: Seq<InstructionView>) -> Option<MultisigError> {
    if has_too_many_accounts(payload) {
        Some(MultisigError::TooManyAccounts)
    } else if has_too_much_data(payload) {
        Some(MultisigError::DataTooLarge)
    } else {
        None
    }
}

/// An account reference as the host gets it: a reference to `authority` is
/// marked as signing, so that the wallet's delegated authority signs for it;
/// any other reference is handed on as it was proposed.
pub open spec fn stamp_meta(meta: TransactionAccountMeta, authority: Pubkey) -> TransactionAccountMeta {
    TransactionAccountMeta {
        pubkey: meta.pubkey,
        is_signer: meta.is_signer || meta.pubkey == authority,
        is_writable: meta.is_writable,
    }
}

/// A sub-operation with each of its account references stamped.
pub open spec fn stamp_instruction(ix: InstructionView, authority: Pubkey) -> InstructionView {
    InstructionView {
        program_id: ix.program_id,
        accounts: ix.accounts.map_values(|m: TransactionAccountMeta| stamp_meta(m, authority)),
        data: ix.data,
    }
}

/// A payload with each of its sub-operations stamped, in the same order.
pub open spec fn stamp_payload(payload: Seq<InstructionView>, authority: Pubkey) -> Seq<
    InstructionView,
> {
    payload.map_values(|ix: InstructionView| stamp_instruction(ix, authority))
}

/// Tests a payload against the limits of a stored record.
pub fn check_payload(instructions: &Vec<TransactionInstruction>) -> (res: Result<(), MultisigError>)
    ensures
        match res {
            Ok(()) => payload_error(payload_view(instructions@)) is None,
            Err(e) => payload_error(payload_view(instructions@)) == Some(e),
        },
{
    let ghost payload = payload_view(instructions@);
    let n = instructions.len();
    let mut i: usize = 0;
    while i < n
        invariant
            n == instructions.len(),
            payload == payload_view(instructions@),
            i <= n,
            forall|j: int| 0 <= j < i ==> (#[trigger] payload[j]).accounts.len() <= MAX_ACCOUNTS,
        decreases n - i,
    {
        if instructions[i].accounts.len() > MAX_ACCOUNTS {
            assert(payload[i as int].accounts.len() > MAX_ACCOUNTS);
            return Err(MultisigError::TooManyAccounts);
        }
        i += 1;
    }
    let mut k: usize = 0;
    while k < n
        invariant
            n == instructions.len(),
            payload == payload_view(instructions@),
            k <= n,
            !has_too_many_accounts(payload),
            forall|j: int| 0 <= j < k ==> (#[trigger] payload[j]).data.len() <= MAX_DATA_SIZE,
        decreases n - k,
    {
        if instructions[k].data.len() > MAX_DATA_SIZE {
            assert(payload[k as int].data.len() > MAX_DATA_SIZE);
            return Err(MultisigError::DataTooLarge);
        }
        k += 1;
    }
    Ok(())
}

impl TransactionInstruction {
    /// The sub-operation as the host is to perform it for the wallet at
    /// `authority`: every reference to that address is marked as signing.
    pub fn stamped(&self, authority: &Pubkey) -> (out: TransactionInstruction)
        ensures
            out@ == stamp_instruction(self@, *authority),
    {
        let mut accounts: Vec<TransactionAccountMeta> = Vec::new();
        let mut i: usize = 0;
        while i < self.accounts.len()
            invariant
                i <= self.accounts.len(),
                accounts@.len() == i,
                forall|j: int|
                    0 <= j < i ==> accounts@[j] == stamp_meta(self.accounts@[j], *authority),
            decreases self.accounts.len() - i,
        {
            let meta = &self.accounts[i];
            let vouched = same_key(&meta.pubkey, authority);
            accounts.push(
                TransactionAccountMeta {
                    pubkey: meta.pubkey,
                    is_signer: meta.is_signer || vouched,
                    is_writable: meta.is_writable,
                },
            );
            i += 1;
        }
        let mut data: Vec<u8> = Vec::new();
        let mut k: usize = 0;
        while k < self.data.len()
            invariant
                k <= self.data.len(),
                data@ == self.data@.take(k as int),
            decreases self.data.len() - k,
        {
            data.push(self.data[k]);
            assert(self.data@.take(k + 1) =~= self.data@.take(k as int).push(self.data@[k as int]));
            k += 1;
        }
        assert(self.data@.take(self.data.len() as int) =~= self.data@);
        assert(accounts@ =~= stamp_instruction(self@, *authority).accounts);
        TransactionInstruction { program_id: self.program_id, accounts, data }
    }
}

/// The payload as the host is to perform it for the wallet at `authority`.
pub fn stamp_instructions(instructions: &Vec<TransactionInstruction>, authority: &Pubkey) -> (out:
    Vec<TransactionInstruction>)
    ensures
        payload_view(out@) == stamp_payload(payload_view(instructions@), *authority),
{
    let mut out: Vec<TransactionInstruction> = Vec::new();
    let mut i: usize = 0;
    while i < instructions.len()
        invariant
            i <= instructions.len(),
            out@.len() == i,
            forall|j: int| 0 <= j < i ==> (#[trigger] out@[j])@ == stamp_instruction(
                instructions@[j]@,
                *authority,
            ),
        decreases instructions.len() - i,
    {
        out.push(instructions[i].stamped(authority));
        i += 1;
    }
    assert(payload_view(out@) =~= stamp_payload(payload_view(instructions@), *authority));
    out
}

} // verus!
