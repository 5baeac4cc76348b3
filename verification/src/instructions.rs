//! What each operation is called with: its arguments, and the records and
//! identities it works on.
//!
//! The host fills a context from its storage and from the caller it has
//! authenticated, calls the operation, and stores the records back.

use crate::state::owner::OwnerInfo;
use crate::state::payload::TransactionInstruction;
use crate::state::transaction::Transaction;
use crate::state::wallet::MultisigWallet;
use anchor_lang::prelude::Pubkey;
use vstd::prelude::*;

verus! {

/// The configuration of a wallet to create.
#[derive(Clone, Debug, PartialEq, Eq)]
pub struct CreateMultisigArgs {
    pub name: String,
    /// The threshold.
    pub min_weight_required: u64,
    pub owners: Vec<OwnerInfo>,
}

/// Where a new wallet is rooted.
#[derive(Clone, Copy, Debug, PartialEq, Eq)]
pub struct CreateMultisig {
    /// The address the wallet's own address is derived from.
    pub base: Pubkey,
    pub bump: u8,
}

/// The payload of a transaction to propose, and when the proposal lapses.
#[derive(Clone, Debug, PartialEq, Eq)]
pub struct CreateTransactionArgs {
    /// Who receives `amount`.
    pub destination: Pubkey,
    pub amount: u64,
    /// The sub-operations to perform after the transfer, in order.
    pub instructions: Vec<TransactionInstruction>,
    pub expires_at: Option<i64>,
}

/// A proposal's surroundings.
#[derive(Clone, Debug, PartialEq, Eq)]
pub struct CreateTransaction {
    pub wallet: MultisigWallet,
    /// The wallet's own address.
    pub wallet_key: Pubkey,
    /// Where the new transaction's record will be stored.
    pub transaction_key: Pubkey,
    pub transaction_bump: u8,
    pub proposer: Pubkey,
}

/// An approval's surroundings: a transaction of `wallet` and the approver.
#[derive(Clone, Debug, PartialEq, Eq)]
pub struct SignTransaction {
    pub wallet: MultisigWallet,
    pub transaction: Transaction,
    pub owner: Pubkey,
}

/// An execution's surroundings: a transaction of `wallet` and the invoker.
#[derive(Clone, Debug, PartialEq, Eq)]
pub struct ExecuteTransaction {
    pub wallet: MultisigWallet,
    /// The wallet's own address, under which it signs as delegated authority.
    pub wallet_key: Pubkey,
    pub transaction: Transaction,
    pub executor: Pubkey,
}

/// A listing's surroundings.
#[derive(Clone, Debug, PartialEq, Eq)]
pub struct GetPendingTransactions {
    pub wallet: MultisigWallet,
}

/// A cancellation's surroundings: a transaction of `wallet` and the canceller.
#[derive(Clone, Debug, PartialEq, Eq)]
pub struct CancelTransaction {
    pub wallet: MultisigWallet,
    pub transaction: Transaction,
    pub proposer: Pubkey,
}

} // verus!
