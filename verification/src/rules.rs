//! The rules of the wallet as mathematics: for each operation, on which
//! records it is refused and why, and what the records are afterwards.
//!
//! The reasons for a refusal are tried in the order in which each function
//! writes them, and the first that holds is the one reported.

use crate::errors::MultisigError;
use crate::state::owner::{is_owner, total_weight, weight_of, OwnerInfo};
use crate::state::payload::{payload_error, InstructionView};
use crate::state::pending::{is_pending, PendingTransactionInfo};
use crate::state::transaction::{status_error, TransactionStatus, TransactionView};
use crate::state::wallet::WalletView;
use anchor_lang::prelude::Pubkey;
use vstd::prelude::*;

verus! {

/// The wallet that a creation with a valid configuration gives: version 0, no
/// transaction proposed yet, nothing pending.
pub open spec fn created_wallet(
    base: Pubkey,
    bump: u8,
    name: Seq<char>,
    owners: Seq<OwnerInfo>,
    threshold: u64,
) -> WalletView {
    WalletView {
        base,
        bump,
        name,
        min_weight_required: threshold,
        total_weight: total_weight(owners) as u64,
        owner_set_seqno: 0,
        owners,
        num_owners: owners.len() as u8,
        transaction_count: 0,
        pending_count: 0,
        pending_transactions: Seq::empty(),
    }
}

/// Why `proposer` cannot propose `payload` at `now`, if it cannot. An expiry
/// time has to lie strictly after `now`. A full pending index is reported
/// before a counter that has no number left for the transaction.
pub open spec fn propose_error(
    wallet: WalletView,
    proposer: Pubkey,
    payload: Seq<InstructionView>,
    expires_at: Option<i64>,
    now: i64,
) -> Option<MultisigError> {
    if !is_owner(wallet.owners, proposer) {
        Some(MultisigError::NotOwner)
    } else if expires_at matches Some(expires) && expires <= now {
        Some(MultisigError::TransactionExpired)
    } else if payload_error(payload) is Some {
        payload_error(payload)
    } else if wallet.enqueue_error() is Some {
        wallet.enqueue_error()
    } else if wallet.transaction_count == u64::MAX {
        Some(MultisigError::ArithmeticOverflow)
    } else {
        None
    }
}

/// The transaction that a proposal creates: pending, numbered by the wallet's
/// counter, stamped with the wallet's configuration version, and approved by
/// its proposer, whose weight is its weight.
pub open spec fn proposed_transaction(
    wallet: WalletView,
    wallet_key: Pubkey,
    bump: u8,
    proposer: Pubkey,
    destination: Pubkey,
    amount: u64,
    payload: Seq<InstructionView>,
    expires_at: Option<i64>,
    now: i64,
) -> TransactionView {
    TransactionView {
        wallet: wallet_key,
        transaction_index: wallet.transaction_count,
        bump,
        proposer,
        destination,
        amount,
        instructions: payload,
        status: TransactionStatus::Pending,
        current_weight: weight_of(wallet.owners, proposer) as u64,
        approvals: seq![proposer],
        owner_set_seqno: wallet.owner_set_seqno,
        created_at: now,
        expires_at,
        executed_at: None,
    }
}

/// The wallet after a proposal: the new transaction, stored at
/// `transaction_key`, is the last entry of the pending index, and the counter
/// has moved on.
pub open spec fn wallet_after_proposal(
    wallet: WalletView,
    transaction_key: Pubkey,
    proposer: Pubkey,
    now: i64,
) -> WalletView {
    WalletView {
        transaction_count: (wallet.transaction_count + 1) as u64,
        ..wallet.with_pending(
            PendingTransactionInfo {
                index: wallet.transaction_count,
                pubkey: transaction_key,
                created_at: now,
                proposer,
            },
        )
    }
}

/// The wallet once `transaction` has been looked at: a transaction found
/// expired leaves the pending index; every other leaves the wallet as it was.
/// (A transaction is found expired at the first look after the one that saw
/// its expiry time pass.)
pub open spec fn settled_wallet(wallet: WalletView, transaction: TransactionView) -> WalletView {
    if transaction.status is Expired {
        wallet.without_pending(transaction.transaction_index)
    } else {
        wallet
    }
}

/// Why `signer` cannot approve `transaction` at `now`, if it cannot.
pub open spec fn approve_error(
    wallet: WalletView,
    transaction: TransactionView,
    signer: Pubkey,
    now: i64,
) -> Option<MultisigError> {
    if transaction.is_expired(now) {
        Some(MultisigError::TransactionExpired)
    } else if status_error(transaction.status) is Some {
        status_error(transaction.status)
    } else if transaction.owner_set_seqno != wallet.owner_set_seqno {
        Some(MultisigError::OwnerSetChanged)
    } else if !is_owner(wallet.owners, signer) {
        Some(MultisigError::NotOwner)
    } else if transaction.approvals.contains(signer) {
        Some(MultisigError::AlreadySigned)
    } else if transaction.current_weight + weight_of(wallet.owners, signer) > u64::MAX {
        Some(MultisigError::ArithmeticOverflow)
    } else {
        None
    }
}

/// The transaction after `signer` approved it.
pub open spec fn approved_transaction(
    wallet: WalletView,
    transaction: TransactionView,
    signer: Pubkey,
) -> TransactionView {
    transaction.with_signature(signer, weight_of(wallet.owners, signer) as u64)
}

/// Why `canceller` cannot cancel `transaction` at `now`, if it cannot. Every
/// transaction that is not pending is refused as `InvalidTransactionState`.
pub open spec fn cancel_error(
    wallet: WalletView,
    transaction: TransactionView,
    canceller: Pubkey,
    now: i64,
) -> Option<MultisigError> {
    if transaction.status is Pending && transaction.is_expired(now) {
        Some(MultisigError::TransactionExpired)
    } else if canceller != transaction.proposer {
        Some(MultisigError::NotProposer)
    } else if !(transaction.status is Pending) {
        Some(MultisigError::InvalidTransactionState)
    } else if !is_pending(wallet.pending_transactions, transaction.transaction_index) {
        Some(MultisigError::TransactionNotFound)
    } else {
        None
    }
}

/// The transaction after its cancellation.
pub open spec fn cancelled_transaction(transaction: TransactionView) -> TransactionView {
    TransactionView { status: TransactionStatus::Cancelled, ..transaction }
}

/// The payload's transfer can be made: the wallet holds `amount`, and the
/// destination's balance can take it. A wallet that pays itself needs the
/// amount and keeps it.
pub open spec fn transfer_possible(
    wallet_lamports: u64,
    destination_lamports: u64,
    amount: u64,
    to_itself: bool,
) -> bool {
    wallet_lamports >= amount && (to_itself || destination_lamports + amount <= u64::MAX)
}

/// The wallet's and the destination's balance after the payload's transfer.
pub open spec fn balances_after_transfer(
    wallet_lamports: u64,
    destination_lamports: u64,
    amount: u64,
    to_itself: bool,
) -> (u64, u64) {
    if to_itself {
        (wallet_lamports, destination_lamports)
    } else {
        ((wallet_lamports - amount) as u64, (destination_lamports + amount) as u64)
    }
}

/// Why `invoker` cannot execute `transaction` at `now`, if it cannot.
/// `performed` says whether the host performed the payload, all of it. The
/// weight that counts is the weight recorded with the approvals.
pub open spec fn execute_error(
    wallet: WalletView,
    transaction: TransactionView,
    invoker: Pubkey,
    now: i64,
    performed: bool,
) -> Option<MultisigError> {
    if status_error(transaction.status) is Some {
        status_error(transaction.status)
    } else if transaction.is_expired(now) {
        Some(MultisigError::TransactionExpired)
    } else if transaction.owner_set_seqno != wallet.owner_set_seqno {
        Some(MultisigError::OwnerSetChanged)
    } else if !is_owner(wallet.owners, invoker) {
        Some(MultisigError::NotOwner)
    } else if !transaction.approvals.contains(invoker) {
        Some(MultisigError::Unauthorized)
    } else if transaction.current_weight < wallet.min_weight_required {
        Some(MultisigError::InsufficientSigners)
    } else if !performed {
        Some(MultisigError::ExecutionFailed)
    } else if !is_pending(wallet.pending_transactions, transaction.transaction_index) {
        Some(MultisigError::TransactionNotFound)
    } else {
        None
    }
}

/// The transaction after its execution at `now`.
pub open spec fn executed_transaction(transaction: TransactionView, now: i64) -> TransactionView {
    TransactionView { status: TransactionStatus::Executed, executed_at: Some(now), ..transaction }
}

} // verus!
