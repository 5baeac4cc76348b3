//! The operations of the wallet.
//!
//! Each one tests every reason for a refusal before it changes anything. A
//! refused call leaves the records as they were; the one exception is the
//! lazy expiry of a transaction, which is recorded whenever it is seen.

use crate::constants::MAX_PENDING_TXS;
use crate::errors::MultisigError;
use crate::identity::same_key;
use crate::instructions::{
    CancelTransaction, CreateMultisig, CreateMultisigArgs, CreateTransaction,
    CreateTransactionArgs, ExecuteTransaction, GetPendingTransactions, SignTransaction,
};
use crate::rules::{
    approve_error, approved_transaction, balances_after_transfer, cancel_error,
    cancelled_transaction, created_wallet, execute_error, executed_transaction, propose_error,
    proposed_transaction, settled_wallet, transfer_possible, wallet_after_proposal,
};
use crate::state::owner::{check_owner_set, configuration_error, sum_weights};
use crate::state::payload::{
    check_payload, payload_view, stamp_instructions, stamp_payload, TransactionInstruction,
};
use crate::state::pending::{find_pending, is_pending, pending_window, PendingTransactionInfo};
use crate::state::transaction::{lemma_approved_weight_push, Transaction, TransactionStatus};
use crate::state::wallet::MultisigWallet;
use anchor_lang::prelude::Pubkey;
use vstd::prelude::*;

verus! {

/// Creates a wallet with the given owners and threshold.
pub fn create_multisig(ctx: &CreateMultisig, args: CreateMultisigArgs) -> (res: Result<
    MultisigWallet,
    MultisigError,
>)
    ensures
        match res {
            Ok(wallet) => {
                &&& configuration_error(args.owners@, args.min_weight_required) is None
                &&& wallet@ == created_wallet(
                    ctx.base,
                    ctx.bump,
                    args.name@,
                    args.owners@,
                    args.min_weight_required,
                )
                &&& wallet.wf()
                &&& wallet@.queue_in_order()
            },
            Err(e) => configuration_error(args.owners@, args.min_weight_required) == Some(e),
        },
{
    match check_owner_set(&args.owners) {
        Err(e) => { return Err(e); },
        Ok(()) => {},
    }
    if args.min_weight_required == 0 {
        return Err(MultisigError::InvalidThreshold);
    }
    let total = sum_weights(&args.owners);
    if total > u64::MAX as u128 {
        return Err(MultisigError::ArithmeticOverflow);
    }
    if args.min_weight_required as u128 > total {
        return Err(MultisigError::ThresholdTooHigh);
    }
    Ok(
        MultisigWallet {
            base: ctx.base,
            bump: ctx.bump,
            name: args.name,
            min_weight_required: args.min_weight_required,
            total_weight: total as u64,
            owner_set_seqno: 0,
            num_owners: args.owners.len() as u8,
            owners: args.owners,
            transaction_count: 0,
            pending_count: 0,
            pending_transactions: Vec::new(),
        },
    )
}

/// Proposes a transaction: creates its record and enters it in the wallet's
/// pending index, both or neither.
pub fn create_transaction(ctx: &mut CreateTransaction, args: CreateTransactionArgs, now: i64) -> (res:
    Result<Transaction, MultisigError>)
    ensures
        final(ctx).wallet_key == old(ctx).wallet_key,
        final(ctx).transaction_key == old(ctx).transaction_key,
        final(ctx).transaction_bump == old(ctx).transaction_bump,
        final(ctx).proposer == old(ctx).proposer,
        match res {
            Ok(transaction) => {
                &&& propose_error(
                    old(ctx).wallet@,
                    old(ctx).proposer,
                    payload_view(args.instructions@),
                    args.expires_at,
                    now,
                ) is None
                &&& transaction@ == proposed_transaction(
                    old(ctx).wallet@,
                    old(ctx).wallet_key,
                    old(ctx).transaction_bump,
                    old(ctx).proposer,
                    args.destination,
                    args.amount,
                    payload_view(args.instructions@),
                    args.expires_at,
                    now,
                )
                &&& final(ctx).wallet@ == wallet_after_proposal(
                    old(ctx).wallet@,
                    old(ctx).transaction_key,
                    old(ctx).proposer,
                    now,
                )
                &&& transaction.wf()
                &&& transaction@.weight_consistent(final(ctx).wallet@.owners)
            },
            Err(e) => {
                &&& propose_error(
                    old(ctx).wallet@,
                    old(ctx).proposer,
                    payload_view(args.instructions@),
                    args.expires_at,
                    now,
                ) == Some(e)
                &&& final(ctx).wallet@ == old(ctx).wallet@
            },
        },
        old(ctx).wallet.wf() ==> final(ctx).wallet.wf(),
        old(ctx).wallet@.queue_in_order() ==> final(ctx).wallet@.queue_in_order(),
{
    let proposer = ctx.proposer;
    let weight = match ctx.wallet.find_owner(&proposer) {
        Some(info) => info.weight,
        None => { return Err(MultisigError::NotOwner); },
    };
    match args.expires_at {
        Some(expires) => {
            if expires <= now {
                return Err(MultisigError::TransactionExpired);
            }
        },
        None => {},
    }
    match check_payload(&args.instructions) {
        Err(e) => { return Err(e); },
        Ok(()) => {},
    }
    if ctx.wallet.pending_transactions.len() >= MAX_PENDING_TXS {
        return Err(MultisigError::QueueFull);
    }
    if ctx.wallet.transaction_count == u64::MAX {
        return Err(MultisigError::ArithmeticOverflow);
    }
    let index = ctx.wallet.transaction_count;
    match ctx.wallet.add_pending_transaction(index, ctx.transaction_key, now, proposer) {
        Err(e) => { return Err(e); },
        Ok(()) => {},
    }
    ctx.wallet.transaction_count = index + 1;
    let mut approvals: Vec<Pubkey> = Vec::new();
    approvals.push(proposer);
    let transaction = Transaction {
        wallet: ctx.wallet_key,
        transaction_index: index,
        bump: ctx.transaction_bump,
        proposer,
        destination: args.destination,
        amount: args.amount,
        instructions: args.instructions,
        status: TransactionStatus::Pending,
        current_weight: weight,
        approvals,
        owner_set_seqno: ctx.wallet.owner_set_seqno,
        created_at: now,
        expires_at: args.expires_at,
        executed_at: None,
    };
    proof {
        assert(transaction@.approvals =~= seq![proposer]);
        assert(Seq::<Pubkey>::empty().push(proposer) =~= seq![proposer]);
        lemma_approved_weight_push(Seq::empty(), ctx.wallet@.owners, proposer);
    }
    Ok(transaction)
}

/// Looks at a transaction of `wallet`, as every operation on a transaction
/// does before anything else. A pending transaction whose expiry time has
/// passed becomes expired; one that was found expired before leaves the
/// pending index, if it is still there; nothing else changes.
pub fn settle_expiry(wallet: &mut MultisigWallet, transaction: &mut Transaction, now: i64)
    ensures
        final(transaction)@ == old(transaction)@.observed_at(now),
        final(wallet)@ == settled_wallet(old(wallet)@, old(transaction)@),
        old(wallet).wf() ==> final(wallet).wf(),
        old(wallet)@.queue_in_order() ==> final(wallet)@.queue_in_order(),
        old(transaction).wf() ==> final(transaction).wf(),
{
    match transaction.status {
        TransactionStatus::Pending => {
            transaction.update_status(now);
        },
        TransactionStatus::Expired => {
            let _ = wallet.remove_pending_transaction(transaction.transaction_index);
        },
        TransactionStatus::Executed => {},
        TransactionStatus::Cancelled => {},
    }
}

/// Records the approval of `ctx.owner` for `ctx.transaction`.
pub fn sign_transaction(ctx: &mut SignTransaction, now: i64) -> (res: Result<(), MultisigError>)
    ensures
        final(ctx).owner == old(ctx).owner,
        match res {
            Ok(()) => {
                &&& approve_error(old(ctx).wallet@, old(ctx).transaction@, old(ctx).owner, now)
                    is None
                &&& final(ctx).transaction@ == approved_transaction(
                    old(ctx).wallet@,
                    old(ctx).transaction@,
                    old(ctx).owner,
                )
                &&& final(ctx).wallet@ == old(ctx).wallet@
            },
            Err(e) => {
                &&& approve_error(old(ctx).wallet@, old(ctx).transaction@, old(ctx).owner, now)
                    == Some(e)
                &&& final(ctx).transaction@ == old(ctx).transaction@.observed_at(now)
                &&& final(ctx).wallet@ == settled_wallet(old(ctx).wallet@, old(ctx).transaction@)
            },
        },
        old(ctx).wallet.wf() ==> final(ctx).wallet.wf(),
        old(ctx).wallet@.queue_in_order() ==> final(ctx).wallet@.queue_in_order(),
        old(ctx).transaction.wf() ==> final(ctx).transaction.wf(),
        old(ctx).transaction@.weight_consistent(old(ctx).wallet@.owners)
            ==> final(ctx).transaction@.weight_consistent(final(ctx).wallet@.owners),
{
    settle_expiry(&mut ctx.wallet, &mut ctx.transaction, now);
    if ctx.transaction.is_expired(now) {
        return Err(MultisigError::TransactionExpired);
    }
    match ctx.transaction.status {
        TransactionStatus::Pending => {},
        TransactionStatus::Executed => { return Err(MultisigError::AlreadyExecuted); },
        TransactionStatus::Cancelled => { return Err(MultisigError::InvalidTransactionState); },
        TransactionStatus::Expired => { return Err(MultisigError::InvalidTransactionState); },
    }
    if ctx.transaction.owner_set_seqno != ctx.wallet.owner_set_seqno {
        return Err(MultisigError::OwnerSetChanged);
    }
    let owner = ctx.owner;
    let weight = match ctx.wallet.find_owner(&owner) {
        Some(info) => info.weight,
        None => { return Err(MultisigError::NotOwner); },
    };
    proof {
        lemma_approved_weight_push(ctx.transaction@.approvals, ctx.wallet@.owners, owner);
    }
    ctx.transaction.add_signature(&owner, weight)
}

/// Tests every reason against an execution, after looking at the
/// transaction. A refusal leaves the records as that look left them; without
/// one they are as they were.
fn check_execution(ctx: &mut ExecuteTransaction, now: i64, performed: bool) -> (res: Result<
    (),
    MultisigError,
>)
    ensures
        final(ctx).wallet_key == old(ctx).wallet_key,
        final(ctx).executor == old(ctx).executor,
        final(ctx).transaction@ == old(ctx).transaction@.observed_at(now),
        final(ctx).wallet@ == settled_wallet(old(ctx).wallet@, old(ctx).transaction@),
        match res {
            Ok(()) => {
                &&& execute_error(
                    old(ctx).wallet@,
                    old(ctx).transaction@,
                    old(ctx).executor,
                    now,
                    performed,
                ) is None
                &&& final(ctx).transaction@ == old(ctx).transaction@
                &&& final(ctx).wallet@ == old(ctx).wallet@
            },
            Err(e) => execute_error(
                old(ctx).wallet@,
                old(ctx).transaction@,
                old(ctx).executor,
                now,
                performed,
            ) == Some(e),
        },
        old(ctx).wallet.wf() ==> final(ctx).wallet.wf(),
        old(ctx).wallet@.queue_in_order() ==> final(ctx).wallet@.queue_in_order(),
        old(ctx).transaction.wf() ==> final(ctx).transaction.wf(),
{
    let status = ctx.transaction.status;
    settle_expiry(&mut ctx.wallet, &mut ctx.transaction, now);
    match status {
        TransactionStatus::Pending => {},
        TransactionStatus::Executed => { return Err(MultisigError::AlreadyExecuted); },
        TransactionStatus::Cancelled => { return Err(MultisigError::InvalidTransactionState); },
        TransactionStatus::Expired => { return Err(MultisigError::InvalidTransactionState); },
    }
    if ctx.transaction.is_expired(now) {
        return Err(MultisigError::TransactionExpired);
    }
    if ctx.transaction.owner_set_seqno != ctx.wallet.owner_set_seqno {
        return Err(MultisigError::OwnerSetChanged);
    }
    if ctx.wallet.find_owner(&ctx.executor).is_none() {
        return Err(MultisigError::NotOwner);
    }
    if !ctx.transaction.has_signed(&ctx.executor) {
        return Err(MultisigError::Unauthorized);
    }
    if ctx.transaction.current_weight < ctx.wallet.min_weight_required {
        return Err(MultisigError::InsufficientSigners);
    }
    if !performed {
        return Err(MultisigError::ExecutionFailed);
    }
    if find_pending(&ctx.wallet.pending_transactions, ctx.transaction.transaction_index).is_none() {
        return Err(MultisigError::TransactionNotFound);
    }
    Ok(())
}

/// Says what the host has to perform for an execution, or why there can be
/// none: the payload's sub-operations in order, each reference to the wallet's
/// own address marked as signing. With the payload's transfer, which
/// [`transfer_lamports`] makes, they are the payload; the host performs all of
/// it or nothing, and reports the outcome to [`execute_transaction`].
pub fn prepare_execution(ctx: &mut ExecuteTransaction, now: i64) -> (res: Result<
    Vec<TransactionInstruction>,
    MultisigError,
>)
    ensures
        final(ctx).wallet_key == old(ctx).wallet_key,
        final(ctx).executor == old(ctx).executor,
        final(ctx).transaction@ == old(ctx).transaction@.observed_at(now),
        final(ctx).wallet@ == settled_wallet(old(ctx).wallet@, old(ctx).transaction@),
        match res {
            Ok(plan) => {
                &&& execute_error(
                    old(ctx).wallet@,
                    old(ctx).transaction@,
                    old(ctx).executor,
                    now,
                    true,
                ) is None
                &&& payload_view(plan@) == stamp_payload(
                    old(ctx).transaction@.instructions,
                    old(ctx).wallet_key,
                )
            },
            Err(e) => execute_error(
                old(ctx).wallet@,
                old(ctx).transaction@,
                old(ctx).executor,
                now,
                true,
            ) == Some(e),
        },
        old(ctx).wallet.wf() ==> final(ctx).wallet.wf(),
        old(ctx).wallet@.queue_in_order() ==> final(ctx).wallet@.queue_in_order(),
        old(ctx).transaction.wf() ==> final(ctx).transaction.wf(),
{
    match check_execution(ctx, now, true) {
        Err(e) => { return Err(e); },
        Ok(()) => {},
    }
    Ok(stamp_instructions(&ctx.transaction.instructions, &ctx.wallet_key))
}

/// Makes the payload's transfer of `transaction` between the two balances
/// given: the wallet's comes first, the destination's second. A transfer that
/// the wallet cannot pay, or that the destination's balance cannot take, is a
/// failed sub-operation and changes nothing.
pub fn transfer_lamports(
    transaction: &Transaction,
    wallet_key: &Pubkey,
    wallet_lamports: u64,
    destination_lamports: u64,
) -> (res: Result<(u64, u64), MultisigError>)
    ensures
        match res {
            Ok(balances) => {
                &&& transfer_possible(
                    wallet_lamports,
                    destination_lamports,
                    transaction@.amount,
                    transaction@.destination == *wallet_key,
                )
                &&& balances == balances_after_transfer(
                    wallet_lamports,
                    destination_lamports,
                    transaction@.amount,
                    transaction@.destination == *wallet_key,
                )
            },
            Err(e) => {
                &&& e == MultisigError::ExecutionFailed
                &&& !transfer_possible(
                    wallet_lamports,
                    destination_lamports,
                    transaction@.amount,
                    transaction@.destination == *wallet_key,
                )
            },
        },
{
    if wallet_lamports < transaction.amount {
        return Err(MultisigError::ExecutionFailed);
    }
    if same_key(&transaction.destination, wallet_key) {
        return Ok((wallet_lamports, destination_lamports));
    }
    match destination_lamports.checked_add(transaction.amount) {
        Some(raised) => Ok((wallet_lamports - transaction.amount, raised)),
        None => Err(MultisigError::ExecutionFailed),
    }
}

/// Executes `ctx.transaction`, given whether the host performed the payload.
/// Only where nothing speaks against it and the payload was performed, all of
/// it, is the transaction marked as executed at `now` and its entry taken
/// from the pending index.
pub fn execute_transaction(ctx: &mut ExecuteTransaction, now: i64, performed: bool) -> (res: Result<
    (),
    MultisigError,
>)
    ensures
        final(ctx).wallet_key == old(ctx).wallet_key,
        final(ctx).executor == old(ctx).executor,
        match res {
            Ok(()) => {
                &&& execute_error(
                    old(ctx).wallet@,
                    old(ctx).transaction@,
                    old(ctx).executor,
                    now,
                    performed,
                ) is None
                &&& final(ctx).transaction@ == executed_transaction(old(ctx).transaction@, now)
                &&& final(ctx).wallet@ == old(ctx).wallet@.without_pending(
                    old(ctx).transaction@.transaction_index,
                )
                &&& final(ctx).wallet@.pending_transactions.len() + 1
                    == old(ctx).wallet@.pending_transactions.len()
                &&& old(ctx).wallet@.queue_in_order() ==> !is_pending(
                    final(ctx).wallet@.pending_transactions,
                    old(ctx).transaction@.transaction_index,
                )
            },
            Err(e) => {
                &&& execute_error(
                    old(ctx).wallet@,
                    old(ctx).transaction@,
                    old(ctx).executor,
                    now,
                    performed,
                ) == Some(e)
                &&& final(ctx).transaction@ == old(ctx).transaction@.observed_at(now)
                &&& final(ctx).wallet@ == settled_wallet(old(ctx).wallet@, old(ctx).transaction@)
            },
        },
        old(ctx).wallet.wf() ==> final(ctx).wallet.wf(),
        old(ctx).wallet@.queue_in_order() ==> final(ctx).wallet@.queue_in_order(),
        old(ctx).transaction.wf() ==> final(ctx).transaction.wf(),
{
    match check_execution(ctx, now, performed) {
        Err(e) => { return Err(e); },
        Ok(()) => {},
    }
    let _ = ctx.wallet.remove_pending_transaction(ctx.transaction.transaction_index);
    ctx.transaction.status = TransactionStatus::Executed;
    ctx.transaction.executed_at = Some(now);
    Ok(())
}

/// Cancels `ctx.transaction` for its proposer.
pub fn cancel_transaction(ctx: &mut CancelTransaction, now: i64) -> (res: Result<(), MultisigError>)
    ensures
        final(ctx).proposer == old(ctx).proposer,
        match res {
            Ok(()) => {
                &&& cancel_error(old(ctx).wallet@, old(ctx).transaction@, old(ctx).proposer, now)
                    is None
                &&& final(ctx).transaction@ == cancelled_transaction(old(ctx).transaction@)
                &&& final(ctx).wallet@ == old(ctx).wallet@.without_pending(
                    old(ctx).transaction@.transaction_index,
                )
                &&& final(ctx).wallet@.pending_transactions.len() + 1
                    == old(ctx).wallet@.pending_transactions.len()
                &&& old(ctx).wallet@.queue_in_order() ==> !is_pending(
                    final(ctx).wallet@.pending_transactions,
                    old(ctx).transaction@.transaction_index,
                )
            },
            Err(e) => {
                &&& cancel_error(old(ctx).wallet@, old(ctx).transaction@, old(ctx).proposer, now)
                    == Some(e)
                &&& final(ctx).transaction@ == old(ctx).transaction@.observed_at(now)
                &&& final(ctx).wallet@ == settled_wallet(old(ctx).wallet@, old(ctx).transaction@)
            },
        },
        old(ctx).wallet.wf() ==> final(ctx).wallet.wf(),
        old(ctx).wallet@.queue_in_order() ==> final(ctx).wallet@.queue_in_order(),
        old(ctx).transaction.wf() ==> final(ctx).transaction.wf(),
{
    let status = ctx.transaction.status;
    settle_expiry(&mut ctx.wallet, &mut ctx.transaction, now);
    if status == TransactionStatus::Pending && ctx.transaction.is_expired(now) {
        return Err(MultisigError::TransactionExpired);
    }
    if !same_key(&ctx.proposer, &ctx.transaction.proposer) {
        return Err(MultisigError::NotProposer);
    }
    if status != TransactionStatus::Pending {
        return Err(MultisigError::InvalidTransactionState);
    }
    match ctx.wallet.remove_pending_transaction(ctx.transaction.transaction_index) {
        Err(e) => { return Err(e); },
        Ok(()) => {},
    }
    ctx.transaction.status = TransactionStatus::Cancelled;
    Ok(())
}

/// Lists the window of the pending index that starts at position
/// `start_index` and holds at most `limit` entries, in the order of proposal.
/// A window without entries is reported as `NoPendingTransactions`.
pub fn get_pending_transactions(ctx: &GetPendingTransactions, start_index: u64, limit: u8) -> (res:
    Result<Vec<PendingTransactionInfo>, MultisigError>)
    ensures
        match res {
            Ok(entries) => {
                &&& entries@ == pending_window(
                    ctx.wallet@.pending_transactions,
                    start_index,
                    limit,
                )
                &&& entries@.len() > 0
            },
            Err(e) => {
                &&& e == MultisigError::NoPendingTransactions
                &&& pending_window(ctx.wallet@.pending_transactions, start_index, limit).len() == 0
            },
        },
{
    let queue = &ctx.wallet.pending_transactions;
    let len = queue.len();
    if start_index >= len as u64 {
        return Err(MultisigError::NoPendingTransactions);
    }
    let start = start_index as usize;
    let end = if limit as usize >= len - start {
        len
    } else {
        start + limit as usize
    };
    let mut entries: Vec<PendingTransactionInfo> = Vec::new();
    let mut i: usize = start;
    while i < end
        invariant
            start <= i <= end <= len,
            len == queue@.len(),
            entries@ == queue@.subrange(start as int, i as int),
        decreases end - i,
    {
        entries.push(queue[i]);
        assert(queue@.subrange(start as int, i + 1) =~= queue@.subrange(start as int, i as int).push(
            queue@[i as int],
        ));
        i += 1;
    }
    if entries.len() == 0 {
        return Err(MultisigError::NoPendingTransactions);
    }
    Ok(entries)
}

} // verus!
