//! What holds of the rules whatever the records are: the wallet's invariant,
//! the fate of stale, repeated and underweight requests, and the bound of the
//! pending index.

use crate::constants::MAX_PENDING_TXS;
use crate::errors::MultisigError;
use crate::rules::{
    approve_error, approved_transaction, cancel_error, created_wallet, execute_error,
    propose_error, proposed_transaction, settled_wallet, wallet_after_proposal,
};
use crate::state::owner::{
    configuration_error, is_owner, owner_keys, total_weight, weight_of, OwnerInfo,
};
use crate::state::payload::{payload_error, InstructionView};
use crate::state::pending::{
    is_pending, lemma_without_entry, pending_indices, PendingTransactionInfo,
};
use crate::state::transaction::{
    approved_weight, lemma_approved_weight_push, lemma_approved_weight_within_total,
    TransactionView,
};
use crate::state::wallet::{lemma_reweighted_owner_set, WalletView};
use anchor_lang::prelude::Pubkey;
use vstd::prelude::*;

verus! {

/// `after` is what a change of the threshold, of one owner's weight or of the
/// owner set, that is not refused, makes of the wallet `before`.
pub open spec fn configuration_step(before: WalletView, after: WalletView) -> bool {
    ||| exists|threshold: u64|
        before.threshold_change_error(threshold) is None && after == before.with_threshold(
            threshold,
        )
    ||| exists|key: Pubkey, weight: u64|
        before.weight_change_error(key, weight) is None && after == before.with_owner_weight(
            key,
            weight,
        )
    ||| exists|owners: Seq<OwnerInfo>|
        before.replacement_error(owners) is None && after == before.with_owners(owners)
}

/// `after` is what some operation that is not refused makes of the wallet
/// `before`: a change of the configuration, a new entry in the pending index,
/// the removal of one, or a proposal.
pub open spec fn wallet_step(before: WalletView, after: WalletView) -> bool {
    ||| configuration_step(before, after)
    ||| exists|entry: PendingTransactionInfo|
        before.enqueue_error() is None && after == before.with_pending(entry)
    ||| exists|index: u64| after == before.without_pending(index)
    ||| exists|transaction_key: Pubkey, proposer: Pubkey, now: i64|
        before.enqueue_error() is None && before.transaction_count < u64::MAX && after
            == wallet_after_proposal(before, transaction_key, proposer, now)
}

/// A wallet is created with its invariant: in particular its threshold is
/// positive and at most the total weight of its owners.
pub proof fn law_created_wallet_is_valid(
    base: Pubkey,
    bump: u8,
    name: Seq<char>,
    owners: Seq<OwnerInfo>,
    threshold: u64,
)
    requires
        configuration_error(owners, threshold) is None,
    ensures
        created_wallet(base, bump, name, owners, threshold).wf(),
        0 < created_wallet(base, bump, name, owners, threshold).min_weight_required
            <= total_weight(owners),
{
}

/// Every operation keeps the wallet's invariant: after it the threshold is
/// still positive and at most the total weight of the owners.
pub proof fn law_threshold_within_total_weight(before: WalletView, after: WalletView)
    requires
        before.wf(),
        wallet_step(before, after),
    ensures
        after.wf(),
        0 < after.min_weight_required <= total_weight(after.owners),
{
    if exists|key: Pubkey, weight: u64|
        before.weight_change_error(key, weight) is None && after == before.with_owner_weight(
            key,
            weight,
        ) {
        let (key, weight) = choose|key: Pubkey, weight: u64|
            before.weight_change_error(key, weight) is None && after == before.with_owner_weight(
                key,
                weight,
            );
        let keys = owner_keys(before.owners);
        keys.index_of_first_ensures(key);
        let i = keys.index_of_first(key).unwrap();
        lemma_reweighted_owner_set(before.owners, i, OwnerInfo { owner: key, weight });
    }
    if exists|index: u64| after == before.without_pending(index) {
        let index = choose|index: u64| after == before.without_pending(index);
        pending_indices(before.pending_transactions).index_of_first_ensures(index);
    }
}

/// Neither the configuration version nor the transaction counter ever goes
/// back.
pub proof fn law_counters_never_decrease(before: WalletView, after: WalletView)
    requires
        wallet_step(before, after),
    ensures
        after.owner_set_seqno >= before.owner_set_seqno,
        after.transaction_count >= before.transaction_count,
{
}

/// Every change of the configuration moves the wallet to the next version.
pub proof fn law_configuration_change_bumps_version(before: WalletView, after: WalletView)
    requires
        configuration_step(before, after),
    ensures
        after.owner_set_seqno == before.owner_set_seqno + 1,
{
}

/// An approval keeps what holds of a transaction under its wallet: nobody has
/// approved twice, every approver is an owner, and the recorded weight is the
/// weight of the approvals.
pub proof fn law_approval_keeps_weight_consistent(
    wallet: WalletView,
    transaction: TransactionView,
    signer: Pubkey,
    now: i64,
)
    requires
        transaction.wf(),
        transaction.weight_consistent(wallet.owners),
        approve_error(wallet, transaction, signer, now) is None,
    ensures
        approved_transaction(wallet, transaction, signer).wf(),
        approved_transaction(wallet, transaction, signer).weight_consistent(wallet.owners),
        approved_transaction(wallet, transaction, signer).status is Pending,
{
    lemma_approved_weight_push(transaction.approvals, wallet.owners, signer);
}

/// An owner who has approved a transaction cannot approve it again: whenever
/// the same identity asks again, the request is refused, as `AlreadySigned`
/// unless the transaction has expired meanwhile, and the refused request
/// leaves the approvals and their weight as the first approval left them.
pub proof fn law_second_approval_is_refused(
    wallet: WalletView,
    transaction: TransactionView,
    signer: Pubkey,
    first: i64,
    second: i64,
)
    requires
        approve_error(wallet, transaction, signer, first) is None,
    ensures
        ({
            let approved = approved_transaction(wallet, transaction, signer);
            &&& approve_error(wallet, approved, signer, second) == Some(
                if approved.is_expired(second) {
                    MultisigError::TransactionExpired
                } else {
                    MultisigError::AlreadySigned
                },
            )
            &&& approved.observed_at(second).approvals == approved.approvals
            &&& approved.observed_at(second).current_weight == approved.current_weight
            &&& approved.current_weight == transaction.current_weight
                + weight_of(wallet.owners, signer)
        }),
{
    let approved = approved_transaction(wallet, transaction, signer);
    assert(approved.approvals[transaction.approvals.len() as int] == signer);
}

/// After a change of the configuration no pending transaction that was
/// proposed before it can be approved or executed: both requests are refused
/// as `OwnerSetChanged`. A transaction proposed after the change carries the
/// new version.
pub proof fn law_configuration_change_invalidates_pending(
    before: WalletView,
    after: WalletView,
    transaction: TransactionView,
    caller: Pubkey,
    now: i64,
    performed: bool,
)
    requires
        configuration_step(before, after),
        transaction.owner_set_seqno <= before.owner_set_seqno,
        transaction.status is Pending,
        !transaction.is_expired(now),
    ensures
        approve_error(after, transaction, caller, now) == Some(MultisigError::OwnerSetChanged),
        execute_error(after, transaction, caller, now, performed) == Some(
            MultisigError::OwnerSetChanged,
        ),
{
}

/// A transaction proposed under a wallet carries that wallet's version.
pub proof fn law_proposal_carries_current_version(
    wallet: WalletView,
    wallet_key: Pubkey,
    bump: u8,
    proposer: Pubkey,
    destination: Pubkey,
    amount: u64,
    payload: Seq<InstructionView>,
    expires_at: Option<i64>,
    now: i64,
)
    ensures
        proposed_transaction(
            wallet,
            wallet_key,
            bump,
            proposer,
            destination,
            amount,
            payload,
            expires_at,
            now,
        ).owner_set_seqno == wallet.owner_set_seqno,
{
}

/// A pending transaction has its entry in the pending index of its wallet.
pub open spec fn listed_while_pending(wallet: WalletView, transaction: TransactionView) -> bool {
    transaction.status is Pending ==> is_pending(
        wallet.pending_transactions,
        transaction.transaction_index,
    )
}

/// An execution by an owner who approved, of a pending transaction that has
/// not expired and carries the wallet's version, with a payload that the host
/// performed, succeeds exactly when the recorded weight has reached the
/// threshold. Below the threshold it is refused as `InsufficientSigners`,
/// whatever the host did, and the refusal changes nothing.
pub proof fn law_execution_needs_threshold(
    wallet: WalletView,
    transaction: TransactionView,
    invoker: Pubkey,
    now: i64,
    performed: bool,
)
    requires
        listed_while_pending(wallet, transaction),
        transaction.status is Pending,
        !transaction.is_expired(now),
        transaction.owner_set_seqno == wallet.owner_set_seqno,
        is_owner(wallet.owners, invoker),
        transaction.approvals.contains(invoker),
    ensures
        execute_error(wallet, transaction, invoker, now, true) is None
            <==> transaction.current_weight >= wallet.min_weight_required,
        transaction.current_weight < wallet.min_weight_required ==> ({
            &&& execute_error(wallet, transaction, invoker, now, performed) == Some(
                MultisigError::InsufficientSigners,
            )
            &&& transaction.observed_at(now) == transaction
            &&& settled_wallet(wallet, transaction) == wallet
        }),
{
}

/// The recorded weight of a transaction that is consistent with the owner
/// list of its wallet is the weight of its approvals, summed anew: an
/// execution goes by the one exactly as it would go by the other.
pub proof fn law_recorded_weight_is_approved_weight(
    wallet: WalletView,
    transaction: TransactionView,
)
    requires
        transaction.weight_consistent(wallet.owners),
    ensures
        transaction.current_weight >= wallet.min_weight_required <==> approved_weight(
            transaction.approvals,
            wallet.owners,
        ) >= wallet.min_weight_required,
{
}

/// As long as a wallet keeps its configuration, the approvals of a
/// transaction proposed under it weigh at most what all owners weigh
/// together, so that recording one more approval never overflows: an approval
/// is refused only for the reasons that the rules name before the sum.
pub proof fn law_approval_weight_never_overflows(
    wallet: WalletView,
    transaction: TransactionView,
    signer: Pubkey,
    now: i64,
)
    requires
        wallet.wf(),
        transaction.wf(),
        transaction.weight_consistent(wallet.owners),
    ensures
        transaction.current_weight <= wallet.total_weight,
        approve_error(wallet, transaction, signer, now) != Some(MultisigError::ArithmeticOverflow),
{
    lemma_approved_weight_within_total(transaction.approvals, wallet.owners);
    if !transaction.approvals.contains(signer) {
        let more = transaction.approvals.push(signer);
        assert forall|i: int, j: int|
            0 <= i < more.len() && 0 <= j < more.len() && i != j implies more[i] != more[j] by {
            if i < transaction.approvals.len() && j < transaction.approvals.len() {
                assert(transaction.approvals[i] != transaction.approvals[j]);
            } else if i < transaction.approvals.len() {
                assert(transaction.approvals.contains(more[i]));
            } else {
                assert(transaction.approvals.contains(more[j]));
            }
        }
        lemma_approved_weight_push(transaction.approvals, wallet.owners, signer);
        lemma_approved_weight_within_total(more, wallet.owners);
    }
}

/// An execution whose payload the host could not perform is refused. Where
/// nothing else speaks against the execution the refusal is
/// `ExecutionFailed`, and it leaves everything as it was: the transaction is
/// pending, with its approvals and their weight, the wallet has the entry for
/// it in its pending index, and a later execution whose payload the host does
/// perform is accepted, unless the transaction has expired by then.
pub proof fn law_failed_payload_changes_nothing(
    wallet: WalletView,
    transaction: TransactionView,
    invoker: Pubkey,
    now: i64,
    later: i64,
)
    requires
        execute_error(wallet, transaction, invoker, now, true) is None,
    ensures
        execute_error(wallet, transaction, invoker, now, false) == Some(
            MultisigError::ExecutionFailed,
        ),
        transaction.observed_at(now) == transaction,
        settled_wallet(wallet, transaction) == wallet,
        transaction.status is Pending,
        transaction.wf() ==> transaction.executed_at is None,
        is_pending(wallet.pending_transactions, transaction.transaction_index),
        !transaction.is_expired(later) ==> execute_error(wallet, transaction, invoker, later, true)
            is None,
{
}

/// Whatever else holds, an execution whose payload the host could not
/// perform is refused, and a pending transaction that has not expired stays
/// pending.
pub proof fn law_failed_payload_is_never_executed(
    wallet: WalletView,
    transaction: TransactionView,
    invoker: Pubkey,
    now: i64,
)
    ensures
        execute_error(wallet, transaction, invoker, now, false) is Some,
        transaction.status is Pending && !transaction.is_expired(now) ==> ({
            &&& transaction.observed_at(now) == transaction
            &&& settled_wallet(wallet, transaction) == wallet
        }),
{
}

/// A transaction that has left `Pending` takes no further step: every request
/// on it is refused, and looking at it changes nothing about it.
pub proof fn law_terminal_status_is_final(
    wallet: WalletView,
    transaction: TransactionView,
    caller: Pubkey,
    now: i64,
    performed: bool,
)
    requires
        !(transaction.status is Pending),
    ensures
        approve_error(wallet, transaction, caller, now) is Some,
        cancel_error(wallet, transaction, caller, now) is Some,
        execute_error(wallet, transaction, caller, now, performed) is Some,
        transaction.observed_at(now) == transaction,
{
}

/// A wallet whose pending index is at capacity refuses every proposal, a
/// proposal with no other fault as `QueueFull`, and the refusal leaves the
/// wallet as it was.
pub proof fn law_full_pending_index_refuses_proposals(
    wallet: WalletView,
    proposer: Pubkey,
    payload: Seq<InstructionView>,
    expires_at: Option<i64>,
    now: i64,
)
    requires
        wallet.pending_transactions.len() >= MAX_PENDING_TXS,
    ensures
        propose_error(wallet, proposer, payload, expires_at, now) is Some,
        is_owner(wallet.owners, proposer) && !(expires_at matches Some(expires) && expires <= now)
            && payload_error(payload) is None ==> propose_error(
            wallet,
            proposer,
            payload,
            expires_at,
            now,
        ) == Some(MultisigError::QueueFull),
{
}

/// Once one entry has left a pending index that was at capacity, exactly one
/// more proposal succeeds: a proposal with no fault is accepted as long as
/// the counter has a number left for it, it fills the index again, and the
/// proposal after it is refused as `QueueFull`.
pub proof fn law_pending_index_is_bounded(
    wallet: WalletView,
    removed: u64,
    transaction_key: Pubkey,
    proposer: Pubkey,
    payload: Seq<InstructionView>,
    expires_at: Option<i64>,
    now: i64,
)
    requires
        wallet.pending_transactions.len() == MAX_PENDING_TXS,
        is_pending(wallet.pending_transactions, removed),
        is_owner(wallet.owners, proposer),
        !(expires_at matches Some(expires) && expires <= now),
        payload_error(payload) is None,
    ensures
        ({
            let freed = wallet.without_pending(removed);
            let refilled = wallet_after_proposal(freed, transaction_key, proposer, now);
            &&& freed.pending_transactions.len() == MAX_PENDING_TXS - 1
            &&& propose_error(freed, proposer, payload, expires_at, now) == if wallet.transaction_count
                == u64::MAX {
                Some(MultisigError::ArithmeticOverflow)
            } else {
                None
            }
            &&& refilled.pending_transactions.len() == MAX_PENDING_TXS
            &&& propose_error(refilled, proposer, payload, expires_at, now) == Some(
                MultisigError::QueueFull,
            )
        }),
{
    pending_indices(wallet.pending_transactions).index_of_first_ensures(removed);
}

/// A pending index in the order of proposal stays in that order when a
/// transaction is proposed, when an entry leaves, and when the configuration
/// changes.
pub proof fn law_pending_index_stays_in_order(before: WalletView, after: WalletView)
    requires
        before.queue_in_order(),
        ({
            ||| configuration_step(before, after)
            ||| exists|index: u64| after == before.without_pending(index)
            ||| exists|transaction_key: Pubkey, proposer: Pubkey, now: i64|
                before.transaction_count < u64::MAX && after == wallet_after_proposal(
                    before,
                    transaction_key,
                    proposer,
                    now,
                )
        }),
    ensures
        after.queue_in_order(),
{
    if exists|index: u64| after == before.without_pending(index) {
        let index = choose|index: u64| after == before.without_pending(index);
        law_removed_transaction_is_not_pending(before, index);
    }
}

/// Once a transaction's entry has left a pending index that is in the order
/// of proposal, the index has no entry for that transaction, and the entries
/// of all other transactions are still there, in their order.
pub proof fn law_removed_transaction_is_not_pending(wallet: WalletView, index: u64)
    requires
        wallet.queue_in_order(),
    ensures
        wallet.without_pending(index).queue_in_order(),
        !is_pending(wallet.without_pending(index).pending_transactions, index),
        forall|other: u64|
            other != index ==> is_pending(wallet.without_pending(index).pending_transactions, other)
                == is_pending(wallet.pending_transactions, other),
{
    lemma_without_entry(wallet.pending_transactions, wallet.transaction_count, index);
}

} // verus!
