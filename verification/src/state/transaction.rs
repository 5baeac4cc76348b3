//! A proposed transaction: its payload, who approved it, and how far it got.

use crate::errors::MultisigError;
use crate::identity::{all_distinct, contains_key, same_key};
use crate::state::owner::{
    find_position, is_owner, lemma_no_owner_position, lemma_weight_of_push, owner_keys,
    total_weight, weight_of, OwnerInfo,
};
use crate::state::payload::{payload_view, InstructionView, TransactionInstruction};
use crate::state::wallet::MultisigWallet;
use anchor_lang::prelude::Pubkey;
use vstd::prelude::*;

verus! {

/// How far a transaction got. `Pending` is where it starts; the other three
/// are terminal: a transaction that left `Pending` never changes again.
#[derive(Clone, Copy, Debug, PartialEq, Eq, Structural)]
pub enum TransactionStatus {
    Pending,
    Executed,
    Cancelled,
    Expired,
}

/// A transaction's record.
#[derive(Clone, Debug, PartialEq, Eq)]
pub struct Transaction {
    /// The address of the wallet the transaction belongs to.
    pub wallet: Pubkey,
    /// The transaction's number in its wallet.
    pub transaction_index: u64,
    pub bump: u8,
    pub proposer: Pubkey,
    /// Who receives `amount` when the transaction executes.
    pub destination: Pubkey,
    pub amount: u64,
    /// The sub-operations to perform when the transaction executes, in order.
    pub instructions: Vec<TransactionInstruction>,
    pub status: TransactionStatus,
    /// The weight of the approvals, kept up with every approval.
    pub current_weight: u64,
    /// Who approved, in the order of approval; the proposer comes first.
    pub approvals: Vec<Pubkey>,
    /// The wallet's configuration version at the time of the proposal.
    pub owner_set_seqno: u32,
    pub created_at: i64,
    pub expires_at: Option<i64>,
    pub executed_at: Option<i64>,
}

/// A transaction as a mathematical value.
#[verifier::ext_equal]
pub struct TransactionView {
    pub wallet: Pubkey,
    pub transaction_index: u64,
    pub bump: u8,
    pub proposer: Pubkey,
    pub destination: Pubkey,
    pub amount: u64,
    pub instructions: Seq<InstructionView>,
    pub status: TransactionStatus,
    pub current_weight: u64,
    pub approvals: Seq<Pubkey>,
    pub owner_set_seqno: u32,
    pub created_at: i64,
    pub expires_at: Option<i64>,
    pub executed_at: Option<i64>,
}

impl View for Transaction {
    type V = TransactionView;

    open spec fn view(&self) -> TransactionView {
        TransactionView {
            wallet: self.wallet,
            transaction_index: self.transaction_index,
            bump: self.bump,
            proposer: self.proposer,
            destination: self.destination,
            amount: self.amount,
            instructions: payload_view(self.instructions@),
            status: self.status,
            current_weight: self.current_weight,
            approvals: self.approvals@,
            owner_set_seqno: self.owner_set_seqno,
            created_at: self.created_at,
            expires_at: self.expires_at,
            executed_at: self.executed_at,
        }
    }
}

/// Why a transaction in `status` takes no further step, if it takes none.
pub open spec fn status_error(status: TransactionStatus) -> Option<MultisigError> {
    match status {
        TransactionStatus::Pending => None,
        TransactionStatus::Executed => Some(MultisigError::AlreadyExecuted),
        TransactionStatus::Cancelled => Some(MultisigError::InvalidTransactionState),
        TransactionStatus::Expired => Some(MultisigError::InvalidTransactionState),
    }
}

/// The weight that `approvals` carry under `owners`: the sum, over the
/// approvals, of what each approver's approval counts.
pub open spec fn approved_weight(approvals: Seq<Pubkey>, owners: Seq<OwnerInfo>) -> nat
    decreases approvals.len(),
{
    if approvals.len() == 0 {
        0
    } else {
        approved_weight(approvals.drop_last(), owners) + weight_of(owners, approvals.last())
    }
}

impl TransactionView {
    /// The expiry time has passed at `now`. A transaction without an expiry
    /// time never expires.
    pub open spec fn is_expired(self, now: i64) -> bool {
        self.expires_at matches Some(expires) && now > expires
    }

    /// What the record is once it has been looked at at `now`: a pending
    /// transaction whose expiry time has passed is expired; any other is as
    /// it was.
    pub open spec fn observed_at(self, now: i64) -> TransactionView {
        if self.status is Pending && self.is_expired(now) {
            TransactionView { status: TransactionStatus::Expired, ..self }
        } else {
            self
        }
    }

    /// Why an approval by `key` with `weight` cannot be recorded, if it cannot.
    pub open spec fn signature_error(self, key: Pubkey, weight: u64) -> Option<MultisigError> {
        if status_error(self.status) is Some {
            status_error(self.status)
        } else if self.approvals.contains(key) {
            Some(MultisigError::AlreadySigned)
        } else if self.current_weight + weight > u64::MAX {
            Some(MultisigError::ArithmeticOverflow)
        } else {
            None
        }
    }

    /// The record with one more approval, by `key` with `weight`.
    pub open spec fn with_signature(self, key: Pubkey, weight: u64) -> TransactionView {
        TransactionView {
            approvals: self.approvals.push(key),
            current_weight: (self.current_weight + weight) as u64,
            ..self
        }
    }

    /// The record's own invariant: nobody approved twice, the proposer's
    /// approval is the first, and exactly an executed transaction has a time
    /// of execution.
    pub open spec fn wf(self) -> bool {
        &&& self.approvals.no_duplicates()
        &&& self.approvals.len() > 0
        &&& self.approvals[0] == self.proposer
        &&& self.status is Executed <==> self.executed_at is Some
    }

    /// What holds between a transaction and the owner list of its wallet as
    /// long as the wallet has the configuration version the transaction was
    /// proposed under: every approver is an owner, and the recorded weight is
    /// the weight of the approvals.
    pub open spec fn weight_consistent(self, owners: Seq<OwnerInfo>) -> bool {
        &&& forall|i: int|
            0 <= i < self.approvals.len() ==> is_owner(owners, #[trigger] self.approvals[i])
        &&& self.current_weight == approved_weight(self.approvals, owners)
    }
}

/// The weight of a list of approvals grows, with one more approval, by what
/// that approval counts.
pub proof fn lemma_approved_weight_push(approvals: Seq<Pubkey>, owners: Seq<OwnerInfo>, key: Pubkey)
    ensures
        approved_weight(approvals.push(key), owners) == approved_weight(approvals, owners)
            + weight_of(owners, key),
{
    assert(approvals.push(key).drop_last() =~= approvals);
}

/// The weight of approvals is at most as many times `u64::MAX` as there are
/// approvals.
pub proof fn lemma_approved_weight_bound(approvals: Seq<Pubkey>, owners: Seq<OwnerInfo>)
    ensures
        approved_weight(approvals, owners) <= approvals.len() * u64::MAX,
    decreases approvals.len(),
{
    if approvals.len() > 0 {
        lemma_approved_weight_bound(approvals.drop_last(), owners);
        assert((approvals.len() - 1) * u64::MAX + u64::MAX == approvals.len() * u64::MAX)
            by (nonlinear_arith);
    }
}

/// One more owner entry adds at most its weight to what approvals by
/// different identities weigh, and nothing where its identity did not approve.
proof fn lemma_approved_weight_one_more_owner(
    approvals: Seq<Pubkey>,
    owners: Seq<OwnerInfo>,
    entry: OwnerInfo,
)
    requires
        approvals.no_duplicates(),
    ensures
        approved_weight(approvals, owners.push(entry)) <= approved_weight(approvals, owners)
            + entry.weight,
        !approvals.contains(entry.owner) ==> approved_weight(approvals, owners.push(entry))
            == approved_weight(approvals, owners),
    decreases approvals.len(),
{
    if approvals.len() > 0 {
        let rest = approvals.drop_last();
        let last = approvals.last();
        assert forall|i: int, j: int|
            0 <= i < rest.len() && 0 <= j < rest.len() && i != j implies rest[i] != rest[j] by {
            assert(rest[i] == approvals[i] && rest[j] == approvals[j]);
        }
        lemma_approved_weight_one_more_owner(rest, owners, entry);
        lemma_weight_of_push(owners, entry, last);
        owner_keys(owners).index_of_first_ensures(last);
        assert(approvals[approvals.len() - 1] == last);
        if rest.contains(entry.owner) {
            let i = choose|i: int| 0 <= i < rest.len() && rest[i] == entry.owner;
            assert(approvals[i] == entry.owner);
        }
    }
}

/// Approvals by different identities weigh at most what all owners weigh
/// together.
pub proof fn lemma_approved_weight_within_total(approvals: Seq<Pubkey>, owners: Seq<OwnerInfo>)
    requires
        approvals.no_duplicates(),
    ensures
        approved_weight(approvals, owners) <= total_weight(owners),
    decreases owners.len(),
{
    if owners.len() == 0 {
        assert(owners =~= Seq::empty());
        lemma_approved_weight_without_owners(approvals);
    } else {
        lemma_approved_weight_within_total(approvals, owners.drop_last());
        lemma_approved_weight_one_more_owner(approvals, owners.drop_last(), owners.last());
        assert(owners.drop_last().push(owners.last()) =~= owners);
    }
}

/// Without owners no approval counts.
proof fn lemma_approved_weight_without_owners(approvals: Seq<Pubkey>)
    ensures
        approved_weight(approvals, Seq::empty()) == 0,
    decreases approvals.len(),
{
    if approvals.len() > 0 {
        lemma_approved_weight_without_owners(approvals.drop_last());
        lemma_no_owner_position(Seq::empty(), approvals.last());
    }
}

/// The weight that `approvals` carry under `owners`, summed anew from the two
/// lists.
pub fn sum_approved_weight(approvals: &Vec<Pubkey>, owners: &Vec<OwnerInfo>) -> (sum: u128)
    ensures
        sum == approved_weight(approvals@, owners@),
{
    let mut sum: u128 = 0;
    let mut i: usize = 0;
    while i < approvals.len()
        invariant
            i <= approvals.len(),
            sum == approved_weight(approvals@.take(i as int), owners@),
        decreases approvals.len() - i,
    {
        let weight: u64 = match find_position(owners, &approvals[i]) {
            Some(pos) => owners[pos].weight,
            None => 0,
        };
        proof {
            assert(approvals@.take(i + 1) =~= approvals@.take(i as int).push(approvals@[i as int]));
            lemma_approved_weight_push(approvals@.take(i as int), owners@, approvals@[i as int]);
            lemma_approved_weight_bound(approvals@.take(i as int), owners@);
            assert(i * u64::MAX + u64::MAX <= usize::MAX * u64::MAX) by (nonlinear_arith)
                requires
                    i < usize::MAX,
            ;
        }
        sum = sum + weight as u128;
        i += 1;
    }
    proof {
        assert(approvals@.take(approvals.len() as int) =~= approvals@);
    }
    sum
}

impl Transaction {
    /// The record's own invariant, see [`TransactionView::wf`].
    pub open spec fn wf(&self) -> bool {
        self@.wf()
    }

    /// Tests the record's own invariant on a record of unknown origin.
    pub fn is_well_formed(&self) -> (ok: bool)
        ensures
            ok == self.wf(),
    {
        if self.approvals.len() == 0 {
            return false;
        }
        let executed = self.status == TransactionStatus::Executed;
        same_key(&self.approvals[0], &self.proposer) && executed == self.executed_at.is_some()
            && all_distinct(&self.approvals)
    }

    /// Tests the recorded weight, and the approvers, against the owner list
    /// of the wallet: whether every approver is an owner and the recorded
    /// weight is what the approvals weigh when summed anew.
    pub fn weight_is_consistent(&self, wallet: &MultisigWallet) -> (ok: bool)
        ensures
            ok == self@.weight_consistent(wallet@.owners),
    {
        let mut i: usize = 0;
        while i < self.approvals.len()
            invariant
                i <= self.approvals.len(),
                forall|j: int| 0 <= j < i ==> is_owner(wallet@.owners, #[trigger] self@.approvals[j]),
            decreases self.approvals.len() - i,
        {
            if find_position(&wallet.owners, &self.approvals[i]).is_none() {
                assert(!is_owner(wallet@.owners, self@.approvals[i as int]));
                return false;
            }
            i += 1;
        }
        sum_approved_weight(&self.approvals, &wallet.owners) == self.current_weight as u128
    }

    /// Whether the transaction could execute at `current_time` under the
    /// threshold `min_weight_required`, going by the recorded weight: it is
    /// pending, its expiry time has not passed, and the weight is enough.
    pub fn is_executable(&self, min_weight_required: u64, current_time: i64) -> (ok: bool)
        ensures
            ok == (self@.status is Pending && !self@.is_expired(current_time)
                && self@.current_weight >= min_weight_required),
    {
        self.status == TransactionStatus::Pending && !self.is_expired(current_time)
            && self.current_weight >= min_weight_required
    }

    /// Whether the expiry time has passed at `current_time`.
    pub fn is_expired(&self, current_time: i64) -> (expired: bool)
        ensures
            expired == self@.is_expired(current_time),
    {
        match self.expires_at {
            Some(expires) => current_time > expires,
            None => false,
        }
    }

    /// Whether `owner` is among the approvers.
    pub fn has_signed(&self, owner: &Pubkey) -> (signed: bool)
        ensures
            signed == self@.approvals.contains(*owner),
    {
        contains_key(&self.approvals, owner)
    }

    /// Records the approval of `owner`, which counts `weight`. A transaction
    /// that is not pending takes none, nobody approves twice, and the recorded
    /// weight is added to without wrapping; a refusal changes nothing.
    pub fn add_signature(&mut self, owner: &Pubkey, weight: u64) -> (res: Result<(), MultisigError>)
        ensures
            match res {
                Ok(()) => {
                    &&& old(self)@.signature_error(*owner, weight) is None
                    &&& final(self)@ == old(self)@.with_signature(*owner, weight)
                },
                Err(e) => {
                    &&& old(self)@.signature_error(*owner, weight) == Some(e)
                    &&& final(self)@ == old(self)@
                },
            },
            old(self).wf() ==> final(self).wf(),
    {
        match self.status {
            TransactionStatus::Pending => {},
            TransactionStatus::Executed => { return Err(MultisigError::AlreadyExecuted); },
            TransactionStatus::Cancelled => { return Err(MultisigError::InvalidTransactionState); },
            TransactionStatus::Expired => { return Err(MultisigError::InvalidTransactionState); },
        }
        if self.has_signed(owner) {
            return Err(MultisigError::AlreadySigned);
        }
        let weight_after = match self.current_weight.checked_add(weight) {
            Some(sum) => sum,
            None => { return Err(MultisigError::ArithmeticOverflow); },
        };
        self.approvals.push(*owner);
        self.current_weight = weight_after;
        Ok(())
    }

    /// Looks at the transaction at `current_time`: a pending transaction whose
    /// expiry time has passed becomes expired; any other stays as it is.
    pub fn update_status(&mut self, current_time: i64)
        ensures
            final(self)@ == old(self)@.observed_at(current_time),
            old(self).wf() ==> final(self).wf(),
    {
        if self.status == TransactionStatus::Pending && self.is_expired(current_time) {
            self.status = TransactionStatus::Expired;
        }
    }
}

} // verus!
