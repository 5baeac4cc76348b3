//! The wallet: who owns it, what their approvals weigh, how much weight an
//! execution needs, and which of its transactions are pending.

use crate::constants::MAX_PENDING_TXS;
use crate::errors::MultisigError;
use crate::state::owner::{
    check_owner_set, find_position, is_owner, lemma_total_weight_bound, lemma_total_weight_update,
    owner_position, owner_set_error, sum_weights, total_weight, OwnerInfo,
};
use crate::state::pending::{
    find_pending, in_order, is_pending, lemma_without_entry, without_entry,
    PendingTransactionInfo,
};
use anchor_lang::prelude::Pubkey;
use vstd::prelude::*;

verus! {

/// A wallet's record.
#[derive(Clone, Debug, PartialEq, Eq)]
pub struct MultisigWallet {
    /// The address the wallet's own address is derived from.
    pub base: Pubkey,
    pub bump: u8,
    pub name: String,
    /// The threshold: the least weight of approvals that lets a transaction
    /// execute.
    pub min_weight_required: u64,
    /// The sum of the owners' weights.
    pub total_weight: u64,
    /// The configuration version: it grows by one with every change of the
    /// owners, their weights or the threshold.
    pub owner_set_seqno: u32,
    pub owners: Vec<OwnerInfo>,
    pub num_owners: u8,
    /// How many transactions were ever proposed; the next one gets this number.
    pub transaction_count: u64,
    pub pending_count: u64,
    pub pending_transactions: Vec<PendingTransactionInfo>,
}

/// A wallet as a mathematical value.
#[verifier::ext_equal]
pub struct WalletView {
    pub base: Pubkey,
    pub bump: u8,
    pub name: Seq<char>,
    pub min_weight_required: u64,
    pub total_weight: u64,
    pub owner_set_seqno: u32,
    pub owners: Seq<OwnerInfo>,
    pub num_owners: u8,
    pub transaction_count: u64,
    pub pending_count: u64,
    pub pending_transactions: Seq<PendingTransactionInfo>,
}

impl View for MultisigWallet {
    type V = WalletView;

    open spec fn view(&self) -> WalletView {
        WalletView {
            base: self.base,
            bump: self.bump,
            name: self.name@,
            min_weight_required: self.min_weight_required,
            total_weight: self.total_weight,
            owner_set_seqno: self.owner_set_seqno,
            owners: self.owners@,
            num_owners: self.num_owners,
            transaction_count: self.transaction_count,
            pending_count: self.pending_count,
            pending_transactions: self.pending_transactions@,
        }
    }
}

/// The first entry of `owners` for `key`, if there is one.
pub open spec fn owner_entry(owners: Seq<OwnerInfo>, key: Pubkey) -> Option<OwnerInfo> {
    match owner_position(owners, key) {
        Some(i) => Some(owners[i]),
        None => None,
    }
}

impl WalletView {
    /// The owner set is one that a wallet can have, and the threshold is
    /// positive and within the owners' total weight.
    pub open spec fn configuration_valid(self) -> bool {
        &&& owner_set_error(self.owners) is None
        &&& self.total_weight == total_weight(self.owners)
        &&& 0 < self.min_weight_required <= self.total_weight
    }

    /// The wallet's invariant: a valid configuration, counts that agree with
    /// the lists they count, and a pending index within its capacity.
    pub open spec fn wf(self) -> bool {
        &&& self.configuration_valid()
        &&& self.num_owners == self.owners.len()
        &&& self.pending_count == self.pending_transactions.len()
        &&& self.pending_transactions.len() <= MAX_PENDING_TXS
    }

    /// The pending index lists transactions in the order of their proposal:
    /// every entry belongs to a transaction that the counter has passed, and
    /// has a higher number than the entries before it.
    pub open spec fn queue_in_order(self) -> bool {
        in_order(self.pending_transactions, self.transaction_count)
    }

    /// The wallet with the next configuration version.
    pub open spec fn next_version(self) -> WalletView {
        WalletView { owner_set_seqno: (self.owner_set_seqno + 1) as u32, ..self }
    }

    /// Why the threshold cannot become `threshold`, if it cannot.
    pub open spec fn threshold_change_error(self, threshold: u64) -> Option<MultisigError> {
        if threshold == 0 {
            Some(MultisigError::InvalidThreshold)
        } else if threshold > self.total_weight {
            Some(MultisigError::ThresholdTooHigh)
        } else if self.owner_set_seqno == u32::MAX {
            Some(MultisigError::ArithmeticOverflow)
        } else {
            None
        }
    }

    /// The wallet after its threshold became `threshold`.
    pub open spec fn with_threshold(self, threshold: u64) -> WalletView {
        WalletView { min_weight_required: threshold, ..self.next_version() }
    }

    /// The owner list in which the first entry for `key` weighs `weight`.
    pub open spec fn reweighted_owners(self, key: Pubkey, weight: u64) -> Seq<OwnerInfo> {
        match owner_position(self.owners, key) {
            Some(i) => self.owners.update(i, OwnerInfo { owner: key, weight }),
            None => self.owners,
        }
    }

    /// Why the weight of `key` cannot become `weight`, if it cannot.
    pub open spec fn weight_change_error(self, key: Pubkey, weight: u64) -> Option<MultisigError> {
        if !is_owner(self.owners, key) {
            Some(MultisigError::OwnerNotFound)
        } else if weight == 0 {
            Some(MultisigError::InvalidOwnerWeight)
        } else if total_weight(self.reweighted_owners(key, weight)) > u64::MAX {
            Some(MultisigError::ArithmeticOverflow)
        } else if self.min_weight_required > total_weight(self.reweighted_owners(key, weight)) {
            Some(MultisigError::ThresholdTooHigh)
        } else if self.owner_set_seqno == u32::MAX {
            Some(MultisigError::ArithmeticOverflow)
        } else {
            None
        }
    }

    /// The wallet after the weight of `key` became `weight`.
    pub open spec fn with_owner_weight(self, key: Pubkey, weight: u64) -> WalletView {
        WalletView {
            owners: self.reweighted_owners(key, weight),
            total_weight: total_weight(self.reweighted_owners(key, weight)) as u64,
            ..self.next_version()
        }
    }

    /// Why `owners` cannot become the owner set, if they cannot.
    pub open spec fn replacement_error(self, owners: Seq<OwnerInfo>) -> Option<MultisigError> {
        if owner_set_error(owners) is Some {
            owner_set_error(owners)
        } else if total_weight(owners) > u64::MAX {
            Some(MultisigError::ArithmeticOverflow)
        } else if self.min_weight_required > total_weight(owners) {
            Some(MultisigError::ThresholdTooHigh)
        } else if self.owner_set_seqno == u32::MAX {
            Some(MultisigError::ArithmeticOverflow)
        } else {
            None
        }
    }

    /// The wallet after `owners` became its owner set.
    pub open spec fn with_owners(self, owners: Seq<OwnerInfo>) -> WalletView {
        WalletView {
            owners,
            num_owners: owners.len() as u8,
            total_weight: total_weight(owners) as u64,
            ..self.next_version()
        }
    }

    /// Why the pending index cannot take another entry, if it cannot.
    pub open spec fn enqueue_error(self) -> Option<MultisigError> {
        if self.pending_transactions.len() >= MAX_PENDING_TXS {
            Some(MultisigError::QueueFull)
        } else {
            None
        }
    }

    /// The wallet with `entry` at the end of its pending index.
    pub open spec fn with_pending(self, entry: PendingTransactionInfo) -> WalletView {
        WalletView {
            pending_transactions: self.pending_transactions.push(entry),
            pending_count: (self.pending_transactions.len() + 1) as u64,
            ..self
        }
    }

    /// The wallet without the first pending entry for transaction number
    /// `index`; the wallet itself where there is no such entry.
    pub open spec fn without_pending(self, index: u64) -> WalletView {
        if is_pending(self.pending_transactions, index) {
            WalletView {
                pending_transactions: without_entry(self.pending_transactions, index),
                pending_count: (self.pending_transactions.len() - 1) as u64,
                ..self
            }
        } else {
            self
        }
    }
}

impl MultisigWallet {
    /// The wallet's invariant, see [`WalletView::wf`].
    pub open spec fn wf(&self) -> bool {
        self@.wf()
    }

    /// Tests the wallet's invariant on a record of unknown origin.
    pub fn is_well_formed(&self) -> (ok: bool)
        ensures
            ok == self.wf(),
    {
        if check_owner_set(&self.owners).is_err() {
            return false;
        }
        let total = sum_weights(&self.owners);
        total == self.total_weight as u128 && 0 < self.min_weight_required
            && self.min_weight_required <= self.total_weight && self.owners.len()
            == self.num_owners as usize && self.pending_transactions.len() <= MAX_PENDING_TXS
            && self.pending_transactions.len() as u64 == self.pending_count
    }

    /// The first owner entry with the identity `owner`.
    pub fn find_owner(&self, owner: &Pubkey) -> (found: Option<&OwnerInfo>)
        ensures
            found is Some == is_owner(self@.owners, *owner),
            match found {
                Some(info) => owner_entry(self@.owners, *owner) == Some(*info),
                None => owner_entry(self@.owners, *owner) is None,
            },
    {
        match find_position(&self.owners, owner) {
            Some(i) => Some(&self.owners[i]),
            None => None,
        }
    }

    /// The first owner entry with the identity `owner`, or `OwnerNotFound`.
    pub fn validate_owner(&self, owner: &Pubkey) -> (res: Result<&OwnerInfo, MultisigError>)
        ensures
            match res {
                Ok(info) => owner_entry(self@.owners, *owner) == Some(*info),
                Err(e) => e == MultisigError::OwnerNotFound && !is_owner(self@.owners, *owner),
            },
    {
        match self.find_owner(owner) {
            Some(info) => Ok(info),
            None => Err(MultisigError::OwnerNotFound),
        }
    }

    /// Appends an entry to the pending index, unless the index is at capacity.
    pub fn add_pending_transaction(
        &mut self,
        index: u64,
        pubkey: Pubkey,
        created_at: i64,
        proposer: Pubkey,
    ) -> (res: Result<(), MultisigError>)
        ensures
            match res {
                Ok(()) => {
                    &&& old(self)@.enqueue_error() is None
                    &&& final(self)@ == old(self)@.with_pending(
                        (PendingTransactionInfo { index, pubkey, created_at, proposer }),
                    )
                },
                Err(e) => {
                    &&& old(self)@.enqueue_error() == Some(e)
                    &&& final(self)@ == old(self)@
                },
            },
            old(self).wf() ==> final(self).wf(),
    {
        if self.pending_transactions.len() >= MAX_PENDING_TXS {
            return Err(MultisigError::QueueFull);
        }
        self.pending_transactions.push(PendingTransactionInfo { index, pubkey, created_at, proposer });
        self.pending_count = self.pending_transactions.len() as u64;
        Ok(())
    }

    /// Removes the first entry for transaction number `index` from the pending
    /// index, or reports that there is none.
    pub fn remove_pending_transaction(&mut self, index: u64) -> (res: Result<(), MultisigError>)
        ensures
            match res {
                Ok(()) => {
                    &&& is_pending(old(self)@.pending_transactions, index)
                    &&& final(self)@.pending_transactions.len() + 1
                        == old(self)@.pending_transactions.len()
                },
                Err(e) => {
                    &&& e == MultisigError::TransactionNotFound
                    &&& !is_pending(old(self)@.pending_transactions, index)
                },
            },
            final(self)@ == old(self)@.without_pending(index),
            old(self).wf() ==> final(self).wf(),
            old(self)@.queue_in_order() ==> final(self)@.queue_in_order() && !is_pending(
                final(self)@.pending_transactions,
                index,
            ),
    {
        proof {
            if self@.queue_in_order() {
                lemma_without_entry(self@.pending_transactions, self.transaction_count, index);
            }
        }
        match find_pending(&self.pending_transactions, index) {
            Some(pos) => {
                self.pending_transactions.remove(pos);
                self.pending_count = self.pending_transactions.len() as u64;
                Ok(())
            },
            None => Err(MultisigError::TransactionNotFound),
        }
    }

    /// Sets the threshold and moves to the next configuration version.
    pub fn change_threshold(&mut self, threshold: u64) -> (res: Result<(), MultisigError>)
        ensures
            match res {
                Ok(()) => {
                    &&& old(self)@.threshold_change_error(threshold) is None
                    &&& final(self)@ == old(self)@.with_threshold(threshold)
                },
                Err(e) => {
                    &&& old(self)@.threshold_change_error(threshold) == Some(e)
                    &&& final(self)@ == old(self)@
                },
            },
            old(self).wf() ==> final(self).wf(),
            old(self)@.queue_in_order() ==> final(self)@.queue_in_order(),
    {
        if threshold == 0 {
            return Err(MultisigError::InvalidThreshold);
        }
        if threshold > self.total_weight {
            return Err(MultisigError::ThresholdTooHigh);
        }
        if self.owner_set_seqno == u32::MAX {
            return Err(MultisigError::ArithmeticOverflow);
        }
        self.min_weight_required = threshold;
        self.owner_set_seqno = self.owner_set_seqno + 1;
        Ok(())
    }

    /// Sets the weight of the owner `owner`, sums the weights anew and moves to
    /// the next configuration version.
    pub fn change_owner_weight(&mut self, owner: &Pubkey, weight: u64) -> (res: Result<
        (),
        MultisigError,
    >)
        ensures
            match res {
                Ok(()) => {
                    &&& old(self)@.weight_change_error(*owner, weight) is None
                    &&& final(self)@ == old(self)@.with_owner_weight(*owner, weight)
                },
                Err(e) => {
                    &&& old(self)@.weight_change_error(*owner, weight) == Some(e)
                    &&& final(self)@ == old(self)@
                },
            },
            old(self).wf() ==> final(self).wf(),
            old(self)@.queue_in_order() ==> final(self)@.queue_in_order(),
    {
        let pos = match find_position(&self.owners, owner) {
            Some(pos) => pos,
            None => { return Err(MultisigError::OwnerNotFound); },
        };
        if weight == 0 {
            return Err(MultisigError::InvalidOwnerWeight);
        }
        let entry = OwnerInfo { owner: *owner, weight };
        let before = sum_weights(&self.owners);
        proof {
            lemma_total_weight_update(self.owners@, pos as int, entry);
            lemma_total_weight_update(
                self.owners@,
                pos as int,
                OwnerInfo { owner: *owner, weight: 0 },
            );
            lemma_total_weight_bound(self.owners@);
            assert(self.owners@.len() * u64::MAX <= usize::MAX * u64::MAX) by (nonlinear_arith)
                requires
                    self.owners@.len() <= usize::MAX,
            ;
        }
        let total = before - self.owners[pos].weight as u128 + weight as u128;
        if total > u64::MAX as u128 {
            return Err(MultisigError::ArithmeticOverflow);
        }
        if self.min_weight_required as u128 > total {
            return Err(MultisigError::ThresholdTooHigh);
        }
        if self.owner_set_seqno == u32::MAX {
            return Err(MultisigError::ArithmeticOverflow);
        }
        self.owners.set(pos, entry);
        self.total_weight = total as u64;
        self.owner_set_seqno = self.owner_set_seqno + 1;
        proof {
            if old(self).wf() {
                lemma_reweighted_owner_set(old(self)@.owners, pos as int, entry);
            }
        }
        Ok(())
    }

    /// Replaces the owner set and moves to the next configuration version. The
    /// new set may have other members than the old one.
    pub fn replace_owner_set(&mut self, owners: Vec<OwnerInfo>) -> (res: Result<(), MultisigError>)
        ensures
            match res {
                Ok(()) => {
                    &&& old(self)@.replacement_error(owners@) is None
                    &&& final(self)@ == old(self)@.with_owners(owners@)
                },
                Err(e) => {
                    &&& old(self)@.replacement_error(owners@) == Some(e)
                    &&& final(self)@ == old(self)@
                },
            },
            old(self).wf() ==> final(self).wf(),
            old(self)@.queue_in_order() ==> final(self)@.queue_in_order(),
    {
        match check_owner_set(&owners) {
            Err(e) => { return Err(e); },
            Ok(()) => {},
        }
        let total = sum_weights(&owners);
        if total > u64::MAX as u128 {
            return Err(MultisigError::ArithmeticOverflow);
        }
        if self.min_weight_required as u128 > total {
            return Err(MultisigError::ThresholdTooHigh);
        }
        if self.owner_set_seqno == u32::MAX {
            return Err(MultisigError::ArithmeticOverflow);
        }
        self.num_owners = owners.len() as u8;
        self.owners = owners;
        self.total_weight = total as u64;
        self.owner_set_seqno = self.owner_set_seqno + 1;
        Ok(())
    }
}

/// Giving one owner of a valid owner set another positive weight leaves the
/// set valid.
pub proof fn lemma_reweighted_owner_set(owners: Seq<OwnerInfo>, i: int, entry: OwnerInfo)
    requires
        owner_set_error(owners) is None,
        0 <= i < owners.len(),
        entry.owner == owners[i].owner,
        entry.weight > 0,
    ensures
        owner_set_error(owners.update(i, entry)) is None,
{
    let after = owners.update(i, entry);
    assert forall|j: int| 0 <= j < after.len() implies (#[trigger] after[j]).weight != 0 by {
        if j != i {
            assert(owners[j].weight != 0);
        }
    }
    assert forall|a: int, b: int| 0 <= a < b < after.len() implies (#[trigger] after[a]).owner != (
    #[trigger] after[b]).owner by {
        assert(owners[a].owner != owners[b].owner);
    }
}

} // verus!
