//! The pending index: the transactions of a wallet that have not reached a
//! terminal state, in the order in which they were proposed.

use anchor_lang::prelude::Pubkey;
use vstd::prelude::*;

verus! {

/// One entry of the pending index.
#[derive(Clone, Copy, Debug, PartialEq, Eq)]
pub struct PendingTransactionInfo {
    /// The transaction's number in its wallet.
    pub index: u64,
    /// Where the transaction's record is stored.
    pub pubkey: Pubkey,
    pub created_at: i64,
    pub proposer: Pubkey,
}

/// The transaction numbers of the entries, in order.
pub open spec fn pending_indices(queue: Seq<PendingTransactionInfo>) -> Seq<u64> {
    queue.map_values(|e: PendingTransactionInfo| e.index)
}

/// The index has an entry for transaction number `index`.
pub open spec fn is_pending(queue: Seq<PendingTransactionInfo>, index: u64) -> bool {
    pending_indices(queue).contains(index)
}

/// Where the first entry for transaction number `index` stands, if there is one.
pub open spec fn pending_position(queue: Seq<PendingTransactionInfo>, index: u64) -> Option<int> {
    pending_indices(queue).index_of_first(index)
}

/// The index without its first entry for transaction number `index`; the
/// other entries keep their order.
pub open spec fn without_entry(queue: Seq<PendingTransactionInfo>, index: u64) -> Seq<
    PendingTransactionInfo,
> {
    match pending_position(queue, index) {
        Some(i) => queue.remove(i),
        None => queue,
    }
}

/// The window of the index that starts at position `start` and holds at most
/// `limit` entries: shorter, or empty, where the index ends earlier.
pub open spec fn pending_window(queue: Seq<PendingTransactionInfo>, start: u64, limit: u8) -> Seq<
    PendingTransactionInfo,
> {
    if start >= queue.len() {
        Seq::empty()
    } else if start + limit >= queue.len() {
        queue.subrange(start as int, queue.len() as int)
    } else {
        queue.subrange(start as int, start + limit)
    }
}

/// The entries stand in the order of proposal: each has a higher transaction
/// number than the entries before it, and all numbers are below `next`, the
/// number that the next proposal gets.
pub open spec fn in_order(queue: Seq<PendingTransactionInfo>, next: u64) -> bool {
    &&& forall|i: int| 0 <= i < queue.len() ==> (#[trigger] queue[i]).index < next
    &&& forall|i: int, j: int|
        0 <= i < j < queue.len() ==> (#[trigger] queue[i]).index < (#[trigger] queue[j]).index
}

/// Once the entry of a transaction has left an index that is in the order of
/// proposal, the index has no entry for that transaction, the entries of all
/// other transactions are still there, and the index is still in order.
pub proof fn lemma_without_entry(queue: Seq<PendingTransactionInfo>, next: u64, index: u64)
    requires
        in_order(queue, next),
    ensures
        in_order(without_entry(queue, index), next),
        !is_pending(without_entry(queue, index), index),
        forall|other: u64|
            other != index ==> is_pending(without_entry(queue, index), other) == is_pending(
                queue,
                other,
            ),
{
    let after = without_entry(queue, index);
    pending_indices(queue).index_of_first_ensures(index);
    if is_pending(queue, index) {
        let at = pending_position(queue, index).unwrap();
        assert(pending_indices(queue)[at] == index);
        assert(after =~= queue.remove(at));
        assert forall|i: int| 0 <= i < after.len() implies (#[trigger] after[i]).index != index
            && after[i] == queue[if i < at { i } else { i + 1 }] by {
            if i < at {
                assert(queue[i].index < queue[at].index);
            } else {
                assert(queue[at].index < queue[i + 1].index);
            }
        }
        assert forall|i: int, j: int| 0 <= i < j < after.len() implies (#[trigger] after[i]).index < (
        #[trigger] after[j]).index by {
            let a = if i < at { i } else { i + 1 };
            let b = if j < at { j } else { j + 1 };
            assert(queue[a].index < queue[b].index);
        }
        assert forall|i: int| 0 <= i < after.len() implies (#[trigger] after[i]).index < next by {
            let a = if i < at { i } else { i + 1 };
            assert(queue[a].index < next);
        }
        assert forall|other: u64| other != index implies is_pending(after, other) == is_pending(
            queue,
            other,
        ) by {
            if is_pending(after, other) {
                let i = choose|i: int|
                    0 <= i < pending_indices(after).len() && pending_indices(after)[i] == other;
                let a = if i < at { i } else { i + 1 };
                assert(pending_indices(queue)[a] == other);
            }
            if is_pending(queue, other) {
                let a = choose|a: int|
                    0 <= a < pending_indices(queue).len() && pending_indices(queue)[a] == other;
                let i = if a < at { a } else { a - 1 };
                assert(pending_indices(after)[i] == other);
            }
        }
    }
    if is_pending(after, index) {
        let i = choose|i: int|
            0 <= i < pending_indices(after).len() && pending_indices(after)[i] == index;
        assert(after[i].index == index);
        if !is_pending(queue, index) {
            assert(pending_indices(queue)[i] == index);
        }
    }
}

/// An entry for `index` at `i` with none before it is the entry that
/// `pending_position` names.
pub proof fn lemma_pending_position(queue: Seq<PendingTransactionInfo>, index: u64, i: int)
    requires
        0 <= i < queue.len(),
        queue[i].index == index,
        forall|j: int| 0 <= j < i ==> (#[trigger] queue[j]).index != index,
    ensures
        is_pending(queue, index),
        pending_position(queue, index) == Some(i),
{
    let indices = pending_indices(queue);
    assert(indices[i] == index);
    indices.index_of_first_ensures(index);
    let k = indices.index_of_first(index).unwrap();
    if k < i {
        assert(queue[k].index != index);
    } else if i < k {
        assert(indices[i] != index);
    }
}

/// An index without an entry for `index` gives no position for it.
pub proof fn lemma_no_pending_position(queue: Seq<PendingTransactionInfo>, index: u64)
    requires
        forall|j: int| 0 <= j < queue.len() ==> (#[trigger] queue[j]).index != index,
    ensures
        !is_pending(queue, index),
        pending_position(queue, index) is None,
{
    let indices = pending_indices(queue);
    if indices.contains(index) {
        let j = choose|j: int| 0 <= j < indices.len() && indices[j] == index;
        assert(queue[j].index == index);
    }
    indices.index_of_first_ensures(index);
}

/// The position of the first entry for transaction number `index`.
pub fn find_pending(queue: &Vec<PendingTransactionInfo>, index: u64) -> (found: Option<usize>)
    ensures
        found is Some == is_pending(queue@, index),
        match found {
            Some(i) => i < queue.len() && queue@[i as int].index == index && pending_position(
                queue@,
                index,
            ) == Some(i as int),
            None => pending_position(queue@, index) is None,
        },
{
    let mut i: usize = 0;
    while i < queue.len()
        invariant
            i <= queue.len(),
            forall|j: int| 0 <= j < i ==> (#[trigger] queue@[j]).index != index,
        decreases queue.len() - i,
    {
        if queue[i].index == index {
            proof {
                lemma_pending_position(queue@, index, i as int);
            }
            return Some(i);
        }
        i += 1;
    }
    proof {
        lemma_no_pending_position(queue@, index);
    }
    None
}

} // verus!
