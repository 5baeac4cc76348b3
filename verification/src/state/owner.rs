//! Owners and their weights.

use crate::constants::MAX_SIGNERS;
use crate::errors::MultisigError;
use crate::identity::same_key;
use anchor_lang::prelude::Pubkey;
use vstd::prelude::*;

verus! {

/// A principal that may propose and approve, and what its approval counts.
#[derive(Clone, Copy, Debug, PartialEq, Eq)]
pub struct OwnerInfo {
    pub owner: Pubkey,
    pub weight: u64,
}

/// The identities of `owners`, in order.
pub open spec fn owner_keys(owners: Seq<OwnerInfo>) -> Seq<Pubkey> {
    owners.map_values(|o: OwnerInfo| o.owner)
}

/// `key` is the identity of some entry of `owners`.
pub open spec fn is_owner(owners: Seq<OwnerInfo>, key: Pubkey) -> bool {
    owner_keys(owners).contains(key)
}

/// Where the first entry for `key` stands, if there is one.
pub open spec fn owner_position(owners: Seq<OwnerInfo>, key: Pubkey) -> Option<int> {
    owner_keys(owners).index_of_first(key)
}

/// What an approval by `key` counts: the weight of its first entry, and
/// nothing for an identity that is no owner.
pub open spec fn weight_of(owners: Seq<OwnerInfo>, key: Pubkey) -> nat {
    match owner_position(owners, key) {
        Some(i) => owners[i].weight as nat,
        None => 0,
    }
}

/// The sum of all owners' weights.
pub open spec fn total_weight(owners: Seq<OwnerInfo>) -> nat
    decreases owners.len(),
{
    if owners.len() == 0 {
        0
    } else {
        total_weight(owners.drop_last()) + owners.last().weight as nat
    }
}

/// No identity has two entries.
pub open spec fn distinct_owners(owners: Seq<OwnerInfo>) -> bool {
    forall|i: int, j: int|
        0 <= i < j < owners.len() ==> (#[trigger] owners[i]).owner != (#[trigger] owners[j]).owner
}

/// Some entry has weight zero.
pub open spec fn has_zero_weight(owners: Seq<OwnerInfo>) -> bool {
    exists|i: int| 0 <= i < owners.len() && (#[trigger] owners[i]).weight == 0
}

/// Why `owners` cannot be a wallet's owner set, if it cannot. The reasons are
/// tried in the order written.
pub open spec fn owner_set_error(owners: Seq<OwnerInfo>) -> Option<MultisigError> {
    if owners.len() == 0 {
        Some(MultisigError::NoOwners)
    } else if owners.len() > MAX_SIGNERS {
        Some(MultisigError::TooManyOwners)
    } else if has_zero_weight(owners) {
        Some(MultisigError::InvalidOwnerWeight)
    } else if !distinct_owners(owners) {
        Some(MultisigError::DuplicateOwner)
    } else {
        None
    }
}

/// Why `owners` with `threshold` cannot be a wallet's configuration, if they
/// cannot: a fault of the owner set first, then of the threshold.
pub open spec fn configuration_error(owners: Seq<OwnerInfo>, threshold: u64) -> Option<
    MultisigError,
> {
    if owner_set_error(owners) is Some {
        owner_set_error(owners)
    } else if threshold == 0 {
        Some(MultisigError::InvalidThreshold)
    } else if total_weight(owners) > u64::MAX {
        Some(MultisigError::ArithmeticOverflow)
    } else if threshold > total_weight(owners) {
        Some(MultisigError::ThresholdTooHigh)
    } else {
        None
    }
}

/// An entry for `key` at `i` with none before it is the entry that
/// `owner_position` names.
pub proof fn lemma_owner_position(owners: Seq<OwnerInfo>, key: Pubkey, i: int)
    requires
        0 <= i < owners.len(),
        owners[i].owner == key,
        forall|j: int| 0 <= j < i ==> (#[trigger] owners[j]).owner != key,
    ensures
        is_owner(owners, key),
        owner_position(owners, key) == Some(i),
{
    let keys = owner_keys(owners);
    assert(keys[i] == key);
    keys.index_of_first_ensures(key);
    let k = keys.index_of_first(key).unwrap();
    if k < i {
        assert(owners[k].owner != key);
    } else if i < k {
        assert(keys[i] != key);
    }
}

/// A list without an entry for `key` gives no position for it.
pub proof fn lemma_no_owner_position(owners: Seq<OwnerInfo>, key: Pubkey)
    requires
        forall|j: int| 0 <= j < owners.len() ==> (#[trigger] owners[j]).owner != key,
    ensures
        !is_owner(owners, key),
        owner_position(owners, key) is None,
{
    let keys = owner_keys(owners);
    if keys.contains(key) {
        let j = choose|j: int| 0 <= j < keys.len() && keys[j] == key;
        assert(owners[j].owner == key);
    }
    keys.index_of_first_ensures(key);
}

/// What an approval counts under a list with one more entry at its end: what
/// it counted before for an identity that had an entry, the new entry's
/// weight for the new entry's identity, and nothing for any other.
pub proof fn lemma_weight_of_push(owners: Seq<OwnerInfo>, entry: OwnerInfo, key: Pubkey)
    ensures
        weight_of(owners.push(entry), key) == if is_owner(owners, key) {
            weight_of(owners, key)
        } else if entry.owner == key {
            entry.weight as nat
        } else {
            0
        },
{
    let longer = owners.push(entry);
    owner_keys(owners).index_of_first_ensures(key);
    if is_owner(owners, key) {
        let i = owner_position(owners, key).unwrap();
        assert(owner_keys(owners)[i] == key);
        assert forall|j: int| 0 <= j < i implies (#[trigger] longer[j]).owner != key by {
            assert(owner_keys(owners)[j] != key);
        }
        lemma_owner_position(longer, key, i);
    } else {
        assert forall|j: int| 0 <= j < owners.len() implies (#[trigger] longer[j]).owner != key by {
            if owners[j].owner == key {
                assert(owner_keys(owners)[j] == key);
            }
        }
        if entry.owner == key {
            lemma_owner_position(longer, key, owners.len() as int);
        } else {
            lemma_no_owner_position(longer, key);
        }
    }
}

/// The sum of a prefix grows by the weight of the entry that follows it.
pub proof fn lemma_total_weight_step(owners: Seq<OwnerInfo>, i: int)
    requires
        0 <= i < owners.len(),
    ensures
        total_weight(owners.take(i + 1)) == total_weight(owners.take(i)) + owners[i].weight,
{
    assert(owners.take(i + 1).drop_last() =~= owners.take(i));
}

/// Replacing one entry changes the sum by the difference of the two weights.
pub proof fn lemma_total_weight_update(owners: Seq<OwnerInfo>, i: int, entry: OwnerInfo)
    requires
        0 <= i < owners.len(),
    ensures
        total_weight(owners.update(i, entry)) == total_weight(owners) - owners[i].weight
            + entry.weight,
    decreases owners.len(),
{
    let after = owners.update(i, entry);
    if i == owners.len() - 1 {
        assert(after.drop_last() =~= owners.drop_last());
    } else {
        assert(after.drop_last() =~= owners.drop_last().update(i, entry));
        lemma_total_weight_update(owners.drop_last(), i, entry);
    }
}

/// A sum of weights is at most as many times `u64::MAX` as there are entries.
pub proof fn lemma_total_weight_bound(owners: Seq<OwnerInfo>)
    ensures
        total_weight(owners) <= owners.len() * u64::MAX,
    decreases owners.len(),
{
    if owners.len() > 0 {
        lemma_total_weight_bound(owners.drop_last());
        assert((owners.len() - 1) * u64::MAX + u64::MAX == owners.len() * u64::MAX)
            by (nonlinear_arith);
    }
}

/// The position of the first entry for `key`.
pub fn find_position(owners: &Vec<OwnerInfo>, key: &Pubkey) -> (found: Option<usize>)
    ensures
        found is Some == is_owner(owners@, *key),
        match found {
            Some(i) => i < owners.len() && owners@[i as int].owner == *key && owner_position(
                owners@,
                *key,
            ) == Some(i as int),
            None => owner_position(owners@, *key) is None,
        },
{
    let mut i: usize = 0;
    while i < owners.len()
        invariant
            i <= owners.len(),
            forall|j: int| 0 <= j < i ==> (#[trigger] owners@[j]).owner != *key,
        decreases owners.len() - i,
    {
        if same_key(&owners[i].owner, key) {
            proof {
                lemma_owner_position(owners@, *key, i as int);
            }
            return Some(i);
        }
        i += 1;
    }
    proof {
        lemma_no_owner_position(owners@, *key);
    }
    None
}

/// The sum of all weights, in an integer wide enough for any owner list.
pub fn sum_weights(owners: &Vec<OwnerInfo>) -> (sum: u128)
    ensures
        sum == total_weight(owners@),
{
    let mut sum: u128 = 0;
    let mut i: usize = 0;
    while i < owners.len()
        invariant
            i <= owners.len(),
            sum == total_weight(owners@.take(i as int)),
        decreases owners.len() - i,
    {
        proof {
            lemma_total_weight_step(owners@, i as int);
            lemma_total_weight_bound(owners@.take(i as int));
            assert(i * u64::MAX + u64::MAX <= usize::MAX * u64::MAX) by (nonlinear_arith)
                requires
                    i < usize::MAX,
            ;
        }
        sum = sum + owners[i].weight as u128;
        i += 1;
    }
    proof {
        assert(owners@.take(owners.len() as int) =~= owners@);
    }
    sum
}

/// Tests an owner list: `Ok` for a list that can be a wallet's owner set,
/// else the first reason against it.
pub fn check_owner_set(owners: &Vec<OwnerInfo>) -> (res: Result<(), MultisigError>)
    ensures
        match res {
            Ok(()) => owner_set_error(owners@) is None,
            Err(e) => owner_set_error(owners@) == Some(e),
        },
{
    let n = owners.len();
    if n == 0 {
        return Err(MultisigError::NoOwners);
    }
    if n > MAX_SIGNERS {
        return Err(MultisigError::TooManyOwners);
    }
    let mut i: usize = 0;
    while i < n
        invariant
            n == owners.len(),
            0 < n <= MAX_SIGNERS,
            i <= n,
            forall|j: int| 0 <= j < i ==> (#[trigger] owners@[j]).weight != 0,
        decreases n - i,
    {
        if owners[i].weight == 0 {
            assert(has_zero_weight(owners@)) by {
                assert(owners@[i as int].weight == 0);
            }
            return Err(MultisigError::InvalidOwnerWeight);
        }
        i += 1;
    }
    let mut a: usize = 0;
    while a < n
        invariant
            n == owners.len(),
            0 < n <= MAX_SIGNERS,
            a <= n,
            !has_zero_weight(owners@),
            forall|i: int, j: int|
                0 <= i < j < n && i < a ==> (#[trigger] owners@[i]).owner != (
                #[trigger] owners@[j]).owner,
        decreases n - a,
    {
        let mut b: usize = a + 1;
        while b < n
            invariant
                n == owners.len(),
                0 < n <= MAX_SIGNERS,
                a < b <= n,
                !has_zero_weight(owners@),
                forall|i: int, j: int|
                    0 <= i < j < n && i < a ==> (#[trigger] owners@[i]).owner != (
                    #[trigger] owners@[j]).owner,
                forall|j: int| a < j < b ==> owners@[a as int].owner != (#[trigger] owners@[j]).owner,
            decreases n - b,
        {
            if same_key(&owners[a].owner, &owners[b].owner) {
                assert(!distinct_owners(owners@)) by {
                    assert(owners@[a as int].owner == owners@[b as int].owner);
                }
                return Err(MultisigError::DuplicateOwner);
            }
            b += 1;
        }
        a += 1;
    }
    Ok(())
}

} // verus!
