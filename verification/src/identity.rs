//! Identities of owners and other accounts.

use anchor_lang::prelude::Pubkey;
use vstd::prelude::*;

verus! {

/// An account address of the host chain. That the caller controls an identity
/// is established before the library is called; the library stores
/// identities, hands them on and compares them, and never looks inside one.
#[verifier::external_type_specification]
#[verifier::external_body]
pub struct ExPubkey(Pubkey);

/// `Pubkey` derives `Clone` and `Copy`: a clone is the same address.
pub assume_specification[ <Pubkey as Clone>::clone ](key: &Pubkey) -> (copy: Pubkey)
    ensures
        copy == *key,
;

/// Calls `==` of `Pubkey`, which compares the 32 bytes of the two addresses:
/// the result is `true` exactly when both are the same address.
#[verifier::external_body]
pub(crate) fn same_key(a: &Pubkey, b: &Pubkey) -> (same: bool)
    ensures
        same == (*a == *b),
{
    a == b
}

/// Whether `key` occurs among `keys`.
pub fn contains_key(keys: &Vec<Pubkey>, key: &Pubkey) -> (found: bool)
    ensures
        found == keys@.contains(*key),
{
    let mut i: usize = 0;
    while i < keys.len()
        invariant
            i <= keys.len(),
            forall|j: int| 0 <= j < i ==> keys@[j] != *key,
        decreases keys.len() - i,
    {
        if same_key(&keys[i], key) {
            return true;
        }
        i += 1;
    }
    false
}

/// Whether no key occurs twice among `keys`.
pub fn all_distinct(keys: &Vec<Pubkey>) -> (distinct: bool)
    ensures
        distinct == keys@.no_duplicates(),
{
    let n = keys.len();
    let mut a: usize = 0;
    while a < n
        invariant
            n == keys.len(),
            a <= n,
            forall|i: int, j: int| 0 <= i < a && i < j < n ==> keys@[i] != keys@[j],
        decreases n - a,
    {
        let mut b: usize = a + 1;
        while b < n
            invariant
                n == keys.len(),
                a < b <= n,
                forall|i: int, j: int| 0 <= i < a && i < j < n ==> keys@[i] != keys@[j],
                forall|j: int| a < j < b ==> keys@[a as int] != keys@[j],
            decreases n - b,
        {
            if same_key(&keys[a], &keys[b]) {
                return false;
            }
            b += 1;
        }
        a += 1;
    }
    assert forall|i: int, j: int| 0 <= i < n && 0 <= j < n && i != j implies keys@[i]
        != keys@[j] by {
        if i < j {
        } else {
            assert(keys@[j] != keys@[i]);
        }
    }
    true
}

} // verus!
