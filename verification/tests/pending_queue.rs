use anchor_lang::prelude::Pubkey;
use power_multisig::constants::MAX_PENDING_TXS;
use power_multisig::errors::MultisigError;
use power_multisig::instructions::{
    CancelTransaction, CreateMultisig, CreateMultisigArgs, CreateTransaction,
    CreateTransactionArgs, GetPendingTransactions,
};
use power_multisig::multisig_wallet::{
    cancel_transaction, create_multisig, create_transaction, get_pending_transactions,
};
use power_multisig::state::pending::find_pending;
use power_multisig::state::{MultisigWallet, OwnerInfo, PendingTransactionInfo, Transaction};

fn key(n: u8) -> Pubkey {
    Pubkey::new_from_array([n; 32])
}

fn wallet() -> MultisigWallet {
    let ctx = CreateMultisig { base: key(200), bump: 254 };
    let args = CreateMultisigArgs {
        name: String::new(),
        min_weight_required: 1,
        owners: vec![OwnerInfo { owner: key(1), weight: 1 }],
    };
    create_multisig(&ctx, args).unwrap()
}

fn propose(wallet: &mut MultisigWallet) -> Result<Transaction, MultisigError> {
    let mut ctx = CreateTransaction {
        wallet: wallet.clone(),
        wallet_key: key(100),
        transaction_key: key(150),
        transaction_bump: 0,
        proposer: key(1),
    };
    let args = CreateTransactionArgs {
        destination: key(50),
        amount: 0,
        instructions: vec![],
        expires_at: None,
    };
    let res = create_transaction(&mut ctx, args, 0);
    *wallet = ctx.wallet;
    res
}

fn entry(index: u64) -> PendingTransactionInfo {
    PendingTransactionInfo { index, pubkey: key(index as u8), created_at: index as i64, proposer: key(1) }
}

fn filled(n: u64) -> MultisigWallet {
    let mut w = wallet();
    for i in 0..n {
        w.add_pending_transaction(i, key(i as u8), i as i64, key(1)).unwrap();
    }
    w
}

fn list(w: &MultisigWallet, start: u64, limit: u8) -> Result<Vec<u64>, MultisigError> {
    let ctx = GetPendingTransactions { wallet: w.clone() };
    get_pending_transactions(&ctx, start, limit).map(|es| es.iter().map(|e| e.index).collect())
}

#[test]
fn hundred_and_first_proposal_is_refused_until_one_leaves() {
    let mut w = wallet();
    let mut proposed: Vec<Transaction> = Vec::new();
    for _ in 0..MAX_PENDING_TXS {
        proposed.push(propose(&mut w).unwrap());
    }
    assert_eq!(w.pending_count, 100);
    let full = w.clone();
    assert_eq!(propose(&mut w), Err(MultisigError::QueueFull));
    assert_eq!(w, full);
    let mut ctx = CancelTransaction {
        wallet: w.clone(),
        transaction: proposed[40].clone(),
        proposer: key(1),
    };
    assert_eq!(cancel_transaction(&mut ctx, 1), Ok(()));
    w = ctx.wallet;
    assert_eq!(w.pending_count, 99);
    assert_eq!(find_pending(&w.pending_transactions, 40), None);
    assert_eq!(find_pending(&w.pending_transactions, 41), Some(40));
    let next = propose(&mut w).unwrap();
    assert_eq!(next.transaction_index, 100);
    assert_eq!(w.pending_count, 100);
    assert_eq!(w.transaction_count, 101);
    assert_eq!(propose(&mut w), Err(MultisigError::QueueFull));
    assert_eq!(w.transaction_count, 101);
    assert!(w.is_well_formed());
}

#[test]
fn add_appends_in_order_until_capacity() {
    let mut w = wallet();
    assert_eq!(w.add_pending_transaction(7, key(7), 7, key(1)), Ok(()));
    assert_eq!(w.add_pending_transaction(3, key(3), 3, key(1)), Ok(()));
    assert_eq!(w.pending_transactions, vec![entry(7), entry(3)]);
    assert_eq!(w.pending_count, 2);
    let mut w = filled(99);
    assert_eq!(w.add_pending_transaction(99, key(99), 99, key(1)), Ok(()));
    let full = w.clone();
    assert_eq!(w.add_pending_transaction(100, key(100), 100, key(1)), Err(MultisigError::QueueFull));
    assert_eq!(w, full);
}

#[test]
fn remove_takes_first_entry_with_the_index() {
    let mut w = filled(4);
    w.add_pending_transaction(1, key(77), 0, key(1)).unwrap();
    assert_eq!(find_pending(&w.pending_transactions, 1), Some(1));
    assert_eq!(w.remove_pending_transaction(1), Ok(()));
    assert_eq!(
        w.pending_transactions,
        vec![
            entry(0),
            entry(2),
            entry(3),
            PendingTransactionInfo { index: 1, pubkey: key(77), created_at: 0, proposer: key(1) }
        ]
    );
    assert_eq!(w.pending_count, 4);
    assert_eq!(find_pending(&w.pending_transactions, 1), Some(3));
}

#[test]
fn remove_of_absent_index_is_refused() {
    let mut w = filled(3);
    let before = w.clone();
    assert_eq!(w.remove_pending_transaction(3), Err(MultisigError::TransactionNotFound));
    assert_eq!(w, before);
    let mut empty = wallet();
    assert_eq!(empty.remove_pending_transaction(0), Err(MultisigError::TransactionNotFound));
}

#[test]
fn list_returns_window_in_insertion_order() {
    let w = filled(10);
    assert_eq!(list(&w, 0, 3), Ok(vec![0, 1, 2]));
    assert_eq!(list(&w, 3, 3), Ok(vec![3, 4, 5]));
    assert_eq!(list(&w, 8, 3), Ok(vec![8, 9]));
    assert_eq!(list(&w, 9, 255), Ok(vec![9]));
    assert_eq!(list(&w, 0, 255), Ok((0..10).collect()));
    let ctx = GetPendingTransactions { wallet: w.clone() };
    assert_eq!(get_pending_transactions(&ctx, 4, 1), Ok(vec![entry(4)]));
}

#[test]
fn list_is_restartable() {
    let w = filled(7);
    let mut seen: Vec<u64> = Vec::new();
    let mut start = 0u64;
    while let Ok(page) = list(&w, start, 3) {
        start += page.len() as u64;
        seen.extend(page);
    }
    assert_eq!(seen, (0..7).collect::<Vec<u64>>());
}

#[test]
fn empty_window_is_reported_as_no_pending_transactions() {
    let w = filled(3);
    assert_eq!(list(&w, 3, 5), Err(MultisigError::NoPendingTransactions));
    assert_eq!(list(&w, u64::MAX, 5), Err(MultisigError::NoPendingTransactions));
    assert_eq!(list(&w, 0, 0), Err(MultisigError::NoPendingTransactions));
    assert_eq!(list(&wallet(), 0, 10), Err(MultisigError::NoPendingTransactions));
}
