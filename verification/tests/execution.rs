use anchor_lang::prelude::Pubkey;
use power_multisig::errors::MultisigError;
use power_multisig::instructions::{
    CreateMultisig, CreateMultisigArgs, CreateTransaction, CreateTransactionArgs,
    ExecuteTransaction, SignTransaction,
};
use power_multisig::multisig_wallet::{
    create_multisig, create_transaction, execute_transaction, prepare_execution, sign_transaction,
    transfer_lamports,
};
use power_multisig::state::payload::stamp_instructions;
use power_multisig::state::{
    MultisigWallet, OwnerInfo, Transaction, TransactionAccountMeta, TransactionInstruction,
    TransactionStatus,
};

fn key(n: u8) -> Pubkey {
    Pubkey::new_from_array([n; 32])
}

const WALLET: u8 = 100;

fn abc(threshold: u64) -> MultisigWallet {
    let ctx = CreateMultisig { base: key(200), bump: 254 };
    let args = CreateMultisigArgs {
        name: String::from("treasury"),
        min_weight_required: threshold,
        owners: vec![
            OwnerInfo { owner: key(1), weight: 2 },
            OwnerInfo { owner: key(2), weight: 3 },
            OwnerInfo { owner: key(3), weight: 5 },
        ],
    };
    create_multisig(&ctx, args).unwrap()
}

fn meta(n: u8, is_signer: bool, is_writable: bool) -> TransactionAccountMeta {
    TransactionAccountMeta { pubkey: key(n), is_signer, is_writable }
}

fn payload() -> Vec<TransactionInstruction> {
    vec![
        TransactionInstruction {
            program_id: key(60),
            accounts: vec![meta(WALLET, false, true), meta(50, false, true), meta(51, true, false)],
            data: vec![1, 2, 3],
        },
        TransactionInstruction {
            program_id: key(61),
            accounts: vec![meta(52, false, false), meta(WALLET, false, false)],
            data: vec![],
        },
    ]
}

fn propose(
    wallet: &mut MultisigWallet,
    proposer: u8,
    destination: u8,
    amount: u64,
    expires_at: Option<i64>,
) -> Transaction {
    let mut ctx = CreateTransaction {
        wallet: wallet.clone(),
        wallet_key: key(WALLET),
        transaction_key: key(150),
        transaction_bump: 3,
        proposer: key(proposer),
    };
    let args = CreateTransactionArgs {
        destination: key(destination),
        amount,
        instructions: payload(),
        expires_at,
    };
    let t = create_transaction(&mut ctx, args, 0).unwrap();
    *wallet = ctx.wallet;
    t
}

fn approve(wallet: &MultisigWallet, transaction: &mut Transaction, signer: u8) {
    let mut ctx = SignTransaction {
        wallet: wallet.clone(),
        transaction: transaction.clone(),
        owner: key(signer),
    };
    sign_transaction(&mut ctx, 1).unwrap();
    *transaction = ctx.transaction;
}

fn context(wallet: &MultisigWallet, transaction: &Transaction, executor: u8) -> ExecuteTransaction {
    ExecuteTransaction {
        wallet: wallet.clone(),
        wallet_key: key(WALLET),
        transaction: transaction.clone(),
        executor: key(executor),
    }
}

#[test]
fn execution_marks_executed_and_leaves_index() {
    let mut wallet = abc(5);
    let mut t = propose(&mut wallet, 1, 50, 300, None);
    approve(&wallet, &mut t, 2);
    let mut ctx = context(&wallet, &t, 2);
    assert_eq!(execute_transaction(&mut ctx, 77, true), Ok(()));
    assert_eq!(ctx.transaction.status, TransactionStatus::Executed);
    assert_eq!(ctx.transaction.executed_at, Some(77));
    assert_eq!(ctx.wallet.pending_count, 0);
    assert!(ctx.wallet.pending_transactions.is_empty());
    assert_eq!(ctx.transaction.approvals, t.approvals);
    assert_eq!(ctx.transaction.current_weight, 5);
    assert_eq!(ctx.transaction.amount, 300);
    assert!(ctx.transaction.is_well_formed());
    assert!(ctx.wallet.is_well_formed());
}

#[test]
fn execution_fails_one_unit_below_threshold_and_succeeds_at_threshold() {
    let mut wallet = abc(6);
    let mut t = propose(&mut wallet, 1, 50, 1, None);
    approve(&wallet, &mut t, 2);
    assert_eq!(t.current_weight, 5);
    let mut ctx = context(&wallet, &t, 1);
    let before = ctx.clone();
    assert_eq!(execute_transaction(&mut ctx, 2, true), Err(MultisigError::InsufficientSigners));
    assert_eq!(ctx, before);
    let mut exact = abc(7);
    let mut t = propose(&mut exact, 1, 50, 1, None);
    let mut ctx = context(&exact, &t, 1);
    assert_eq!(execute_transaction(&mut ctx, 2, true), Err(MultisigError::InsufficientSigners));
    approve(&exact, &mut t, 3);
    assert_eq!(t.current_weight, 7);
    let mut ctx = context(&exact, &t, 1);
    assert_eq!(execute_transaction(&mut ctx, 2, true), Ok(()));
}

#[test]
fn execution_goes_by_recorded_weight() {
    let mut wallet = abc(5);
    let mut t = propose(&mut wallet, 1, 50, 1, None);
    assert!(t.weight_is_consistent(&wallet));
    let mut ctx = context(&wallet, &t, 1);
    assert_eq!(execute_transaction(&mut ctx, 2, true), Err(MultisigError::InsufficientSigners));
    t.current_weight = 4;
    let mut ctx = context(&wallet, &t, 1);
    assert_eq!(execute_transaction(&mut ctx, 2, false), Err(MultisigError::InsufficientSigners));
    t.current_weight = 5;
    assert!(!t.weight_is_consistent(&wallet));
    let mut ctx = context(&wallet, &t, 1);
    assert_eq!(execute_transaction(&mut ctx, 2, true), Ok(()));
}

#[test]
fn failed_sub_operation_leaves_everything_as_it_was() {
    let mut wallet = abc(5);
    let mut t = propose(&mut wallet, 1, 50, 300, None);
    approve(&wallet, &mut t, 2);
    let mut ctx = context(&wallet, &t, 1);
    let plan = prepare_execution(&mut ctx, 2).unwrap();
    assert_eq!(plan.len(), 2);
    let balances_before = (1_000u64, 40u64);
    let mut balances = transfer_lamports(&ctx.transaction, &key(WALLET), 1_000, 40).unwrap();
    assert_eq!(balances, (700, 340));
    let mut performed: Vec<usize> = Vec::new();
    let mut all_performed = true;
    for (i, _sub_operation) in plan.iter().enumerate() {
        if i == 1 {
            all_performed = false;
            performed.clear();
            balances = balances_before;
            break;
        }
        performed.push(i);
    }
    let before = ctx.clone();
    assert_eq!(
        execute_transaction(&mut ctx, 2, all_performed),
        Err(MultisigError::ExecutionFailed)
    );
    assert!(performed.is_empty());
    assert_eq!(balances, (1_000, 40));
    assert_eq!(ctx, before);
    assert_eq!(ctx.transaction.status, TransactionStatus::Pending);
    assert_eq!(ctx.transaction.executed_at, None);
    assert_eq!(ctx.wallet.pending_count, 1);
    assert_eq!(ctx.wallet.pending_transactions[0].index, ctx.transaction.transaction_index);
    let mut again = SignTransaction {
        wallet: ctx.wallet.clone(),
        transaction: ctx.transaction.clone(),
        owner: key(3),
    };
    assert_eq!(sign_transaction(&mut again, 3), Ok(()));
    ctx.transaction = again.transaction;
    assert_eq!(execute_transaction(&mut ctx, 4, true), Ok(()));
    assert_eq!(ctx.transaction.executed_at, Some(4));
}

#[test]
fn plan_marks_references_to_the_wallet_as_signing() {
    let mut wallet = abc(2);
    let t = propose(&mut wallet, 1, 50, 1, None);
    let mut ctx = context(&wallet, &t, 1);
    let before = ctx.clone();
    let plan = prepare_execution(&mut ctx, 2).unwrap();
    assert_eq!(ctx, before);
    assert_eq!(
        plan,
        vec![
            TransactionInstruction {
                program_id: key(60),
                accounts: vec![meta(WALLET, true, true), meta(50, false, true), meta(51, true, false)],
                data: vec![1, 2, 3],
            },
            TransactionInstruction {
                program_id: key(61),
                accounts: vec![meta(52, false, false), meta(WALLET, true, false)],
                data: vec![],
            },
        ]
    );
    assert_eq!(ctx.transaction.instructions, payload());
    assert_eq!(stamp_instructions(&payload(), &key(52))[1].accounts[0], meta(52, true, false));
    assert_eq!(payload()[0].stamped(&key(99)), payload()[0]);
}

#[test]
fn second_execution_is_refused_as_already_executed() {
    let mut wallet = abc(5);
    let mut t = propose(&mut wallet, 3, 50, 1, None);
    approve(&wallet, &mut t, 1);
    let mut ctx = context(&wallet, &t, 3);
    assert_eq!(execute_transaction(&mut ctx, 2, true), Ok(()));
    let before = ctx.clone();
    assert_eq!(execute_transaction(&mut ctx, 3, true), Err(MultisigError::AlreadyExecuted));
    assert_eq!(prepare_execution(&mut ctx, 3), Err(MultisigError::AlreadyExecuted));
    assert_eq!(ctx, before);
}

#[test]
fn execution_after_configuration_change_is_refused() {
    let mut wallet = abc(5);
    let mut t = propose(&mut wallet, 3, 50, 1, None);
    approve(&wallet, &mut t, 1);
    wallet.change_threshold(1).unwrap();
    let mut ctx = context(&wallet, &t, 3);
    assert_eq!(execute_transaction(&mut ctx, 2, true), Err(MultisigError::OwnerSetChanged));
    assert_eq!(ctx.transaction.status, TransactionStatus::Pending);
}

#[test]
fn execution_needs_an_owner_who_approved() {
    let mut wallet = abc(5);
    let t = propose(&mut wallet, 3, 50, 1, None);
    let mut ctx = context(&wallet, &t, 9);
    assert_eq!(execute_transaction(&mut ctx, 2, true), Err(MultisigError::NotOwner));
    let mut ctx = context(&wallet, &t, 1);
    assert_eq!(execute_transaction(&mut ctx, 2, true), Err(MultisigError::Unauthorized));
    let mut ctx = context(&wallet, &t, 3);
    assert_eq!(execute_transaction(&mut ctx, 2, true), Ok(()));
}

#[test]
fn execution_after_expiry_marks_transaction_expired() {
    let mut wallet = abc(5);
    let t = propose(&mut wallet, 3, 50, 1, Some(10));
    let mut ctx = context(&wallet, &t, 3);
    assert_eq!(execute_transaction(&mut ctx, 11, true), Err(MultisigError::TransactionExpired));
    assert_eq!(ctx.transaction.status, TransactionStatus::Expired);
    assert_eq!(ctx.wallet.pending_count, 1);
    assert_eq!(execute_transaction(&mut ctx, 12, true), Err(MultisigError::InvalidTransactionState));
    assert_eq!(ctx.wallet.pending_count, 0);
    let t = propose(&mut wallet, 3, 50, 1, Some(10));
    let mut ctx = context(&wallet, &t, 3);
    assert_eq!(execute_transaction(&mut ctx, 10, true), Ok(()));
}

#[test]
fn transfer_moves_the_amount_between_the_balances() {
    let mut wallet = abc(5);
    let t = propose(&mut wallet, 3, 50, 300, None);
    assert_eq!(transfer_lamports(&t, &key(WALLET), 1_000, 40), Ok((700, 340)));
    assert_eq!(transfer_lamports(&t, &key(WALLET), 300, 0), Ok((0, 300)));
    let nothing = propose(&mut wallet, 3, 50, 0, None);
    assert_eq!(transfer_lamports(&nothing, &key(WALLET), 0, u64::MAX), Ok((0, u64::MAX)));
}

#[test]
fn transfer_without_funds_is_a_failed_sub_operation() {
    let mut wallet = abc(5);
    let t = propose(&mut wallet, 3, 50, 1_001, None);
    assert_eq!(transfer_lamports(&t, &key(WALLET), 1_000, 40), Err(MultisigError::ExecutionFailed));
    assert_eq!(transfer_lamports(&t, &key(WALLET), 1_001, 40), Ok((0, 1_041)));
    let mut ctx = context(&wallet, &t, 3);
    let before = ctx.clone();
    assert_eq!(execute_transaction(&mut ctx, 2, false), Err(MultisigError::ExecutionFailed));
    assert_eq!(ctx, before);
}

#[test]
fn transfer_that_would_overflow_destination_is_a_failed_sub_operation() {
    let mut wallet = abc(5);
    let t = propose(&mut wallet, 3, 50, 41, None);
    assert_eq!(
        transfer_lamports(&t, &key(WALLET), 1_000, u64::MAX - 40),
        Err(MultisigError::ExecutionFailed)
    );
    assert_eq!(
        transfer_lamports(&t, &key(WALLET), 1_000, u64::MAX - 41),
        Ok((959, u64::MAX))
    );
}

#[test]
fn wallet_paying_itself_keeps_its_balance() {
    let mut wallet = abc(5);
    let t = propose(&mut wallet, 3, WALLET, 600, None);
    assert_eq!(transfer_lamports(&t, &key(WALLET), 1_000, 1_000), Ok((1_000, 1_000)));
    assert_eq!(transfer_lamports(&t, &key(WALLET), u64::MAX, u64::MAX), Ok((u64::MAX, u64::MAX)));
    assert_eq!(transfer_lamports(&t, &key(WALLET), 599, 599), Err(MultisigError::ExecutionFailed));
    assert_eq!(transfer_lamports(&t, &key(99), 1_000, 1_000), Ok((400, 1_600)));
}

#[test]
fn execution_without_index_entry_is_refused() {
    let mut wallet = abc(5);
    let t = propose(&mut wallet, 3, 50, 1, None);
    wallet.remove_pending_transaction(t.transaction_index).unwrap();
    let mut ctx = context(&wallet, &t, 3);
    assert_eq!(prepare_execution(&mut ctx, 2), Err(MultisigError::TransactionNotFound));
    assert_eq!(execute_transaction(&mut ctx, 2, true), Err(MultisigError::TransactionNotFound));
    assert_eq!(execute_transaction(&mut ctx, 2, false), Err(MultisigError::ExecutionFailed));
    assert_eq!(ctx.transaction.status, TransactionStatus::Pending);
}

#[test]
fn scenario_two_of_three_by_weight() {
    let mut wallet = abc(5);
    let mut t = propose(&mut wallet, 1, 50, 10, None);
    assert_eq!(t.current_weight, 2);
    assert_eq!(t.status, TransactionStatus::Pending);
    approve(&wallet, &mut t, 2);
    assert_eq!(t.current_weight, 5);
    let mut ctx = context(&wallet, &t, 2);
    assert_eq!(execute_transaction(&mut ctx, 5, true), Ok(()));
    assert_eq!(ctx.transaction.status, TransactionStatus::Executed);
    assert_eq!(execute_transaction(&mut ctx, 6, true), Err(MultisigError::AlreadyExecuted));
    wallet = ctx.wallet;
    let t2 = propose(&mut wallet, 1, 50, 10, None);
    assert_eq!(t2.transaction_index, 1);
    wallet.change_threshold(4).unwrap();
    assert_eq!(wallet.owner_set_seqno, 1);
    let mut late = SignTransaction { wallet: wallet.clone(), transaction: t2.clone(), owner: key(2) };
    assert_eq!(sign_transaction(&mut late, 7), Err(MultisigError::OwnerSetChanged));
    assert_eq!(late.transaction, t2);
}
