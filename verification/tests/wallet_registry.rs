use anchor_lang::prelude::Pubkey;
use power_multisig::constants::MAX_SIGNERS;
use power_multisig::errors::MultisigError;
use power_multisig::instructions::{CreateMultisig, CreateMultisigArgs};
use power_multisig::multisig_wallet::create_multisig;
use power_multisig::state::owner::{check_owner_set, find_position, sum_weights};
use power_multisig::state::{MultisigWallet, OwnerInfo};

fn key(n: u8) -> Pubkey {
    Pubkey::new_from_array([n; 32])
}

fn owner(n: u8, weight: u64) -> OwnerInfo {
    OwnerInfo { owner: key(n), weight }
}

fn create(owners: Vec<OwnerInfo>, threshold: u64) -> Result<MultisigWallet, MultisigError> {
    let ctx = CreateMultisig { base: key(200), bump: 254 };
    let args = CreateMultisigArgs {
        name: String::from("treasury"),
        min_weight_required: threshold,
        owners,
    };
    create_multisig(&ctx, args)
}

fn abc() -> MultisigWallet {
    create(vec![owner(1, 2), owner(2, 3), owner(3, 5)], 5).unwrap()
}

#[test]
fn create_initialises_every_field() {
    let wallet = abc();
    assert_eq!(wallet.base, key(200));
    assert_eq!(wallet.bump, 254);
    assert_eq!(wallet.name, "treasury");
    assert_eq!(wallet.min_weight_required, 5);
    assert_eq!(wallet.total_weight, 10);
    assert_eq!(wallet.owner_set_seqno, 0);
    assert_eq!(wallet.owners, vec![owner(1, 2), owner(2, 3), owner(3, 5)]);
    assert_eq!(wallet.num_owners, 3);
    assert_eq!(wallet.transaction_count, 0);
    assert_eq!(wallet.pending_count, 0);
    assert!(wallet.pending_transactions.is_empty());
    assert!(wallet.is_well_formed());
}

#[test]
fn create_rejects_empty_owner_set() {
    assert_eq!(create(vec![], 1), Err(MultisigError::NoOwners));
}

#[test]
fn create_rejects_more_than_max_signers() {
    let owners: Vec<OwnerInfo> = (0..=MAX_SIGNERS as u8).map(|n| owner(n, 1)).collect();
    assert_eq!(owners.len(), 33);
    assert_eq!(create(owners, 1), Err(MultisigError::TooManyOwners));
}

#[test]
fn create_accepts_exactly_max_signers() {
    let owners: Vec<OwnerInfo> = (0..MAX_SIGNERS as u8).map(|n| owner(n, 1)).collect();
    let wallet = create(owners, 32).unwrap();
    assert_eq!(wallet.num_owners, 32);
    assert_eq!(wallet.total_weight, 32);
}

#[test]
fn create_rejects_zero_weight() {
    assert_eq!(create(vec![owner(1, 2), owner(2, 0)], 1), Err(MultisigError::InvalidOwnerWeight));
}

#[test]
fn create_rejects_duplicate_identity() {
    assert_eq!(
        create(vec![owner(1, 2), owner(2, 3), owner(1, 4)], 1),
        Err(MultisigError::DuplicateOwner)
    );
}

#[test]
fn create_rejects_zero_threshold() {
    assert_eq!(create(vec![owner(1, 2)], 0), Err(MultisigError::InvalidThreshold));
}

#[test]
fn create_rejects_threshold_above_total_weight() {
    assert_eq!(create(vec![owner(1, 2), owner(2, 3)], 6), Err(MultisigError::ThresholdTooHigh));
    assert!(create(vec![owner(1, 2), owner(2, 3)], 5).is_ok());
}

#[test]
fn create_rejects_total_weight_that_overflows() {
    assert_eq!(
        create(vec![owner(1, u64::MAX), owner(2, 1)], 1),
        Err(MultisigError::ArithmeticOverflow)
    );
    let wallet = create(vec![owner(1, u64::MAX - 1), owner(2, 1)], u64::MAX).unwrap();
    assert_eq!(wallet.total_weight, u64::MAX);
}

#[test]
fn create_reports_owner_faults_before_threshold_faults() {
    assert_eq!(create(vec![], 0), Err(MultisigError::NoOwners));
    assert_eq!(create(vec![owner(1, 0), owner(1, 0)], 0), Err(MultisigError::InvalidOwnerWeight));
    assert_eq!(create(vec![owner(1, 1), owner(1, 1)], 0), Err(MultisigError::DuplicateOwner));
}

#[test]
fn owner_set_checks_and_sums() {
    let owners = vec![owner(1, 2), owner(2, 3), owner(3, 5)];
    assert_eq!(check_owner_set(&owners), Ok(()));
    assert_eq!(sum_weights(&owners), 10);
    assert_eq!(sum_weights(&vec![owner(1, u64::MAX), owner(2, u64::MAX)]), 2 * (u64::MAX as u128));
    assert_eq!(find_position(&owners, &key(3)), Some(2));
    assert_eq!(find_position(&owners, &key(4)), None);
}

#[test]
fn find_owner_returns_first_entry_with_the_identity() {
    let wallet = abc();
    assert_eq!(wallet.find_owner(&key(2)), Some(&owner(2, 3)));
    assert_eq!(wallet.find_owner(&key(9)), None);
    assert_eq!(wallet.validate_owner(&key(3)), Ok(&owner(3, 5)));
    assert_eq!(wallet.validate_owner(&key(9)), Err(MultisigError::OwnerNotFound));
}

#[test]
fn keys_that_differ_in_one_byte_are_different_owners() {
    let mut bytes = [7u8; 32];
    let a = Pubkey::new_from_array(bytes);
    bytes[31] = 8;
    let b = Pubkey::new_from_array(bytes);
    let wallet = create(vec![OwnerInfo { owner: a, weight: 1 }, OwnerInfo { owner: b, weight: 4 }], 1)
        .unwrap();
    assert_eq!(wallet.find_owner(&b).unwrap().weight, 4);
    assert_eq!(wallet.find_owner(&a).unwrap().weight, 1);
}

#[test]
fn change_threshold_bumps_version() {
    let mut wallet = abc();
    assert_eq!(wallet.change_threshold(10), Ok(()));
    assert_eq!(wallet.min_weight_required, 10);
    assert_eq!(wallet.owner_set_seqno, 1);
    assert_eq!(wallet.total_weight, 10);
    assert!(wallet.is_well_formed());
}

#[test]
fn change_threshold_rejects_without_change() {
    let mut wallet = abc();
    let before = wallet.clone();
    assert_eq!(wallet.change_threshold(0), Err(MultisigError::InvalidThreshold));
    assert_eq!(wallet, before);
    assert_eq!(wallet.change_threshold(11), Err(MultisigError::ThresholdTooHigh));
    assert_eq!(wallet, before);
    wallet.owner_set_seqno = u32::MAX;
    assert_eq!(wallet.change_threshold(4), Err(MultisigError::ArithmeticOverflow));
    assert_eq!(wallet.min_weight_required, 5);
    assert_eq!(wallet.owner_set_seqno, u32::MAX);
}

#[test]
fn change_owner_weight_recomputes_total() {
    let mut wallet = abc();
    assert_eq!(wallet.change_owner_weight(&key(2), 10), Ok(()));
    assert_eq!(wallet.owners, vec![owner(1, 2), owner(2, 10), owner(3, 5)]);
    assert_eq!(wallet.total_weight, 17);
    assert_eq!(wallet.owner_set_seqno, 1);
    assert_eq!(wallet.min_weight_required, 5);
    assert!(wallet.is_well_formed());
}

#[test]
fn change_owner_weight_rejects_without_change() {
    let mut wallet = abc();
    let before = wallet.clone();
    assert_eq!(wallet.change_owner_weight(&key(9), 1), Err(MultisigError::OwnerNotFound));
    assert_eq!(wallet.change_owner_weight(&key(1), 0), Err(MultisigError::InvalidOwnerWeight));
    assert_eq!(
        wallet.change_owner_weight(&key(1), u64::MAX),
        Err(MultisigError::ArithmeticOverflow)
    );
    assert_eq!(wallet, before);
    let mut tight = create(vec![owner(1, 2), owner(2, 3)], 5).unwrap();
    assert_eq!(tight.change_owner_weight(&key(2), 2), Err(MultisigError::ThresholdTooHigh));
    assert_eq!(tight.total_weight, 5);
    assert_eq!(tight.owner_set_seqno, 0);
    assert_eq!(tight.change_owner_weight(&key(2), 4), Ok(()));
    assert_eq!(tight.total_weight, 6);
}

#[test]
fn replace_owner_set_may_change_members() {
    let mut wallet = abc();
    assert_eq!(wallet.replace_owner_set(vec![owner(7, 4), owner(8, 1)]), Ok(()));
    assert_eq!(wallet.owners, vec![owner(7, 4), owner(8, 1)]);
    assert_eq!(wallet.num_owners, 2);
    assert_eq!(wallet.total_weight, 5);
    assert_eq!(wallet.owner_set_seqno, 1);
    assert!(wallet.is_well_formed());
}

#[test]
fn replace_owner_set_rejects_without_change() {
    let mut wallet = abc();
    let before = wallet.clone();
    assert_eq!(wallet.replace_owner_set(vec![]), Err(MultisigError::NoOwners));
    assert_eq!(
        wallet.replace_owner_set((0..33u8).map(|n| owner(n, 1)).collect()),
        Err(MultisigError::TooManyOwners)
    );
    assert_eq!(
        wallet.replace_owner_set(vec![owner(1, 9), owner(2, 0)]),
        Err(MultisigError::InvalidOwnerWeight)
    );
    assert_eq!(
        wallet.replace_owner_set(vec![owner(1, 9), owner(1, 9)]),
        Err(MultisigError::DuplicateOwner)
    );
    assert_eq!(
        wallet.replace_owner_set(vec![owner(1, u64::MAX), owner(2, 9)]),
        Err(MultisigError::ArithmeticOverflow)
    );
    assert_eq!(
        wallet.replace_owner_set(vec![owner(1, 2), owner(2, 2)]),
        Err(MultisigError::ThresholdTooHigh)
    );
    assert_eq!(wallet, before);
}

#[test]
fn threshold_stays_within_total_weight_through_mutations() {
    let mut wallet = abc();
    let steps: [fn(&mut MultisigWallet) -> Result<(), MultisigError>; 6] = [
        |w| w.change_threshold(10),
        |w| w.change_owner_weight(&Pubkey::new_from_array([1; 32]), 1),
        |w| w.change_owner_weight(&Pubkey::new_from_array([3; 32]), 6),
        |w| w.change_threshold(1),
        |w| w.replace_owner_set(vec![OwnerInfo { owner: Pubkey::new_from_array([5; 32]), weight: 1 }]),
        |w| w.change_threshold(2),
    ];
    for step in steps {
        let _ = step(&mut wallet);
        assert!(0 < wallet.min_weight_required);
        assert!(wallet.min_weight_required <= wallet.total_weight);
        assert_eq!(wallet.total_weight as u128, sum_weights(&wallet.owners));
        assert!(wallet.is_well_formed());
    }
    assert_eq!(wallet.owner_set_seqno, 4);
}

#[test]
fn ill_formed_wallets_are_recognised() {
    let mut wallet = abc();
    wallet.total_weight = 11;
    assert!(!wallet.is_well_formed());
    let mut wallet = abc();
    wallet.min_weight_required = 0;
    assert!(!wallet.is_well_formed());
    let mut wallet = abc();
    wallet.num_owners = 2;
    assert!(!wallet.is_well_formed());
    let mut wallet = abc();
    wallet.pending_count = 1;
    assert!(!wallet.is_well_formed());
    let mut wallet = abc();
    wallet.owners.push(owner(1, 1));
    wallet.num_owners = 4;
    wallet.total_weight = 11;
    assert!(!wallet.is_well_formed());
}
