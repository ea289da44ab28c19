use piggy_bank::{
    piggy_init, piggy_insert, piggy_smash, smash_result, view_piggy, AccountAddress, Address,
    Amount, ContractAddress, PiggyBank, PiggyBankState, Reject, SmashError, Transfer,
};

fn owner() -> AccountAddress {
    AccountAddress([0u8; 32])
}

fn stranger() -> AccountAddress {
    AccountAddress([1u8; 32])
}

#[test]
fn test_init() {
    let state = piggy_init();
    assert_eq!(state, PiggyBankState::Intact);
}

#[test]
fn test_insert() {
    let amount = Amount::from_micro_ccd(100);
    let result = piggy_insert(&PiggyBankState::Intact, amount);
    assert!(result.is_ok(), "Inserting CCD results in error");
}

#[test]
fn test_smash() {
    let owner = owner();
    let sender = Address::Account(owner);
    let amount = Amount::from_micro_ccd(100);
    let mut state = PiggyBankState::Intact;
    let result = piggy_smash(&owner, &sender, &mut state, amount);
    assert_eq!(result, Ok(Transfer { to: owner, amount }));
    assert_eq!(state, PiggyBankState::Smashed);
    assert_eq!(smash_result(true), Ok(()));
}

#[test]
fn test_smash_if_not_owner() {
    let owner = owner();
    let sender = Address::Account(stranger());
    let mut state = PiggyBankState::Intact;
    let result = piggy_smash(&owner, &sender, &mut state, Amount::from_micro_ccd(100));
    assert_eq!(result, Err(SmashError::NotOwner));
    assert_eq!(state, PiggyBankState::Intact);
}

#[test]
fn insert_into_smashed_is_rejected() {
    let result = piggy_insert(&PiggyBankState::Smashed, Amount::from_micro_ccd(5));
    assert_eq!(result, Err(Reject));
}

#[test]
fn smash_of_smashed_by_owner_is_already_smashed() {
    let owner = owner();
    let mut state = PiggyBankState::Smashed;
    let result = piggy_smash(&owner, &Address::Account(owner), &mut state, Amount::zero());
    assert_eq!(result, Err(SmashError::AlreadySmashed));
    assert_eq!(state, PiggyBankState::Smashed);
}

#[test]
fn owner_check_comes_before_state_check() {
    let owner = owner();
    let mut state = PiggyBankState::Smashed;
    let result = piggy_smash(&owner, &Address::Account(stranger()), &mut state, Amount::zero());
    assert_eq!(result, Err(SmashError::NotOwner));
}

#[test]
fn contract_sender_is_not_owner() {
    let owner = owner();
    let sender = Address::Contract(ContractAddress { index: 0, subindex: 0 });
    let mut state = PiggyBankState::Intact;
    let result = piggy_smash(&owner, &sender, &mut state, Amount::from_micro_ccd(7));
    assert_eq!(result, Err(SmashError::NotOwner));
    assert_eq!(state, PiggyBankState::Intact);
}

#[test]
fn failed_transfer_is_transfer_error() {
    assert_eq!(smash_result(false), Err(SmashError::TransferError));
}

#[test]
fn view_reports_state_and_balance() {
    let amount = Amount::from_micro_ccd(42);
    assert_eq!(view_piggy(&PiggyBankState::Smashed, amount), (PiggyBankState::Smashed, amount));
}

#[test]
fn address_matching_compares_every_byte() {
    let mut last_differs = [0u8; 32];
    last_differs[31] = 9;
    assert!(Address::Account(owner()).matches_account(&owner()));
    assert!(!Address::Account(AccountAddress(last_differs)).matches_account(&owner()));
    assert!(AccountAddress([3u8; 32]) == AccountAddress([3u8; 32]));
    assert!(AccountAddress(last_differs) != owner());
}

#[test]
fn new_bank_views_intact_and_empty() {
    let bank = PiggyBank::new(owner());
    assert_eq!(bank.view_piggy(), (PiggyBankState::Intact, Amount::from_micro_ccd(0)));
    assert!(bank.transfers().is_empty());
    assert_eq!(bank.owner(), owner());
}

#[test]
fn deposit_then_view() {
    let mut bank = PiggyBank::new(owner());
    assert_eq!(bank.insert(Amount::from_micro_ccd(100)), Ok(()));
    assert_eq!(bank.view_piggy(), (PiggyBankState::Intact, Amount::from_micro_ccd(100)));
}

#[test]
fn deposits_add_up() {
    let mut bank = PiggyBank::new(owner());
    for a in [3u64, 0, 40, 1000] {
        let before = bank.self_balance().micro_ccd;
        assert_eq!(bank.insert(Amount::from_micro_ccd(a)), Ok(()));
        assert_eq!(bank.self_balance().micro_ccd, before + a);
    }
    assert_eq!(bank.self_balance(), Amount::from_micro_ccd(1043));
    assert_eq!(bank.state(), PiggyBankState::Intact);
}

#[test]
fn owner_smash_transfers_everything_once() {
    let mut bank = PiggyBank::new(owner());
    bank.insert(Amount::from_micro_ccd(100)).unwrap();
    assert_eq!(bank.smash(&Address::Account(owner())), Ok(()));
    assert_eq!(bank.view_piggy(), (PiggyBankState::Smashed, Amount::from_micro_ccd(0)));
    assert_eq!(bank.transfers(), &vec![(owner(), Amount::from_micro_ccd(100))]);
}

#[test]
fn non_owner_smash_changes_nothing() {
    let mut bank = PiggyBank::new(owner());
    bank.insert(Amount::from_micro_ccd(100)).unwrap();
    assert_eq!(bank.smash(&Address::Account(stranger())), Err(SmashError::NotOwner));
    assert_eq!(bank.view_piggy(), (PiggyBankState::Intact, Amount::from_micro_ccd(100)));
    assert!(bank.transfers().is_empty());
}

#[test]
fn empty_smash_then_second_smash_fails() {
    let mut bank = PiggyBank::new(owner());
    assert_eq!(bank.smash(&Address::Account(owner())), Ok(()));
    assert_eq!(bank.transfers(), &vec![(owner(), Amount::from_micro_ccd(0))]);
    assert_eq!(bank.state(), PiggyBankState::Smashed);
    assert_eq!(bank.smash(&Address::Account(owner())), Err(SmashError::AlreadySmashed));
    assert_eq!(bank.transfers().len(), 1);
    assert_eq!(bank.self_balance(), Amount::from_micro_ccd(0));
}

#[test]
fn second_smash_by_stranger_fails_without_transfer() {
    let mut bank = PiggyBank::new(owner());
    bank.insert(Amount::from_micro_ccd(8)).unwrap();
    bank.smash(&Address::Account(owner())).unwrap();
    assert_eq!(bank.smash(&Address::Account(stranger())), Err(SmashError::NotOwner));
    assert_eq!(bank.transfers().len(), 1);
    assert_eq!(bank.self_balance(), Amount::from_micro_ccd(0));
}

#[test]
fn deposit_after_smash_is_rejected() {
    let mut bank = PiggyBank::new(owner());
    bank.insert(Amount::from_micro_ccd(10)).unwrap();
    bank.smash(&Address::Account(owner())).unwrap();
    assert_eq!(bank.insert(Amount::from_micro_ccd(5)), Err(Reject));
    assert_eq!(bank.view_piggy(), (PiggyBankState::Smashed, Amount::from_micro_ccd(0)));
}

#[test]
fn failed_transfer_rolls_back_smash() {
    let mut bank = PiggyBank::new(owner());
    bank.insert(Amount::from_micro_ccd(100)).unwrap();
    bank.make_transfers_fail(true);
    assert_eq!(bank.smash(&Address::Account(owner())), Err(SmashError::TransferError));
    assert_eq!(bank.view_piggy(), (PiggyBankState::Intact, Amount::from_micro_ccd(100)));
    assert!(bank.transfers().is_empty());
    bank.make_transfers_fail(false);
    assert_eq!(bank.smash(&Address::Account(owner())), Ok(()));
    assert_eq!(bank.transfers(), &vec![(owner(), Amount::from_micro_ccd(100))]);
}

#[test]
fn repeated_views_agree() {
    let mut bank = PiggyBank::new(owner());
    bank.insert(Amount::from_micro_ccd(77)).unwrap();
    let first = bank.view_piggy();
    for _ in 0..5 {
        assert_eq!(bank.view_piggy(), first);
    }
    assert_eq!(first, (PiggyBankState::Intact, Amount::from_micro_ccd(77)));
}
