use stake_token::account_management::{AccountError, AccountStorageBalance};
use stake_token::amounts::{BlockTimeHeight, StorageUsage, YoctoNear, YOCTO};
use stake_token::config::Config;
use stake_token::state::StakeTokenContract;

fn now() -> BlockTimeHeight {
    BlockTimeHeight::new(100, 1_000, 10)
}

fn key(n: u8) -> stake_token::hash::Hash {
    stake_token::hash::Hash::new([n; 32])
}

fn new_contract() -> StakeTokenContract {
    StakeTokenContract::new(Config::default(), StorageUsage(119), StorageUsage(1000), now())
}

/// a contract with account 1 registered through a storage deposit of the minimum balance
fn contract_with_registered_account() -> StakeTokenContract {
    let mut contract = new_contract();
    let min = contract.storage_minimum_balance().0;
    contract.storage_deposit(&key(1), min, now()).unwrap();
    contract
}

#[test]
fn account_id_not_registered_with_exact_deposit() {
    let mut contract = new_contract();
    let min = contract.storage_minimum_balance().0;
    let balance = contract.storage_deposit(&key(1), min, now()).unwrap();
    assert_eq!(balance.total.0, min);
    assert_eq!(balance.total.0, contract.total_account_storage_escrow.0);
    assert_eq!(balance.available.0, 0);
    assert!(contract.account_registered(&key(1)), "the initial deposit should have registered the account");
    assert_eq!(balance, contract.storage_balance_of(&key(1)));
}

#[test]
fn account_id_not_registered_with_extra_deposit() {
    let mut contract = new_contract();
    let min = contract.storage_minimum_balance().0;
    let attached_deposit = min * 3;
    let balance = contract.storage_deposit(&key(1), attached_deposit, now()).unwrap();
    assert_eq!(balance.total.0, attached_deposit);
    assert_eq!(balance.total.0, contract.total_account_storage_escrow.0);
    assert_eq!(balance.available.0, min * 2);
    assert!(contract.account_registered(&key(1)), "the initial deposit should have registered the account");
    assert_eq!(balance, contract.storage_balance_of(&key(1)));
}

#[test]
fn predecessor_account_id_not_registered_with_exact_deposit() {
    let mut contract = new_contract();
    let min = contract.storage_minimum_balance().0;
    let balance = contract.storage_deposit(&key(2), min, now()).unwrap();
    assert_eq!(balance.total.0, min);
    assert_eq!(balance.total.0, contract.total_account_storage_escrow.0);
    assert_eq!(balance.available.0, 0);
    assert!(contract.account_registered(&key(2)), "the initial deposit should have registered the account");
    assert_eq!(balance, contract.storage_balance_of(&key(2)));
}

#[test]
fn predecessor_account_id_not_registered_with_extra_deposit() {
    let mut contract = new_contract();
    let min = contract.storage_minimum_balance().0;
    let attached_deposit = min * 3;
    let balance = contract.storage_deposit(&key(2), attached_deposit, now()).unwrap();
    assert_eq!(balance.total.0, attached_deposit);
    assert_eq!(balance.total.0, contract.total_account_storage_escrow.0);
    assert_eq!(balance.available.0, min * 2);
    assert!(contract.account_registered(&key(2)), "the initial deposit should have registered the account");
    assert_eq!(balance, contract.storage_balance_of(&key(2)));
}

#[test]
fn account_id_registered_with_deposit() {
    let mut contract = contract_with_registered_account();
    let balance = contract.storage_deposit(&key(1), 1, now()).unwrap();
    assert_eq!(balance.available.0, 1);
    assert_eq!(contract.total_account_storage_escrow.0, contract.account_storage_fee().0 + 1);
    assert_eq!(balance, contract.storage_balance_of(&key(1)));
}

#[test]
fn predecessor_account_id_registered_with_deposit() {
    let mut contract = contract_with_registered_account();
    let balance = contract.storage_deposit(&key(1), 1, now()).unwrap();
    assert_eq!(balance.available.0, 1);
    assert_eq!(contract.total_account_storage_escrow.0, contract.account_storage_fee().0 + 1);
    assert_eq!(balance, contract.storage_balance_of(&key(1)));
}

#[test]
fn storage_deposit_refusals() {
    let mut contract = new_contract();
    let min = contract.storage_minimum_balance().0;
    assert_eq!(contract.storage_deposit(&key(1), 0, now()), Err(AccountError::AttachedDepositRequired));
    assert_eq!(contract.storage_deposit(&key(1), min - 1, now()), Err(AccountError::InsufficientStorageFee));
    assert!(!contract.account_registered(&key(1)));
    assert_eq!(contract.total_account_storage_escrow.0, 0);
}

#[test]
fn no_amount_specified_has_available_balance() {
    let mut contract = contract_with_registered_account();
    contract.storage_deposit(&key(1), YOCTO, now()).unwrap();
    let (balance, transfer) = contract.storage_withdraw(&key(1), 1, None, now()).unwrap();
    assert_eq!(balance.total, contract.storage_minimum_balance());
    assert_eq!(balance.available.0, 0);
    assert_eq!(transfer, YOCTO + 1);
}

#[test]
fn no_amount_specified_has_zero_available_balance() {
    let mut contract = contract_with_registered_account();
    let (balance, transfer) = contract.storage_withdraw(&key(1), 1, None, now()).unwrap();
    assert_eq!(balance.total, contract.storage_minimum_balance());
    assert_eq!(balance.available.0, 0);
    assert_eq!(transfer, 1);
}

#[test]
fn amount_less_than_available_balance() {
    let mut contract = contract_with_registered_account();
    contract.storage_deposit(&key(1), 300, now()).unwrap();
    let (balance, transfer) = contract.storage_withdraw(&key(1), 1, Some(YoctoNear(100)), now()).unwrap();
    assert_eq!(balance.available.0, 200);
    assert_eq!(transfer, 101);
}

#[test]
fn amount_matches_available_balance() {
    let mut contract = contract_with_registered_account();
    contract.storage_deposit(&key(1), 100, now()).unwrap();
    let (balance, transfer) = contract.storage_withdraw(&key(1), 1, Some(YoctoNear(100)), now()).unwrap();
    assert_eq!(balance.available.0, 0);
    assert_eq!(transfer, 101);
}

#[test]
fn storage_withdraw_refusals() {
    let mut contract = contract_with_registered_account();
    assert_eq!(
        contract.storage_withdraw(&key(1), 0, None, now()),
        Err(AccountError::ExactlyOneYoctoNearRequired)
    );
    assert_eq!(
        contract.storage_withdraw(&key(1), 1, Some(YoctoNear(0)), now()),
        Err(AccountError::ZeroWithdrawAmount)
    );
    assert_eq!(contract.storage_withdraw(&key(2), 1, None, now()), Err(AccountError::AccountNotRegistered));
    assert_eq!(
        contract.storage_withdraw(&key(1), 1, Some(YoctoNear(100)), now()),
        Err(AccountError::InsufficientStorageAvailableBalance)
    );
}

#[test]
fn storage_balance_of_unregistered_account_is_zero() {
    let contract = new_contract();
    assert_eq!(
        contract.storage_balance_of(&key(9)),
        AccountStorageBalance { total: YoctoNear(0), available: YoctoNear(0) }
    );
}
