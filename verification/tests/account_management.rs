use stake_token::account_management::AccountError;
use stake_token::amounts::{BlockTimeHeight, StorageUsage, YoctoNear, YoctoStake, YOCTO};
use stake_token::config::Config;
use stake_token::state::StakeTokenContract;

fn now() -> BlockTimeHeight {
    BlockTimeHeight::new(100, 1_000, 10)
}

fn key(n: u8) -> stake_token::hash::Hash {
    stake_token::hash::Hash::new([n; 32])
}

fn new_contract() -> StakeTokenContract {
    StakeTokenContract::new(Config::default(), StorageUsage(119), StorageUsage(1000), now())
}

#[test]
fn account_storage_fee_is_storage_usage_at_storage_cost() {
    let contract = new_contract();
    assert_eq!(contract.account_storage_fee(), YoctoNear(119 * 100_000_000_000_000_000_000));
}

#[test]
fn register_new_account_with_deposit_overpayment() {
    let mut contract = new_contract();
    assert!(!contract.account_registered(&key(1)), "account should not be registered");
    let refund = contract.register_account(&key(1), YOCTO, now()).unwrap();
    assert_eq!(refund, YOCTO - contract.account_storage_fee().0);
    assert_eq!(contract.total_registered_accounts(), 1, "There should be 1 account registered");
    let account = contract.accounts.get(&key(1)).unwrap();
    assert_eq!(account.storage_escrow.balance, contract.account_storage_fee());
}

#[test]
fn register_account_with_exact_storage_fee() {
    let mut contract = new_contract();
    let fee = contract.account_storage_fee().0;
    assert_eq!(contract.register_account(&key(1), fee, now()), Ok(0));
}

#[test]
fn register_account_refusals() {
    let mut contract = new_contract();
    assert_eq!(contract.register_account(&key(1), 0, now()), Err(AccountError::InsufficientStorageFee));
    assert_eq!(contract.register_account(&key(1), 1, now()), Err(AccountError::InsufficientStorageFee));
    contract.register_account(&key(1), YOCTO, now()).unwrap();
    assert_eq!(contract.register_account(&key(1), YOCTO, now()), Err(AccountError::AccountAlreadyRegistered));
    assert_eq!(contract.total_registered_accounts(), 1);
}

#[test]
fn unregister_registered_account_with_no_funds() {
    let mut contract = new_contract();
    contract.register_account(&key(1), YOCTO, now()).unwrap();
    let refund = contract.unregister_account(&key(1)).unwrap();
    assert!(!contract.account_registered(&key(1)));
    assert_eq!(refund, contract.account_storage_fee().0);
    assert_eq!(contract.total_registered_accounts(), 0);
}

#[test]
fn unregister_refusals() {
    let mut contract = new_contract();
    assert_eq!(contract.unregister_account(&key(1)), Err(AccountError::AccountNotRegistered));
    contract.register_account(&key(1), YOCTO, now()).unwrap();
    let mut account = contract.accounts.get(&key(1)).unwrap();
    account.apply_stake_credit(YoctoStake(1), now());
    contract.accounts.insert(&key(1), account);
    assert_eq!(contract.unregister_account(&key(1)), Err(AccountError::UnregisterRequiresZeroBalances));
    assert!(contract.account_registered(&key(1)));
}

#[test]
fn lookup_registered_account() {
    let mut contract = new_contract();
    contract.register_account(&key(1), YOCTO, now()).unwrap();
    contract.lookup_account(&key(1), now()).expect("account should be registered");
}

#[test]
fn lookup_unregistered_account() {
    let contract = new_contract();
    assert!(contract.lookup_account(&key(1), now()).is_none());
}

#[test]
fn register_then_unregister_refunds_the_whole_deposit() {
    let mut contract = new_contract();
    let deposit = 3 * YOCTO;
    let refund_on_register = contract.register_account(&key(1), deposit, now()).unwrap();
    let refund_on_unregister = contract.unregister_account(&key(1)).unwrap();
    assert_eq!(refund_on_register + refund_on_unregister, deposit);
    assert_eq!(contract.total_registered_accounts(), 0);
    assert!(!contract.account_registered(&key(1)));
}

#[test]
fn with_unclaimed_receipts() {
    let mut contract = new_contract();
    contract.register_account(&key(1), YOCTO, now()).unwrap();

    contract.deposit(&key(1), YoctoNear(10 * YOCTO), now());
    let batch = contract.stake_batch.unwrap();
    let receipt = stake_token::batch::StakeBatchReceipt::new(batch.balance().amount(), contract.stake_token_value);
    contract.stake_batch_receipts.insert(batch.id().0, receipt);
    contract.stake_batch = None;

    let mut account = contract.accounts.get(&key(1)).unwrap();
    account.apply_stake_credit(YoctoStake(2 * YOCTO), now());
    contract.accounts.insert(&key(1), account);
    contract.redeem(&key(1), YoctoStake(2 * YOCTO), now());

    let receipt = contract.redeem_stake_batch.unwrap().create_receipt(contract.stake_token_value);
    contract.redeem_stake_batch_receipts.insert(contract.batch_id_sequence.0, receipt);

    let account = contract.lookup_account(&key(1), now()).unwrap();
    assert!(account.stake_batch.is_none());
    assert!(account.redeem_stake_batch.is_none());
    assert_eq!(account.stake.unwrap().balance, YoctoStake(10 * YOCTO));
    assert_eq!(account.near.unwrap().balance, YoctoNear(2 * YOCTO));
}

#[test]
fn with_unclaimed_receipts_pending_withdrawal() {
    let mut contract = new_contract();
    contract.register_account(&key(1), YOCTO, now()).unwrap();

    let mut account = contract.accounts.get(&key(1)).unwrap();
    account.apply_stake_credit(YoctoStake(10 * YOCTO), now());
    contract.accounts.insert(&key(1), account);
    contract.redeem_all(&key(1), now());

    let batch = contract.redeem_stake_batch.unwrap();
    let receipt = batch.create_receipt(contract.stake_token_value);
    contract.redeem_stake_batch_receipts.insert(batch.id().0, receipt);
    contract.run_redeem_stake_batch_lock = Some(stake_token::batch::RedeemLock::PendingWithdrawal);

    let account = contract.lookup_account(&key(1), now()).unwrap();
    assert!(account.stake_batch.is_none());
    assert!(account.stake.is_none());
    assert!(account.near.is_none());
    account.redeem_stake_batch.unwrap().receipt.expect("receipt for pending withdrawal should be present");
}

#[test]
fn check_view_funcs() {
    let contract = new_contract();
    contract.account_storage_fee();
    contract.total_registered_accounts();
    assert!(contract.lookup_account(&key(1), now()).is_none());
}
