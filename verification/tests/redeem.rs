use stake_token::amounts::{BlockTimeHeight, StorageUsage, YoctoNear, YoctoStake, YOCTO};
use stake_token::batch::{RedeemLock, StakeBatchReceipt};
use stake_token::config::Config;
use stake_token::state::StakeTokenContract;

fn now() -> BlockTimeHeight {
    BlockTimeHeight::new(100, 1_000, 10)
}

fn key() -> stake_token::hash::Hash {
    stake_token::hash::Hash::new([1u8; 32])
}

fn contract_with_registered_account() -> StakeTokenContract {
    let mut contract = StakeTokenContract::new(Config::default(), StorageUsage(119), StorageUsage(1000), now());
    contract.register_account(&key(), YOCTO, now()).unwrap();
    contract
}

fn credit_stake(contract: &mut StakeTokenContract, amount: u128) {
    let mut account = contract.accounts.get(&key()).unwrap();
    account.apply_stake_credit(YoctoStake(amount), now());
    contract.accounts.insert(&key(), account);
}

#[test]
fn redeem_while_redeem_stake_batch_locked() {
    let mut contract = contract_with_registered_account();
    assert!(contract.redeem_stake_batch.is_none());
    assert!(contract.next_redeem_stake_batch.is_none());
    let initial_account_stake = 50 * YOCTO;
    credit_stake(&mut contract, initial_account_stake);
    let redeem_amount = 10 * YOCTO;
    let batch_id = contract.redeem(&key(), YoctoStake(redeem_amount), now());
    let batch = contract.redeem_stake_batch.expect("current stake batch should have funds");
    assert_eq!(batch_id, batch.batch_id);
    assert_eq!(redeem_amount, batch.balance.balance.0);
    let account = contract.lookup_account(&key(), now()).unwrap();
    assert_eq!(account.stake.unwrap().balance.0, initial_account_stake - redeem_amount);
    let redeem_stake_batch = account.redeem_stake_batch.unwrap();
    assert_eq!(redeem_stake_batch.batch.balance.balance.0, redeem_amount);
    assert_eq!(redeem_stake_batch.batch.batch_id, batch_id);

    contract.run_redeem_stake_batch_lock = Some(RedeemLock::Unstaking);
    let batch_id_2 = contract.redeem(&key(), YoctoStake(redeem_amount), now());
    let batch = contract.redeem_stake_batch.expect("current stake batch should have funds");
    assert_eq!(redeem_amount, batch.balance.balance.0);
    let account = contract.lookup_account(&key(), now()).unwrap();
    assert_eq!(account.stake.unwrap().balance.0, initial_account_stake - redeem_amount * 2);
    let redeem_stake_batch = account.redeem_stake_batch.unwrap();
    assert_eq!(redeem_stake_batch.batch.balance.balance.0, redeem_amount);
    assert_eq!(redeem_stake_batch.batch.batch_id, batch_id);
    let next_redeem_stake_batch = account.next_redeem_stake_batch.unwrap();
    assert_eq!(next_redeem_stake_batch.batch.balance.balance.0, redeem_amount);
    assert_eq!(next_redeem_stake_batch.batch.batch_id, batch_id_2);
}

#[test]
fn redeem_with_unclaimed_stake_batch_receipts() {
    let mut contract = contract_with_registered_account();
    contract.deposit(&key(), YoctoNear(5 * YOCTO), now());
    let batch = contract.stake_batch.unwrap();
    let receipt = StakeBatchReceipt::new(batch.balance.balance, contract.stake_token_value);
    contract.stake_batch_receipts.insert(batch.batch_id.0, receipt);
    contract.redeem(&key(), YoctoStake(2 * YOCTO), now());
    let account = contract.accounts.get(&key()).unwrap();
    assert_eq!(account.stake.unwrap().balance, YoctoStake(3 * YOCTO));
    assert_eq!(account.redeem_stake_batch.unwrap().balance.balance, YoctoStake(2 * YOCTO));
}

#[test]
fn redeem_all_with_unclaimed_stake_batch_receipts() {
    let mut contract = contract_with_registered_account();
    contract.deposit(&key(), YoctoNear(5 * YOCTO), now());
    let batch = contract.stake_batch.unwrap();
    let receipt = StakeBatchReceipt::new(batch.balance.balance, contract.stake_token_value);
    contract.stake_batch_receipts.insert(batch.batch_id.0, receipt);
    contract.redeem_all(&key(), now());
    let account = contract.accounts.get(&key()).unwrap();
    assert!(account.stake.is_none());
    assert_eq!(account.redeem_stake_batch.unwrap().balance.balance.0, batch.balance.balance.0);
}

fn redeem_all_with_lock(lock: RedeemLock) {
    let mut contract = contract_with_registered_account();
    assert!(contract.redeem_stake_batch.is_none());
    assert!(contract.next_redeem_stake_batch.is_none());
    let initial_account_stake = 50 * YOCTO;
    credit_stake(&mut contract, initial_account_stake);
    let batch_id = contract.redeem_all(&key(), now());
    contract.run_redeem_stake_batch_lock = Some(lock);
    let batch = contract.redeem_stake_batch.expect("next stake batch should have funds");
    assert_eq!(batch_id, batch.batch_id);
    assert_eq!(initial_account_stake, batch.balance.balance.0);
    let account = contract.lookup_account(&key(), now()).unwrap();
    assert!(account.stake.is_none());
    let redeem_stake_batch = account.redeem_stake_batch.expect("redeemed STAKE should have been put into batch");
    assert_eq!(redeem_stake_batch.batch.balance.balance.0, initial_account_stake);
    assert_eq!(redeem_stake_batch.batch.batch_id, batch_id);
}

#[test]
fn redeem_all_with_redeem_lock_unstaking() {
    redeem_all_with_lock(RedeemLock::Unstaking);
}

#[test]
fn redeem_all_with_redeem_lock_pending_withdrawal() {
    redeem_all_with_lock(RedeemLock::PendingWithdrawal);
}

#[test]
fn cancel_pending_redeem_stake_request_success_with_funds_remaining_in_batch() {
    let mut contract = contract_with_registered_account();
    let other = stake_token::hash::Hash::new([2u8; 32]);
    contract.register_account(&other, YOCTO, now()).unwrap();
    credit_stake(&mut contract, 10 * YOCTO);
    let mut account = contract.accounts.get(&other).unwrap();
    account.apply_stake_credit(YoctoStake(10 * YOCTO), now());
    contract.accounts.insert(&other, account);

    contract.redeem(&key(), YoctoStake(YOCTO), now());
    contract.redeem(&other, YoctoStake(2 * YOCTO), now());
    assert!(contract.cancel_uncommitted_redeem_stake_batch(&key(), now()));
    assert_eq!(contract.redeem_stake_batch.unwrap().balance.balance.0, 2 * YOCTO);
    let account = contract.lookup_account(&key(), now()).unwrap();
    assert_eq!(account.stake.unwrap().balance.0, 10 * YOCTO);
    assert!(account.redeem_stake_batch.is_none());
}

#[test]
fn cancel_pending_redeem_stake_request_while_locked_success() {
    let mut contract = contract_with_registered_account();
    credit_stake(&mut contract, 10 * YOCTO);
    contract.redeem(&key(), YoctoStake(YOCTO), now());
    contract.run_redeem_stake_batch_lock = Some(RedeemLock::Unstaking);
    contract.redeem(&key(), YoctoStake(2 * YOCTO), now());
    assert!(contract.cancel_uncommitted_redeem_stake_batch(&key(), now()));
    let account = contract.accounts.get(&key()).unwrap();
    assert_eq!(account.stake.unwrap().balance.0, 9 * YOCTO);
    assert!(account.next_redeem_stake_batch.is_none());
    assert_eq!(account.redeem_stake_batch.unwrap().balance.balance.0, YOCTO);
    assert!(contract.next_redeem_stake_batch.is_none());
}

#[test]
fn cancel_pending_redeem_stake_request_while_locked_no_next_batch_success() {
    let mut contract = contract_with_registered_account();
    credit_stake(&mut contract, 10 * YOCTO);
    contract.redeem(&key(), YoctoStake(YOCTO), now());
    contract.run_redeem_stake_batch_lock = Some(RedeemLock::Unstaking);
    assert!(!contract.cancel_uncommitted_redeem_stake_batch(&key(), now()));
    let account = contract.accounts.get(&key()).unwrap();
    assert_eq!(account.redeem_stake_batch.unwrap().balance.balance.0, YOCTO);
}
