use stake_token::amounts::{BatchId, BlockTimeHeight, EpochHeight, StorageUsage, YoctoNear, YoctoStake, YOCTO};
use stake_token::batch::RedeemLock;
use stake_token::config::Config;
use stake_token::staking::{BatchOutcome, UnstakeAction};
use stake_token::state::StakeTokenContract;
use stake_token::workflows::{PendingWithdrawalAction, StakeBatchAction, StakingPoolAccount, UnstakeRequest};

fn now() -> BlockTimeHeight {
    BlockTimeHeight::new(100, 1_000, 10)
}

fn key(n: u8) -> stake_token::hash::Hash {
    stake_token::hash::Hash::new([n; 32])
}

fn contract_with_registered_account() -> StakeTokenContract {
    let mut contract = StakeTokenContract::new(Config::default(), StorageUsage(119), StorageUsage(1000), now());
    contract.register_account(&key(1), 10 * YOCTO, now()).unwrap();
    contract
}

fn pool_account(staked: u128, unstaked: u128) -> StakingPoolAccount {
    StakingPoolAccount { unstaked_balance: YoctoNear(unstaked), staked_balance: YoctoNear(staked), can_withdraw: true }
}

#[test]
fn deposit_contract_not_locked() {
    let mut contract = contract_with_registered_account();
    let batch_id = contract.deposit(&key(1), YoctoNear(100 * YOCTO), now());
    let account = contract.lookup_account(&key(1), now()).unwrap();
    let stake_batch = account.stake_batch.unwrap();
    assert_eq!(stake_batch.balance.balance.0, 100 * YOCTO);
    assert_eq!(stake_batch.batch_id, batch_id);
    assert!(account.next_stake_batch.is_none());
    assert_eq!(contract.stake_batch.unwrap().balance.balance.0, 100 * YOCTO);
    assert!(contract.next_stake_batch.is_none());

    let batch_id_2 = contract.deposit(&key(1), YoctoNear(100 * YOCTO), now());
    assert_eq!(batch_id, batch_id_2);
    let account = contract.lookup_account(&key(1), now()).unwrap();
    let stake_batch = account.stake_batch.unwrap();
    assert_eq!(stake_batch.balance.balance.0, 100 * YOCTO * 2);
    assert_eq!(stake_batch.batch_id, batch_id);
    assert!(account.next_stake_batch.is_none());
    assert_eq!(contract.stake_batch.unwrap().balance.balance.0, 100 * YOCTO * 2);
    assert!(contract.next_stake_batch.is_none());
}

#[test]
fn deposit_contract_locked() {
    let mut contract = contract_with_registered_account();
    contract.run_stake_batch_locked = true;
    let batch_id = contract.deposit(&key(1), YoctoNear(100 * YOCTO), now());
    let account = contract.lookup_account(&key(1), now()).unwrap();
    assert!(account.stake_batch.is_none());
    let stake_batch = account.next_stake_batch.unwrap();
    assert_eq!(stake_batch.balance.balance.0, 100 * YOCTO);
    assert_eq!(stake_batch.batch_id, batch_id);
    assert_eq!(contract.next_stake_batch.unwrap().balance.balance.0, 100 * YOCTO);
    assert!(contract.stake_batch.is_none());
}

#[test]
fn deposit_contract_not_locked_and_then_locked() {
    let mut contract = contract_with_registered_account();
    let batch_id = contract.deposit(&key(1), YoctoNear(100 * YOCTO), now());
    let account = contract.lookup_account(&key(1), now()).unwrap();
    assert!(account.next_stake_batch.is_none());
    let stake_batch = account.stake_batch.unwrap();
    assert_eq!(stake_batch.balance.balance.0, 100 * YOCTO);
    assert_eq!(stake_batch.batch_id, batch_id);
    assert!(contract.next_stake_batch.is_none());
    assert_eq!(contract.stake_batch.unwrap().balance.balance.0, 100 * YOCTO);

    contract.run_stake_batch_locked = true;
    let next_batch_id = contract.deposit(&key(1), YoctoNear(50 * YOCTO), now());
    let account = contract.lookup_account(&key(1), now()).unwrap();
    assert_eq!(account.stake_batch.unwrap().batch_id, batch_id);
    let next_stake_batch = account.next_stake_batch.unwrap();
    assert_eq!(next_stake_batch.balance.balance.0, 50 * YOCTO);
    assert_eq!(next_stake_batch.batch_id, next_batch_id);
    assert_eq!(contract.stake_batch.unwrap().batch_id, batch_id);
    assert_eq!(contract.next_stake_batch.unwrap().batch_id, next_batch_id);
}

#[test]
fn deposit_and_stake_contract_when_stake_batch_in_progress() {
    let mut contract = contract_with_registered_account();
    contract.run_stake_batch_locked = true;
    let outcome = contract.deposit_and_stake(&key(1), YoctoNear(100 * YOCTO), now());
    assert_eq!(outcome, BatchOutcome::Batched(contract.next_stake_batch.unwrap().batch_id));
}

#[test]
fn deposit_and_stake_contract_when_redeem_stake_batch_in_progress_unstaking() {
    let mut contract = contract_with_registered_account();
    contract.run_redeem_stake_batch_lock = Some(RedeemLock::Unstaking);
    let outcome = contract.deposit_and_stake(&key(1), YoctoNear(100 * YOCTO), now());
    assert_eq!(outcome, BatchOutcome::Batched(contract.stake_batch.unwrap().batch_id));
}

#[test]
fn deposit_and_stake_success() {
    let mut contract = contract_with_registered_account();
    let outcome = contract.deposit_and_stake(&key(1), YoctoNear(100 * YOCTO), now());
    assert_eq!(outcome, BatchOutcome::Running);
    assert!(contract.run_stake_batch_locked);
}

#[test]
fn stake_workflow_success() {
    let mut contract = contract_with_registered_account();
    let batch_id = contract.deposit(&key(1), YoctoNear(100 * YOCTO), now());
    assert_eq!(batch_id, BatchId(1));
    contract.stake();
    assert!(contract.run_stake_batch_locked);

    let action = contract.on_run_stake_batch(&pool_account(0, 0));
    assert_eq!(action, StakeBatchAction::DepositAndStake(YoctoNear(100 * YOCTO)));

    contract.on_deposit_and_stake(None, &pool_account(100 * YOCTO, 0), now());
    contract.release_run_stake_batch_lock();
    assert!(!contract.run_stake_batch_locked);
    let receipt = contract.stake_batch_receipt(batch_id).expect("receipt should have been created");
    assert_eq!(receipt.staked_near.0, 100 * YOCTO);
    assert_eq!(contract.total_stake.balance.0, 100 * YOCTO);
    assert!(contract.stake_batch.is_none());
    // the STAKE is claimable on the receipt
    assert_eq!(contract.ft_balance_of(&key(1), now()).0, 100 * YOCTO);
}

fn staked_contract() -> StakeTokenContract {
    let mut contract = contract_with_registered_account();
    contract.deposit(&key(1), YoctoNear(100 * YOCTO), now());
    contract.stake();
    contract.on_run_stake_batch(&pool_account(0, 0));
    contract.on_deposit_and_stake(None, &pool_account(100 * YOCTO, 0), now());
    contract.release_run_stake_batch_lock();
    contract
}

#[test]
fn redeem_no_locks() {
    let mut contract = staked_contract();
    let batch_id = contract.redeem(&key(1), YoctoStake(50 * YOCTO), now());
    let account = contract.lookup_account(&key(1), now()).unwrap();
    assert_eq!(account.stake.unwrap().balance.0, 50 * YOCTO);
    let redeem_stake_batch = account.redeem_stake_batch.unwrap();
    assert_eq!(redeem_stake_batch.batch.balance.balance.0, 50 * YOCTO);
    assert_eq!(redeem_stake_batch.batch.batch_id, batch_id);
    assert_eq!(contract.redeem_stake_batch.unwrap().balance.balance.0, 50 * YOCTO);
}

#[test]
fn redeem_workflow_success() {
    let mut contract = staked_contract();
    let batch_id = contract.redeem(&key(1), YoctoStake(50 * YOCTO), now());
    assert!(contract.can_unstake(EpochHeight(10)));
    assert_eq!(contract.unstake(EpochHeight(10)), UnstakeAction::RunRedeemStakeBatch);
    assert_eq!(contract.run_redeem_stake_batch_lock, Some(RedeemLock::Unstaking));

    let request = contract.on_run_redeem_stake_batch(&pool_account(100 * YOCTO, 0), now());
    assert_eq!(request, UnstakeRequest::Unstake(YoctoNear(50 * YOCTO)));
    contract.on_unstake(now());
    assert_eq!(contract.total_stake.balance.0, 50 * YOCTO);
    assert_eq!(contract.run_redeem_stake_batch_lock, Some(RedeemLock::PendingWithdrawal));
    assert!(contract.redeem_stake_batch_receipt(batch_id).is_some());

    // the pending withdrawal lock is not released
    contract.release_run_redeem_stake_batch_unstaking_lock();
    assert_eq!(contract.run_redeem_stake_batch_lock, Some(RedeemLock::PendingWithdrawal));

    // the unstaked NEAR was already withdrawn from the staking pool
    let action = contract.on_redeeming_stake_pending_withdrawal(&pool_account(50 * YOCTO, 0), now());
    assert_eq!(action, PendingWithdrawalAction::Finalized(batch_id));
    assert_eq!(contract.run_redeem_stake_batch_lock, None);
    assert_eq!(contract.total_near.balance.0, 50 * YOCTO);
}

#[test]
fn release_run_redeem_stake_batch_unstaking_lock_with_unstaking_lock() {
    let mut contract = contract_with_registered_account();
    contract.run_redeem_stake_batch_lock = Some(RedeemLock::Unstaking);
    contract.release_run_redeem_stake_batch_unstaking_lock();
    assert!(contract.run_redeem_stake_batch_lock.is_none());
}

#[test]
fn release_run_redeem_stake_batch_unstaking_lock_invoked_by_operator() {
    let mut contract = contract_with_registered_account();
    contract.run_redeem_stake_batch_lock = Some(RedeemLock::Unstaking);
    contract.release_run_redeem_stake_batch_unstaking_lock();
    assert!(contract.run_redeem_stake_batch_lock.is_none());
}

#[test]
fn withdraw_funds_from_stake_batch_success() {
    let mut contract = contract_with_registered_account();
    contract.deposit(&key(1), YoctoNear(10 * YOCTO), now());
    let withdrawn = contract.withdraw_funds_from_stake_batch(&key(1), YoctoNear(YOCTO), now());
    assert_eq!(withdrawn.0, YOCTO);
    let account = contract.lookup_account(&key(1), now()).unwrap();
    assert_eq!(account.stake_batch.unwrap().balance.balance.0, 9 * YOCTO);
    assert_eq!(contract.stake_batch.unwrap().balance.balance.0, 9 * YOCTO);
}

#[test]
fn withdraw_funds_from_stake_batch_all_funds_success() {
    let mut contract = contract_with_registered_account();
    contract.deposit(&key(1), YoctoNear(10 * YOCTO), now());
    contract.withdraw_funds_from_stake_batch(&key(1), YoctoNear(10 * YOCTO), now());
    let account = contract.lookup_account(&key(1), now()).unwrap();
    assert!(account.stake_batch.is_none());
    assert!(contract.stake_batch.is_none());
}

#[test]
fn withdraw_all_funds_from_stake_batch_success() {
    let mut contract = contract_with_registered_account();
    contract.deposit(&key(1), YoctoNear(10 * YOCTO), now());
    let withdrawn = contract.withdraw_all_funds_from_stake_batch(&key(1), now());
    assert_eq!(withdrawn.0, 10 * YOCTO);
    let account = contract.lookup_account(&key(1), now()).unwrap();
    assert!(account.stake_batch.is_none());
    assert!(contract.stake_batch.is_none());
}

#[test]
fn withdraw_all_funds_from_stake_batch_while_stake_batch_run_locked_success() {
    let mut contract = contract_with_registered_account();
    contract.deposit(&key(1), YoctoNear(10 * YOCTO), now());
    contract.run_stake_batch_locked = true;
    contract.deposit(&key(1), YoctoNear(15 * YOCTO), now());
    let withdrawn = contract.withdraw_all_funds_from_stake_batch(&key(1), now());
    assert_eq!(withdrawn.0, 15 * YOCTO);
    let account = contract.lookup_account(&key(1), now()).unwrap();
    assert!(account.next_stake_batch.is_none());
    assert_eq!(account.stake_batch.unwrap().balance.balance.0, 10 * YOCTO);
    assert!(contract.next_stake_batch.is_none());
}

#[test]
fn cancel_pending_redeem_stake_request_success() {
    let mut contract = staked_contract();
    contract.redeem(&key(1), YoctoStake(10 * YOCTO), now());
    assert!(contract.cancel_uncommitted_redeem_stake_batch(&key(1), now()));
    let account = contract.lookup_account(&key(1), now()).unwrap();
    assert_eq!(account.stake.unwrap().balance.0, 100 * YOCTO);
    assert!(account.redeem_stake_batch.is_none());
    assert!(contract.redeem_stake_batch.is_none());
}

#[test]
fn cancel_pending_redeem_stake_request_no_batches_success() {
    let mut contract = staked_contract();
    assert!(!contract.cancel_uncommitted_redeem_stake_batch(&key(1), now()));
}

#[test]
fn stake_batch_receipt_lookups() {
    let contract = staked_contract();
    assert!(contract.stake_batch_receipt(BatchId(1)).is_some());
    assert!(contract.stake_batch_receipt(BatchId(2)).is_none());
    assert!(contract.redeem_stake_batch_receipt(BatchId(1)).is_none());
}
