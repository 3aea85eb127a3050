use stake_token::amounts::{BatchId, BlockTimeHeight, EpochHeight, StorageUsage, YoctoNear, YoctoStake, YOCTO};
use stake_token::batch::{RedeemLock, RedeemStakeBatch, RedeemStakeBatchReceipt, StakeBatch, StakeBatchReceipt};
use stake_token::config::Config;
use stake_token::staking::{BatchOutcome, UnstakeAction};
use stake_token::state::StakeTokenContract;

fn now() -> BlockTimeHeight {
    BlockTimeHeight::new(100, 1_000, 10)
}

fn key() -> stake_token::hash::Hash {
    stake_token::hash::Hash::new([1u8; 32])
}

fn new_contract() -> StakeTokenContract {
    StakeTokenContract::new(Config::default(), StorageUsage(119), StorageUsage(1000), now())
}

fn contract_with_registered_account() -> StakeTokenContract {
    let mut contract = new_contract();
    contract.register_account(&key(), YOCTO, now()).unwrap();
    contract
}

fn credit_stake(contract: &mut StakeTokenContract, amount: u128) {
    let mut account = contract.accounts.get(&key()).unwrap();
    account.stake = Some(stake_token::balance::TimestampedStakeBalance::new(YoctoStake(amount), now()));
    contract.accounts.insert(&key(), account);
}

fn redeem_receipt(contract: &StakeTokenContract, amount: u128) -> RedeemStakeBatchReceipt {
    RedeemStakeBatchReceipt::new(YoctoStake(amount), contract.stake_token_value)
}

#[test]
fn stake_contract_when_redeem_status_pending_withdrawal() {
    let mut contract = contract_with_registered_account();
    contract.deposit(&key(), YoctoNear(YOCTO), now());
    contract.run_redeem_stake_batch_lock = Some(RedeemLock::PendingWithdrawal);
    assert!(contract.can_run_batch());
    contract.stake();
    assert!(contract.run_stake_batch_locked);
}

#[test]
fn deposit_and_stake_contract_when_redeem_status_pending_withdrawal() {
    let mut contract = new_contract();
    contract.run_redeem_stake_batch_lock = Some(RedeemLock::PendingWithdrawal);
    contract.batch_id_sequence = BatchId(contract.batch_id_sequence.0 + 1);
    contract.redeem_stake_batch = Some(RedeemStakeBatch::new(contract.batch_id_sequence, YoctoStake(YOCTO), now()));
    contract.register_account(&key(), YOCTO, now()).unwrap();
    let outcome = contract.deposit_and_stake(&key(), YoctoNear(YOCTO), now());
    assert_eq!(outcome, BatchOutcome::Running);
    assert!(contract.run_stake_batch_locked);
}

#[test]
fn stake_token_value_is_current() {
    let mut contract = new_contract();
    contract.total_stake.credit(YoctoStake(YOCTO), now());
    contract.stake_token_value =
        stake_token::stake_token_value::StakeTokenValue::new(BlockTimeHeight::default(), YoctoNear(YOCTO), YoctoStake(YOCTO));
    assert_eq!(contract.stake_token_value.total_stake_supply(), contract.total_stake.amount());
    assert_eq!(contract.stake_token_value.total_staked_near_balance(), YoctoNear(YOCTO));
}

#[test]
fn stake_success() {
    let mut contract = contract_with_registered_account();
    contract.deposit(&key(), YoctoNear(YOCTO), now());
    assert!(contract.can_run_batch());
    contract.stake();
    assert!(contract.run_stake_batch_locked);
}

#[test]
fn unstake_no_locks() {
    let mut contract = new_contract();
    contract.batch_id_sequence = BatchId(contract.batch_id_sequence.0 + 1);
    contract.redeem_stake_batch = Some(RedeemStakeBatch::new(contract.batch_id_sequence, YoctoStake(10 * YOCTO), now()));
    assert!(contract.can_unstake(now().epoch_height));
    assert_eq!(contract.unstake(now().epoch_height), UnstakeAction::RunRedeemStakeBatch);
    assert_eq!(contract.run_redeem_stake_batch_lock, Some(RedeemLock::Unstaking));
}

#[test]
fn redeem_and_unstake_no_locks() {
    let mut contract = contract_with_registered_account();
    credit_stake(&mut contract, 100 * YOCTO);
    let outcome = contract.redeem_and_unstake(&key(), YoctoStake(10 * YOCTO), now(), now().epoch_height);
    assert_eq!(outcome, BatchOutcome::Running);
    assert_eq!(contract.run_redeem_stake_batch_lock, Some(RedeemLock::Unstaking));
}

#[test]
fn redeem_and_unstake_locked_for_staking() {
    let mut contract = new_contract();
    contract.run_stake_batch_locked = true;
    contract.register_account(&key(), YOCTO, now()).unwrap();
    credit_stake(&mut contract, 100 * YOCTO);
    let outcome = contract.redeem_and_unstake(&key(), YoctoStake(10 * YOCTO), now(), now().epoch_height);
    assert_eq!(outcome, BatchOutcome::Batched(contract.redeem_stake_batch.unwrap().id()));
}

#[test]
fn redeem_and_unstake_locked_for_unstaking() {
    let mut contract = new_contract();
    contract.run_redeem_stake_batch_lock = Some(RedeemLock::Unstaking);
    contract.register_account(&key(), YOCTO, now()).unwrap();
    credit_stake(&mut contract, 100 * YOCTO);
    let outcome = contract.redeem_and_unstake(&key(), YoctoStake(10 * YOCTO), now(), now().epoch_height);
    assert_eq!(outcome, BatchOutcome::Batched(contract.next_redeem_stake_batch.unwrap().id()));
}

#[test]
fn unstake_pending_withdrawal() {
    let mut contract = new_contract();
    contract.batch_id_sequence = BatchId(contract.batch_id_sequence.0 + 1);
    contract.redeem_stake_batch = Some(RedeemStakeBatch::new(contract.batch_id_sequence, YoctoStake(10 * YOCTO), now()));
    let receipt = redeem_receipt(&contract, 10 * YOCTO);
    contract.redeem_stake_batch_receipts.insert(contract.batch_id_sequence.0, receipt);
    contract.run_redeem_stake_batch_lock = Some(RedeemLock::PendingWithdrawal);
    let epoch = EpochHeight(now().epoch_height.0 + 4);
    assert!(contract.can_unstake(epoch));
    assert_eq!(contract.unstake(epoch), UnstakeAction::WithdrawPending);
    assert_eq!(contract.run_redeem_stake_batch_lock, Some(RedeemLock::PendingWithdrawal));
}

#[test]
fn claim_redeem_stake_batch_receipts_for_current_batch() {
    let mut contract = contract_with_registered_account();
    let mut account = contract.accounts.get(&key()).unwrap();
    account.redeem_stake_batch = Some(RedeemStakeBatch::new(contract.batch_id_sequence, YoctoStake(10 * YOCTO), now()));
    contract.accounts.insert(&key(), account);
    let receipt = redeem_receipt(&contract, 20 * YOCTO);
    contract.redeem_stake_batch_receipts.insert(contract.batch_id_sequence.0, receipt);

    contract.claim_receipt_funds(&mut account, now());
    contract.accounts.insert(&key(), account);
    let account = contract.accounts.get(&key()).unwrap();
    assert_eq!(account.near.unwrap().amount(), YoctoNear(10 * YOCTO));
    assert!(account.redeem_stake_batch.is_none());

    let receipt = contract.redeem_stake_batch_receipts.get(&contract.batch_id_sequence.0).unwrap();
    assert_eq!(receipt.redeemed_stake(), YoctoStake(10 * YOCTO));
}

#[test]
fn claim_redeem_stake_batch_receipts_for_current_and_next_batch() {
    let mut contract = contract_with_registered_account();
    let mut account = contract.accounts.get(&key()).unwrap();
    account.redeem_stake_batch = Some(RedeemStakeBatch::new(contract.batch_id_sequence, YoctoStake(10 * YOCTO), now()));
    contract.batch_id_sequence = BatchId(contract.batch_id_sequence.0 + 1);
    account.next_redeem_stake_batch =
        Some(RedeemStakeBatch::new(contract.batch_id_sequence, YoctoStake(15 * YOCTO), now()));
    contract.accounts.insert(&key(), account);

    let receipt = redeem_receipt(&contract, 10 * YOCTO);
    contract.redeem_stake_batch_receipts.insert(contract.batch_id_sequence.0 - 1, receipt);
    let receipt = redeem_receipt(&contract, 20 * YOCTO);
    contract.redeem_stake_batch_receipts.insert(contract.batch_id_sequence.0, receipt);

    contract.claim_receipt_funds(&mut account, now());
    contract.accounts.insert(&key(), account);
    let account = contract.accounts.get(&key()).unwrap();
    assert_eq!(account.near.unwrap().amount(), YoctoNear(25 * YOCTO));
    assert!(account.redeem_stake_batch.is_none());
    assert!(account.next_redeem_stake_batch.is_none());
    assert!(contract.redeem_stake_batch_receipts.get(&(contract.batch_id_sequence.0 - 1)).is_none());
    assert_eq!(
        contract.redeem_stake_batch_receipts.get(&contract.batch_id_sequence.0).unwrap().redeemed_stake(),
        YoctoStake(5 * YOCTO)
    );
}

fn pending_withdrawal_contract(contract_batch_amount: u128) -> (StakeTokenContract, stake_token::account::Account) {
    let mut contract = contract_with_registered_account();
    let mut account = contract.accounts.get(&key()).unwrap();
    account.redeem_stake_batch = Some(RedeemStakeBatch::new(contract.batch_id_sequence, YoctoStake(10 * YOCTO), now()));
    contract.accounts.insert(&key(), account);

    contract.redeem_stake_batch =
        Some(RedeemStakeBatch::new(contract.batch_id_sequence, YoctoStake(contract_batch_amount), now()));
    contract.run_redeem_stake_batch_lock = Some(RedeemLock::PendingWithdrawal);
    contract.near_liquidity_pool =
        contract.stake_token_value.stake_to_near(account.redeem_stake_batch.unwrap().balance().amount());
    let receipt = redeem_receipt(&contract, contract.redeem_stake_batch.unwrap().balance().amount().0);
    contract.redeem_stake_batch_receipts.insert(contract.batch_id_sequence.0, receipt);
    (contract, account)
}

#[test]
fn claim_redeem_stake_batch_receipts_for_current_batch_pending_withdrawal_with_full_near_liquidity_available() {
    let (mut contract, mut account) = pending_withdrawal_contract(20 * YOCTO);

    contract.claim_receipt_funds(&mut account, now());
    contract.accounts.insert(&key(), account);
    let account = contract.accounts.get(&key()).unwrap();
    assert_eq!(account.near.unwrap().amount(), YoctoNear(10 * YOCTO));
    assert!(account.redeem_stake_batch.is_none());

    let receipt = contract.redeem_stake_batch_receipts.get(&contract.batch_id_sequence.0).unwrap();
    assert_eq!(receipt.redeemed_stake(), YoctoStake(10 * YOCTO));
    assert_eq!(contract.near_liquidity_pool, YoctoNear(0));
    assert_eq!(contract.total_near.amount(), YoctoNear(10 * YOCTO));
}

#[test]
fn claim_redeem_stake_batch_receipts_for_current_batch_pending_withdrawal_with_full_near_liquidity_available_and_receipt_fully_claimed(
) {
    let (mut contract, mut account) = pending_withdrawal_contract(10 * YOCTO);

    contract.claim_receipt_funds(&mut account, now());
    contract.accounts.insert(&key(), account);
    let account = contract.accounts.get(&key()).unwrap();
    assert_eq!(account.near.unwrap().amount(), YoctoNear(10 * YOCTO));
    assert!(account.redeem_stake_batch.is_none());

    assert!(contract.redeem_stake_batch_receipts.get(&contract.batch_id_sequence.0).is_none());
    assert!(contract.run_redeem_stake_batch_lock.is_none());
    assert_eq!(contract.near_liquidity_pool, YoctoNear(0));
    assert_eq!(contract.total_near.amount(), YoctoNear(10 * YOCTO));
}

#[test]
fn claim_redeem_stake_batch_receipts_for_current_and_next_batch_with_receipt_for_current() {
    let mut contract = contract_with_registered_account();
    let mut account = contract.accounts.get(&key()).unwrap();
    account.redeem_stake_batch = Some(RedeemStakeBatch::new(contract.batch_id_sequence, YoctoStake(10 * YOCTO), now()));
    contract.batch_id_sequence = BatchId(contract.batch_id_sequence.0 + 1);
    account.next_redeem_stake_batch =
        Some(RedeemStakeBatch::new(contract.batch_id_sequence, YoctoStake(15 * YOCTO), now()));
    contract.accounts.insert(&key(), account);

    let receipt = redeem_receipt(&contract, 10 * YOCTO);
    contract.redeem_stake_batch_receipts.insert(contract.batch_id_sequence.0 - 1, receipt);

    contract.claim_receipt_funds(&mut account, now());
    contract.accounts.insert(&key(), account);
    let account = contract.accounts.get(&key()).unwrap();
    assert_eq!(account.near.unwrap().amount(), YoctoNear(10 * YOCTO));
    assert_eq!(account.redeem_stake_batch.unwrap().balance().amount(), YoctoStake(15 * YOCTO));
    assert!(account.next_redeem_stake_batch.is_none());
    assert!(contract.redeem_stake_batch_receipts.get(&(contract.batch_id_sequence.0 - 1)).is_none());
}

#[test]
fn claim_redeem_stake_batch_receipts_for_old_batch_receipt_while_pending_withdrawal_on_current_batch() {
    let mut contract = new_contract();
    contract.run_redeem_stake_batch_lock = Some(RedeemLock::PendingWithdrawal);
    contract.register_account(&key(), YOCTO, now()).unwrap();

    let mut account = contract.accounts.get(&key()).unwrap();
    let batch_id = contract.batch_id_sequence;
    account.redeem_stake_batch = Some(RedeemStakeBatch::new(batch_id, YoctoStake(10 * YOCTO), now()));
    account.next_redeem_stake_batch = Some(RedeemStakeBatch::new(BatchId(batch_id.0 + 1), YoctoStake(10 * YOCTO), now()));
    contract.accounts.insert(&key(), account);

    contract.batch_id_sequence = BatchId(contract.batch_id_sequence.0 + 10);
    contract.redeem_stake_batch =
        Some(RedeemStakeBatch::new(contract.batch_id_sequence, YoctoStake(100 * YOCTO), now()));

    let receipt = redeem_receipt(&contract, 20 * YOCTO);
    contract.redeem_stake_batch_receipts.insert(batch_id.0, receipt);
    let receipt = redeem_receipt(&contract, 20 * YOCTO);
    contract.redeem_stake_batch_receipts.insert(batch_id.0 + 1, receipt);

    contract.claim_receipt_funds(&mut account, now());
    contract.accounts.insert(&key(), account);
    let account = contract.accounts.get(&key()).unwrap();
    assert_eq!(account.near.unwrap().amount(), YoctoNear(20 * YOCTO));
    assert!(account.redeem_stake_batch.is_none());

    let receipt = contract.redeem_stake_batch_receipts.get(&batch_id.0).unwrap();
    assert_eq!(receipt.redeemed_stake(), YoctoStake(10 * YOCTO));
}

#[test]
fn apply_unclaimed_receipts_to_account() {
    let mut contract = contract_with_registered_account();
    contract.deposit(&key(), YoctoNear(10 * YOCTO), now());
    let mut account = contract.accounts.get(&key()).unwrap();

    let batch = contract.stake_batch.unwrap();
    let receipt = StakeBatchReceipt::new(batch.balance().amount(), contract.stake_token_value);
    contract.stake_batch_receipts.insert(batch.id().0, receipt);

    contract.batch_id_sequence = BatchId(contract.batch_id_sequence.0 + 1);
    let batch = StakeBatch::new(contract.batch_id_sequence, YoctoNear(10 * YOCTO), now());
    account.next_stake_batch = Some(batch);
    let receipt = StakeBatchReceipt::new(batch.balance().amount(), contract.stake_token_value);
    contract.stake_batch_receipts.insert(contract.batch_id_sequence.0, receipt);

    contract.stake_batch = None;
    contract.next_stake_batch = None;

    contract.batch_id_sequence = BatchId(contract.batch_id_sequence.0 + 1);
    let redeem_stake_batch = RedeemStakeBatch::new(contract.batch_id_sequence, YoctoStake(2 * YOCTO), now());
    let receipt = redeem_receipt(&contract, redeem_stake_batch.balance().amount().0);
    contract.redeem_stake_batch_receipts.insert(contract.batch_id_sequence.0, receipt);
    account.redeem_stake_batch = Some(redeem_stake_batch);

    contract.batch_id_sequence = BatchId(contract.batch_id_sequence.0 + 1);
    let redeem_stake_batch = RedeemStakeBatch::new(contract.batch_id_sequence, YoctoStake(2 * YOCTO), now());
    let receipt = redeem_receipt(&contract, redeem_stake_batch.balance().amount().0);
    contract.redeem_stake_batch_receipts.insert(contract.batch_id_sequence.0, receipt);
    account.next_redeem_stake_batch = Some(redeem_stake_batch);
    contract.accounts.insert(&key(), account);

    let account = contract.lookup_account(&key(), now()).unwrap();
    assert!(account.stake_batch.is_none());
    assert!(account.redeem_stake_batch.is_none());
    assert!(account.next_stake_batch.is_none());
    assert!(account.next_redeem_stake_batch.is_none());
    assert_eq!(account.stake.unwrap().balance, YoctoStake(2 * 10 * YOCTO));
    assert_eq!(account.near.unwrap().balance, YoctoNear(2 * 2 * YOCTO));
}

#[test]
fn withdraw_funds_from_stake_batch_while_stake_batch_run_locked_success() {
    let mut contract = contract_with_registered_account();
    contract.run_stake_batch_locked = true;
    contract.deposit(&key(), YoctoNear(10 * YOCTO), now());
    let transfer = contract.withdraw_funds_from_stake_batch(&key(), YoctoNear(YOCTO), now());
    assert_eq!(transfer, YoctoNear(YOCTO));
    let account = contract.lookup_account(&key(), now()).unwrap();
    assert_eq!(account.next_stake_batch.unwrap().balance.balance.0, 9 * YOCTO);
}

#[test]
fn withdraw_funds_from_stake_batch_while_stake_batch_run_locked_all_funds_auccess() {
    let mut contract = contract_with_registered_account();
    contract.run_stake_batch_locked = true;
    contract.deposit(&key(), YoctoNear(10 * YOCTO), now());
    let transfer = contract.withdraw_funds_from_stake_batch(&key(), YoctoNear(10 * YOCTO), now());
    assert_eq!(transfer, YoctoNear(10 * YOCTO));
    let account = contract.lookup_account(&key(), now()).unwrap();
    assert!(account.next_stake_batch.is_none());
}

#[test]
fn cancel_pending_redeem_stake_request_while_locked_success_with_other_funds_in_batch() {
    let mut contract = contract_with_registered_account();
    let mut account = contract.accounts.get(&key()).unwrap();
    account.apply_stake_credit(YoctoStake(100 * YOCTO), now());
    contract.accounts.insert(&key(), account);

    contract.redeem(&key(), YoctoStake(10 * YOCTO), now());
    contract.run_redeem_stake_batch_lock = Some(RedeemLock::PendingWithdrawal);
    contract.redeem(&key(), YoctoStake(10 * YOCTO), now());
    {
        let mut batch = contract.next_redeem_stake_batch.unwrap();
        batch.add(YoctoStake(YOCTO), now());
        contract.next_redeem_stake_batch = Some(batch);
    }

    let account = contract.lookup_account(&key(), now()).unwrap();
    assert_eq!(account.stake.unwrap().balance, YoctoStake(80 * YOCTO));
    assert!(account.next_redeem_stake_batch.is_some());
    assert!(contract.next_redeem_stake_batch.is_some());

    assert!(contract.cancel_uncommitted_redeem_stake_batch(&key(), now()));
    let account = contract.lookup_account(&key(), now()).unwrap();
    assert_eq!(account.stake.unwrap().balance, YoctoStake(90 * YOCTO));
    assert!(account.next_redeem_stake_batch.is_none());
    assert_eq!(contract.next_redeem_stake_batch.unwrap().balance().amount(), YoctoStake(YOCTO));
}

#[test]
fn redeem_stake_batch_receipt_lookups() {
    let mut contract = new_contract();
    assert!(contract.redeem_stake_batch_receipt(contract.batch_id_sequence).is_none());
    contract.batch_id_sequence = BatchId(contract.batch_id_sequence.0 + 1);
    let receipt = redeem_receipt(&contract, YOCTO);
    contract.redeem_stake_batch_receipts.insert(contract.batch_id_sequence.0, receipt);
    assert_eq!(
        contract.redeem_stake_batch_receipt(contract.batch_id_sequence).unwrap().redeemed_stake,
        YoctoStake(YOCTO)
    );
}
