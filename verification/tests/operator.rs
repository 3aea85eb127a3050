use stake_token::amounts::{BlockHeight, BlockTimeHeight, Gas, StorageUsage, YoctoNear, TGAS};
use stake_token::batch::RedeemLock;
use stake_token::config::Config;
use stake_token::interface;
use stake_token::state::StakeTokenContract;

fn now() -> BlockTimeHeight {
    BlockTimeHeight::new(100, 1_000, 10)
}

fn new_contract() -> StakeTokenContract {
    StakeTokenContract::new(Config::default(), StorageUsage(119), StorageUsage(1000), now())
}

#[test]
fn release_run_redeem_stake_batch_unstaking_lock_with_pending_withdrawal_lock() {
    let mut contract = new_contract();
    contract.run_redeem_stake_batch_lock = Some(RedeemLock::PendingWithdrawal);
    contract.release_run_redeem_stake_batch_unstaking_lock();
    assert_eq!(contract.run_redeem_stake_batch_lock, Some(RedeemLock::PendingWithdrawal));
}

#[test]
fn update_config_applies_the_update_and_records_the_block_height() {
    let mut contract = new_contract();
    let update = interface::Config { storage_cost_per_byte: Some(YoctoNear(7)), gas_config: None };
    assert!(contract.config.merge_is_valid(&update));
    let config = contract.update_config(update, BlockHeight(555));
    assert_eq!(config.storage_cost_per_byte, YoctoNear(7));
    assert_eq!(contract.config_change_block_height, BlockHeight(555));
    assert_eq!(contract.account_storage_fee(), YoctoNear(7 * 119));
}

#[test]
fn update_config_validation() {
    let contract = new_contract();
    let zero_cost = interface::Config { storage_cost_per_byte: Some(YoctoNear(0)), gas_config: None };
    assert!(!contract.config.merge_is_valid(&zero_cost));
    let gas_out_of_range = interface::Config {
        storage_cost_per_byte: None,
        gas_config: Some(interface::GasConfig {
            staking_pool: None,
            callbacks: None,
            function_call_promise: Some(Gas(TGAS)),
            function_call_promise_data_dependency: None,
        }),
    };
    assert!(contract.config.merge_is_valid(&gas_out_of_range));
}

#[test]
fn force_update_config_skips_validation() {
    let mut contract = new_contract();
    let update = interface::Config { storage_cost_per_byte: Some(YoctoNear(0)), gas_config: None };
    let config = contract.force_update_config(update, BlockHeight(9));
    assert_eq!(config.storage_cost_per_byte, YoctoNear(0));
    assert_eq!(contract.config_change_block_height, BlockHeight(9));
}

#[test]
fn reset_config_default_restores_the_defaults() {
    let mut contract = new_contract();
    contract.force_update_config(interface::Config { storage_cost_per_byte: Some(YoctoNear(1)), gas_config: None }, BlockHeight(9));
    let config = contract.reset_config_default();
    assert_eq!(config.storage_cost_per_byte, YoctoNear(100_000_000_000_000_000_000));
    assert_eq!(config.contract_owner_earnings_percentage, 50);
}

#[test]
fn merging_an_empty_update_changes_nothing() {
    let mut contract = new_contract();
    let before = contract.config;
    contract.update_config(interface::Config { storage_cost_per_byte: None, gas_config: None }, BlockHeight(2));
    assert_eq!(contract.config.storage_cost_per_byte, before.storage_cost_per_byte);
    assert_eq!(contract.config.gas_config.callbacks.on_run_stake_batch, before.gas_config.callbacks.on_run_stake_batch);
    assert_eq!(contract.config.gas_config.staking_pool.deposit_and_stake, before.gas_config.staking_pool.deposit_and_stake);
}

#[test]
fn contract_state_invoked_by_operator() {
    let contract = new_contract();
    let state = contract.contract_state(now(), 1500);
    assert_eq!(state.block, now());
    assert_eq!(state.registered_accounts_count, 0);
    assert_eq!(state.initial_storage_usage, StorageUsage(1000));
    assert_eq!(state.storage_usage_growth, StorageUsage(500));
    assert!(state.stake_batch.is_none());
    assert!(state.pending_withdrawal.is_none());
}
