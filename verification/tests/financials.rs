use stake_token::amounts::{BlockTimeHeight, StorageUsage, YoctoNear, YOCTO};
use stake_token::config::Config;
use stake_token::state::StakeTokenContract;

fn now() -> BlockTimeHeight {
    BlockTimeHeight::new(100, 1_000, 10)
}

fn key(n: u8) -> stake_token::hash::Hash {
    stake_token::hash::Hash::new([n; 32])
}

fn new_contract() -> StakeTokenContract {
    StakeTokenContract::new(Config::default(), StorageUsage(119), StorageUsage(1000), now())
}

#[test]
fn storage_costs_and_available_balance() {
    let contract = new_contract();
    let cost = contract.config.storage_cost_per_byte.0;
    assert_eq!(contract.total_contract_storage_usage_cost(2000).0, 2000 * cost);
    assert_eq!(contract.total_available_balance(10 * YOCTO, 2000).0, 10 * YOCTO - 2000 * cost);
    assert_eq!(contract.contract_owner_storage_usage_cost().0, 1000 * cost);
}

#[test]
fn user_accounts_balance_counts_batches_near_liquidity_and_escrow() {
    let mut contract = new_contract();
    contract.register_account(&key(1), YOCTO, now()).unwrap();
    contract.deposit(&key(1), YoctoNear(5 * YOCTO), now());
    contract.run_stake_batch_locked = true;
    contract.deposit(&key(1), YoctoNear(2 * YOCTO), now());
    contract.near_liquidity_pool = YoctoNear(3);
    contract.total_account_storage_escrow = YoctoNear(11);
    contract.total_near.credit(YoctoNear(13), now());
    assert_eq!(contract.customer_batched_stake_deposits().0, 7 * YOCTO);
    assert_eq!(contract.total_user_accounts_balance().0, 7 * YOCTO + 3 + 11 + 13);
}

#[test]
fn earnings_are_split_between_owner_and_user_accounts() {
    let mut contract = new_contract();
    contract.contract_owner_balance = YoctoNear(10 * YOCTO);
    contract.collected_earnings = YoctoNear(1000);
    // the account balance holds the owner balance, the collected earnings and 3000 of gas rewards
    let account_balance = 10 * YOCTO + 1000 + 3000;
    assert_eq!(contract.contract_earnings(account_balance).0, 3000);
    assert_eq!(contract.total_earnings(account_balance).0, 4000);
    // 50% to the owner
    assert_eq!(contract.contract_owner_earnings(account_balance).0, 2000);
    assert_eq!(contract.user_accounts_earnings(account_balance).0, 2000);

    let (owner, users) = contract.distribute_earnings(account_balance);
    assert_eq!(owner.0 + users.0, 4000);
    assert_eq!(contract.contract_owner_balance.0, 10 * YOCTO + 2000);
    assert_eq!(contract.near_liquidity_pool.0, 2000);
    assert_eq!(contract.collected_earnings.0, 0);
}

#[test]
fn owner_share_divides_by_one_hundred_first() {
    let mut contract = new_contract();
    contract.collected_earnings = YoctoNear(199);
    let account_balance = 199;
    // 199 / 100 * 50 = 50
    assert_eq!(contract.contract_owner_earnings(account_balance).0, 50);
    assert_eq!(contract.user_accounts_earnings(account_balance).0, 149);
}

#[test]
fn contract_earnings_saturate_at_zero() {
    let mut contract = new_contract();
    contract.contract_owner_balance = YoctoNear(10 * YOCTO);
    assert_eq!(contract.contract_earnings(YOCTO).0, 0);
}

#[test]
fn owner_available_balance_keeps_the_minimum_operational_balance() {
    let mut contract = new_contract();
    let storage_cost = contract.contract_owner_storage_usage_cost().0;
    contract.contract_owner_balance = YoctoNear(storage_cost + 3 * YOCTO);
    assert_eq!(contract.owner_available_balance().0, 2 * YOCTO);
    contract.contract_owner_balance = YoctoNear(storage_cost + YOCTO);
    assert_eq!(contract.owner_available_balance().0, 0);
}

#[test]
fn deposit_earnings_adds_to_collected_earnings() {
    let mut contract = new_contract();
    assert_eq!(contract.deposit_earnings(500).0, 500);
    assert_eq!(contract.deposit_earnings(250).0, 750);
}

#[test]
fn balances_snapshot() {
    let mut contract = new_contract();
    let storage_cost = contract.contract_owner_storage_usage_cost().0;
    contract.contract_owner_balance = YoctoNear(storage_cost + 3 * YOCTO);
    let account_balance = storage_cost + 3 * YOCTO + 4000;
    let balances = contract.balances(account_balance, 1500, now());
    assert_eq!(balances.total_contract_balance.0, account_balance);
    assert_eq!(balances.contract_earnings.0, 4000);
    assert_eq!(balances.contract_owner_earnings.0, 2000);
    assert_eq!(balances.user_accounts_earnings.0, 2000);
    assert_eq!(balances.contract_owner_available_balance.0, 2 * YOCTO);
    assert_eq!(balances.contract_required_operational_balance.0, YOCTO);
    assert_eq!(balances.total_contract_storage_usage_cost.0, 1500 * contract.config.storage_cost_per_byte.0);
    assert_eq!(balances.block_time_height, now());
}
