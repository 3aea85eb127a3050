use stake_token::amounts::{BlockTimeHeight, Gas, StorageUsage, YoctoNear, YoctoStake, TGAS, YOCTO};
use stake_token::config::{Config, GasConfig};
use stake_token::interface;
use stake_token::metadata::{metadata, metadata_uris, METADATA_FT};
use stake_token::stake_token_value::StakeTokenValue;
use stake_token::state::StakeTokenContract;
use stake_token::transfer_receiver_mock::{Message, OnTransferAction, TransferReceiverMock, TransferRelay};

fn now() -> BlockTimeHeight {
    BlockTimeHeight::new(100, 1_000, 10)
}

fn key(n: u8) -> stake_token::hash::Hash {
    stake_token::hash::Hash::new([n; 32])
}

#[test]
fn stake_to_near_is_the_ratio_rounded_up() {
    let value = StakeTokenValue::new(now(), YoctoNear(7), YoctoStake(3));
    // ceil(5 * 7 / 3) = ceil(35 / 3) = 12
    assert_eq!(value.stake_to_near(YoctoStake(5)), YoctoNear(12));
    // ceil(3 * 7 / 3) = 7
    assert_eq!(value.stake_to_near(YoctoStake(3)), YoctoNear(7));
}

#[test]
fn stake_token_value_grows_with_staking_rewards() {
    let before = StakeTokenValue::new(now(), YoctoNear(1000 * YOCTO), YoctoStake(1000 * YOCTO));
    let after = StakeTokenValue::new(now(), YoctoNear(1050 * YOCTO), YoctoStake(1000 * YOCTO));
    let stake = YoctoStake(10 * YOCTO);
    assert_eq!(before.stake_to_near(stake).0, 10 * YOCTO);
    assert_eq!(after.stake_to_near(stake).0, 10 * YOCTO + YOCTO / 2);
    assert!(before.stake_to_near(stake).0 <= after.stake_to_near(stake).0);
}

#[test]
fn default_gas_budgets_add_up() {
    let config = GasConfig::default();
    let empty = interface::GasConfig {
        staking_pool: None,
        callbacks: None,
        function_call_promise: None,
        function_call_promise_data_dependency: None,
    };
    assert!(config.merge_is_valid(&empty));
    let starved = interface::GasConfig {
        staking_pool: Some(interface::StakingPoolGasConfig {
            deposit_and_stake: Some(Gas(75 * TGAS)),
            deposit: None,
            stake: None,
            unstake: None,
            withdraw: None,
            get_account: None,
            ping: None,
        }),
        callbacks: Some(interface::CallBacksGasConfig {
            on_run_stake_batch: Some(Gas(70 * TGAS)),
            on_deposit_and_stake: None,
            on_unstake: None,
            unlock: None,
            on_run_redeem_stake_batch: None,
            on_redeeming_stake_pending_withdrawal: None,
            on_redeeming_stake_post_withdrawal: None,
            resolve_transfer_gas: None,
            refresh_stake_token_value: None,
        }),
        function_call_promise: None,
        function_call_promise_data_dependency: None,
    };
    // 70 TGas cannot cover the staking pool's 75 TGas deposit_and_stake, the callback and 5 TGas
    assert!(!config.merge_is_valid(&starved));
}

#[test]
fn merging_an_update_twice_is_merging_it_once() {
    let update = interface::Config { storage_cost_per_byte: Some(YoctoNear(3)), gas_config: None };
    let mut once = Config::default();
    once.force_merge(update);
    let mut twice = Config::default();
    twice.force_merge(update);
    twice.force_merge(update);
    assert_eq!(once.storage_cost_per_byte, twice.storage_cost_per_byte);
}

#[test]
fn redeem_then_cancel_restores_the_stake_balance() {
    let mut contract = StakeTokenContract::new(Config::default(), StorageUsage(119), StorageUsage(1000), now());
    contract.register_account(&key(1), YOCTO, now()).unwrap();
    let mut account = contract.accounts.get(&key(1)).unwrap();
    account.apply_stake_credit(YoctoStake(50), now());
    contract.accounts.insert(&key(1), account);
    contract.total_stake.credit(YoctoStake(50), now());

    contract.redeem(&key(1), YoctoStake(20), now());
    assert_eq!(contract.accounts.get(&key(1)).unwrap().stake.unwrap().balance.0, 30);
    assert!(contract.cancel_uncommitted_redeem_stake_batch(&key(1), now()));
    let account = contract.accounts.get(&key(1)).unwrap();
    assert_eq!(account.stake.unwrap().balance.0, 50);
    assert!(account.redeem_stake_batch.is_none());
}

#[test]
fn deposit_then_withdraw_all_returns_the_deposit() {
    let mut contract = StakeTokenContract::new(Config::default(), StorageUsage(119), StorageUsage(1000), now());
    contract.register_account(&key(1), YOCTO, now()).unwrap();
    contract.register_account(&key(2), YOCTO, now()).unwrap();
    contract.deposit(&key(2), YoctoNear(7), now());
    contract.deposit(&key(1), YoctoNear(5), now());
    assert_eq!(contract.withdraw_all_funds_from_stake_batch(&key(1), now()), YoctoNear(5));
    // the other account's deposit stays in the contract's batch
    assert_eq!(contract.stake_batch.unwrap().balance.balance.0, 7);
}

#[test]
fn transfer_receiver_mock_scenarios() {
    let receiver = TransferReceiverMock::default();
    match receiver.ft_on_transfer(200, &Message::Accept { refund_percent: 25, transfer_relay: None }) {
        OnTransferAction::Refund(refund) => assert_eq!(refund, 50),
        other => panic!("unexpected action: {:?}", other),
    }
    let relay = TransferRelay { account_id: "relay.near".to_string(), percent: 50 };
    match receiver.ft_on_transfer(200, &Message::Accept { refund_percent: 10, transfer_relay: Some(relay) }) {
        OnTransferAction::Relay { account_id, amount, refund_percent } => {
            assert_eq!(account_id, "relay.near");
            assert_eq!(amount, 100);
            assert_eq!(refund_percent, 10);
        }
        other => panic!("unexpected action: {:?}", other),
    }
    assert!(matches!(receiver.ft_on_transfer(200, &Message::Panic), OnTransferAction::Panic));
    assert_eq!(receiver.resolve_ft_on_transfer(200, 150), 300);
}

#[test]
fn metadata_is_published_under_the_fungible_token_uri() {
    let md = metadata(METADATA_FT).unwrap();
    assert_eq!(md.symbol, "STAKE");
    assert_eq!(md.name, "OysterPack STAKE Token");
    assert_eq!(md.decimals, 24);
    assert_eq!(md.granularity, 1);
    assert!(metadata("http://near.org/contract/metadata/other").is_none());
    assert_eq!(metadata_uris(), vec![METADATA_FT.to_string()]);
}

#[test]
fn near_to_stake_and_back_never_gives_less_near() {
    let value = stake_token::stake_token_value::StakeTokenValue::new(
        stake_token::amounts::BlockTimeHeight::default(),
        stake_token::amounts::YoctoNear(3),
        stake_token::amounts::YoctoStake(2),
    );
    for near in 0..50u128 {
        let stake = value.near_to_stake(stake_token::amounts::YoctoNear(near));
        let back = value.stake_to_near(stake);
        assert!(back.0 >= near, "near = {}, stake = {}, back = {}", near, stake.0, back.0);
    }
    let stake = value.near_to_stake(stake_token::amounts::YoctoNear(5));
    assert_eq!(stake.0, 4);
    assert_eq!(value.stake_to_near(stake).0, 6);
}

#[test]
fn stake_to_near_checked_reports_values_that_do_not_fit() {
    let value = StakeTokenValue::new(now(), YoctoNear(u128::MAX), YoctoStake(1));
    assert!(value.stake_to_near_checked(YoctoStake(2)).is_none());
    assert_eq!(value.stake_to_near_checked(YoctoStake(1)), Some(YoctoNear(u128::MAX)));
    let value = StakeTokenValue::new(now(), YoctoNear(7), YoctoStake(3));
    assert_eq!(value.stake_to_near_checked(YoctoStake(5)), Some(value.stake_to_near(YoctoStake(5))));
}
