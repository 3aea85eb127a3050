use stake_token::account::Account;
use stake_token::amounts::{BlockTimeHeight, StorageUsage, YoctoNear, YoctoStake, YOCTO};
use stake_token::config::Config;
use stake_token::fungible_token::TransferError;
use stake_token::state::StakeTokenContract;

fn now() -> BlockTimeHeight {
    BlockTimeHeight::new(100, 1_000, 10)
}

fn key(n: u8) -> stake_token::hash::Hash {
    stake_token::hash::Hash::new([n; 32])
}

/// a contract with the sender (key 1) and the receiver (key 2) registered
fn contract_with_sender_and_receiver() -> StakeTokenContract {
    let mut contract = StakeTokenContract::new(Config::default(), StorageUsage(119), StorageUsage(1000), now());
    contract.register_account(&key(1), YOCTO, now()).unwrap();
    contract.register_account(&key(2), YOCTO, now()).unwrap();
    contract
}

fn credit_stake(contract: &mut StakeTokenContract, n: u8, amount: u128) {
    let mut account: Account = contract.accounts.get(&key(n)).unwrap();
    account.apply_stake_credit(YoctoStake(amount), now());
    contract.accounts.insert(&key(n), account);
}

fn stake_of(contract: &StakeTokenContract, n: u8) -> Option<u128> {
    contract.accounts.get(&key(n)).unwrap().stake.map(|b| b.balance.0)
}

#[test]
fn fungible_token_transfer_ok() {
    let mut contract = contract_with_sender_and_receiver();
    assert_eq!(contract.ft_total_supply(), YoctoStake(0));
    assert_eq!(contract.ft_balance_of(&key(1), now()), YoctoStake(0));
    assert_eq!(contract.ft_balance_of(&key(2), now()), YoctoStake(0));

    // credit the sender with STAKE
    let total_supply = 100 * YOCTO;
    credit_stake(&mut contract, 1, total_supply);
    contract.total_stake.credit(YoctoStake(total_supply), now());

    let transfer_amount = 10 * YOCTO;
    assert_eq!(contract.ft_transfer(&key(1), &key(2), 1, YoctoStake(transfer_amount), now()), Ok(()));
    assert_eq!(contract.ft_total_supply().0, total_supply);
    assert_eq!(contract.ft_balance_of(&key(1), now()).0, total_supply - transfer_amount);
    assert_eq!(contract.ft_balance_of(&key(2), now()).0, transfer_amount);
    let sender = contract.accounts.get(&key(1)).unwrap();
    assert_eq!(sender.near.unwrap().balance.0, 1);

    assert_eq!(contract.ft_transfer(&key(1), &key(2), 1, YoctoStake(transfer_amount), now()), Ok(()));
    let sender = contract.accounts.get(&key(1)).unwrap();
    assert_eq!(sender.near.unwrap().balance.0, 2);
    assert_eq!(contract.ft_total_supply().0, total_supply);
    assert_eq!(contract.ft_balance_of(&key(1), now()).0, total_supply - transfer_amount * 2);
    assert_eq!(contract.ft_balance_of(&key(2), now()).0, transfer_amount * 2);
}

#[test]
fn transfer_refused_without_exactly_one_yocto_near() {
    let mut contract = contract_with_sender_and_receiver();
    credit_stake(&mut contract, 1, YOCTO);
    assert_eq!(
        contract.ft_transfer(&key(1), &key(2), 0, YoctoStake(10), now()),
        Err(TransferError::ExactlyOneYoctoNearRequired)
    );
    assert_eq!(
        contract.ft_transfer(&key(1), &key(2), 2, YoctoStake(10), now()),
        Err(TransferError::ExactlyOneYoctoNearRequired)
    );
    assert_eq!(stake_of(&contract, 1), Some(YOCTO));
}

#[test]
fn transfer_refused_for_zero_amount_or_unregistered_accounts() {
    let mut contract = contract_with_sender_and_receiver();
    credit_stake(&mut contract, 1, YOCTO);
    assert_eq!(contract.ft_transfer(&key(1), &key(2), 1, YoctoStake(0), now()), Err(TransferError::ZeroAmount));
    assert_eq!(
        contract.ft_transfer(&key(3), &key(2), 1, YoctoStake(10), now()),
        Err(TransferError::SenderNotRegistered)
    );
    assert_eq!(
        contract.ft_transfer(&key(1), &key(3), 1, YoctoStake(10), now()),
        Err(TransferError::ReceiverNotRegistered)
    );
    assert_eq!(stake_of(&contract, 1), Some(YOCTO));
    assert_eq!(stake_of(&contract, 2), None);
}

#[test]
fn err_receiver_has_balance_for_full_refund() {
    let mut contract = contract_with_sender_and_receiver();
    credit_stake(&mut contract, 2, YOCTO);
    // the receiver contract call failed: the full amount is refunded
    let refund = contract.ft_resolve_transfer_call(&key(1), &key(2), YoctoStake(YOCTO), None, now());
    assert_eq!(refund, Ok(YoctoStake(YOCTO)));
    assert_eq!(stake_of(&contract, 2), None);
    assert_eq!(stake_of(&contract, 1), Some(YOCTO));
}

#[test]
fn err_receiver_has_balance_for_partial_refund() {
    let mut contract = contract_with_sender_and_receiver();
    credit_stake(&mut contract, 2, YOCTO);
    let refund = contract.ft_resolve_transfer_call(&key(1), &key(2), YoctoStake(2 * YOCTO), None, now());
    assert_eq!(refund, Ok(YoctoStake(YOCTO)));
    assert_eq!(stake_of(&contract, 2), None);
    assert_eq!(stake_of(&contract, 1), Some(YOCTO));
}

#[test]
fn err_receiver_has_zero_balance() {
    let mut contract = contract_with_sender_and_receiver();
    let refund = contract.ft_resolve_transfer_call(&key(1), &key(2), YoctoStake(2 * YOCTO), None, now());
    assert_eq!(refund, Ok(YoctoStake(0)));
}

#[test]
fn ok_zero_refund() {
    let mut contract = contract_with_sender_and_receiver();
    let refund = contract.ft_resolve_transfer_call(&key(1), &key(2), YoctoStake(YOCTO), Some(YoctoStake(0)), now());
    assert_eq!(refund, Ok(YoctoStake(0)));
}

#[test]
fn ok_with_refund() {
    let mut contract = contract_with_sender_and_receiver();
    credit_stake(&mut contract, 2, 100 * YOCTO);
    let refund = contract.ft_resolve_transfer_call(&key(1), &key(2), YoctoStake(YOCTO), Some(YoctoStake(YOCTO)), now());
    assert_eq!(refund, Ok(YoctoStake(YOCTO)));
    assert_eq!(stake_of(&contract, 2), Some(99 * YOCTO));
    assert_eq!(stake_of(&contract, 1), Some(YOCTO));
}

#[test]
fn ok_with_refund_and_receiver_zero_balance() {
    let mut contract = contract_with_sender_and_receiver();
    let refund = contract.ft_resolve_transfer_call(&key(1), &key(2), YoctoStake(YOCTO), Some(YoctoStake(YOCTO)), now());
    assert_eq!(refund, Ok(YoctoStake(0)));
}

#[test]
fn ok_with_refund_and_receiver_balance_insufficient() {
    let mut contract = contract_with_sender_and_receiver();
    credit_stake(&mut contract, 2, YOCTO / 10);
    let refund = contract.ft_resolve_transfer_call(&key(1), &key(2), YoctoStake(YOCTO), Some(YoctoStake(YOCTO)), now());
    assert_eq!(refund, Ok(YoctoStake(YOCTO / 10)));
}

#[test]
fn ok_with_refund_gt_transfer_amount() {
    let mut contract = contract_with_sender_and_receiver();
    credit_stake(&mut contract, 2, 100 * YOCTO);
    // the receiver handed back more than it was sent: the transfer amount is refunded
    let refund =
        contract.ft_resolve_transfer_call(&key(1), &key(2), YoctoStake(YOCTO), Some(YoctoStake(2 * YOCTO)), now());
    assert_eq!(refund, Ok(YoctoStake(YOCTO)));
    assert_eq!(stake_of(&contract, 2), Some(99 * YOCTO));
    assert_eq!(stake_of(&contract, 1), Some(YOCTO));
}

#[test]
fn resolve_refused_for_unregistered_accounts() {
    let mut contract = contract_with_sender_and_receiver();
    assert_eq!(
        contract.ft_resolve_transfer_call(&key(3), &key(2), YoctoStake(YOCTO), None, now()),
        Err(TransferError::SenderNotRegistered)
    );
    assert_eq!(
        contract.ft_resolve_transfer_call(&key(1), &key(3), YoctoStake(YOCTO), None, now()),
        Err(TransferError::ReceiverNotRegistered)
    );
}

#[test]
fn unused_amount_is_capped_by_the_transfer_amount() {
    assert_eq!(StakeTokenContract::transfer_call_receiver_unused_amount(YoctoStake(10), None), YoctoStake(10));
    assert_eq!(StakeTokenContract::transfer_call_receiver_unused_amount(YoctoStake(10), Some(YoctoStake(3))), YoctoStake(3));
    assert_eq!(StakeTokenContract::transfer_call_receiver_unused_amount(YoctoStake(10), Some(YoctoStake(30))), YoctoStake(10));
}

#[test]
fn ft_on_transfer_gas_passes_on_the_rest_of_the_prepaid_gas() {
    let contract = contract_with_sender_and_receiver();
    let gas = contract.config.gas_config;
    let prepaid = 300_000_000_000_000u64;
    let used = 20_000_000_000_000u64;
    let expected = prepaid - used - gas.callbacks.resolve_transfer_gas.0 - 2 * gas.function_call_promise.0
        - gas.function_call_promise_data_dependency.0;
    assert_eq!(contract.ft_on_transfer_gas(prepaid, used), expected);
    assert_eq!(contract.resolve_transfer_gas(), gas.callbacks.resolve_transfer_gas.0);
    let _ = YoctoNear(0);
}
