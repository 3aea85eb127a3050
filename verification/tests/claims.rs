use stake_token::amounts::{BlockTimeHeight, StorageUsage, YoctoNear, YoctoStake, YOCTO};
use stake_token::batch::StakeBatchReceipt;
use stake_token::config::Config;
use stake_token::stake_token_value::StakeTokenValue;
use stake_token::state::StakeTokenContract;

fn now() -> BlockTimeHeight {
    BlockTimeHeight::new(100, 1_000, 10)
}

fn key() -> stake_token::hash::Hash {
    stake_token::hash::Hash::new([1u8; 32])
}

fn contract_with_registered_account() -> StakeTokenContract {
    let mut contract = StakeTokenContract::new(Config::default(), StorageUsage(119), StorageUsage(1000), now());
    contract.register_account(&key(), 10 * YOCTO, now()).unwrap();
    contract
}

fn one_to_one() -> StakeTokenValue {
    StakeTokenValue::new(BlockTimeHeight::default(), YoctoNear(YOCTO), YoctoStake(YOCTO))
}

#[test]
fn claim_all_batch_receipt_funds_with_no_batched_funds() {
    let mut contract = contract_with_registered_account();
    let mut account = contract.accounts.get(&key()).unwrap();
    assert!(!contract.claim_receipt_funds(&mut account, now()));
}

#[test]
fn claim_all_batch_receipt_funds_with_funds_in_stake_batch_and_no_receipt() {
    let mut contract = contract_with_registered_account();
    let mut account = contract.accounts.get(&key()).unwrap();
    let batch_id = contract.deposit_near_for_account_to_stake(&mut account, YoctoNear(YOCTO), now());
    contract.accounts.insert(&key(), account);
    contract.claim_receipt_funds(&mut account, now());
    contract.accounts.insert(&key(), account);
    let account = contract.lookup_account(&key(), now()).unwrap();
    let stake_batch = account.stake_batch.unwrap();
    assert_eq!(stake_batch.batch_id, batch_id);
    assert_eq!(stake_batch.balance.balance, YoctoNear(YOCTO));
}

#[test]
fn claim_all_batch_receipt_funds_with_funds_in_stake_batch_and_with_receipt() {
    let mut contract = contract_with_registered_account();
    let mut account = contract.accounts.get(&key()).unwrap();
    let batch_id = contract.deposit_near_for_account_to_stake(&mut account, YoctoNear(YOCTO), now());
    contract.accounts.insert(&key(), account);
    let receipt = StakeBatchReceipt::new(YoctoNear(2 * YOCTO), one_to_one());
    contract.stake_batch_receipts.insert(batch_id.0, receipt);
    contract.claim_receipt_funds(&mut account, now());
    contract.accounts.insert(&key(), account);
    let view = contract.lookup_account(&key(), now()).unwrap();
    assert_eq!(view.stake.unwrap().balance.0, YOCTO, "the funds should have been claimed by the account");
    assert!(view.stake_batch.is_none(), "stake batch should be set to None");
    let receipt = contract.stake_batch_receipts.get(&batch_id.0).unwrap();
    assert_eq!(
        receipt.staked_near().0,
        YOCTO,
        "claiming STAKE tokens should have reduced the near balance on the receipt"
    );

    let mut account = contract.accounts.get(&key()).unwrap();
    let batch_id = contract.deposit_near_for_account_to_stake(&mut account, YoctoNear(YOCTO), now());
    contract.accounts.insert(&key(), account);
    contract.claim_receipt_funds(&mut account, now());
    contract.accounts.insert(&key(), account);
    let view = contract.lookup_account(&key(), now()).unwrap();
    assert_eq!(view.stake.unwrap().balance.0, 2 * YOCTO, "the funds should have been claimed by the account");
    assert!(view.stake_batch.is_none(), "stake batch should be set to None");
    assert!(
        contract.stake_batch_receipts.get(&batch_id.0).is_none(),
        "when all STAKE tokens are claimed, then the receipt should have been deleted"
    );
}

#[test]
fn claim_all_batch_receipt_funds_with_all_stake_batch_funds_claimed_on_receipt() {
    let mut contract = contract_with_registered_account();
    let mut account = contract.accounts.get(&key()).unwrap();
    let batch_id = contract.deposit_near_for_account_to_stake(&mut account, YoctoNear(2 * YOCTO), now());
    contract.accounts.insert(&key(), account);
    let receipt = StakeBatchReceipt::new(YoctoNear(2 * YOCTO), one_to_one());
    contract.stake_batch_receipts.insert(batch_id.0, receipt);
    contract.claim_receipt_funds(&mut account, now());
    contract.accounts.insert(&key(), account);
    let view = contract.lookup_account(&key(), now()).unwrap();
    assert_eq!(view.stake.unwrap().balance.0, 2 * YOCTO, "the funds should have been claimed by the account");
    assert!(view.stake_batch.is_none(), "stake batch should be set to None");
    assert!(
        contract.stake_batch_receipts.get(&batch_id.0).is_none(),
        "when all STAKE tokens are claimed, then the receipt should have been deleted"
    );
}

#[test]
fn claim_all_batch_receipt_funds_with_stake_batch_and_next_stake_batch_funds_with_receipts() {
    let mut contract = contract_with_registered_account();
    let mut account = contract.accounts.get(&key()).unwrap();
    let stake_batch_id = contract.deposit_near_for_account_to_stake(&mut account, YoctoNear(2 * YOCTO), now());
    assert_eq!(contract.stake_batch.unwrap().balance.balance, YoctoNear(2 * YOCTO));
    contract.run_stake_batch_locked = true;
    let next_stake_batch_id = contract.deposit_near_for_account_to_stake(&mut account, YoctoNear(3 * YOCTO), now());
    assert_eq!(contract.next_stake_batch.unwrap().balance.balance, YoctoNear(3 * YOCTO));
    contract.accounts.insert(&key(), account);
    let view = contract.lookup_account(&key(), now()).unwrap();
    assert_eq!(view.stake_batch.unwrap().balance.balance.0, 2 * YOCTO);
    assert_eq!(view.next_stake_batch.unwrap().balance.balance.0, 3 * YOCTO);

    contract.run_stake_batch_locked = false;
    contract.stake_batch_receipts.insert(stake_batch_id.0, StakeBatchReceipt::new(YoctoNear(2 * YOCTO), one_to_one()));
    contract
        .stake_batch_receipts
        .insert(next_stake_batch_id.0, StakeBatchReceipt::new(YoctoNear(3 * YOCTO), one_to_one()));
    let mut account = contract.accounts.get(&key()).unwrap();
    contract.claim_receipt_funds(&mut account, now());
    contract.accounts.insert(&key(), account);
    assert!(contract.stake_batch_receipts.get(&stake_batch_id.0).is_none());
    let view = contract.lookup_account(&key(), now()).unwrap();
    assert!(view.stake_batch.is_none());
    assert!(view.next_stake_batch.is_none());
    assert_eq!(view.stake.unwrap().balance.0, 5 * YOCTO);
}

#[test]
fn apply_stake_batch_credit_claims_receipts_and_batches_the_amount() {
    let mut contract = contract_with_registered_account();
    let mut account = contract.accounts.get(&key()).unwrap();
    let batch_id = contract.deposit_near_for_account_to_stake(&mut account, YoctoNear(2 * YOCTO), now());
    contract.stake_batch_receipts.insert(batch_id.0, StakeBatchReceipt::new(YoctoNear(2 * YOCTO), one_to_one()));
    contract.stake_batch = None;
    contract.apply_stake_batch_credit(&mut account, YoctoNear(YOCTO), now());
    // the receipt was claimed in full and deleted
    assert_eq!(account.stake.unwrap().balance.0, 2 * YOCTO);
    assert!(contract.stake_batch_receipts.get(&batch_id.0).is_none());
    // a new contract batch holds the amount, and so does the account's batch
    let contract_batch = contract.stake_batch.unwrap();
    assert_eq!(contract_batch.batch_id.0, batch_id.0 + 1);
    assert_eq!(contract_batch.balance.balance.0, YOCTO);
    let account_batch = account.stake_batch.unwrap();
    assert_eq!(account_batch.batch_id, contract_batch.batch_id);
    assert_eq!(account_batch.balance.balance.0, YOCTO);
}

#[test]
fn apply_stake_batch_credit_debits_a_partly_claimed_receipt() {
    let mut contract = contract_with_registered_account();
    let mut account = contract.accounts.get(&key()).unwrap();
    let batch_id = contract.deposit_near_for_account_to_stake(&mut account, YoctoNear(2 * YOCTO), now());
    contract.stake_batch_receipts.insert(batch_id.0, StakeBatchReceipt::new(YoctoNear(5 * YOCTO), one_to_one()));
    contract.stake_batch = None;
    contract.apply_stake_batch_credit(&mut account, YoctoNear(YOCTO), now());
    assert_eq!(account.stake.unwrap().balance.0, 2 * YOCTO);
    // the claimed NEAR is debited from the receipt, which stays for the other accounts' claims
    let receipt = contract.stake_batch_receipts.get(&batch_id.0).unwrap();
    assert_eq!(receipt.staked_near().0, 3 * YOCTO);
}

#[test]
fn checks_tell_which_requests_can_be_made() {
    let mut contract = contract_with_registered_account();
    let other = stake_token::hash::Hash::new([9u8; 32]);
    assert!(contract.claim_receipt_funds_allowed(&key(), now()));
    assert!(!contract.claim_receipt_funds_allowed(&other, now()));
    assert!(contract.deposit_allowed(&key(), YoctoNear(YOCTO), now()));
    assert!(!contract.deposit_allowed(&key(), YoctoNear(0), now()));
    assert!(!contract.deposit_allowed(&other, YoctoNear(YOCTO), now()));
    assert!(contract.lookup_account_allowed(&key(), now()));
    // nothing to withdraw, redeem or cancel yet
    assert!(!contract.withdraw_funds_from_stake_batch_allowed(&key(), YoctoNear(1), now()));
    assert!(!contract.withdraw_all_funds_from_stake_batch_allowed(&key(), now()));
    assert!(!contract.redeem_allowed(&key(), YoctoStake(1), now()));
    assert!(contract.cancel_uncommitted_redeem_stake_batch_allowed(&key(), now()));

    contract.deposit(&key(), YoctoNear(2 * YOCTO), now());
    assert!(contract.withdraw_funds_from_stake_batch_allowed(&key(), YoctoNear(YOCTO), now()));
    assert!(!contract.withdraw_funds_from_stake_batch_allowed(&key(), YoctoNear(3 * YOCTO), now()));
    assert!(contract.withdraw_all_funds_from_stake_batch_allowed(&key(), now()));
    // a deposit that would overflow the stake batch balance is refused
    assert!(!contract.deposit_allowed(&key(), YoctoNear(u128::MAX), now()));

    // once a receipt exists for the batch, the STAKE is claimable and can be redeemed
    let batch_id = contract.stake_batch.unwrap().batch_id;
    contract.stake_batch_receipts.insert(batch_id.0, StakeBatchReceipt::new(YoctoNear(2 * YOCTO), one_to_one()));
    contract.stake_batch = None;
    assert!(contract.redeem_allowed(&key(), YoctoStake(YOCTO), now()));
    assert!(!contract.redeem_allowed(&key(), YoctoStake(3 * YOCTO), now()));
    assert!(contract.redeem_all_allowed(&key(), now()));
    assert!(contract.ft_transfer_allowed(&key(), &other, YoctoStake(YOCTO), now()));
    // the probe left the contract as it was: the receipt is still unclaimed
    assert!(contract.stake_batch_receipts.get(&batch_id.0).is_some());
}

#[test]
fn storage_and_owner_checks() {
    let contract = contract_with_registered_account();
    assert!(contract.storage_fee_allowed());
    assert!(contract.storage_deposit_allowed(&key(), YOCTO));
    assert!(!contract.storage_deposit_allowed(&key(), u128::MAX));
    assert!(contract.storage_withdraw_allowed(&key(), None));
    // the owner balance starts at zero, below the contract's storage cost
    assert!(!contract.owner_balance_allowed());
    assert!(contract.earnings_allowed(100 * YOCTO));
}
