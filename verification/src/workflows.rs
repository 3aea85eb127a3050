//! The staking pool workflows: the steps that run when a stake batch or a redeem stake batch
//! runs. Each step takes what the staking pool answered and decides the contract's next
//! state and the next staking pool call.

use crate::account::Account;
use crate::amounts::{BatchId, BlockTimeHeight, YoctoNear, YoctoStake};
use crate::batch::{RedeemLock, RedeemStakeBatch, RedeemStakeBatchReceipt, StakeBatch, StakeBatchReceipt};
use crate::stake_token_value::{lemma_near_to_stake_bounded, lemma_stake_to_near_at_least, StakeTokenValue};
use crate::state::{lemma_receipts_unchanged, ContractModel, StakeTokenContract};
use vstd::prelude::*;

verus! {

broadcast use vstd::std_specs::hash::group_hash_axioms;

/// the contract's account as the staking pool reports it
#[derive(Debug, Clone, Copy)]
pub struct StakingPoolAccount {
    /// the unstaked balance that can be withdrawn or staked
    pub unstaked_balance: YoctoNear,
    /// the balance staked at the current "stake" share price
    pub staked_balance: YoctoNear,
    /// whether the unstaked balance is available for withdrawal now
    pub can_withdraw: bool,
}

/// the staking pool calls that running a stake batch makes
#[derive(Debug, Clone, Copy, PartialEq, Eq, Structural)]
pub enum StakeBatchAction {
    /// deposit and stake the amount
    DepositAndStake(YoctoNear),
    /// deposit, then stake: part of the unstaked NEAR pending withdrawal is restaked and moved to
    /// the NEAR liquidity pool
    DepositThenStake { deposit: YoctoNear, stake: YoctoNear, near_liquidity: YoctoNear },
    /// stake only: the batch is covered by unstaked NEAR pending withdrawal, which is restaked and
    /// moved to the NEAR liquidity pool
    Stake { stake: YoctoNear, near_liquidity: YoctoNear },
}

/// the unstake call that running a redeem stake batch makes
#[derive(Debug, Clone, Copy, PartialEq, Eq, Structural)]
pub enum UnstakeRequest {
    /// unstake everything: the staked balance is below the amount to unstake
    UnstakeAll,
    Unstake(YoctoNear),
}

/// what checking on the NEAR pending withdrawal leads to
#[derive(Debug, Clone, Copy, PartialEq, Eq, Structural)]
pub enum PendingWithdrawalAction {
    /// withdraw all unstaked NEAR from the staking pool
    WithdrawAll,
    /// the unstaked NEAR has already been withdrawn: the redeem stake batch is done
    Finalized(BatchId),
}

impl ContractModel {
    /// the NEAR value of the redeem stake batch pending withdrawal
    pub open spec fn pending_near_value(self) -> int {
        let receipt = self.spec_pending_withdrawal().unwrap();
        receipt.stake_token_value.spec_stake_to_near(receipt.redeemed_stake.0 as nat)
    }

    /// the NEAR value of the pending withdrawal fits in a u128
    pub open spec fn pending_value_ok(self) -> bool {
        self.spec_pending_withdrawal() is Some ==> self.pending_near_value() <= u128::MAX
    }

    /// liquidity is needed while the NEAR pending withdrawal exceeds the NEAR liquidity pool
    pub open spec fn spec_is_liquidity_needed(self) -> bool {
        self.spec_pending_withdrawal() is Some && self.pending_near_value() > self.near_liquidity_pool.0
    }

    /// the total NEAR staked for STAKE holders: the staking pool's staked and unstaked balances,
    /// less the NEAR pending withdrawal but counting the liquidity restaked from it
    pub open spec fn spec_staked_near_balance(self, account: StakingPoolAccount) -> int {
        if account.staked_balance.0 == 0 {
            0
        } else if self.spec_pending_withdrawal() is Some {
            account.staked_balance.0 + account.unstaked_balance.0 - self.pending_near_value() + self.near_liquidity_pool.0
        } else {
            account.staked_balance.0 + account.unstaked_balance.0
        }
    }

    pub open spec fn staked_near_balance_ok(self, account: StakingPoolAccount) -> bool {
        &&& self.pending_value_ok()
        &&& account.staked_balance.0 + account.unstaked_balance.0 <= u128::MAX
        &&& (account.staked_balance.0 != 0 && self.spec_pending_withdrawal() is Some) ==> {
            &&& account.staked_balance.0 + account.unstaked_balance.0 >= self.pending_near_value()
            &&& self.spec_staked_near_balance(account) <= u128::MAX
        }
    }

    /// the decision of running the stake batch
    pub open spec fn spec_on_run_stake_batch(self, account: StakingPoolAccount) -> (ContractModel, StakeBatchAction) {
        let batch = self.stake_batch.unwrap().balance.balance.0;
        let unstaked = account.unstaked_balance.0;
        if unstaked > 0 && self.spec_is_liquidity_needed() {
            let near_liquidity = if unstaked >= batch { batch } else { unstaked };
            let deposit = batch - near_liquidity;
            if deposit > 0 {
                (self, StakeBatchAction::DepositThenStake {
                    deposit: YoctoNear(deposit as u128),
                    stake: YoctoNear(batch),
                    near_liquidity: YoctoNear(near_liquidity),
                })
            } else {
                (self, StakeBatchAction::Stake { stake: YoctoNear(batch), near_liquidity: YoctoNear(near_liquidity) })
            }
        } else if self.spec_is_liquidity_needed() {
            (
                ContractModel { near_liquidity_pool: YoctoNear(0), ..self },
                StakeBatchAction::DepositAndStake(YoctoNear((batch + self.near_liquidity_pool.0) as u128)),
            )
        } else {
            (self, StakeBatchAction::DepositAndStake(YoctoNear(batch)))
        }
    }

    /// liquidity restaked from unstaked NEAR is added to the pool; once the pool covers the
    /// pending withdrawal, that NEAR becomes available for withdrawal and the redeem lock is
    /// released
    pub open spec fn spec_add_liquidity(self, near_liquidity: Option<YoctoNear>, now: BlockTimeHeight) -> ContractModel {
        match near_liquidity {
            Some(liquidity) => if liquidity.0 > 0 {
                let m = ContractModel { near_liquidity_pool: YoctoNear((self.near_liquidity_pool.0 + liquidity.0) as u128), ..self };
                if m.spec_pending_withdrawal() is Some && m.near_liquidity_pool.0 >= m.pending_near_value() {
                    let value = m.pending_near_value();
                    ContractModel {
                        near_liquidity_pool: YoctoNear((m.near_liquidity_pool.0 - value) as u128),
                        total_near: m.total_near.spec_credit(value as u128, now),
                        run_redeem_stake_batch_lock: None,
                        redeem_stake_batch: m.next_redeem_stake_batch,
                        next_redeem_stake_batch: None,
                        ..m
                    }
                } else {
                    m
                }
            } else {
                self
            },
            None => self,
        }
    }

    pub open spec fn add_liquidity_ok(self, near_liquidity: Option<YoctoNear>) -> bool {
        match near_liquidity {
            Some(liquidity) => liquidity.0 > 0 ==> {
                let m = ContractModel { near_liquidity_pool: YoctoNear((self.near_liquidity_pool.0 + liquidity.0) as u128), ..self };
                &&& self.near_liquidity_pool.0 + liquidity.0 <= u128::MAX
                &&& m.pending_value_ok()
                &&& (m.spec_pending_withdrawal() is Some && m.near_liquidity_pool.0 >= m.pending_near_value())
                    ==> m.total_near.balance.0 + m.pending_near_value() <= u128::MAX
            },
            None => true,
        }
    }

    /// the STAKE token value refreshed from the staked NEAR balance and the STAKE supply
    pub open spec fn refreshed_value(self, staked_balance: u128, now: BlockTimeHeight) -> StakeTokenValue {
        let supply = self.total_stake.balance.0;
        StakeTokenValue {
            block_time_height: now,
            total_staked_near_balance: YoctoNear(if staked_balance < supply { supply } else { staked_balance }),
            total_stake_supply: YoctoStake(supply),
        }
    }

    /// STAKE is minted for the staked batch at the current STAKE token value, the value is
    /// refreshed, and if the refreshed value would have minted a different amount, the supply is
    /// corrected to that amount and the value refreshed again
    pub open spec fn spec_mint_stake(self, account: StakingPoolAccount, batch: StakeBatch, now: BlockTimeHeight) -> ContractModel {
        let staked_balance = self.spec_staked_near_balance(account) as u128;
        let amount = batch.balance.balance.0;
        let minted = self.stake_token_value.spec_near_to_stake(amount as nat) as u128;
        let m1 = ContractModel { total_stake: self.total_stake.spec_credit(minted, now), ..self };
        let m2 = ContractModel { stake_token_value: m1.refreshed_value(staked_balance, now), ..m1 };
        let batch_value = m2.stake_token_value.spec_near_to_stake(amount as nat) as u128;
        if batch_value != minted {
            let m3 = ContractModel {
                total_stake: m2.total_stake.spec_debit(minted, now).spec_credit(batch_value, now),
                ..m2
            };
            ContractModel { stake_token_value: m3.refreshed_value(staked_balance, now), ..m3 }
        } else {
            m2
        }
    }

    /// the stake batch has been staked: liquidity is added, STAKE is minted, the receipt is
    /// created and the next stake batch becomes the current one
    pub open spec fn spec_on_deposit_and_stake(
        self,
        near_liquidity: Option<YoctoNear>,
        account: StakingPoolAccount,
        now: BlockTimeHeight,
    ) -> ContractModel {
        let batch = self.stake_batch.unwrap();
        let m1 = ContractModel { stake_batch: None, ..self }.spec_add_liquidity(near_liquidity, now);
        let m2 = m1.spec_mint_stake(account, batch, now);
        let receipt = StakeBatchReceipt { staked_near: batch.balance.balance, stake_token_value: m2.stake_token_value };
        ContractModel {
            stake_batch_receipts: m2.stake_batch_receipts.insert(batch.batch_id.0, receipt),
            stake_batch: m2.next_stake_batch,
            next_stake_batch: None,
            ..m2
        }
    }

    pub open spec fn on_deposit_and_stake_ok(self, near_liquidity: Option<YoctoNear>, account: StakingPoolAccount, now: BlockTimeHeight) -> bool {
        let batch = self.stake_batch.unwrap();
        let m1 = ContractModel { stake_batch: None, ..self }.spec_add_liquidity(near_liquidity, now);
        &&& self.stake_batch is Some
        &&& ContractModel { stake_batch: None, ..self }.add_liquidity_ok(near_liquidity)
        &&& m1.staked_near_balance_ok(account)
        &&& m1.total_stake.balance.0 + batch.balance.balance.0 <= u128::MAX
    }

    /// running the redeem stake batch refreshes the STAKE token value and unstakes the NEAR
    /// value of the batch, or everything if the staked balance is below that
    pub open spec fn spec_on_run_redeem_stake_batch(self, account: StakingPoolAccount, now: BlockTimeHeight) -> (ContractModel, UnstakeRequest) {
        let staked_balance = self.spec_staked_near_balance(account) as u128;
        let m = ContractModel { stake_token_value: self.refreshed_value(staked_balance, now), ..self };
        let amount = m.stake_token_value.spec_stake_to_near(self.redeem_stake_batch.unwrap().balance.balance.0 as nat);
        if account.staked_balance.0 < amount {
            (m, UnstakeRequest::UnstakeAll)
        } else {
            (m, UnstakeRequest::Unstake(YoctoNear(amount as u128)))
        }
    }

    pub open spec fn on_run_redeem_stake_batch_ok(self, account: StakingPoolAccount, now: BlockTimeHeight) -> bool {
        let staked_balance = self.spec_staked_near_balance(account) as u128;
        let value = self.refreshed_value(staked_balance, now);
        &&& self.spec_is_unstaking()
        &&& self.redeem_stake_batch is Some
        &&& self.staked_near_balance_ok(account)
        &&& value.spec_stake_to_near(self.redeem_stake_batch.unwrap().balance.balance.0 as nat) <= u128::MAX
    }

    /// the batch has been unstaked: its receipt is created at the current STAKE token value, the
    /// redeemed STAKE is burned, and the unstaked NEAR is pending withdrawal
    pub open spec fn spec_on_unstake(self, now: BlockTimeHeight) -> ContractModel {
        let batch = self.redeem_stake_batch.unwrap();
        let receipt = RedeemStakeBatchReceipt { redeemed_stake: batch.balance.balance, stake_token_value: self.stake_token_value };
        ContractModel {
            redeem_stake_batch_receipts: self.redeem_stake_batch_receipts.insert(batch.batch_id.0, receipt),
            total_stake: self.total_stake.spec_debit(batch.balance.balance.0, now),
            run_redeem_stake_batch_lock: Some(RedeemLock::PendingWithdrawal),
            ..self
        }
    }

    /// the unstaked NEAR has been withdrawn: it becomes available for withdrawal by the accounts,
    /// the redeem lock is released and the next redeem stake batch becomes the current one
    pub open spec fn spec_finalize_redeem_batch(self, now: BlockTimeHeight) -> ContractModel {
        ContractModel {
            total_near: self.total_near.spec_credit(self.pending_near_value() as u128, now),
            run_redeem_stake_batch_lock: None,
            redeem_stake_batch: self.next_redeem_stake_batch,
            next_redeem_stake_batch: None,
            ..self
        }
    }

    pub open spec fn finalize_redeem_batch_ok(self) -> bool {
        &&& self.spec_pending_withdrawal() is Some
        &&& self.pending_value_ok()
        &&& self.total_near.balance.0 + self.pending_near_value() <= u128::MAX
    }
}

impl StakeTokenContract {
    /// the NEAR value of the redeem stake batch pending withdrawal
    fn pending_withdrawal_near_value(&self) -> (r: Option<YoctoNear>)
        requires
            self@.pending_value_ok(),
        ensures
            r == (if self@.spec_pending_withdrawal() is Some {
                Some(YoctoNear(self@.pending_near_value() as u128))
            } else {
                None
            }),
            self@.spec_pending_withdrawal() is Some ==> 0 <= self@.pending_near_value() <= u128::MAX,
    {
        proof {
            if self@.spec_pending_withdrawal() is Some {
                let receipt = self@.spec_pending_withdrawal().unwrap();
                lemma_stake_to_near_at_least(receipt.stake_token_value, receipt.redeemed_stake.0 as nat);
            }
        }
        match self.pending_withdrawal() {
            Some(receipt) => Some(receipt.stake_near_value()),
            None => None,
        }
    }

    /// true if the NEAR liquidity pool does not cover the NEAR pending withdrawal
    pub fn is_liquidity_needed(&self) -> (r: bool)
        requires
            self@.pending_value_ok(),
        ensures
            r == self@.spec_is_liquidity_needed(),
    {
        match self.pending_withdrawal_near_value() {
            None => false,
            Some(value) => value.0 > self.near_liquidity_pool.0,
        }
    }

    /// the staked NEAR balance is the total NEAR deposited and staked in the staking pool: the
    /// staking pool converts NEAR into shares and the rounding leaves some NEAR unstaked, so the
    /// unstaked balance counts too; NEAR pending withdrawal does not count, except for the
    /// liquidity restaked from it
    pub fn staked_near_balance(&self, account: &StakingPoolAccount) -> (r: YoctoNear)
        requires
            self@.staked_near_balance_ok(*account),
        ensures
            r.0 == self@.spec_staked_near_balance(*account),
    {
        let staked_balance = account.staked_balance.0;
        if staked_balance == 0 {
            return YoctoNear(0);
        }
        let unstaked_balance = account.unstaked_balance.0;
        match self.pending_withdrawal_near_value() {
            Some(value) => {
                let staked_near = staked_balance + unstaked_balance - value.0;
                YoctoNear(staked_near + self.near_liquidity_pool.0)
            },
            None => YoctoNear(staked_balance + unstaked_balance),
        }
    }

    /// the first step of running the stake batch, after the account was read from the staking
    /// pool: decides the staking pool calls; if liquidity is needed and there is unstaked NEAR,
    /// unstaked NEAR is restaked in place of deposits to add liquidity
    pub fn on_run_stake_batch(&mut self, account: &StakingPoolAccount) -> (r: StakeBatchAction)
        requires
            old(self).wf(),
            old(self)@.stake_batch is Some,
            old(self)@.pending_value_ok(),
            old(self)@.spec_is_liquidity_needed() && account.unstaked_balance.0 == 0
                ==> old(self)@.stake_batch.unwrap().balance.balance.0 + old(self)@.near_liquidity_pool.0 <= u128::MAX,
        ensures
            final(self).wf(),
            (final(self)@, r) == old(self)@.spec_on_run_stake_batch(*account),
    {
        let batch = self.stake_batch.unwrap();
        let is_liquidity_needed = self.is_liquidity_needed();
        let unstaked_balance = account.unstaked_balance.0;
        let amount = batch.balance.balance.0;
        if unstaked_balance > 0 && is_liquidity_needed {
            // how much NEAR liquidity can be moved from the unstaked NEAR to the liquidity pool
            let near_liquidity = if unstaked_balance >= amount { amount } else { unstaked_balance };
            let deposit_amount = amount - near_liquidity;
            if deposit_amount > 0 {
                StakeBatchAction::DepositThenStake {
                    deposit: YoctoNear(deposit_amount),
                    stake: YoctoNear(amount),
                    near_liquidity: YoctoNear(near_liquidity),
                }
            } else {
                StakeBatchAction::Stake { stake: YoctoNear(amount), near_liquidity: YoctoNear(near_liquidity) }
            }
        } else if is_liquidity_needed {
            let near_liquidity = self.near_liquidity_pool;
            self.near_liquidity_pool = YoctoNear(0);
            StakeBatchAction::DepositAndStake(YoctoNear(amount + near_liquidity.0))
        } else {
            StakeBatchAction::DepositAndStake(YoctoNear(amount))
        }
    }

    fn add_liquidity(&mut self, near_liquidity: Option<YoctoNear>, now: BlockTimeHeight)
        requires
            old(self).wf(),
            old(self)@.add_liquidity_ok(near_liquidity),
        ensures
            final(self).wf(),
            final(self)@ == old(self)@.spec_add_liquidity(near_liquidity, now),
            final(self).accounts == old(self).accounts,
    {
        if let Some(liquidity) = near_liquidity {
            if liquidity.0 > 0 {
                self.near_liquidity_pool = YoctoNear(self.near_liquidity_pool.0 + liquidity.0);
                if let Some(value) = self.pending_withdrawal_near_value() {
                    if self.near_liquidity_pool.0 >= value.0 {
                        // move the liquidity to the NEAR balance that is available for withdrawal
                        self.near_liquidity_pool = YoctoNear(self.near_liquidity_pool.0 - value.0);
                        self.total_near.credit(value, now);
                        self.run_redeem_stake_batch_lock = None;
                        self.pop_redeem_stake_batch();
                    }
                }
            }
        }
    }

    /// the STAKE token value at `now` for the total staked NEAR balance and the current STAKE
    /// supply
    pub fn stake_token_value(&self, total_staked_near_balance: YoctoNear, now: BlockTimeHeight) -> (r: StakeTokenValue)
        ensures
            r == self@.refreshed_value(total_staked_near_balance.0, now),
            r.wf(),
    {
        StakeTokenValue::new(now, total_staked_near_balance, self.total_stake.balance)
    }

    fn update_stake_token_value(&mut self, staked_balance: YoctoNear, now: BlockTimeHeight)
        requires
            old(self).wf(),
        ensures
            final(self).wf(),
            final(self)@ == (ContractModel {
                stake_token_value: old(self)@.refreshed_value(staked_balance.0, now),
                ..old(self)@
            }),
            final(self).accounts == old(self).accounts,
    {
        self.stake_token_value = StakeTokenValue::new(now, staked_balance, self.total_stake.balance);
    }

    /// mints STAKE for the staked batch and refreshes the STAKE token value
    pub fn mint_stake_and_update_stake_token_value(&mut self, account: &StakingPoolAccount, batch: StakeBatch, now: BlockTimeHeight)
        requires
            old(self).wf(),
            old(self)@.staked_near_balance_ok(*account),
            old(self)@.total_stake.balance.0 + batch.balance.balance.0 <= u128::MAX,
        ensures
            final(self).wf(),
            final(self)@ == old(self)@.spec_mint_stake(*account, batch, now),
            final(self).accounts == old(self).accounts,
    {
        let staked_balance = self.staked_near_balance(account);
        let amount = batch.balance.balance;
        proof {
            lemma_near_to_stake_bounded(self.stake_token_value, amount.0 as nat);
        }
        // minted at the prior STAKE token value, which is stale if rewards were earned
        let minted = self.stake_token_value.near_to_stake(amount);
        self.total_stake.credit(minted, now);
        self.update_stake_token_value(staked_balance, now);
        proof {
            lemma_near_to_stake_bounded(self.stake_token_value, amount.0 as nat);
        }
        let batch_value = self.stake_token_value.near_to_stake(amount);
        if batch_value.0 != minted.0 {
            self.total_stake.debit(minted, now);
            self.total_stake.credit(batch_value, now);
            self.update_stake_token_value(staked_balance, now);
        }
    }

    /// the last step of running the stake batch, after the NEAR was staked and the account read
    /// again from the staking pool
    pub fn on_deposit_and_stake(
        &mut self,
        near_liquidity: Option<YoctoNear>,
        account: &StakingPoolAccount,
        now: BlockTimeHeight,
    )
        requires
            old(self).wf(),
            old(self)@.on_deposit_and_stake_ok(near_liquidity, *account, now),
        ensures
            final(self).wf(),
            final(self)@ == old(self)@.spec_on_deposit_and_stake(near_liquidity, *account, now),
    {
        let batch = self.stake_batch.unwrap();
        self.stake_batch = None;
        self.add_liquidity(near_liquidity, now);
        self.mint_stake_and_update_stake_token_value(account, batch, now);
        let ghost before = self@;
        let receipt = StakeBatchReceipt::new(batch.balance.balance, self.stake_token_value);
        self.stake_batch_receipts.insert(batch.batch_id.0, receipt);
        proof {
            assert(self@.redeem_stake_batch_receipts == before.redeem_stake_batch_receipts);
            assert forall|k: u128| #[trigger] self@.stake_batch_receipts.contains_key(k) implies self@.stake_batch_receipts[k].stake_token_value.wf() by {
                if k != batch.batch_id.0 {
                    assert(before.stake_batch_receipts.contains_key(k));
                }
            }
            assert forall|k: u128| #[trigger] self@.redeem_stake_batch_receipts.contains_key(k) implies self@.redeem_stake_batch_receipts[k].stake_token_value.wf() by {
                assert(before.redeem_stake_batch_receipts.contains_key(k));
            }
        }
        self.pop_stake_batch();
    }

    /// the first step of running the redeem stake batch, after the account was read from the
    /// staking pool: refreshes the STAKE token value and decides how much to unstake
    pub fn on_run_redeem_stake_batch(&mut self, account: &StakingPoolAccount, now: BlockTimeHeight) -> (r: UnstakeRequest)
        requires
            old(self).wf(),
            old(self)@.on_run_redeem_stake_batch_ok(*account, now),
        ensures
            final(self).wf(),
            (final(self)@, r) == old(self)@.spec_on_run_redeem_stake_batch(*account, now),
    {
        let batch = self.redeem_stake_batch.unwrap();
        let staked_balance = self.staked_near_balance(account);
        self.update_stake_token_value(staked_balance, now);
        let unstake_amount = self.stake_token_value.stake_to_near(batch.balance.balance);
        if account.staked_balance.0 < unstake_amount.0 {
            // when unstaking the remaining balance, some NEAR is probably already unstaked because
            // of rounding when the staking pool issued shares
            UnstakeRequest::UnstakeAll
        } else {
            UnstakeRequest::Unstake(unstake_amount)
        }
    }

    /// the batch has been unstaked with the staking pool
    pub fn on_unstake(&mut self, now: BlockTimeHeight)
        requires
            old(self).wf(),
            old(self)@.redeem_stake_batch is Some,
            old(self)@.redeem_stake_batch.unwrap().balance.balance.0 <= old(self)@.total_stake.balance.0,
        ensures
            final(self).wf(),
            final(self)@ == old(self)@.spec_on_unstake(now),
    {
        let ghost before = self@;
        let batch = self.redeem_stake_batch.unwrap();
        let receipt = batch.create_receipt(self.stake_token_value);
        self.redeem_stake_batch_receipts.insert(batch.batch_id.0, receipt);
        // update the total STAKE supply
        self.total_stake.debit(receipt.redeemed_stake, now);
        self.run_redeem_stake_batch_lock = Some(RedeemLock::PendingWithdrawal);
        proof {
            assert(self@.stake_batch_receipts == before.stake_batch_receipts);
            assert forall|k: u128| #[trigger] self@.stake_batch_receipts.contains_key(k) implies self@.stake_batch_receipts[k].stake_token_value.wf() by {
                assert(before.stake_batch_receipts.contains_key(k));
            }
            assert forall|k: u128| #[trigger] self@.redeem_stake_batch_receipts.contains_key(k) implies self@.redeem_stake_batch_receipts[k].stake_token_value.wf() by {
                if k != batch.batch_id.0 {
                    assert(before.redeem_stake_batch_receipts.contains_key(k));
                }
            }
        }
    }

    /// the unstaked NEAR has been withdrawn from the staking pool: returns the batch ID
    pub fn finalize_redeem_batch(&mut self, now: BlockTimeHeight) -> (r: BatchId)
        requires
            old(self).wf(),
            old(self)@.finalize_redeem_batch_ok(),
        ensures
            final(self).wf(),
            final(self)@ == old(self)@.spec_finalize_redeem_batch(now),
            r == old(self)@.redeem_stake_batch.unwrap().batch_id,
    {
        let batch = self.redeem_stake_batch.unwrap();
        let value = self.pending_withdrawal_near_value().unwrap();
        // update the total NEAR balance that is available for withdrawal
        self.total_near.credit(value, now);
        self.run_redeem_stake_batch_lock = None;
        self.pop_redeem_stake_batch();
        batch.batch_id
    }

    /// checks on the NEAR pending withdrawal after reading the account from the staking pool: if
    /// the staking pool still holds unstaked NEAR, it is withdrawn; otherwise it was already
    /// withdrawn and the batch is finalized
    pub fn on_redeeming_stake_pending_withdrawal(&mut self, account: &StakingPoolAccount, now: BlockTimeHeight) -> (r: PendingWithdrawalAction)
        requires
            old(self).wf(),
            account.unstaked_balance.0 > 0 ==> account.can_withdraw,
            account.unstaked_balance.0 == 0 ==> old(self)@.finalize_redeem_batch_ok(),
        ensures
            final(self).wf(),
            account.unstaked_balance.0 > 0 ==> final(self)@ == old(self)@ && r == PendingWithdrawalAction::WithdrawAll,
            account.unstaked_balance.0 == 0 ==> final(self)@ == old(self)@.spec_finalize_redeem_batch(now)
                && r == PendingWithdrawalAction::Finalized(old(self)@.redeem_stake_batch.unwrap().batch_id),
    {
        if account.unstaked_balance.0 > 0 {
            PendingWithdrawalAction::WithdrawAll
        } else {
            PendingWithdrawalAction::Finalized(self.finalize_redeem_batch(now))
        }
    }

    /// the unstaked NEAR has been withdrawn: returns the batch ID
    pub fn on_redeeming_stake_post_withdrawal(&mut self, now: BlockTimeHeight) -> (r: BatchId)
        requires
            old(self).wf(),
            old(self)@.finalize_redeem_batch_ok(),
        ensures
            final(self).wf(),
            final(self)@ == old(self)@.spec_finalize_redeem_batch(now),
            r == old(self)@.redeem_stake_batch.unwrap().batch_id,
    {
        self.finalize_redeem_batch(now)
    }

    /// releases the lock held while the stake batch runs
    pub fn release_run_stake_batch_lock(&mut self)
        requires
            old(self).wf(),
        ensures
            final(self).wf(),
            final(self)@ == (ContractModel { run_stake_batch_locked: false, ..old(self)@ }),
    {
        self.run_stake_batch_locked = false;
    }

    /// releases the lock held while unstaking, unless the unstaked NEAR is pending withdrawal
    pub fn release_run_redeem_stake_batch_unstaking_lock(&mut self)
        requires
            old(self).wf(),
        ensures
            final(self).wf(),
            final(self)@ == (if old(self)@.spec_is_unstaking() {
                ContractModel { run_redeem_stake_batch_lock: None, ..old(self)@ }
            } else {
                old(self)@
            }),
    {
        if self.is_unstaking() {
            self.run_redeem_stake_batch_lock = None;
        }
    }
}

/// Minting STAKE for a staked batch: the STAKE supply grows by exactly the batch's NEAR converted
/// at the STAKE token value refreshed from the staking pool's staked balance, taken over the
/// supply with the batch provisionally minted at the stored value; the STAKE token value is then
/// refreshed over the new supply, so its supply is the new total supply and its staked NEAR is
/// the staking pool's staked balance (never below the supply).
pub proof fn lemma_mint_stake_supply(m: ContractModel, account: StakingPoolAccount, batch: StakeBatch, now: BlockTimeHeight)
    requires
        m.wf(),
        m.staked_near_balance_ok(account),
        m.total_stake.balance.0 + batch.balance.balance.0 <= u128::MAX,
    ensures
        ({
            let after = m.spec_mint_stake(account, batch, now);
            let amount = batch.balance.balance.0 as nat;
            let staked = m.spec_staked_near_balance(account) as u128;
            let provisional = (m.total_stake.balance.0 + m.stake_token_value.spec_near_to_stake(amount)) as u128;
            let refreshed = StakeTokenValue {
                block_time_height: now,
                total_staked_near_balance: YoctoNear(if staked < provisional { provisional } else { staked }),
                total_stake_supply: YoctoStake(provisional),
            };
            let supply = after.total_stake.balance.0;
            &&& supply == m.total_stake.balance.0 + refreshed.spec_near_to_stake(amount)
            &&& after.stake_token_value.total_stake_supply.0 == supply
            &&& after.stake_token_value.total_staked_near_balance.0 == (if staked < supply { supply } else { staked })
            &&& after.stake_token_value.block_time_height == now
        }),
{
    let amount = batch.balance.balance.0 as nat;
    let staked = m.spec_staked_near_balance(account) as u128;
    lemma_near_to_stake_bounded(m.stake_token_value, amount);
    let minted = m.stake_token_value.spec_near_to_stake(amount) as u128;
    let m1 = ContractModel { total_stake: m.total_stake.spec_credit(minted, now), ..m };
    assert(m1.total_stake.balance.0 == m.total_stake.balance.0 + minted);
    let v2 = m1.refreshed_value(staked, now);
    assert(v2.wf());
    lemma_near_to_stake_bounded(v2, amount);
}

/// Finalizing a redeem stake batch makes the NEAR value of the STAKE redeemed on its receipt
/// available for withdrawal: the total NEAR rises by the receipt's redeemed STAKE converted to
/// NEAR at the receipt's STAKE token value. That is exactly the NEAR an account whose redeem
/// batch holds all of the receipt's STAKE is credited when it then claims the receipt.
pub proof fn lemma_finalize_credits_receipt_near_value(
    m: ContractModel,
    account: Account,
    batch: RedeemStakeBatch,
    now: BlockTimeHeight,
)
    requires
        m.wf(),
        m.finalize_redeem_batch_ok(),
        batch.batch_id == m.redeem_stake_batch.unwrap().batch_id,
        batch.balance.balance == m.redeem_stake_batch_receipts[batch.batch_id.0].redeemed_stake,
        account.near_amount() + m.redeem_stake_batch_receipts[batch.batch_id.0].stake_token_value.spec_stake_to_near(
            batch.balance.balance.0 as nat,
        ) <= u128::MAX,
    ensures
        ({
            let receipt = m.redeem_stake_batch_receipts[batch.batch_id.0];
            let near = receipt.stake_token_value.spec_stake_to_near(receipt.redeemed_stake.0 as nat);
            let after = m.spec_finalize_redeem_batch(now);
            &&& after.total_near.balance.0 == m.total_near.balance.0 + near
            &&& after.redeem_stake_batch_receipts == m.redeem_stake_batch_receipts
            &&& after.redeem_slot(account, Some(batch), now).1.near_amount() == account.near_amount() + near
        }),
{
    let receipt = m.redeem_stake_batch_receipts[batch.batch_id.0];
    lemma_stake_to_near_at_least(receipt.stake_token_value, receipt.redeemed_stake.0 as nat);
}

} // verus!
