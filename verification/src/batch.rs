//! Batches gather NEAR deposits to stake and STAKE to redeem; receipts record the outcome of a
//! batch run so that accounts can claim their share.

use crate::amounts::{BatchId, BlockTimeHeight, EpochHeight, YoctoNear, YoctoStake};
use crate::balance::{TimestampedNearBalance, TimestampedStakeBalance};
use crate::stake_token_value::StakeTokenValue;
use vstd::prelude::*;

verus! {

/// number of epochs after which unstaked NEAR becomes available for withdrawal from the
/// staking pool
pub const UNSTAKED_NEAR_FUNDS_NUM_EPOCHS_TO_UNLOCK: u64 = 4;

#[derive(Debug, Clone, Copy, PartialEq, Eq, Structural)]
pub enum RedeemLock {
    Unstaking,
    /// while locked on pending withdrawal of unstaked funds, the receipt for the specified
    /// batch ID cannot be claimed
    PendingWithdrawal,
}

/// `Staking` -> `Staked` -> done
#[derive(Debug, Clone, Copy)]
pub enum StakeLock {
    /// requests have been submitted to the staking pool to deposit and stake funds
    Staking,
    /// the batch funds have been staked with the staking pool, but the staked batch is not yet
    /// processed, i.e., balances need to be updated
    Staked { near_liquidity: Option<YoctoNear>, staked_balance: YoctoNear, unstaked_balance: YoctoNear },
    /// balances need to be locked while refreshing STAKE token value
    RefreshingStakeTokenValue,
}

/// gathers NEAR deposits to stake into a batch
#[derive(Debug, Clone, Copy)]
pub struct StakeBatch {
    pub batch_id: BatchId,
    pub balance: TimestampedNearBalance,
}

impl StakeBatch {
    pub fn new(batch_id: BatchId, amount: YoctoNear, now: BlockTimeHeight) -> (r: Self)
        ensures
            r.batch_id == batch_id,
            r.balance == TimestampedNearBalance::spec_new(amount, now),
    {
        StakeBatch { batch_id, balance: TimestampedNearBalance::new(amount, now) }
    }

    pub fn id(&self) -> (r: BatchId)
        ensures
            r == self.batch_id,
    {
        self.batch_id
    }

    pub fn balance(&self) -> (r: TimestampedNearBalance)
        ensures
            r == self.balance,
    {
        self.balance
    }

    pub fn add(&mut self, amount: YoctoNear, now: BlockTimeHeight)
        requires
            old(self).balance.balance.0 + amount.0 <= u128::MAX,
        ensures
            final(self).batch_id == old(self).batch_id,
            final(self).balance == old(self).balance.spec_credit(amount.0, now),
            final(self).balance.balance.0 == old(self).balance.balance.0 + amount.0,
    {
        self.balance.credit(amount, now);
    }

    /// returns the updated balance
    pub fn remove(&mut self, amount: YoctoNear, now: BlockTimeHeight) -> (r: YoctoNear)
        requires
            amount.0 <= old(self).balance.balance.0,
        ensures
            final(self).batch_id == old(self).batch_id,
            final(self).balance == old(self).balance.spec_debit(amount.0, now),
            final(self).balance.balance.0 == old(self).balance.balance.0 - amount.0,
            r == final(self).balance.balance,
    {
        self.balance.debit(amount, now)
    }
}

/// gathers STAKE to redeem into a batch
#[derive(Debug, Clone, Copy)]
pub struct RedeemStakeBatch {
    pub batch_id: BatchId,
    pub balance: TimestampedStakeBalance,
}

impl RedeemStakeBatch {
    pub fn new(batch_id: BatchId, balance: YoctoStake, now: BlockTimeHeight) -> (r: Self)
        ensures
            r.batch_id == batch_id,
            r.balance == TimestampedStakeBalance::spec_new(balance, now),
    {
        RedeemStakeBatch { batch_id, balance: TimestampedStakeBalance::new(balance, now) }
    }

    pub fn id(&self) -> (r: BatchId)
        ensures
            r == self.batch_id,
    {
        self.batch_id
    }

    pub fn balance(&self) -> (r: TimestampedStakeBalance)
        ensures
            r == self.balance,
    {
        self.balance
    }

    pub fn add(&mut self, amount: YoctoStake, now: BlockTimeHeight)
        requires
            old(self).balance.balance.0 + amount.0 <= u128::MAX,
        ensures
            final(self).batch_id == old(self).batch_id,
            final(self).balance == old(self).balance.spec_credit(amount.0, now),
            final(self).balance.balance.0 == old(self).balance.balance.0 + amount.0,
    {
        self.balance.credit(amount, now);
    }

    /// returns the updated balance
    pub fn remove(&mut self, amount: YoctoStake, now: BlockTimeHeight) -> (r: YoctoStake)
        requires
            amount.0 <= old(self).balance.balance.0,
        ensures
            final(self).batch_id == old(self).batch_id,
            final(self).balance == old(self).balance.spec_debit(amount.0, now),
            final(self).balance.balance.0 == old(self).balance.balance.0 - amount.0,
            r == final(self).balance.balance,
    {
        self.balance.debit(amount, now)
    }

    /// the receipt for running this batch at the given STAKE token value
    pub fn create_receipt(&self, stake_token_value: StakeTokenValue) -> (r: RedeemStakeBatchReceipt)
        ensures
            r.redeemed_stake == self.balance.balance,
            r.stake_token_value == stake_token_value,
    {
        RedeemStakeBatchReceipt::new(self.balance.balance, stake_token_value)
    }
}

/// records how much NEAR a stake batch staked and the STAKE token value it was staked at;
/// as accounts claim their STAKE, the NEAR is debited
#[derive(Debug, Clone, Copy)]
pub struct StakeBatchReceipt {
    pub staked_near: YoctoNear,
    pub stake_token_value: StakeTokenValue,
}

impl StakeBatchReceipt {
    pub fn new(staked_near: YoctoNear, stake_token_value: StakeTokenValue) -> (r: Self)
        ensures
            r.staked_near == staked_near,
            r.stake_token_value == stake_token_value,
    {
        StakeBatchReceipt { staked_near, stake_token_value }
    }

    pub fn staked_near(&self) -> (r: YoctoNear)
        ensures
            r == self.staked_near,
    {
        self.staked_near
    }

    pub fn stake_token_value(&self) -> (r: StakeTokenValue)
        ensures
            r == self.stake_token_value,
    {
        self.stake_token_value
    }

    /// used to track when an account has claimed their STAKE tokens for the NEAR they have staked
    pub fn stake_tokens_issued(&mut self, staked_near: YoctoNear)
        requires
            staked_near.0 <= old(self).staked_near.0,
        ensures
            final(self).staked_near.0 == old(self).staked_near.0 - staked_near.0,
            final(self).stake_token_value == old(self).stake_token_value,
    {
        self.staked_near = YoctoNear(self.staked_near.0 - staked_near.0);
    }

    /// true when STAKE has been claimed for all the NEAR staked in the batch
    pub fn all_claimed(&self) -> (r: bool)
        ensures
            r == (self.staked_near.0 == 0),
    {
        self.staked_near.0 == 0
    }
}

/// records how much STAKE a redeem batch redeemed and the STAKE token value it was redeemed at;
/// as accounts claim their NEAR, the STAKE is debited
#[derive(Debug, Clone, Copy)]
pub struct RedeemStakeBatchReceipt {
    pub redeemed_stake: YoctoStake,
    pub stake_token_value: StakeTokenValue,
}

impl RedeemStakeBatchReceipt {
    pub fn new(redeemed_stake: YoctoStake, stake_token_value: StakeTokenValue) -> (r: Self)
        ensures
            r.redeemed_stake == redeemed_stake,
            r.stake_token_value == stake_token_value,
    {
        RedeemStakeBatchReceipt { redeemed_stake, stake_token_value }
    }

    /// STAKE for which NEAR remains to be claimed
    pub fn redeemed_stake(&self) -> (r: YoctoStake)
        ensures
            r == self.redeemed_stake,
    {
        self.redeemed_stake
    }

    /// the STAKE token value at the point in time when the batch was run
    pub fn stake_token_value(&self) -> (r: StakeTokenValue)
        ensures
            r == self.stake_token_value,
    {
        self.stake_token_value
    }

    /// the epoch within which the unstaked NEAR funds will be available for withdrawal from the
    /// staking pool
    pub open spec fn spec_withdrawal_availability(self) -> int {
        self.stake_token_value.block_time_height.epoch_height.0 + UNSTAKED_NEAR_FUNDS_NUM_EPOCHS_TO_UNLOCK
    }

    pub fn unstaked_near_withdrawal_availability(&self) -> (r: EpochHeight)
        requires
            self.spec_withdrawal_availability() <= u64::MAX,
        ensures
            r.0 == self.spec_withdrawal_availability(),
    {
        EpochHeight(
            self.stake_token_value.block_time_height.epoch_height.0 + UNSTAKED_NEAR_FUNDS_NUM_EPOCHS_TO_UNLOCK,
        )
    }

    /// true if unstaked funds are available to withdraw at the `current` epoch
    pub fn unstaked_funds_available_for_withdrawal(&self, current: EpochHeight) -> (r: bool)
        requires
            self.spec_withdrawal_availability() <= u64::MAX,
        ensures
            r == (self.spec_withdrawal_availability() <= current.0),
    {
        self.unstaked_near_withdrawal_availability().0 <= current.0
    }

    /// used to track claims against the receipt: as accounts claim NEAR for the STAKE they
    /// redeemed in the batch, the STAKE is debited
    pub fn stake_tokens_redeemed(&mut self, redeemed_stake: YoctoStake)
        requires
            redeemed_stake.0 <= old(self).redeemed_stake.0,
        ensures
            final(self).redeemed_stake.0 == old(self).redeemed_stake.0 - redeemed_stake.0,
            final(self).stake_token_value == old(self).stake_token_value,
    {
        self.redeemed_stake = YoctoStake(self.redeemed_stake.0 - redeemed_stake.0);
    }

    /// true when NEAR has been claimed for all the STAKE redeemed in the batch
    pub fn all_claimed(&self) -> (r: bool)
        ensures
            r == (self.redeemed_stake.0 == 0),
    {
        self.redeemed_stake.0 == 0
    }

    /// the NEAR value of the STAKE that remains to be claimed
    pub fn stake_near_value(&self) -> (r: YoctoNear)
        requires
            self.stake_token_value.spec_stake_to_near(self.redeemed_stake.0 as nat) <= u128::MAX,
        ensures
            r.0 == self.stake_token_value.spec_stake_to_near(self.redeemed_stake.0 as nat),
    {
        self.stake_token_value.stake_to_near(self.redeemed_stake)
    }
}

} // verus!
