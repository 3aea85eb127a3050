//! Token balances stamped with the block time of their last change.

use crate::amounts::{BlockHeight, BlockTimeHeight, BlockTimestamp, EpochHeight, YoctoNear, YoctoStake};
use vstd::prelude::*;

verus! {

/// NEAR balance stamped with the block time of its last change
#[derive(Debug, Clone, Copy)]
pub struct TimestampedNearBalance {
    pub balance: YoctoNear,
    pub block_height: BlockHeight,
    pub block_timestamp: BlockTimestamp,
    pub epoch_height: EpochHeight,
}

impl TimestampedNearBalance {
    /// the balance stamped with `now`
    pub open spec fn spec_new(balance: YoctoNear, now: BlockTimeHeight) -> Self {
        TimestampedNearBalance {
            balance,
            block_height: now.block_height,
            block_timestamp: now.block_timestamp,
            epoch_height: now.epoch_height,
        }
    }

    /// the balance after crediting `amount` at `now`: a zero credit changes nothing
    pub open spec fn spec_credit(self, amount: u128, now: BlockTimeHeight) -> Self {
        if amount == 0 {
            self
        } else {
            Self::spec_new(YoctoNear((self.balance.0 + amount) as u128), now)
        }
    }

    /// the balance after debiting `amount` at `now`: a zero debit changes nothing
    pub open spec fn spec_debit(self, amount: u128, now: BlockTimeHeight) -> Self {
        if amount == 0 {
            self
        } else {
            Self::spec_new(YoctoNear((self.balance.0 - amount) as u128), now)
        }
    }

    /// the block time is taken from `now`, the current block
    pub fn new(balance: YoctoNear, now: BlockTimeHeight) -> (r: Self)
        ensures
            r == Self::spec_new(balance, now),
    {
        TimestampedNearBalance {
            balance,
            block_height: now.block_height,
            block_timestamp: now.block_timestamp,
            epoch_height: now.epoch_height,
        }
    }

    pub fn balance(&self) -> (r: YoctoNear)
        ensures
            r == self.balance,
    {
        self.balance
    }

    pub fn amount(&self) -> (r: YoctoNear)
        ensures
            r == self.balance,
    {
        self.balance
    }

    pub fn block_height(&self) -> (r: BlockHeight)
        ensures
            r == self.block_height,
    {
        self.block_height
    }

    pub fn block_timestamp(&self) -> (r: BlockTimestamp)
        ensures
            r == self.block_timestamp,
    {
        self.block_timestamp
    }

    pub fn epoch_height(&self) -> (r: EpochHeight)
        ensures
            r == self.epoch_height,
    {
        self.epoch_height
    }

    /// returns the updated balance
    pub fn credit(&mut self, amount: YoctoNear, now: BlockTimeHeight) -> (r: YoctoNear)
        requires
            old(self).balance.0 + amount.0 <= u128::MAX,
        ensures
            *final(self) == old(self).spec_credit(amount.0, now),
            r == final(self).balance,
            final(self).balance.0 == old(self).balance.0 + amount.0,
    {
        if amount.0 == 0 {
            return self.balance;
        }
        self.balance = YoctoNear(self.balance.0 + amount.0);
        self.update_timestamp(now);
        self.balance
    }

    /// returns the updated balance
    pub fn debit(&mut self, amount: YoctoNear, now: BlockTimeHeight) -> (r: YoctoNear)
        requires
            amount.0 <= old(self).balance.0,
        ensures
            *final(self) == old(self).spec_debit(amount.0, now),
            r == final(self).balance,
            final(self).balance.0 == old(self).balance.0 - amount.0,
    {
        if amount.0 == 0 {
            return self.balance;
        }
        self.balance = YoctoNear(self.balance.0 - amount.0);
        self.update_timestamp(now);
        self.balance
    }

    fn update_timestamp(&mut self, now: BlockTimeHeight)
        ensures
            *final(self) == Self::spec_new(old(self).balance, now),
    {
        self.epoch_height = now.epoch_height;
        self.block_timestamp = now.block_timestamp;
        self.block_height = now.block_height;
    }
}

/// STAKE balance stamped with the block time of its last change
#[derive(Debug, Clone, Copy)]
pub struct TimestampedStakeBalance {
    pub balance: YoctoStake,
    pub block_height: BlockHeight,
    pub block_timestamp: BlockTimestamp,
    pub epoch_height: EpochHeight,
}

impl TimestampedStakeBalance {
    /// the balance stamped with `now`
    pub open spec fn spec_new(balance: YoctoStake, now: BlockTimeHeight) -> Self {
        TimestampedStakeBalance {
            balance,
            block_height: now.block_height,
            block_timestamp: now.block_timestamp,
            epoch_height: now.epoch_height,
        }
    }

    /// the balance after crediting `amount` at `now`: a zero credit changes nothing
    pub open spec fn spec_credit(self, amount: u128, now: BlockTimeHeight) -> Self {
        if amount == 0 {
            self
        } else {
            Self::spec_new(YoctoStake((self.balance.0 + amount) as u128), now)
        }
    }

    /// the balance after debiting `amount` at `now`: a zero debit changes nothing
    pub open spec fn spec_debit(self, amount: u128, now: BlockTimeHeight) -> Self {
        if amount == 0 {
            self
        } else {
            Self::spec_new(YoctoStake((self.balance.0 - amount) as u128), now)
        }
    }

    /// the block time is taken from `now`, the current block
    pub fn new(balance: YoctoStake, now: BlockTimeHeight) -> (r: Self)
        ensures
            r == Self::spec_new(balance, now),
    {
        TimestampedStakeBalance {
            balance,
            block_height: now.block_height,
            block_timestamp: now.block_timestamp,
            epoch_height: now.epoch_height,
        }
    }

    pub fn balance(&self) -> (r: YoctoStake)
        ensures
            r == self.balance,
    {
        self.balance
    }

    pub fn amount(&self) -> (r: YoctoStake)
        ensures
            r == self.balance,
    {
        self.balance
    }

    pub fn block_height(&self) -> (r: BlockHeight)
        ensures
            r == self.block_height,
    {
        self.block_height
    }

    pub fn block_timestamp(&self) -> (r: BlockTimestamp)
        ensures
            r == self.block_timestamp,
    {
        self.block_timestamp
    }

    pub fn epoch_height(&self) -> (r: EpochHeight)
        ensures
            r == self.epoch_height,
    {
        self.epoch_height
    }

    /// returns the updated balance
    pub fn credit(&mut self, amount: YoctoStake, now: BlockTimeHeight) -> (r: YoctoStake)
        requires
            old(self).balance.0 + amount.0 <= u128::MAX,
        ensures
            *final(self) == old(self).spec_credit(amount.0, now),
            r == final(self).balance,
            final(self).balance.0 == old(self).balance.0 + amount.0,
    {
        if amount.0 == 0 {
            return self.balance;
        }
        self.balance = YoctoStake(self.balance.0 + amount.0);
        self.update_timestamp(now);
        self.balance
    }

    /// returns the updated balance
    pub fn debit(&mut self, amount: YoctoStake, now: BlockTimeHeight) -> (r: YoctoStake)
        requires
            amount.0 <= old(self).balance.0,
        ensures
            *final(self) == old(self).spec_debit(amount.0, now),
            r == final(self).balance,
            final(self).balance.0 == old(self).balance.0 - amount.0,
    {
        if amount.0 == 0 {
            return self.balance;
        }
        self.balance = YoctoStake(self.balance.0 - amount.0);
        self.update_timestamp(now);
        self.balance
    }

    fn update_timestamp(&mut self, now: BlockTimeHeight)
        ensures
            *final(self) == Self::spec_new(old(self).balance, now),
    {
        self.epoch_height = now.epoch_height;
        self.block_timestamp = now.block_timestamp;
        self.block_height = now.block_height;
    }
}

/// balances compare by amount only, whatever their block times
impl PartialEq for TimestampedNearBalance {
    fn eq(&self, other: &Self) -> (r: bool) {
        self.balance.0 == other.balance.0
    }
}

impl vstd::std_specs::cmp::PartialEqSpecImpl for TimestampedNearBalance {
    open spec fn obeys_eq_spec() -> bool {
        true
    }

    open spec fn eq_spec(&self, other: &Self) -> bool {
        self.balance.0 == other.balance.0
    }
}

/// balances compare by amount only, whatever their block times
impl PartialEq for TimestampedStakeBalance {
    fn eq(&self, other: &Self) -> (r: bool) {
        self.balance.0 == other.balance.0
    }
}

impl vstd::std_specs::cmp::PartialEqSpecImpl for TimestampedStakeBalance {
    open spec fn obeys_eq_spec() -> bool {
        true
    }

    open spec fn eq_spec(&self, other: &Self) -> bool {
        self.balance.0 == other.balance.0
    }
}

} // verus!
