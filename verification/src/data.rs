//! The first generation of the contract's persisted data: balances stamped with the block time
//! of their last change, the accounts with their per staking pool STAKE balances, the staking
//! pool activities, and the configuration.

pub mod accounts;
pub mod activities;
pub mod config;
pub mod staking_pools;

use crate::amounts::BlockTimeHeight;
use vstd::prelude::*;

verus! {

pub type BlockTimestamp = u64;

/// a balance stamped with the block time of its last change
#[derive(Debug, Clone, Copy)]
pub struct TimestampedBalance {
    pub balance: u128,
    pub block_height: u64,
    pub block_timestamp: BlockTimestamp,
    pub epoch_height: u64,
}

impl TimestampedBalance {
    /// the balance stamped with `now`
    pub open spec fn spec_new(balance: u128, now: BlockTimeHeight) -> Self {
        TimestampedBalance {
            balance,
            block_height: now.block_height.0,
            block_timestamp: now.block_timestamp.0,
            epoch_height: now.epoch_height.0,
        }
    }

    /// the block time is taken from `now`, the current block
    pub fn new(balance: u128, now: BlockTimeHeight) -> (r: Self)
        ensures
            r == Self::spec_new(balance, now),
    {
        TimestampedBalance {
            balance,
            block_height: now.block_height.0,
            block_timestamp: now.block_timestamp.0,
            epoch_height: now.epoch_height.0,
        }
    }

    pub fn balance(&self) -> (r: u128)
        ensures
            r == self.balance,
    {
        self.balance
    }

    pub fn block_height(&self) -> (r: u64)
        ensures
            r == self.block_height,
    {
        self.block_height
    }

    pub fn block_timestamp(&self) -> (r: BlockTimestamp)
        ensures
            r == self.block_timestamp,
    {
        self.block_timestamp
    }

    pub fn epoch_height(&self) -> (r: u64)
        ensures
            r == self.epoch_height,
    {
        self.epoch_height
    }

    /// credits the amount and stamps the balance with `now`
    pub fn credit(&mut self, amount: u128, now: BlockTimeHeight)
        requires
            old(self).balance + amount <= u128::MAX,
        ensures
            *final(self) == Self::spec_new((old(self).balance + amount) as u128, now),
    {
        self.balance = self.balance + amount;
        self.update_timestamp(now);
    }

    /// debits the amount, which cannot be greater than the balance, and stamps the balance with
    /// `now`
    pub fn debit(&mut self, amount: u128, now: BlockTimeHeight)
        requires
            amount <= old(self).balance,
        ensures
            *final(self) == Self::spec_new((old(self).balance - amount) as u128, now),
    {
        self.balance = self.balance - amount;
        self.update_timestamp(now);
    }

    fn update_timestamp(&mut self, now: BlockTimeHeight)
        ensures
            *final(self) == Self::spec_new(old(self).balance, now),
    {
        self.epoch_height = now.epoch_height.0;
        self.block_timestamp = now.block_timestamp.0;
        self.block_height = now.block_height.0;
    }

    /// balances compare by amount only, whatever their block times
    pub fn eq(&self, other: &Self) -> (r: bool)
        ensures
            r == (self.balance == other.balance),
    {
        self.balance == other.balance
    }
}

} // verus!
