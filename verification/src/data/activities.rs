//! Staking pool activities in flight.

use crate::data::TimestampedBalance;
use vstd::prelude::*;

verus! {

/// tracks `deposit_and_stake` staking pool function calls
#[derive(Debug, Clone, Copy)]
pub struct DepositAndStake(pub TimestampedBalance);

/// tracks `unstake` staking pool function calls
#[derive(Debug, Clone, Copy)]
pub struct Unstake(pub TimestampedBalance);

/// tracks `withdraw_all` staking pool function calls
#[derive(Debug, Clone, Copy)]
pub struct WithdrawAll {
    /// funds will be available for withdrawal at the specified epoch height
    pub epoch_height_availability: u64,
}

impl WithdrawAll {
    pub fn epoch_height_availability(&self) -> (r: u64)
        ensures
            r == self.epoch_height_availability,
    {
        self.epoch_height_availability
    }

    pub fn set_epoch_height_availability(&mut self, epoch_height: u64) -> (r: &mut Self)
        ensures
            r.epoch_height_availability == epoch_height,
            *final(self) == *final(r),
    {
        self.epoch_height_availability = epoch_height;
        self
    }
}

} // verus!
