//! What a STAKE redemption recorded: the STAKE token value at the time, as totals.

use crate::wide::{wide, wide_as_u128, wide_div, wide_mul};
use vstd::prelude::*;

verus! {

pub const YOCTO: u128 = 1_000_000_000_000_000_000_000_000;

#[derive(Debug, Clone, Copy)]
pub struct StakeTokenRedemption {
    pub batch: u64,
    pub total_stake_supply: u128,
    pub total_staked_near: u128,
    pub block_height: u64,
    pub block_timestamp: u64,
    pub epoch_height: u64,
    pub total_stake_tokens_redeemed: u128,
    pub total_near_tokens_unstaked: u128,
}

impl StakeTokenRedemption {
    /// `stake` yoctoSTAKE in yoctoNEAR at the recorded totals, rounded down
    pub open spec fn spec_to_near(self, stake: u128) -> int {
        stake * self.total_staked_near / self.total_stake_supply as int
    }

    /// converts yoctoSTAKE to yoctoNEAR, rounded down
    pub fn to_near(&self, stake: u128) -> (r: u128)
        requires
            self.total_stake_supply > 0,
            self.spec_to_near(stake) <= u128::MAX,
        ensures
            r == self.spec_to_near(stake),
    {
        proof {
            assert(stake * self.total_staked_near <= u128::MAX * u128::MAX) by (nonlinear_arith);
        }
        let product = wide_mul(&wide(stake), &wide(self.total_staked_near));
        let value = wide_div(&product, &wide(self.total_stake_supply));
        wide_as_u128(&value)
    }

    /// the value of 10^24 yoctoSTAKE in yoctoNEAR, rounded down
    pub fn yocto_stake_value(&self) -> (r: u128)
        requires
            self.total_stake_supply > 0,
            self.spec_to_near(YOCTO) <= u128::MAX,
        ensures
            r == self.spec_to_near(YOCTO),
    {
        self.to_near(YOCTO)
    }
}

} // verus!
