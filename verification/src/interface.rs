//! Update records for the contract configuration: every field is optional and only the
//! fields that are present are applied.

use crate::amounts::{Gas, YoctoNear};
use vstd::prelude::*;

verus! {

#[derive(Debug, Clone, Copy)]
pub struct Config {
    pub storage_cost_per_byte: Option<YoctoNear>,
    pub gas_config: Option<GasConfig>,
}

#[derive(Debug, Clone, Copy)]
pub struct GasConfig {
    pub staking_pool: Option<StakingPoolGasConfig>,
    pub callbacks: Option<CallBacksGasConfig>,
    pub function_call_promise: Option<Gas>,
    pub function_call_promise_data_dependency: Option<Gas>,
}

#[derive(Debug, Clone, Copy)]
pub struct StakingPoolGasConfig {
    pub deposit_and_stake: Option<Gas>,
    pub deposit: Option<Gas>,
    pub stake: Option<Gas>,
    pub unstake: Option<Gas>,
    pub withdraw: Option<Gas>,
    pub get_account: Option<Gas>,
    pub ping: Option<Gas>,
}

#[derive(Debug, Clone, Copy)]
pub struct CallBacksGasConfig {
    pub on_run_stake_batch: Option<Gas>,
    pub on_deposit_and_stake: Option<Gas>,
    pub on_unstake: Option<Gas>,
    pub unlock: Option<Gas>,
    pub on_run_redeem_stake_batch: Option<Gas>,
    pub on_redeeming_stake_pending_withdrawal: Option<Gas>,
    pub on_redeeming_stake_post_withdrawal: Option<Gas>,
    pub resolve_transfer_gas: Option<Gas>,
    pub refresh_stake_token_value: Option<Gas>,
}

} // verus!
