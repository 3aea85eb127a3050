//! Config updates: all config properties are optional, so only the properties that change need
//! to be specified when updating the config.

use vstd::prelude::*;

verus! {

#[derive(Debug)]
pub struct ConfigParseError(pub String);

impl ConfigParseError {
    pub fn as_ref(&self) -> (r: &str)
        ensures
            r@ == self.0@,
    {
        self.0.as_str()
    }
}

#[derive(Debug, Default)]
pub struct Config {
    /// u128 values are encoded as decimal strings, because TOML and JSON do not support u128
    pub storage_cost_per_byte: Option<String>,
    pub gas_config: Option<GasConfig>,
}

#[derive(Debug, Default)]
pub struct GasConfig {
    pub staking_pool: Option<StakingPoolGasConfig>,
    pub callbacks: Option<CallBacksGasConfig>,
}

#[derive(Debug, Default, Clone, Copy)]
pub struct StakingPoolGasConfig {
    pub deposit_and_stake: Option<u64>,
    pub unstake: Option<u64>,
    pub withdraw: Option<u64>,
    pub get_account_balance: Option<u64>,
}

#[derive(Debug, Default, Clone, Copy)]
pub struct CallBacksGasConfig {
    pub on_deposit_and_stake: Option<u64>,
}

} // verus!
