//! Contract configuration: storage pricing, gas allotments for staking pool calls and
//! callbacks, and the contract owner's share of earnings.

use crate::amounts::{Gas, YoctoNear, TGAS, YOCTO};
use crate::interface;
use vstd::prelude::*;

verus! {

/// min contract balance required above the contract's locked balance used for storage staking to
/// ensure the contract is operational
pub const CONTRACT_MIN_OPERATIONAL_BALANCE: u128 = YOCTO;

/// the value that an optional update field gives: the update where present, else the current value
pub open spec fn merged(update: Option<Gas>, current: Gas) -> Gas {
    match update {
        Some(gas) => gas,
        None => current,
    }
}

/// `n` TGas
pub open spec fn tgas(n: u64) -> Gas {
    Gas((n * TGAS) as u64)
}

/// true if the gas amount is within `min` to `max` TGas inclusive
pub open spec fn spec_gas_in_range(gas: Gas, min: u8, max: u8) -> bool {
    TGAS * min <= gas.0 <= TGAS * max
}

/// an optional gas update is acceptable if it is absent or within range
pub open spec fn update_in_range(update: Option<Gas>, min: u8, max: u8) -> bool {
    match update {
        Some(gas) => spec_gas_in_range(gas, min, max),
        None => true,
    }
}

/// checks that the gas amount is within `min` to `max` TGas inclusive
pub fn gas_in_range(gas: Gas, min: u8, max: u8) -> (r: bool)
    ensures
        r == spec_gas_in_range(gas, min, max),
{
    let lo: u64 = TGAS * (min as u64);
    let hi: u64 = TGAS * (max as u64);
    lo <= gas.0 && gas.0 <= hi
}

fn update_gas_in_range(update: Option<Gas>, min: u8, max: u8) -> (r: bool)
    ensures
        r == update_in_range(update, min, max),
{
    match update {
        Some(gas) => gas_in_range(gas, min, max),
        None => true,
    }
}

fn merge_gas(update: Option<Gas>, current: Gas) -> (r: Gas)
    ensures
        r == merged(update, current),
{
    match update {
        Some(gas) => gas,
        None => current,
    }
}

#[derive(Debug, Clone, Copy)]
pub struct Config {
    pub storage_cost_per_byte: YoctoNear,
    pub gas_config: GasConfig,
    /// percentage of contract gas rewards that are distributed to the contract owner
    /// - the rest of the contract earnings are staked to boost the staking rewards for user accounts
    /// - must be a number between 0-100
    pub contract_owner_earnings_percentage: u8,
}

impl Default for Config {
    fn default() -> (r: Self)
        ensures
            r.storage_cost_per_byte.0 == 100_000_000_000_000_000_000,
            r.gas_config == GasConfig::spec_default(),
            r.contract_owner_earnings_percentage == 50,
    {
        Config {
            // 1E20 yoctoNEAR (0.00001 NEAR) per byte or 10kb per NEAR token
            storage_cost_per_byte: YoctoNear(100_000_000_000_000_000_000),
            gas_config: GasConfig::default(),
            contract_owner_earnings_percentage: 50,
        }
    }
}

impl Config {
    pub fn storage_cost_per_byte(&self) -> (r: YoctoNear)
        ensures
            r == self.storage_cost_per_byte,
    {
        self.storage_cost_per_byte
    }

    pub fn gas_config(&self) -> (r: GasConfig)
        ensures
            r == self.gas_config,
    {
        self.gas_config
    }

    /// percentage of contract gas rewards that are distributed to the contract owner
    pub fn contract_owner_earnings_percentage(&self) -> (r: u8)
        ensures
            r == self.contract_owner_earnings_percentage,
    {
        self.contract_owner_earnings_percentage
    }

    /// the contract owner's earnings percentage is a number between 0-100
    pub open spec fn wf(self) -> bool {
        self.contract_owner_earnings_percentage <= 100
    }

    /// the configuration that results from applying the update
    pub open spec fn spec_merge(self, config: interface::Config) -> Self {
        Config {
            storage_cost_per_byte: match config.storage_cost_per_byte {
                Some(cost) => cost,
                None => self.storage_cost_per_byte,
            },
            gas_config: match config.gas_config {
                Some(gas_config) => self.gas_config.spec_merge(gas_config),
                None => self.gas_config,
            },
            ..self
        }
    }

    /// the update passes the validation that [merge](Config::merge) performs
    pub open spec fn spec_merge_valid(self, config: interface::Config) -> bool {
        &&& (config.storage_cost_per_byte matches Some(cost) ==> cost.0 > 0)
        &&& (config.gas_config matches Some(gas_config) ==> self.gas_config.spec_merge_valid(
            gas_config,
        ))
    }

    /// checks the validation that [merge](Config::merge) performs
    pub fn merge_is_valid(&self, config: &interface::Config) -> (r: bool)
        ensures
            r == self.spec_merge_valid(*config),
    {
        let cost_ok = match config.storage_cost_per_byte {
            Some(cost) => cost.0 > 0,
            None => true,
        };
        let gas_ok = match config.gas_config {
            Some(gas_config) => self.gas_config.merge_is_valid(&gas_config),
            None => true,
        };
        cost_ok && gas_ok
    }

    /// applies the update after validating it
    pub fn merge(&mut self, config: interface::Config)
        requires
            old(self).spec_merge_valid(config),
        ensures
            *final(self) == old(self).spec_merge(config),
            final(self).storage_cost_per_byte == (match config.storage_cost_per_byte {
                Some(cost) => cost,
                None => old(self).storage_cost_per_byte,
            }),
            final(self).gas_config == (match config.gas_config {
                Some(gas_config) => old(self).gas_config.spec_merge(gas_config),
                None => old(self).gas_config,
            }),
            final(self).contract_owner_earnings_percentage
                == old(self).contract_owner_earnings_percentage,
    {
        if let Some(storage_cost_per_byte) = config.storage_cost_per_byte {
            self.storage_cost_per_byte = storage_cost_per_byte;
        }
        if let Some(gas_config) = config.gas_config {
            self.gas_config.merge(gas_config, true);
        }
    }

    /// applies the update without any validation
    pub fn force_merge(&mut self, config: interface::Config)
        ensures
            *final(self) == old(self).spec_merge(config),
            final(self).storage_cost_per_byte == (match config.storage_cost_per_byte {
                Some(cost) => cost,
                None => old(self).storage_cost_per_byte,
            }),
            final(self).gas_config == (match config.gas_config {
                Some(gas_config) => old(self).gas_config.spec_merge(gas_config),
                None => old(self).gas_config,
            }),
            final(self).contract_owner_earnings_percentage
                == old(self).contract_owner_earnings_percentage,
    {
        if let Some(storage_cost_per_byte) = config.storage_cost_per_byte {
            self.storage_cost_per_byte = storage_cost_per_byte;
        }
        if let Some(gas_config) = config.gas_config {
            self.gas_config.merge(gas_config, false);
        }
    }
}

#[derive(Debug, Clone, Copy)]
pub struct GasConfig {
    pub staking_pool: StakingPoolGasConfig,
    pub callbacks: CallBacksGasConfig,
    pub function_call_promise: Gas,
    pub function_call_promise_data_dependency: Gas,
}

impl GasConfig {
    pub open spec fn spec_default() -> Self {
        GasConfig {
            staking_pool: StakingPoolGasConfig::spec_default(),
            callbacks: CallBacksGasConfig::spec_default(),
            function_call_promise: tgas(5),
            function_call_promise_data_dependency: tgas(10),
        }
    }

    pub fn staking_pool(&self) -> (r: StakingPoolGasConfig)
        ensures
            r == self.staking_pool,
    {
        self.staking_pool
    }

    pub fn callbacks(&self) -> (r: CallBacksGasConfig)
        ensures
            r == self.callbacks,
    {
        self.callbacks
    }

    pub fn function_call_promise(&self) -> (r: Gas)
        ensures
            r == self.function_call_promise,
    {
        self.function_call_promise
    }

    pub fn function_call_promise_data_dependency(&self) -> (r: Gas)
        ensures
            r == self.function_call_promise_data_dependency,
    {
        self.function_call_promise_data_dependency
    }

    /// the configuration that results from applying the update
    pub open spec fn spec_merge(self, config: interface::GasConfig) -> Self {
        GasConfig {
            staking_pool: match config.staking_pool {
                Some(c) => self.staking_pool.spec_merge(c),
                None => self.staking_pool,
            },
            callbacks: match config.callbacks {
                Some(c) => self.callbacks.spec_merge(c),
                None => self.callbacks,
            },
            function_call_promise: merged(config.function_call_promise, self.function_call_promise),
            function_call_promise_data_dependency: merged(
                config.function_call_promise_data_dependency,
                self.function_call_promise_data_dependency,
            ),
        }
    }

    /// the gas budgets for the cross-contract workflows add up: each callback that kicks off a
    /// staking pool call followed by a callback has enough gas for both plus 5 TGas
    pub open spec fn workflows_add_up(self) -> bool {
        &&& self.callbacks.on_run_stake_batch.0 >= self.staking_pool.deposit_and_stake.0
            + self.callbacks.on_deposit_and_stake.0 + 5 * TGAS
        &&& self.callbacks.on_run_redeem_stake_batch.0 >= self.staking_pool.unstake.0
            + self.callbacks.on_unstake.0 + 5 * TGAS
        &&& self.callbacks.on_redeeming_stake_pending_withdrawal.0 >= self.staking_pool.withdraw.0
            + self.callbacks.on_redeeming_stake_post_withdrawal.0 + 5 * TGAS
    }

    /// the update passes the validation that a validating [merge](GasConfig::merge) performs
    pub open spec fn spec_merge_valid(self, config: interface::GasConfig) -> bool {
        &&& (config.callbacks matches Some(c) ==> CallBacksGasConfig::spec_update_valid(c))
        &&& (config.staking_pool matches Some(c) ==> StakingPoolGasConfig::spec_update_valid(c))
        &&& self.spec_merge(config).workflows_add_up()
    }

    /// checks the validation that a validating [merge](GasConfig::merge) performs
    pub fn merge_is_valid(&self, config: &interface::GasConfig) -> (r: bool)
        ensures
            r == self.spec_merge_valid(*config),
    {
        let callbacks_ok = match config.callbacks {
            Some(c) => CallBacksGasConfig::update_is_valid(&c),
            None => true,
        };
        let staking_pool_ok = match config.staking_pool {
            Some(c) => StakingPoolGasConfig::update_is_valid(&c),
            None => true,
        };
        let mut merged_config = *self;
        merged_config.merge(*config, false);
        let cb = merged_config.callbacks;
        let sp = merged_config.staking_pool;
        let five: u128 = 5 * (TGAS as u128);
        let adds_up = (cb.on_run_stake_batch.0 as u128) >= (sp.deposit_and_stake.0 as u128)
            + (cb.on_deposit_and_stake.0 as u128) + five && (cb.on_run_redeem_stake_batch.0 as u128)
            >= (sp.unstake.0 as u128) + (cb.on_unstake.0 as u128) + five
            && (cb.on_redeeming_stake_pending_withdrawal.0 as u128) >= (sp.withdraw.0 as u128)
            + (cb.on_redeeming_stake_post_withdrawal.0 as u128) + five;
        callbacks_ok && staking_pool_ok && adds_up
    }

    /// if validate is true, then the update is required to pass the sanity checks that catch
    /// mis-configurations (see [spec_merge_valid](GasConfig::spec_merge_valid))
    pub fn merge(&mut self, config: interface::GasConfig, validate: bool)
        requires
            validate ==> old(self).spec_merge_valid(config),
        ensures
            *final(self) == old(self).spec_merge(config),
    {
        if let Some(c) = config.callbacks {
            self.callbacks.merge(c, validate);
        }
        if let Some(c) = config.staking_pool {
            self.staking_pool.merge(c, validate);
        }
        if let Some(gas) = config.function_call_promise {
            self.function_call_promise = gas;
        }
        if let Some(gas) = config.function_call_promise_data_dependency {
            self.function_call_promise_data_dependency = gas;
        }
    }
}

impl Default for GasConfig {
    fn default() -> (r: Self)
        ensures
            r == Self::spec_default(),
    {
        GasConfig {
            staking_pool: StakingPoolGasConfig::default(),
            callbacks: CallBacksGasConfig::default(),
            function_call_promise: Gas(5 * TGAS),
            function_call_promise_data_dependency: Gas(10 * TGAS),
        }
    }
}

#[derive(Debug, Clone, Copy)]
pub struct StakingPoolGasConfig {
    pub deposit_and_stake: Gas,
    pub deposit: Gas,
    pub stake: Gas,
    pub unstake: Gas,
    pub withdraw: Gas,
    pub get_account: Gas,
    pub ping: Gas,
}

impl Default for StakingPoolGasConfig {
    fn default() -> (r: Self)
        ensures
            r == Self::spec_default(),
    {
        StakingPoolGasConfig {
            get_account: Gas(5 * TGAS),
            deposit_and_stake: Gas(45 * TGAS),
            deposit: Gas(45 * TGAS),
            stake: Gas(45 * TGAS),
            unstake: Gas(45 * TGAS),
            withdraw: Gas(45 * TGAS),
            ping: Gas(45 * TGAS),
        }
    }
}

impl StakingPoolGasConfig {
    pub open spec fn spec_default() -> Self {
        StakingPoolGasConfig {
            get_account: tgas(5),
            deposit_and_stake: tgas(45),
            deposit: tgas(45),
            stake: tgas(45),
            unstake: tgas(45),
            withdraw: tgas(45),
            ping: tgas(45),
        }
    }

    pub fn deposit_and_stake(&self) -> (r: Gas)
        ensures
            r == self.deposit_and_stake,
    {
        self.deposit_and_stake
    }

    pub fn deposit(&self) -> (r: Gas)
        ensures
            r == self.deposit,
    {
        self.deposit
    }

    pub fn stake(&self) -> (r: Gas)
        ensures
            r == self.stake,
    {
        self.stake
    }

    pub fn unstake(&self) -> (r: Gas)
        ensures
            r == self.unstake,
    {
        self.unstake
    }

    pub fn withdraw(&self) -> (r: Gas)
        ensures
            r == self.withdraw,
    {
        self.withdraw
    }

    pub fn get_account(&self) -> (r: Gas)
        ensures
            r == self.get_account,
    {
        self.get_account
    }

    pub fn ping(&self) -> (r: Gas)
        ensures
            r == self.ping,
    {
        self.ping
    }

    /// the configuration that results from applying the update: `ping` is not updatable
    pub open spec fn spec_merge(self, config: interface::StakingPoolGasConfig) -> Self {
        StakingPoolGasConfig {
            get_account: merged(config.get_account, self.get_account),
            deposit_and_stake: merged(config.deposit_and_stake, self.deposit_and_stake),
            deposit: merged(config.deposit, self.deposit),
            stake: merged(config.stake, self.stake),
            unstake: merged(config.unstake, self.unstake),
            withdraw: merged(config.withdraw, self.withdraw),
            ping: self.ping,
        }
    }

    /// each present field is within its allowed TGas range
    pub open spec fn spec_update_valid(config: interface::StakingPoolGasConfig) -> bool {
        &&& update_in_range(config.get_account, 5, 10)
        &&& update_in_range(config.deposit_and_stake, 40, 75)
        &&& update_in_range(config.deposit, 5, 20)
        &&& update_in_range(config.stake, 40, 75)
        &&& update_in_range(config.unstake, 40, 75)
        &&& update_in_range(config.withdraw, 40, 75)
    }

    pub fn update_is_valid(config: &interface::StakingPoolGasConfig) -> (r: bool)
        ensures
            r == Self::spec_update_valid(*config),
    {
        update_gas_in_range(config.get_account, 5, 10) && update_gas_in_range(
            config.deposit_and_stake,
            40,
            75,
        ) && update_gas_in_range(config.deposit, 5, 20) && update_gas_in_range(
            config.stake,
            40,
            75,
        ) && update_gas_in_range(config.unstake, 40, 75) && update_gas_in_range(
            config.withdraw,
            40,
            75,
        )
    }

    /// if validate is true, then every present field is required to be within its range
    pub fn merge(&mut self, config: interface::StakingPoolGasConfig, validate: bool)
        requires
            validate ==> Self::spec_update_valid(config),
        ensures
            *final(self) == old(self).spec_merge(config),
    {
        self.get_account = merge_gas(config.get_account, self.get_account);
        self.deposit_and_stake = merge_gas(config.deposit_and_stake, self.deposit_and_stake);
        self.deposit = merge_gas(config.deposit, self.deposit);
        self.stake = merge_gas(config.stake, self.stake);
        self.unstake = merge_gas(config.unstake, self.unstake);
        self.withdraw = merge_gas(config.withdraw, self.withdraw);
    }
}

#[derive(Debug, Clone, Copy)]
pub struct CallBacksGasConfig {
    pub on_run_stake_batch: Gas,
    pub on_deposit_and_stake: Gas,
    pub on_unstake: Gas,
    pub unlock: Gas,
    /// used by redeem stake workflow
    pub on_run_redeem_stake_batch: Gas,
    pub on_redeeming_stake_pending_withdrawal: Gas,
    pub on_redeeming_stake_post_withdrawal: Gas,
    /// used by FungibleToken transfer call workflow
    pub resolve_transfer_gas: Gas,
    pub on_refresh_stake_token_value: Gas,
}

impl CallBacksGasConfig {
    pub open spec fn spec_default() -> Self {
        CallBacksGasConfig {
            on_run_stake_batch: tgas(135),
            on_deposit_and_stake: tgas(15),
            unlock: tgas(4),
            on_run_redeem_stake_batch: tgas(85),
            on_unstake: tgas(5),
            on_redeeming_stake_pending_withdrawal: tgas(85),
            on_redeeming_stake_post_withdrawal: tgas(5),
            resolve_transfer_gas: tgas(10),
            on_refresh_stake_token_value: tgas(15),
        }
    }

    /// the configuration that results from applying the update:
    /// `on_refresh_stake_token_value` is not updatable
    pub open spec fn spec_merge(self, config: interface::CallBacksGasConfig) -> Self {
        CallBacksGasConfig {
            on_run_stake_batch: merged(config.on_run_stake_batch, self.on_run_stake_batch),
            on_deposit_and_stake: merged(config.on_deposit_and_stake, self.on_deposit_and_stake),
            on_unstake: merged(config.on_unstake, self.on_unstake),
            unlock: merged(config.unlock, self.unlock),
            on_run_redeem_stake_batch: merged(
                config.on_run_redeem_stake_batch,
                self.on_run_redeem_stake_batch,
            ),
            on_redeeming_stake_pending_withdrawal: merged(
                config.on_redeeming_stake_pending_withdrawal,
                self.on_redeeming_stake_pending_withdrawal,
            ),
            on_redeeming_stake_post_withdrawal: merged(
                config.on_redeeming_stake_post_withdrawal,
                self.on_redeeming_stake_post_withdrawal,
            ),
            resolve_transfer_gas: merged(config.resolve_transfer_gas, self.resolve_transfer_gas),
            on_refresh_stake_token_value: self.on_refresh_stake_token_value,
        }
    }

    /// each present field is within its allowed TGas range
    pub open spec fn spec_update_valid(config: interface::CallBacksGasConfig) -> bool {
        &&& update_in_range(config.on_run_stake_batch, 70, 150)
        &&& update_in_range(config.on_deposit_and_stake, 5, 10)
        &&& update_in_range(config.on_unstake, 5, 10)
        &&& update_in_range(config.unlock, 5, 10)
        &&& update_in_range(config.on_run_redeem_stake_batch, 70, 100)
        &&& update_in_range(config.on_redeeming_stake_pending_withdrawal, 70, 100)
        &&& update_in_range(config.on_redeeming_stake_post_withdrawal, 5, 10)
        &&& update_in_range(config.resolve_transfer_gas, 5, 20)
    }

    pub fn update_is_valid(config: &interface::CallBacksGasConfig) -> (r: bool)
        ensures
            r == Self::spec_update_valid(*config),
    {
        let a = update_gas_in_range(config.on_run_stake_batch, 70, 150);
        let b = update_gas_in_range(config.on_deposit_and_stake, 5, 10);
        let c = update_gas_in_range(config.on_unstake, 5, 10);
        let d = update_gas_in_range(config.unlock, 5, 10);
        let e = update_gas_in_range(config.on_run_redeem_stake_batch, 70, 100);
        let f = update_gas_in_range(config.on_redeeming_stake_pending_withdrawal, 70, 100);
        let g = update_gas_in_range(config.on_redeeming_stake_post_withdrawal, 5, 10);
        let h = update_gas_in_range(config.resolve_transfer_gas, 5, 20);
        a && b && c && d && e && f && g && h
    }

    /// if validate is true, then every present field is required to be within its range
    pub fn merge(&mut self, config: interface::CallBacksGasConfig, validate: bool)
        requires
            validate ==> Self::spec_update_valid(config),
        ensures
            *final(self) == old(self).spec_merge(config),
    {
        self.on_run_stake_batch = merge_gas(config.on_run_stake_batch, self.on_run_stake_batch);
        self.on_deposit_and_stake = merge_gas(
            config.on_deposit_and_stake,
            self.on_deposit_and_stake,
        );
        self.on_unstake = merge_gas(config.on_unstake, self.on_unstake);
        self.unlock = merge_gas(config.unlock, self.unlock);
        self.on_run_redeem_stake_batch = merge_gas(
            config.on_run_redeem_stake_batch,
            self.on_run_redeem_stake_batch,
        );
        self.on_redeeming_stake_pending_withdrawal = merge_gas(
            config.on_redeeming_stake_pending_withdrawal,
            self.on_redeeming_stake_pending_withdrawal,
        );
        self.on_redeeming_stake_post_withdrawal = merge_gas(
            config.on_redeeming_stake_post_withdrawal,
            self.on_redeeming_stake_post_withdrawal,
        );
        self.resolve_transfer_gas = merge_gas(
            config.resolve_transfer_gas,
            self.resolve_transfer_gas,
        );
    }

    pub fn on_deposit_and_stake(&self) -> (r: Gas)
        ensures
            r == self.on_deposit_and_stake,
    {
        self.on_deposit_and_stake
    }

    pub fn unlock(&self) -> (r: Gas)
        ensures
            r == self.unlock,
    {
        self.unlock
    }

    pub fn on_run_stake_batch(&self) -> (r: Gas)
        ensures
            r == self.on_run_stake_batch,
    {
        self.on_run_stake_batch
    }

    pub fn on_redeeming_stake_pending_withdrawal(&self) -> (r: Gas)
        ensures
            r == self.on_redeeming_stake_pending_withdrawal,
    {
        self.on_redeeming_stake_pending_withdrawal
    }

    pub fn on_redeeming_stake_post_withdrawal(&self) -> (r: Gas)
        ensures
            r == self.on_redeeming_stake_post_withdrawal,
    {
        self.on_redeeming_stake_post_withdrawal
    }

    pub fn on_run_redeem_stake_batch(&self) -> (r: Gas)
        ensures
            r == self.on_run_redeem_stake_batch,
    {
        self.on_run_redeem_stake_batch
    }

    pub fn on_unstake(&self) -> (r: Gas)
        ensures
            r == self.on_unstake,
    {
        self.on_unstake
    }

    pub fn resolve_transfer_gas(&self) -> (r: Gas)
        ensures
            r == self.resolve_transfer_gas,
    {
        self.resolve_transfer_gas
    }

    pub fn on_refresh_stake_token_value(&self) -> (r: Gas)
        ensures
            r == self.on_refresh_stake_token_value,
    {
        self.on_refresh_stake_token_value
    }
}

impl Default for CallBacksGasConfig {
    fn default() -> (r: Self)
        ensures
            r == Self::spec_default(),
    {
        CallBacksGasConfig {
            on_run_stake_batch: Gas(135 * TGAS),
            on_deposit_and_stake: Gas(15 * TGAS),
            unlock: Gas(4 * TGAS),
            on_run_redeem_stake_batch: Gas(85 * TGAS),
            on_unstake: Gas(5 * TGAS),
            on_redeeming_stake_pending_withdrawal: Gas(85 * TGAS),
            on_redeeming_stake_post_withdrawal: Gas(5 * TGAS),
            resolve_transfer_gas: Gas(10 * TGAS),
            on_refresh_stake_token_value: Gas(15 * TGAS),
        }
    }
}

} // verus!
