//! What the contract operator can do: read and update the configuration, and read the
//! contract state.

use crate::amounts::{BatchId, BlockHeight, BlockTimeHeight, StorageUsage, YoctoNear};
use crate::account_view::RedeemStakeBatchView;
use crate::balance::{TimestampedNearBalance, TimestampedStakeBalance};
use crate::batch::{RedeemLock, RedeemStakeBatchReceipt, StakeBatch};
use crate::config::{Config, GasConfig};
use crate::interface;
use crate::stake_token_value::StakeTokenValue;
use crate::state::{ContractModel, StakeTokenContract};
use vstd::prelude::*;

verus! {

/// a staking pool gas update that sets nothing
pub open spec fn no_staking_pool_gas_update() -> interface::StakingPoolGasConfig {
    interface::StakingPoolGasConfig {
        deposit_and_stake: None,
        deposit: None,
        stake: None,
        unstake: None,
        withdraw: None,
        get_account: None,
        ping: None,
    }
}

/// a callbacks gas update that sets nothing
pub open spec fn no_callbacks_gas_update() -> interface::CallBacksGasConfig {
    interface::CallBacksGasConfig {
        on_run_stake_batch: None,
        on_deposit_and_stake: None,
        on_unstake: None,
        unlock: None,
        on_run_redeem_stake_batch: None,
        on_redeeming_stake_pending_withdrawal: None,
        on_redeeming_stake_post_withdrawal: None,
        resolve_transfer_gas: None,
        refresh_stake_token_value: None,
    }
}

/// Merging an update that sets nothing leaves the configuration as it is, at every level.
pub proof fn lemma_merge_empty_update(config: Config)
    ensures
        config.spec_merge(interface::Config { storage_cost_per_byte: None, gas_config: None }) == config,
        config.gas_config.spec_merge(
            interface::GasConfig {
                staking_pool: Some(no_staking_pool_gas_update()),
                callbacks: Some(no_callbacks_gas_update()),
                function_call_promise: None,
                function_call_promise_data_dependency: None,
            },
        ) == config.gas_config,
        config.gas_config.staking_pool.spec_merge(no_staking_pool_gas_update()) == config.gas_config.staking_pool,
        config.gas_config.callbacks.spec_merge(no_callbacks_gas_update()) == config.gas_config.callbacks,
{
}

/// Merging the same update twice gives the same configuration as merging it once.
pub proof fn lemma_merge_idempotent(config: Config, update: interface::Config)
    ensures
        config.spec_merge(update).spec_merge(update) == config.spec_merge(update),
{
}

/// The default gas budgets add up: each workflow callback that calls the staking pool and
/// then a callback has the gas for both, plus 5 TGas.
pub proof fn lemma_default_gas_config_adds_up()
    ensures
        GasConfig::spec_default().workflows_add_up(),
{
}

/// a snapshot of the contract state
#[derive(Debug, Clone, Copy)]
pub struct ContractState {
    pub block: BlockTimeHeight,
    pub config_change_block_height: BlockHeight,
    pub registered_accounts_count: u128,
    pub total_unstaked_near: TimestampedNearBalance,
    pub total_stake_supply: TimestampedStakeBalance,
    pub near_liquidity_pool: YoctoNear,
    pub stake_token_value: StakeTokenValue,
    pub batch_id_sequence: BatchId,
    pub stake_batch: Option<StakeBatch>,
    pub next_stake_batch: Option<StakeBatch>,
    pub redeem_stake_batch: Option<RedeemStakeBatchView>,
    pub next_redeem_stake_batch: Option<RedeemStakeBatchView>,
    pub pending_withdrawal: Option<RedeemStakeBatchReceipt>,
    pub run_stake_batch_locked: bool,
    pub run_redeem_stake_batch_lock: Option<RedeemLock>,
    pub owner_available_balance: YoctoNear,
    pub initial_storage_usage: StorageUsage,
    pub storage_usage_growth: StorageUsage,
}

impl StakeTokenContract {
    pub fn config(&self) -> (r: Config)
        ensures
            r == self.config,
    {
        self.config
    }

    /// resets the configuration to the defaults
    pub fn reset_config_default(&mut self) -> (r: Config)
        requires
            old(self).wf(),
        ensures
            final(self).wf(),
            final(self)@ == (ContractModel { config: r, ..old(self)@ }),
            r.storage_cost_per_byte.0 == 100_000_000_000_000_000_000,
            r.gas_config == GasConfig::spec_default(),
            r.contract_owner_earnings_percentage == 50,
    {
        self.config = Config::default();
        self.config
    }

    /// applies the validated configuration update, recording the block height of the change
    pub fn update_config(&mut self, config: interface::Config, block_height: BlockHeight) -> (r: Config)
        requires
            old(self).wf(),
            old(self).config.spec_merge_valid(config),
        ensures
            final(self).wf(),
            final(self)@ == (ContractModel {
                config: old(self).config.spec_merge(config),
                config_change_block_height: block_height,
                ..old(self)@
            }),
            r == final(self).config,
    {
        self.config.merge(config);
        self.config_change_block_height = block_height;
        self.config
    }

    /// applies the configuration update without validating it, recording the block height of
    /// the change
    pub fn force_update_config(&mut self, config: interface::Config, block_height: BlockHeight) -> (r: Config)
        requires
            old(self).wf(),
        ensures
            final(self).wf(),
            final(self)@ == (ContractModel {
                config: old(self).config.spec_merge(config),
                config_change_block_height: block_height,
                ..old(self)@
            }),
            r == final(self).config,
    {
        self.config.force_merge(config);
        self.config_change_block_height = block_height;
        self.config
    }

    fn redeem_batch_view_of(&self, batch: Option<crate::batch::RedeemStakeBatch>) -> (r: Option<RedeemStakeBatchView>)
        ensures
            r == self@.redeem_batch_view(batch),
    {
        match batch {
            Some(batch) => Some(RedeemStakeBatchView { batch, receipt: self.redeem_stake_batch_receipt(batch.batch_id) }),
            None => None,
        }
    }

    /// the contract state at `now`, given the contract's current storage usage
    pub fn contract_state(&self, now: BlockTimeHeight, storage_usage: u64) -> (r: ContractState)
        requires
            self@.spec_contract_owner_storage_usage_cost() <= self.contract_owner_balance.0,
            self.contract_initial_storage_usage.0 <= storage_usage,
        ensures
            r.block == now,
            r.config_change_block_height == self.config_change_block_height,
            r.registered_accounts_count == self.accounts_len,
            r.total_unstaked_near == self.total_near,
            r.total_stake_supply == self.total_stake,
            r.near_liquidity_pool == self.near_liquidity_pool,
            r.stake_token_value == self.stake_token_value,
            r.batch_id_sequence == self.batch_id_sequence,
            r.stake_batch == self.stake_batch,
            r.next_stake_batch == self.next_stake_batch,
            r.redeem_stake_batch == self@.redeem_batch_view(self.redeem_stake_batch),
            r.next_redeem_stake_batch == self@.redeem_batch_view(self.next_redeem_stake_batch),
            r.pending_withdrawal == self@.spec_pending_withdrawal(),
            r.run_stake_batch_locked == self.run_stake_batch_locked,
            r.run_redeem_stake_batch_lock == self.run_redeem_stake_batch_lock,
            r.owner_available_balance.0 == self@.spec_owner_available_balance(),
            r.initial_storage_usage == self.contract_initial_storage_usage,
            r.storage_usage_growth.0 == storage_usage - self.contract_initial_storage_usage.0,
    {
        ContractState {
            block: now,
            config_change_block_height: self.config_change_block_height,
            registered_accounts_count: self.total_registered_accounts(),
            total_unstaked_near: self.total_near,
            total_stake_supply: self.total_stake,
            near_liquidity_pool: self.near_liquidity_pool,
            stake_token_value: self.stake_token_value,
            batch_id_sequence: self.batch_id_sequence,
            stake_batch: self.stake_batch,
            next_stake_batch: self.next_stake_batch,
            redeem_stake_batch: self.redeem_batch_view_of(self.redeem_stake_batch),
            next_redeem_stake_batch: self.redeem_batch_view_of(self.next_redeem_stake_batch),
            pending_withdrawal: self.pending_withdrawal(),
            run_stake_batch_locked: self.run_stake_batch_locked,
            run_redeem_stake_batch_lock: self.run_redeem_stake_batch_lock,
            owner_available_balance: self.owner_available_balance(),
            initial_storage_usage: self.contract_initial_storage_usage,
            storage_usage_growth: StorageUsage(storage_usage - self.contract_initial_storage_usage.0),
        }
    }
}

} // verus!
