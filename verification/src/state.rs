//! The contract state: configuration, registered accounts, token totals, the batches being
//! gathered and run, their receipts, and the locks held while batches run.

use crate::account::Account;
use crate::account_map::AccountMap;
use crate::amounts::{BatchId, BlockHeight, BlockTimeHeight, StorageUsage, YoctoNear, YoctoStake};
use crate::balance::{TimestampedNearBalance, TimestampedStakeBalance};
use crate::batch::{RedeemLock, RedeemStakeBatch, RedeemStakeBatchReceipt, StakeBatch, StakeBatchReceipt};
use crate::config::Config;
use crate::stake_token_value::StakeTokenValue;
use std::collections::HashMap;
use vstd::prelude::*;

verus! {

broadcast use vstd::std_specs::hash::group_hash_axioms;

/// the contract state as mathematical values
pub struct ContractModel {
    pub config: Config,
    pub config_change_block_height: BlockHeight,
    pub account_storage_usage: StorageUsage,
    pub contract_initial_storage_usage: StorageUsage,
    pub accounts: Map<Seq<u8>, Account>,
    pub accounts_len: u128,
    pub total_account_storage_escrow: YoctoNear,
    pub total_near: TimestampedNearBalance,
    pub total_stake: TimestampedStakeBalance,
    pub stake_token_value: StakeTokenValue,
    pub batch_id_sequence: BatchId,
    pub stake_batch: Option<StakeBatch>,
    pub next_stake_batch: Option<StakeBatch>,
    pub redeem_stake_batch: Option<RedeemStakeBatch>,
    pub next_redeem_stake_batch: Option<RedeemStakeBatch>,
    pub stake_batch_receipts: Map<u128, StakeBatchReceipt>,
    pub redeem_stake_batch_receipts: Map<u128, RedeemStakeBatchReceipt>,
    pub run_stake_batch_locked: bool,
    pub run_redeem_stake_batch_lock: Option<RedeemLock>,
    pub near_liquidity_pool: YoctoNear,
    pub contract_owner_balance: YoctoNear,
    pub collected_earnings: YoctoNear,
}

pub struct StakeTokenContract {
    pub config: Config,
    pub config_change_block_height: BlockHeight,
    /// storage taken by one account, measured when the contract was deployed
    pub account_storage_usage: StorageUsage,
    /// storage taken by the contract itself, measured when the contract was deployed
    pub contract_initial_storage_usage: StorageUsage,
    pub accounts: AccountMap,
    pub accounts_len: u128,
    pub total_account_storage_escrow: YoctoNear,
    /// NEAR that is available for withdrawal across all accounts
    pub total_near: TimestampedNearBalance,
    /// STAKE token supply
    pub total_stake: TimestampedStakeBalance,
    /// cached STAKE token value, refreshed when batches run
    pub stake_token_value: StakeTokenValue,
    /// the sequence is incremented to generate a new batch ID
    pub batch_id_sequence: BatchId,
    pub stake_batch: Option<StakeBatch>,
    pub next_stake_batch: Option<StakeBatch>,
    pub redeem_stake_batch: Option<RedeemStakeBatch>,
    pub next_redeem_stake_batch: Option<RedeemStakeBatch>,
    /// after accounts have claimed all funds from a receipt, the receipt is removed
    pub stake_batch_receipts: HashMap<u128, StakeBatchReceipt>,
    pub redeem_stake_batch_receipts: HashMap<u128, RedeemStakeBatchReceipt>,
    pub run_stake_batch_locked: bool,
    pub run_redeem_stake_batch_lock: Option<RedeemLock>,
    /// NEAR liquidity added by restaking unstaked NEAR that is pending withdrawal
    pub near_liquidity_pool: YoctoNear,
    pub contract_owner_balance: YoctoNear,
    pub collected_earnings: YoctoNear,
}

impl View for StakeTokenContract {
    type V = ContractModel;

    open spec fn view(&self) -> ContractModel {
        ContractModel {
            config: self.config,
            config_change_block_height: self.config_change_block_height,
            account_storage_usage: self.account_storage_usage,
            contract_initial_storage_usage: self.contract_initial_storage_usage,
            accounts: self.accounts.view(),
            accounts_len: self.accounts_len,
            total_account_storage_escrow: self.total_account_storage_escrow,
            total_near: self.total_near,
            total_stake: self.total_stake,
            stake_token_value: self.stake_token_value,
            batch_id_sequence: self.batch_id_sequence,
            stake_batch: self.stake_batch,
            next_stake_batch: self.next_stake_batch,
            redeem_stake_batch: self.redeem_stake_batch,
            next_redeem_stake_batch: self.next_redeem_stake_batch,
            stake_batch_receipts: self.stake_batch_receipts@,
            redeem_stake_batch_receipts: self.redeem_stake_batch_receipts@,
            run_stake_batch_locked: self.run_stake_batch_locked,
            run_redeem_stake_batch_lock: self.run_redeem_stake_batch_lock,
            near_liquidity_pool: self.near_liquidity_pool,
            contract_owner_balance: self.contract_owner_balance,
            collected_earnings: self.collected_earnings,
        }
    }
}

impl ContractModel {
    /// the STAKE token values that receipts record are well formed
    pub open spec fn receipts_wf(self) -> bool {
        &&& forall|k: u128| #[trigger]
            self.stake_batch_receipts.contains_key(k) ==> self.stake_batch_receipts[k].stake_token_value.wf()
        &&& forall|k: u128| #[trigger]
            self.redeem_stake_batch_receipts.contains_key(k)
                ==> self.redeem_stake_batch_receipts[k].stake_token_value.wf()
    }

    /// while unstaked NEAR is pending withdrawal, the redeem stake batch exists and has its receipt
    pub open spec fn pending_withdrawal_wf(self) -> bool {
        self.run_redeem_stake_batch_lock == Some(RedeemLock::PendingWithdrawal) ==> {
            &&& self.redeem_stake_batch is Some
            &&& self.redeem_stake_batch_receipts.contains_key(self.redeem_stake_batch.unwrap().batch_id.0)
        }
    }

    pub open spec fn wf(self) -> bool {
        &&& self.accounts_len == self.accounts.dom().len()
        &&& self.config.wf()
        &&& self.stake_token_value.wf()
        &&& self.receipts_wf()
        &&& self.pending_withdrawal_wf()
    }

    /// a batch can run when no stake batch is running and no STAKE is being unstaked
    pub open spec fn spec_can_run_batch(self) -> bool {
        !self.run_stake_batch_locked && !self.spec_is_unstaking()
    }

    pub open spec fn spec_is_unstaking(self) -> bool {
        self.run_redeem_stake_batch_lock == Some(RedeemLock::Unstaking)
    }

    /// the receipt for the redeem stake batch, if it has been unstaked and awaits withdrawal
    pub open spec fn spec_pending_withdrawal(self) -> Option<RedeemStakeBatchReceipt> {
        match self.redeem_stake_batch {
            Some(batch) => if self.redeem_stake_batch_receipts.contains_key(batch.batch_id.0) {
                Some(self.redeem_stake_batch_receipts[batch.batch_id.0])
            } else {
                None
            },
            None => None,
        }
    }
}

/// receipts stay well formed while the receipt maps are unchanged
pub proof fn lemma_receipts_unchanged(a: ContractModel, b: ContractModel)
    requires
        a.receipts_wf(),
        a.stake_batch_receipts == b.stake_batch_receipts,
        a.redeem_stake_batch_receipts == b.redeem_stake_batch_receipts,
    ensures
        b.receipts_wf(),
{
    assert forall|k: u128| #[trigger] b.stake_batch_receipts.contains_key(k) implies b.stake_batch_receipts[k].stake_token_value.wf() by {
        assert(a.stake_batch_receipts.contains_key(k));
    }
    assert forall|k: u128| #[trigger] b.redeem_stake_batch_receipts.contains_key(k) implies b.redeem_stake_batch_receipts[k].stake_token_value.wf() by {
        assert(a.redeem_stake_batch_receipts.contains_key(k));
    }
}

impl StakeTokenContract {
    pub open spec fn wf(&self) -> bool {
        &&& self.accounts.wf()
        &&& self@.wf()
    }

    /// a new contract with the given configuration and measured storage usage; the STAKE token
    /// value starts at 1:1 and all balances start at zero, stamped `now`
    pub fn new(
        config: Config,
        account_storage_usage: StorageUsage,
        contract_initial_storage_usage: StorageUsage,
        now: BlockTimeHeight,
    ) -> (r: Self)
        requires
            config.wf(),
        ensures
            r.wf(),
            r@.config == config,
            r@.config_change_block_height == now.block_height,
            r@.account_storage_usage == account_storage_usage,
            r@.contract_initial_storage_usage == contract_initial_storage_usage,
            r@.accounts == Map::<Seq<u8>, Account>::empty(),
            r@.accounts_len == 0,
            r@.total_account_storage_escrow.0 == 0,
            r@.total_near == TimestampedNearBalance::spec_new(YoctoNear(0), now),
            r@.total_stake == TimestampedStakeBalance::spec_new(YoctoStake(0), now),
            r@.stake_token_value == (StakeTokenValue {
                block_time_height: now,
                total_staked_near_balance: YoctoNear(0),
                total_stake_supply: YoctoStake(0),
            }),
            r@.batch_id_sequence.0 == 0,
            r@.stake_batch is None,
            r@.next_stake_batch is None,
            r@.redeem_stake_batch is None,
            r@.next_redeem_stake_batch is None,
            r@.stake_batch_receipts == Map::<u128, StakeBatchReceipt>::empty(),
            r@.redeem_stake_batch_receipts == Map::<u128, RedeemStakeBatchReceipt>::empty(),
            !r@.run_stake_batch_locked,
            r@.run_redeem_stake_batch_lock is None,
            r@.near_liquidity_pool.0 == 0,
            r@.contract_owner_balance.0 == 0,
            r@.collected_earnings.0 == 0,
    {
        StakeTokenContract {
            config,
            config_change_block_height: now.block_height,
            account_storage_usage,
            contract_initial_storage_usage,
            accounts: AccountMap::new(),
            accounts_len: 0,
            total_account_storage_escrow: YoctoNear(0),
            total_near: TimestampedNearBalance::new(YoctoNear(0), now),
            total_stake: TimestampedStakeBalance::new(YoctoStake(0), now),
            stake_token_value: StakeTokenValue::new(now, YoctoNear(0), YoctoStake(0)),
            batch_id_sequence: BatchId(0),
            stake_batch: None,
            next_stake_batch: None,
            redeem_stake_batch: None,
            next_redeem_stake_batch: None,
            stake_batch_receipts: HashMap::new(),
            redeem_stake_batch_receipts: HashMap::new(),
            run_stake_batch_locked: false,
            run_redeem_stake_batch_lock: None,
            near_liquidity_pool: YoctoNear(0),
            contract_owner_balance: YoctoNear(0),
            collected_earnings: YoctoNear(0),
        }
    }

    pub fn stake_batch_locked(&self) -> (r: bool)
        ensures
            r == self@.run_stake_batch_locked,
    {
        self.run_stake_batch_locked
    }

    pub fn is_unstaking(&self) -> (r: bool)
        ensures
            r == self@.spec_is_unstaking(),
    {
        match self.run_redeem_stake_batch_lock {
            Some(RedeemLock::Unstaking) => true,
            _ => false,
        }
    }

    pub fn can_run_batch(&self) -> (r: bool)
        ensures
            r == self@.spec_can_run_batch(),
    {
        !self.run_stake_batch_locked && !self.is_unstaking()
    }

    pub fn stake_batch_receipt(&self, batch_id: BatchId) -> (r: Option<StakeBatchReceipt>)
        ensures
            r == (if self@.stake_batch_receipts.contains_key(batch_id.0) {
                Some(self@.stake_batch_receipts[batch_id.0])
            } else {
                None
            }),
    {
        match self.stake_batch_receipts.get(&batch_id.0) {
            Some(receipt) => Some(*receipt),
            None => None,
        }
    }

    pub fn redeem_stake_batch_receipt(&self, batch_id: BatchId) -> (r: Option<RedeemStakeBatchReceipt>)
        ensures
            r == (if self@.redeem_stake_batch_receipts.contains_key(batch_id.0) {
                Some(self@.redeem_stake_batch_receipts[batch_id.0])
            } else {
                None
            }),
    {
        match self.redeem_stake_batch_receipts.get(&batch_id.0) {
            Some(receipt) => Some(*receipt),
            None => None,
        }
    }

    /// the receipt for the redeem stake batch that has been unstaked and awaits withdrawal
    pub fn pending_withdrawal(&self) -> (r: Option<RedeemStakeBatchReceipt>)
        ensures
            r == self@.spec_pending_withdrawal(),
    {
        match self.redeem_stake_batch {
            Some(batch) => self.redeem_stake_batch_receipt(batch.batch_id),
            None => None,
        }
    }

    pub fn total_registered_accounts(&self) -> (r: u128)
        ensures
            r == self@.accounts_len,
    {
        self.accounts_len
    }
}

} // verus!
