//! Executable checks of the conditions under which the contract's operations are defined: the
//! claims of receipt funds and the deposits, withdrawals and redemptions that follow them. A
//! caller tests a request with these before making it.

use crate::account::Account;
use crate::amounts::{BatchId, BlockTimeHeight, YoctoNear, YoctoStake};
use crate::batch::{RedeemLock, RedeemStakeBatch, StakeBatch};
use crate::stake_token_value::lemma_near_to_stake_bounded;
use crate::state::{ContractModel, StakeTokenContract};
use vstd::prelude::*;

verus! {

broadcast use vstd::std_specs::hash::group_hash_axioms;

/// the account's STAKE balance
fn stake_amount(account: &Account) -> (r: u128)
    ensures
        r == account.stake_amount(),
{
    match account.stake {
        Some(b) => b.balance.0,
        None => 0,
    }
}

/// the account's NEAR balance
fn near_amount(account: &Account) -> (r: u128)
    ensures
        r == account.near_amount(),
{
    match account.near {
        Some(b) => b.balance.0,
        None => 0,
    }
}

impl StakeTokenContract {
    /// a copy of the contract state
    pub fn copy(&self) -> (r: Self)
        requires
            self.wf(),
        ensures
            r@ == self@,
            r.wf(),
    {
        StakeTokenContract {
            config: self.config,
            config_change_block_height: self.config_change_block_height,
            account_storage_usage: self.account_storage_usage,
            contract_initial_storage_usage: self.contract_initial_storage_usage,
            accounts: self.accounts.copy(),
            accounts_len: self.accounts_len,
            total_account_storage_escrow: self.total_account_storage_escrow,
            total_near: self.total_near,
            total_stake: self.total_stake,
            stake_token_value: self.stake_token_value,
            batch_id_sequence: self.batch_id_sequence,
            stake_batch: self.stake_batch,
            next_stake_batch: self.next_stake_batch,
            redeem_stake_batch: self.redeem_stake_batch,
            next_redeem_stake_batch: self.next_redeem_stake_batch,
            stake_batch_receipts: self.stake_batch_receipts.clone(),
            redeem_stake_batch_receipts: self.redeem_stake_batch_receipts.clone(),
            run_stake_batch_locked: self.run_stake_batch_locked,
            run_redeem_stake_batch_lock: self.run_redeem_stake_batch_lock,
            near_liquidity_pool: self.near_liquidity_pool,
            contract_owner_balance: self.contract_owner_balance,
            collected_earnings: self.collected_earnings,
        }
    }
}

impl StakeTokenContract {
    /// [stake_slot_ok](ContractModel::stake_slot_ok)
    fn stake_slot_allowed(&self, account: &Account, slot: Option<StakeBatch>) -> (r: bool)
        requires
            self.wf(),
        ensures
            r == self@.stake_slot_ok(*account, slot),
    {
        match slot {
            Some(batch) => match self.stake_batch_receipt(batch.batch_id) {
                Some(receipt) => batch.balance.balance.0 <= receipt.staked_near.0 && stake_amount(account).checked_add(
                    batch.balance.balance.0,
                ).is_some(),
                None => true,
            },
            None => true,
        }
    }

    /// [redeem_slot_ok](ContractModel::redeem_slot_ok)
    fn redeem_slot_allowed(&self, account: &Account, slot: Option<RedeemStakeBatch>) -> (r: bool)
        requires
            self.wf(),
        ensures
            r == self@.redeem_slot_ok(*account, slot),
    {
        match slot {
            Some(batch) => match self.redeem_stake_batch_receipt(batch.batch_id) {
                Some(receipt) => {
                    if batch.balance.balance.0 > receipt.redeemed_stake.0 {
                        return false;
                    }
                    match receipt.stake_token_value.stake_to_near_checked(batch.balance.balance) {
                        Some(near) => near_amount(account).checked_add(near.0).is_some(),
                        None => false,
                    }
                },
                None => true,
            },
            None => true,
        }
    }

    /// [liquidity_claim_ok](ContractModel::liquidity_claim_ok)
    fn liquidity_claim_allowed(&self, account: &Account, batch: RedeemStakeBatch) -> (r: bool)
        requires
            self.wf(),
            self@.redeem_stake_batch_receipts.contains_key(batch.batch_id.0),
        ensures
            r == self@.liquidity_claim_ok(*account, batch),
    {
        let receipt = self.redeem_stake_batch_receipt(batch.batch_id).unwrap();
        let value = receipt.stake_token_value;
        proof {
            lemma_near_to_stake_bounded(value, self.near_liquidity_pool.0 as nat);
        }
        let stake_liquidity = value.near_to_stake(self.near_liquidity_pool);
        let redeemable = if stake_liquidity.0 >= batch.balance.balance.0 {
            batch.balance.balance
        } else {
            stake_liquidity
        };
        if redeemable.0 > receipt.redeemed_stake.0 {
            return false;
        }
        match value.stake_to_near_checked(redeemable) {
            Some(near) => near.0 <= self.near_liquidity_pool.0 && near_amount(account).checked_add(near.0).is_some()
                && self.total_near.balance.0.checked_add(near.0).is_some(),
            None => false,
        }
    }

    /// [pending_slot_ok](ContractModel::pending_slot_ok)
    fn pending_slot_allowed(&self, account: &Account, slot: Option<RedeemStakeBatch>, pending_id: BatchId) -> (r: bool)
        requires
            self.wf(),
        ensures
            r == self@.pending_slot_ok(*account, slot, pending_id),
    {
        match slot {
            Some(batch) => if batch.batch_id != pending_id {
                self.redeem_slot_allowed(account, slot)
            } else if self.near_liquidity_pool.0 > 0 && self.redeem_stake_batch_receipt(batch.batch_id).is_some() {
                self.liquidity_claim_allowed(account, batch)
            } else {
                true
            },
            None => true,
        }
    }

    /// tests [claim_receipt_funds_ok](ContractModel::claim_receipt_funds_ok) by carrying out the
    /// claims step by step, testing each step before it is taken; where the test passes, the
    /// claims have been made
    fn claim_receipt_funds_checked(&mut self, account: &mut Account, now: BlockTimeHeight) -> (r: bool)
        requires
            old(self).wf(),
        ensures
            final(self).wf(),
            r == old(self)@.claim_receipt_funds_ok(*old(account), now),
            r ==> final(self)@ == old(self)@.spec_claim_receipt_funds(*old(account), now).0
                && *final(account) == old(self)@.spec_claim_receipt_funds(*old(account), now).1,
    {
        proof {
            reveal(ContractModel::spec_claim_receipt_funds);
            reveal(ContractModel::claim_receipt_funds_ok);
        }
        // STAKE for the stake batches
        if !self.stake_slot_allowed(account, account.stake_batch) {
            return false;
        }
        let (slot, _) = self.claim_stake_slot(account, account.stake_batch, now);
        account.stake_batch = slot;
        if !self.stake_slot_allowed(account, account.next_stake_batch) {
            return false;
        }
        let (slot, _) = self.claim_stake_slot(account, account.next_stake_batch, now);
        account.next_stake_batch = slot;
        if !self.run_stake_batch_locked && account.stake_batch.is_none() {
            account.stake_batch = account.next_stake_batch;
            account.next_stake_batch = None;
        }
        // NEAR for the redeem stake batches
        match self.run_redeem_stake_batch_lock {
            Some(RedeemLock::PendingWithdrawal) => {
                let pending_id = self.redeem_stake_batch.unwrap().batch_id;
                if !self.pending_slot_allowed(account, account.redeem_stake_batch, pending_id) {
                    return false;
                }
                let (slot, _) = self.claim_pending_slot(account, account.redeem_stake_batch, pending_id, now);
                account.redeem_stake_batch = slot;
                if !self.pending_slot_allowed(account, account.next_redeem_stake_batch, pending_id) {
                    return false;
                }
                let (slot, _) = self.claim_pending_slot(account, account.next_redeem_stake_batch, pending_id, now);
                account.next_redeem_stake_batch = slot;
            },
            None => {
                if !self.redeem_slot_allowed(account, account.redeem_stake_batch) {
                    return false;
                }
                let (slot, _) = self.claim_redeem_slot(account, account.redeem_stake_batch, now);
                account.redeem_stake_batch = slot;
                if !self.redeem_slot_allowed(account, account.next_redeem_stake_batch) {
                    return false;
                }
                let (slot, _) = self.claim_redeem_slot(account, account.next_redeem_stake_batch, now);
                account.next_redeem_stake_batch = slot;
            },
            Some(RedeemLock::Unstaking) => {
                return true;
            },
        }
        if self.run_redeem_stake_batch_lock.is_none() && account.redeem_stake_batch.is_none() {
            account.redeem_stake_batch = account.next_redeem_stake_batch;
            account.next_redeem_stake_batch = None;
        }
        true
    }
}

impl StakeTokenContract {
    /// tests [deposit_for_account_ok](ContractModel::deposit_for_account_ok) on a probe: the
    /// state and the account are changed by the claims that the test makes
    fn deposit_checked(&mut self, account: &mut Account, amount: u128, now: BlockTimeHeight) -> (r: bool)
        requires
            old(self).wf(),
        ensures
            final(self).wf(),
            r == old(self)@.deposit_for_account_ok(*old(account), amount, now),
    {
        proof {
            reveal(ContractModel::claim_receipt_funds_ok);
        }
        if !self.claim_receipt_funds_checked(account, now) {
            return false;
        }
        let (contract_slot, account_slot) = if !self.run_stake_batch_locked {
            (self.stake_batch, account.stake_batch)
        } else {
            (self.next_stake_batch, account.next_stake_batch)
        };
        let contract_balance = match contract_slot {
            Some(b) => b.balance.balance.0,
            None => 0,
        };
        let account_balance = match account_slot {
            Some(b) => b.balance.balance.0,
            None => 0,
        };
        amount > 0 && (contract_slot.is_some() || self.batch_id_sequence.0 < u128::MAX)
            && contract_balance.checked_add(amount).is_some() && account_balance.checked_add(amount).is_some()
    }

    /// tests [redeem_for_account_ok](ContractModel::redeem_for_account_ok) on a probe: the state
    /// and the account are changed by the claims that the test makes
    fn redeem_checked(&mut self, account: &mut Account, amount: u128, now: BlockTimeHeight) -> (r: bool)
        requires
            old(self).wf(),
        ensures
            final(self).wf(),
            r == old(self)@.redeem_for_account_ok(*old(account), amount, now),
    {
        if !self.claim_receipt_funds_checked(account, now) {
            return false;
        }
        let (contract_slot, account_slot) = if self.run_redeem_stake_batch_lock.is_none() {
            (self.redeem_stake_batch, account.redeem_stake_batch)
        } else {
            (self.next_redeem_stake_batch, account.next_redeem_stake_batch)
        };
        let contract_balance = match contract_slot {
            Some(b) => b.balance.balance.0,
            None => 0,
        };
        let account_balance = match account_slot {
            Some(b) => b.balance.balance.0,
            None => 0,
        };
        amount > 0 && account.stake.is_some() && amount <= stake_amount(account) && (contract_slot.is_some()
            || self.batch_id_sequence.0 < u128::MAX) && contract_balance.checked_add(amount).is_some()
            && account_balance.checked_add(amount).is_some()
    }

    /// whether the registered account's receipt funds can be claimed
    pub fn claim_receipt_funds_allowed(&self, key: &crate::hash::Hash, now: BlockTimeHeight) -> (r: bool)
        requires
            self.wf(),
        ensures
            r == (self@.registered(key.key()) && self@.claim_receipt_funds_ok(self@.accounts[key.key()], now)),
    {
        match self.accounts.get(key) {
            Some(account) => {
                let mut probe = self.copy();
                let mut account = account;
                probe.claim_receipt_funds_checked(&mut account, now)
            },
            None => false,
        }
    }

    /// whether [deposit](StakeTokenContract::deposit) can be called: the account is registered
    /// and the deposit's conditions hold
    pub fn deposit_allowed(&self, key: &crate::hash::Hash, amount: YoctoNear, now: BlockTimeHeight) -> (r: bool)
        requires
            self.wf(),
        ensures
            r == (self@.registered(key.key()) && self@.deposit_for_account_ok(
                self@.accounts[key.key()],
                amount.0,
                now,
            )),
    {
        match self.accounts.get(key) {
            Some(account) => {
                let mut probe = self.copy();
                let mut account = account;
                probe.deposit_checked(&mut account, amount.0, now)
            },
            None => false,
        }
    }

    /// whether [redeem](StakeTokenContract::redeem) can be called: the account is registered and
    /// the redemption's conditions hold
    pub fn redeem_allowed(&self, key: &crate::hash::Hash, amount: YoctoStake, now: BlockTimeHeight) -> (r: bool)
        requires
            self.wf(),
        ensures
            r == (self@.registered(key.key()) && self@.redeem_for_account_ok(self@.accounts[key.key()], amount.0, now)),
    {
        match self.accounts.get(key) {
            Some(account) => {
                let mut probe = self.copy();
                let mut account = account;
                probe.redeem_checked(&mut account, amount.0, now)
            },
            None => false,
        }
    }

    /// whether [redeem_all](StakeTokenContract::redeem_all) can be called
    pub fn redeem_all_allowed(&self, key: &crate::hash::Hash, now: BlockTimeHeight) -> (r: bool)
        requires
            self.wf(),
        ensures
            r == ({
                let (m1, a1, _) = self@.spec_claim_receipt_funds(self@.accounts[key.key()], now);
                &&& self@.registered(key.key())
                &&& self@.claim_receipt_funds_ok(self@.accounts[key.key()], now)
                &&& m1.redeem_for_account_ok(a1, Self::redeem_all_amount(self@, key.key(), now), now)
            }),
    {
        match self.accounts.get(key) {
            Some(account) => {
                let mut probe = self.copy();
                let mut account = account;
                if !probe.claim_receipt_funds_checked(&mut account, now) {
                    return false;
                }
                let amount = stake_amount(&account);
                probe.redeem_checked(&mut account, amount, now)
            },
            None => false,
        }
    }

    /// whether [withdraw_funds_from_stake_batch](StakeTokenContract::withdraw_funds_from_stake_batch)
    /// can be called
    pub fn withdraw_funds_from_stake_batch_allowed(
        &self,
        key: &crate::hash::Hash,
        amount: YoctoNear,
        now: BlockTimeHeight,
    ) -> (r: bool)
        requires
            self.wf(),
        ensures
            r == self@.withdraw_from_stake_batch_ok(key.key(), amount.0, now),
    {
        match self.accounts.get(key) {
            Some(account) => {
                let mut probe = self.copy();
                let mut account = account;
                if !probe.claim_receipt_funds_checked(&mut account, now) {
                    return false;
                }
                match account.next_stake_batch {
                    Some(batch) => match probe.next_stake_batch {
                        Some(contract_batch) => amount.0 <= contract_batch.balance.balance.0 && amount.0
                            <= batch.balance.balance.0,
                        None => false,
                    },
                    None => match account.stake_batch {
                        Some(batch) => match probe.stake_batch {
                            Some(contract_batch) => probe.can_run_batch() && amount.0
                                <= contract_batch.balance.balance.0 && amount.0 <= batch.balance.balance.0,
                            None => false,
                        },
                        None => false,
                    },
                }
            },
            None => false,
        }
    }

    /// whether [withdraw_all_funds_from_stake_batch](StakeTokenContract::withdraw_all_funds_from_stake_batch)
    /// can be called
    pub fn withdraw_all_funds_from_stake_batch_allowed(&self, key: &crate::hash::Hash, now: BlockTimeHeight) -> (r: bool)
        requires
            self.wf(),
        ensures
            r == self@.withdraw_all_from_stake_batch_ok(key.key(), now),
    {
        match self.accounts.get(key) {
            Some(account) => {
                let mut probe = self.copy();
                let mut account = account;
                if !probe.claim_receipt_funds_checked(&mut account, now) {
                    return false;
                }
                match account.next_stake_batch {
                    Some(batch) => match probe.next_stake_batch {
                        Some(contract_batch) => batch.balance.balance.0 <= contract_batch.balance.balance.0,
                        None => false,
                    },
                    None => match account.stake_batch {
                        Some(batch) => match probe.stake_batch {
                            Some(contract_batch) => probe.can_run_batch() && batch.balance.balance.0
                                <= contract_batch.balance.balance.0,
                            None => false,
                        },
                        None => false,
                    },
                }
            },
            None => false,
        }
    }

    /// whether [cancel_uncommitted_redeem_stake_batch](StakeTokenContract::cancel_uncommitted_redeem_stake_batch)
    /// can be called
    pub fn cancel_uncommitted_redeem_stake_batch_allowed(&self, key: &crate::hash::Hash, now: BlockTimeHeight) -> (r: bool)
        requires
            self.wf(),
        ensures
            r == self@.cancel_uncommitted_redeem_stake_batch_ok(key.key(), now),
    {
        match self.accounts.get(key) {
            Some(account) => {
                let mut probe = self.copy();
                let mut account = account;
                if !probe.claim_receipt_funds_checked(&mut account, now) {
                    return false;
                }
                let (slot, contract_slot) = if probe.run_redeem_stake_batch_lock.is_none() {
                    (account.redeem_stake_batch, probe.redeem_stake_batch)
                } else {
                    (account.next_redeem_stake_batch, probe.next_redeem_stake_batch)
                };
                match slot {
                    Some(batch) => match contract_slot {
                        Some(contract_batch) => batch.balance.balance.0 <= contract_batch.balance.balance.0
                            && stake_amount(&account).checked_add(batch.balance.balance.0).is_some(),
                        None => false,
                    },
                    None => true,
                }
            },
            None => false,
        }
    }

    /// whether [ft_transfer](StakeTokenContract::ft_transfer) can be called: its conditions
    /// bind only where both accounts are registered
    pub fn ft_transfer_allowed(
        &self,
        sender: &crate::hash::Hash,
        receiver: &crate::hash::Hash,
        amount: YoctoStake,
        now: BlockTimeHeight,
    ) -> (r: bool)
        requires
            self.wf(),
        ensures
            r == self@.ft_transfer_ok(sender.key(), receiver.key(), amount.0, now),
    {
        match (self.accounts.get(sender), self.accounts.get(receiver)) {
            (Some(sender_account), Some(receiver_account)) => {
                let mut probe = self.copy();
                let mut account = sender_account;
                if !probe.claim_receipt_funds_checked(&mut account, now) {
                    return false;
                }
                amount.0 <= stake_amount(&account) && near_amount(&account) < u128::MAX && stake_amount(
                    &receiver_account,
                ).checked_add(amount.0).is_some()
            },
            _ => true,
        }
    }
}

impl StakeTokenContract {
    /// [storage_fee_ok](ContractModel::storage_fee_ok): the account storage fee fits in a u128
    pub fn storage_fee_allowed(&self) -> (r: bool)
        ensures
            r == self@.storage_fee_ok(),
    {
        self.config.storage_cost_per_byte.0.checked_mul(self.account_storage_usage.0 as u128).is_some()
    }

    /// [storage_deposit_ok](ContractModel::storage_deposit_ok): the deposit fits in the storage
    /// escrow balances
    pub fn storage_deposit_allowed(&self, key: &crate::hash::Hash, attached_deposit: u128) -> (r: bool)
        requires
            self.wf(),
        ensures
            r == self@.storage_deposit_ok(key.key(), attached_deposit),
    {
        if !self.storage_fee_allowed() || self.total_account_storage_escrow.0.checked_add(attached_deposit).is_none() {
            return false;
        }
        match self.accounts.get(key) {
            Some(account) => account.storage_escrow.balance.0.checked_add(attached_deposit).is_some(),
            None => true,
        }
    }

    /// [storage_withdraw_ok](ContractModel::storage_withdraw_ok): the withdrawal fits the
    /// contract's storage escrow
    pub fn storage_withdraw_allowed(&self, key: &crate::hash::Hash, amount: Option<YoctoNear>) -> (r: bool)
        requires
            self.wf(),
        ensures
            r == self@.storage_withdraw_ok(key.key(), amount),
    {
        if !self.storage_fee_allowed() {
            return false;
        }
        let balance = self.storage_balance_of(key);
        let withdraw = match amount {
            Some(amount) => amount.0,
            None => balance.available.0,
        };
        if self.account_registered(key) && withdraw <= balance.available.0 {
            withdraw <= self.total_account_storage_escrow.0 && withdraw < u128::MAX
        } else {
            true
        }
    }

    /// [owner_balance_ok](ContractModel::owner_balance_ok): the owner's balance covers the
    /// contract's storage cost
    pub fn owner_balance_allowed(&self) -> (r: bool)
        ensures
            r == self@.owner_balance_ok(),
    {
        match (self.contract_initial_storage_usage.0 as u128).checked_mul(self.config.storage_cost_per_byte.0) {
            Some(cost) => cost <= self.contract_owner_balance.0,
            None => false,
        }
    }

    /// [earnings_ok](ContractModel::earnings_ok): the user accounts' balance and the earnings fit
    /// in a u128, given the contract's account balance
    pub fn earnings_allowed(&self, account_balance: u128) -> (r: bool)
        ensures
            r == self@.earnings_ok(account_balance),
    {
        let stake_batch = match self.stake_batch {
            Some(batch) => batch.balance.balance.0,
            None => 0,
        };
        let next_stake_batch = match self.next_stake_batch {
            Some(batch) => batch.balance.balance.0,
            None => 0,
        };
        let total = match stake_batch.checked_add(next_stake_batch) {
            Some(t) => t,
            None => return false,
        };
        let total = match total.checked_add(self.total_near.balance.0) {
            Some(t) => t,
            None => return false,
        };
        let total = match total.checked_add(self.near_liquidity_pool.0) {
            Some(t) => t,
            None => return false,
        };
        if total.checked_add(self.total_account_storage_escrow.0).is_none() {
            return false;
        }
        self.contract_earnings(account_balance).0.checked_add(self.collected_earnings.0).is_some()
    }
}

} // verus!
