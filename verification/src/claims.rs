//! Claiming receipts: once a batch has run, the accounts that contributed to it claim their
//! share — STAKE for a stake batch, NEAR for a redeem stake batch — against the batch receipt.

use crate::account::{redeem_batch_amount, Account};
use crate::amounts::{BatchId, BlockTimeHeight, YoctoNear, YoctoStake};
use crate::batch::{RedeemLock, RedeemStakeBatch, RedeemStakeBatchReceipt, StakeBatch, StakeBatchReceipt};
use crate::stake_token_value::{lemma_near_to_stake_bounded, lemma_stake_to_near_at_least};
use crate::state::{ContractModel, StakeTokenContract};
use vstd::prelude::*;

verus! {

broadcast use vstd::std_specs::hash::group_hash_axioms;

impl ContractModel {
    /// claims STAKE for a stake batch of the account that has a receipt:
    /// returns the contract, the account credited with the STAKE, the batch slot afterwards
    /// (cleared when claimed) and whether anything was claimed
    pub open spec fn stake_slot(self, account: Account, slot: Option<StakeBatch>, now: BlockTimeHeight) -> (
        ContractModel,
        Account,
        Option<StakeBatch>,
        bool,
    ) {
        match slot {
            Some(batch) => if self.stake_batch_receipts.contains_key(batch.batch_id.0) {
                let receipt = self.stake_batch_receipts[batch.batch_id.0];
                let staked_near = batch.balance.balance.0;
                let stake = receipt.stake_token_value.spec_near_to_stake(staked_near as nat);
                let receipt = StakeBatchReceipt {
                    staked_near: YoctoNear((receipt.staked_near.0 - staked_near) as u128),
                    ..receipt
                };
                let receipts = if receipt.staked_near.0 == 0 {
                    self.stake_batch_receipts.remove(batch.batch_id.0)
                } else {
                    self.stake_batch_receipts.insert(batch.batch_id.0, receipt)
                };
                (
                    ContractModel { stake_batch_receipts: receipts, ..self },
                    account.spec_stake_credit(stake as u128, now),
                    None,
                    true,
                )
            } else {
                (self, account, slot, false)
            },
            None => (self, account, slot, false),
        }
    }

    /// the claim of [stake_slot](ContractModel::stake_slot) does not overflow or underflow
    pub open spec fn stake_slot_ok(self, account: Account, slot: Option<StakeBatch>) -> bool {
        match slot {
            Some(batch) => self.stake_batch_receipts.contains_key(batch.batch_id.0) ==> {
                let receipt = self.stake_batch_receipts[batch.batch_id.0];
                &&& batch.balance.balance.0 <= receipt.staked_near.0
                &&& account.stake_amount() + batch.balance.balance.0 <= u128::MAX
            },
            None => true,
        }
    }

    /// claims STAKE for both stake batches of the account, then moves the next batch into the
    /// current batch if the current batch is empty and no stake batch is running
    pub open spec fn spec_claim_stake_batch_receipts(self, account: Account, now: BlockTimeHeight) -> (
        ContractModel,
        Account,
        bool,
    ) {
        let (m1, a1, s1, c1) = self.stake_slot(account, account.stake_batch, now);
        let a1 = Account { stake_batch: s1, ..a1 };
        let (m2, a2, s2, c2) = m1.stake_slot(a1, a1.next_stake_batch, now);
        let a2 = Account { next_stake_batch: s2, ..a2 };
        let a3 = if !m2.run_stake_batch_locked && a2.stake_batch is None {
            Account { stake_batch: a2.next_stake_batch, next_stake_batch: None, ..a2 }
        } else {
            a2
        };
        (m2, a3, c1 || c2)
    }

    pub open spec fn claim_stake_batch_receipts_ok(self, account: Account, now: BlockTimeHeight) -> bool {
        let (m1, a1, s1, c1) = self.stake_slot(account, account.stake_batch, now);
        let a1 = Account { stake_batch: s1, ..a1 };
        &&& self.stake_slot_ok(account, account.stake_batch)
        &&& m1.stake_slot_ok(a1, a1.next_stake_batch)
    }

    /// claims NEAR for a redeem stake batch of the account that has a receipt
    pub open spec fn redeem_slot(self, account: Account, slot: Option<RedeemStakeBatch>, now: BlockTimeHeight) -> (
        ContractModel,
        Account,
        Option<RedeemStakeBatch>,
        bool,
    ) {
        match slot {
            Some(batch) => if self.redeem_stake_batch_receipts.contains_key(batch.batch_id.0) {
                let receipt = self.redeem_stake_batch_receipts[batch.batch_id.0];
                let redeemed_stake = batch.balance.balance.0;
                let near = receipt.stake_token_value.spec_stake_to_near(redeemed_stake as nat);
                let receipt = RedeemStakeBatchReceipt {
                    redeemed_stake: YoctoStake((receipt.redeemed_stake.0 - redeemed_stake) as u128),
                    ..receipt
                };
                let receipts = if receipt.redeemed_stake.0 == 0 {
                    self.redeem_stake_batch_receipts.remove(batch.batch_id.0)
                } else {
                    self.redeem_stake_batch_receipts.insert(batch.batch_id.0, receipt)
                };
                (
                    ContractModel { redeem_stake_batch_receipts: receipts, ..self },
                    account.spec_near_credit(near as u128, now),
                    None,
                    true,
                )
            } else {
                (self, account, slot, false)
            },
            None => (self, account, slot, false),
        }
    }

    pub open spec fn redeem_slot_ok(self, account: Account, slot: Option<RedeemStakeBatch>) -> bool {
        match slot {
            Some(batch) => self.redeem_stake_batch_receipts.contains_key(batch.batch_id.0) ==> {
                let receipt = self.redeem_stake_batch_receipts[batch.batch_id.0];
                let near = receipt.stake_token_value.spec_stake_to_near(batch.balance.balance.0 as nat);
                &&& batch.balance.balance.0 <= receipt.redeemed_stake.0
                &&& account.near_amount() + near <= u128::MAX
            },
            None => true,
        }
    }

    /// claims NEAR for the part of the batch that is pending withdrawal which the NEAR liquidity
    /// pool can cover; when the receipt is fully claimed, the redeem lock is released and the
    /// next redeem stake batch becomes the current one
    pub open spec fn liquidity_claim(self, account: Account, batch: RedeemStakeBatch, now: BlockTimeHeight) -> (
        ContractModel,
        Account,
        RedeemStakeBatch,
    ) {
        let receipt = self.redeem_stake_batch_receipts[batch.batch_id.0];
        let value = receipt.stake_token_value;
        let redeemed_stake = batch.balance.balance.0;
        let stake_liquidity = value.spec_near_to_stake(self.near_liquidity_pool.0 as nat);
        let redeemable = if stake_liquidity >= redeemed_stake {
            redeemed_stake as int
        } else {
            stake_liquidity
        };
        let batch = RedeemStakeBatch {
            balance: batch.balance.spec_debit(redeemable as u128, now),
            ..batch
        };
        let near = value.spec_stake_to_near(redeemable as nat);
        let receipt = RedeemStakeBatchReceipt {
            redeemed_stake: YoctoStake((receipt.redeemed_stake.0 - redeemable) as u128),
            ..receipt
        };
        let m = ContractModel {
            near_liquidity_pool: YoctoNear((self.near_liquidity_pool.0 - near) as u128),
            total_near: self.total_near.spec_credit(near as u128, now),
            ..self
        };
        let m = if receipt.redeemed_stake.0 == 0 {
            ContractModel {
                redeem_stake_batch_receipts: m.redeem_stake_batch_receipts.remove(batch.batch_id.0),
                run_redeem_stake_batch_lock: None,
                redeem_stake_batch: m.next_redeem_stake_batch,
                next_redeem_stake_batch: None,
                ..m
            }
        } else {
            ContractModel {
                redeem_stake_batch_receipts: m.redeem_stake_batch_receipts.insert(batch.batch_id.0, receipt),
                ..m
            }
        };
        (m, account.spec_near_credit(near as u128, now), batch)
    }

    pub open spec fn liquidity_claim_ok(self, account: Account, batch: RedeemStakeBatch) -> bool {
        let receipt = self.redeem_stake_batch_receipts[batch.batch_id.0];
        let value = receipt.stake_token_value;
        let redeemed_stake = batch.balance.balance.0;
        let stake_liquidity = value.spec_near_to_stake(self.near_liquidity_pool.0 as nat);
        let redeemable = if stake_liquidity >= redeemed_stake {
            redeemed_stake as int
        } else {
            stake_liquidity
        };
        let near = value.spec_stake_to_near(redeemable as nat);
        &&& redeemable <= receipt.redeemed_stake.0
        &&& near <= self.near_liquidity_pool.0
        &&& account.near_amount() + near <= u128::MAX
        &&& self.total_near.balance.0 + near <= u128::MAX
    }

    /// claims NEAR for a redeem stake batch of the account while a batch is pending withdrawal:
    /// a batch other than the pending one is claimed in full against its receipt, the pending
    /// batch is claimed against the NEAR liquidity pool
    pub open spec fn pending_slot(
        self,
        account: Account,
        slot: Option<RedeemStakeBatch>,
        pending_id: BatchId,
        now: BlockTimeHeight,
    ) -> (ContractModel, Account, Option<RedeemStakeBatch>, bool) {
        match slot {
            Some(batch) => if batch.batch_id != pending_id {
                self.redeem_slot(account, slot, now)
            } else if self.near_liquidity_pool.0 > 0 && self.redeem_stake_batch_receipts.contains_key(
                batch.batch_id.0,
            ) {
                let (m, a, b) = self.liquidity_claim(account, batch, now);
                (m, a, if b.balance.balance.0 == 0 { None } else { Some(b) }, true)
            } else {
                (self, account, slot, false)
            },
            None => (self, account, slot, false),
        }
    }

    pub open spec fn pending_slot_ok(self, account: Account, slot: Option<RedeemStakeBatch>, pending_id: BatchId) -> bool {
        match slot {
            Some(batch) => if batch.batch_id != pending_id {
                self.redeem_slot_ok(account, slot)
            } else if self.near_liquidity_pool.0 > 0 && self.redeem_stake_batch_receipts.contains_key(
                batch.batch_id.0,
            ) {
                self.liquidity_claim_ok(account, batch)
            } else {
                true
            },
            None => true,
        }
    }

    /// moves the next redeem stake batch into the current one if the current one is empty and
    /// no redeem stake batch is running
    pub open spec fn shift_redeem_batches(self, account: Account) -> Account {
        if self.run_redeem_stake_batch_lock is None && account.redeem_stake_batch is None {
            Account {
                redeem_stake_batch: account.next_redeem_stake_batch,
                next_redeem_stake_batch: None,
                ..account
            }
        } else {
            account
        }
    }

    /// claims NEAR for both redeem stake batches of the account: nothing can be claimed while
    /// STAKE is being unstaked
    pub open spec fn spec_claim_redeem_stake_batch_receipts(self, account: Account, now: BlockTimeHeight) -> (
        ContractModel,
        Account,
        bool,
    ) {
        match self.run_redeem_stake_batch_lock {
            Some(RedeemLock::PendingWithdrawal) => {
                let pending_id = self.redeem_stake_batch.unwrap().batch_id;
                let (m1, a1, s1, c1) = self.pending_slot(account, account.redeem_stake_batch, pending_id, now);
                let a1 = Account { redeem_stake_batch: s1, ..a1 };
                let (m2, a2, s2, c2) = m1.pending_slot(a1, a1.next_redeem_stake_batch, pending_id, now);
                let a2 = Account { next_redeem_stake_batch: s2, ..a2 };
                (m2, m2.shift_redeem_batches(a2), c1 || c2)
            },
            Some(RedeemLock::Unstaking) => (self, account, false),
            None => {
                let (m1, a1, s1, c1) = self.redeem_slot(account, account.redeem_stake_batch, now);
                let a1 = Account { redeem_stake_batch: s1, ..a1 };
                let (m2, a2, s2, c2) = m1.redeem_slot(a1, a1.next_redeem_stake_batch, now);
                let a2 = Account { next_redeem_stake_batch: s2, ..a2 };
                (m2, m2.shift_redeem_batches(a2), c1 || c2)
            },
        }
    }

    pub open spec fn claim_redeem_stake_batch_receipts_ok(self, account: Account, now: BlockTimeHeight) -> bool {
        match self.run_redeem_stake_batch_lock {
            Some(RedeemLock::PendingWithdrawal) => {
                let pending_id = self.redeem_stake_batch.unwrap().batch_id;
                let (m1, a1, s1, c1) = self.pending_slot(account, account.redeem_stake_batch, pending_id, now);
                let a1 = Account { redeem_stake_batch: s1, ..a1 };
                &&& self.redeem_stake_batch is Some
                &&& self.pending_slot_ok(account, account.redeem_stake_batch, pending_id)
                &&& m1.pending_slot_ok(a1, a1.next_redeem_stake_batch, pending_id)
            },
            Some(RedeemLock::Unstaking) => true,
            None => {
                let (m1, a1, s1, c1) = self.redeem_slot(account, account.redeem_stake_batch, now);
                let a1 = Account { redeem_stake_batch: s1, ..a1 };
                &&& self.redeem_slot_ok(account, account.redeem_stake_batch)
                &&& m1.redeem_slot_ok(a1, a1.next_redeem_stake_batch)
            },
        }
    }

    /// claims the funds of all receipts the account has batches for
    #[verifier::opaque]
    pub open spec fn spec_claim_receipt_funds(self, account: Account, now: BlockTimeHeight) -> (
        ContractModel,
        Account,
        bool,
    ) {
        let (m1, a1, c1) = self.spec_claim_stake_batch_receipts(account, now);
        let (m2, a2, c2) = m1.spec_claim_redeem_stake_batch_receipts(a1, now);
        (m2, a2, c1 || c2)
    }

    #[verifier::opaque]
    pub open spec fn claim_receipt_funds_ok(self, account: Account, now: BlockTimeHeight) -> bool {
        let (m1, a1, c1) = self.spec_claim_stake_batch_receipts(account, now);
        &&& self.claim_stake_batch_receipts_ok(account, now)
        &&& m1.claim_redeem_stake_batch_receipts_ok(a1, now)
    }
}

impl StakeTokenContract {
    pub(crate) fn claim_stake_slot(&mut self, account: &mut Account, slot: Option<StakeBatch>, now: BlockTimeHeight) -> (r: (
        Option<StakeBatch>,
        bool,
    ))
        requires
            old(self).wf(),
            old(self)@.stake_slot_ok(*old(account), slot),
        ensures
            final(self).wf(),
            (final(self)@, *final(account), r.0, r.1) == old(self)@.stake_slot(*old(account), slot, now),
            final(self).accounts == old(self).accounts,
    {
        let ghost old_m = self@;
        if let Some(batch) = slot {
            if let Some(receipt) = self.stake_batch_receipt(batch.batch_id) {
                let mut receipt = receipt;
                // how much NEAR did the account stake in the batch
                let staked_near = batch.balance.balance;
                proof {
                    lemma_near_to_stake_bounded(receipt.stake_token_value, staked_near.0 as nat);
                }
                // claim the STAKE tokens for the account
                let stake = receipt.stake_token_value.near_to_stake(staked_near);
                account.apply_stake_credit(stake, now);
                // track that the STAKE tokens were claimed
                receipt.stake_tokens_issued(staked_near);
                if receipt.all_claimed() {
                    // then delete the receipt and free the storage
                    self.stake_batch_receipts.remove(&batch.batch_id.0);
                } else {
                    self.stake_batch_receipts.insert(batch.batch_id.0, receipt);
                }
                proof {
                    assert(self@.redeem_stake_batch_receipts == old_m.redeem_stake_batch_receipts);
                    assert forall|k: u128| #[trigger] self@.redeem_stake_batch_receipts.contains_key(k) implies self@.redeem_stake_batch_receipts[k].stake_token_value.wf() by {
                        assert(old_m.redeem_stake_batch_receipts.contains_key(k));
                    }
                    assert forall|k: u128| #[trigger] self@.stake_batch_receipts.contains_key(k) implies self@.stake_batch_receipts[k].stake_token_value.wf() by {
                        if k != batch.batch_id.0 {
                            assert(old_m.stake_batch_receipts.contains_key(k));
                        }
                    }
                }
                return (None, true);
            }
        }
        (slot, false)
    }

    /// claims STAKE for the account's stake batches that have receipts; returns true if
    /// anything was claimed
    pub fn claim_stake_batch_receipts(&mut self, account: &mut Account, now: BlockTimeHeight) -> (r: bool)
        requires
            old(self).wf(),
            old(self)@.claim_stake_batch_receipts_ok(*old(account), now),
        ensures
            final(self).wf(),
            (final(self)@, *final(account), r) == old(self)@.spec_claim_stake_batch_receipts(*old(account), now),
            final(self).accounts == old(self).accounts,
    {
        let (slot, claimed_current) = self.claim_stake_slot(account, account.stake_batch, now);
        account.stake_batch = slot;
        let (slot, claimed_next) = self.claim_stake_slot(account, account.next_stake_batch, now);
        account.next_stake_batch = slot;
        // move the next batch into the current batch as long as the contract is not locked and
        // the funds for the current batch have been claimed
        if !self.run_stake_batch_locked && account.stake_batch.is_none() {
            account.stake_batch = account.next_stake_batch;
            account.next_stake_batch = None;
        }
        claimed_current || claimed_next
    }

    pub(crate) fn claim_redeem_slot(&mut self, account: &mut Account, slot: Option<RedeemStakeBatch>, now: BlockTimeHeight) -> (r: (
        Option<RedeemStakeBatch>,
        bool,
    ))
        requires
            old(self).wf(),
            old(self)@.redeem_slot_ok(*old(account), slot),
            old(self)@.run_redeem_stake_batch_lock == Some(RedeemLock::PendingWithdrawal) && slot is Some
                ==> slot.unwrap().batch_id != old(self)@.redeem_stake_batch.unwrap().batch_id,
        ensures
            final(self).wf(),
            (final(self)@, *final(account), r.0, r.1) == old(self)@.redeem_slot(*old(account), slot, now),
            final(self).accounts == old(self).accounts,
    {
        let ghost old_m = self@;
        if let Some(batch) = slot {
            if let Some(receipt) = self.redeem_stake_batch_receipt(batch.batch_id) {
                let mut receipt = receipt;
                // how much STAKE did the account redeem in the batch
                let redeemed_stake = batch.balance.balance;
                // claim the NEAR for the account
                let near = receipt.stake_token_value.stake_to_near(redeemed_stake);
                account.apply_near_credit(near, now);
                // track that the NEAR was claimed
                receipt.stake_tokens_redeemed(redeemed_stake);
                if receipt.all_claimed() {
                    self.redeem_stake_batch_receipts.remove(&batch.batch_id.0);
                } else {
                    self.redeem_stake_batch_receipts.insert(batch.batch_id.0, receipt);
                }
                proof {
                    assert(self@.stake_batch_receipts == old_m.stake_batch_receipts);
                    assert forall|k: u128| #[trigger] self@.stake_batch_receipts.contains_key(k) implies self@.stake_batch_receipts[k].stake_token_value.wf() by {
                        assert(old_m.stake_batch_receipts.contains_key(k));
                    }
                    if old_m.run_redeem_stake_batch_lock == Some(RedeemLock::PendingWithdrawal) {
                        let pending = old_m.redeem_stake_batch.unwrap().batch_id;
                        assert(pending.0 != batch.batch_id.0);
                        assert(self@.redeem_stake_batch_receipts.contains_key(pending.0));
                    }
                    assert forall|k: u128| #[trigger] self@.redeem_stake_batch_receipts.contains_key(k) implies self@.redeem_stake_batch_receipts[k].stake_token_value.wf() by {
                        if k != batch.batch_id.0 {
                            assert(old_m.redeem_stake_batch_receipts.contains_key(k));
                        }
                    }
                }
                return (None, true);
            }
        }
        (slot, false)
    }

    pub(crate) fn claim_liquidity(&mut self, account: &mut Account, batch: RedeemStakeBatch, now: BlockTimeHeight) -> (r: RedeemStakeBatch)
        requires
            old(self).wf(),
            old(self)@.redeem_stake_batch_receipts.contains_key(batch.batch_id.0),
            old(self)@.liquidity_claim_ok(*old(account), batch),
        ensures
            final(self).wf(),
            (final(self)@, *final(account), r) == old(self)@.liquidity_claim(*old(account), batch, now),
            final(self).accounts == old(self).accounts,
    {
        let ghost old_m = self@;
        let mut batch = batch;
        let mut receipt = self.redeem_stake_batch_receipt(batch.batch_id).unwrap();
        let value = receipt.stake_token_value;
        // how much STAKE did the account redeem in the batch
        let redeemed_stake = batch.balance.balance;
        proof {
            lemma_near_to_stake_bounded(value, self.near_liquidity_pool.0 as nat);
        }
        // compute STAKE liquidity
        let stake_liquidity = value.near_to_stake(self.near_liquidity_pool);
        // compute how much STAKE can be redeemed from the liquidity pool
        let redeemable_stake = if stake_liquidity.0 >= redeemed_stake.0 {
            redeemed_stake
        } else {
            stake_liquidity
        };
        batch.remove(redeemable_stake, now);
        proof {
            lemma_stake_to_near_at_least(value, redeemable_stake.0 as nat);
        }
        // claim the NEAR for the account
        let near = value.stake_to_near(redeemable_stake);
        account.apply_near_credit(near, now);
        self.near_liquidity_pool = YoctoNear(self.near_liquidity_pool.0 - near.0);
        self.total_near.credit(near, now);
        // track that the STAKE was redeemed
        receipt.stake_tokens_redeemed(redeemable_stake);
        if receipt.all_claimed() {
            // then delete the receipt and free the storage
            self.redeem_stake_batch_receipts.remove(&batch.batch_id.0);
            self.run_redeem_stake_batch_lock = None;
            self.pop_redeem_stake_batch();
        } else {
            self.redeem_stake_batch_receipts.insert(batch.batch_id.0, receipt);
        }
        proof {
            assert(self@.stake_batch_receipts == old_m.stake_batch_receipts);
            assert forall|k: u128| #[trigger] self@.stake_batch_receipts.contains_key(k) implies self@.stake_batch_receipts[k].stake_token_value.wf() by {
                assert(old_m.stake_batch_receipts.contains_key(k));
            }
            assert forall|k: u128| #[trigger] self@.redeem_stake_batch_receipts.contains_key(k) implies self@.redeem_stake_batch_receipts[k].stake_token_value.wf() by {
                if k != batch.batch_id.0 {
                    assert(old_m.redeem_stake_batch_receipts.contains_key(k));
                }
            }
        }
        batch
    }

    pub(crate) fn claim_pending_slot(
        &mut self,
        account: &mut Account,
        slot: Option<RedeemStakeBatch>,
        pending_id: BatchId,
        now: BlockTimeHeight,
    ) -> (r: (Option<RedeemStakeBatch>, bool))
        requires
            old(self).wf(),
            old(self)@.pending_slot_ok(*old(account), slot, pending_id),
            old(self)@.run_redeem_stake_batch_lock == Some(RedeemLock::PendingWithdrawal)
                ==> pending_id == old(self)@.redeem_stake_batch.unwrap().batch_id,
        ensures
            final(self).wf(),
            (final(self)@, *final(account), r.0, r.1) == old(self)@.pending_slot(
                *old(account),
                slot,
                pending_id,
                now,
            ),
            final(self).accounts == old(self).accounts,
    {
        if let Some(batch) = slot {
            if batch.batch_id != pending_id {
                return self.claim_redeem_slot(account, slot, now);
            } else if self.near_liquidity_pool.0 > 0 {
                if self.redeem_stake_batch_receipt(batch.batch_id).is_some() {
                    let batch = self.claim_liquidity(account, batch, now);
                    if batch.balance.balance.0 == 0 {
                        return (None, true);
                    } else {
                        return (Some(batch), true);
                    }
                }
            }
        }
        (slot, false)
    }

    /// claims NEAR for the account's redeem stake batches that have receipts; returns true if
    /// anything was claimed
    pub fn claim_redeem_stake_batch_receipts(&mut self, account: &mut Account, now: BlockTimeHeight) -> (r: bool)
        requires
            old(self).wf(),
            old(self)@.claim_redeem_stake_batch_receipts_ok(*old(account), now),
        ensures
            final(self).wf(),
            (final(self)@, *final(account), r) == old(self)@.spec_claim_redeem_stake_batch_receipts(
                *old(account),
                now,
            ),
            final(self).accounts == old(self).accounts,
    {
        let claimed_current;
        let claimed_next;
        match self.run_redeem_stake_batch_lock {
            // NEAR can be claimed for receipts that are not pending withdrawal of the unstaked NEAR;
            // NEAR can also be claimed against the NEAR liquidity pool
            Some(RedeemLock::PendingWithdrawal) => {
                let pending_id = self.redeem_stake_batch.unwrap().batch_id;
                let (slot, claimed) = self.claim_pending_slot(account, account.redeem_stake_batch, pending_id, now);
                account.redeem_stake_batch = slot;
                claimed_current = claimed;
                let (slot, claimed) = self.claim_pending_slot(
                    account,
                    account.next_redeem_stake_batch,
                    pending_id,
                    now,
                );
                account.next_redeem_stake_batch = slot;
                claimed_next = claimed;
            },
            None => {
                let (slot, claimed) = self.claim_redeem_slot(account, account.redeem_stake_batch, now);
                account.redeem_stake_batch = slot;
                claimed_current = claimed;
                let (slot, claimed) = self.claim_redeem_slot(account, account.next_redeem_stake_batch, now);
                account.next_redeem_stake_batch = slot;
                claimed_next = claimed;
            },
            // while unstaking, redeemed STAKE balances are locked and no receipts are claimed
            Some(RedeemLock::Unstaking) => {
                return false;
            },
        }
        // shift the next batch into the current batch if the funds have been claimed for the
        // current batch and no redeem stake batch is running
        if self.run_redeem_stake_batch_lock.is_none() && account.redeem_stake_batch.is_none() {
            account.redeem_stake_batch = account.next_redeem_stake_batch;
            account.next_redeem_stake_batch = None;
        }
        claimed_current || claimed_next
    }

    /// claims the funds of all receipts the account has batches for; returns true if anything
    /// was claimed, i.e., if the account changed
    pub fn claim_receipt_funds(&mut self, account: &mut Account, now: BlockTimeHeight) -> (r: bool)
        requires
            old(self).wf(),
            old(self)@.claim_receipt_funds_ok(*old(account), now),
        ensures
            final(self).wf(),
            (final(self)@, *final(account), r) == old(self)@.spec_claim_receipt_funds(*old(account), now),
            final(self).accounts == old(self).accounts,
    {
        proof {
            reveal(ContractModel::spec_claim_receipt_funds);
            reveal(ContractModel::claim_receipt_funds_ok);
        }
        let claimed_stake = self.claim_stake_batch_receipts(account, now);
        let claimed_near = self.claim_redeem_stake_batch_receipts(account, now);
        claimed_stake || claimed_near
    }

    /// moves the next redeem stake batch into the current one
    pub fn pop_redeem_stake_batch(&mut self)
        ensures
            final(self)@ == (ContractModel {
                redeem_stake_batch: old(self)@.next_redeem_stake_batch,
                next_redeem_stake_batch: None,
                ..old(self)@
            }),
            final(self).accounts == old(self).accounts,
    {
        self.redeem_stake_batch = self.next_redeem_stake_batch;
        self.next_redeem_stake_batch = None;
    }

    /// moves the next stake batch into the current one
    pub fn pop_stake_batch(&mut self)
        ensures
            final(self)@ == (ContractModel {
                stake_batch: old(self)@.next_stake_batch,
                next_stake_batch: None,
                ..old(self)@
            }),
            final(self).accounts == old(self).accounts,
    {
        self.stake_batch = self.next_stake_batch;
        self.next_stake_batch = None;
    }
}

/// Claiming a stake batch that has a receipt credits the account with the batch's NEAR converted
/// to STAKE at the STAKE token value recorded on the receipt, debits that NEAR from the receipt
/// (deleting the receipt once nothing is left on it) and clears the batch; the rest of the account
/// is unchanged. A batch without a receipt is left as it is.
pub proof fn lemma_stake_claim_at_receipt_value(m: ContractModel, account: Account, batch: StakeBatch, now: BlockTimeHeight)
    requires
        m.wf(),
        m.stake_slot_ok(account, Some(batch)),
    ensures
        ({
            let (m1, a1, slot, claimed) = m.stake_slot(account, Some(batch), now);
            let id = batch.batch_id.0;
            if m.stake_batch_receipts.contains_key(id) {
                let receipt = m.stake_batch_receipts[id];
                let left = receipt.staked_near.0 - batch.balance.balance.0;
                &&& a1.stake_amount() == account.stake_amount() + receipt.stake_token_value.spec_near_to_stake(
                    batch.balance.balance.0 as nat,
                )
                &&& a1.near == account.near
                &&& a1.stake_batch == account.stake_batch
                &&& a1.next_stake_batch == account.next_stake_batch
                &&& a1.redeem_stake_batch == account.redeem_stake_batch
                &&& a1.next_redeem_stake_batch == account.next_redeem_stake_batch
                &&& slot is None
                &&& claimed
                &&& (left == 0 ==> !m1.stake_batch_receipts.contains_key(id))
                &&& (left > 0 ==> m1.stake_batch_receipts.contains_key(id)
                    && m1.stake_batch_receipts[id].staked_near.0 == left
                    && m1.stake_batch_receipts[id].stake_token_value == receipt.stake_token_value)
                &&& m1.total_stake == m.total_stake
            } else {
                m1 == m && a1 == account && slot == Some(batch) && !claimed
            }
        }),
{
    let id = batch.batch_id.0;
    if m.stake_batch_receipts.contains_key(id) {
        let receipt = m.stake_batch_receipts[id];
        lemma_near_to_stake_bounded(receipt.stake_token_value, batch.balance.balance.0 as nat);
    }
}

} // verus!
