//! The account registry's bookkeeping: adding and removing accounts keeps the account count and
//! the total storage escrow in step, and NEAR can be batched to stake straight from a
//! registration.

use crate::account::Account;
use crate::amounts::{BlockTimeHeight, YoctoNear};
use crate::batch::{StakeBatch, StakeBatchReceipt};
use crate::stake_token_value::lemma_near_to_stake_bounded;
use crate::state::{ContractModel, StakeTokenContract};
use vstd::prelude::*;

verus! {

broadcast use vstd::std_specs::hash::group_hash_axioms;

impl ContractModel {
    /// the contract and the account after claiming the STAKE for the account's batch in `slot`
    /// against the batch's receipt: the claimed NEAR is debited from the receipt, which is
    /// deleted once all its STAKE is claimed
    pub open spec fn registry_claim(self, account: Account, slot: Option<StakeBatch>, now: BlockTimeHeight) -> (
        ContractModel,
        Account,
        bool,
    ) {
        match slot {
            Some(batch) => if self.stake_batch_receipts.contains_key(batch.batch_id.0) {
                let receipt = self.stake_batch_receipts[batch.batch_id.0];
                let staked_near = batch.balance.balance.0;
                let stake = receipt.stake_token_value.spec_near_to_stake(staked_near as nat) as u128;
                let receipt = StakeBatchReceipt {
                    staked_near: YoctoNear((receipt.staked_near.0 - staked_near) as u128),
                    ..receipt
                };
                let m = if receipt.staked_near.0 == 0 {
                    ContractModel { stake_batch_receipts: self.stake_batch_receipts.remove(batch.batch_id.0), ..self }
                } else {
                    ContractModel {
                        stake_batch_receipts: self.stake_batch_receipts.insert(batch.batch_id.0, receipt),
                        ..self
                    }
                };
                (m, account.spec_stake_credit(stake, now), true)
            } else {
                (self, account, false)
            },
            None => (self, account, false),
        }
    }

    pub open spec fn registry_claim_ok(self, account: Account, slot: Option<StakeBatch>) -> bool {
        match slot {
            Some(batch) => self.stake_batch_receipts.contains_key(batch.batch_id.0) ==> {
                let receipt = self.stake_batch_receipts[batch.batch_id.0];
                &&& batch.balance.balance.0 <= receipt.staked_near.0
                &&& account.stake_amount() + receipt.stake_token_value.spec_near_to_stake(
                    batch.balance.balance.0 as nat,
                ) <= u128::MAX
            },
            None => true,
        }
    }

    /// NEAR batched to stake: the contract's stake batch is credited (created if there is none);
    /// STAKE is claimed for the account's batches that have receipts; the amount is then added to
    /// the account's next batch, or else its current batch, or else a new batch under the current
    /// batch ID, which is kept as the next batch while the stake batch is locked and as the
    /// current batch otherwise
    pub open spec fn spec_apply_stake_batch_credit(self, account: Account, amount: u128, now: BlockTimeHeight) -> (
        ContractModel,
        Account,
    ) {
        if amount == 0 {
            (self, account)
        } else {
            let (m0, batch) = self.current_or_new_stake_batch(self.stake_batch, now);
            let m1 = ContractModel { stake_batch: Some(StakeBatch { balance: batch.balance.spec_credit(amount, now), ..batch }), ..m0 };
            let (m2, a1, c1) = m1.registry_claim(account, account.stake_batch, now);
            let a1 = if c1 { Account { stake_batch: None, ..a1 } } else { a1 };
            let (m3, a2, c2) = m2.registry_claim(a1, a1.next_stake_batch, now);
            let a2 = if c2 { Account { next_stake_batch: None, ..a2 } } else { a2 };
            let account_batch = match a2.next_stake_batch {
                Some(b) => b,
                None => match a2.stake_batch {
                    Some(b) => b,
                    None => StakeBatch {
                        batch_id: m3.batch_id_sequence,
                        balance: crate::balance::TimestampedNearBalance::spec_new(YoctoNear(0), now),
                    },
                },
            };
            let account_batch = StakeBatch { balance: account_batch.balance.spec_credit(amount, now), ..account_batch };
            let a3 = if m3.run_stake_batch_locked {
                Account { next_stake_batch: Some(account_batch), ..a2 }
            } else {
                Account { stake_batch: Some(account_batch), ..a2 }
            };
            (m3, a3)
        }
    }

    pub open spec fn apply_stake_batch_credit_ok(self, account: Account, amount: u128, now: BlockTimeHeight) -> bool {
        let (m0, batch) = self.current_or_new_stake_batch(self.stake_batch, now);
        let m1 = ContractModel { stake_batch: Some(StakeBatch { balance: batch.balance.spec_credit(amount, now), ..batch }), ..m0 };
        let (m2, a1, c1) = m1.registry_claim(account, account.stake_batch, now);
        let a1 = if c1 { Account { stake_batch: None, ..a1 } } else { a1 };
        let (m3, a2, c2) = m2.registry_claim(a1, a1.next_stake_batch, now);
        let a2 = if c2 { Account { next_stake_batch: None, ..a2 } } else { a2 };
        amount > 0 ==> {
            &&& self.stake_batch is None ==> self.batch_id_sequence.0 < u128::MAX
            &&& batch.balance.balance.0 + amount <= u128::MAX
            &&& m1.registry_claim_ok(account, account.stake_batch)
            &&& m2.registry_claim_ok(a1, a1.next_stake_batch)
            &&& match a2.next_stake_batch {
                Some(b) => b.balance.balance.0 + amount <= u128::MAX,
                None => match a2.stake_batch {
                    Some(b) => b.balance.balance.0 + amount <= u128::MAX,
                    None => true,
                },
            }
        }
    }
}

impl StakeTokenContract {
    /// claims the STAKE for the account's batch in `slot` against the batch's receipt, debiting
    /// the receipt and deleting it once all its STAKE is claimed; returns true if the batch had a
    /// receipt
    fn registry_claim(&mut self, account: &mut Account, slot: Option<StakeBatch>, now: BlockTimeHeight) -> (r: bool)
        requires
            old(self).wf(),
            old(self)@.registry_claim_ok(*old(account), slot),
        ensures
            final(self).wf(),
            (final(self)@, *final(account), r) == old(self)@.registry_claim(*old(account), slot, now),
            final(self).accounts == old(self).accounts,
    {
        let ghost m = self@;
        if let Some(batch) = slot {
            if let Some(receipt) = self.stake_batch_receipts.get(&batch.batch_id.0) {
                let mut receipt = *receipt;
                proof {
                    assert(m.stake_batch_receipts.contains_key(batch.batch_id.0));
                    lemma_near_to_stake_bounded(receipt.stake_token_value, batch.balance.balance.0 as nat);
                }
                // how much NEAR did the account stake in the batch
                let staked_near = batch.balance.balance;
                // claim the STAKE tokens for the account
                let stake = receipt.stake_token_value.near_to_stake(staked_near);
                account.apply_stake_credit(stake, now);
                // track that the STAKE tokens were claimed
                receipt.stake_tokens_issued(staked_near);
                if receipt.all_claimed() {
                    // then delete the receipt and free the storage
                    self.stake_batch_receipts.remove(&batch.batch_id.0);
                } else {
                    self.stake_batch_receipts.insert(batch.batch_id.0, receipt);
                }
                proof {
                    assert forall|k: u128| #[trigger] self@.stake_batch_receipts.contains_key(k) implies self@.stake_batch_receipts[k].stake_token_value.wf() by {
                        if k != batch.batch_id.0 {
                            assert(m.stake_batch_receipts.contains_key(k));
                        }
                    }
                    assert forall|k: u128| #[trigger] self@.redeem_stake_batch_receipts.contains_key(k) implies self@.redeem_stake_batch_receipts[k].stake_token_value.wf() by {
                        assert(m.redeem_stake_batch_receipts.contains_key(k));
                    }
                }
                return true;
            }
        }
        false
    }

    /// batches NEAR to stake at the contract level and at the account level; if the account
    /// has batches with receipts, their STAKE is claimed first
    pub fn apply_stake_batch_credit(&mut self, account: &mut Account, amount: YoctoNear, now: BlockTimeHeight)
        requires
            old(self).wf(),
            old(self)@.apply_stake_batch_credit_ok(*old(account), amount.0, now),
        ensures
            final(self).wf(),
            (final(self)@, *final(account)) == old(self)@.spec_apply_stake_batch_credit(*old(account), amount.0, now),
            final(self).accounts == old(self).accounts,
    {
        if amount.0 == 0 {
            return;
        }
        // apply to the contract level batch
        let mut batch = match self.stake_batch {
            Some(batch) => batch,
            None => self.new_stake_batch(now),
        };
        batch.add(amount, now);
        self.stake_batch = Some(batch);
        // check if there are STAKE tokens to claim
        let current = account.stake_batch;
        if self.registry_claim(account, current, now) {
            account.stake_batch = None;
        }
        let next = account.next_stake_batch;
        if self.registry_claim(account, next, now) {
            account.next_stake_batch = None;
        }
        let mut batch = match account.next_stake_batch {
            Some(batch) => batch,
            None => match account.stake_batch {
                Some(batch) => batch,
                None => StakeBatch::new(self.batch_id_sequence, YoctoNear(0), now),
            },
        };
        batch.add(amount, now);
        if self.run_stake_batch_locked {
            account.next_stake_batch = Some(batch);
        } else {
            account.stake_batch = Some(batch);
        }
    }
}

} // verus!
