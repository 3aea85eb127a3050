//! The staking service: NEAR deposits are batched to be staked, STAKE is batched to be
//! redeemed, and funds can be taken back out of batches that have not run yet.

use crate::account::{redeem_batch_amount, stake_batch_amount, Account};
use crate::amounts::{BatchId, BlockTimeHeight, EpochHeight, YoctoNear, YoctoStake};
use crate::balance::{TimestampedNearBalance, TimestampedStakeBalance};
use crate::batch::{RedeemLock, RedeemStakeBatch, StakeBatch};
use crate::state::{lemma_receipts_unchanged, ContractModel, StakeTokenContract};
use vstd::prelude::*;

verus! {

broadcast use vstd::std_specs::hash::group_hash_axioms;

/// what a combined deposit-and-stake or redeem-and-unstake request led to
#[derive(Debug, Clone, Copy, PartialEq, Eq, Structural)]
pub enum BatchOutcome {
    /// the batch was kicked off: the caller runs the staking pool workflow
    Running,
    /// the batch could not run yet: the funds wait in the batch with this ID
    Batched(BatchId),
}

/// the staking pool workflow that unstaking kicks off
#[derive(Debug, Clone, Copy, PartialEq, Eq, Structural)]
pub enum UnstakeAction {
    /// get the account from the staking pool, then run the redeem stake batch
    RunRedeemStakeBatch,
    /// get the account from the staking pool, then withdraw the unstaked NEAR that is pending
    /// withdrawal
    WithdrawPending,
}

impl ContractModel {
    /// the model with the account saved under `key`
    pub open spec fn with_account(self, key: Seq<u8>, account: Account) -> ContractModel {
        ContractModel { accounts: self.accounts.insert(key, account), ..self }
    }

    /// a new batch ID from the batch ID sequence
    pub open spec fn next_batch_id(self) -> BatchId {
        BatchId((self.batch_id_sequence.0 + 1) as u128)
    }

    /// a batch either exists or is created with a new batch ID and an empty balance
    pub open spec fn current_or_new_stake_batch(self, batch: Option<StakeBatch>, now: BlockTimeHeight) -> (ContractModel, StakeBatch) {
        match batch {
            Some(b) => (self, b),
            None => (
                ContractModel { batch_id_sequence: self.next_batch_id(), ..self },
                StakeBatch { batch_id: self.next_batch_id(), balance: TimestampedNearBalance::spec_new(YoctoNear(0), now) },
            ),
        }
    }

    pub open spec fn current_or_new_redeem_batch(self, batch: Option<RedeemStakeBatch>, now: BlockTimeHeight) -> (ContractModel, RedeemStakeBatch) {
        match batch {
            Some(b) => (self, b),
            None => (
                ContractModel { batch_id_sequence: self.next_batch_id(), ..self },
                RedeemStakeBatch { batch_id: self.next_batch_id(), balance: TimestampedStakeBalance::spec_new(YoctoStake(0), now) },
            ),
        }
    }

    /// the account-level batch matching the contract-level batch: the account's own batch, or an
    /// empty one with the contract batch's ID
    pub open spec fn account_stake_batch(slot: Option<StakeBatch>, contract_batch: StakeBatch, now: BlockTimeHeight) -> StakeBatch {
        match slot {
            Some(b) => b,
            None => StakeBatch { batch_id: contract_batch.batch_id, balance: TimestampedNearBalance::spec_new(YoctoNear(0), now) },
        }
    }

    pub open spec fn account_redeem_batch(slot: Option<RedeemStakeBatch>, contract_batch: RedeemStakeBatch, now: BlockTimeHeight) -> RedeemStakeBatch {
        match slot {
            Some(b) => b,
            None => RedeemStakeBatch { batch_id: contract_batch.batch_id, balance: TimestampedStakeBalance::spec_new(YoctoStake(0), now) },
        }
    }

    /// after claiming receipts, the NEAR goes into the current stake batch, or into the next
    /// one while a stake batch is running, at both contract and account level
    pub open spec fn spec_deposit_for_account(self, account: Account, amount: u128, now: BlockTimeHeight) -> (ContractModel, Account, BatchId) {
        let (m1, a1, _) = self.spec_claim_receipt_funds(account, now);
        if !m1.run_stake_batch_locked {
            let (m2, cb) = m1.current_or_new_stake_batch(m1.stake_batch, now);
            let cb = StakeBatch { balance: cb.balance.spec_credit(amount, now), ..cb };
            let ab = Self::account_stake_batch(a1.stake_batch, cb, now);
            let ab = StakeBatch { balance: ab.balance.spec_credit(amount, now), ..ab };
            (ContractModel { stake_batch: Some(cb), ..m2 }, Account { stake_batch: Some(ab), ..a1 }, ab.batch_id)
        } else {
            let (m2, cb) = m1.current_or_new_stake_batch(m1.next_stake_batch, now);
            let cb = StakeBatch { balance: cb.balance.spec_credit(amount, now), ..cb };
            let ab = Self::account_stake_batch(a1.next_stake_batch, cb, now);
            let ab = StakeBatch { balance: ab.balance.spec_credit(amount, now), ..ab };
            (ContractModel { next_stake_batch: Some(cb), ..m2 }, Account { next_stake_batch: Some(ab), ..a1 }, ab.batch_id)
        }
    }

    pub open spec fn deposit_for_account_ok(self, account: Account, amount: u128, now: BlockTimeHeight) -> bool {
        let (m1, a1, _) = self.spec_claim_receipt_funds(account, now);
        let contract_slot = if !m1.run_stake_batch_locked { m1.stake_batch } else { m1.next_stake_batch };
        let account_slot = if !m1.run_stake_batch_locked { a1.stake_batch } else { a1.next_stake_batch };
        let (m2, cb) = m1.current_or_new_stake_batch(contract_slot, now);
        let ab = Self::account_stake_batch(account_slot, cb, now);
        &&& amount > 0
        &&& self.claim_receipt_funds_ok(account, now)
        &&& contract_slot is None ==> m1.batch_id_sequence.0 < u128::MAX
        &&& cb.balance.balance.0 + amount <= u128::MAX
        &&& ab.balance.balance.0 + amount <= u128::MAX
    }

    /// after claiming receipts, the STAKE is debited from the account and goes into the current
    /// redeem stake batch, or into the next one while a redeem stake batch is running
    pub open spec fn spec_redeem_for_account(self, account: Account, amount: u128, now: BlockTimeHeight) -> (ContractModel, Account, BatchId) {
        let (m1, a1, _) = self.spec_claim_receipt_funds(account, now);
        let a1 = a1.spec_stake_debit(amount, now);
        if m1.run_redeem_stake_batch_lock is None {
            let (m2, cb) = m1.current_or_new_redeem_batch(m1.redeem_stake_batch, now);
            let cb = RedeemStakeBatch { balance: cb.balance.spec_credit(amount, now), ..cb };
            let ab = Self::account_redeem_batch(a1.redeem_stake_batch, cb, now);
            let ab = RedeemStakeBatch { balance: ab.balance.spec_credit(amount, now), ..ab };
            (ContractModel { redeem_stake_batch: Some(cb), ..m2 }, Account { redeem_stake_batch: Some(ab), ..a1 }, ab.batch_id)
        } else {
            let (m2, cb) = m1.current_or_new_redeem_batch(m1.next_redeem_stake_batch, now);
            let cb = RedeemStakeBatch { balance: cb.balance.spec_credit(amount, now), ..cb };
            let ab = Self::account_redeem_batch(a1.next_redeem_stake_batch, cb, now);
            let ab = RedeemStakeBatch { balance: ab.balance.spec_credit(amount, now), ..ab };
            (ContractModel { next_redeem_stake_batch: Some(cb), ..m2 }, Account { next_redeem_stake_batch: Some(ab), ..a1 }, ab.batch_id)
        }
    }

    pub open spec fn redeem_for_account_ok(self, account: Account, amount: u128, now: BlockTimeHeight) -> bool {
        let (m1, a1, _) = self.spec_claim_receipt_funds(account, now);
        let a2 = a1.spec_stake_debit(amount, now);
        let contract_slot = if m1.run_redeem_stake_batch_lock is None { m1.redeem_stake_batch } else { m1.next_redeem_stake_batch };
        let account_slot = if m1.run_redeem_stake_batch_lock is None { a2.redeem_stake_batch } else { a2.next_redeem_stake_batch };
        let (m2, cb) = m1.current_or_new_redeem_batch(contract_slot, now);
        let ab = Self::account_redeem_batch(account_slot, cb, now);
        &&& amount > 0
        &&& self.claim_receipt_funds_ok(account, now)
        &&& a1.stake is Some
        &&& amount <= a1.stake_amount()
        &&& contract_slot is None ==> m1.batch_id_sequence.0 < u128::MAX
        &&& cb.balance.balance.0 + amount <= u128::MAX
        &&& ab.balance.balance.0 + amount <= u128::MAX
    }


    /// the account's funds in the next stake batch, if any, else in the current stake batch, are
    /// debited by `amount` at both contract and account level; an emptied batch is dropped
    pub open spec fn spec_withdraw_from_stake_batch(self, key: Seq<u8>, amount: u128, now: BlockTimeHeight) -> ContractModel {
        let (m1, a1, _) = self.spec_claim_receipt_funds(self.accounts[key], now);
        match a1.next_stake_batch {
            Some(batch) => {
                let cb = m1.next_stake_batch.unwrap();
                let cb = StakeBatch { balance: cb.balance.spec_debit(amount, now), ..cb };
                let ab = StakeBatch { balance: batch.balance.spec_debit(amount, now), ..batch };
                let m2 = ContractModel { next_stake_batch: if cb.balance.balance.0 == 0 { None } else { Some(cb) }, ..m1 };
                m2.with_account(key, Account { next_stake_batch: if ab.balance.balance.0 == 0 { None } else { Some(ab) }, ..a1 })
            },
            None => {
                let batch = a1.stake_batch.unwrap();
                let cb = m1.stake_batch.unwrap();
                let cb = StakeBatch { balance: cb.balance.spec_debit(amount, now), ..cb };
                let ab = StakeBatch { balance: batch.balance.spec_debit(amount, now), ..batch };
                let m2 = ContractModel { stake_batch: if cb.balance.balance.0 == 0 { None } else { Some(cb) }, ..m1 };
                m2.with_account(key, Account { stake_batch: if ab.balance.balance.0 == 0 { None } else { Some(ab) }, ..a1 })
            },
        }
    }

    /// withdrawing from the next stake batch is always allowed; withdrawing from the current
    /// stake batch requires that no batch is running
    pub open spec fn withdraw_from_stake_batch_ok(self, key: Seq<u8>, amount: u128, now: BlockTimeHeight) -> bool {
        let (m1, a1, _) = self.spec_claim_receipt_funds(self.accounts[key], now);
        &&& self.registered(key)
        &&& self.claim_receipt_funds_ok(self.accounts[key], now)
        &&& match a1.next_stake_batch {
            Some(batch) => {
                &&& m1.next_stake_batch is Some
                &&& amount <= m1.next_stake_batch.unwrap().balance.balance.0
                &&& amount <= batch.balance.balance.0
            },
            None => match a1.stake_batch {
                Some(batch) => {
                    &&& m1.spec_can_run_batch()
                    &&& m1.stake_batch is Some
                    &&& amount <= m1.stake_batch.unwrap().balance.balance.0
                    &&& amount <= batch.balance.balance.0
                },
                None => false,
            },
        }
    }

    /// the batch that withdrawing all funds from a stake batch takes: the next stake batch if the
    /// account has one, else the current one
    pub open spec fn withdraw_all_batch(self, key: Seq<u8>, now: BlockTimeHeight) -> StakeBatch {
        let (m1, a1, _) = self.spec_claim_receipt_funds(self.accounts[key], now);
        match a1.next_stake_batch {
            Some(batch) => batch,
            None => a1.stake_batch.unwrap(),
        }
    }

    pub open spec fn spec_withdraw_all_from_stake_batch(self, key: Seq<u8>, now: BlockTimeHeight) -> ContractModel {
        let (m1, a1, _) = self.spec_claim_receipt_funds(self.accounts[key], now);
        let amount = self.withdraw_all_batch(key, now).balance.balance.0;
        match a1.next_stake_batch {
            Some(batch) => {
                let cb = m1.next_stake_batch.unwrap();
                let cb = StakeBatch { balance: cb.balance.spec_debit(amount, now), ..cb };
                let m2 = ContractModel { next_stake_batch: if cb.balance.balance.0 == 0 { None } else { Some(cb) }, ..m1 };
                m2.with_account(key, Account { next_stake_batch: None, ..a1 })
            },
            None => {
                let cb = m1.stake_batch.unwrap();
                let cb = StakeBatch { balance: cb.balance.spec_debit(amount, now), ..cb };
                let m2 = ContractModel { stake_batch: if cb.balance.balance.0 == 0 { None } else { Some(cb) }, ..m1 };
                m2.with_account(key, Account { stake_batch: None, ..a1 })
            },
        }
    }

    pub open spec fn withdraw_all_from_stake_batch_ok(self, key: Seq<u8>, now: BlockTimeHeight) -> bool {
        let (m1, a1, _) = self.spec_claim_receipt_funds(self.accounts[key], now);
        let amount = self.withdraw_all_batch(key, now).balance.balance.0;
        &&& self.registered(key)
        &&& self.claim_receipt_funds_ok(self.accounts[key], now)
        &&& match a1.next_stake_batch {
            Some(batch) => {
                &&& m1.next_stake_batch is Some
                &&& amount <= m1.next_stake_batch.unwrap().balance.balance.0
            },
            None => match a1.stake_batch {
                Some(batch) => {
                    &&& m1.spec_can_run_batch()
                    &&& m1.stake_batch is Some
                    &&& amount <= m1.stake_batch.unwrap().balance.balance.0
                },
                None => false,
            },
        }
    }

    /// the account's current redeem stake batch, or its next one while a redeem stake batch is
    /// running, is cancelled: its STAKE is credited back to the account
    pub open spec fn spec_cancel_uncommitted_redeem_stake_batch(self, key: Seq<u8>, now: BlockTimeHeight) -> (ContractModel, bool) {
        let (m1, a1, _) = self.spec_claim_receipt_funds(self.accounts[key], now);
        if m1.run_redeem_stake_batch_lock is None {
            match a1.redeem_stake_batch {
                Some(batch) => {
                    let amount = batch.balance.balance.0;
                    let cb = m1.redeem_stake_batch.unwrap();
                    let cb = RedeemStakeBatch { balance: cb.balance.spec_debit(amount, now), ..cb };
                    let m2 = ContractModel { redeem_stake_batch: if cb.balance.balance.0 == 0 { None } else { Some(cb) }, ..m1 };
                    let a2 = a1.spec_stake_credit(amount, now);
                    (m2.with_account(key, Account { redeem_stake_batch: None, ..a2 }), true)
                },
                None => (m1.with_account(key, a1), false),
            }
        } else {
            match a1.next_redeem_stake_batch {
                Some(batch) => {
                    let amount = batch.balance.balance.0;
                    let cb = m1.next_redeem_stake_batch.unwrap();
                    let cb = RedeemStakeBatch { balance: cb.balance.spec_debit(amount, now), ..cb };
                    let m2 = ContractModel { next_redeem_stake_batch: if cb.balance.balance.0 == 0 { None } else { Some(cb) }, ..m1 };
                    let a2 = a1.spec_stake_credit(amount, now);
                    (m2.with_account(key, Account { next_redeem_stake_batch: None, ..a2 }), true)
                },
                None => (m1.with_account(key, a1), false),
            }
        }
    }

    pub open spec fn cancel_uncommitted_redeem_stake_batch_ok(self, key: Seq<u8>, now: BlockTimeHeight) -> bool {
        let (m1, a1, _) = self.spec_claim_receipt_funds(self.accounts[key], now);
        let (slot, contract_slot) = if m1.run_redeem_stake_batch_lock is None {
            (a1.redeem_stake_batch, m1.redeem_stake_batch)
        } else {
            (a1.next_redeem_stake_batch, m1.next_redeem_stake_batch)
        };
        &&& self.registered(key)
        &&& self.claim_receipt_funds_ok(self.accounts[key], now)
        &&& slot matches Some(batch) ==> {
            &&& contract_slot is Some
            &&& batch.balance.balance.0 <= contract_slot.unwrap().balance.balance.0
            &&& a1.stake_amount() + batch.balance.balance.0 <= u128::MAX
        }
    }

    /// the epoch at which the unstaked NEAR pending withdrawal becomes available fits in a u64
    pub open spec fn withdrawal_epoch_ok(self) -> bool {
        self.run_redeem_stake_batch_lock == Some(RedeemLock::PendingWithdrawal)
            ==> self.spec_pending_withdrawal().unwrap().spec_withdrawal_availability() <= u64::MAX
    }

    /// STAKE can be unstaked when a batch can run and either there is a redeem stake batch to
    /// run or the NEAR pending withdrawal is available to be withdrawn at `epoch`
    pub open spec fn spec_can_unstake(self, epoch: EpochHeight) -> bool {
        self.spec_can_run_batch() && match self.run_redeem_stake_batch_lock {
            None => self.redeem_stake_batch is Some,
            Some(RedeemLock::PendingWithdrawal) => self.spec_pending_withdrawal().unwrap().spec_withdrawal_availability()
                <= epoch.0,
            Some(RedeemLock::Unstaking) => false,
        }
    }

    /// unstaking locks the contract for unstaking when a redeem stake batch is to be run
    pub open spec fn spec_unstake(self) -> ContractModel {
        if self.run_redeem_stake_batch_lock is None {
            ContractModel { run_redeem_stake_batch_lock: Some(RedeemLock::Unstaking), ..self }
        } else {
            self
        }
    }

    /// the account registered under the key
    pub open spec fn registered(self, key: Seq<u8>) -> bool {
        self.accounts.contains_key(key)
    }
}

impl StakeTokenContract {
    pub(crate) fn new_stake_batch(&mut self, now: BlockTimeHeight) -> (r: StakeBatch)
        requires
            old(self).batch_id_sequence.0 < u128::MAX,
        ensures
            (final(self)@, r) == old(self)@.current_or_new_stake_batch(None, now),
            final(self).accounts == old(self).accounts,
    {
        self.batch_id_sequence = BatchId(self.batch_id_sequence.0 + 1);
        StakeBatch::new(self.batch_id_sequence, YoctoNear(0), now)
    }

    fn new_redeem_stake_batch(&mut self, now: BlockTimeHeight) -> (r: RedeemStakeBatch)
        requires
            old(self).batch_id_sequence.0 < u128::MAX,
        ensures
            (final(self)@, r) == old(self)@.current_or_new_redeem_batch(None, now),
            final(self).accounts == old(self).accounts,
    {
        self.batch_id_sequence = BatchId(self.batch_id_sequence.0 + 1);
        RedeemStakeBatch::new(self.batch_id_sequence, YoctoStake(0), now)
    }

    /// batches the NEAR to stake at the contract level and account level; receipts are claimed
    /// first
    pub fn deposit_near_for_account_to_stake(&mut self, account: &mut Account, amount: YoctoNear, now: BlockTimeHeight) -> (r: BatchId)
        requires
            old(self).wf(),
            old(self)@.deposit_for_account_ok(*old(account), amount.0, now),
        ensures
            final(self).wf(),
            (final(self)@, *final(account), r) == old(self)@.spec_deposit_for_account(*old(account), amount.0, now),
            final(self).accounts == old(self).accounts,
    {
        self.claim_receipt_funds(account, now);
        // use the current batch if the stake batch is not running
        if !self.run_stake_batch_locked {
            // apply at contract level
            let mut contract_batch = match self.stake_batch {
                Some(b) => b,
                None => self.new_stake_batch(now),
            };
            contract_batch.add(amount, now);
            self.stake_batch = Some(contract_batch);
            // apply at account level: the account batch ID matches the contract batch ID
            let mut account_batch = match account.stake_batch {
                Some(b) => b,
                None => StakeBatch::new(contract_batch.batch_id, YoctoNear(0), now),
            };
            account_batch.add(amount, now);
            account.stake_batch = Some(account_batch);
            account_batch.batch_id
        } else {
            let mut contract_batch = match self.next_stake_batch {
                Some(b) => b,
                None => self.new_stake_batch(now),
            };
            contract_batch.add(amount, now);
            self.next_stake_batch = Some(contract_batch);
            let mut account_batch = match account.next_stake_batch {
                Some(b) => b,
                None => StakeBatch::new(contract_batch.batch_id, YoctoNear(0), now),
            };
            account_batch.add(amount, now);
            account.next_stake_batch = Some(account_batch);
            account_batch.batch_id
        }
    }

    /// moves STAKE from the account balance into the redeem stake batch; receipts are claimed
    /// first
    pub fn redeem_stake_for_account(&mut self, account: &mut Account, amount: YoctoStake, now: BlockTimeHeight) -> (r: BatchId)
        requires
            old(self).wf(),
            old(self)@.redeem_for_account_ok(*old(account), amount.0, now),
        ensures
            final(self).wf(),
            (final(self)@, *final(account), r) == old(self)@.spec_redeem_for_account(*old(account), amount.0, now),
            final(self).accounts == old(self).accounts,
    {
        self.claim_receipt_funds(account, now);
        // debit the amount of STAKE to redeem from the account
        account.apply_stake_debit(amount, now);
        if self.run_redeem_stake_batch_lock.is_none() {
            let mut contract_batch = match self.redeem_stake_batch {
                Some(b) => b,
                None => self.new_redeem_stake_batch(now),
            };
            contract_batch.add(amount, now);
            self.redeem_stake_batch = Some(contract_batch);
            let mut account_batch = match account.redeem_stake_batch {
                Some(b) => b,
                None => RedeemStakeBatch::new(contract_batch.batch_id, YoctoStake(0), now),
            };
            account_batch.add(amount, now);
            account.redeem_stake_batch = Some(account_batch);
            account_batch.batch_id
        } else {
            let mut contract_batch = match self.next_redeem_stake_batch {
                Some(b) => b,
                None => self.new_redeem_stake_batch(now),
            };
            contract_batch.add(amount, now);
            self.next_redeem_stake_batch = Some(contract_batch);
            let mut account_batch = match account.next_redeem_stake_batch {
                Some(b) => b,
                None => RedeemStakeBatch::new(contract_batch.batch_id, YoctoStake(0), now),
            };
            account_batch.add(amount, now);
            account.next_redeem_stake_batch = Some(account_batch);
            account_batch.batch_id
        }
    }

    /// the registered account under the key
    fn registered_account(&self, key: &crate::hash::Hash) -> (r: Account)
        requires
            self.wf(),
            self@.registered(key.key()),
        ensures
            r == self@.accounts[key.key()],
    {
        self.accounts.get(key).unwrap()
    }

    /// saves the account of a registered account
    fn save_registered_account(&mut self, key: &crate::hash::Hash, account: Account)
        requires
            old(self).wf(),
            old(self)@.registered(key.key()),
        ensures
            final(self).wf(),
            final(self)@ == old(self)@.with_account(key.key(), account),
    {
        self.accounts.insert(key, account);
        assert(self@.accounts.dom() =~= old(self)@.accounts.dom());
    }

    /// deposits NEAR into a stake batch for the registered account; returns the batch ID
    pub fn deposit(&mut self, key: &crate::hash::Hash, amount: YoctoNear, now: BlockTimeHeight) -> (r: BatchId)
        requires
            old(self).wf(),
            old(self)@.registered(key.key()),
            old(self)@.deposit_for_account_ok(old(self)@.accounts[key.key()], amount.0, now),
        ensures
            final(self).wf(),
            ({
                let (m, a, id) = old(self)@.spec_deposit_for_account(old(self)@.accounts[key.key()], amount.0, now);
                final(self)@ == m.with_account(key.key(), a) && r == id
            }),
    {
        let mut account = self.registered_account(key);
        let batch_id = self.deposit_near_for_account_to_stake(&mut account, amount, now);
        self.save_registered_account(key, account);
        batch_id
    }

    /// takes `amount` out of the account's next stake batch, or its current stake batch if it
    /// has no next one; returns the NEAR to transfer back to the account
    pub fn withdraw_funds_from_stake_batch(&mut self, key: &crate::hash::Hash, amount: YoctoNear, now: BlockTimeHeight) -> (r: YoctoNear)
        requires
            old(self).wf(),
            old(self)@.withdraw_from_stake_batch_ok(key.key(), amount.0, now),
        ensures
            final(self).wf(),
            final(self)@ == old(self)@.spec_withdraw_from_stake_batch(key.key(), amount.0, now),
            r == amount,
    {
        let mut account = self.registered_account(key);
        self.claim_receipt_funds(&mut account, now);
        if let Some(mut batch) = account.next_stake_batch {
            // remove funds from contract level batch
            let mut contract_batch = self.next_stake_batch.unwrap();
            if contract_batch.remove(amount, now).0 == 0 {
                self.next_stake_batch = None;
            } else {
                self.next_stake_batch = Some(contract_batch);
            }
            if batch.remove(amount, now).0 == 0 {
                account.next_stake_batch = None;
            } else {
                account.next_stake_batch = Some(batch);
            }
            self.save_registered_account(key, account);
            return amount;
        }
        let mut batch = account.stake_batch.unwrap();
        let mut contract_batch = self.stake_batch.unwrap();
        if contract_batch.remove(amount, now).0 == 0 {
            self.stake_batch = None;
        } else {
            self.stake_batch = Some(contract_batch);
        }
        if batch.remove(amount, now).0 == 0 {
            account.stake_batch = None;
        } else {
            account.stake_batch = Some(batch);
        }
        self.save_registered_account(key, account);
        amount
    }

    /// takes all funds out of the account's next stake batch, or its current stake batch if it
    /// has no next one; returns the NEAR to transfer back to the account
    pub fn withdraw_all_funds_from_stake_batch(&mut self, key: &crate::hash::Hash, now: BlockTimeHeight) -> (r: YoctoNear)
        requires
            old(self).wf(),
            old(self)@.withdraw_all_from_stake_batch_ok(key.key(), now),
        ensures
            final(self).wf(),
            final(self)@ == old(self)@.spec_withdraw_all_from_stake_batch(key.key(), now),
            r == old(self)@.withdraw_all_batch(key.key(), now).balance.balance,
    {
        let mut account = self.registered_account(key);
        self.claim_receipt_funds(&mut account, now);
        if let Some(batch) = account.next_stake_batch {
            let amount = batch.balance.balance;
            let mut contract_batch = self.next_stake_batch.unwrap();
            if contract_batch.remove(amount, now).0 == 0 {
                self.next_stake_batch = None;
            } else {
                self.next_stake_batch = Some(contract_batch);
            }
            account.next_stake_batch = None;
            self.save_registered_account(key, account);
            return amount;
        }
        let batch = account.stake_batch.unwrap();
        let amount = batch.balance.balance;
        let mut contract_batch = self.stake_batch.unwrap();
        if contract_batch.remove(amount, now).0 == 0 {
            self.stake_batch = None;
        } else {
            self.stake_batch = Some(contract_batch);
        }
        account.stake_batch = None;
        self.save_registered_account(key, account);
        amount
    }

    /// moves STAKE from the registered account into a redeem stake batch; returns the batch ID
    pub fn redeem(&mut self, key: &crate::hash::Hash, amount: YoctoStake, now: BlockTimeHeight) -> (r: BatchId)
        requires
            old(self).wf(),
            old(self)@.registered(key.key()),
            old(self)@.redeem_for_account_ok(old(self)@.accounts[key.key()], amount.0, now),
        ensures
            final(self).wf(),
            ({
                let (m, a, id) = old(self)@.spec_redeem_for_account(old(self)@.accounts[key.key()], amount.0, now);
                final(self)@ == m.with_account(key.key(), a) && r == id
            }),
    {
        let mut account = self.registered_account(key);
        let batch_id = self.redeem_stake_for_account(&mut account, amount, now);
        self.save_registered_account(key, account);
        batch_id
    }

    /// the STAKE balance that redeeming all STAKE redeems: the balance after claiming receipts
    pub open spec fn redeem_all_amount(m: ContractModel, key: Seq<u8>, now: BlockTimeHeight) -> u128 {
        let (m1, a1, _) = m.spec_claim_receipt_funds(m.accounts[key], now);
        a1.stake_amount() as u128
    }

    /// moves all of the registered account's STAKE into a redeem stake batch; returns the batch ID
    pub fn redeem_all(&mut self, key: &crate::hash::Hash, now: BlockTimeHeight) -> (r: BatchId)
        requires
            old(self).wf(),
            old(self)@.registered(key.key()),
            old(self)@.claim_receipt_funds_ok(old(self)@.accounts[key.key()], now),
            ({
                let (m1, a1, _) = old(self)@.spec_claim_receipt_funds(old(self)@.accounts[key.key()], now);
                m1.redeem_for_account_ok(a1, Self::redeem_all_amount(old(self)@, key.key(), now), now)
            }),
        ensures
            final(self).wf(),
            ({
                let (m1, a1, _) = old(self)@.spec_claim_receipt_funds(old(self)@.accounts[key.key()], now);
                let (m, a, id) = m1.spec_redeem_for_account(a1, Self::redeem_all_amount(old(self)@, key.key(), now), now);
                final(self)@ == m.with_account(key.key(), a) && r == id
            }),
    {
        let mut account = self.registered_account(key);
        self.claim_receipt_funds(&mut account, now);
        let amount = account.stake.unwrap().balance;
        let batch_id = self.redeem_stake_for_account(&mut account, amount, now);
        self.save_registered_account(key, account);
        batch_id
    }

    /// cancels the account's redeem stake batch that has not been committed to a batch run:
    /// returns true if there was one and its STAKE was credited back
    pub fn cancel_uncommitted_redeem_stake_batch(&mut self, key: &crate::hash::Hash, now: BlockTimeHeight) -> (r: bool)
        requires
            old(self).wf(),
            old(self)@.cancel_uncommitted_redeem_stake_batch_ok(key.key(), now),
        ensures
            final(self).wf(),
            (final(self)@, r) == old(self)@.spec_cancel_uncommitted_redeem_stake_batch(key.key(), now),
    {
        let mut account = self.registered_account(key);
        self.claim_receipt_funds(&mut account, now);
        let ghost m1 = self@;
        if self.run_redeem_stake_batch_lock.is_none() {
            if let Some(batch) = account.redeem_stake_batch {
                let amount = batch.balance.balance;
                let mut contract_batch = self.redeem_stake_batch.unwrap();
                if contract_batch.remove(amount, now).0 == 0 {
                    self.redeem_stake_batch = None;
                } else {
                    self.redeem_stake_batch = Some(contract_batch);
                }
                account.apply_stake_credit(amount, now);
                account.redeem_stake_batch = None;
                proof {
                    lemma_receipts_unchanged(m1, self@);
                }
                self.save_registered_account(key, account);
                return true;
            }
            self.save_registered_account(key, account);
            false
        } else {
            if let Some(batch) = account.next_redeem_stake_batch {
                let amount = batch.balance.balance;
                let mut contract_batch = self.next_redeem_stake_batch.unwrap();
                if contract_batch.remove(amount, now).0 == 0 {
                    self.next_redeem_stake_batch = None;
                } else {
                    self.next_redeem_stake_batch = Some(contract_batch);
                }
                account.apply_stake_credit(amount, now);
                account.next_redeem_stake_batch = None;
                proof {
                    lemma_receipts_unchanged(m1, self@);
                }
                self.save_registered_account(key, account);
                return true;
            }
            self.save_registered_account(key, account);
            false
        }
    }


    /// locks the contract to run the stake batch: the caller then gets the account from the
    /// staking pool, runs the stake batch and releases the lock
    pub fn stake(&mut self)
        requires
            old(self).wf(),
            old(self)@.spec_can_run_batch(),
            old(self)@.stake_batch is Some,
        ensures
            final(self).wf(),
            final(self)@ == (ContractModel { run_stake_batch_locked: true, ..old(self)@ }),
    {
        self.run_stake_batch_locked = true;
    }

    /// deposits NEAR into a stake batch and runs the stake batch if it can run
    pub fn deposit_and_stake(&mut self, key: &crate::hash::Hash, amount: YoctoNear, now: BlockTimeHeight) -> (r: BatchOutcome)
        requires
            old(self).wf(),
            old(self)@.registered(key.key()),
            old(self)@.deposit_for_account_ok(old(self)@.accounts[key.key()], amount.0, now),
        ensures
            final(self).wf(),
            ({
                let (m, a, id) = old(self)@.spec_deposit_for_account(old(self)@.accounts[key.key()], amount.0, now);
                let m = m.with_account(key.key(), a);
                if m.spec_can_run_batch() {
                    final(self)@ == (ContractModel { run_stake_batch_locked: true, ..m }) && r == BatchOutcome::Running
                } else {
                    final(self)@ == m && r == BatchOutcome::Batched(id)
                }
            }),
    {
        let batch_id = self.deposit(key, amount, now);
        if self.can_run_batch() {
            self.stake();
            BatchOutcome::Running
        } else {
            BatchOutcome::Batched(batch_id)
        }
    }

    /// true if STAKE can be unstaked at `epoch`
    pub fn can_unstake(&self, epoch: EpochHeight) -> (r: bool)
        requires
            self.wf(),
            self@.withdrawal_epoch_ok(),
        ensures
            r == self@.spec_can_unstake(epoch),
    {
        if self.can_run_batch() {
            match self.run_redeem_stake_batch_lock {
                None => self.redeem_stake_batch.is_some(),
                Some(RedeemLock::PendingWithdrawal) => {
                    let receipt = self.pending_withdrawal().unwrap();
                    receipt.unstaked_funds_available_for_withdrawal(epoch)
                },
                Some(RedeemLock::Unstaking) => false,
            }
        } else {
            false
        }
    }

    /// kicks off unstaking: either the redeem stake batch is run, or the NEAR pending withdrawal
    /// is withdrawn once it is available
    pub fn unstake(&mut self, epoch: EpochHeight) -> (r: UnstakeAction)
        requires
            old(self).wf(),
            old(self)@.withdrawal_epoch_ok(),
            old(self)@.spec_can_unstake(epoch),
        ensures
            final(self).wf(),
            final(self)@ == old(self)@.spec_unstake(),
            r == (if old(self)@.run_redeem_stake_batch_lock is None {
                UnstakeAction::RunRedeemStakeBatch
            } else {
                UnstakeAction::WithdrawPending
            }),
    {
        match self.run_redeem_stake_batch_lock {
            None => {
                self.run_redeem_stake_batch_lock = Some(RedeemLock::Unstaking);
                UnstakeAction::RunRedeemStakeBatch
            },
            _ => UnstakeAction::WithdrawPending,
        }
    }

    /// redeems STAKE and unstakes if unstaking can start at `epoch`
    pub fn redeem_and_unstake(&mut self, key: &crate::hash::Hash, amount: YoctoStake, now: BlockTimeHeight, epoch: EpochHeight) -> (r: BatchOutcome)
        requires
            old(self).wf(),
            old(self)@.registered(key.key()),
            old(self)@.redeem_for_account_ok(old(self)@.accounts[key.key()], amount.0, now),
            ({
                let (m, a, id) = old(self)@.spec_redeem_for_account(old(self)@.accounts[key.key()], amount.0, now);
                m.with_account(key.key(), a).withdrawal_epoch_ok()
            }),
        ensures
            final(self).wf(),
            ({
                let (m, a, id) = old(self)@.spec_redeem_for_account(old(self)@.accounts[key.key()], amount.0, now);
                let m = m.with_account(key.key(), a);
                if m.spec_can_unstake(epoch) {
                    final(self)@ == m.spec_unstake() && r == BatchOutcome::Running
                } else {
                    final(self)@ == m && r == BatchOutcome::Batched(id)
                }
            }),
    {
        let batch_id = self.redeem(key, amount, now);
        if self.can_unstake(epoch) {
            self.unstake(epoch);
            BatchOutcome::Running
        } else {
            BatchOutcome::Batched(batch_id)
        }
    }

    /// redeems all STAKE and unstakes if unstaking can start at `epoch`
    pub fn redeem_all_and_unstake(&mut self, key: &crate::hash::Hash, now: BlockTimeHeight, epoch: EpochHeight) -> (r: BatchOutcome)
        requires
            old(self).wf(),
            old(self)@.registered(key.key()),
            old(self)@.claim_receipt_funds_ok(old(self)@.accounts[key.key()], now),
            ({
                let (m1, a1, _) = old(self)@.spec_claim_receipt_funds(old(self)@.accounts[key.key()], now);
                let (m, a, id) = m1.spec_redeem_for_account(a1, Self::redeem_all_amount(old(self)@, key.key(), now), now);
                &&& m1.redeem_for_account_ok(a1, Self::redeem_all_amount(old(self)@, key.key(), now), now)
                &&& m.with_account(key.key(), a).withdrawal_epoch_ok()
            }),
        ensures
            final(self).wf(),
            ({
                let (m1, a1, _) = old(self)@.spec_claim_receipt_funds(old(self)@.accounts[key.key()], now);
                let (m, a, id) = m1.spec_redeem_for_account(a1, Self::redeem_all_amount(old(self)@, key.key(), now), now);
                let m = m.with_account(key.key(), a);
                if m.spec_can_unstake(epoch) {
                    final(self)@ == m.spec_unstake() && r == BatchOutcome::Running
                } else {
                    final(self)@ == m && r == BatchOutcome::Batched(id)
                }
            }),
    {
        let batch_id = self.redeem_all(key, now);
        if self.can_unstake(epoch) {
            self.unstake(epoch);
            BatchOutcome::Running
        } else {
            BatchOutcome::Batched(batch_id)
        }
    }
}

/// NEAR deposited into a stake batch can be taken back out before the batch runs: when the
/// account has no receipt funds to claim, withdrawing all funds from the stake batch right after
/// a deposit hands back the account's earlier batch balance plus the deposit, clears the
/// account's batch, and takes the same amount out of the contract's batch. (While no stake batch
/// is running, the account is taken to have no next stake batch, which would be withdrawn first.)
pub proof fn lemma_deposit_then_withdraw_all(m: ContractModel, key: Seq<u8>, amount: u128, now: BlockTimeHeight)
    requires
        m.wf(),
        m.registered(key),
        m.deposit_for_account_ok(m.accounts[key], amount, now),
        m.spec_claim_receipt_funds(m.accounts[key], now) == (m, m.accounts[key], false),
        !m.run_stake_batch_locked ==> m.accounts[key].next_stake_batch is None,
        m.run_stake_batch_locked ==> stake_batch_amount(m.accounts[key].next_stake_batch) <= stake_batch_amount(
            m.next_stake_batch,
        ),
        !m.run_stake_batch_locked ==> stake_batch_amount(m.accounts[key].stake_batch) <= stake_batch_amount(m.stake_batch),
        ({
            let (m1, a1, id) = m.spec_deposit_for_account(m.accounts[key], amount, now);
            let s = m1.with_account(key, a1);
            s.spec_claim_receipt_funds(s.accounts[key], now) == (s, s.accounts[key], false)
        }),
    ensures
        ({
            let a = m.accounts[key];
            let (m1, a1, id) = m.spec_deposit_for_account(a, amount, now);
            let s = m1.with_account(key, a1);
            let locked = m.run_stake_batch_locked;
            let before = if locked { stake_batch_amount(a.next_stake_batch) } else { stake_batch_amount(a.stake_batch) };
            let contract_before = if locked { stake_batch_amount(m.next_stake_batch) } else { stake_batch_amount(m.stake_batch) };
            let w = s.spec_withdraw_all_from_stake_batch(key, now);
            let contract_after = if locked { stake_batch_amount(w.next_stake_batch) } else { stake_batch_amount(w.stake_batch) };
            let account_after = if locked { w.accounts[key].next_stake_batch } else { w.accounts[key].stake_batch };
            &&& s.withdraw_all_batch(key, now).balance.balance.0 == before + amount
            &&& account_after is None
            &&& contract_after == contract_before - before
        }),
{
    let a = m.accounts[key];
    let (m1, a1, id) = m.spec_deposit_for_account(a, amount, now);
    let s = m1.with_account(key, a1);
    assert(s.accounts[key] == a1);
    let (m3, a3, c3) = s.spec_claim_receipt_funds(s.accounts[key], now);
    assert(m3 == s && a3 == a1);
    if m.run_stake_batch_locked {
        let (m2, cb) = m.current_or_new_stake_batch(m.next_stake_batch, now);
        assert(cb.balance.balance.0 == stake_batch_amount(m.next_stake_batch));
        assert(a1.next_stake_batch.unwrap().balance.balance.0 == stake_batch_amount(a.next_stake_batch) + amount);
        assert(s.next_stake_batch.unwrap().balance.balance.0 == stake_batch_amount(m.next_stake_batch) + amount);
    } else {
        let (m2, cb) = m.current_or_new_stake_batch(m.stake_batch, now);
        assert(cb.balance.balance.0 == stake_batch_amount(m.stake_batch));
        assert(a1.next_stake_batch is None);
        assert(a1.stake_batch.unwrap().balance.balance.0 == stake_batch_amount(a.stake_batch) + amount);
        assert(s.stake_batch.unwrap().balance.balance.0 == stake_batch_amount(m.stake_batch) + amount);
    }
}

/// STAKE moved into a redeem stake batch can be taken back before the batch runs: when the
/// account has no receipt funds to claim, cancelling the uncommitted redeem stake batch right
/// after redeeming gives the account back its earlier STAKE balance plus whatever its batch held,
/// and clears the batch. (While no redeem stake batch runs, the batch is the current one.)
pub proof fn lemma_redeem_then_cancel(m: ContractModel, key: Seq<u8>, amount: u128, now: BlockTimeHeight)
    requires
        m.wf(),
        m.registered(key),
        m.redeem_for_account_ok(m.accounts[key], amount, now),
        m.spec_claim_receipt_funds(m.accounts[key], now) == (m, m.accounts[key], false),
        m.accounts[key].stake_amount() + (if m.run_redeem_stake_batch_lock is None {
            redeem_batch_amount(m.accounts[key].redeem_stake_batch)
        } else {
            redeem_batch_amount(m.accounts[key].next_redeem_stake_batch)
        }) <= u128::MAX,
        ({
            let (m1, a1, id) = m.spec_redeem_for_account(m.accounts[key], amount, now);
            let s = m1.with_account(key, a1);
            s.spec_claim_receipt_funds(s.accounts[key], now) == (s, s.accounts[key], false)
        }),
    ensures
        ({
            let a = m.accounts[key];
            let (m1, a1, id) = m.spec_redeem_for_account(a, amount, now);
            let s = m1.with_account(key, a1);
            let unlocked = m.run_redeem_stake_batch_lock is None;
            let before = if unlocked { redeem_batch_amount(a.redeem_stake_batch) } else { redeem_batch_amount(a.next_redeem_stake_batch) };
            let (c, cancelled) = s.spec_cancel_uncommitted_redeem_stake_batch(key, now);
            let slot_after = if unlocked { c.accounts[key].redeem_stake_batch } else { c.accounts[key].next_redeem_stake_batch };
            &&& cancelled
            &&& c.accounts[key].stake_amount() == a.stake_amount() + before
            &&& slot_after is None
        }),
{
    let a = m.accounts[key];
    let (m1, a1, id) = m.spec_redeem_for_account(a, amount, now);
    let s = m1.with_account(key, a1);
    assert(s.accounts[key] == a1);
    let (m3, a3, c3) = s.spec_claim_receipt_funds(s.accounts[key], now);
    assert(m3 == s && a3 == a1);
    let debited = a.spec_stake_debit(amount, now);
    assert(debited.stake_amount() == a.stake_amount() - amount);
    if m.run_redeem_stake_batch_lock is None {
        assert(a1.redeem_stake_batch.unwrap().balance.balance.0 == redeem_batch_amount(a.redeem_stake_batch) + amount);
        assert(a1.stake_amount() == a.stake_amount() - amount);
    } else {
        assert(a1.next_redeem_stake_batch.unwrap().balance.balance.0 == redeem_batch_amount(a.next_redeem_stake_batch)
            + amount);
        assert(a1.stake_amount() == a.stake_amount() - amount);
    }
}

/// Withdrawing NEAR from a stake batch takes the same amount out of the contract-level batch as
/// out of the account's batch, and hands nothing else back: from the next stake batches if the
/// account has a next stake batch, else from the current ones; the other batches are left as
/// they were after the account's receipts were claimed.
pub proof fn lemma_withdraw_debits_contract_and_account_batches(m: ContractModel, key: Seq<u8>, amount: u128, now: BlockTimeHeight)
    requires
        m.wf(),
        m.withdraw_from_stake_batch_ok(key, amount, now),
    ensures
        ({
            let (m1, a1, _) = m.spec_claim_receipt_funds(m.accounts[key], now);
            let after = m.spec_withdraw_from_stake_batch(key, amount, now);
            let a = after.accounts[key];
            &&& after.accounts.contains_key(key)
            &&& if a1.next_stake_batch is Some {
                &&& stake_batch_amount(after.next_stake_batch) == stake_batch_amount(m1.next_stake_batch) - amount
                &&& stake_batch_amount(a.next_stake_batch) == stake_batch_amount(a1.next_stake_batch) - amount
                &&& after.stake_batch == m1.stake_batch
                &&& a.stake_batch == a1.stake_batch
            } else {
                &&& stake_batch_amount(after.stake_batch) == stake_batch_amount(m1.stake_batch) - amount
                &&& stake_batch_amount(a.stake_batch) == stake_batch_amount(a1.stake_batch) - amount
                &&& after.next_stake_batch == m1.next_stake_batch
                &&& a.next_stake_batch == a1.next_stake_batch
            }
        }),
{
}

/// Withdrawing all funds from a stake batch takes the account's whole batch out of the
/// contract-level batch and clears the account's batch: the next stake batch if the account has
/// one, else the current one.
pub proof fn lemma_withdraw_all_debits_contract_and_account_batches(m: ContractModel, key: Seq<u8>, now: BlockTimeHeight)
    requires
        m.wf(),
        m.withdraw_all_from_stake_batch_ok(key, now),
    ensures
        ({
            let (m1, a1, _) = m.spec_claim_receipt_funds(m.accounts[key], now);
            let after = m.spec_withdraw_all_from_stake_batch(key, now);
            let a = after.accounts[key];
            &&& after.accounts.contains_key(key)
            &&& if a1.next_stake_batch is Some {
                &&& stake_batch_amount(after.next_stake_batch) == stake_batch_amount(m1.next_stake_batch)
                    - stake_batch_amount(a1.next_stake_batch)
                &&& a.next_stake_batch is None
                &&& after.stake_batch == m1.stake_batch
                &&& a.stake_batch == a1.stake_batch
            } else {
                &&& stake_batch_amount(after.stake_batch) == stake_batch_amount(m1.stake_batch)
                    - stake_batch_amount(a1.stake_batch)
                &&& a.stake_batch is None
                &&& after.next_stake_batch == m1.next_stake_batch
                &&& a.next_stake_batch == a1.next_stake_batch
            }
        }),
{
}

} // verus!
