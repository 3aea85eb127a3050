//! Looking up an account: the account as it would be once the funds on its batch receipts were
//! claimed, together with its redeem batches' receipts and the NEAR liquidity it could draw on.

use crate::account::Account;
use crate::amounts::{BlockTimeHeight, YoctoNear, YoctoStake};
use crate::balance::{TimestampedNearBalance, TimestampedStakeBalance};
use crate::batch::{RedeemLock, RedeemStakeBatch, RedeemStakeBatchReceipt, StakeBatch};
use crate::stake_token_value::{lemma_near_to_stake_bounded, lemma_stake_to_near_at_least};
use crate::state::{ContractModel, StakeTokenContract};
use vstd::prelude::*;

verus! {

broadcast use vstd::std_specs::hash::group_hash_axioms;

/// a redeem stake batch together with its receipt, once the batch has run
#[derive(Debug, Clone, Copy)]
pub struct RedeemStakeBatchView {
    pub batch: RedeemStakeBatch,
    pub receipt: Option<RedeemStakeBatchReceipt>,
}

/// an account as it is looked up
#[derive(Debug, Clone, Copy)]
pub struct StakeAccount {
    pub storage_escrow: TimestampedNearBalance,
    pub near: Option<TimestampedNearBalance>,
    pub stake: Option<TimestampedStakeBalance>,
    pub stake_batch: Option<StakeBatch>,
    pub next_stake_batch: Option<StakeBatch>,
    pub redeem_stake_batch: Option<RedeemStakeBatchView>,
    pub next_redeem_stake_batch: Option<RedeemStakeBatchView>,
    /// the NEAR liquidity that is available to the account's unstaked NEAR pending withdrawal
    pub contract_near_liquidity: Option<YoctoNear>,
}

/// the NEAR value of the STAKE redeemed on a batch's receipt, or 0 without a receipt
pub open spec fn receipt_near_value(view: Option<RedeemStakeBatchView>) -> int {
    match view {
        Some(view) => match view.receipt {
            Some(receipt) => receipt.stake_token_value.spec_stake_to_near(receipt.redeemed_stake.0 as nat),
            None => 0,
        },
        None => 0,
    }
}

impl ContractModel {
    /// the STAKE an account can claim for a stake batch whose receipt exists
    pub open spec fn stake_receipt_claim(self, batch: Option<StakeBatch>) -> Option<u128> {
        match batch {
            Some(batch) => if self.stake_batch_receipts.contains_key(batch.batch_id.0) {
                Some(
                    self.stake_batch_receipts[batch.batch_id.0].stake_token_value.spec_near_to_stake(
                        batch.balance.balance.0 as nat,
                    ) as u128,
                )
            } else {
                None
            },
            None => None,
        }
    }

    /// the NEAR an account can claim for a redeem stake batch whose receipt exists, unless the
    /// batch's unstaked NEAR is still pending withdrawal
    pub open spec fn redeem_receipt_claim(self, batch: Option<RedeemStakeBatch>) -> Option<int> {
        match batch {
            Some(batch) => if self.run_redeem_stake_batch_lock == Some(RedeemLock::PendingWithdrawal)
                && self.redeem_stake_batch.unwrap().batch_id == batch.batch_id {
                None
            } else if self.redeem_stake_batch_receipts.contains_key(batch.batch_id.0) {
                Some(
                    self.redeem_stake_batch_receipts[batch.batch_id.0].stake_token_value.spec_stake_to_near(
                        batch.balance.balance.0 as nat,
                    ),
                )
            } else {
                None
            },
            None => None,
        }
    }

    pub open spec fn view_claim_stake_batch(self, a: Account, now: BlockTimeHeight) -> Account {
        match self.stake_receipt_claim(a.stake_batch) {
            Some(stake) => Account { stake_batch: None, ..a.spec_stake_credit(stake, now) },
            None => a,
        }
    }

    pub open spec fn view_claim_next_stake_batch(self, a: Account, now: BlockTimeHeight) -> Account {
        match self.stake_receipt_claim(a.next_stake_batch) {
            Some(stake) => Account { next_stake_batch: None, ..a.spec_stake_credit(stake, now) },
            None => a,
        }
    }

    pub open spec fn view_claim_redeem_stake_batch(self, a: Account, now: BlockTimeHeight) -> Account {
        match self.redeem_receipt_claim(a.redeem_stake_batch) {
            Some(near) => Account { redeem_stake_batch: None, ..a.spec_near_credit(near as u128, now) },
            None => a,
        }
    }

    pub open spec fn view_claim_next_redeem_stake_batch(self, a: Account, now: BlockTimeHeight) -> Account {
        match self.redeem_receipt_claim(a.next_redeem_stake_batch) {
            Some(near) => Account { next_redeem_stake_batch: None, ..a.spec_near_credit(near as u128, now) },
            None => a,
        }
    }

    /// the account with the funds on its batch receipts claimed, without changing the contract
    pub open spec fn spec_apply_receipt_funds_for_view(self, a: Account, now: BlockTimeHeight) -> Account {
        let a1 = self.view_claim_stake_batch(a, now);
        let a2 = self.view_claim_next_stake_batch(a1, now);
        let a3 = self.view_claim_redeem_stake_batch(a2, now);
        self.view_claim_next_redeem_stake_batch(a3, now)
    }

    /// the claimed funds fit in the account's balances
    pub open spec fn apply_receipt_funds_for_view_ok(self, a: Account, now: BlockTimeHeight) -> bool {
        let a1 = self.view_claim_stake_batch(a, now);
        let a2 = self.view_claim_next_stake_batch(a1, now);
        let a3 = self.view_claim_redeem_stake_batch(a2, now);
        &&& self.stake_receipt_claim(a.stake_batch) is Some
            ==> a.stake_amount() + self.stake_receipt_claim(a.stake_batch).unwrap() <= u128::MAX
        &&& self.stake_receipt_claim(a.next_stake_batch) is Some
            ==> a1.stake_amount() + self.stake_receipt_claim(a.next_stake_batch).unwrap() <= u128::MAX
        &&& self.redeem_receipt_claim(a.redeem_stake_batch) is Some
            ==> a2.near_amount() + self.redeem_receipt_claim(a.redeem_stake_batch).unwrap() <= u128::MAX
        &&& self.redeem_receipt_claim(a.next_redeem_stake_batch) is Some
            ==> a3.near_amount() + self.redeem_receipt_claim(a.next_redeem_stake_batch).unwrap() <= u128::MAX
    }

    /// a redeem stake batch with its receipt
    pub open spec fn redeem_batch_view(self, batch: Option<RedeemStakeBatch>) -> Option<RedeemStakeBatchView> {
        match batch {
            Some(batch) => Some(
                RedeemStakeBatchView {
                    batch,
                    receipt: if self.redeem_stake_batch_receipts.contains_key(batch.batch_id.0) {
                        Some(self.redeem_stake_batch_receipts[batch.batch_id.0])
                    } else {
                        None
                    },
                },
            ),
            None => None,
        }
    }

    /// the NEAR liquidity available to unstaked NEAR worth `unstaked_near`: none while the pool
    /// is empty or there is no unstaked NEAR, otherwise the unstaked NEAR up to the pool
    pub open spec fn spec_contract_near_liquidity(self, unstaked_near: int) -> Option<YoctoNear> {
        if self.near_liquidity_pool.0 == 0 || unstaked_near <= 0 {
            None
        } else if self.near_liquidity_pool.0 >= unstaked_near {
            Some(YoctoNear(unstaked_near as u128))
        } else {
            Some(self.near_liquidity_pool)
        }
    }

    /// the account as it is looked up, from the account with its receipt funds claimed
    pub open spec fn spec_stake_account(self, a: Account) -> StakeAccount {
        let redeem_stake_batch = self.redeem_batch_view(a.redeem_stake_batch);
        let next_redeem_stake_batch = self.redeem_batch_view(a.next_redeem_stake_batch);
        StakeAccount {
            storage_escrow: a.storage_escrow,
            near: a.near,
            stake: a.stake,
            stake_batch: a.stake_batch,
            next_stake_batch: a.next_stake_batch,
            redeem_stake_batch,
            next_redeem_stake_batch,
            contract_near_liquidity: self.spec_contract_near_liquidity(
                receipt_near_value(redeem_stake_batch) + receipt_near_value(next_redeem_stake_batch),
            ),
        }
    }

    pub open spec fn stake_account_ok(self, a: Account) -> bool {
        self.near_liquidity_pool.0 != 0 ==> receipt_near_value(self.redeem_batch_view(a.redeem_stake_batch))
            + receipt_near_value(self.redeem_batch_view(a.next_redeem_stake_batch)) <= u128::MAX
    }

    pub open spec fn spec_lookup_account(self, key: Seq<u8>, now: BlockTimeHeight) -> Option<StakeAccount> {
        if self.accounts.contains_key(key) {
            Some(self.spec_stake_account(self.spec_apply_receipt_funds_for_view(self.accounts[key], now)))
        } else {
            None
        }
    }

    pub open spec fn lookup_account_ok(self, key: Seq<u8>, now: BlockTimeHeight) -> bool {
        self.accounts.contains_key(key) ==> {
            &&& self.apply_receipt_funds_for_view_ok(self.accounts[key], now)
            &&& self.stake_account_ok(self.spec_apply_receipt_funds_for_view(self.accounts[key], now))
        }
    }
}

impl StakeTokenContract {
    fn stake_receipt_claim(&self, batch: Option<StakeBatch>) -> (r: Option<YoctoStake>)
        requires
            self.wf(),
        ensures
            match r {
                Some(stake) => self@.stake_receipt_claim(batch) == Some(stake.0),
                None => self@.stake_receipt_claim(batch) is None,
            },
    {
        match batch {
            Some(batch) => match self.stake_batch_receipts.get(&batch.batch_id.0) {
                Some(receipt) => {
                    proof {
                        assert(self@.stake_batch_receipts.contains_key(batch.batch_id.0));
                        lemma_near_to_stake_bounded(receipt.stake_token_value, batch.balance.balance.0 as nat);
                    }
                    Some(receipt.stake_token_value.near_to_stake(batch.balance.balance))
                },
                None => None,
            },
            None => None,
        }
    }

    fn redeem_receipt_claim(&self, batch: Option<RedeemStakeBatch>) -> (r: Option<YoctoNear>)
        requires
            self.wf(),
            self@.redeem_receipt_claim(batch) is Some ==> self@.redeem_receipt_claim(batch).unwrap() <= u128::MAX,
        ensures
            match r {
                Some(near) => self@.redeem_receipt_claim(batch) == Some(near.0 as int),
                None => self@.redeem_receipt_claim(batch) is None,
            },
    {
        match batch {
            Some(batch) => {
                if let Some(RedeemLock::PendingWithdrawal) = self.run_redeem_stake_batch_lock {
                    // NEAR cannot be claimed from a receipt that is pending withdrawal from the
                    // staking pool
                    if self.redeem_stake_batch.unwrap().batch_id.0 == batch.batch_id.0 {
                        return None;
                    }
                }
                match self.redeem_stake_batch_receipts.get(&batch.batch_id.0) {
                    Some(receipt) => Some(receipt.stake_token_value.stake_to_near(batch.balance.balance)),
                    None => None,
                }
            },
            None => None,
        }
    }

    /// the account with the funds on its batch receipts claimed, leaving the contract as it is
    pub fn apply_receipt_funds_for_view(&self, account: &Account, now: BlockTimeHeight) -> (r: Account)
        requires
            self.wf(),
            self@.apply_receipt_funds_for_view_ok(*account, now),
        ensures
            r == self@.spec_apply_receipt_funds_for_view(*account, now),
    {
        let mut account = *account;
        if let Some(stake) = self.stake_receipt_claim(account.stake_batch) {
            account.apply_stake_credit(stake, now);
            account.stake_batch = None;
        }
        if let Some(stake) = self.stake_receipt_claim(account.next_stake_batch) {
            account.apply_stake_credit(stake, now);
            account.next_stake_batch = None;
        }
        if let Some(near) = self.redeem_receipt_claim(account.redeem_stake_batch) {
            account.apply_near_credit(near, now);
            account.redeem_stake_batch = None;
        }
        if let Some(near) = self.redeem_receipt_claim(account.next_redeem_stake_batch) {
            account.apply_near_credit(near, now);
            account.next_redeem_stake_batch = None;
        }
        account
    }

    fn redeem_batch_view(&self, batch: Option<RedeemStakeBatch>) -> (r: Option<RedeemStakeBatchView>)
        ensures
            r == self@.redeem_batch_view(batch),
    {
        match batch {
            Some(batch) => Some(RedeemStakeBatchView { batch, receipt: self.redeem_stake_batch_receipt(batch.batch_id) }),
            None => None,
        }
    }

    fn receipt_near_value(view: &Option<RedeemStakeBatchView>) -> (r: YoctoNear)
        requires
            receipt_near_value(*view) <= u128::MAX,
        ensures
            r.0 == receipt_near_value(*view),
    {
        match view {
            Some(view) => match view.receipt {
                Some(receipt) => {
                    proof {
                        lemma_stake_to_near_at_least(receipt.stake_token_value, receipt.redeemed_stake.0 as nat);
                    }
                    receipt.stake_token_value.stake_to_near(receipt.redeemed_stake)
                },
                None => YoctoNear(0),
            },
            None => YoctoNear(0),
        }
    }

    /// the account as it is looked up, from the account with its receipt funds claimed
    fn stake_account(&self, account: &Account) -> (r: StakeAccount)
        requires
            self@.stake_account_ok(*account),
        ensures
            r == self@.spec_stake_account(*account),
    {
        let redeem_stake_batch = self.redeem_batch_view(account.redeem_stake_batch);
        let next_redeem_stake_batch = self.redeem_batch_view(account.next_redeem_stake_batch);
        let contract_near_liquidity = if self.near_liquidity_pool.0 == 0 {
            None
        } else {
            proof {
                let a = receipt_near_value(redeem_stake_batch);
                let b = receipt_near_value(next_redeem_stake_batch);
                if redeem_stake_batch is Some && redeem_stake_batch.unwrap().receipt is Some {
                    let receipt = redeem_stake_batch.unwrap().receipt.unwrap();
                    lemma_stake_to_near_at_least(receipt.stake_token_value, receipt.redeemed_stake.0 as nat);
                }
                if next_redeem_stake_batch is Some && next_redeem_stake_batch.unwrap().receipt is Some {
                    let receipt = next_redeem_stake_batch.unwrap().receipt.unwrap();
                    lemma_stake_to_near_at_least(receipt.stake_token_value, receipt.redeemed_stake.0 as nat);
                }
                assert(a >= 0 && b >= 0);
            }
            let total_unstaked_near = Self::receipt_near_value(&redeem_stake_batch).0
                + Self::receipt_near_value(&next_redeem_stake_batch).0;
            if total_unstaked_near > 0 {
                if self.near_liquidity_pool.0 >= total_unstaked_near {
                    Some(YoctoNear(total_unstaked_near))
                } else {
                    Some(self.near_liquidity_pool)
                }
            } else {
                None
            }
        };
        StakeAccount {
            storage_escrow: account.storage_escrow,
            near: account.near,
            stake: account.stake,
            stake_batch: account.stake_batch,
            next_stake_batch: account.next_stake_batch,
            redeem_stake_batch,
            next_redeem_stake_batch,
            contract_near_liquidity,
        }
    }

    /// the NEAR an account can claim for a redeem stake batch, when it fits in a u128: the first
    /// part tells whether it fits
    fn redeem_receipt_claim_checked(&self, batch: Option<RedeemStakeBatch>) -> (r: (bool, Option<YoctoNear>))
        requires
            self.wf(),
        ensures
            r.0 == (self@.redeem_receipt_claim(batch) is Some ==> self@.redeem_receipt_claim(batch).unwrap() <= u128::MAX),
            r.0 ==> match r.1 {
                Some(near) => self@.redeem_receipt_claim(batch) == Some(near.0 as int),
                None => self@.redeem_receipt_claim(batch) is None,
            },
    {
        match batch {
            Some(batch) => {
                if let Some(RedeemLock::PendingWithdrawal) = self.run_redeem_stake_batch_lock {
                    if self.redeem_stake_batch.unwrap().batch_id.0 == batch.batch_id.0 {
                        return (true, None);
                    }
                }
                match self.redeem_stake_batch_receipts.get(&batch.batch_id.0) {
                    Some(receipt) => match receipt.stake_token_value.stake_to_near_checked(batch.balance.balance) {
                        Some(near) => (true, Some(near)),
                        None => (false, None),
                    },
                    None => (true, None),
                }
            },
            None => (true, None),
        }
    }

    /// the NEAR value of the STAKE redeemed on a batch's receipt, when it fits in a u128
    fn receipt_near_value_checked(view: &Option<RedeemStakeBatchView>) -> (r: Option<YoctoNear>)
        ensures
            match r {
                Some(near) => near.0 == receipt_near_value(*view),
                None => receipt_near_value(*view) > u128::MAX,
            },
    {
        match view {
            Some(view) => match view.receipt {
                Some(receipt) => receipt.stake_token_value.stake_to_near_checked(receipt.redeemed_stake),
                None => Some(YoctoNear(0)),
            },
            None => Some(YoctoNear(0)),
        }
    }

    /// whether [lookup_account](StakeTokenContract::lookup_account) can be called for the key:
    /// the claimed receipt funds fit in the account's balances, and the NEAR values of its
    /// redeem stake batch receipts fit in a u128 together
    pub fn lookup_account_allowed(&self, key: &crate::hash::Hash, now: BlockTimeHeight) -> (r: bool)
        requires
            self.wf(),
        ensures
            r == self@.lookup_account_ok(key.key(), now),
    {
        let a = match self.accounts.get(key) {
            Some(a) => a,
            None => return true,
        };
        let mut account = a;
        let stake = match account.stake {
            Some(b) => b.balance.0,
            None => 0,
        };
        if let Some(credit) = self.stake_receipt_claim(account.stake_batch) {
            if stake.checked_add(credit.0).is_none() {
                return false;
            }
            account.apply_stake_credit(credit, now);
            account.stake_batch = None;
        }
        let stake = match account.stake {
            Some(b) => b.balance.0,
            None => 0,
        };
        if let Some(credit) = self.stake_receipt_claim(account.next_stake_batch) {
            if stake.checked_add(credit.0).is_none() {
                return false;
            }
            account.apply_stake_credit(credit, now);
            account.next_stake_batch = None;
        }
        let near = match account.near {
            Some(b) => b.balance.0,
            None => 0,
        };
        let (fits, claim) = self.redeem_receipt_claim_checked(account.redeem_stake_batch);
        if !fits {
            return false;
        }
        if let Some(credit) = claim {
            if near.checked_add(credit.0).is_none() {
                return false;
            }
            account.apply_near_credit(credit, now);
            account.redeem_stake_batch = None;
        }
        let near = match account.near {
            Some(b) => b.balance.0,
            None => 0,
        };
        let (fits, claim) = self.redeem_receipt_claim_checked(account.next_redeem_stake_batch);
        if !fits {
            return false;
        }
        if let Some(credit) = claim {
            if near.checked_add(credit.0).is_none() {
                return false;
            }
            account.apply_near_credit(credit, now);
            account.next_redeem_stake_batch = None;
        }
        if self.near_liquidity_pool.0 == 0 {
            return true;
        }
        let first = Self::receipt_near_value_checked(&self.redeem_batch_view(account.redeem_stake_batch));
        let second = Self::receipt_near_value_checked(&self.redeem_batch_view(account.next_redeem_stake_batch));
        match (first, second) {
            (Some(a), Some(b)) => a.0.checked_add(b.0).is_some(),
            _ => false,
        }
    }

    /// looks up the registered account under the key, with the funds on its batch receipts
    /// claimed
    pub fn lookup_account(&self, key: &crate::hash::Hash, now: BlockTimeHeight) -> (r: Option<StakeAccount>)
        requires
            self.wf(),
            self@.lookup_account_ok(key.key(), now),
        ensures
            r == self@.spec_lookup_account(key.key(), now),
    {
        match self.accounts.get(key) {
            Some(account) => {
                let account = self.apply_receipt_funds_for_view(&account, now);
                Some(self.stake_account(&account))
            },
            None => None,
        }
    }
}

/// the STAKE a stake batch is worth at its receipt's STAKE token value, or 0 without a receipt
pub open spec fn batch_stake_at_receipt(m: ContractModel, batch: Option<StakeBatch>) -> nat {
    match batch {
        Some(b) => if m.stake_batch_receipts.contains_key(b.batch_id.0) {
            m.stake_batch_receipts[b.batch_id.0].stake_token_value.spec_near_to_stake(b.balance.balance.0 as nat) as nat
        } else {
            0
        },
        None => 0,
    }
}

/// The STAKE balance an account is shown with (by `lookup_account` and `ft_balance_of`) is the
/// STAKE it holds once its stake batch receipts are claimed: its STAKE plus each batch's NEAR
/// converted at the STAKE token value recorded on the batch's receipt.
pub proof fn lemma_view_stake_is_claimed_stake(m: ContractModel, a: Account, now: BlockTimeHeight)
    requires
        m.wf(),
        m.claim_stake_batch_receipts_ok(a, now),
        a.stake_batch matches Some(b1) && a.next_stake_batch matches Some(b2) ==> b1.batch_id != b2.batch_id,
    ensures
        m.spec_apply_receipt_funds_for_view(a, now).stake_amount() == a.stake_amount() + batch_stake_at_receipt(
            m,
            a.stake_batch,
        ) + batch_stake_at_receipt(m, a.next_stake_batch),
        m.spec_apply_receipt_funds_for_view(a, now).stake_amount() == m.spec_claim_stake_batch_receipts(
            a,
            now,
        ).1.stake_amount(),
{
    if a.stake_batch is Some {
        let b = a.stake_batch.unwrap();
        if m.stake_batch_receipts.contains_key(b.batch_id.0) {
            lemma_near_to_stake_bounded(m.stake_batch_receipts[b.batch_id.0].stake_token_value, b.balance.balance.0 as nat);
        }
    }
    if a.next_stake_batch is Some {
        let b = a.next_stake_batch.unwrap();
        if m.stake_batch_receipts.contains_key(b.batch_id.0) {
            lemma_near_to_stake_bounded(m.stake_batch_receipts[b.batch_id.0].stake_token_value, b.balance.balance.0 as nat);
        }
    }
    let (m1, a1, s1, c1) = m.stake_slot(a, a.stake_batch, now);
    if a.next_stake_batch is Some {
        let b2 = a.next_stake_batch.unwrap();
        assert(m1.stake_batch_receipts.contains_key(b2.batch_id.0) == m.stake_batch_receipts.contains_key(b2.batch_id.0));
        if m.stake_batch_receipts.contains_key(b2.batch_id.0) {
            assert(m1.stake_batch_receipts[b2.batch_id.0] == m.stake_batch_receipts[b2.batch_id.0]);
        }
    }
}

} // verus!
