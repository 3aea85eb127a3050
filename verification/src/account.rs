//! An account's balances: storage escrow, NEAR available for withdrawal, STAKE, and the batches
//! that hold its deposits to stake and its STAKE to redeem.

use crate::amounts::{BatchId, BlockTimeHeight, YoctoNear, YoctoStake};
use crate::balance::{TimestampedNearBalance, TimestampedStakeBalance};
use crate::batch::{RedeemStakeBatch, StakeBatch};
use vstd::prelude::*;

verus! {

/// the balance of an optional stake batch
pub open spec fn stake_batch_amount(batch: Option<StakeBatch>) -> nat {
    match batch {
        Some(b) => b.balance.balance.0 as nat,
        None => 0,
    }
}

/// the balance of an optional redeem stake batch
pub open spec fn redeem_batch_amount(batch: Option<RedeemStakeBatch>) -> nat {
    match batch {
        Some(b) => b.balance.balance.0 as nat,
        None => 0,
    }
}

#[derive(Debug, Clone, Copy)]
pub struct Account {
    /// account is responsible for paying for its own storage fees
    /// the funds are escrowed and refunded when the account is unregistered
    pub storage_escrow: TimestampedNearBalance,
    /// NEAR funds that are available for withdrawal
    pub near: Option<TimestampedNearBalance>,
    /// STAKE tokens that the account owns
    pub stake: Option<TimestampedStakeBalance>,
    /// NEAR deposited to be staked when the batch is run
    pub stake_batch: Option<StakeBatch>,
    /// if the contract is locked, then NEAR deposits go into the next batch
    pub next_stake_batch: Option<StakeBatch>,
    /// STAKE moved out of the stake balance to be redeemed when the batch is run
    pub redeem_stake_batch: Option<RedeemStakeBatch>,
    /// if the contract is locked, then STAKE to redeem goes into the next batch
    pub next_redeem_stake_batch: Option<RedeemStakeBatch>,
}

impl Account {
    /// NEAR available for withdrawal
    pub open spec fn near_amount(self) -> nat {
        match self.near {
            Some(b) => b.balance.0 as nat,
            None => 0,
        }
    }

    /// STAKE owned
    pub open spec fn stake_amount(self) -> nat {
        match self.stake {
            Some(b) => b.balance.0 as nat,
            None => 0,
        }
    }

    pub open spec fn spec_has_funds(self) -> bool {
        ||| self.near_amount() > 0
        ||| self.stake_amount() > 0
        ||| stake_batch_amount(self.stake_batch) > 0
        ||| stake_batch_amount(self.next_stake_batch) > 0
        ||| redeem_batch_amount(self.redeem_stake_batch) > 0
        ||| redeem_batch_amount(self.next_redeem_stake_batch) > 0
    }

    /// the NEAR balance that a credit or debit starts from: zero stamped `now` if there is none
    pub open spec fn near_base(self, now: BlockTimeHeight) -> TimestampedNearBalance {
        match self.near {
            Some(b) => b,
            None => TimestampedNearBalance::spec_new(YoctoNear(0), now),
        }
    }

    /// the STAKE balance that a credit or debit starts from: zero stamped `now` if there is none
    pub open spec fn stake_base(self, now: BlockTimeHeight) -> TimestampedStakeBalance {
        match self.stake {
            Some(b) => b,
            None => TimestampedStakeBalance::spec_new(YoctoStake(0), now),
        }
    }

    /// the account after a NEAR credit
    pub open spec fn spec_near_credit(self, credit: u128, now: BlockTimeHeight) -> Self {
        Account { near: Some(self.near_base(now).spec_credit(credit, now)), ..self }
    }

    /// the account after a NEAR debit: a zero balance is dropped
    pub open spec fn spec_near_debit(self, debit: u128, now: BlockTimeHeight) -> Self {
        let b = self.near_base(now).spec_debit(debit, now);
        Account { near: if b.balance.0 == 0 { None } else { Some(b) }, ..self }
    }

    /// the account after a STAKE credit
    pub open spec fn spec_stake_credit(self, credit: u128, now: BlockTimeHeight) -> Self {
        Account { stake: Some(self.stake_base(now).spec_credit(credit, now)), ..self }
    }

    /// the account after a STAKE debit: a zero balance is dropped
    pub open spec fn spec_stake_debit(self, debit: u128, now: BlockTimeHeight) -> Self {
        let b = self.stake_base(now).spec_debit(debit, now);
        Account { stake: if b.balance.0 == 0 { None } else { Some(b) }, ..self }
    }

    /// a new account with its storage fee escrowed and no funds
    pub open spec fn spec_new(storage_escrow_fee: YoctoNear, now: BlockTimeHeight) -> Self {
        Account {
            storage_escrow: TimestampedNearBalance::spec_new(storage_escrow_fee, now),
            near: None,
            stake: None,
            stake_batch: None,
            next_stake_batch: None,
            redeem_stake_batch: None,
            next_redeem_stake_batch: None,
        }
    }

    pub fn new(storage_escrow_fee: YoctoNear, now: BlockTimeHeight) -> (r: Self)
        ensures
            r == Account::spec_new(storage_escrow_fee, now),
    {
        Account {
            storage_escrow: TimestampedNearBalance::new(storage_escrow_fee, now),
            near: None,
            stake: None,
            stake_batch: None,
            next_stake_batch: None,
            redeem_stake_batch: None,
            next_redeem_stake_batch: None,
        }
    }

    /// a fully allocated account, used to measure the storage that an account takes
    pub fn account_template_to_measure_storage_usage(now: BlockTimeHeight) -> (r: Self)
        ensures
            r.storage_escrow == TimestampedNearBalance::spec_new(YoctoNear(0), now),
            r.near == Some(TimestampedNearBalance::spec_new(YoctoNear(0), now)),
            r.stake == Some(TimestampedStakeBalance::spec_new(YoctoStake(0), now)),
            r.stake_batch == Some(
                StakeBatch { batch_id: BatchId(0), balance: TimestampedNearBalance::spec_new(YoctoNear(0), now) },
            ),
            r.next_stake_batch == r.stake_batch,
            r.redeem_stake_batch == Some(
                RedeemStakeBatch { batch_id: BatchId(0), balance: TimestampedStakeBalance::spec_new(YoctoStake(0), now) },
            ),
            r.next_redeem_stake_batch == r.redeem_stake_batch,
    {
        Account {
            storage_escrow: TimestampedNearBalance::new(YoctoNear(0), now),
            near: Some(TimestampedNearBalance::new(YoctoNear(0), now)),
            stake: Some(TimestampedStakeBalance::new(YoctoStake(0), now)),
            stake_batch: Some(StakeBatch::new(BatchId(0), YoctoNear(0), now)),
            next_stake_batch: Some(StakeBatch::new(BatchId(0), YoctoNear(0), now)),
            redeem_stake_batch: Some(RedeemStakeBatch::new(BatchId(0), YoctoStake(0), now)),
            next_redeem_stake_batch: Some(RedeemStakeBatch::new(BatchId(0), YoctoStake(0), now)),
        }
    }

    /// true if any balance or batch of the account is non-zero
    pub fn has_funds(&self) -> (r: bool)
        ensures
            r == self.spec_has_funds(),
    {
        let near = match self.near {
            Some(b) => b.balance.0 > 0,
            None => false,
        };
        let stake = match self.stake {
            Some(b) => b.balance.0 > 0,
            None => false,
        };
        let stake_batch = match self.stake_batch {
            Some(b) => b.balance.balance.0 > 0,
            None => false,
        };
        let next_stake_batch = match self.next_stake_batch {
            Some(b) => b.balance.balance.0 > 0,
            None => false,
        };
        let redeem_stake_batch = match self.redeem_stake_batch {
            Some(b) => b.balance.balance.0 > 0,
            None => false,
        };
        let next_redeem_stake_batch = match self.next_redeem_stake_batch {
            Some(b) => b.balance.balance.0 > 0,
            None => false,
        };
        near || stake || stake_batch || next_stake_batch || redeem_stake_batch
            || next_redeem_stake_batch
    }

    /// true if the account owns at least `amount` STAKE
    pub fn can_redeem(&self, amount: YoctoStake) -> (r: bool)
        ensures
            r == (self.stake is Some && amount.0 <= self.stake_amount()),
    {
        match self.stake {
            Some(b) => amount.0 <= b.balance.0,
            None => false,
        }
    }

    pub fn apply_near_credit(&mut self, credit: YoctoNear, now: BlockTimeHeight)
        requires
            old(self).near_amount() + credit.0 <= u128::MAX,
        ensures
            *final(self) == old(self).spec_near_credit(credit.0, now),
            final(self).near_amount() == old(self).near_amount() + credit.0,
    {
        let mut balance = match self.near {
            Some(b) => b,
            None => TimestampedNearBalance::new(YoctoNear(0), now),
        };
        balance.credit(credit, now);
        self.near = Some(balance);
    }

    pub fn apply_near_debit(&mut self, debit: YoctoNear, now: BlockTimeHeight)
        requires
            debit.0 <= old(self).near_amount(),
        ensures
            *final(self) == old(self).spec_near_debit(debit.0, now),
            final(self).near_amount() == old(self).near_amount() - debit.0,
    {
        let mut balance = match self.near {
            Some(b) => b,
            None => TimestampedNearBalance::new(YoctoNear(0), now),
        };
        balance.debit(debit, now);
        if balance.balance.0 == 0 {
            self.near = None;
        } else {
            self.near = Some(balance);
        }
    }

    pub fn apply_stake_credit(&mut self, credit: YoctoStake, now: BlockTimeHeight)
        requires
            old(self).stake_amount() + credit.0 <= u128::MAX,
        ensures
            *final(self) == old(self).spec_stake_credit(credit.0, now),
            final(self).stake_amount() == old(self).stake_amount() + credit.0,
    {
        let mut balance = match self.stake {
            Some(b) => b,
            None => TimestampedStakeBalance::new(YoctoStake(0), now),
        };
        balance.credit(credit, now);
        self.stake = Some(balance);
    }

    pub fn apply_stake_debit(&mut self, debit: YoctoStake, now: BlockTimeHeight)
        requires
            debit.0 <= old(self).stake_amount(),
        ensures
            *final(self) == old(self).spec_stake_debit(debit.0, now),
            final(self).stake_amount() == old(self).stake_amount() - debit.0,
    {
        let mut balance = match self.stake {
            Some(b) => b,
            None => TimestampedStakeBalance::new(YoctoStake(0), now),
        };
        balance.debit(debit, now);
        if balance.balance.0 == 0 {
            self.stake = None;
        } else {
            self.stake = Some(balance);
        }
    }
}

} // verus!
