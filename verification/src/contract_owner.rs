//! The contract owner's balance: the part above the owner's storage cost and the minimum
//! operational balance can be staked into the owner's account or withdrawn.

use crate::amounts::{BlockTimeHeight, YoctoNear};
use crate::state::{ContractModel, StakeTokenContract};
use vstd::prelude::*;

verus! {

/// why a request on the owner's balance was refused
#[derive(Debug, Clone, Copy, PartialEq, Eq, Structural)]
pub enum OwnerBalanceError {
    /// the owner's available balance is zero
    OwnerBalanceIsZero,
    /// the owner's available balance is below the amount to stake
    InsufficientFundsForOwnerStaking,
    /// the owner's available balance is below the amount to withdraw
    InsufficientFundsForOwnerWithdrawal,
}

impl ContractModel {
    /// the owner's available balance can be computed
    pub open spec fn owner_balance_ok(self) -> bool {
        self.spec_contract_owner_storage_usage_cost() <= self.contract_owner_balance.0
    }
}

impl StakeTokenContract {
    /// stakes all of the owner's available balance into the owner's account: returns the amount
    /// staked
    pub fn stake_all_owner_balance(&mut self, owner: &crate::hash::Hash, now: BlockTimeHeight) -> (r: Result<
        YoctoNear,
        OwnerBalanceError,
    >)
        requires
            old(self).wf(),
            old(self)@.owner_balance_ok(),
            old(self)@.registered(owner.key()),
            old(self)@.spec_owner_available_balance() > 0 ==> old(self)@.deposit_for_account_ok(
                old(self)@.accounts[owner.key()],
                old(self)@.spec_owner_available_balance() as u128,
                now,
            ),
        ensures
            final(self).wf(),
            old(self)@.spec_owner_available_balance() == 0 ==> r == Err::<YoctoNear, OwnerBalanceError>(
                OwnerBalanceError::OwnerBalanceIsZero,
            ) && final(self)@ == old(self)@,
            old(self)@.spec_owner_available_balance() > 0 ==> {
                let amount = old(self)@.spec_owner_available_balance() as u128;
                let (m, a, id) = old(self)@.spec_deposit_for_account(old(self)@.accounts[owner.key()], amount, now);
                &&& final(self)@ == m.with_account(owner.key(), a)
                &&& r == Ok::<YoctoNear, OwnerBalanceError>(YoctoNear(amount))
            },
    {
        let owner_available_balance = self.owner_available_balance();
        if owner_available_balance.0 == 0 {
            return Err(OwnerBalanceError::OwnerBalanceIsZero);
        }
        self.deposit(owner, owner_available_balance, now);
        Ok(owner_available_balance)
    }

    /// stakes `amount` of the owner's available balance into the owner's account
    pub fn stake_owner_balance(&mut self, owner: &crate::hash::Hash, amount: YoctoNear, now: BlockTimeHeight) -> (r: Result<
        (),
        OwnerBalanceError,
    >)
        requires
            old(self).wf(),
            old(self)@.owner_balance_ok(),
            old(self)@.registered(owner.key()),
            amount.0 <= old(self)@.spec_owner_available_balance() ==> old(self)@.deposit_for_account_ok(
                old(self)@.accounts[owner.key()],
                amount.0,
                now,
            ),
        ensures
            final(self).wf(),
            amount.0 > old(self)@.spec_owner_available_balance() ==> r == Err::<(), OwnerBalanceError>(
                OwnerBalanceError::InsufficientFundsForOwnerStaking,
            ) && final(self)@ == old(self)@,
            amount.0 <= old(self)@.spec_owner_available_balance() ==> {
                let (m, a, id) = old(self)@.spec_deposit_for_account(old(self)@.accounts[owner.key()], amount.0, now);
                &&& final(self)@ == m.with_account(owner.key(), a)
                &&& r == Ok::<(), OwnerBalanceError>(())
            },
    {
        let owner_available_balance = self.owner_available_balance();
        if owner_available_balance.0 < amount.0 {
            return Err(OwnerBalanceError::InsufficientFundsForOwnerStaking);
        }
        self.deposit(owner, amount, now);
        Ok(())
    }

    /// the owner's available balance, all of which is to be transferred to the owner
    pub fn withdraw_all_owner_balance(&self) -> (r: YoctoNear)
        requires
            self@.owner_balance_ok(),
        ensures
            r.0 == self@.spec_owner_available_balance(),
    {
        self.owner_available_balance()
    }

    /// checks that `amount` can be withdrawn from the owner's available balance: returns the
    /// amount to transfer to the owner
    pub fn withdraw_owner_balance(&self, amount: YoctoNear) -> (r: Result<YoctoNear, OwnerBalanceError>)
        requires
            self@.owner_balance_ok(),
        ensures
            amount.0 <= self@.spec_owner_available_balance() ==> r == Ok::<YoctoNear, OwnerBalanceError>(amount),
            amount.0 > self@.spec_owner_available_balance() ==> r == Err::<YoctoNear, OwnerBalanceError>(
                OwnerBalanceError::InsufficientFundsForOwnerWithdrawal,
            ),
    {
        let owner_available_balance = self.owner_available_balance();
        if owner_available_balance.0 >= amount.0 {
            Ok(amount)
        } else {
            Err(OwnerBalanceError::InsufficientFundsForOwnerWithdrawal)
        }
    }
}

} // verus!
