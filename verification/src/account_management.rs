//! Account registration and the account storage escrow: an account pays for the storage it
//! takes, the fee is escrowed while it is registered and refunded when it unregisters.
//!
//! Accounts are identified by the hash of their account ID; the NEAR attached to a call is
//! passed in by the caller, and what the contract owes back is returned.

use crate::account::Account;
use crate::amounts::{BlockTimeHeight, YoctoNear};
use crate::balance::TimestampedNearBalance;
use crate::state::{ContractModel, StakeTokenContract};
use vstd::prelude::*;

verus! {

/// why an account management request was refused
#[derive(Debug, Clone, Copy, PartialEq, Eq, Structural)]
pub enum AccountError {
    /// the attached deposit does not cover the account storage fee
    InsufficientStorageFee,
    AccountAlreadyRegistered,
    AccountNotRegistered,
    /// all funds must be withdrawn from the account in order to unregister
    UnregisterRequiresZeroBalances,
    /// a deposit must be attached
    AttachedDepositRequired,
    /// exactly 1 yoctoNEAR must be attached
    ExactlyOneYoctoNearRequired,
    /// the withdraw amount must be greater than zero
    ZeroWithdrawAmount,
    /// the account storage available balance is insufficient
    InsufficientStorageAvailableBalance,
}

/// an account's storage escrow: the total escrowed, and what is available above the fee
#[derive(Debug, Clone, Copy, PartialEq, Eq, Structural)]
pub struct AccountStorageBalance {
    pub total: YoctoNear,
    pub available: YoctoNear,
}

/// the storage balance of an account that has `escrow` escrowed while the fee is `fee`
pub open spec fn storage_balance(escrow: u128, fee: u128) -> AccountStorageBalance {
    AccountStorageBalance {
        total: YoctoNear(escrow),
        available: YoctoNear(if fee > escrow { 0 } else { (escrow - fee) as u128 }),
    }
}

impl ContractModel {
    /// the storage fee an account pays: the storage one account takes at the storage cost
    pub open spec fn spec_account_storage_fee(self) -> nat {
        self.config.storage_cost_per_byte.0 as nat * self.account_storage_usage.0 as nat
    }

    pub open spec fn storage_fee_ok(self) -> bool {
        self.spec_account_storage_fee() <= u128::MAX
    }

    /// registration: refused without the storage fee or for a registered account; otherwise
    /// the account is saved with the fee escrowed and the rest of the deposit is refunded
    pub open spec fn spec_register_account(self, key: Seq<u8>, attached_deposit: u128, now: BlockTimeHeight) -> (
        ContractModel,
        Result<u128, AccountError>,
    ) {
        let fee = self.spec_account_storage_fee();
        if attached_deposit < fee {
            (self, Err(AccountError::InsufficientStorageFee))
        } else if self.accounts.contains_key(key) {
            (self, Err(AccountError::AccountAlreadyRegistered))
        } else {
            (
                ContractModel {
                    accounts: self.accounts.insert(key, Account::spec_new(YoctoNear(fee as u128), now)),
                    accounts_len: (self.accounts_len + 1) as u128,
                    ..self
                },
                Ok((attached_deposit - fee) as u128),
            )
        }
    }

    /// unregistration: refused for an account that is not registered or still has funds;
    /// otherwise the account is deleted and its storage escrow refunded
    pub open spec fn spec_unregister_account(self, key: Seq<u8>) -> (ContractModel, Result<u128, AccountError>) {
        if !self.accounts.contains_key(key) {
            (self, Err(AccountError::AccountNotRegistered))
        } else if self.accounts[key].spec_has_funds() {
            (self, Err(AccountError::UnregisterRequiresZeroBalances))
        } else {
            (
                ContractModel {
                    accounts: self.accounts.remove(key),
                    accounts_len: (self.accounts_len - 1) as u128,
                    ..self
                },
                Ok(self.accounts[key].storage_escrow.balance.0),
            )
        }
    }
    /// the storage balance of the account under `key`: zero for an account that is not
    /// registered
    pub open spec fn spec_storage_balance_of(self, key: Seq<u8>) -> AccountStorageBalance {
        if self.accounts.contains_key(key) {
            storage_balance(self.accounts[key].storage_escrow.balance.0, self.spec_account_storage_fee() as u128)
        } else {
            AccountStorageBalance { total: YoctoNear(0), available: YoctoNear(0) }
        }
    }

    /// a storage deposit: refused without an attached deposit; an account that is not
    /// registered is registered with the whole deposit escrowed, provided it covers the storage
    /// fee; for a registered account the deposit is added to its storage escrow
    pub open spec fn spec_storage_deposit(self, key: Seq<u8>, attached_deposit: u128, now: BlockTimeHeight) -> (
        ContractModel,
        Result<AccountStorageBalance, AccountError>,
    ) {
        if attached_deposit == 0 {
            (self, Err(AccountError::AttachedDepositRequired))
        } else if !self.accounts.contains_key(key) && attached_deposit < self.spec_account_storage_fee() {
            (self, Err(AccountError::InsufficientStorageFee))
        } else {
            let m = if self.accounts.contains_key(key) {
                let account = self.accounts[key];
                ContractModel {
                    accounts: self.accounts.insert(
                        key,
                        Account { storage_escrow: account.storage_escrow.spec_credit(attached_deposit, now), ..account },
                    ),
                    ..self
                }
            } else {
                ContractModel {
                    accounts: self.accounts.insert(key, Account::spec_new(YoctoNear(attached_deposit), now)),
                    accounts_len: (self.accounts_len + 1) as u128,
                    ..self
                }
            };
            let m = ContractModel {
                total_account_storage_escrow: YoctoNear((self.total_account_storage_escrow.0 + attached_deposit) as u128),
                ..m
            };
            (m, Ok(m.spec_storage_balance_of(key)))
        }
    }

    pub open spec fn storage_deposit_ok(self, key: Seq<u8>, attached_deposit: u128) -> bool {
        &&& self.storage_fee_ok()
        &&& self.total_account_storage_escrow.0 + attached_deposit <= u128::MAX
        &&& self.accounts.contains_key(key)
            ==> self.accounts[key].storage_escrow.balance.0 + attached_deposit <= u128::MAX
    }

    /// the amount a storage withdrawal takes out: the amount asked for, or all that is available
    pub open spec fn storage_withdraw_amount(self, key: Seq<u8>, amount: Option<YoctoNear>) -> u128 {
        match amount {
            Some(amount) => amount.0,
            None => self.spec_storage_balance_of(key).available.0,
        }
    }

    /// a storage withdrawal: exactly 1 yoctoNEAR must be attached, a given amount must be
    /// positive, the account registered and the amount available; the amount is taken from the
    /// account's storage escrow and transferred back with the attached yoctoNEAR
    pub open spec fn spec_storage_withdraw(self, key: Seq<u8>, attached_deposit: u128, amount: Option<YoctoNear>, now: BlockTimeHeight) -> (
        ContractModel,
        Result<(AccountStorageBalance, u128), AccountError>,
    ) {
        let withdraw = self.storage_withdraw_amount(key, amount);
        if attached_deposit != 1 {
            (self, Err(AccountError::ExactlyOneYoctoNearRequired))
        } else if amount is Some && amount.unwrap().0 == 0 {
            (self, Err(AccountError::ZeroWithdrawAmount))
        } else if !self.accounts.contains_key(key) {
            (self, Err(AccountError::AccountNotRegistered))
        } else if withdraw > self.spec_storage_balance_of(key).available.0 {
            (self, Err(AccountError::InsufficientStorageAvailableBalance))
        } else {
            let account = self.accounts[key];
            let m = ContractModel {
                accounts: self.accounts.insert(
                    key,
                    Account { storage_escrow: account.storage_escrow.spec_debit(withdraw, now), ..account },
                ),
                total_account_storage_escrow: YoctoNear((self.total_account_storage_escrow.0 - withdraw) as u128),
                ..self
            };
            (m, Ok((m.spec_storage_balance_of(key), (withdraw + 1) as u128)))
        }
    }

    pub open spec fn storage_withdraw_ok(self, key: Seq<u8>, amount: Option<YoctoNear>) -> bool {
        let withdraw = self.storage_withdraw_amount(key, amount);
        &&& self.storage_fee_ok()
        &&& (self.accounts.contains_key(key) && withdraw <= self.spec_storage_balance_of(key).available.0) ==> {
            &&& withdraw <= self.total_account_storage_escrow.0
            &&& withdraw < u128::MAX
        }
    }
}

/// Registering an account and then unregistering it gives back the whole deposit, the storage
/// fee on unregistering and the rest on registering, and leaves the registered accounts as they
/// were.
pub proof fn lemma_register_then_unregister(m: ContractModel, key: Seq<u8>, attached_deposit: u128, now: BlockTimeHeight)
    requires
        m.wf(),
        m.storage_fee_ok(),
        !m.accounts.contains_key(key),
        attached_deposit >= m.spec_account_storage_fee(),
        m.accounts_len < u128::MAX,
    ensures
        ({
            let (m1, r1) = m.spec_register_account(key, attached_deposit, now);
            let (m2, r2) = m1.spec_unregister_account(key);
            &&& r1 is Ok
            &&& r2 is Ok
            &&& r1.unwrap() + r2.unwrap() == attached_deposit
            &&& r2.unwrap() == m.spec_account_storage_fee()
            &&& m2 == m
        }),
{
    let (m1, r1) = m.spec_register_account(key, attached_deposit, now);
    assert(m1.accounts.remove(key) =~= m.accounts);
}

impl StakeTokenContract {
    /// the required account storage fee that needs to be attached to the account registration;
    /// it follows the storage cost per byte in the config
    pub fn account_storage_fee(&self) -> (r: YoctoNear)
        requires
            self@.storage_fee_ok(),
        ensures
            r.0 == self@.spec_account_storage_fee(),
    {
        YoctoNear(self.config.storage_cost_per_byte.0 * self.account_storage_usage.0 as u128)
    }

    pub fn account_registered(&self, key: &crate::hash::Hash) -> (r: bool)
        requires
            self.wf(),
        ensures
            r == self@.accounts.contains_key(key.key()),
    {
        self.accounts.contains_key(key)
    }

    /// registers the account with the attached deposit: returns the over payment of the storage
    /// fee, which is refunded
    pub fn register_account(&mut self, key: &crate::hash::Hash, attached_deposit: u128, now: BlockTimeHeight) -> (r: Result<
        u128,
        AccountError,
    >)
        requires
            old(self).wf(),
            old(self)@.storage_fee_ok(),
        ensures
            final(self).wf(),
            (final(self)@, r) == old(self)@.spec_register_account(key.key(), attached_deposit, now),
    {
        let fee = self.account_storage_fee();
        if attached_deposit < fee.0 {
            return Err(AccountError::InsufficientStorageFee);
        }
        if self.accounts.contains_key(key) {
            return Err(AccountError::AccountAlreadyRegistered);
        }
        proof {
            self.accounts.lemma_len_bounded();
        }
        let account = Account::new(fee, now);
        self.accounts.insert(key, account);
        self.accounts_len = self.accounts_len + 1;
        proof {
            assert(self@.accounts.dom() =~= old(self)@.accounts.dom().insert(key.key()));
        }
        // refund over payment of storage fees
        Ok(attached_deposit - fee.0)
    }

    /// unregisters an account that has no funds: returns the escrowed storage fee, which is
    /// refunded
    pub fn unregister_account(&mut self, key: &crate::hash::Hash) -> (r: Result<u128, AccountError>)
        requires
            old(self).wf(),
        ensures
            final(self).wf(),
            (final(self)@, r) == old(self)@.spec_unregister_account(key.key()),
    {
        match self.accounts.get(key) {
            None => Err(AccountError::AccountNotRegistered),
            Some(account) => {
                if account.has_funds() {
                    return Err(AccountError::UnregisterRequiresZeroBalances);
                }
                proof {
                    self.accounts.lemma_len_bounded();
                    assert(self@.accounts.dom().remove(key.key()).len() == self@.accounts.dom().len() - 1);
                }
                self.accounts.remove(key);
                proof {
                    assert(self@.accounts.dom() =~= old(self)@.accounts.dom().remove(key.key()));
                }
                self.accounts_len = self.accounts_len - 1;
                // refund the escrowed storage fee
                Ok(account.storage_escrow.balance.0)
            },
        }
    }
}

impl StakeTokenContract {
    /// the storage balance an account needs to be registered: the account storage fee
    pub fn storage_minimum_balance(&self) -> (r: YoctoNear)
        requires
            self@.storage_fee_ok(),
        ensures
            r.0 == self@.spec_account_storage_fee(),
    {
        self.account_storage_fee()
    }

    /// an account's storage balance; if storage prices are lowered, this shows in the available
    /// balance
    pub fn account_storage_balance(&self, account: &Account) -> (r: AccountStorageBalance)
        requires
            self@.storage_fee_ok(),
        ensures
            r == storage_balance(account.storage_escrow.balance.0, self@.spec_account_storage_fee() as u128),
    {
        let account_storage_fee = self.account_storage_fee().0;
        let storage_escrow_amount = account.storage_escrow.balance.0;
        AccountStorageBalance {
            total: account.storage_escrow.balance,
            available: if account_storage_fee > storage_escrow_amount {
                YoctoNear(0)
            } else {
                YoctoNear(storage_escrow_amount - account_storage_fee)
            },
        }
    }

    pub fn storage_balance_of(&self, key: &crate::hash::Hash) -> (r: AccountStorageBalance)
        requires
            self.wf(),
            self@.storage_fee_ok(),
        ensures
            r == self@.spec_storage_balance_of(key.key()),
    {
        match self.accounts.get(key) {
            None => AccountStorageBalance { total: YoctoNear(0), available: YoctoNear(0) },
            Some(account) => self.account_storage_balance(&account),
        }
    }

    /// deposits the attached NEAR into the account's storage escrow, registering the account
    /// if needed; an over payment is kept in the storage escrow
    pub fn storage_deposit(&mut self, key: &crate::hash::Hash, attached_deposit: u128, now: BlockTimeHeight) -> (r: Result<
        AccountStorageBalance,
        AccountError,
    >)
        requires
            old(self).wf(),
            old(self)@.storage_deposit_ok(key.key(), attached_deposit),
        ensures
            final(self).wf(),
            (final(self)@, r) == old(self)@.spec_storage_deposit(key.key(), attached_deposit, now),
    {
        if attached_deposit == 0 {
            return Err(AccountError::AttachedDepositRequired);
        }
        match self.accounts.get(key) {
            None => {
                if attached_deposit < self.account_storage_fee().0 {
                    return Err(AccountError::InsufficientStorageFee);
                }
                proof {
                    self.accounts.lemma_len_bounded();
                }
                let account = Account::new(YoctoNear(attached_deposit), now);
                self.accounts.insert(key, account);
                self.accounts_len = self.accounts_len + 1;
                proof {
                    assert(self@.accounts.dom() =~= old(self)@.accounts.dom().insert(key.key()));
                }
            },
            Some(account) => {
                let mut account = account;
                account.storage_escrow.credit(YoctoNear(attached_deposit), now);
                self.accounts.insert(key, account);
                proof {
                    assert(self@.accounts.dom() =~= old(self)@.accounts.dom());
                }
            },
        }
        // track the total account storage escrow balance at the contract level
        self.total_account_storage_escrow = YoctoNear(self.total_account_storage_escrow.0 + attached_deposit);
        Ok(self.storage_balance_of(key))
    }

    /// withdraws `amount`, or all that is available, from the account's storage escrow: returns
    /// the updated storage balance and the amount to transfer back, which includes the
    /// attached yoctoNEAR
    pub fn storage_withdraw(
        &mut self,
        key: &crate::hash::Hash,
        attached_deposit: u128,
        amount: Option<YoctoNear>,
        now: BlockTimeHeight,
    ) -> (r: Result<(AccountStorageBalance, u128), AccountError>)
        requires
            old(self).wf(),
            old(self)@.storage_withdraw_ok(key.key(), amount),
        ensures
            final(self).wf(),
            (final(self)@, r) == old(self)@.spec_storage_withdraw(key.key(), attached_deposit, amount, now),
    {
        if attached_deposit != 1 {
            return Err(AccountError::ExactlyOneYoctoNearRequired);
        }
        if let Some(amount) = amount {
            if amount.0 == 0 {
                return Err(AccountError::ZeroWithdrawAmount);
            }
        }
        let mut account = match self.accounts.get(key) {
            Some(account) => account,
            None => return Err(AccountError::AccountNotRegistered),
        };
        let account_storage_balance = self.account_storage_balance(&account);
        let withdraw_amount = match amount {
            Some(amount) => amount,
            None => account_storage_balance.available,
        };
        if withdraw_amount.0 > account_storage_balance.available.0 {
            return Err(AccountError::InsufficientStorageAvailableBalance);
        }
        // update balances
        account.storage_escrow.debit(withdraw_amount, now);
        self.accounts.insert(key, account);
        proof {
            assert(self@.accounts.dom() =~= old(self)@.accounts.dom());
        }
        self.total_account_storage_escrow = YoctoNear(self.total_account_storage_escrow.0 - withdraw_amount.0);
        let account_storage_balance = self.account_storage_balance(&account);
        // transfer the withdrawal amount and the attached yoctoNEAR
        Ok((account_storage_balance, withdraw_amount.0 + 1))
    }
}

} // verus!
