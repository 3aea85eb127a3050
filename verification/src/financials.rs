//! The contract's financials: what the contract balance is made of, the earnings from contract
//! gas rewards and collected earnings, and how earnings are split between the contract owner
//! and the user accounts.
//!
//! The contract's account balance and its storage usage are read from the runtime by the
//! caller and passed in.

use crate::amounts::{BlockTimeHeight, YoctoNear};
use crate::batch::StakeBatch;
use crate::config::CONTRACT_MIN_OPERATIONAL_BALANCE;
use crate::state::{ContractModel, StakeTokenContract};
use vstd::prelude::*;

verus! {

/// the NEAR deposited into a stake batch, or 0 without a batch
pub open spec fn batch_deposit(batch: Option<StakeBatch>) -> nat {
    match batch {
        Some(batch) => batch.balance.balance.0 as nat,
        None => 0,
    }
}

/// the contract owner's percentage of `amount`: the amount is divided by 100 first
pub open spec fn owner_share(amount: nat, percentage: u8) -> nat {
    amount / 100 * percentage as nat
}

/// a snapshot of the contract balances
#[derive(Debug, Clone, Copy)]
pub struct ContractBalances {
    pub total_contract_balance: YoctoNear,
    pub total_contract_storage_usage_cost: YoctoNear,
    pub total_available_balance: YoctoNear,
    pub total_user_accounts_balance: YoctoNear,
    pub customer_batched_stake_deposits: YoctoNear,
    pub total_available_unstaked_near: YoctoNear,
    pub near_liquidity_pool: YoctoNear,
    pub total_account_storage_escrow: YoctoNear,
    pub contract_owner_storage_usage_cost: YoctoNear,
    pub contract_owner_available_balance: YoctoNear,
    pub contract_owner_balance: YoctoNear,
    pub contract_earnings: YoctoNear,
    pub contract_owner_earnings: YoctoNear,
    pub user_accounts_earnings: YoctoNear,
    pub collected_earnings: YoctoNear,
    pub contract_required_operational_balance: YoctoNear,
    pub block_time_height: BlockTimeHeight,
}

impl ContractModel {
    /// the NEAR that accounts deposited into the stake batches that have not run yet
    pub open spec fn spec_customer_batched_stake_deposits(self) -> nat {
        batch_deposit(self.stake_batch) + batch_deposit(self.next_stake_batch)
    }

    /// the NEAR the contract holds for the user accounts
    pub open spec fn spec_total_user_accounts_balance(self) -> nat {
        self.spec_customer_batched_stake_deposits() + self.total_near.balance.0 as nat
            + self.near_liquidity_pool.0 as nat + self.total_account_storage_escrow.0 as nat
    }

    /// the contract gas rewards: what remains of the account balance after the contract owner's
    /// balance, the user accounts' balance and the collected earnings, or 0
    pub open spec fn spec_contract_earnings(self, account_balance: u128) -> nat {
        let rest = account_balance - self.contract_owner_balance.0 - self.spec_total_user_accounts_balance()
            - self.collected_earnings.0;
        if account_balance <= self.contract_owner_balance.0 {
            0
        } else if account_balance - self.contract_owner_balance.0 <= self.spec_total_user_accounts_balance() {
            0
        } else if rest <= 0 {
            0
        } else {
            rest as nat
        }
    }

    pub open spec fn spec_total_earnings(self, account_balance: u128) -> nat {
        self.spec_contract_earnings(account_balance) + self.collected_earnings.0 as nat
    }

    pub open spec fn spec_contract_owner_earnings(self, account_balance: u128) -> nat {
        owner_share(self.spec_total_earnings(account_balance), self.config.contract_owner_earnings_percentage)
    }

    pub open spec fn spec_user_accounts_earnings(self, account_balance: u128) -> int {
        self.spec_total_earnings(account_balance) - self.spec_contract_owner_earnings(account_balance)
    }

    pub open spec fn spec_contract_owner_storage_usage_cost(self) -> nat {
        self.contract_initial_storage_usage.0 as nat * self.config.storage_cost_per_byte.0 as nat
    }

    /// the contract owner's balance less the owner's storage cost, above the minimum balance
    /// that keeps the contract operational
    pub open spec fn spec_owner_available_balance(self) -> nat {
        let balance = self.contract_owner_balance.0 - self.spec_contract_owner_storage_usage_cost();
        if balance > CONTRACT_MIN_OPERATIONAL_BALANCE {
            (balance - CONTRACT_MIN_OPERATIONAL_BALANCE) as nat
        } else {
            0
        }
    }

    /// the user accounts' balance and the earnings fit in a u128
    pub open spec fn earnings_ok(self, account_balance: u128) -> bool {
        &&& self.spec_total_user_accounts_balance() <= u128::MAX
        &&& self.spec_total_earnings(account_balance) <= u128::MAX
    }

    /// the earnings are split: the owner's share is added to the owner's balance, the rest to
    /// the NEAR liquidity pool, both saturating, and the collected earnings are cleared
    pub open spec fn spec_distribute_earnings(self, account_balance: u128) -> ContractModel {
        ContractModel {
            contract_owner_balance: YoctoNear(
                self.contract_owner_balance.0.saturating_add(
                    self.spec_contract_owner_earnings(account_balance) as u128,
                ),
            ),
            near_liquidity_pool: YoctoNear(
                self.near_liquidity_pool.0.saturating_add(self.spec_user_accounts_earnings(account_balance) as u128),
            ),
            collected_earnings: YoctoNear(0),
            ..self
        }
    }
}

/// With an owner percentage within 0-100, the owner's share of an amount never exceeds it.
pub proof fn lemma_owner_share_bounded(amount: nat, percentage: u8)
    requires
        percentage <= 100,
    ensures
        owner_share(amount, percentage) <= amount,
{
    let q = amount / 100;
    assert(q * percentage as nat <= q * 100) by (nonlinear_arith)
        requires
            percentage <= 100,
    ;
    assert(q * 100 <= amount) by (nonlinear_arith)
        requires
            q == amount / 100,
    ;
}

/// The contract owner's earnings and the user accounts' earnings add up to the total earnings,
/// and neither is negative.
pub proof fn lemma_earnings_split(m: ContractModel, account_balance: u128)
    requires
        m.wf(),
    ensures
        m.spec_contract_owner_earnings(account_balance) + m.spec_user_accounts_earnings(account_balance)
            == m.spec_total_earnings(account_balance),
        m.spec_user_accounts_earnings(account_balance) >= 0,
{
    lemma_owner_share_bounded(m.spec_total_earnings(account_balance), m.config.contract_owner_earnings_percentage);
}

impl StakeTokenContract {
    /// the cost of the storage the contract uses, given its storage usage in bytes
    pub fn total_contract_storage_usage_cost(&self, storage_usage: u64) -> (r: YoctoNear)
        requires
            storage_usage * self.config.storage_cost_per_byte.0 <= u128::MAX,
        ensures
            r.0 == storage_usage * self.config.storage_cost_per_byte.0,
    {
        YoctoNear(storage_usage as u128 * self.config.storage_cost_per_byte.0)
    }

    /// the account balance less the storage cost
    pub fn total_available_balance(&self, account_balance: u128, storage_usage: u64) -> (r: YoctoNear)
        requires
            storage_usage * self.config.storage_cost_per_byte.0 <= account_balance,
        ensures
            r.0 == account_balance - storage_usage * self.config.storage_cost_per_byte.0,
    {
        YoctoNear(account_balance - self.total_contract_storage_usage_cost(storage_usage).0)
    }

    pub fn customer_batched_stake_deposits(&self) -> (r: YoctoNear)
        requires
            self@.spec_customer_batched_stake_deposits() <= u128::MAX,
        ensures
            r.0 == self@.spec_customer_batched_stake_deposits(),
    {
        let stake_batch = match self.stake_batch {
            Some(batch) => batch.balance.balance.0,
            None => 0,
        };
        let next_stake_batch = match self.next_stake_batch {
            Some(batch) => batch.balance.balance.0,
            None => 0,
        };
        YoctoNear(stake_batch + next_stake_batch)
    }

    pub fn total_user_accounts_balance(&self) -> (r: YoctoNear)
        requires
            self@.spec_total_user_accounts_balance() <= u128::MAX,
        ensures
            r.0 == self@.spec_total_user_accounts_balance(),
    {
        YoctoNear(
            self.customer_batched_stake_deposits().0 + self.total_near.balance.0 + self.near_liquidity_pool.0
                + self.total_account_storage_escrow.0,
        )
    }

    /// how much gas rewards the contract has accumulated
    pub fn contract_earnings(&self, account_balance: u128) -> (r: YoctoNear)
        requires
            self@.spec_total_user_accounts_balance() <= u128::MAX,
        ensures
            r.0 == self@.spec_contract_earnings(account_balance),
    {
        YoctoNear(
            account_balance.saturating_sub(self.contract_owner_balance.0).saturating_sub(
                self.total_user_accounts_balance().0,
            ).saturating_sub(self.collected_earnings.0),
        )
    }

    pub fn total_earnings(&self, account_balance: u128) -> (r: YoctoNear)
        requires
            self@.spec_total_user_accounts_balance() <= u128::MAX,
            self@.spec_total_earnings(account_balance) <= u128::MAX,
        ensures
            r.0 == self@.spec_total_earnings(account_balance),
    {
        YoctoNear(self.contract_earnings(account_balance).0 + self.collected_earnings.0)
    }

    /// the owner's percentage of the earnings from contract gas rewards and collected earnings
    pub fn contract_owner_earnings(&self, account_balance: u128) -> (r: YoctoNear)
        requires
            self.wf(),
            self@.earnings_ok(account_balance),
        ensures
            r.0 == self@.spec_contract_owner_earnings(account_balance),
    {
        self.contract_owner_share(self.total_earnings(account_balance))
    }

    fn contract_owner_share(&self, amount: YoctoNear) -> (r: YoctoNear)
        requires
            self.config.wf(),
        ensures
            r.0 == owner_share(amount.0 as nat, self.config.contract_owner_earnings_percentage),
    {
        proof {
            lemma_owner_share_bounded(amount.0 as nat, self.config.contract_owner_earnings_percentage);
        }
        let percentage = self.config.contract_owner_earnings_percentage as u128;
        YoctoNear(amount.0 / 100 * percentage)
    }

    pub fn user_accounts_earnings(&self, account_balance: u128) -> (r: YoctoNear)
        requires
            self.wf(),
            self@.earnings_ok(account_balance),
        ensures
            r.0 == self@.spec_user_accounts_earnings(account_balance),
    {
        proof {
            lemma_earnings_split(self@, account_balance);
        }
        YoctoNear(self.total_earnings(account_balance).0 - self.contract_owner_earnings(account_balance).0)
    }

    pub fn contract_owner_storage_usage_cost(&self) -> (r: YoctoNear)
        requires
            self@.spec_contract_owner_storage_usage_cost() <= u128::MAX,
        ensures
            r.0 == self@.spec_contract_owner_storage_usage_cost(),
    {
        YoctoNear(self.contract_initial_storage_usage.0 as u128 * self.config.storage_cost_per_byte.0)
    }

    /// the owner's balance that can be withdrawn: what remains above the owner's storage cost
    /// and the minimum operational balance
    pub fn owner_available_balance(&self) -> (r: YoctoNear)
        requires
            self@.spec_contract_owner_storage_usage_cost() <= self.contract_owner_balance.0,
        ensures
            r.0 == self@.spec_owner_available_balance(),
    {
        let balance = self.contract_owner_balance.0 - self.contract_owner_storage_usage_cost().0;
        if balance > CONTRACT_MIN_OPERATIONAL_BALANCE {
            YoctoNear(balance - CONTRACT_MIN_OPERATIONAL_BALANCE)
        } else {
            YoctoNear(0)
        }
    }

    /// splits the earnings between the contract owner and the user accounts: returns the owner's
    /// earnings and the user accounts' earnings
    pub fn distribute_earnings(&mut self, account_balance: u128) -> (r: (YoctoNear, YoctoNear))
        requires
            old(self).wf(),
            old(self)@.earnings_ok(account_balance),
        ensures
            final(self).wf(),
            final(self)@ == old(self)@.spec_distribute_earnings(account_balance),
            r.0.0 == old(self)@.spec_contract_owner_earnings(account_balance),
            r.1.0 == old(self)@.spec_user_accounts_earnings(account_balance),
    {
        let contract_owner_earnings = self.contract_owner_earnings(account_balance);
        let user_accounts_earnings = self.user_accounts_earnings(account_balance);
        self.contract_owner_balance = YoctoNear(self.contract_owner_balance.0.saturating_add(contract_owner_earnings.0));
        // funds added to the liquidity pool distribute earnings to the users
        self.near_liquidity_pool = YoctoNear(self.near_liquidity_pool.0.saturating_add(user_accounts_earnings.0));
        // the collected earnings have been distributed
        self.collected_earnings = YoctoNear(0);
        (contract_owner_earnings, user_accounts_earnings)
    }

    /// adds `amount` to the collected earnings and returns them
    pub fn deposit_earnings(&mut self, amount: u128) -> (r: YoctoNear)
        requires
            old(self).wf(),
            old(self).collected_earnings.0 + amount <= u128::MAX,
        ensures
            final(self).wf(),
            final(self)@ == (ContractModel {
                collected_earnings: YoctoNear((old(self).collected_earnings.0 + amount) as u128),
                ..old(self)@
            }),
            r == final(self).collected_earnings,
    {
        self.collected_earnings = YoctoNear(self.collected_earnings.0 + amount);
        self.collected_earnings
    }
}

impl StakeTokenContract {
    /// the contract balances, given the contract's account balance and storage usage at `now`
    pub fn balances(&self, account_balance: u128, storage_usage: u64, now: BlockTimeHeight) -> (r: ContractBalances)
        requires
            self.wf(),
            self@.earnings_ok(account_balance),
            storage_usage * self.config.storage_cost_per_byte.0 <= account_balance,
            self@.spec_contract_owner_storage_usage_cost() <= self.contract_owner_balance.0,
        ensures
            r.total_contract_balance.0 == account_balance,
            r.total_contract_storage_usage_cost.0 == storage_usage * self.config.storage_cost_per_byte.0,
            r.total_available_balance.0 == account_balance - storage_usage * self.config.storage_cost_per_byte.0,
            r.total_user_accounts_balance.0 == self@.spec_total_user_accounts_balance(),
            r.customer_batched_stake_deposits.0 == self@.spec_customer_batched_stake_deposits(),
            r.total_available_unstaked_near == self.total_near.balance,
            r.near_liquidity_pool == self.near_liquidity_pool,
            r.total_account_storage_escrow == self.total_account_storage_escrow,
            r.contract_owner_storage_usage_cost.0 == self@.spec_contract_owner_storage_usage_cost(),
            r.contract_owner_available_balance.0 == self@.spec_owner_available_balance(),
            r.contract_owner_balance == self.contract_owner_balance,
            r.contract_earnings.0 == self@.spec_contract_earnings(account_balance),
            r.contract_owner_earnings.0 == self@.spec_contract_owner_earnings(account_balance),
            r.user_accounts_earnings.0 == self@.spec_user_accounts_earnings(account_balance),
            r.collected_earnings == self.collected_earnings,
            r.contract_required_operational_balance.0 == CONTRACT_MIN_OPERATIONAL_BALANCE,
            r.block_time_height == now,
    {
        ContractBalances {
            total_contract_balance: YoctoNear(account_balance),
            total_contract_storage_usage_cost: self.total_contract_storage_usage_cost(storage_usage),
            total_available_balance: self.total_available_balance(account_balance, storage_usage),
            total_user_accounts_balance: self.total_user_accounts_balance(),
            customer_batched_stake_deposits: self.customer_batched_stake_deposits(),
            total_available_unstaked_near: self.total_near.balance,
            near_liquidity_pool: self.near_liquidity_pool,
            total_account_storage_escrow: self.total_account_storage_escrow,
            contract_owner_storage_usage_cost: self.contract_owner_storage_usage_cost(),
            contract_owner_available_balance: self.owner_available_balance(),
            contract_owner_balance: self.contract_owner_balance,
            contract_earnings: self.contract_earnings(account_balance),
            contract_owner_earnings: self.contract_owner_earnings(account_balance),
            user_accounts_earnings: self.user_accounts_earnings(account_balance),
            collected_earnings: self.collected_earnings,
            contract_required_operational_balance: YoctoNear(CONTRACT_MIN_OPERATIONAL_BALANCE),
            block_time_height: now,
        }
    }
}

} // verus!
