//! STAKE as a fungible token (NEP-141): transfers between registered accounts, and resolving a
//! transfer call, where the receiver contract may hand back part of the STAKE it was sent.

use crate::account::Account;
use crate::amounts::{BlockTimeHeight, YoctoNear, YoctoStake};
use crate::state::{ContractModel, StakeTokenContract};
use vstd::prelude::*;

verus! {

/// why a transfer was refused
#[derive(Debug, Clone, Copy, PartialEq, Eq, Structural)]
pub enum TransferError {
    /// exactly 1 yoctoNEAR must be attached
    ExactlyOneYoctoNearRequired,
    /// the amount must not be zero
    ZeroAmount,
    SenderNotRegistered,
    ReceiverNotRegistered,
}

/// the unused amount that the receiver contract handed back, capped at the amount transferred:
/// a failed call gives back the whole amount
pub open spec fn spec_unused_amount(transfer_amount: u128, receiver_result: Option<u128>) -> u128 {
    match receiver_result {
        Some(unused) => if unused > transfer_amount { transfer_amount } else { unused },
        None => transfer_amount,
    }
}

/// the refund of a transfer call: up to the unused amount, as far as the receiver's STAKE
/// balance covers it
pub open spec fn spec_refund(receiver: Account, unused_amount: u128) -> u128 {
    match receiver.stake {
        Some(balance) => if balance.balance.0 < unused_amount { balance.balance.0 } else { unused_amount },
        None => 0,
    }
}

impl ContractModel {
    /// the sender with its receipt funds claimed, less the STAKE sent, plus the attached
    /// yoctoNEAR
    pub open spec fn transfer_sender(self, sender: Seq<u8>, amount: u128, now: BlockTimeHeight) -> Account {
        let (m1, claimed, c) = self.spec_claim_receipt_funds(self.accounts[sender], now);
        claimed.spec_stake_debit(amount, now).spec_near_credit(1, now)
    }

    /// a transfer: exactly 1 yoctoNEAR must be attached, the amount must be positive, and both
    /// accounts registered; the sender's receipt funds are claimed, the STAKE moves from the
    /// sender to the receiver, and the attached yoctoNEAR is credited to the sender. The
    /// receiver is read before the sender is saved, and saved last.
    pub open spec fn spec_ft_transfer(
        self,
        sender: Seq<u8>,
        receiver: Seq<u8>,
        attached_deposit: u128,
        amount: u128,
        now: BlockTimeHeight,
    ) -> (ContractModel, Result<(), TransferError>) {
        if attached_deposit != 1 {
            (self, Err(TransferError::ExactlyOneYoctoNearRequired))
        } else if amount == 0 {
            (self, Err(TransferError::ZeroAmount))
        } else if !self.accounts.contains_key(sender) {
            (self, Err(TransferError::SenderNotRegistered))
        } else if !self.accounts.contains_key(receiver) {
            (self, Err(TransferError::ReceiverNotRegistered))
        } else {
            let (m1, claimed, c) = self.spec_claim_receipt_funds(self.accounts[sender], now);
            let receiver_account = self.accounts[receiver].spec_stake_credit(amount, now);
            (
                m1.with_account(sender, self.transfer_sender(sender, amount, now)).with_account(
                    receiver,
                    receiver_account,
                ),
                Ok(()),
            )
        }
    }

    /// the sender's claims are within bounds, the sender owns the STAKE after claiming, and
    /// the balances it moves to fit
    pub open spec fn ft_transfer_ok(self, sender: Seq<u8>, receiver: Seq<u8>, amount: u128, now: BlockTimeHeight) -> bool {
        (self.accounts.contains_key(sender) && self.accounts.contains_key(receiver)) ==> {
            let (m1, claimed, c) = self.spec_claim_receipt_funds(self.accounts[sender], now);
            &&& self.claim_receipt_funds_ok(self.accounts[sender], now)
            &&& amount <= claimed.stake_amount()
            &&& claimed.near_amount() + 1 <= u128::MAX
            &&& self.accounts[receiver].stake_amount() + amount <= u128::MAX
        }
    }

    /// resolving a transfer call refunds the unused amount to the sender, as far as the
    /// receiver's STAKE balance covers it; the receiver is saved first, then the sender
    pub open spec fn spec_ft_resolve_transfer_call(
        self,
        sender: Seq<u8>,
        receiver: Seq<u8>,
        unused_amount: u128,
        now: BlockTimeHeight,
    ) -> (ContractModel, Result<u128, TransferError>) {
        if unused_amount == 0 {
            (self, Ok(0))
        } else if !self.accounts.contains_key(sender) {
            (self, Err(TransferError::SenderNotRegistered))
        } else if !self.accounts.contains_key(receiver) {
            (self, Err(TransferError::ReceiverNotRegistered))
        } else if self.accounts[receiver].stake is None {
            (self, Ok(0))
        } else {
            let refund = spec_refund(self.accounts[receiver], unused_amount);
            (
                self.with_account(receiver, self.accounts[receiver].spec_stake_debit(refund, now)).with_account(
                    sender,
                    self.accounts[sender].spec_stake_credit(refund, now),
                ),
                Ok(refund),
            )
        }
    }

    pub open spec fn ft_resolve_transfer_call_ok(self, sender: Seq<u8>, receiver: Seq<u8>, unused_amount: u128) -> bool {
        (self.accounts.contains_key(sender) && self.accounts.contains_key(receiver)) ==> self.accounts[sender].stake_amount()
            + spec_refund(self.accounts[receiver], unused_amount) <= u128::MAX
    }
}

/// A transfer between two different accounts moves exactly the amount of STAKE: the sender's
/// balance after claiming its receipt funds drops by the amount, the receiver's rises by it, and
/// the STAKE supply is unchanged.
pub proof fn lemma_ft_transfer_moves_amount(
    m: ContractModel,
    sender: Seq<u8>,
    receiver: Seq<u8>,
    amount: u128,
    now: BlockTimeHeight,
)
    requires
        m.accounts.contains_key(sender),
        m.accounts.contains_key(receiver),
        sender != receiver,
        amount > 0,
        m.ft_transfer_ok(sender, receiver, amount, now),
    ensures
        ({
            let (m1, claimed, c) = m.spec_claim_receipt_funds(m.accounts[sender], now);
            let (m2, r) = m.spec_ft_transfer(sender, receiver, 1, amount, now);
            &&& r is Ok
            &&& m2.accounts[sender].stake_amount() == claimed.stake_amount() - amount
            &&& m2.accounts[receiver].stake_amount() == m.accounts[receiver].stake_amount() + amount
            &&& m2.accounts[sender].stake_amount() + m2.accounts[receiver].stake_amount()
                == claimed.stake_amount() + m.accounts[receiver].stake_amount()
            &&& m2.total_stake == m1.total_stake
        }),
{
}

/// A transfer call's refund never exceeds the unused amount nor the receiver's STAKE balance,
/// and moves STAKE from the receiver back to the sender without changing their sum.
pub proof fn lemma_refund_bounded(m: ContractModel, sender: Seq<u8>, receiver: Seq<u8>, unused_amount: u128, now: BlockTimeHeight)
    requires
        m.accounts.contains_key(sender),
        m.accounts.contains_key(receiver),
        sender != receiver,
        m.ft_resolve_transfer_call_ok(sender, receiver, unused_amount),
    ensures
        ({
            let (m2, r) = m.spec_ft_resolve_transfer_call(sender, receiver, unused_amount, now);
            &&& r is Ok
            &&& r.unwrap() <= unused_amount
            &&& r.unwrap() <= m.accounts[receiver].stake_amount()
            &&& m2.accounts[sender].stake_amount() + m2.accounts[receiver].stake_amount()
                == m.accounts[sender].stake_amount() + m.accounts[receiver].stake_amount()
        }),
{
}

impl StakeTokenContract {
    /// transfers STAKE from the sender to the receiver
    pub fn ft_transfer(
        &mut self,
        sender: &crate::hash::Hash,
        receiver: &crate::hash::Hash,
        attached_deposit: u128,
        amount: YoctoStake,
        now: BlockTimeHeight,
    ) -> (r: Result<(), TransferError>)
        requires
            old(self).wf(),
            old(self)@.ft_transfer_ok(sender.key(), receiver.key(), amount.0, now),
        ensures
            final(self).wf(),
            (final(self)@, r) == old(self)@.spec_ft_transfer(sender.key(), receiver.key(), attached_deposit, amount.0, now),
    {
        if attached_deposit != 1 {
            return Err(TransferError::ExactlyOneYoctoNearRequired);
        }
        if amount.0 == 0 {
            return Err(TransferError::ZeroAmount);
        }
        let mut sender_account = match self.accounts.get(sender) {
            Some(account) => account,
            None => return Err(TransferError::SenderNotRegistered),
        };
        let mut receiver_account = match self.accounts.get(receiver) {
            Some(account) => account,
            None => return Err(TransferError::ReceiverNotRegistered),
        };
        self.claim_receipt_funds(&mut sender_account, now);
        sender_account.apply_stake_debit(amount, now);
        // apply the 1 yoctoNEAR that was attached to the sender account's NEAR balance
        sender_account.apply_near_credit(YoctoNear(1), now);
        receiver_account.apply_stake_credit(amount, now);
        self.accounts.insert(sender, sender_account);
        proof {
            assert(self@.accounts.dom() =~= old(self)@.accounts.dom());
        }
        self.accounts.insert(receiver, receiver_account);
        proof {
            assert(self@.accounts.dom() =~= old(self)@.accounts.dom());
        }
        Ok(())
    }

    /// the STAKE supply
    pub fn ft_total_supply(&self) -> (r: YoctoStake)
        ensures
            r == self.total_stake.balance,
    {
        self.total_stake.balance
    }

    /// the account's STAKE balance, counting the STAKE on its stake batch receipts; zero for an
    /// account that is not registered
    pub fn ft_balance_of(&self, key: &crate::hash::Hash, now: BlockTimeHeight) -> (r: YoctoStake)
        requires
            self.wf(),
            self@.accounts.contains_key(key.key())
                ==> self@.apply_receipt_funds_for_view_ok(self@.accounts[key.key()], now),
        ensures
            r.0 == (if self@.accounts.contains_key(key.key()) {
                self@.spec_apply_receipt_funds_for_view(self@.accounts[key.key()], now).stake_amount()
            } else {
                0
            }),
    {
        match self.accounts.get(key) {
            Some(account) => {
                let account = self.apply_receipt_funds_for_view(&account, now);
                match account.stake {
                    Some(balance) => balance.balance,
                    None => YoctoStake(0),
                }
            },
            None => YoctoStake(0),
        }
    }

    /// the gas that `ft_resolve_transfer_call` is given
    pub fn resolve_transfer_gas(&self) -> (r: u64)
        ensures
            r == self.config.gas_config.callbacks.resolve_transfer_gas.0,
    {
        self.config.gas_config.callbacks.resolve_transfer_gas.0
    }

    /// the rest of the prepaid gas, which is passed on to the receiver contract: what remains
    /// after the gas used, the resolve callback's gas, two function call promises and one data
    /// dependency
    pub fn ft_on_transfer_gas(&self, prepaid_gas: u64, used_gas: u64) -> (r: u64)
        requires
            used_gas + self.config.gas_config.callbacks.resolve_transfer_gas.0
                + 2 * self.config.gas_config.function_call_promise.0
                + self.config.gas_config.function_call_promise_data_dependency.0 <= prepaid_gas,
        ensures
            r == prepaid_gas - used_gas - self.config.gas_config.callbacks.resolve_transfer_gas.0
                - 2 * self.config.gas_config.function_call_promise.0
                - self.config.gas_config.function_call_promise_data_dependency.0,
    {
        prepaid_gas - used_gas - self.resolve_transfer_gas()
            // ft_on_transfer
            - self.config.gas_config.function_call_promise.0
            // ft_resolve_transfer_call
            - self.config.gas_config.function_call_promise.0
            // ft_resolve_transfer_call data dependency
            - self.config.gas_config.function_call_promise_data_dependency.0
    }

    /// the unused amount, from what the receiver contract's `ft_on_transfer` returned (`None`
    /// when the call failed): a failed call, or an unused amount above the amount transferred,
    /// gives back the whole amount
    pub fn transfer_call_receiver_unused_amount(transfer_amount: YoctoStake, receiver_result: Option<YoctoStake>) -> (r:
        YoctoStake)
        ensures
            r.0 == spec_unused_amount(transfer_amount.0, match receiver_result {
                Some(unused) => Some(unused.0),
                None => None,
            }),
    {
        let unused_amount = match receiver_result {
            Some(unused) => unused,
            None => transfer_amount,
        };
        if unused_amount.0 > transfer_amount.0 {
            transfer_amount
        } else {
            unused_amount
        }
    }

    /// resolves a transfer call after the receiver contract answered: refunds the sender the
    /// unused amount, as far as the receiver's STAKE balance covers it; returns the refund
    pub fn ft_resolve_transfer_call(
        &mut self,
        sender: &crate::hash::Hash,
        receiver: &crate::hash::Hash,
        amount: YoctoStake,
        receiver_result: Option<YoctoStake>,
        now: BlockTimeHeight,
    ) -> (r: Result<YoctoStake, TransferError>)
        requires
            old(self).wf(),
            old(self)@.ft_resolve_transfer_call_ok(
                sender.key(),
                receiver.key(),
                spec_unused_amount(amount.0, match receiver_result {
                    Some(unused) => Some(unused.0),
                    None => None,
                }),
            ),
        ensures
            final(self).wf(),
            ({
                let unused = spec_unused_amount(amount.0, match receiver_result {
                    Some(unused) => Some(unused.0),
                    None => None,
                });
                let (m, result) = old(self)@.spec_ft_resolve_transfer_call(sender.key(), receiver.key(), unused, now);
                &&& final(self)@ == m
                &&& match result {
                    Ok(refund) => r == Ok::<YoctoStake, TransferError>(YoctoStake(refund)),
                    Err(e) => r == Err::<YoctoStake, TransferError>(e),
                }
            }),
    {
        let unused_amount = Self::transfer_call_receiver_unused_amount(amount, receiver_result);
        if unused_amount.0 == 0 {
            return Ok(unused_amount);
        }
        let mut sender_account = match self.accounts.get(sender) {
            Some(account) => account,
            None => return Err(TransferError::SenderNotRegistered),
        };
        let mut receiver_account = match self.accounts.get(receiver) {
            Some(account) => account,
            None => return Err(TransferError::ReceiverNotRegistered),
        };
        match receiver_account.stake {
            Some(balance) => {
                let refund_amount = if balance.balance.0 < unused_amount.0 {
                    // partial amount is refunded because the receiver STAKE balance is
                    // insufficient
                    balance.balance
                } else {
                    unused_amount
                };
                receiver_account.apply_stake_debit(refund_amount, now);
                sender_account.apply_stake_credit(refund_amount, now);
                self.accounts.insert(receiver, receiver_account);
                proof {
                    assert(self@.accounts.dom() =~= old(self)@.accounts.dom());
                }
                self.accounts.insert(sender, sender_account);
                proof {
                    assert(self@.accounts.dom() =~= old(self)@.accounts.dom());
                }
                Ok(refund_amount)
            },
            // refund is not possible because the receiver STAKE balance is zero
            None => Ok(YoctoStake(0)),
        }
    }
}

} // verus!
