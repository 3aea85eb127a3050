//! A transfer receiver that simulates the scenarios a fungible token transfer call can run into:
//! it accepts the transfer, refunding a percentage of it and optionally relaying a percentage of it
//! on to another account, or it fails.

use vstd::prelude::*;

verus! {

#[derive(Debug, Clone, Copy, Default)]
pub struct TransferReceiverMock {}

/// relay a percentage of the received amount to an account, to simulate spending it
#[derive(Debug)]
pub struct TransferRelay {
    pub account_id: String,
    pub percent: u8,
}

/// how the receiver is instructed to handle the transfer
#[derive(Debug)]
pub enum Message {
    /// accept the transfer; a refund over 100% simulates an over refund
    Accept { refund_percent: u8, transfer_relay: Option<TransferRelay> },
    /// fail, to simulate a failed receiver
    Panic,
}

/// what receiving the transfer leads to
#[derive(Debug)]
pub enum OnTransferAction {
    /// the call fails
    Panic,
    /// the unused amount handed back right away
    Refund(u128),
    /// `amount` is transferred on to `account_id`; the refund is resolved afterwards at
    /// `refund_percent`
    Relay { account_id: String, amount: u128, refund_percent: u8 },
}

/// `percent` percent of `amount`, rounded down
pub open spec fn percent_of(amount: u128, percent: u8) -> int {
    amount * percent / 100
}

impl TransferReceiverMock {
    pub open spec fn on_transfer_ok(amount: u128, msg: Message) -> bool {
        match msg {
            Message::Accept { refund_percent, transfer_relay } => match transfer_relay {
                Some(relay) => amount * relay.percent <= u128::MAX,
                None => amount * refund_percent <= u128::MAX,
            },
            Message::Panic => true,
        }
    }

    /// receives `amount` tokens and decides, by the message, what happens to them
    pub fn ft_on_transfer(&self, amount: u128, msg: &Message) -> (r: OnTransferAction)
        requires
            Self::on_transfer_ok(amount, *msg),
        ensures
            match *msg {
                Message::Panic => r is Panic,
                Message::Accept { refund_percent, transfer_relay } => match transfer_relay {
                    Some(relay) => r matches OnTransferAction::Relay { account_id, amount: relayed, refund_percent: p } && account_id@
                        == relay.account_id@ && relayed == percent_of(amount, relay.percent) && p == refund_percent,
                    None => r matches OnTransferAction::Refund(refund) && refund == percent_of(amount, refund_percent),
                },
            },
    {
        match msg {
            Message::Panic => OnTransferAction::Panic,
            Message::Accept { refund_percent, transfer_relay } => match transfer_relay {
                Some(relay) => {
                    let transfer_relay_amount = amount * relay.percent as u128 / 100;
                    OnTransferAction::Relay {
                        account_id: relay.account_id.clone(),
                        amount: transfer_relay_amount,
                        refund_percent: *refund_percent,
                    }
                },
                None => OnTransferAction::Refund(amount * *refund_percent as u128 / 100),
            },
        }
    }

    /// the refund once the relayed transfer is done: `refund_percent` percent of the amount
    pub fn resolve_ft_on_transfer(&self, amount: u128, refund_percent: u8) -> (r: u128)
        requires
            amount * refund_percent <= u128::MAX,
        ensures
            r == percent_of(amount, refund_percent),
    {
        amount * refund_percent as u128 / 100
    }
}

} // verus!
