//! STAKE token library: the accounting model behind a liquid staking token.
//!
//! NEAR deposits are gathered into batches that are staked with a staking pool; in return
//! accounts are issued STAKE tokens whose value is pegged to the staked NEAR balance. STAKE
//! can be redeemed for NEAR through redeem batches that are unstaked with the staking pool.

pub mod amounts;
pub mod config;
pub mod interface;
pub mod wide;
pub mod stake_token_value;
pub mod balance;
pub mod batch;
pub mod account;
pub mod hash;
pub mod account_map;
pub mod state;
pub mod claims;
pub mod staking;
pub mod workflows;
pub mod financials;
pub mod account_management;
pub mod account_view;
pub mod fungible_token;
pub mod account_registry;
pub mod operator;
pub mod vault;
pub mod mixed_fraction;
pub mod data;
pub mod contract_owner;
pub mod batch_claim_ticket;
pub mod transfer_receiver_mock;
pub mod metadata;
pub mod ownership;
pub mod conversions;
pub mod checks;
