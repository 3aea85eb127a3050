# stake_token

A verified library for a NEAR liquid-staking token. Accounts deposit NEAR, which is gathered
into stake batches and staked with a staking pool; in return they receive STAKE tokens whose
value is pegged to the staked NEAR balance. STAKE is redeemed for NEAR through redeem stake
batches, which are unstaked with the staking pool.

The library is written in Verus: every function in `src/` carries a `requires` / `ensures`
contract over a mathematical model of the contract state (`state::ContractModel`), and Verus
proves that the code meets it, free of overflow and panics.

## Layout

- `src/amounts.rs`, `conversions.rs`, `balance.rs`, `batch.rs`, `stake_token_value.rs`: amounts, timestamped
  balances, batches, receipts, and the STAKE/NEAR conversions with their rounding laws.
- `src/state.rs`, `account.rs`, `account_map.rs`: the contract state, its model and invariant.
- `src/staking.rs`, `claims.rs`, `workflows.rs`: deposits, redemptions, claims on batch
  receipts, and the steps of the staking pool workflows, each taking what the staking pool
  answered and deciding the next state and call.
- `src/account_management.rs`, `account_view.rs`, `fungible_token.rs`, `financials.rs`,
  `operator.rs`, `contract_owner.rs`, `ownership.rs`: registration and storage fees, account
  views, the fungible token operations, the contract's balances and earnings, configuration,
  and who may run the contract.
- `src/data.rs`, `src/data/`: per-staking-pool account records, staking activities, and the
  configuration records with their text-encoded updates.
- `src/checks.rs`: executable tests of the conditions under which the deposits, withdrawals,
  redemptions, transfers and receipt claims are defined, made on a copy of the state.
- `src/wide.rs`: 256-bit products and quotients, computed by `primitive-types`.
- `tests/`: tests run against the compiled library.
- `app/`: the NEAR runtime around the library: it reads the caller, deposits, balances and
  promise results, calls the library, and makes the transfers and staking pool calls that the
  library's answers ask for.
