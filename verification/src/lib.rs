//! A verified fungible-token ledger engine.
//!
//! The crate keeps authoritative balances, allowances and an append-only,
//! ring-truncated transaction history for a single token, and settles a
//! cycle auction that redistributes accumulated fees among bidders.
//! Every mutating operation is validated up front, overflow-checked and
//! recorded atomically; the conservation invariant (the sum of all balances
//! equals the recorded total supply) is proved to hold after every operation.

pub mod tokens;

pub mod principal;

pub mod types;

pub mod tx_record;

pub mod table;

pub mod balances;

pub mod allowances;

pub mod ledger;

pub mod state;

pub mod erc20_transactions;

pub mod auction;

pub mod canister;

pub mod factory;

pub mod laws;
