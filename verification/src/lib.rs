//! A custodial wallet ledger: each user owns exactly one balance-bearing
//! wallet, and value moves between wallets only through atomic, auditable
//! transfers.
//!
//! The heart of the crate is [`store::SmplDB`], a relational model of the
//! entity store (users, wallets, ledger entries) together with the verified
//! operations of the wallet repository, the transfer engine and the query
//! layer. Every mutating operation either applies completely or leaves the
//! store untouched, no committed balance is ever negative, and a completed
//! transfer conserves the sum of the two balances exactly.
//!
//! Balances and amounts are exact fixed-point values held as `u128` minor
//! units; the service shell converts its arbitrary-precision decimals to and
//! from minor units at the boundary.

pub mod auth;
pub mod errors;
pub mod models;
pub mod query;
pub mod service;
pub mod store;
pub mod transfer;
pub mod wallet_ops;
