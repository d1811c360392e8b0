//! Oracle-aware margin risk and execution engine.
//!
//! The crate holds the decisions of a leveraged yield-farming loop: the
//! normalisation of oracle prices into 80.48 fixed-point numbers, the store
//! of the latest price per oracle, the valuation of a margin account against
//! its banks, and the retry policy of the transaction pipeline. Everything in
//! it works on plain values, so that it can be called from any runtime.
pub mod account;
pub mod address;
pub mod addresses;
pub mod args;
pub mod bank;
pub mod bot;
pub mod connection;
pub mod constants;
pub mod decimal;
pub mod error;
pub mod fixed_lemmas;
pub mod fixed_point;
pub mod instructions;
pub mod keyed;
pub mod oracle;
pub mod oracle_cache;
pub mod signing;
pub mod swap;
pub mod token_balance;
pub mod transaction;
