//! Accounting core for staking-style liquidity pools.
//!
//! Users deposit an asset into a pool, accrue a time-based yield and later
//! withdraw their principal or claim the accrued reward. This crate holds the
//! rules of that bookkeeping: the pool registry, the pool and deposit ledgers,
//! the reward arithmetic and the decoding of operation payloads. Every
//! function is verified against the contract written above its body.
//!
//! Moving the asset, reading the clock and persisting records are left to the
//! caller: operations take the current time and the outcome of the transfer
//! as plain values.

pub mod accrual;
pub mod books;
pub mod deposit;
pub mod dispatch;
pub mod error;
pub mod identity;
pub mod laws;
pub mod operations;
pub mod ledger;
pub mod policy;
pub mod pool;
pub mod registry;
pub mod search;
pub mod wire;
