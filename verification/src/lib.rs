//! A time-weighted staking reward ledger.
//!
//! Accounts deposit a scarce asset into a program-controlled escrow and accrue
//! a reward proportional to the amount staked and the time elapsed since the
//! last settlement.  Two variants share the design: a coin variant that keeps
//! a running accumulator of reward points, and a token variant that keeps a
//! reward-debt counter and mints its rewards out immediately.
//!
//! The host execution environment (account loading, signature verification,
//! the wire-level value-transfer primitive, the live clock) is out of scope:
//! every handler takes the clock reading and the balances it touches as plain
//! values, performs its whole effect atomically, and reports every arithmetic
//! or balance violation as an explicit error instead of a wrapped result.

pub mod coin;
pub mod conservation;
pub mod errors;
pub mod escrow;
pub mod math;
pub mod token;
