//! Accounting core of a single-asset lending pool.
//!
//! Participants deposit a fungible asset into a shared pool and earn
//! per-epoch interest; they may borrow against their deposit up to a
//! collateralization threshold, repay, and be liquidated when their
//! position falls below that threshold.  All balances and rates are
//! signed fixed-point numbers (`fixed::Fixed`); time is a host-supplied
//! monotone epoch counter passed explicitly into every operation.

pub mod account;
pub mod errors;
pub mod fixed;
pub mod lending;
pub mod pool;
