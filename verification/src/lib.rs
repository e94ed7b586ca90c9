//! An escrow-based token vesting engine.
//!
//! A *stream* holds value deposited by a sender and releases it to a
//! recipient over time: nothing before a cliff timestamp, a fixed tranche at
//! the cliff, then a fixed amount per period, clamped to the total deposit.
//! The library is the accounting core alone: the schedule evaluator and the
//! state transitions for create, withdraw, cancel, recipient transfer and
//! top-up, each a pure function over one stream record, the caller-supplied
//! current time, and plain balances. Moving real value between accounts is
//! the host ledger's job; every operation returns the exact transfer amounts
//! it asks that ledger to perform.

pub mod error;
pub mod fees;
pub mod ops;
pub mod schedule;
pub mod state;
