//! A time-accrual reward ledger: a shared pool accrues a claimable balance
//! for each registered participant at a fixed hourly rate, capped per claim
//! and gated by a minimum claim interval.
//!
//! The core is the accrual/claim state machine: converting elapsed time into
//! an owed amount, validating that amount against a caller-supplied
//! expectation, and mutating pool- and user-level counters atomically.
//! Durable record storage, signing authorities and the actual movement of
//! tokens are external collaborators reached through narrow interfaces
//! (`claim::TokenTransferPort`); the host hands the core plain values and a
//! current timestamp.

pub mod admin;
pub mod calculator;
pub mod claim;
pub mod errors;
pub mod laws;
pub mod state;
