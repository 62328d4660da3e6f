//! Core logic of an authority-controlled reward ledger.
//!
//! An authority initializes a program state holding a spendable balance and a
//! rotating band of available task slots.  Users claim rewards for named
//! activities, gated by authority, task availability, a per-user cooldown and
//! an anti-farming penalty that decays repeated identical claims.  The task
//! slot count is periodically resampled from an externally supplied entropy
//! value.
//!
//! The library performs no input/output: the host passes in the current time
//! and entropy, and executes the returned transfer amount against its ledger.

pub mod activity;
pub mod claim;
pub mod history;
pub mod laws;
pub mod reward;
pub mod state;
pub mod tasks;
