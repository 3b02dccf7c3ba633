//! Ledger state for two small facilities: a cumulative borrow/lend counter and
//! a per-beneficiary linear vesting schedule with time-gated withdrawal.
pub mod error;
pub mod ledger;
pub mod vesting;
