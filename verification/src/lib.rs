//! Staking rewards for a single token, accrued through a global compounding
//! index.
//!
//! Amounts are unsigned 256-bit integers; the index is one in fixed point with
//! 18 decimals. The operations work on the records and on what the host
//! answered for the call, and report what the bank is to pay out: storage,
//! the clock and the bank themselves stay with the caller.
//!
//! - [`uint256`], [`timestamp`], [`coin`]: the values that the records hold.
//! - [`accrual`]: how the index grows and what a stake earns under it.
//! - [`state`], [`msg`], [`error`]: the records, the calls and the refusals.
//! - [`model`]: each operation as a function on numbers.
//! - [`contract`]: the operations themselves, each tied to its model.
//! - [`invariants`]: what holds over every run of operations.

pub mod accrual;
pub mod coin;
pub mod contract;
pub mod error;
pub mod invariants;
pub mod model;
pub mod msg;
pub mod state;
pub mod timestamp;
pub mod uint256;
