//! A ledger that splits a deposit between two addresses after taking a fee,
//! and lets every address withdraw what it has accrued.

pub mod contract;
pub mod error;
pub mod laws;
pub mod math;
pub mod msg;
pub mod state;
