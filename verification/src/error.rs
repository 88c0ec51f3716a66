//! What can go wrong in an operation of the ledger.

use vstd::prelude::*;

verus! {

/// A failure that is no rule of the ledger itself: a bad address, a balance
/// that would leave 128 bits, a missing record.
#[derive(Clone, Copy, Debug, PartialEq, Eq)]
pub enum StdError {
    /// An address string did not pass the host's syntax check.
    InvalidAddress,
    /// No configuration has been stored yet.
    NotFound,
    /// Adding `operand2` to the balance `operand1` would exceed `u128::MAX`.
    Overflow { operand1: u128, operand2: u128 },
}

/// The error of an operation. Every error leaves the state as it was.
#[derive(Clone, Copy, Debug, PartialEq, Eq)]
pub enum ContractError {
    /// A failure that is no rule of the ledger.
    Std(StdError),
    /// A fee percentage above 100, a withdrawal of zero, or a fee whose
    /// computation overflows.
    InvalidParams,
    /// The attached funds are not exactly one entry of the native denomination.
    InvalidTokenTransfer,
    /// The withdrawal exceeds the balance, or the caller has no balance.
    InsufficientFunds,
}

} // verus!
