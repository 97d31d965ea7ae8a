//! The ways an operation on a pool can be refused.

use vstd::prelude::*;

verus! {

/// Why an operation was refused. Every refusal leaves the pool untouched.
#[derive(Clone, Copy, Debug, PartialEq, Eq, Structural)]
pub enum AmmError {
    /// An amount was zero or outside the range the operation accepts.
    InvalidAmount,
    /// A swap was attempted while the pool is administratively disabled.
    PoolLocked,
    /// The computed amount fell short of the bound the caller set.
    SlippageExceeded,
    /// An account does not hold the amount that was to leave it.
    InsufficientFunds,
    /// A balance would leave the 64-bit range.
    Overflow,
    /// A movement was not authorised by the owner of the account it debits.
    InvalidAuthority,
}

} // verus!
