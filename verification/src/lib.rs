//! The economic core of a two-asset constant-product market maker: the curve
//! arithmetic, the pool's transfer authority, and the swap and withdraw
//! operations, each with a machine-checked contract.
//!
//! The operations work on a snapshot of the accounts of one transaction and
//! return the movements of funds to carry out. They perform no transfer
//! themselves: whoever holds the real accounts applies the movements, all of
//! them or none.

pub mod authority;
pub mod curve;
pub mod curve_laws;
pub mod errors;
pub mod ledger;
pub mod state;
pub mod swap;
pub mod swap_laws;
pub mod withdraw;
pub mod withdraw_laws;
