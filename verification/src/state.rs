//! The configuration of one pool.

use vstd::prelude::*;
use crate::authority::{Address, TransferAuthority};
use crate::curve::BPS_DENOMINATOR;

verus! {

/// The configuration of a pool. It is written once when the pool is created;
/// swaps and withdrawals only read it.
#[derive(Clone, Copy, Debug, PartialEq, Eq)]
pub struct PoolState {
    /// The first of the two tradable asset types.
    pub asset_x: Address,
    /// The second of the two tradable asset types.
    pub asset_y: Address,
    /// The fee retained from every swap input, in basis points.
    pub fee_rate_bps: u16,
    /// While set, every swap is refused.
    pub locked: bool,
    /// The seed from which the pool's identity is derived.
    pub authority_seed: u64,
    /// The nonce that completes the derivation.
    pub authority_bump: u8,
    /// The derived identity that owns the pool's vaults.
    pub derived_authority: Address,
}

impl PoolState {
    /// A configuration is well formed when its fee is at most the whole input.
    pub open spec fn wf(self) -> bool {
        self.fee_rate_bps <= BPS_DENOMINATOR
    }

    /// The authority under which the pool moves its own funds.
    pub open spec fn spec_authority(self) -> TransferAuthority {
        TransferAuthority::Pool {
            identity: self.derived_authority,
            seed: self.authority_seed,
            bump: self.authority_bump,
        }
    }

    /// Tells whether the configuration is well formed.
    pub fn is_well_formed(&self) -> (ok: bool)
        ensures
            ok == self.wf(),
    {
        self.fee_rate_bps <= BPS_DENOMINATOR
    }

    /// Builds the authority under which the pool moves its own funds, from
    /// the stored seed and bump.
    pub fn authority(&self) -> (authority: TransferAuthority)
        ensures
            authority == self.spec_authority(),
    {
        TransferAuthority::Pool {
            identity: self.derived_authority,
            seed: self.authority_seed,
            bump: self.authority_bump,
        }
    }
}

} // verus!
