//! Constant-product curve arithmetic on plain integers.
//!
//! Reserves and amounts are 64-bit; every intermediate is carried in 128 bits,
//! which products and sums of 64-bit values cannot exceed. Divisions truncate.

use vstd::prelude::*;
use crate::errors::AmmError;

verus! {

/// Basis points in one whole: a fee rate of `BPS_DENOMINATOR` retains the entire input.
pub const BPS_DENOMINATOR: u16 = 10_000;

/// Which of the pool's two assets a trader deposits.
#[derive(Clone, Copy, Debug, PartialEq, Eq, Structural)]
pub enum AssetSide {
    X,
    Y,
}

/// The part of `amount_in` that enters the curve once the fee is retained:
/// `amount_in * (10000 - fee_rate_bps) / 10000`, truncated.
pub open spec fn spec_amount_after_fee(amount_in: int, fee_rate_bps: int) -> int {
    amount_in * (10_000 - fee_rate_bps) / 10_000
}

/// The output reserve that the curve keeps after a swap: the old product
/// divided by the input reserve grown by the net input, truncated.
pub open spec fn spec_reserve_out_kept(
    reserve_in: int,
    reserve_out: int,
    fee_rate_bps: int,
    amount_in: int,
) -> int {
    (reserve_in * reserve_out) / (reserve_in + spec_amount_after_fee(amount_in, fee_rate_bps))
}

/// The amount a swap pays out: what the output reserve held minus what the curve keeps.
pub open spec fn spec_swap_output(
    reserve_in: int,
    reserve_out: int,
    fee_rate_bps: int,
    amount_in: int,
) -> int {
    reserve_out - spec_reserve_out_kept(reserve_in, reserve_out, fee_rate_bps, amount_in)
}

/// The slice of `reserve` owed to `shares_burned` out of `share_supply` shares, truncated.
pub open spec fn spec_withdrawal_amount(reserve: int, shares_burned: int, share_supply: int) -> int {
    reserve * shares_burned / share_supply
}

/// Scaling by a fraction of at most one and truncating yields at most the value scaled.
proof fn lemma_scaled_quotient_bounds(a: int, m: int, d: int)
    by (nonlinear_arith)
    requires
        0 <= a,
        0 <= m <= d,
        0 < d,
    ensures
        0 <= (a * m) / d <= a,
{
}

/// The quotient of a product by a divisor no smaller than one factor is at most the other factor.
proof fn lemma_product_quotient_bounds(a: int, b: int, d: int)
    by (nonlinear_arith)
    requires
        0 < a <= d,
        0 <= b,
    ensures
        0 <= (a * b) / d <= b,
{
}

/// Retains the fee from `amount_in` and returns what enters the curve.
pub fn amount_after_fee(amount_in: u64, fee_rate_bps: u16) -> (net: u64)
    requires
        fee_rate_bps <= BPS_DENOMINATOR,
    ensures
        net == spec_amount_after_fee(amount_in as int, fee_rate_bps as int),
        net <= amount_in,
{
    let kept_bps: u16 = BPS_DENOMINATOR - fee_rate_bps;
    proof {
        lemma_scaled_quotient_bounds(amount_in as int, kept_bps as int, 10_000);
        assert(amount_in as int * kept_bps as int <= 0xffff_ffff_ffff_ffff * 10_000)
            by (nonlinear_arith)
            requires
                0 <= amount_in as int <= 0xffff_ffff_ffff_ffff,
                0 <= kept_bps as int <= 10_000,
        ;
    }
    let scaled: u128 = (amount_in as u128) * (kept_bps as u128);
    let net: u128 = scaled / 10_000;
    net as u64
}

/// Computes what a swap of `amount_in` pays out of `reserve_out`.
///
/// `reserve_in` and `reserve_out` are the reserves as they stood before the
/// input was deposited. The fee is retained from the input first; the output
/// is `reserve_out - reserve_in * reserve_out / (reserve_in + net_input)`.
/// `share_supply` and `side` describe the pool and the direction of the
/// trade; neither enters the formula. The swap is refused with
/// `SlippageExceeded` exactly when the output is below `min_amount_out`.
/// Every intermediate fits in 128 bits, so no other refusal occurs.
pub fn compute_swap_output(
    reserve_in: u64,
    reserve_out: u64,
    share_supply: u64,
    fee_rate_bps: u16,
    amount_in: u64,
    min_amount_out: u64,
    side: AssetSide,
) -> (result: Result<u64, AmmError>)
    requires
        amount_in > 0,
        reserve_in > 0,
        reserve_out > 0,
        fee_rate_bps <= BPS_DENOMINATOR,
    ensures
        match result {
            Ok(amount_out) => {
                &&& amount_out == spec_swap_output(
                    reserve_in as int,
                    reserve_out as int,
                    fee_rate_bps as int,
                    amount_in as int,
                )
                &&& min_amount_out <= amount_out <= reserve_out
            },
            Err(e) => {
                &&& e == AmmError::SlippageExceeded
                &&& spec_swap_output(
                    reserve_in as int,
                    reserve_out as int,
                    fee_rate_bps as int,
                    amount_in as int,
                ) < min_amount_out
            },
        },
{
    let net_in: u64 = amount_after_fee(amount_in, fee_rate_bps);
    proof {
        assert(reserve_in as int * reserve_out as int <= 0xffff_ffff_ffff_ffff
            * 0xffff_ffff_ffff_ffff) by (nonlinear_arith)
            requires
                0 <= reserve_in as int <= 0xffff_ffff_ffff_ffff,
                0 <= reserve_out as int <= 0xffff_ffff_ffff_ffff,
        ;
        lemma_product_quotient_bounds(
            reserve_in as int,
            reserve_out as int,
            reserve_in as int + net_in as int,
        );
    }
    let product: u128 = (reserve_in as u128) * (reserve_out as u128);
    let grown_in: u128 = (reserve_in as u128) + (net_in as u128);
    let kept_out: u128 = product / grown_in;
    let amount_out: u64 = ((reserve_out as u128) - kept_out) as u64;
    if amount_out < min_amount_out {
        Err(AmmError::SlippageExceeded)
    } else {
        Ok(amount_out)
    }
}

/// Computes what redeeming `shares_burned` of `share_supply` shares pays out
/// of each reserve: `reserve * shares_burned / share_supply`, truncated.
///
/// `rounding_decimals` is the display precision of the share token; the
/// amounts are exact integer quotients and do not depend on it. No minimum is
/// applied here: the caller holds the amounts against its own bounds.
pub fn compute_withdrawal_amounts(
    reserve_x: u64,
    reserve_y: u64,
    share_supply: u64,
    shares_burned: u64,
    rounding_decimals: u8,
) -> (amounts: (u64, u64))
    requires
        share_supply > 0,
        0 < shares_burned <= share_supply,
    ensures
        amounts.0 == spec_withdrawal_amount(
            reserve_x as int,
            shares_burned as int,
            share_supply as int,
        ),
        amounts.1 == spec_withdrawal_amount(
            reserve_y as int,
            shares_burned as int,
            share_supply as int,
        ),
        amounts.0 <= reserve_x,
        amounts.1 <= reserve_y,
{
    let amount_x: u64 = share_of_reserve(reserve_x, shares_burned, share_supply);
    let amount_y: u64 = share_of_reserve(reserve_y, shares_burned, share_supply);
    (amount_x, amount_y)
}

/// One reserve's slice for `shares_burned` of `share_supply` shares.
fn share_of_reserve(reserve: u64, shares_burned: u64, share_supply: u64) -> (amount: u64)
    requires
        0 < shares_burned <= share_supply,
    ensures
        amount == spec_withdrawal_amount(
            reserve as int,
            shares_burned as int,
            share_supply as int,
        ),
        amount <= reserve,
{
    proof {
        lemma_scaled_quotient_bounds(reserve as int, shares_burned as int, share_supply as int);
        assert(reserve as int * shares_burned as int <= 0xffff_ffff_ffff_ffff
            * 0xffff_ffff_ffff_ffff) by (nonlinear_arith)
            requires
                0 <= reserve as int <= 0xffff_ffff_ffff_ffff,
                0 <= shares_burned as int <= 0xffff_ffff_ffff_ffff,
        ;
    }
    let scaled: u128 = (reserve as u128) * (shares_burned as u128);
    let amount: u128 = scaled / (share_supply as u128);
    amount as u64
}

} // verus!
