//! What holds of the curve for every pool and every amount.
//!
//! The swap formula truncates the reserve that the curve keeps, so the amount
//! paid out is rounded up by less than one unit. The laws below say exactly
//! how far that rounding can move the reserve product, and when the retained
//! fee outweighs it.

use vstd::prelude::*;
use crate::curve::{
    spec_amount_after_fee,
    spec_reserve_out_kept,
    spec_swap_output,
    spec_withdrawal_amount,
};

verus! {

/// The inputs on which a swap is defined: a funded pool, a positive amount, a fee of at most 100%.
pub open spec fn swap_inputs_valid(
    reserve_in: int,
    reserve_out: int,
    fee_rate_bps: int,
    amount_in: int,
) -> bool {
    &&& reserve_in > 0
    &&& reserve_out > 0
    &&& amount_in > 0
    &&& 0 <= fee_rate_bps <= 10_000
}

/// The reserve product before a swap.
pub open spec fn spec_product_before(reserve_in: int, reserve_out: int) -> int {
    reserve_in * reserve_out
}

/// The reserve product after a swap: the input reserve has grown by the whole
/// input, fee included, and the output reserve has shrunk to what the curve keeps.
pub open spec fn spec_product_after(
    reserve_in: int,
    reserve_out: int,
    fee_rate_bps: int,
    amount_in: int,
) -> int {
    (reserve_in + amount_in) * spec_reserve_out_kept(
        reserve_in,
        reserve_out,
        fee_rate_bps,
        amount_in,
    )
}

/// The part of the input that the pool retains as fee.
pub open spec fn spec_fee_retained(amount_in: int, fee_rate_bps: int) -> int {
    amount_in - spec_amount_after_fee(amount_in, fee_rate_bps)
}

/// The retained fee valued at the output reserve that the curve keeps: what
/// the fee adds to the reserve product.
pub open spec fn spec_fee_cover(
    reserve_in: int,
    reserve_out: int,
    fee_rate_bps: int,
    amount_in: int,
) -> int {
    spec_fee_retained(amount_in, fee_rate_bps) * spec_reserve_out_kept(
        reserve_in,
        reserve_out,
        fee_rate_bps,
        amount_in,
    )
}

/// What truncation dropped when the curve computed the reserve it keeps: what
/// rounding takes from the reserve product.
pub open spec fn spec_truncation_remainder(
    reserve_in: int,
    reserve_out: int,
    fee_rate_bps: int,
    amount_in: int,
) -> int {
    (reserve_in * reserve_out) % (reserve_in + spec_amount_after_fee(amount_in, fee_rate_bps))
}

/// What the second leg of a round trip pays: the output of the first leg is
/// swapped straight back against the reserves that the first leg left.
pub open spec fn spec_round_trip_output(
    reserve_in: int,
    reserve_out: int,
    fee_rate_bps: int,
    amount_in: int,
) -> int {
    let first_out = spec_swap_output(reserve_in, reserve_out, fee_rate_bps, amount_in);
    spec_swap_output(reserve_out - first_out, reserve_in + amount_in, fee_rate_bps, first_out)
}

/// The inputs on which both legs of a round trip are defined: the first swap
/// is valid, pays out a positive amount, and leaves the output reserve funded.
pub open spec fn round_trip_valid(
    reserve_in: int,
    reserve_out: int,
    fee_rate_bps: int,
    amount_in: int,
) -> bool {
    &&& swap_inputs_valid(reserve_in, reserve_out, fee_rate_bps, amount_in)
    &&& 0 < spec_swap_output(reserve_in, reserve_out, fee_rate_bps, amount_in) < reserve_out
}

/// The net input lies between zero and the gross input, equals it at a zero
/// fee, and is strictly smaller at any positive fee.
pub proof fn lemma_fee_bounds(amount_in: int, fee_rate_bps: int)
    by (nonlinear_arith)
    requires
        amount_in >= 0,
        0 <= fee_rate_bps <= 10_000,
    ensures
        0 <= spec_amount_after_fee(amount_in, fee_rate_bps) <= amount_in,
        fee_rate_bps == 0 ==> spec_amount_after_fee(amount_in, fee_rate_bps) == amount_in,
        fee_rate_bps > 0 && amount_in > 0 ==> spec_amount_after_fee(amount_in, fee_rate_bps)
            < amount_in,
{
}

/// A swap never pays out more than the output reserve holds, and never a negative amount.
pub proof fn lemma_swap_output_bounded(
    reserve_in: int,
    reserve_out: int,
    fee_rate_bps: int,
    amount_in: int,
)
    requires
        swap_inputs_valid(reserve_in, reserve_out, fee_rate_bps, amount_in),
    ensures
        0 <= spec_swap_output(reserve_in, reserve_out, fee_rate_bps, amount_in) <= reserve_out,
{
    lemma_fee_bounds(amount_in, fee_rate_bps);
    let net = spec_amount_after_fee(amount_in, fee_rate_bps);
    assert(0 <= (reserve_in * reserve_out) / (reserve_in + net) <= reserve_out)
        by (nonlinear_arith)
        requires
            reserve_in > 0,
            reserve_out > 0,
            net >= 0,
    ;
}

/// Counted with the net input alone, the product after a swap is the product
/// before it less the truncation remainder: never more than before, and short
/// of it by less than the grown input reserve.
pub proof fn lemma_swap_product_with_net_input(
    reserve_in: int,
    reserve_out: int,
    fee_rate_bps: int,
    amount_in: int,
)
    requires
        swap_inputs_valid(reserve_in, reserve_out, fee_rate_bps, amount_in),
    ensures
        ({
            let net = spec_amount_after_fee(amount_in, fee_rate_bps);
            let kept = spec_reserve_out_kept(reserve_in, reserve_out, fee_rate_bps, amount_in);
            let dropped = spec_truncation_remainder(
                reserve_in,
                reserve_out,
                fee_rate_bps,
                amount_in,
            );
            &&& (reserve_in + net) * kept == reserve_in * reserve_out - dropped
            &&& 0 <= dropped < reserve_in + net
        }),
{
    lemma_fee_bounds(amount_in, fee_rate_bps);
    let net = spec_amount_after_fee(amount_in, fee_rate_bps);
    let product = reserve_in * reserve_out;
    let grown = reserve_in + net;
    assert(grown * (product / grown) == product - product % grown && 0 <= product % grown < grown)
        by (nonlinear_arith)
        requires
            grown > 0,
    ;
}

/// The reserve product after a swap is the product before it, plus the fee
/// cover, less the truncation remainder. So a swap leaves the product no
/// smaller than it found it exactly when the fee cover is at least the
/// truncation remainder.
pub proof fn lemma_swap_product_law(
    reserve_in: int,
    reserve_out: int,
    fee_rate_bps: int,
    amount_in: int,
)
    requires
        swap_inputs_valid(reserve_in, reserve_out, fee_rate_bps, amount_in),
    ensures
        spec_product_after(reserve_in, reserve_out, fee_rate_bps, amount_in)
            == spec_product_before(reserve_in, reserve_out) + spec_fee_cover(
            reserve_in,
            reserve_out,
            fee_rate_bps,
            amount_in,
        ) - spec_truncation_remainder(reserve_in, reserve_out, fee_rate_bps, amount_in),
        spec_product_after(reserve_in, reserve_out, fee_rate_bps, amount_in)
            >= spec_product_before(reserve_in, reserve_out) <==> spec_fee_cover(
            reserve_in,
            reserve_out,
            fee_rate_bps,
            amount_in,
        ) >= spec_truncation_remainder(reserve_in, reserve_out, fee_rate_bps, amount_in),
{
    lemma_swap_product_with_net_input(reserve_in, reserve_out, fee_rate_bps, amount_in);
    let net = spec_amount_after_fee(amount_in, fee_rate_bps);
    let kept = spec_reserve_out_kept(reserve_in, reserve_out, fee_rate_bps, amount_in);
    assert((reserve_in + amount_in) * kept == (reserve_in + net) * kept + (amount_in - net) * kept)
        by (nonlinear_arith);
}

/// A swap whose fee cover is at least the truncation remainder does not lower the reserve product.
pub proof fn lemma_swap_product_never_decreases(
    reserve_in: int,
    reserve_out: int,
    fee_rate_bps: int,
    amount_in: int,
)
    requires
        swap_inputs_valid(reserve_in, reserve_out, fee_rate_bps, amount_in),
        spec_fee_cover(reserve_in, reserve_out, fee_rate_bps, amount_in)
            >= spec_truncation_remainder(reserve_in, reserve_out, fee_rate_bps, amount_in),
    ensures
        spec_product_after(reserve_in, reserve_out, fee_rate_bps, amount_in)
            >= spec_product_before(reserve_in, reserve_out),
{
    lemma_swap_product_law(reserve_in, reserve_out, fee_rate_bps, amount_in);
}

/// A swap that retains at least one unit of fee and keeps an output reserve
/// no smaller than the input reserve grown by the net input raises the
/// reserve product.
pub proof fn lemma_swap_product_grows_on_deep_output(
    reserve_in: int,
    reserve_out: int,
    fee_rate_bps: int,
    amount_in: int,
)
    requires
        swap_inputs_valid(reserve_in, reserve_out, fee_rate_bps, amount_in),
        spec_fee_retained(amount_in, fee_rate_bps) >= 1,
        spec_reserve_out_kept(reserve_in, reserve_out, fee_rate_bps, amount_in) >= reserve_in
            + spec_amount_after_fee(amount_in, fee_rate_bps),
    ensures
        spec_product_after(reserve_in, reserve_out, fee_rate_bps, amount_in)
            > spec_product_before(reserve_in, reserve_out),
{
    lemma_swap_product_with_net_input(reserve_in, reserve_out, fee_rate_bps, amount_in);
    lemma_swap_product_law(reserve_in, reserve_out, fee_rate_bps, amount_in);
    let retained = spec_fee_retained(amount_in, fee_rate_bps);
    let kept = spec_reserve_out_kept(reserve_in, reserve_out, fee_rate_bps, amount_in);
    assert(retained * kept >= kept) by (nonlinear_arith)
        requires
            retained >= 1,
            kept >= 0,
    ;
}

/// For a positive divisor, a truncated quotient reaches a bound exactly when
/// the dividend reaches the bound times the divisor.
proof fn lemma_quotient_reaches(dividend: int, divisor: int, bound: int)
    by (nonlinear_arith)
    requires
        divisor > 0,
    ensures
        dividend / divisor >= bound <==> dividend >= bound * divisor,
{
}

/// Write `kept` for the output reserve after the first leg of a round trip
/// and `net_back` for the second leg's input after the fee. The round trip
/// returns at most the amount put in exactly when
/// `amount_in * kept >= reserve_in * net_back`, and strictly less exactly
/// when `(amount_in - 1) * kept >= (reserve_in + 1) * net_back`.
pub proof fn lemma_round_trip_return(
    reserve_in: int,
    reserve_out: int,
    fee_rate_bps: int,
    amount_in: int,
)
    requires
        round_trip_valid(reserve_in, reserve_out, fee_rate_bps, amount_in),
    ensures
        ({
            let first_out = spec_swap_output(reserve_in, reserve_out, fee_rate_bps, amount_in);
            let kept = reserve_out - first_out;
            let net_back = spec_amount_after_fee(first_out, fee_rate_bps);
            let returned = spec_round_trip_output(
                reserve_in,
                reserve_out,
                fee_rate_bps,
                amount_in,
            );
            &&& returned <= amount_in <==> amount_in * kept >= reserve_in * net_back
            &&& returned < amount_in <==> (amount_in - 1) * kept >= (reserve_in + 1) * net_back
        }),
{
    let first_out = spec_swap_output(reserve_in, reserve_out, fee_rate_bps, amount_in);
    let kept = reserve_out - first_out;
    let net_back = spec_amount_after_fee(first_out, fee_rate_bps);
    let grown = reserve_in + amount_in;
    lemma_fee_bounds(first_out, fee_rate_bps);
    lemma_quotient_reaches(kept * grown, kept + net_back, reserve_in);
    lemma_quotient_reaches(kept * grown, kept + net_back, reserve_in + 1);
    assert(kept * grown == reserve_in * kept + amount_in * kept) by (nonlinear_arith)
        requires
            grown == reserve_in + amount_in,
    ;
    assert(reserve_in * (kept + net_back) == reserve_in * kept + reserve_in * net_back)
        by (nonlinear_arith);
    assert((reserve_in + 1) * (kept + net_back) == reserve_in * kept + kept + (reserve_in + 1)
        * net_back) by (nonlinear_arith);
    assert((amount_in - 1) * kept == amount_in * kept - kept) by (nonlinear_arith);
}

/// A round trip whose first leg did not lower the reserve product returns no
/// more than was put in, whatever the fee.
pub proof fn lemma_round_trip_no_gain(
    reserve_in: int,
    reserve_out: int,
    fee_rate_bps: int,
    amount_in: int,
)
    requires
        round_trip_valid(reserve_in, reserve_out, fee_rate_bps, amount_in),
        spec_product_after(reserve_in, reserve_out, fee_rate_bps, amount_in)
            >= spec_product_before(reserve_in, reserve_out),
    ensures
        spec_round_trip_output(reserve_in, reserve_out, fee_rate_bps, amount_in) <= amount_in,
{
    let first_out = spec_swap_output(reserve_in, reserve_out, fee_rate_bps, amount_in);
    let kept = reserve_out - first_out;
    let net_back = spec_amount_after_fee(first_out, fee_rate_bps);
    lemma_round_trip_return(reserve_in, reserve_out, fee_rate_bps, amount_in);
    lemma_fee_bounds(first_out, fee_rate_bps);
    assert((reserve_in + amount_in) * kept == reserve_in * kept + amount_in * kept)
        by (nonlinear_arith);
    assert(reserve_in * reserve_out == reserve_in * kept + reserve_in * first_out)
        by (nonlinear_arith)
        requires
            reserve_out == kept + first_out,
    ;
    assert(reserve_in * net_back <= reserve_in * first_out) by (nonlinear_arith)
        requires
            reserve_in > 0,
            net_back <= first_out,
    ;
}

/// A round trip in which neither leg lowered the reserve product and at least
/// one leg raised it returns strictly less than was put in.
pub proof fn lemma_round_trip_strict_loss(
    reserve_in: int,
    reserve_out: int,
    fee_rate_bps: int,
    amount_in: int,
)
    requires
        round_trip_valid(reserve_in, reserve_out, fee_rate_bps, amount_in),
        ({
            let first_out = spec_swap_output(reserve_in, reserve_out, fee_rate_bps, amount_in);
            let before = spec_product_before(reserve_in, reserve_out);
            let between = spec_product_after(reserve_in, reserve_out, fee_rate_bps, amount_in);
            let after = spec_product_after(
                reserve_out - first_out,
                reserve_in + amount_in,
                fee_rate_bps,
                first_out,
            );
            before <= between <= after && before < after
        }),
    ensures
        spec_round_trip_output(reserve_in, reserve_out, fee_rate_bps, amount_in) < amount_in,
{
    let first_out = spec_swap_output(reserve_in, reserve_out, fee_rate_bps, amount_in);
    let returned = spec_round_trip_output(reserve_in, reserve_out, fee_rate_bps, amount_in);
    let left = reserve_in + amount_in - returned;
    assert(spec_product_after(
        reserve_out - first_out,
        reserve_in + amount_in,
        fee_rate_bps,
        first_out,
    ) == reserve_out * left);
    assert(left > reserve_in) by (nonlinear_arith)
        requires
            reserve_out * left > reserve_in * reserve_out,
            reserve_out > 0,
    ;
}

/// A withdrawal never pays more than a reserve holds, and pays the redeemed
/// fraction of it to within one unit: the amount times the supply is at most
/// the reserve times the shares redeemed, and one unit more would exceed it.
pub proof fn lemma_withdrawal_proportional(reserve: int, shares_burned: int, share_supply: int)
    by (nonlinear_arith)
    requires
        reserve >= 0,
        0 < shares_burned <= share_supply,
    ensures
        0 <= spec_withdrawal_amount(reserve, shares_burned, share_supply) <= reserve,
        spec_withdrawal_amount(reserve, shares_burned, share_supply) * share_supply <= reserve
            * shares_burned,
        reserve * shares_burned < (spec_withdrawal_amount(reserve, shares_burned, share_supply)
            + 1) * share_supply,
{
}

/// A withdrawal does not lower the reserve behind each share that remains:
/// the reserve left, times the old supply, is at least the old reserve times
/// the supply left, and exceeds it by less than the old supply.
pub proof fn lemma_withdrawal_preserves_share_value(
    reserve: int,
    shares_burned: int,
    share_supply: int,
)
    requires
        reserve >= 0,
        0 < shares_burned <= share_supply,
    ensures
        ({
            let left = reserve - spec_withdrawal_amount(reserve, shares_burned, share_supply);
            &&& left * share_supply >= reserve * (share_supply - shares_burned)
            &&& left * share_supply < reserve * (share_supply - shares_burned) + share_supply
        }),
{
    lemma_withdrawal_proportional(reserve, shares_burned, share_supply);
    let amount = spec_withdrawal_amount(reserve, shares_burned, share_supply);
    assert((reserve - amount) * share_supply == reserve * share_supply - amount * share_supply)
        by (nonlinear_arith);
    assert(reserve * (share_supply - shares_burned) == reserve * share_supply - reserve
        * shares_burned) by (nonlinear_arith);
    assert((amount + 1) * share_supply == amount * share_supply + share_supply)
        by (nonlinear_arith);
}

/// Redeeming the whole supply pays out the whole reserve: nothing is left behind.
pub proof fn lemma_full_withdrawal_drains(reserve: int, share_supply: int)
    by (nonlinear_arith)
    requires
        reserve >= 0,
        share_supply > 0,
    ensures
        spec_withdrawal_amount(reserve, share_supply, share_supply) == reserve,
{
}

} // verus!
