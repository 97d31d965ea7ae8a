//! What holds of every swap, stated over the accounts before and after it.

use vstd::prelude::*;
use crate::curve_laws::{
    lemma_round_trip_no_gain,
    lemma_round_trip_strict_loss,
    lemma_swap_output_bounded,
    lemma_swap_product_never_decreases,
    spec_fee_cover,
    spec_product_after,
    spec_product_before,
    spec_truncation_remainder,
};
use crate::errors::AmmError;
use crate::swap::Swap;

verus! {

/// Everything that must hold for a swap to be accepted.
pub open spec fn swap_accepted(pre: Swap, is_x: bool, amount: u64, min: u64) -> bool {
    let amount_out = pre.spec_amount_out(is_x, amount);
    &&& amount > 0
    &&& !pre.config.locked
    &&& pre.trader(is_x).amount >= amount
    &&& pre.trader(is_x).owner == pre.user
    &&& pre.vault(is_x).amount + amount <= u64::MAX
    &&& amount_out >= min
    &&& pre.vault(!is_x).owner == pre.config.derived_authority
    &&& pre.trader(!is_x).amount + amount_out <= u64::MAX
}

/// A swap is accepted exactly when the amount is positive, the pool is
/// unlocked, the trader owns and holds the input, the input reserve has room
/// for it, the output meets the minimum, the pool's authority owns the
/// output reserve, and the trader's account has room for the output.
pub proof fn lemma_swap_acceptance(pre: Swap, is_x: bool, amount: u64, min: u64)
    requires
        pre.defined_for(amount),
    ensures
        pre.spec_swap(is_x, amount, min) is Ok <==> swap_accepted(pre, is_x, amount, min),
{
    if amount > 0 && !pre.config.locked {
        lemma_swap_output_bounded(
            pre.vault(is_x).amount as int,
            pre.vault(!is_x).amount as int,
            pre.config.fee_rate_bps as int,
            amount as int,
        );
    }
}

/// An accepted swap moves exactly the input from the trader into the input
/// reserve and exactly the priced output from the output reserve to the
/// trader. The output never exceeds what the output reserve held, and
/// nothing else changes.
pub proof fn lemma_swap_effect(pre: Swap, is_x: bool, amount: u64, min: u64)
    requires
        pre.funded(),
        pre.spec_swap(is_x, amount, min) is Ok,
    ensures
        ({
            let post = pre.spec_swap(is_x, amount, min)->Ok_0;
            let amount_out = pre.spec_amount_out(is_x, amount);
            &&& min <= amount_out <= pre.vault(!is_x).amount
            &&& post.vault(is_x).amount == pre.vault(is_x).amount + amount
            &&& post.vault(!is_x).amount == pre.vault(!is_x).amount - amount_out
            &&& post.trader(is_x).amount == pre.trader(is_x).amount - amount
            &&& post.trader(!is_x).amount == pre.trader(!is_x).amount + amount_out
            &&& post.vault_x.owner == pre.vault_x.owner
            &&& post.vault_y.owner == pre.vault_y.owner
            &&& post.user_x.owner == pre.user_x.owner
            &&& post.user_y.owner == pre.user_y.owner
            &&& post.user == pre.user
            &&& post.config == pre.config
            &&& post.mint_lp == pre.mint_lp
        }),
{
    lemma_swap_output_bounded(
        pre.vault(is_x).amount as int,
        pre.vault(!is_x).amount as int,
        pre.config.fee_rate_bps as int,
        amount as int,
    );
}

/// A swap of nothing is refused for its amount whatever the state of the
/// pool, and a locked pool refuses every positive amount for the lock.
pub proof fn lemma_swap_validation(pre: Swap, is_x: bool, amount: u64, min: u64)
    ensures
        amount == 0 ==> pre.spec_swap(is_x, amount, min) == Err::<Swap, AmmError>(
            AmmError::InvalidAmount,
        ),
        amount > 0 && pre.config.locked ==> pre.spec_swap(is_x, amount, min) == Err::<
            Swap,
            AmmError,
        >(AmmError::PoolLocked),
{
}

/// An accepted swap whose fee cover is at least the truncation remainder
/// leaves a product of the two reserves that is no smaller than before.
pub proof fn lemma_swap_reserve_product(pre: Swap, is_x: bool, amount: u64, min: u64)
    requires
        pre.funded(),
        pre.spec_swap(is_x, amount, min) is Ok,
        spec_fee_cover(
            pre.vault(is_x).amount as int,
            pre.vault(!is_x).amount as int,
            pre.config.fee_rate_bps as int,
            amount as int,
        ) >= spec_truncation_remainder(
            pre.vault(is_x).amount as int,
            pre.vault(!is_x).amount as int,
            pre.config.fee_rate_bps as int,
            amount as int,
        ),
    ensures
        ({
            let post = pre.spec_swap(is_x, amount, min)->Ok_0;
            post.vault_x.amount * post.vault_y.amount >= pre.vault_x.amount * pre.vault_y.amount
        }),
{
    let post = pre.spec_swap(is_x, amount, min)->Ok_0;
    let reserve_in = pre.vault(is_x).amount as int;
    let reserve_out = pre.vault(!is_x).amount as int;
    let fee = pre.config.fee_rate_bps as int;
    lemma_swap_effect(pre, is_x, amount, min);
    lemma_swap_product_never_decreases(reserve_in, reserve_out, fee, amount as int);
    assert(post.vault(is_x).amount * post.vault(!is_x).amount == spec_product_after(
        reserve_in,
        reserve_out,
        fee,
        amount as int,
    ));
    assert(pre.vault(is_x).amount * pre.vault(!is_x).amount == spec_product_before(
        reserve_in,
        reserve_out,
    ));
    lemma_vault_product(pre, is_x);
    lemma_vault_product(post, is_x);
}

/// Swapping an amount one way and the whole proceeds straight back returns
/// no more than the amount, provided the first swap left a reserve product
/// no smaller than it found.
pub proof fn lemma_swap_round_trip(pre: Swap, is_x: bool, amount: u64, min: u64, min_back: u64)
    requires
        pre.funded(),
        pre.spec_swap(is_x, amount, min) is Ok,
        ({
            let mid = pre.spec_swap(is_x, amount, min)->Ok_0;
            &&& mid.funded()
            &&& mid.spec_swap(!is_x, pre.spec_amount_out(is_x, amount) as u64, min_back) is Ok
            &&& mid.vault_x.amount * mid.vault_y.amount >= pre.vault_x.amount * pre.vault_y.amount
        }),
    ensures
        ({
            let mid = pre.spec_swap(is_x, amount, min)->Ok_0;
            mid.spec_amount_out(!is_x, pre.spec_amount_out(is_x, amount) as u64) <= amount
        }),
{
    let mid = pre.spec_swap(is_x, amount, min)->Ok_0;
    let reserve_in = pre.vault(is_x).amount as int;
    let reserve_out = pre.vault(!is_x).amount as int;
    let fee = pre.config.fee_rate_bps as int;
    lemma_swap_effect(pre, is_x, amount, min);
    assert(mid.vault(is_x).amount * mid.vault(!is_x).amount == spec_product_after(
        reserve_in,
        reserve_out,
        fee,
        amount as int,
    ));
    lemma_vault_product(pre, is_x);
    lemma_vault_product(mid, is_x);
    lemma_round_trip_no_gain(reserve_in, reserve_out, fee, amount as int);
}

/// Swapping an amount one way and the whole proceeds straight back returns
/// strictly less than the amount, provided neither swap lowered the product
/// of the reserves and the two together raised it.
pub proof fn lemma_swap_round_trip_strict(
    pre: Swap,
    is_x: bool,
    amount: u64,
    min: u64,
    min_back: u64,
)
    requires
        pre.funded(),
        pre.spec_swap(is_x, amount, min) is Ok,
        ({
            let mid = pre.spec_swap(is_x, amount, min)->Ok_0;
            let back = pre.spec_amount_out(is_x, amount) as u64;
            &&& mid.funded()
            &&& mid.spec_swap(!is_x, back, min_back) is Ok
            &&& ({
                let post = mid.spec_swap(!is_x, back, min_back)->Ok_0;
                let before = pre.vault_x.amount * pre.vault_y.amount;
                let between = mid.vault_x.amount * mid.vault_y.amount;
                let after = post.vault_x.amount * post.vault_y.amount;
                before <= between <= after && before < after
            })
        }),
    ensures
        ({
            let mid = pre.spec_swap(is_x, amount, min)->Ok_0;
            mid.spec_amount_out(!is_x, pre.spec_amount_out(is_x, amount) as u64) < amount
        }),
{
    let mid = pre.spec_swap(is_x, amount, min)->Ok_0;
    let back = pre.spec_amount_out(is_x, amount) as u64;
    let post = mid.spec_swap(!is_x, back, min_back)->Ok_0;
    let reserve_in = pre.vault(is_x).amount as int;
    let reserve_out = pre.vault(!is_x).amount as int;
    let fee = pre.config.fee_rate_bps as int;
    lemma_swap_effect(pre, is_x, amount, min);
    lemma_swap_effect(mid, !is_x, back, min_back);
    lemma_vault_product(pre, is_x);
    lemma_vault_product(mid, is_x);
    lemma_vault_product(post, is_x);
    assert(mid.vault(is_x).amount * mid.vault(!is_x).amount == spec_product_after(
        reserve_in,
        reserve_out,
        fee,
        amount as int,
    ));
    assert(post.vault(is_x).amount * post.vault(!is_x).amount == post.vault(!is_x).amount
        * post.vault(is_x).amount) by (nonlinear_arith);
    assert(post.vault(!is_x).amount * post.vault(is_x).amount == spec_product_after(
        reserve_out - back,
        reserve_in + amount,
        fee,
        back as int,
    ));
    lemma_round_trip_strict_loss(reserve_in, reserve_out, fee, amount as int);
}

/// The product of the two reserves does not depend on which is named first.
proof fn lemma_vault_product(accounts: Swap, is_x: bool)
    ensures
        accounts.vault_x.amount * accounts.vault_y.amount == accounts.vault(is_x).amount
            * accounts.vault(!is_x).amount,
{
    assert(accounts.vault_x.amount * accounts.vault_y.amount == accounts.vault_y.amount
        * accounts.vault_x.amount) by (nonlinear_arith);
}

} // verus!
