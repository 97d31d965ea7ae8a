//! What holds of every withdrawal, stated over the accounts before and after it.

use vstd::prelude::*;
use crate::curve_laws::{
    lemma_full_withdrawal_drains,
    lemma_withdrawal_preserves_share_value,
    lemma_withdrawal_proportional,
};
use crate::withdraw::Withdraw;

verus! {

/// Everything that must hold for a withdrawal to be accepted.
pub open spec fn withdraw_accepted(pre: Withdraw, amount: u64, min_x: u64, min_y: u64) -> bool {
    let amount_x = pre.spec_amount_out(true, amount);
    let amount_y = pre.spec_amount_out(false, amount);
    &&& 0 < amount <= pre.mint_lp.supply
    &&& amount_x >= min_x
    &&& amount_y >= min_y
    &&& pre.user_lp.amount >= amount
    &&& pre.user_lp.owner == pre.user
    &&& pre.vault_x.owner == pre.config.derived_authority
    &&& pre.user_x.amount + amount_x <= u64::MAX
    &&& pre.vault_y.owner == pre.config.derived_authority
    &&& pre.user_y.amount + amount_y <= u64::MAX
}

/// A withdrawal is accepted exactly when the share amount is positive and
/// within the supply, both slices meet their minimums, the holder owns and
/// holds the shares, the pool's authority owns both reserves, and the
/// holder's accounts have room for the slices.
pub proof fn lemma_withdraw_acceptance(pre: Withdraw, amount: u64, min_x: u64, min_y: u64)
    ensures
        pre.spec_withdraw(amount, min_x, min_y) is Ok <==> withdraw_accepted(
            pre,
            amount,
            min_x,
            min_y,
        ),
{
    if pre.redeemable(amount) {
        lemma_withdrawal_proportional(
            pre.vault_x.amount as int,
            amount as int,
            pre.mint_lp.supply as int,
        );
        lemma_withdrawal_proportional(
            pre.vault_y.amount as int,
            amount as int,
            pre.mint_lp.supply as int,
        );
    }
}

/// An accepted withdrawal retires exactly the shares redeemed and moves
/// exactly the priced slice of each reserve to the holder. No slice exceeds
/// its reserve, and nothing else changes.
pub proof fn lemma_withdraw_effect(pre: Withdraw, amount: u64, min_x: u64, min_y: u64)
    requires
        pre.spec_withdraw(amount, min_x, min_y) is Ok,
    ensures
        ({
            let post = pre.spec_withdraw(amount, min_x, min_y)->Ok_0;
            let amount_x = pre.spec_amount_out(true, amount);
            let amount_y = pre.spec_amount_out(false, amount);
            &&& min_x <= amount_x <= pre.vault_x.amount
            &&& min_y <= amount_y <= pre.vault_y.amount
            &&& post.mint_lp.supply == pre.mint_lp.supply - amount
            &&& post.user_lp.amount == pre.user_lp.amount - amount
            &&& post.vault_x.amount == pre.vault_x.amount - amount_x
            &&& post.vault_y.amount == pre.vault_y.amount - amount_y
            &&& post.user_x.amount == pre.user_x.amount + amount_x
            &&& post.user_y.amount == pre.user_y.amount + amount_y
            &&& post.user_lp.owner == pre.user_lp.owner
            &&& post.vault_x.owner == pre.vault_x.owner
            &&& post.vault_y.owner == pre.vault_y.owner
            &&& post.user_x.owner == pre.user_x.owner
            &&& post.user_y.owner == pre.user_y.owner
            &&& post.user == pre.user
            &&& post.config == pre.config
        }),
{
    lemma_withdrawal_proportional(
        pre.vault_x.amount as int,
        amount as int,
        pre.mint_lp.supply as int,
    );
    lemma_withdrawal_proportional(
        pre.vault_y.amount as int,
        amount as int,
        pre.mint_lp.supply as int,
    );
}

/// An accepted withdrawal of the whole supply leaves both reserves and the supply at zero.
pub proof fn lemma_withdraw_all_drains(pre: Withdraw, min_x: u64, min_y: u64)
    requires
        pre.spec_withdraw(pre.mint_lp.supply, min_x, min_y) is Ok,
    ensures
        ({
            let post = pre.spec_withdraw(pre.mint_lp.supply, min_x, min_y)->Ok_0;
            &&& post.vault_x.amount == 0
            &&& post.vault_y.amount == 0
            &&& post.mint_lp.supply == 0
        }),
{
    lemma_withdraw_effect(pre, pre.mint_lp.supply, min_x, min_y);
    lemma_full_withdrawal_drains(pre.vault_x.amount as int, pre.mint_lp.supply as int);
    lemma_full_withdrawal_drains(pre.vault_y.amount as int, pre.mint_lp.supply as int);
}

/// An accepted withdrawal does not lower the reserve behind each share that
/// remains: each reserve left, times the old supply, is at least the old
/// reserve times the supply left, and exceeds it by less than the old supply.
pub proof fn lemma_withdraw_share_value(pre: Withdraw, amount: u64, min_x: u64, min_y: u64)
    requires
        pre.spec_withdraw(amount, min_x, min_y) is Ok,
    ensures
        ({
            let post = pre.spec_withdraw(amount, min_x, min_y)->Ok_0;
            &&& post.vault_x.amount * pre.mint_lp.supply >= pre.vault_x.amount
                * post.mint_lp.supply
            &&& post.vault_x.amount * pre.mint_lp.supply < pre.vault_x.amount
                * post.mint_lp.supply + pre.mint_lp.supply
            &&& post.vault_y.amount * pre.mint_lp.supply >= pre.vault_y.amount
                * post.mint_lp.supply
            &&& post.vault_y.amount * pre.mint_lp.supply < pre.vault_y.amount
                * post.mint_lp.supply + pre.mint_lp.supply
        }),
{
    lemma_withdraw_effect(pre, amount, min_x, min_y);
    lemma_withdrawal_preserves_share_value(
        pre.vault_x.amount as int,
        amount as int,
        pre.mint_lp.supply as int,
    );
    lemma_withdrawal_preserves_share_value(
        pre.vault_y.amount as int,
        amount as int,
        pre.mint_lp.supply as int,
    );
}

} // verus!
