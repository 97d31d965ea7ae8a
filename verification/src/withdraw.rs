//! Redeeming liquidity shares for a proportional slice of both reserves.
//!
//! A withdrawal prices the slice on the live reserves and supply, holds it
//! against the caller's minimums, retires the shares, and pays both assets
//! out of the pool's reserves. It is computed on a snapshot of the accounts
//! involved: either every step is applied to the snapshot and the steps to
//! carry out are returned, or the withdrawal is refused and the snapshot is
//! left as it was. No share is retired when a minimum is not met.

use vstd::prelude::*;
use crate::authority::{Address, TransferAuthority};
use crate::curve::{compute_withdrawal_amounts, spec_withdrawal_amount};
use crate::errors::AmmError;
use crate::ledger::{
    burn,
    spec_burn,
    spec_transfer,
    transfer,
    AccountRole,
    Movement,
    Retirement,
    ShareMint,
    TokenAccount,
};
use crate::state::PoolState;

verus! {

/// The display precision of the liquidity-share token.
pub const SHARE_DECIMALS: u8 = 6;

/// The accounts of one withdrawal: the holder, the pool's configuration, the
/// share supply and the holder's shares, the pool's two reserves and the
/// holder's account of each asset.
#[derive(Clone, Copy, Debug, PartialEq, Eq)]
pub struct Withdraw {
    pub user: Address,
    pub config: PoolState,
    pub mint_lp: ShareMint,
    pub user_lp: TokenAccount,
    pub vault_x: TokenAccount,
    pub vault_y: TokenAccount,
    pub user_x: TokenAccount,
    pub user_y: TokenAccount,
}

/// What an accepted withdrawal paid out, and the steps that carry it out, in order.
#[derive(Clone, Copy, Debug, PartialEq, Eq)]
pub struct WithdrawReceipt {
    pub amount_x: u64,
    pub amount_y: u64,
    pub burn: Retirement,
    pub pay_x: Movement,
    pub pay_y: Movement,
}

impl Withdraw {
    /// The pool's reserve of the chosen asset.
    pub open spec fn vault(self, is_x: bool) -> TokenAccount {
        if is_x {
            self.vault_x
        } else {
            self.vault_y
        }
    }

    /// The holder's account of the chosen asset.
    pub open spec fn holder(self, is_x: bool) -> TokenAccount {
        if is_x {
            self.user_x
        } else {
            self.user_y
        }
    }

    /// These accounts with the holder's account and the reserve of the chosen asset replaced.
    pub open spec fn with_pair(
        self,
        is_x: bool,
        holder: TokenAccount,
        vault: TokenAccount,
    ) -> Withdraw {
        if is_x {
            Withdraw { user_x: holder, vault_x: vault, ..self }
        } else {
            Withdraw { user_y: holder, vault_y: vault, ..self }
        }
    }

    /// The authority under which the holder retires shares.
    pub open spec fn user_authority(self) -> TransferAuthority {
        TransferAuthority::User { owner: self.user }
    }

    /// The share amounts that can be redeemed: positive and at most the supply.
    pub open spec fn redeemable(self, amount: u64) -> bool {
        0 < amount <= self.mint_lp.supply
    }

    /// What redeeming `amount` shares pays out of the reserve of the chosen asset.
    pub open spec fn spec_amount_out(self, is_x: bool, amount: u64) -> int {
        spec_withdrawal_amount(
            self.vault(is_x).amount as int,
            amount as int,
            self.mint_lp.supply as int,
        )
    }

    /// The retirement of `amount` shares from the holder's share account.
    pub open spec fn spec_retirement(self, amount: u64) -> Retirement {
        Retirement {
            source: AccountRole::UserShares,
            authority: self.user_authority(),
            amount,
        }
    }

    /// The movement that pays `amount` of the chosen asset from the pool to the holder.
    pub open spec fn spec_payout(self, is_x: bool, amount: u64) -> Movement {
        Movement {
            source: AccountRole::spec_vault(is_x),
            destination: AccountRole::spec_user(is_x),
            authority: self.config.spec_authority(),
            amount,
        }
    }

    /// The accounts after `amount` shares of the holder have been retired, or the ledger's refusal.
    pub open spec fn spec_burn_lp_tokens(self, amount: u64) -> Result<Withdraw, AmmError> {
        match spec_burn(self.mint_lp, self.user_lp, self.user_authority(), amount) {
            Ok((mint_lp, user_lp)) => Ok(Withdraw { mint_lp, user_lp, ..self }),
            Err(e) => Err(e),
        }
    }

    /// The accounts after the pool has paid `amount` of the chosen asset to the holder, or the ledger's refusal.
    pub open spec fn spec_withdraw_tokens(self, is_x: bool, amount: u64) -> Result<
        Withdraw,
        AmmError,
    > {
        match spec_transfer(
            self.vault(is_x),
            self.holder(is_x),
            self.config.spec_authority(),
            amount,
        ) {
            Ok((vault, holder)) => Ok(self.with_pair(is_x, holder, vault)),
            Err(e) => Err(e),
        }
    }

    /// The accounts after the shares are retired and both assets are paid, or the first refusal.
    pub open spec fn spec_settle(self, amount: u64, amount_x: u64, amount_y: u64) -> Result<
        Withdraw,
        AmmError,
    > {
        match self.spec_burn_lp_tokens(amount) {
            Err(e) => Err(e),
            Ok(burned) => match burned.spec_withdraw_tokens(true, amount_x) {
                Err(e) => Err(e),
                Ok(paid_x) => paid_x.spec_withdraw_tokens(false, amount_y),
            },
        }
    }

    /// The accounts after a withdrawal, or the reason it is refused. The
    /// checks come in this order: the share amount, both minimums, the
    /// retirement, the payment of X, the payment of Y.
    pub open spec fn spec_withdraw(self, amount: u64, min_x: u64, min_y: u64) -> Result<
        Withdraw,
        AmmError,
    > {
        if !self.redeemable(amount) {
            Err(AmmError::InvalidAmount)
        } else if self.spec_amount_out(true, amount) < min_x || self.spec_amount_out(false, amount)
            < min_y {
            Err(AmmError::SlippageExceeded)
        } else {
            self.spec_settle(
                amount,
                self.spec_amount_out(true, amount) as u64,
                self.spec_amount_out(false, amount) as u64,
            )
        }
    }

    /// The receipt of an accepted withdrawal of `amount` shares.
    pub open spec fn spec_receipt(self, amount: u64) -> WithdrawReceipt {
        let amount_x = self.spec_amount_out(true, amount) as u64;
        let amount_y = self.spec_amount_out(false, amount) as u64;
        WithdrawReceipt {
            amount_x,
            amount_y,
            burn: self.spec_retirement(amount),
            pay_x: self.spec_payout(true, amount_x),
            pay_y: self.spec_payout(false, amount_y),
        }
    }

    /// Redeems `amount` liquidity shares for their slice of both reserves,
    /// refusing a slice below `min_x` of asset X or below `min_y` of asset Y.
    ///
    /// On success the accounts hold the balances after the retirement and
    /// both payments, and the receipt lists the steps for the ledger. On
    /// refusal the accounts are unchanged. An amount of zero or above the
    /// outstanding supply is refused with `InvalidAmount`; a slice below a
    /// minimum is refused with `SlippageExceeded` before any share is retired.
    pub fn withdraw(&mut self, amount: u64, min_x: u64, min_y: u64) -> (result: Result<
        WithdrawReceipt,
        AmmError,
    >)
        ensures
            match result {
                Ok(receipt) => {
                    &&& old(self).spec_withdraw(amount, min_x, min_y) == Ok::<Withdraw, AmmError>(
                        *final(self),
                    )
                    &&& receipt == old(self).spec_receipt(amount)
                },
                Err(e) => {
                    &&& old(self).spec_withdraw(amount, min_x, min_y) == Err::<Withdraw, AmmError>(
                        e,
                    )
                    &&& *final(self) == *old(self)
                },
            },
    {
        if amount == 0 || amount > self.mint_lp.supply {
            return Err(AmmError::InvalidAmount);
        }
        let (amount_x, amount_y) = compute_withdrawal_amounts(
            self.vault_x.amount,
            self.vault_y.amount,
            self.mint_lp.supply,
            amount,
            SHARE_DECIMALS,
        );
        if amount_x < min_x || amount_y < min_y {
            return Err(AmmError::SlippageExceeded);
        }
        let mut staged: Withdraw = *self;
        let burn = match staged.burn_lp_tokens(amount) {
            Ok(retirement) => retirement,
            Err(e) => {
                return Err(e);
            },
        };
        let pay_x = match staged.withdraw_tokens(true, amount_x) {
            Ok(movement) => movement,
            Err(e) => {
                return Err(e);
            },
        };
        let pay_y = match staged.withdraw_tokens(false, amount_y) {
            Ok(movement) => movement,
            Err(e) => {
                return Err(e);
            },
        };
        *self = staged;
        Ok(WithdrawReceipt { amount_x, amount_y, burn, pay_x, pay_y })
    }

    /// Moves `amount` of the chosen asset from the pool's reserve to the
    /// holder, under the pool's derived authority, and returns the movement
    /// for the ledger. A refusal by the ledger changes nothing.
    pub fn withdraw_tokens(&mut self, is_x: bool, amount: u64) -> (result: Result<
        Movement,
        AmmError,
    >)
        ensures
            match result {
                Ok(movement) => {
                    &&& old(self).spec_withdraw_tokens(is_x, amount) == Ok::<Withdraw, AmmError>(
                        *final(self),
                    )
                    &&& movement == old(self).spec_payout(is_x, amount)
                },
                Err(e) => {
                    &&& old(self).spec_withdraw_tokens(is_x, amount) == Err::<Withdraw, AmmError>(
                        e,
                    )
                    &&& *final(self) == *old(self)
                },
            },
    {
        let authority = self.config.authority();
        let moved = if is_x {
            transfer(&mut self.vault_x, &mut self.user_x, &authority, amount)
        } else {
            transfer(&mut self.vault_y, &mut self.user_y, &authority, amount)
        };
        match moved {
            Ok(()) => Ok(
                Movement {
                    source: AccountRole::vault(is_x),
                    destination: AccountRole::user(is_x),
                    authority,
                    amount,
                },
            ),
            Err(e) => Err(e),
        }
    }

    /// Retires `amount` of the holder's liquidity shares, under the holder's
    /// own authority, and returns the retirement for the ledger. A refusal
    /// by the ledger changes nothing.
    pub fn burn_lp_tokens(&mut self, amount: u64) -> (result: Result<Retirement, AmmError>)
        ensures
            match result {
                Ok(retirement) => {
                    &&& old(self).spec_burn_lp_tokens(amount) == Ok::<Withdraw, AmmError>(
                        *final(self),
                    )
                    &&& retirement == old(self).spec_retirement(amount)
                },
                Err(e) => {
                    &&& old(self).spec_burn_lp_tokens(amount) == Err::<Withdraw, AmmError>(e)
                    &&& *final(self) == *old(self)
                },
            },
    {
        let authority = TransferAuthority::User { owner: self.user };
        match burn(&mut self.mint_lp, &mut self.user_lp, &authority, amount) {
            Ok(()) => Ok(Retirement { source: AccountRole::UserShares, authority, amount }),
            Err(e) => Err(e),
        }
    }
}

} // verus!
