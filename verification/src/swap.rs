//! Swapping one of the pool's assets for the other.
//!
//! A swap validates its input, pulls the input from the trader into the
//! pool's reserve, prices the output on the reserves as they stood before the
//! pull, and pushes the output from the other reserve to the trader. It is
//! computed on a snapshot of the accounts involved: either every step is
//! applied to the snapshot and the movements to carry out are returned, or
//! the swap is refused and the snapshot is left as it was.

use vstd::prelude::*;
use crate::authority::{Address, TransferAuthority};
use crate::curve::{compute_swap_output, spec_swap_output, AssetSide};
use crate::errors::AmmError;
use crate::ledger::{spec_transfer, transfer, AccountRole, Movement, ShareMint, TokenAccount};
use crate::state::PoolState;

verus! {

/// The accounts of one swap: the trader, the pool's configuration, the share
/// supply, the pool's two reserves and the trader's account of each asset.
#[derive(Clone, Copy, Debug, PartialEq, Eq)]
pub struct Swap {
    pub user: Address,
    pub config: PoolState,
    pub mint_lp: ShareMint,
    pub vault_x: TokenAccount,
    pub vault_y: TokenAccount,
    pub user_x: TokenAccount,
    pub user_y: TokenAccount,
}

/// What an accepted swap paid out, and the two movements that carry it out, in order.
#[derive(Clone, Copy, Debug, PartialEq, Eq)]
pub struct SwapReceipt {
    pub amount_out: u64,
    pub pull: Movement,
    pub push: Movement,
}

impl Swap {
    /// The pool's reserve of the chosen asset.
    pub open spec fn vault(self, is_x: bool) -> TokenAccount {
        if is_x {
            self.vault_x
        } else {
            self.vault_y
        }
    }

    /// The trader's account of the chosen asset.
    pub open spec fn trader(self, is_x: bool) -> TokenAccount {
        if is_x {
            self.user_x
        } else {
            self.user_y
        }
    }

    /// These accounts with the trader's account and the reserve of the chosen asset replaced.
    pub open spec fn with_pair(self, is_x: bool, trader: TokenAccount, vault: TokenAccount) -> Swap {
        if is_x {
            Swap { user_x: trader, vault_x: vault, ..self }
        } else {
            Swap { user_y: trader, vault_y: vault, ..self }
        }
    }

    /// The authority under which the trader moves funds.
    pub open spec fn user_authority(self) -> TransferAuthority {
        TransferAuthority::User { owner: self.user }
    }

    /// A swap can be priced when the configuration is well formed and both reserves hold funds.
    pub open spec fn funded(self) -> bool {
        &&& self.config.wf()
        &&& self.vault_x.amount > 0
        &&& self.vault_y.amount > 0
    }

    /// The swaps that have an outcome: those that validation refuses, and
    /// every swap on accounts that can be priced.
    pub open spec fn defined_for(self, amount: u64) -> bool {
        amount > 0 && !self.config.locked ==> self.funded()
    }

    /// The movement that pulls `amount` of the chosen asset from the trader into the pool.
    pub open spec fn spec_pull(self, is_x: bool, amount: u64) -> Movement {
        Movement {
            source: AccountRole::spec_user(is_x),
            destination: AccountRole::spec_vault(is_x),
            authority: self.user_authority(),
            amount,
        }
    }

    /// The movement that pushes `amount` of the chosen asset from the pool to the trader.
    pub open spec fn spec_push(self, is_x: bool, amount: u64) -> Movement {
        Movement {
            source: AccountRole::spec_vault(is_x),
            destination: AccountRole::spec_user(is_x),
            authority: self.config.spec_authority(),
            amount,
        }
    }

    /// The accounts after the trader's deposit of `amount` of the chosen asset, or the ledger's refusal.
    pub open spec fn spec_deposit_tokens(self, is_x: bool, amount: u64) -> Result<Swap, AmmError> {
        match spec_transfer(self.trader(is_x), self.vault(is_x), self.user_authority(), amount) {
            Ok((trader, vault)) => Ok(self.with_pair(is_x, trader, vault)),
            Err(e) => Err(e),
        }
    }

    /// The accounts after the pool has paid `amount` of the chosen asset to the trader, or the ledger's refusal.
    pub open spec fn spec_withdraw_tokens(self, is_x: bool, amount: u64) -> Result<Swap, AmmError> {
        match spec_transfer(
            self.vault(is_x),
            self.trader(is_x),
            self.config.spec_authority(),
            amount,
        ) {
            Ok((vault, trader)) => Ok(self.with_pair(is_x, trader, vault)),
            Err(e) => Err(e),
        }
    }

    /// What a swap of `amount` of the chosen asset pays out of the other
    /// reserve, priced on the reserves as they stand in these accounts.
    pub open spec fn spec_amount_out(self, is_x: bool, amount: u64) -> int {
        spec_swap_output(
            self.vault(is_x).amount as int,
            self.vault(!is_x).amount as int,
            self.config.fee_rate_bps as int,
            amount as int,
        )
    }

    /// The accounts after a swap, or the reason it is refused. The checks
    /// come in this order: the amount, the lock, the pull, the slippage
    /// bound, the push.
    pub open spec fn spec_swap(self, is_x: bool, amount: u64, min: u64) -> Result<Swap, AmmError> {
        if amount == 0 {
            Err(AmmError::InvalidAmount)
        } else if self.config.locked {
            Err(AmmError::PoolLocked)
        } else {
            match self.spec_deposit_tokens(is_x, amount) {
                Err(e) => Err(e),
                Ok(pulled) => if self.spec_amount_out(is_x, amount) < min {
                    Err(AmmError::SlippageExceeded)
                } else {
                    pulled.spec_withdraw_tokens(!is_x, self.spec_amount_out(is_x, amount) as u64)
                },
            }
        }
    }

    /// The receipt of an accepted swap of `amount` of the chosen asset.
    pub open spec fn spec_receipt(self, is_x: bool, amount: u64) -> SwapReceipt {
        let amount_out = self.spec_amount_out(is_x, amount) as u64;
        SwapReceipt {
            amount_out,
            pull: self.spec_pull(is_x, amount),
            push: self.spec_push(!is_x, amount_out),
        }
    }

    /// Tells whether a swap can be priced on these accounts.
    pub fn is_funded(&self) -> (ok: bool)
        ensures
            ok == self.funded(),
    {
        self.config.is_well_formed() && self.vault_x.amount > 0 && self.vault_y.amount > 0
    }

    /// Tells whether a swap of `amount` has an outcome on these accounts.
    pub fn is_defined_for(&self, amount: u64) -> (ok: bool)
        ensures
            ok == self.defined_for(amount),
    {
        amount == 0 || self.config.locked || self.is_funded()
    }

    /// Swaps `amount` of asset X (`is_x`) or of asset Y for the other asset,
    /// refusing an output below `min`.
    ///
    /// On success the accounts hold the balances after both movements and
    /// the receipt lists the movements for the ledger. On refusal the
    /// accounts are unchanged. A zero amount is refused with `InvalidAmount`
    /// before anything else is looked at, and a locked pool refuses every
    /// positive amount with `PoolLocked`. A swap that passes validation
    /// needs accounts that can be priced.
    pub fn swap(&mut self, is_x: bool, amount: u64, min: u64) -> (result: Result<
        SwapReceipt,
        AmmError,
    >)
        requires
            old(self).defined_for(amount),
        ensures
            match result {
                Ok(receipt) => {
                    &&& old(self).spec_swap(is_x, amount, min) == Ok::<Swap, AmmError>(*final(self))
                    &&& receipt == old(self).spec_receipt(is_x, amount)
                },
                Err(e) => {
                    &&& old(self).spec_swap(is_x, amount, min) == Err::<Swap, AmmError>(e)
                    &&& *final(self) == *old(self)
                },
            },
            amount == 0 ==> result == Err::<SwapReceipt, AmmError>(AmmError::InvalidAmount),
            amount > 0 && old(self).config.locked ==> result == Err::<SwapReceipt, AmmError>(
                AmmError::PoolLocked,
            ),
    {
        if amount == 0 {
            return Err(AmmError::InvalidAmount);
        }
        if self.config.locked {
            return Err(AmmError::PoolLocked);
        }
        let (reserve_in, reserve_out, side) = if is_x {
            (self.vault_x.amount, self.vault_y.amount, AssetSide::X)
        } else {
            (self.vault_y.amount, self.vault_x.amount, AssetSide::Y)
        };
        let mut staged: Swap = *self;
        let pull = match staged.deposit_tokens(is_x, amount) {
            Ok(movement) => movement,
            Err(e) => {
                return Err(e);
            },
        };
        let amount_out = match compute_swap_output(
            reserve_in,
            reserve_out,
            self.mint_lp.supply,
            self.config.fee_rate_bps,
            amount,
            min,
            side,
        ) {
            Ok(amount_out) => amount_out,
            Err(e) => {
                return Err(e);
            },
        };
        let push = match staged.withdraw_tokens(!is_x, amount_out) {
            Ok(movement) => movement,
            Err(e) => {
                return Err(e);
            },
        };
        *self = staged;
        Ok(SwapReceipt { amount_out, pull, push })
    }

    /// Moves `amount` of the chosen asset from the trader to the pool's
    /// reserve, under the trader's own authority, and returns the movement
    /// for the ledger. A refusal by the ledger changes nothing.
    pub fn deposit_tokens(&mut self, is_x: bool, amount: u64) -> (result: Result<
        Movement,
        AmmError,
    >)
        ensures
            match result {
                Ok(movement) => {
                    &&& old(self).spec_deposit_tokens(is_x, amount) == Ok::<Swap, AmmError>(
                        *final(self),
                    )
                    &&& movement == old(self).spec_pull(is_x, amount)
                },
                Err(e) => {
                    &&& old(self).spec_deposit_tokens(is_x, amount) == Err::<Swap, AmmError>(e)
                    &&& *final(self) == *old(self)
                },
            },
    {
        let authority = TransferAuthority::User { owner: self.user };
        let moved = if is_x {
            transfer(&mut self.user_x, &mut self.vault_x, &authority, amount)
        } else {
            transfer(&mut self.user_y, &mut self.vault_y, &authority, amount)
        };
        match moved {
            Ok(()) => Ok(
                Movement {
                    source: AccountRole::user(is_x),
                    destination: AccountRole::vault(is_x),
                    authority,
                    amount,
                },
            ),
            Err(e) => Err(e),
        }
    }

    /// Moves `amount` of the chosen asset from the pool's reserve to the
    /// trader, under the pool's derived authority, and returns the movement
    /// for the ledger. A refusal by the ledger changes nothing.
    pub fn withdraw_tokens(&mut self, is_x: bool, amount: u64) -> (result: Result<
        Movement,
        AmmError,
    >)
        ensures
            match result {
                Ok(movement) => {
                    &&& old(self).spec_withdraw_tokens(is_x, amount) == Ok::<Swap, AmmError>(
                        *final(self),
                    )
                    &&& movement == old(self).spec_push(is_x, amount)
                },
                Err(e) => {
                    &&& old(self).spec_withdraw_tokens(is_x, amount) == Err::<Swap, AmmError>(e)
                    &&& *final(self) == *old(self)
                },
            },
    {
        let authority = self.config.authority();
        let moved = if is_x {
            transfer(&mut self.vault_x, &mut self.user_x, &authority, amount)
        } else {
            transfer(&mut self.vault_y, &mut self.user_y, &authority, amount)
        };
        match moved {
            Ok(()) => Ok(
                Movement {
                    source: AccountRole::vault(is_x),
                    destination: AccountRole::user(is_x),
                    authority,
                    amount,
                },
            ),
            Err(e) => Err(e),
        }
    }
}

} // verus!
