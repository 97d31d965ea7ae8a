//! Balances as the asset ledger keeps them, and the two primitives that
//! change them: moving an amount between two accounts and retiring shares.
//!
//! Both primitives check funds first, then the authority, then the range of
//! the balance that grows, and change nothing when they refuse.

use vstd::prelude::*;
use crate::authority::{Address, TransferAuthority};
use crate::errors::AmmError;

verus! {

/// The balance of one account and the identity that may debit it.
#[derive(Clone, Copy, Debug, PartialEq, Eq)]
pub struct TokenAccount {
    pub owner: Address,
    pub amount: u64,
}

/// The outstanding supply of the pool's liquidity shares.
#[derive(Clone, Copy, Debug, PartialEq, Eq)]
pub struct ShareMint {
    pub supply: u64,
}

/// The accounts that an operation on a pool touches.
#[derive(Clone, Copy, Debug, PartialEq, Eq, Structural)]
pub enum AccountRole {
    /// The trader's account of asset X.
    UserX,
    /// The trader's account of asset Y.
    UserY,
    /// The trader's account of liquidity shares.
    UserShares,
    /// The pool's reserve of asset X.
    VaultX,
    /// The pool's reserve of asset Y.
    VaultY,
}

impl AccountRole {
    /// The trader's account of the chosen asset.
    pub open spec fn spec_user(is_x: bool) -> AccountRole {
        if is_x {
            AccountRole::UserX
        } else {
            AccountRole::UserY
        }
    }

    /// The pool's reserve of the chosen asset.
    pub open spec fn spec_vault(is_x: bool) -> AccountRole {
        if is_x {
            AccountRole::VaultX
        } else {
            AccountRole::VaultY
        }
    }

    /// Returns the trader's account of the chosen asset.
    pub fn user(is_x: bool) -> (role: AccountRole)
        ensures
            role == AccountRole::spec_user(is_x),
    {
        if is_x {
            AccountRole::UserX
        } else {
            AccountRole::UserY
        }
    }

    /// Returns the pool's reserve of the chosen asset.
    pub fn vault(is_x: bool) -> (role: AccountRole)
        ensures
            role == AccountRole::spec_vault(is_x),
    {
        if is_x {
            AccountRole::VaultX
        } else {
            AccountRole::VaultY
        }
    }
}

/// One movement of funds for the ledger to carry out.
#[derive(Clone, Copy, Debug, PartialEq, Eq)]
pub struct Movement {
    pub source: AccountRole,
    pub destination: AccountRole,
    pub authority: TransferAuthority,
    pub amount: u64,
}

/// One retirement of liquidity shares for the ledger to carry out.
#[derive(Clone, Copy, Debug, PartialEq, Eq)]
pub struct Retirement {
    pub source: AccountRole,
    pub authority: TransferAuthority,
    pub amount: u64,
}

/// `account` with its balance replaced.
pub open spec fn with_amount(account: TokenAccount, amount: int) -> TokenAccount {
    TokenAccount { owner: account.owner, amount: amount as u64 }
}

/// Why the ledger refuses to move `amount` from `source` to `destination`
/// under `authority`, or `None` when it accepts.
pub open spec fn spec_transfer_refusal(
    source: TokenAccount,
    destination: TokenAccount,
    authority: TransferAuthority,
    amount: u64,
) -> Option<AmmError> {
    if source.amount < amount {
        Some(AmmError::InsufficientFunds)
    } else if authority.identity() != source.owner {
        Some(AmmError::InvalidAuthority)
    } else if destination.amount + amount > u64::MAX {
        Some(AmmError::Overflow)
    } else {
        None
    }
}

/// The two accounts after the ledger has tried to move `amount`: debited and
/// credited when it accepts, unchanged when it refuses.
pub open spec fn spec_transfer(
    source: TokenAccount,
    destination: TokenAccount,
    authority: TransferAuthority,
    amount: u64,
) -> Result<(TokenAccount, TokenAccount), AmmError> {
    match spec_transfer_refusal(source, destination, authority, amount) {
        Some(e) => Err(e),
        None => Ok(
            (
                with_amount(source, source.amount - amount),
                with_amount(destination, destination.amount + amount),
            ),
        ),
    }
}

/// Why the ledger refuses to retire `amount` shares held in `source`, or
/// `None` when it accepts.
pub open spec fn spec_burn_refusal(
    mint: ShareMint,
    source: TokenAccount,
    authority: TransferAuthority,
    amount: u64,
) -> Option<AmmError> {
    if source.amount < amount {
        Some(AmmError::InsufficientFunds)
    } else if authority.identity() != source.owner {
        Some(AmmError::InvalidAuthority)
    } else if mint.supply < amount {
        Some(AmmError::Overflow)
    } else {
        None
    }
}

/// The supply and the holder's account after the ledger has tried to retire `amount` shares.
pub open spec fn spec_burn(
    mint: ShareMint,
    source: TokenAccount,
    authority: TransferAuthority,
    amount: u64,
) -> Result<(ShareMint, TokenAccount), AmmError> {
    match spec_burn_refusal(mint, source, authority, amount) {
        Some(e) => Err(e),
        None => Ok(
            (
                ShareMint { supply: (mint.supply - amount) as u64 },
                with_amount(source, source.amount - amount),
            ),
        ),
    }
}

/// Moves `amount` from `source` to `destination` under `authority`.
///
/// Refused with `InsufficientFunds` when `source` holds less than `amount`,
/// else with `InvalidAuthority` when `authority` does not sign for the owner
/// of `source`, else with `Overflow` when `destination` would exceed the
/// 64-bit range. A refusal changes neither account.
pub fn transfer(
    source: &mut TokenAccount,
    destination: &mut TokenAccount,
    authority: &TransferAuthority,
    amount: u64,
) -> (result: Result<(), AmmError>)
    ensures
        match result {
            Ok(()) => spec_transfer(*old(source), *old(destination), *authority, amount) == Ok::<
                (TokenAccount, TokenAccount),
                AmmError,
            >((*final(source), *final(destination))),
            Err(e) => {
                &&& spec_transfer(*old(source), *old(destination), *authority, amount) == Err::<
                    (TokenAccount, TokenAccount),
                    AmmError,
                >(e)
                &&& *final(source) == *old(source)
                &&& *final(destination) == *old(destination)
            },
        },
{
    if source.amount < amount {
        return Err(AmmError::InsufficientFunds);
    }
    if !authority.authorizes(&source.owner) {
        return Err(AmmError::InvalidAuthority);
    }
    if amount > u64::MAX - destination.amount {
        return Err(AmmError::Overflow);
    }
    source.amount = source.amount - amount;
    destination.amount = destination.amount + amount;
    Ok(())
}

/// Retires `amount` shares held in `source` under `authority`.
///
/// Refused with `InsufficientFunds` when `source` holds less than `amount`,
/// else with `InvalidAuthority` when `authority` does not sign for the owner
/// of `source`, else with `Overflow` when the supply is smaller than
/// `amount`. A refusal changes neither the supply nor the account.
pub fn burn(
    mint: &mut ShareMint,
    source: &mut TokenAccount,
    authority: &TransferAuthority,
    amount: u64,
) -> (result: Result<(), AmmError>)
    ensures
        match result {
            Ok(()) => spec_burn(*old(mint), *old(source), *authority, amount) == Ok::<
                (ShareMint, TokenAccount),
                AmmError,
            >((*final(mint), *final(source))),
            Err(e) => {
                &&& spec_burn(*old(mint), *old(source), *authority, amount) == Err::<
                    (ShareMint, TokenAccount),
                    AmmError,
                >(e)
                &&& *final(mint) == *old(mint)
                &&& *final(source) == *old(source)
            },
        },
{
    if source.amount < amount {
        return Err(AmmError::InsufficientFunds);
    }
    if !authority.authorizes(&source.owner) {
        return Err(AmmError::InvalidAuthority);
    }
    if mint.supply < amount {
        return Err(AmmError::Overflow);
    }
    source.amount = source.amount - amount;
    mint.supply = mint.supply - amount;
    Ok(())
}

} // verus!
