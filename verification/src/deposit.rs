//! Deposit: a user locks tokens in the vault and becomes the depositor.

use crate::error::PoolError;
use crate::state::{Context, Deposit, Pending, Pool, Transfer};
use vstd::prelude::*;

verus! {

/// The guard that turns a deposit down, or `None` if every guard lets it
/// pass. The guards are tried in this order and the first that fails decides.
pub open spec fn deposit_refusal(ctx: Context<Deposit>, amount: u64) -> Option<PoolError> {
    let accounts = ctx.accounts;
    let pool = accounts.pool.data;
    if amount == 0 {
        Some(PoolError::InvalidDepositAmount)
    } else if !pool.initialized {
        Some(PoolError::NotInitialized)
    } else if accounts.vault.key != pool.vault {
        Some(PoolError::InvalidPool)
    } else if accounts.user_mint_acc.data.owner != accounts.user_authority.key
        || accounts.user_mint_acc.data.mint != pool.mint {
        Some(PoolError::InvalidPool)
    } else if !accounts.user_authority.is_signer {
        Some(PoolError::MissUserSignature)
    } else {
        None
    }
}

/// What an accepted deposit orders and leaves behind: `amount` goes from the
/// user's token account to the vault on the user's word, and the record names
/// the user as depositor of exactly `amount`. Whatever the record held for an
/// earlier depositor is overwritten, not added to.
pub open spec fn deposit_pending(ctx: Context<Deposit>, amount: u64) -> Pending {
    let accounts = ctx.accounts;
    let pool = accounts.pool.data;
    Pending {
        transfer: Transfer {
            mint: pool.mint,
            from: accounts.user_mint_acc.key,
            to: pool.vault,
            authority: accounts.user_authority.key,
            amount,
            seeds: None,
        },
        pool: Pool { user: accounts.user_authority.key, amount, ..pool },
    }
}

/// The answer to a deposit request.
pub open spec fn deposit_outcome(ctx: Context<Deposit>, amount: u64) -> Result<Pending, PoolError> {
    match deposit_refusal(ctx, amount) {
        Some(e) => Err(e),
        None => Ok(deposit_pending(ctx, amount)),
    }
}

/// Decides a deposit of `amount` into the pool of `ctx`.
///
/// The request is refused, in this order, if `amount` is zero, if the record
/// is not initialized, if the vault or the user's token account do not fit
/// the record, or if the user did not sign. Otherwise the answer is the
/// transfer to make into the vault and the record to store once it has gone
/// through. Nothing is written here.
pub fn deposit(ctx: &Context<Deposit>, amount: u64) -> (r: Result<Pending, PoolError>)
    ensures
        r == deposit_outcome(*ctx, amount),
        // A deposit of nothing is refused before anything else is looked at.
        amount == 0 ==> r matches Err(PoolError::InvalidDepositAmount),
        // A record that was never initialized takes no deposit.
        !ctx.accounts.pool.data.initialized ==> r is Err,
        !ctx.accounts.pool.data.initialized && amount != 0 ==> r matches Err(PoolError::NotInitialized),
        // These are all the reasons for which a deposit is refused.
        r matches Err(e) ==> e == PoolError::InvalidDepositAmount || e == PoolError::NotInitialized || e
            == PoolError::InvalidPool || e == PoolError::MissUserSignature,
        // An accepted deposit moves exactly what it puts on record.
        r matches Ok(p) ==> p.transfer.amount == amount && p.pool.amount == amount && p.pool.user
            == ctx.accounts.user_authority.key && p.transfer.to == ctx.accounts.pool.data.vault,
{
    let accounts = &ctx.accounts;
    let pool = &accounts.pool.data;
    if amount == 0 {
        return Err(PoolError::InvalidDepositAmount);
    }
    if !pool.initialized {
        return Err(PoolError::NotInitialized);
    }
    if accounts.vault.key != pool.vault {
        return Err(PoolError::InvalidPool);
    }
    if accounts.user_mint_acc.data.owner != accounts.user_authority.key || accounts.user_mint_acc.data.mint
        != pool.mint {
        return Err(PoolError::InvalidPool);
    }
    if !accounts.user_authority.is_signer {
        return Err(PoolError::MissUserSignature);
    }
    Ok(
        Pending {
            transfer: Transfer {
                mint: pool.mint,
                from: accounts.user_mint_acc.key,
                to: pool.vault,
                authority: accounts.user_authority.key,
                amount,
                seeds: None,
            },
            pool: Pool {
                initialized: pool.initialized,
                program_signer: pool.program_signer,
                mint: pool.mint,
                vault: pool.vault,
                nonce: pool.nonce,
                user: accounts.user_authority.key,
                amount,
            },
        },
    )
}

} // verus!
