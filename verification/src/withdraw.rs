//! Withdrawal: the depositor takes back part or all of what the record holds.

use crate::address::Address;
use crate::authority::{
    address_bytes, derive_program_signer, is_program_signer, matches_derived, program_address,
};
use crate::error::PoolError;
use crate::state::{Context, Pending, Pool, SignerSeeds, Transfer, Withdraw};
use vstd::prelude::*;

verus! {

/// The guard that turns a withdrawal down, or `None` if every guard lets it
/// pass. The guards are tried in this order and the first that fails decides;
/// `derived` is the authority that the record's own address and nonce derive.
pub open spec fn withdraw_refusal(ctx: Context<Withdraw>, amount: u64, derived: Option<Seq<u8>>) -> Option<
    PoolError,
> {
    let accounts = ctx.accounts;
    let pool = accounts.pool.data;
    if !pool.initialized {
        Some(PoolError::NotInitialized)
    } else if amount > pool.amount {
        Some(PoolError::InvalidWithdrawAmount)
    } else if accounts.user_authority.key != pool.user {
        Some(PoolError::InvalidWithdrawUser)
    } else if accounts.vault.key != pool.vault {
        Some(PoolError::InvalidPool)
    } else if accounts.user_mint_acc.data.owner != accounts.user_authority.key
        || accounts.user_mint_acc.data.mint != pool.mint {
        Some(PoolError::InvalidPool)
    } else if !accounts.user_authority.is_signer {
        Some(PoolError::MissUserSignature)
    } else if derived != Some(pool.program_signer@) {
        Some(PoolError::InvalidPool)
    } else {
        None
    }
}

/// What an accepted withdrawal orders and leaves behind: `amount` goes from
/// the vault to the user's token account on the word of the derived
/// authority, and the record holds that much less. The depositor stays on
/// record even when nothing is left.
pub open spec fn withdraw_pending(ctx: Context<Withdraw>, amount: u64) -> Pending {
    let accounts = ctx.accounts;
    let pool = accounts.pool.data;
    Pending {
        transfer: Transfer {
            mint: pool.mint,
            from: pool.vault,
            to: accounts.user_mint_acc.key,
            authority: pool.program_signer,
            amount,
            seeds: Some(SignerSeeds { pool: accounts.pool.key, nonce: pool.nonce }),
        },
        pool: Pool { amount: (pool.amount - amount) as u64, ..pool },
    }
}

/// The answer to a withdrawal request.
pub open spec fn withdraw_outcome(ctx: Context<Withdraw>, amount: u64, derived: Option<Seq<u8>>) -> Result<
    Pending,
    PoolError,
> {
    match withdraw_refusal(ctx, amount, derived) {
        Some(e) => Err(e),
        None => Ok(withdraw_pending(ctx, amount)),
    }
}

/// Decides a withdrawal, given in `derived` the authority that the record's
/// address and nonce derive under the program.
pub fn withdraw_with_authority(ctx: &Context<Withdraw>, amount: u64, derived: &Option<Address>) -> (r: Result<
    Pending,
    PoolError,
>)
    ensures
        r == withdraw_outcome(*ctx, amount, address_bytes(*derived)),
{
    let accounts = &ctx.accounts;
    let pool = &accounts.pool.data;
    if !pool.initialized {
        return Err(PoolError::NotInitialized);
    }
    if amount > pool.amount {
        return Err(PoolError::InvalidWithdrawAmount);
    }
    if accounts.user_authority.key != pool.user {
        return Err(PoolError::InvalidWithdrawUser);
    }
    if accounts.vault.key != pool.vault {
        return Err(PoolError::InvalidPool);
    }
    if accounts.user_mint_acc.data.owner != accounts.user_authority.key || accounts.user_mint_acc.data.mint
        != pool.mint {
        return Err(PoolError::InvalidPool);
    }
    if !accounts.user_authority.is_signer {
        return Err(PoolError::MissUserSignature);
    }
    if !matches_derived(&pool.program_signer, derived) {
        return Err(PoolError::InvalidPool);
    }
    Ok(
        Pending {
            transfer: Transfer {
                mint: pool.mint,
                from: pool.vault,
                to: accounts.user_mint_acc.key,
                authority: pool.program_signer,
                amount,
                seeds: Some(SignerSeeds { pool: accounts.pool.key, nonce: pool.nonce }),
            },
            pool: Pool {
                initialized: pool.initialized,
                program_signer: pool.program_signer,
                mint: pool.mint,
                vault: pool.vault,
                nonce: pool.nonce,
                user: pool.user,
                amount: pool.amount - amount,
            },
        },
    )
}

/// Decides a withdrawal of `amount` from the pool of `ctx`.
///
/// The request is refused, in this order, if the record is not initialized,
/// if it holds less than `amount`, if the user is not the depositor on
/// record, if the vault or the user's token account do not fit the record,
/// if the user did not sign, or if the record's address and nonce do not
/// derive the signer on record. Otherwise the answer is the transfer to make
/// out of the vault, signed for by the derived authority, and the record to
/// store once it has gone through. Nothing is written here.
pub fn withdraw(ctx: &Context<Withdraw>, amount: u64) -> (r: Result<Pending, PoolError>)
    ensures
        r == withdraw_outcome(
            *ctx,
            amount,
            program_address(ctx.accounts.pool.key@, ctx.accounts.pool.data.nonce, ctx.program_id@),
        ),
        // A record that was never initialized pays nothing out.
        !ctx.accounts.pool.data.initialized ==> r matches Err(PoolError::NotInitialized),
        // More than the record holds is never paid out.
        amount > ctx.accounts.pool.data.amount ==> r is Err,
        ctx.accounts.pool.data.initialized && amount > ctx.accounts.pool.data.amount ==> r matches Err(
            PoolError::InvalidWithdrawAmount,
        ),
        // Nobody but the depositor is paid.
        ctx.accounts.user_authority.key != ctx.accounts.pool.data.user ==> r is Err,
        ctx.accounts.pool.data.initialized && amount <= ctx.accounts.pool.data.amount
            && ctx.accounts.user_authority.key != ctx.accounts.pool.data.user ==> r matches Err(
            PoolError::InvalidWithdrawUser,
        ),
        // These are all the reasons for which a withdrawal is refused.
        r matches Err(e) ==> e == PoolError::NotInitialized || e == PoolError::InvalidWithdrawAmount || e
            == PoolError::InvalidWithdrawUser || e == PoolError::InvalidPool || e
            == PoolError::MissUserSignature,
        // An accepted withdrawal moves exactly what it takes off the record.
        r matches Ok(p) ==> p.transfer.amount == amount && p.pool.amount + amount
            == ctx.accounts.pool.data.amount && p.transfer.from == ctx.accounts.pool.data.vault
            && p.transfer.authority == ctx.accounts.pool.data.program_signer,
        // The vault pays on the word of the authority that the record's own
        // address and nonce derive, and of no other.
        r matches Ok(p) ==> is_program_signer(
            p.transfer.authority,
            ctx.accounts.pool.key,
            ctx.accounts.pool.data.nonce,
            ctx.program_id,
        ),
{
    let derived = derive_program_signer(
        &ctx.accounts.pool.key,
        ctx.accounts.pool.data.nonce,
        &ctx.program_id,
    );
    withdraw_with_authority(ctx, amount, &derived)
}

} // verus!
