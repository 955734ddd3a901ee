//! Initialization: a zeroed record is bound to its vault and its signer.

use crate::address::Address;
use crate::authority::{
    address_bytes, derive_program_signer, is_program_signer, matches_derived, program_address,
};
use crate::error::PoolError;
use crate::state::{Account, Context, InitializePool, Pool};
use vstd::prelude::*;

verus! {

/// The guard that turns an initialization down, or `None` if every guard
/// lets it pass. The guards are tried in this order and the first that fails
/// decides; `derived` is the authority that the record's address and the
/// nonce of the request derive.
pub open spec fn initialize_refusal(ctx: Context<InitializePool>, derived: Option<Seq<u8>>) -> Option<
    PoolError,
> {
    let accounts = ctx.accounts;
    if accounts.pool.data.initialized {
        Some(PoolError::InvalidPool)
    } else if accounts.vault.data.owner != accounts.program_signer {
        Some(PoolError::InvalidVaultAccount)
    } else if accounts.vault.data.mint != accounts.mint {
        Some(PoolError::InvalidVaultAccount)
    } else if derived != Some(accounts.program_signer@) {
        Some(PoolError::InvalidVaultAccount)
    } else {
        None
    }
}

/// The record that an accepted initialization writes: bound to the mint, the
/// vault, the signer and the nonce of the request, with no depositor and
/// nothing locked.
pub open spec fn initialized_pool(ctx: Context<InitializePool>, nonce: u8) -> Pool {
    Pool {
        initialized: true,
        program_signer: ctx.accounts.program_signer,
        mint: ctx.accounts.mint,
        vault: ctx.accounts.vault.key,
        nonce,
        user: Address::zero(),
        amount: 0,
    }
}

/// The request of `ctx` with `pool` written to its record.
pub open spec fn with_record(ctx: Context<InitializePool>, pool: Pool) -> Context<InitializePool> {
    Context {
        accounts: InitializePool { pool: Account { data: pool, ..ctx.accounts.pool }, ..ctx.accounts },
        ..ctx
    }
}

/// The request after an initialization with `nonce`: the record written if
/// no guard refused, everything as it was if one did.
pub open spec fn initialize_effect(ctx: Context<InitializePool>, nonce: u8, derived: Option<Seq<u8>>) -> Context<
    InitializePool,
> {
    if initialize_refusal(ctx, derived) is None {
        with_record(ctx, initialized_pool(ctx, nonce))
    } else {
        ctx
    }
}

/// The answer to an initialization request.
pub open spec fn initialize_outcome(ctx: Context<InitializePool>, derived: Option<Seq<u8>>) -> Result<
    (),
    PoolError,
> {
    match initialize_refusal(ctx, derived) {
        Some(e) => Err(e),
        None => Ok(()),
    }
}

/// Initializes the record of `ctx`, given in `derived` the authority that
/// the record's address and `nonce` derive under the program.
pub fn initialize_pool_with_authority(
    ctx: &mut Context<InitializePool>,
    nonce: u8,
    derived: &Option<Address>,
) -> (r: Result<(), PoolError>)
    ensures
        r == initialize_outcome(*old(ctx), address_bytes(*derived)),
        *final(ctx) == initialize_effect(*old(ctx), nonce, address_bytes(*derived)),
{
    if ctx.accounts.pool.data.initialized {
        return Err(PoolError::InvalidPool);
    }
    if ctx.accounts.vault.data.owner != ctx.accounts.program_signer {
        return Err(PoolError::InvalidVaultAccount);
    }
    if ctx.accounts.vault.data.mint != ctx.accounts.mint {
        return Err(PoolError::InvalidVaultAccount);
    }
    if !matches_derived(&ctx.accounts.program_signer, derived) {
        return Err(PoolError::InvalidVaultAccount);
    }
    ctx.accounts.pool.data = Pool {
        initialized: true,
        program_signer: ctx.accounts.program_signer,
        mint: ctx.accounts.mint,
        vault: ctx.accounts.vault.key,
        nonce,
        user: Address::zero(),
        amount: 0,
    };
    Ok(())
}

/// Initializes the record of `ctx` with `nonce`.
///
/// The request is refused, and nothing is written, if the record was
/// initialized before, if the vault is not owned by the proposed signer, if
/// the vault holds another mint, or if the record's address and `nonce` do
/// not derive the proposed signer under the program. Otherwise every field
/// of the record is written: it is initialized, bound to the mint, the
/// vault, the signer and the nonce, with no depositor and nothing locked.
pub fn initialize_pool(ctx: &mut Context<InitializePool>, nonce: u8) -> (r: Result<(), PoolError>)
    ensures
        r == initialize_outcome(
            *old(ctx),
            program_address(old(ctx).accounts.pool.key@, nonce, old(ctx).program_id@),
        ),
        *final(ctx) == initialize_effect(
            *old(ctx),
            nonce,
            program_address(old(ctx).accounts.pool.key@, nonce, old(ctx).program_id@),
        ),
        // A record is initialized once: a second attempt fails and writes nothing.
        old(ctx).accounts.pool.data.initialized ==> r is Err && *final(ctx) == *old(ctx),
        // These are all the reasons for which an initialization is refused.
        r matches Err(e) ==> e == PoolError::InvalidPool || e == PoolError::InvalidVaultAccount,
        // No refusal leaves a trace.
        r is Err ==> *final(ctx) == *old(ctx),
        r is Ok ==> final(ctx).accounts.pool.data.initialized && final(ctx).accounts.pool.data.amount == 0
            && final(ctx).accounts.pool.data.user == Address::zero(),
        // An initialized record names a vault of its mint that its signer
        // owns, and a signer that its own address and nonce derive.
        r is Ok ==> final(ctx).accounts.vault.data.owner == final(ctx).accounts.pool.data.program_signer
            && final(ctx).accounts.vault.data.mint == final(ctx).accounts.pool.data.mint
            && final(ctx).accounts.vault.key == final(ctx).accounts.pool.data.vault && is_program_signer(
            final(ctx).accounts.pool.data.program_signer,
            final(ctx).accounts.pool.key,
            final(ctx).accounts.pool.data.nonce,
            final(ctx).program_id,
        ),
{
    let derived = derive_program_signer(&ctx.accounts.pool.key, nonce, &ctx.program_id);
    initialize_pool_with_authority(ctx, nonce, &derived)
}

/// Zeroed storage is never mistaken for an initialized record.
pub proof fn lemma_zeroed_is_uninitialized(ctx: Context<InitializePool>, derived: Option<Seq<u8>>)
    requires
        ctx.accounts.pool.data == Pool::zeroed(),
    ensures
        !ctx.accounts.pool.data.initialized,
        initialize_refusal(ctx, derived) != Some(PoolError::InvalidPool),
{
}

/// A record is initialized once: whatever request meets the record that an
/// accepted initialization wrote is refused, and writes nothing.
pub proof fn lemma_initialized_once(
    ctx: Context<InitializePool>,
    nonce: u8,
    derived: Option<Seq<u8>>,
    again: Context<InitializePool>,
    nonce_again: u8,
    derived_again: Option<Seq<u8>>,
)
    requires
        initialize_outcome(ctx, derived) is Ok,
        again.accounts.pool.data == initialize_effect(ctx, nonce, derived).accounts.pool.data,
    ensures
        initialize_outcome(again, derived_again) matches Err(PoolError::InvalidPool),
        initialize_effect(again, nonce_again, derived_again) == again,
{
}

} // verus!
