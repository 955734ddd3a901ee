//! The pool record and the accounts that travel with a request.

use crate::address::Address;
use vstd::prelude::*;

verus! {

/// The persisted record of one vault relationship.
#[derive(Clone, Copy, Debug, PartialEq, Eq)]
pub struct Pool {
    /// Set once, by initialization; every other operation refuses a record
    /// without it.
    pub initialized: bool,
    /// The derived authority that controls the vault.
    pub program_signer: Address,
    /// The mint of the token this pool locks up.
    pub mint: Address,
    /// Address of the pool's token vault.
    pub vault: Address,
    /// The nonce from which `program_signer` is derived.
    pub nonce: u8,
    /// The one user who may withdraw; the zero address while nobody has
    /// deposited.
    pub user: Address,
    /// The amount locked for `user`.
    pub amount: u64,
}

impl Pool {
    /// Freshly allocated storage: every field zero, and so not initialized.
    pub open spec fn spec_zeroed() -> Pool {
        Pool {
            initialized: false,
            program_signer: Address::zero(),
            mint: Address::zero(),
            vault: Address::zero(),
            nonce: 0,
            user: Address::zero(),
            amount: 0,
        }
    }

    /// Freshly allocated storage: every field zero, and so not initialized.
    #[verifier::when_used_as_spec(spec_zeroed)]
    pub fn zeroed() -> (r: Pool)
        ensures
            r == Pool::spec_zeroed(),
            !r.initialized,
    {
        Pool {
            initialized: false,
            program_signer: Address::zero(),
            mint: Address::zero(),
            vault: Address::zero(),
            nonce: 0,
            user: Address::zero(),
            amount: 0,
        }
    }
}

/// What the pool reads of a token account: the mint it holds and the owner
/// who may spend from it.
#[derive(Clone, Copy, Debug, PartialEq, Eq)]
pub struct TokenAccount {
    pub mint: Address,
    pub owner: Address,
}

/// An account as it reaches an operation: its address and its contents.
#[derive(Copy, Debug, PartialEq, Eq)]
pub struct Account<T> {
    pub key: Address,
    pub data: T,
}

impl<T: Copy> Clone for Account<T> {
    fn clone(&self) -> (r: Self)
        ensures
            r == *self,
    {
        *self
    }
}

/// A party named in a request, and whether it signed the request.
#[derive(Clone, Copy, Debug, PartialEq, Eq)]
pub struct AccountInfo {
    pub key: Address,
    pub is_signer: bool,
}

/// A request as an operation sees it: the identity of the program that runs
/// the pool, and the accounts of the request.
#[derive(Copy, Debug, PartialEq, Eq)]
pub struct Context<T> {
    pub program_id: Address,
    pub accounts: T,
}

impl<T: Copy> Clone for Context<T> {
    fn clone(&self) -> (r: Self)
        ensures
            r == *self,
    {
        *self
    }
}

/// Accounts of an initialization.
#[derive(Clone, Copy, Debug, PartialEq, Eq)]
pub struct InitializePool {
    /// The record to fill, in zeroed storage.
    pub pool: Account<Pool>,
    /// The mint that the pool is to accept.
    pub mint: Address,
    /// The vault that is to hold what users lock up.
    pub vault: Account<TokenAccount>,
    /// The proposed authority over the vault.
    pub program_signer: Address,
}

/// Accounts of a deposit.
#[derive(Clone, Copy, Debug, PartialEq, Eq)]
pub struct Deposit {
    pub pool: Account<Pool>,
    /// The vault that receives the tokens.
    pub vault: Account<TokenAccount>,
    /// The token account that pays.
    pub user_mint_acc: Account<TokenAccount>,
    /// The owner of the paying account.
    pub user_authority: AccountInfo,
}

/// Accounts of a withdrawal.
#[derive(Clone, Copy, Debug, PartialEq, Eq)]
pub struct Withdraw {
    pub pool: Account<Pool>,
    /// The vault that pays.
    pub vault: Account<TokenAccount>,
    /// The token account that receives the tokens.
    pub user_mint_acc: Account<TokenAccount>,
    /// The depositor, who asks for the tokens back.
    pub user_authority: AccountInfo,
}

/// The seeds with which the program signs for a pool's derived authority.
#[derive(Clone, Copy, Debug, PartialEq, Eq)]
pub struct SignerSeeds {
    pub pool: Address,
    pub nonce: u8,
}

/// An order to the transfer primitive: move `amount` of `mint` from one token
/// account to another on the word of `authority`.
#[derive(Clone, Copy, Debug, PartialEq, Eq)]
pub struct Transfer {
    pub mint: Address,
    pub from: Address,
    pub to: Address,
    pub authority: Address,
    pub amount: u64,
    /// `None` where `authority` signed the request itself; the seeds to sign
    /// with where the authority is the pool's derived signer.
    pub seeds: Option<SignerSeeds>,
}

/// An operation that passed every check and now waits for its transfer.
#[derive(Clone, Copy, Debug, PartialEq, Eq)]
pub struct Pending {
    /// The transfer to carry out.
    pub transfer: Transfer,
    /// The record to store once the transfer has gone through.
    pub pool: Pool,
}

impl Pending {
    /// The record after the transfer primitive has answered: the new record
    /// if the transfer went through, the old one untouched if it did not.
    pub open spec fn settled(self, pool: Pool, transferred: bool) -> Pool {
        if transferred {
            self.pool
        } else {
            pool
        }
    }

    /// Closes the operation with the answer of the transfer primitive: the
    /// record changes if and only if the transfer went through.
    pub fn settle(&self, pool: &mut Pool, transferred: bool)
        ensures
            *final(pool) == self.settled(*old(pool), transferred),
            !transferred ==> *final(pool) == *old(pool),
    {
        if transferred {
            *pool = self.pool;
        }
    }
}

} // verus!
