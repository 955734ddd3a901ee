//! The reasons for which the pool turns a request down.

use vstd::prelude::*;

verus! {

/// Why a request was rejected. Every rejection is decided before anything is
/// moved or written, so a rejected request leaves no trace.
#[derive(Clone, Copy, Debug, PartialEq, Eq, Structural)]
pub enum PoolError {
    /// The accounts handed in do not belong to the pool record: another
    /// vault, a token account of another owner or mint, a signer that the
    /// record's address and nonce do not derive, or a record that was
    /// initialized before.
    InvalidPool,
    /// The pool record was never initialized.
    NotInitialized,
    /// A deposit of nothing.
    InvalidDepositAmount,
    /// The user named in the request did not sign it.
    MissUserSignature,
    /// A withdrawal of more than the record holds.
    InvalidWithdrawAmount,
    /// A withdrawal asked for by somebody other than the depositor.
    InvalidWithdrawUser,
    /// The vault offered at initialization is not controlled by the program
    /// signer, holds another mint, or the signer is not the pool's derived
    /// authority.
    InvalidVaultAccount,
    /// The associate account belongs to somebody else.
    InvalidAssociateAccountOwner,
    /// The order account cannot be used.
    InvalidOrderAccount,
}

} // verus!
