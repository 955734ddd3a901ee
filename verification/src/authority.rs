//! Authority derivation: the signer that a pool holds over its vault.
//!
//! A pool controls its vault through an address that no private key stands
//! behind. The address is derived from the pool's own address, a one-byte
//! nonce and the identity of the program that runs the pool, so the program
//! can reproduce it whenever it has to sign for the vault, and nobody else can.

use crate::address::Address;
use anchor_lang::prelude::Pubkey;
use vstd::prelude::*;

verus! {

/// The address derived for the pool at `pool` with `nonce` under `program`,
/// or `None` where this nonce derives no address.
///
/// It is what `Pubkey::create_program_address` returns for the two seeds
/// `pool` and `[nonce]`; nothing more is known of it here than that it is a
/// function of these three values.
pub uninterp spec fn program_address(pool: Seq<u8>, nonce: u8, program: Seq<u8>) -> Option<Seq<u8>>;

/// The bytes of an address that may be absent.
pub open spec fn address_bytes(address: Option<Address>) -> Option<Seq<u8>> {
    match address {
        Some(a) => Some(a@),
        None => None,
    }
}

/// Whether `signer` is the authority derived for the pool at `pool` with
/// `nonce` under `program`.
pub open spec fn is_program_signer(signer: Address, pool: Address, nonce: u8, program: Address) -> bool {
    program_address(pool@, nonce, program@) == Some(signer@)
}

/// Calls `Pubkey::create_program_address` with the seeds `pool` and `[nonce]`
/// and the program id `program`.
///
/// Trusted: the result is the derived address, `None` standing for the
/// error that the seeds derive no valid address. With two seeds of 32 bytes
/// and 1 byte the call stays within the limits on seeds, so it has no other
/// error to report.
#[verifier::external_body]
fn create_program_address(pool: &Address, nonce: u8, program: &Address) -> (r: Option<Address>)
    ensures
        address_bytes(r) == program_address(pool@, nonce, program@),
{
    let program_id = Pubkey::new_from_array(program.bytes);
    match Pubkey::create_program_address(&[&pool.bytes[..], &[nonce]], &program_id) {
        Ok(key) => Some(Address { bytes: key.to_bytes() }),
        Err(_) => None,
    }
}

/// Derives the authority of the pool at `pool` for `nonce`, if this nonce
/// derives one.
pub fn derive_program_signer(pool: &Address, nonce: u8, program: &Address) -> (r: Option<Address>)
    ensures
        address_bytes(r) == program_address(pool@, nonce, program@),
        forall|signer: Address| r == Some(signer) <==> is_program_signer(signer, *pool, nonce, *program),
{
    let r = create_program_address(pool, nonce, program);
    proof {
        assert forall|signer: Address| r == Some(signer) <==> is_program_signer(
            signer,
            *pool,
            nonce,
            *program,
        ) by {
            if let Some(a) = r {
                Address::lemma_view_injective(a, signer);
            }
        }
    }
    r
}

/// The same pool, nonce and program always derive the same authority: any
/// two answers of the derivation to the same question are equal.
pub proof fn lemma_derivation_is_stable(
    first: Option<Address>,
    second: Option<Address>,
    pool: Address,
    nonce: u8,
    program: Address,
)
    requires
        address_bytes(first) == program_address(pool@, nonce, program@),
        address_bytes(second) == program_address(pool@, nonce, program@),
    ensures
        first == second,
{
    if let Some(a) = first {
        if let Some(b) = second {
            Address::lemma_view_injective(a, b);
        }
    }
}

/// A pool has at most one authority for each nonce.
pub proof fn lemma_program_signer_is_unique(
    signer: Address,
    other: Address,
    pool: Address,
    nonce: u8,
    program: Address,
)
    requires
        is_program_signer(signer, pool, nonce, program),
        is_program_signer(other, pool, nonce, program),
    ensures
        signer == other,
{
    Address::lemma_view_injective(signer, other);
}

/// Whether the derivation result `derived` is the address `expected`.
pub fn matches_derived(expected: &Address, derived: &Option<Address>) -> (r: bool)
    ensures
        r == (address_bytes(*derived) == Some(expected@)),
        r == (*derived == Some(*expected)),
{
    match derived {
        Some(a) => {
            proof {
                Address::lemma_view_injective(*a, *expected);
            }
            *a == *expected
        },
        None => false,
    }
}

} // verus!
