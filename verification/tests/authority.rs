use anchor_lang::prelude::Pubkey;
use staker::authority::{derive_program_signer, matches_derived};
use staker::Address;

const POOL: [u8; 32] = [1; 32];
const PROGRAM: [u8; 32] = [9; 32];

/// The address that the pool of ones derives with nonce 255 under the
/// program of nines.
const SIGNER_255: [u8; 32] = [
    32, 96, 249, 233, 195, 149, 149, 30, 167, 5, 75, 237, 50, 149, 74, 66, 149, 122, 36, 169, 102, 217,
    112, 78, 225, 66, 121, 205, 49, 90, 84, 28,
];

/// The address that the same pool derives with nonce 252.
const SIGNER_252: [u8; 32] = [
    65, 168, 124, 185, 66, 201, 61, 102, 214, 191, 138, 122, 210, 164, 157, 6, 114, 76, 173, 27, 163,
    15, 129, 177, 27, 64, 146, 4, 23, 170, 74, 201,
];

#[test]
fn zero_address_is_all_zero_bytes() {
    assert_eq!(Address::zero().bytes, [0u8; 32]);
    assert_eq!(Address::zero(), Address::new([0u8; 32]));
}

#[test]
fn addresses_are_equal_when_their_bytes_are() {
    let a = Address::new(POOL);
    let b = Address::new(POOL);
    let mut other = POOL;
    other[31] = 2;
    assert!(a == b);
    assert!(a != Address::new(other));
    let mut first = POOL;
    first[0] = 0;
    assert!(a != Address::new(first));
}

#[test]
fn derives_the_known_address() {
    let derived = derive_program_signer(&Address::new(POOL), 255, &Address::new(PROGRAM));
    assert_eq!(derived, Some(Address::new(SIGNER_255)));
    let derived = derive_program_signer(&Address::new(POOL), 252, &Address::new(PROGRAM));
    assert_eq!(derived, Some(Address::new(SIGNER_252)));
}

#[test]
fn some_nonces_derive_nothing() {
    assert_eq!(derive_program_signer(&Address::new(POOL), 254, &Address::new(PROGRAM)), None);
    assert_eq!(derive_program_signer(&Address::new(POOL), 253, &Address::new(PROGRAM)), None);
}

#[test]
fn derivation_is_not_the_identity() {
    let pool = Address::new(POOL);
    let program = Address::new(PROGRAM);
    let derived = derive_program_signer(&pool, 255, &program).unwrap();
    assert_ne!(derived, pool);
    assert_ne!(derived, program);
}

#[test]
fn derivation_is_repeatable() {
    let pool = Address::new(POOL);
    let program = Address::new(PROGRAM);
    for nonce in 0..=255u8 {
        assert_eq!(
            derive_program_signer(&pool, nonce, &program),
            derive_program_signer(&pool, nonce, &program)
        );
    }
}

#[test]
fn derivation_agrees_with_the_program_address_of_the_runtime() {
    let mut pool_bytes = [0u8; 32];
    for (i, b) in pool_bytes.iter_mut().enumerate() {
        *b = (7 * i + 3) as u8;
    }
    let program_bytes = [200u8; 32];
    let program_id = Pubkey::new_from_array(program_bytes);
    let mut derived_some = 0;
    let mut derived_none = 0;
    for nonce in 0..=255u8 {
        let expected = Pubkey::create_program_address(&[&pool_bytes[..], &[nonce]], &program_id)
            .ok()
            .map(|key| Address::new(key.to_bytes()));
        let derived = derive_program_signer(&Address::new(pool_bytes), nonce, &Address::new(program_bytes));
        assert_eq!(derived, expected);
        match derived {
            Some(_) => derived_some += 1,
            None => derived_none += 1,
        }
    }
    assert!(derived_some > 0);
    assert!(derived_none > 0);
}

#[test]
fn the_highest_nonce_that_derives_is_the_bump_of_the_runtime() {
    let program_id = Pubkey::new_from_array(PROGRAM);
    let (key, bump) = Pubkey::find_program_address(&[&POOL[..]], &program_id);
    assert_eq!(bump, 255);
    assert_eq!(key.to_bytes(), SIGNER_255);
    assert_eq!(
        derive_program_signer(&Address::new(POOL), bump, &Address::new(PROGRAM)),
        Some(Address::new(key.to_bytes()))
    );
}

#[test]
fn derivation_depends_on_pool_nonce_and_program() {
    let pool = Address::new(POOL);
    let program = Address::new(PROGRAM);
    let base = derive_program_signer(&pool, 255, &program);
    assert_ne!(base, derive_program_signer(&pool, 252, &program));
    let mut other_pool = POOL;
    other_pool[0] = 2;
    let mut other_program = PROGRAM;
    other_program[0] = 8;
    let for_other_pool = derive_program_signer(&Address::new(other_pool), 255, &program);
    let for_other_program = derive_program_signer(&pool, 255, &Address::new(other_program));
    assert_ne!(base, for_other_pool);
    assert_ne!(base, for_other_program);
}

#[test]
fn matches_derived_compares_with_the_derived_address() {
    let signer = Address::new(SIGNER_255);
    assert!(matches_derived(&signer, &Some(signer)));
    assert!(!matches_derived(&signer, &Some(Address::new(SIGNER_252))));
    assert!(!matches_derived(&signer, &None));
    assert!(!matches_derived(&Address::zero(), &None));
}
