use std::str::FromStr;

use anchor_lang::prelude::Pubkey;
use lockit::address::{
    find_vault_address, vault_address, verify_vault_address, Address, PROGRAM_ID, VAULT_SEED,
};

fn identity(seed: u64) -> Address {
    let mut state = seed.wrapping_mul(6364136223846793005).wrapping_add(1442695040888963407);
    let mut bytes = [0u8; 32];
    for b in bytes.iter_mut() {
        state = state.wrapping_mul(6364136223846793005).wrapping_add(1442695040888963407);
        *b = (state >> 56) as u8;
    }
    Address::new(bytes)
}

#[test]
fn vault_seed_spells_vault() {
    assert_eq!(&VAULT_SEED[..], &b"vault"[..]);
}

#[test]
fn program_id_is_the_declared_identity() {
    let declared = Pubkey::from_str("CB81GRLWi7AjR6KDFawvbzfH3xQkCQh5YZznA7XzS7q6").unwrap();
    assert_eq!(declared.to_bytes(), PROGRAM_ID);
}

#[test]
fn same_as_compares_every_byte() {
    let a = Address::new([7u8; 32]);
    let mut other = [7u8; 32];
    assert!(a.same_as(&Address::new(other)));
    other[31] = 8;
    assert!(!a.same_as(&Address::new(other)));
    other[31] = 7;
    other[0] = 0;
    assert!(!a.same_as(&Address::new(other)));
}

#[test]
fn is_derived_needs_a_derivation() {
    let a = Address::new([3u8; 32]);
    assert!(a.is_derived(&Some(Address::new([3u8; 32]))));
    assert!(!a.is_derived(&Some(Address::new([4u8; 32]))));
    assert!(!a.is_derived(&None));
}

#[test]
fn found_address_is_the_one_the_outside_search_gives() {
    let program = Pubkey::new_from_array(PROGRAM_ID);
    for seed in 0..50u64 {
        let owner = identity(seed);
        let expected = Pubkey::try_find_program_address(&[b"vault", &owner.bytes], &program)
            .map(|(key, nonce)| (Address::new(key.to_bytes()), nonce));
        assert_eq!(find_vault_address(&owner), expected);
        assert!(expected.is_some());
    }
}

#[test]
fn found_address_is_not_the_owner() {
    let owner = identity(1);
    let (address, _) = find_vault_address(&owner).unwrap();
    assert_ne!(address, owner);
    assert_ne!(address, Address::new(PROGRAM_ID));
}

#[test]
fn derivation_is_deterministic() {
    for seed in 0..20u64 {
        let owner = identity(seed);
        assert_eq!(find_vault_address(&owner), find_vault_address(&owner));
    }
}

#[test]
fn stored_nonce_gives_the_address_again() {
    for seed in 0..50u64 {
        let owner = identity(seed);
        let (address, nonce) = find_vault_address(&owner).unwrap();
        assert_eq!(vault_address(&owner, nonce), Some(address));
        assert!(verify_vault_address(&address, &owner, nonce));
    }
}

#[test]
fn address_from_nonce_is_the_one_the_outside_derivation_gives() {
    let program = Pubkey::new_from_array(PROGRAM_ID);
    let owner = identity(9);
    for nonce in [0u8, 1, 17, 128, 254, 255] {
        let expected =
            Pubkey::create_program_address(&[b"vault", &owner.bytes, &[nonce]], &program)
                .ok()
                .map(|key| Address::new(key.to_bytes()));
        let derived = vault_address(&owner, nonce);
        assert_eq!(derived, expected);
        assert_ne!(derived, Some(owner));
    }
}

#[test]
fn other_nonce_or_owner_does_not_verify() {
    let owner = identity(3);
    let stranger = identity(4);
    let (address, nonce) = find_vault_address(&owner).unwrap();
    assert!(!verify_vault_address(&address, &owner, nonce.wrapping_sub(1)));
    assert!(!verify_vault_address(&address, &stranger, nonce));
    assert!(!verify_vault_address(&owner, &owner, nonce));
}

#[test]
fn found_nonce_is_the_first_valid_one_from_the_top() {
    for seed in 0..20u64 {
        let owner = identity(seed);
        let (_, nonce) = find_vault_address(&owner).unwrap();
        assert!(nonce >= 1);
        let mut higher = 255u8;
        while higher > nonce {
            assert_eq!(vault_address(&owner, higher), None);
            higher -= 1;
        }
    }
}

#[test]
fn distinct_owners_get_distinct_addresses() {
    let mut seen: Vec<Address> = Vec::new();
    for seed in 0..300u64 {
        let (address, _) = find_vault_address(&identity(seed)).unwrap();
        assert!(!seen.contains(&address));
        seen.push(address);
    }
}
