use anchor_lang::prelude::Pubkey;
use custody::address::{push_nonce, rederive, Address, DerivationError};

fn addr(b: u8) -> Address {
    Address { bytes: [b; 32] }
}

fn tagged(tag: &[u8], who: &Address) -> Vec<Vec<u8>> {
    vec![tag.to_vec(), who.bytes.to_vec()]
}

#[test]
fn derive_twice_gives_the_same_address_and_nonce() {
    let seeds = tagged(b"state", &addr(7));
    let first = custody::address::derive(&seeds, &addr(1));
    let second = custody::address::derive(&seeds, &addr(1));
    assert!(first.is_ok());
    assert_eq!(first, second);
}

#[test]
fn derive_agrees_with_the_ledger_primitive() {
    let owner = addr(9);
    let who = addr(3);
    let seeds = tagged(b"vault", &who);
    let (address, nonce) = custody::address::derive(&seeds, &owner).unwrap();
    let program = Pubkey::new_from_array(owner.bytes);
    let (expected, bump) = Pubkey::find_program_address(&[b"vault", &who.bytes], &program);
    assert_eq!(address.bytes, expected.to_bytes());
    assert_eq!(nonce, bump);
}

#[test]
fn derived_address_is_neither_owner_nor_seed() {
    let owner = addr(9);
    let who = addr(3);
    let (address, _) = custody::address::derive(&tagged(b"vault", &who), &owner).unwrap();
    assert_ne!(address, owner);
    assert_ne!(address, who);
}

#[test]
fn found_nonce_is_the_largest_that_derives() {
    let owner = addr(42);
    let seeds = tagged(b"state", &addr(5));
    let (address, nonce) = custody::address::derive(&seeds, &owner).unwrap();
    assert!(nonce >= 1);
    assert_eq!(rederive(seeds.clone(), nonce, &owner), Some(address));
    let mut m: u16 = nonce as u16 + 1;
    while m <= 255 {
        assert_eq!(rederive(seeds.clone(), m as u8, &owner), None);
        m += 1;
    }
}

#[test]
fn different_seeds_give_different_addresses() {
    let owner = addr(42);
    let a = custody::address::derive(&tagged(b"state", &addr(5)), &owner).unwrap();
    let b = custody::address::derive(&tagged(b"vault", &addr(5)), &owner).unwrap();
    let c = custody::address::derive(&tagged(b"state", &addr(6)), &owner).unwrap();
    assert_ne!(a.0, b.0);
    assert_ne!(a.0, c.0);
}

#[test]
fn different_owners_give_different_addresses() {
    let seeds = tagged(b"state", &addr(5));
    let a = custody::address::derive(&seeds, &addr(1)).unwrap();
    let b = custody::address::derive(&seeds, &addr(2)).unwrap();
    assert_ne!(a.0, b.0);
}

#[test]
fn fifteen_components_leave_room_for_the_nonce() {
    let seeds: Vec<Vec<u8>> = (0u8..15).map(|i| vec![i]).collect();
    assert!(custody::address::derive(&seeds, &addr(1)).is_ok());
}

#[test]
fn sixteen_components_exhaust_the_search() {
    let seeds: Vec<Vec<u8>> = (0u8..16).map(|i| vec![i]).collect();
    assert_eq!(custody::address::derive(&seeds, &addr(1)), Err(DerivationError::Exhausted));
}

#[test]
fn an_overlong_component_exhausts_the_search() {
    let seeds = vec![vec![0u8; 33]];
    assert_eq!(custody::address::derive(&seeds, &addr(1)), Err(DerivationError::Exhausted));
    assert_eq!(rederive(seeds, 255, &addr(1)), None);
}

#[test]
fn a_component_of_full_length_is_accepted() {
    let seeds = vec![vec![0u8; 32]];
    assert!(custody::address::derive(&seeds, &addr(1)).is_ok());
}

#[test]
fn empty_seed_list_derives() {
    let seeds: Vec<Vec<u8>> = Vec::new();
    let (address, nonce) = custody::address::derive(&seeds, &addr(1)).unwrap();
    assert_eq!(rederive(seeds, nonce, &addr(1)), Some(address));
}

#[test]
fn push_nonce_appends_one_byte_component() {
    let seeds = vec![b"vault".to_vec()];
    assert_eq!(push_nonce(seeds, 254), vec![b"vault".to_vec(), vec![254u8]]);
}

#[test]
fn same_compares_all_bytes() {
    let a = addr(1);
    let mut b = addr(1);
    assert!(a.same(&b));
    b.bytes[31] = 2;
    assert!(!a.same(&b));
    b.bytes[31] = 1;
    b.bytes[0] = 0;
    assert!(!a.same(&b));
}

#[test]
fn to_seed_copies_the_bytes() {
    let mut a = addr(0);
    a.bytes[3] = 77;
    assert_eq!(a.to_seed(), a.bytes.to_vec());
}
