use custody::address::{push_nonce, Address};
use custody::engine::{authorize, is_address, transfer, transfer_checked, Account, Authority, TokenAccount};
use custody::error::Error;

fn addr(b: u8) -> Address {
    Address { bytes: [b; 32] }
}

fn account(key: Address, balance: u64, retained: u64) -> Account {
    Account { key, balance, retained }
}

fn tokens(key: u8, mint: u8, owner: Address, amount: u64) -> TokenAccount {
    TokenAccount { key: addr(key), mint: addr(mint), owner, amount }
}

#[test]
fn external_transfer_moves_exactly_the_amount() {
    let from = account(addr(1), 10, 2);
    let to = account(addr(2), 1, 0);
    let (f, t) = transfer(&addr(9), from, to, 8, Authority::External(addr(1))).unwrap();
    assert_eq!(f, account(addr(1), 2, 2));
    assert_eq!(t, account(addr(2), 9, 0));
}

#[test]
fn external_transfer_keeps_the_retained_balance() {
    let from = account(addr(1), 10, 2);
    let to = account(addr(2), 1, 0);
    let r = transfer(&addr(9), from, to, 9, Authority::External(addr(1)));
    assert_eq!(r, Err(Error::InsufficientBalance));
}

#[test]
fn transfer_of_more_than_the_balance_fails() {
    let from = account(addr(1), 10, 0);
    let to = account(addr(2), 1, 0);
    let r = transfer(&addr(9), from, to, 11, Authority::External(addr(1)));
    assert_eq!(r, Err(Error::InsufficientBalance));
}

#[test]
fn transfer_signed_by_another_is_unauthorized() {
    let from = account(addr(1), 10, 0);
    let to = account(addr(2), 1, 0);
    let r = transfer(&addr(9), from, to, 1, Authority::External(addr(2)));
    assert_eq!(r, Err(Error::UnauthorizedCaller));
}

#[test]
fn delegated_transfer_may_empty_the_source() {
    let program = addr(9);
    let seeds = vec![b"vault".to_vec()];
    let (custodial, nonce) = custody::address::derive(&seeds, &program).unwrap();
    let from = account(custodial, 10, 5);
    let to = account(addr(2), 1, 0);
    let authority = Authority::Delegated(authorize(push_nonce(seeds, nonce)));
    let (f, t) = transfer(&program, from, to, 10, authority).unwrap();
    assert_eq!(f.balance, 0);
    assert_eq!(t.balance, 11);
}

#[test]
fn delegated_transfer_with_wrong_seeds_is_unauthorized() {
    let program = addr(9);
    let seeds = vec![b"vault".to_vec()];
    let (custodial, nonce) = custody::address::derive(&seeds, &program).unwrap();
    let from = account(custodial, 10, 0);
    let to = account(addr(2), 1, 0);
    let other = Authority::Delegated(authorize(push_nonce(vec![b"state".to_vec()], nonce)));
    assert_eq!(transfer(&program, from, to, 1, other), Err(Error::UnauthorizedCaller));
    let bare = Authority::Delegated(authorize(seeds));
    assert_eq!(transfer(&program, from, to, 1, bare), Err(Error::UnauthorizedCaller));
}

#[test]
fn delegated_transfer_under_another_program_is_unauthorized() {
    let program = addr(9);
    let seeds = vec![b"vault".to_vec()];
    let (custodial, nonce) = custody::address::derive(&seeds, &program).unwrap();
    let from = account(custodial, 10, 0);
    let to = account(addr(2), 1, 0);
    let authority = Authority::Delegated(authorize(push_nonce(seeds, nonce)));
    assert_eq!(transfer(&addr(8), from, to, 1, authority), Err(Error::UnauthorizedCaller));
}

#[test]
fn authority_names_its_signer() {
    let program = addr(9);
    let seeds = vec![b"vault".to_vec()];
    let (custodial, nonce) = custody::address::derive(&seeds, &program).unwrap();
    let delegated = Authority::Delegated(authorize(push_nonce(seeds, nonce)));
    assert_eq!(delegated.signer(&program), Some(custodial));
    assert_eq!(Authority::External(addr(4)).signer(&program), Some(addr(4)));
}

#[test]
fn is_address_compares_with_a_found_address() {
    assert!(is_address(&Some(addr(1)), &addr(1)));
    assert!(!is_address(&Some(addr(1)), &addr(2)));
    assert!(!is_address(&None, &addr(1)));
}

#[test]
fn token_transfer_moves_exactly_the_amount() {
    let owner = addr(1);
    let from = tokens(10, 50, owner, 100);
    let to = tokens(11, 50, addr(2), 7);
    let (f, t) = transfer_checked(&addr(9), from, to, &addr(50), 100, Authority::External(owner)).unwrap();
    assert_eq!(f, tokens(10, 50, owner, 0));
    assert_eq!(t, tokens(11, 50, addr(2), 107));
}

#[test]
fn token_transfer_needs_the_owner() {
    let from = tokens(10, 50, addr(1), 100);
    let to = tokens(11, 50, addr(2), 7);
    let r = transfer_checked(&addr(9), from, to, &addr(50), 1, Authority::External(addr(2)));
    assert_eq!(r, Err(Error::UnauthorizedCaller));
}

#[test]
fn token_transfer_needs_one_asset() {
    let from = tokens(10, 50, addr(1), 100);
    let to = tokens(11, 51, addr(2), 7);
    let r = transfer_checked(&addr(9), from, to, &addr(50), 1, Authority::External(addr(1)));
    assert_eq!(r, Err(Error::AddressMismatch));
    let r = transfer_checked(&addr(9), from, from, &addr(51), 1, Authority::External(addr(1)));
    assert_eq!(r, Err(Error::AddressMismatch));
}

#[test]
fn token_transfer_of_more_than_held_fails() {
    let from = tokens(10, 50, addr(1), 100);
    let to = tokens(11, 50, addr(2), 7);
    let r = transfer_checked(&addr(9), from, to, &addr(50), 101, Authority::External(addr(1)));
    assert_eq!(r, Err(Error::InsufficientBalance));
}
