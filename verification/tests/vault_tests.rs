use custody::address::{Address, DerivationError};
use custody::engine::Account;
use custody::error::Error;
use custody::vault::{
    close, deposit, initialize, locate, state_seed_list, survey, vault_seed_list, withdraw, Close,
    Deposit, Initialize, InitializeBumps, StateAccount, VaultAccounts, VaultState, Withdraw,
};

fn addr(b: u8) -> Address {
    Address { bytes: [b; 32] }
}

fn fresh(owner_balance: u64) -> VaultAccounts {
    let program = addr(200);
    let owner = addr(1);
    let (state_key, _) = custody::address::derive(&state_seed_list(&owner), &program).unwrap();
    let (vault_key, _) = custody::address::derive(&vault_seed_list(&state_key), &program).unwrap();
    VaultAccounts {
        program,
        signer: Account { key: owner, balance: owner_balance, retained: 10 },
        vault: Account { key: vault_key, balance: 0, retained: 0 },
        vault_state: StateAccount { key: state_key, balance: 0, record: None },
    }
}

fn active(owner_balance: u64, rent: u64) -> VaultAccounts {
    let mut a = fresh(owner_balance);
    assert_eq!(initialize(&mut a, rent), Ok(()));
    a
}

#[test]
fn seed_lists_hold_tag_and_address() {
    assert_eq!(state_seed_list(&addr(3)), vec![b"state".to_vec(), vec![3u8; 32]]);
    assert_eq!(vault_seed_list(&addr(4)), vec![b"vault".to_vec(), vec![4u8; 32]]);
}

#[test]
fn initialize_records_both_nonces_and_takes_the_rent() {
    let before = fresh(1000);
    let mut a = before;
    assert_eq!(initialize(&mut a, 30), Ok(()));
    let (_, state_bump) = custody::address::derive(&state_seed_list(&before.signer.key), &before.program).unwrap();
    let (_, vault_bump) = custody::address::derive(&vault_seed_list(&before.vault_state.key), &before.program).unwrap();
    assert_eq!(a.vault_state.record, Some(VaultState { vault_bump, state_bump }));
    assert_eq!(a.signer.balance, 970);
    assert_eq!(a.vault_state.balance, 30);
    assert_eq!(a.vault, before.vault);
    assert_eq!(locate(&a), Ok(VaultState { vault_bump, state_bump }));
}

#[test]
fn initialize_twice_is_rejected() {
    let mut a = active(1000, 30);
    let before = a;
    assert_eq!(initialize(&mut a, 30), Err(Error::RecordAlreadyExists));
    assert_eq!(a, before);
}

#[test]
fn initialize_with_a_substituted_vault_is_rejected() {
    let mut a = fresh(1000);
    a.vault.key = addr(77);
    let before = a;
    assert_eq!(initialize(&mut a, 30), Err(Error::AddressMismatch));
    assert_eq!(a, before);
}

#[test]
fn initialize_with_a_substituted_record_is_rejected() {
    let mut a = fresh(1000);
    a.vault_state.key = addr(77);
    let before = a;
    assert_eq!(initialize(&mut a, 30), Err(Error::AddressMismatch));
    assert_eq!(a, before);
}

#[test]
fn initialize_compares_the_record_address_before_it_looks_for_a_record() {
    let mut a = active(1000, 30);
    a.vault_state.key = addr(77);
    let before = a;
    assert_eq!(initialize(&mut a, 30), Err(Error::AddressMismatch));
    assert_eq!(a, before);
    assert_eq!(survey(&a, 30), Err(Error::AddressMismatch));
    let mut b = active(1000, 30);
    b.signer.key = addr(2);
    let before = b;
    assert_eq!(initialize(&mut b, 30), Err(Error::AddressMismatch));
    assert_eq!(b, before);
}

#[test]
fn initialize_looks_for_a_record_before_it_compares_the_vault() {
    let mut a = active(1000, 30);
    a.vault.key = addr(66);
    let before = a;
    assert_eq!(initialize(&mut a, 30), Err(Error::RecordAlreadyExists));
    assert_eq!(a, before);
}

#[test]
fn initialize_compares_the_vault_before_it_asks_for_the_rent() {
    let mut a = fresh(0);
    a.vault.key = addr(66);
    assert_eq!(survey(&a, 30), Err(Error::AddressMismatch));
}

#[test]
fn initialize_needs_the_rent_beside_the_retained_balance() {
    let mut a = fresh(39);
    let before = a;
    assert_eq!(initialize(&mut a, 30), Err(Error::InsufficientBalance));
    assert_eq!(a, before);
    let mut b = fresh(40);
    assert_eq!(initialize(&mut b, 30), Ok(()));
    assert_eq!(b.signer.balance, 10);
}

#[test]
fn survey_finds_the_nonces() {
    let a = fresh(1000);
    let (_, state_bump) = custody::address::derive(&state_seed_list(&a.signer.key), &a.program).unwrap();
    let (_, vault_bump) = custody::address::derive(&vault_seed_list(&a.vault_state.key), &a.program).unwrap();
    assert_eq!(survey(&a, 30), Ok(InitializeBumps { vault: vault_bump, vault_state: state_bump }));
}

#[test]
fn deposit_before_initialize_finds_no_record() {
    let mut a = fresh(1000);
    let before = a;
    assert_eq!(deposit(&mut a, 5), Err(Error::RecordNotFound));
    assert_eq!(withdraw(&mut a, 5), Err(Error::RecordNotFound));
    assert_eq!(close(&mut a), Err(Error::RecordNotFound));
    assert_eq!(a, before);
}

#[test]
fn deposits_and_withdrawals_are_conserved() {
    let mut a = active(1000, 30);
    assert_eq!(deposit(&mut a, 100), Ok(()));
    assert_eq!(deposit(&mut a, 250), Ok(()));
    assert_eq!(withdraw(&mut a, 70), Ok(()));
    assert_eq!(withdraw(&mut a, 1000), Err(Error::InsufficientBalance));
    assert_eq!(deposit(&mut a, 5), Ok(()));
    assert_eq!(a.vault.balance, 100 + 250 - 70 + 5);
    assert_eq!(a.signer.balance, 970 - 100 - 250 + 70 - 5);
    assert_eq!(a.vault_state.balance, 30);
}

#[test]
fn deposit_leaves_the_retained_balance() {
    let mut a = active(1000, 30);
    let before = a;
    assert_eq!(deposit(&mut a, 961), Err(Error::InsufficientBalance));
    assert_eq!(a, before);
    assert_eq!(deposit(&mut a, 960), Ok(()));
    assert_eq!(a.signer.balance, 10);
    assert_eq!(a.vault.balance, 960);
}

#[test]
fn withdraw_of_more_than_the_balance_changes_nothing() {
    let mut a = active(1000, 30);
    assert_eq!(deposit(&mut a, 100), Ok(()));
    let before = a;
    assert_eq!(withdraw(&mut a, 101), Err(Error::InsufficientBalance));
    assert_eq!(a, before);
    assert_eq!(withdraw(&mut a, 100), Ok(()));
    assert_eq!(a.vault.balance, 0);
    assert_eq!(a.signer.balance, 970);
}

#[test]
fn close_returns_balance_and_rent_and_destroys_the_record() {
    let mut a = active(1000, 30);
    assert_eq!(deposit(&mut a, 400), Ok(()));
    assert_eq!(close(&mut a), Ok(()));
    assert_eq!(a.vault.balance, 0);
    assert_eq!(a.vault_state.balance, 0);
    assert_eq!(a.vault_state.record, None);
    assert_eq!(a.signer.balance, 1000);
}

#[test]
fn operations_after_close_find_no_record() {
    let mut a = active(1000, 30);
    assert_eq!(close(&mut a), Ok(()));
    let before = a;
    assert_eq!(deposit(&mut a, 1), Err(Error::RecordNotFound));
    assert_eq!(withdraw(&mut a, 1), Err(Error::RecordNotFound));
    assert_eq!(close(&mut a), Err(Error::RecordNotFound));
    assert_eq!(a, before);
}

#[test]
fn a_substituted_vault_is_rejected_by_every_operation() {
    let mut a = active(1000, 30);
    assert_eq!(deposit(&mut a, 100), Ok(()));
    a.vault.key = addr(66);
    let before = a;
    assert_eq!(deposit(&mut a, 1), Err(Error::AddressMismatch));
    assert_eq!(withdraw(&mut a, 1), Err(Error::AddressMismatch));
    assert_eq!(close(&mut a), Err(Error::AddressMismatch));
    assert_eq!(a, before);
}

#[test]
fn a_substituted_depositor_is_rejected_by_every_operation() {
    let mut a = active(1000, 30);
    assert_eq!(deposit(&mut a, 100), Ok(()));
    a.signer.key = addr(2);
    let before = a;
    assert_eq!(deposit(&mut a, 1), Err(Error::AddressMismatch));
    assert_eq!(withdraw(&mut a, 1), Err(Error::AddressMismatch));
    assert_eq!(close(&mut a), Err(Error::AddressMismatch));
    assert_eq!(a, before);
}

#[test]
fn a_changed_nonce_is_rejected() {
    let mut a = active(1000, 30);
    let state = a.vault_state.record.unwrap();
    a.vault_state.record = Some(VaultState { vault_bump: state.vault_bump - 1, state_bump: state.state_bump });
    assert_eq!(locate(&a), Err(Error::AddressMismatch));
    a.vault_state.record = Some(VaultState { vault_bump: state.vault_bump, state_bump: 0 });
    assert_eq!(locate(&a), Err(Error::AddressMismatch));
}

#[test]
fn initialize_method_writes_the_record() {
    let mut ctx = Initialize { accounts: fresh(1000) };
    let before = ctx.accounts;
    assert_eq!(ctx.initialize(&InitializeBumps { vault: 250, vault_state: 251 }), Ok(()));
    assert_eq!(ctx.accounts.vault_state.record, Some(VaultState { vault_bump: 250, state_bump: 251 }));
    assert_eq!(ctx.accounts.signer, before.signer);
    assert_eq!(ctx.accounts.vault, before.vault);
}

#[test]
fn deposit_method_moves_the_amount() {
    let mut ctx = Deposit { accounts: active(1000, 30) };
    assert_eq!(ctx.deposit(20), Ok(()));
    assert_eq!(ctx.accounts.vault.balance, 20);
    assert_eq!(ctx.accounts.signer.balance, 950);
}

#[test]
fn withdraw_method_cannot_sign_for_another_account() {
    let mut a = active(1000, 30);
    assert_eq!(deposit(&mut a, 100), Ok(()));
    let mut ctx = Withdraw { accounts: a };
    ctx.accounts.vault.key = addr(66);
    let before = ctx.accounts;
    assert_eq!(ctx.withdraw(1), Err(Error::UnauthorizedCaller));
    assert_eq!(ctx.accounts, before);
    let mut good = Withdraw { accounts: a };
    assert_eq!(good.withdraw(40), Ok(()));
    assert_eq!(good.accounts.vault.balance, 60);
    assert_eq!(good.accounts.signer.balance, 910);
}

#[test]
fn close_method_sweeps_the_vault() {
    let mut a = active(1000, 30);
    assert_eq!(deposit(&mut a, 100), Ok(()));
    let mut ctx = Close { accounts: a };
    assert_eq!(ctx.close(), Ok(()));
    assert_eq!(ctx.accounts.signer.balance, 1000);
    assert_eq!(ctx.accounts.vault.balance, 0);
    assert_eq!(ctx.accounts.vault_state.record, None);
    let mut none = Close { accounts: fresh(5) };
    assert_eq!(none.close(), Err(Error::RecordNotFound));
}

#[test]
fn derivation_error_is_carried() {
    assert_eq!(
        Error::Derivation(DerivationError::Exhausted),
        Error::Derivation(DerivationError::Exhausted)
    );
    assert_ne!(Error::Derivation(DerivationError::Exhausted), Error::AddressMismatch);
}
