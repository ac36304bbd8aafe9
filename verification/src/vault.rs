//! The vault: one depositor's native balance, held at a custodial address
//! that only the program signs for.

use vstd::prelude::*;
use crate::address::{address_at, derived, rederive, push_nonce, seed_bytes, Address, DerivationError};
use crate::engine::{authorize, is_address, transfer, transferred, Account, Authority};
use crate::error::{outcome, state_after, Error};

verus! {

/// The record kept for one depositor: the nonces of its two addresses.
#[derive(Clone, Copy, Debug, PartialEq, Eq)]
pub struct VaultState {
    pub vault_bump: u8,
    pub state_bump: u8,
}

/// The nonces found while the accounts of `initialize` are checked.
#[derive(Clone, Copy, Debug, PartialEq, Eq)]
pub struct InitializeBumps {
    pub vault: u8,
    pub vault_state: u8,
}

/// The account that stores a depositor's record. `balance` is the rent that
/// pays for the storage; `record` is `None` while no record exists.
#[derive(Clone, Copy, Debug, PartialEq, Eq)]
pub struct StateAccount {
    pub key: Address,
    pub balance: u64,
    pub record: Option<VaultState>,
}

/// The accounts that a vault operation is handed, as the ledger holds them.
#[derive(Clone, Copy, Debug, PartialEq, Eq)]
pub struct VaultAccounts {
    /// The identity of the vault program.
    pub program: Address,
    /// The depositor, who signed the operation.
    pub signer: Account,
    /// The custodial balance.
    pub vault: Account,
    pub vault_state: StateAccount,
}

impl VaultAccounts {
    /// The three balances together fit the ledger's counter.
    pub open spec fn fits(&self) -> bool {
        self.signer.balance + self.vault.balance + self.vault_state.balance <= u64::MAX
    }
}

/// The accounts of `initialize`.
#[derive(Clone, Copy, Debug, PartialEq, Eq)]
pub struct Initialize {
    pub accounts: VaultAccounts,
}

/// The accounts of `deposit`.
#[derive(Clone, Copy, Debug, PartialEq, Eq)]
pub struct Deposit {
    pub accounts: VaultAccounts,
}

/// The accounts of `withdraw`.
#[derive(Clone, Copy, Debug, PartialEq, Eq)]
pub struct Withdraw {
    pub accounts: VaultAccounts,
}

/// The accounts of `close`.
#[derive(Clone, Copy, Debug, PartialEq, Eq)]
pub struct Close {
    pub accounts: VaultAccounts,
}

/// The bytes of the tag `state`.
pub open spec fn state_tag() -> Seq<u8> {
    seq![115u8, 116u8, 97u8, 116u8, 101u8]
}

/// The bytes of the tag `vault`.
pub open spec fn vault_tag() -> Seq<u8> {
    seq![118u8, 97u8, 117u8, 108u8, 116u8]
}

/// The seeds of a depositor's record: the tag `state`, then the depositor.
pub open spec fn state_seeds(signer: Address) -> Seq<Seq<u8>> {
    seq![state_tag(), signer@]
}

/// The seeds of a custodial balance: the tag `vault`, then the record's address.
pub open spec fn vault_seeds(state_key: Address) -> Seq<Seq<u8>> {
    seq![vault_tag(), state_key@]
}

/// The seeds of the record of `signer`.
pub fn state_seed_list(signer: &Address) -> (r: Vec<Vec<u8>>)
    ensures
        seed_bytes(&r) == state_seeds(*signer),
{
    let mut tag: Vec<u8> = Vec::new();
    tag.push(115);
    tag.push(116);
    tag.push(97);
    tag.push(116);
    tag.push(101);
    assert(tag@ =~= state_tag());
    let mut seeds: Vec<Vec<u8>> = Vec::new();
    seeds.push(tag);
    seeds.push(signer.to_seed());
    assert(seed_bytes(&seeds) =~= state_seeds(*signer));
    seeds
}

/// The seeds of the custodial balance that belongs to the record at `state_key`.
pub fn vault_seed_list(state_key: &Address) -> (r: Vec<Vec<u8>>)
    ensures
        seed_bytes(&r) == vault_seeds(*state_key),
{
    let mut tag: Vec<u8> = Vec::new();
    tag.push(118);
    tag.push(97);
    tag.push(117);
    tag.push(108);
    tag.push(116);
    assert(tag@ =~= vault_tag());
    let mut seeds: Vec<Vec<u8>> = Vec::new();
    seeds.push(tag);
    seeds.push(state_key.to_seed());
    assert(seed_bytes(&seeds) =~= vault_seeds(*state_key));
    seeds
}

/// The accounts with the record written.
pub open spec fn initialized(a: VaultAccounts, bumps: InitializeBumps) -> VaultAccounts {
    VaultAccounts {
        vault_state: StateAccount {
            record: Some(VaultState { vault_bump: bumps.vault, state_bump: bumps.vault_state }),
            ..a.vault_state
        },
        ..a
    }
}

/// The transfer of a deposit: from the depositor, who signed, to the vault.
pub open spec fn deposited(a: VaultAccounts, amount: u64) -> Result<VaultAccounts, Error> {
    match transferred(a.signer, a.vault, amount, Some(a.signer.key@), true) {
        Ok((signer, vault)) => Ok(VaultAccounts { signer, vault, ..a }),
        Err(e) => Err(e),
    }
}

/// The transfer of a withdrawal: from the vault, signed for through its
/// seeds and the recorded nonce, to the depositor.
pub open spec fn withdrawn(a: VaultAccounts, amount: u64) -> Result<VaultAccounts, Error> {
    match a.vault_state.record {
        None => Err(Error::RecordNotFound),
        Some(state) => match transferred(
            a.vault,
            a.signer,
            amount,
            address_at(vault_seeds(a.vault_state.key), state.vault_bump, a.program@),
            false,
        ) {
            Ok((vault, signer)) => Ok(VaultAccounts { signer, vault, ..a }),
            Err(e) => Err(e),
        },
    }
}

/// Closing: the whole vault balance is withdrawn, the record is destroyed
/// and its rent goes to the depositor.
pub open spec fn closed(a: VaultAccounts) -> Result<VaultAccounts, Error> {
    match withdrawn(a, a.vault.balance) {
        Ok(b) => Ok(
            VaultAccounts {
                signer: Account { balance: (b.signer.balance + b.vault_state.balance) as u64, ..b.signer },
                vault_state: StateAccount { balance: 0, record: None, ..b.vault_state },
                ..b
            },
        ),
        Err(e) => Err(e),
    }
}

impl Initialize {
    /// Writes the record with the two nonces.
    pub fn initialize(&mut self, bumps: &InitializeBumps) -> (r: Result<(), Error>)
        ensures
            r == Ok::<(), Error>(()),
            final(self).accounts == initialized(old(self).accounts, *bumps),
    {
        self.accounts.vault_state.record = Some(
            VaultState { vault_bump: bumps.vault, state_bump: bumps.vault_state },
        );
        Ok(())
    }
}

impl Deposit {
    /// Moves `amount` from the depositor to the vault.
    pub fn deposit(&mut self, amount: u64) -> (r: Result<(), Error>)
        requires
            old(self).accounts.fits(),
        ensures
            r == outcome(deposited(old(self).accounts, amount)),
            final(self).accounts == state_after(old(self).accounts, deposited(old(self).accounts, amount)),
            final(self).accounts.fits(),
    {
        let authority = Authority::External(self.accounts.signer.key);
        match transfer(&self.accounts.program, self.accounts.signer, self.accounts.vault, amount, authority) {
            Ok((signer, vault)) => {
                self.accounts.signer = signer;
                self.accounts.vault = vault;
                Ok(())
            },
            Err(e) => Err(e),
        }
    }
}

impl Withdraw {
    /// Moves `amount` from the vault to the depositor, the program signing
    /// for the vault.
    pub fn withdraw(&mut self, amount: u64) -> (r: Result<(), Error>)
        requires
            old(self).accounts.fits(),
        ensures
            r == outcome(withdrawn(old(self).accounts, amount)),
            final(self).accounts == state_after(old(self).accounts, withdrawn(old(self).accounts, amount)),
            final(self).accounts.fits(),
    {
        let state = match self.accounts.vault_state.record {
            Some(state) => state,
            None => {
                return Err(Error::RecordNotFound);
            },
        };
        let seeds = push_nonce(vault_seed_list(&self.accounts.vault_state.key), state.vault_bump);
        let authority = Authority::Delegated(authorize(seeds));
        match transfer(&self.accounts.program, self.accounts.vault, self.accounts.signer, amount, authority) {
            Ok((vault, signer)) => {
                self.accounts.signer = signer;
                self.accounts.vault = vault;
                Ok(())
            },
            Err(e) => Err(e),
        }
    }
}

impl Close {
    /// Moves the whole vault balance to the depositor, destroys the record
    /// and hands its rent to the depositor.
    pub fn close(&mut self) -> (r: Result<(), Error>)
        requires
            old(self).accounts.fits(),
        ensures
            r == outcome(closed(old(self).accounts)),
            final(self).accounts == state_after(old(self).accounts, closed(old(self).accounts)),
            final(self).accounts.fits(),
    {
        let mut inner = Withdraw { accounts: self.accounts };
        let amount = self.accounts.vault.balance;
        match inner.withdraw(amount) {
            Ok(()) => {
                let b = inner.accounts;
                self.accounts.signer = Account {
                    key: b.signer.key,
                    balance: b.signer.balance + b.vault_state.balance,
                    retained: b.signer.retained,
                };
                self.accounts.vault = b.vault;
                self.accounts.vault_state = StateAccount { key: b.vault_state.key, balance: 0, record: None };
                Ok(())
            },
            Err(e) => Err(e),
        }
    }
}

/// Whether the accounts of an existing vault are the ones that its record
/// derives: the record's address from the depositor, the vault's from the
/// record's address, each under its recorded nonce.
pub open spec fn located(a: VaultAccounts) -> Result<VaultState, Error> {
    match a.vault_state.record {
        None => Err(Error::RecordNotFound),
        Some(state) => if address_at(state_seeds(a.signer.key), state.state_bump, a.program@) != Some(
            a.vault_state.key@,
        ) {
            Err(Error::AddressMismatch)
        } else if address_at(vault_seeds(a.vault_state.key), state.vault_bump, a.program@) != Some(
            a.vault.key@,
        ) {
            Err(Error::AddressMismatch)
        } else {
            Ok(state)
        },
    }
}

/// Derives both addresses again from the recorded nonces and holds the
/// supplied accounts against them.
pub fn locate(a: &VaultAccounts) -> (r: Result<VaultState, Error>)
    ensures
        r == located(*a),
{
    match a.vault_state.record {
        None => Err(Error::RecordNotFound),
        Some(state) => {
            let record = rederive(state_seed_list(&a.signer.key), state.state_bump, &a.program);
            if !is_address(&record, &a.vault_state.key) {
                return Err(Error::AddressMismatch);
            }
            let vault = rederive(vault_seed_list(&a.vault_state.key), state.vault_bump, &a.program);
            if !is_address(&vault, &a.vault.key) {
                return Err(Error::AddressMismatch);
            }
            Ok(state)
        },
    }
}

/// Whether a vault may be created on these accounts, and with which nonces.
/// The record's address is searched for and compared first; then no record
/// may exist there; then the vault's address is searched for and compared;
/// last, the depositor must hold the rent beside what it must keep.
pub open spec fn admitted(a: VaultAccounts, rent: u64) -> Result<InitializeBumps, Error> {
    match derived(state_seeds(a.signer.key), a.program@) {
        None => Err(Error::Derivation(DerivationError::Exhausted)),
        Some((record, state_bump)) => if record != a.vault_state.key@ {
            Err(Error::AddressMismatch)
        } else if a.vault_state.record is Some {
            Err(Error::RecordAlreadyExists)
        } else {
            match derived(vault_seeds(a.vault_state.key), a.program@) {
                None => Err(Error::Derivation(DerivationError::Exhausted)),
                Some((vault, vault_bump)) => if vault != a.vault.key@ {
                    Err(Error::AddressMismatch)
                } else if a.signer.balance < rent + a.signer.retained {
                    Err(Error::InsufficientBalance)
                } else {
                    Ok(InitializeBumps { vault: vault_bump, vault_state: state_bump })
                },
            }
        },
    }
}

/// Checks the accounts of `initialize` and finds the two nonces.
pub fn survey(a: &VaultAccounts, rent: u64) -> (r: Result<InitializeBumps, Error>)
    ensures
        r == admitted(*a, rent),
{
    let state_bump: u8 = match crate::address::derive(&state_seed_list(&a.signer.key), &a.program) {
        Err(e) => {
            return Err(Error::Derivation(e));
        },
        Ok((record, bump)) => {
            if !is_address(&Some(record), &a.vault_state.key) {
                return Err(Error::AddressMismatch);
            }
            bump
        },
    };
    if a.vault_state.record.is_some() {
        return Err(Error::RecordAlreadyExists);
    }
    let vault_bump: u8 = match crate::address::derive(&vault_seed_list(&a.vault_state.key), &a.program) {
        Err(e) => {
            return Err(Error::Derivation(e));
        },
        Ok((vault, bump)) => {
            if !is_address(&Some(vault), &a.vault.key) {
                return Err(Error::AddressMismatch);
            }
            bump
        },
    };
    if a.signer.balance < rent || a.signer.balance - rent < a.signer.retained {
        return Err(Error::InsufficientBalance);
    }
    Ok(InitializeBumps { vault: vault_bump, vault_state: state_bump })
}

/// The accounts after the depositor has paid the record's rent.
pub open spec fn funded(a: VaultAccounts, rent: u64) -> VaultAccounts {
    VaultAccounts {
        signer: Account { balance: (a.signer.balance - rent) as u64, ..a.signer },
        vault_state: StateAccount { balance: (a.vault_state.balance + rent) as u64, ..a.vault_state },
        ..a
    }
}

/// What `initialize` does.
pub open spec fn initialize_result(a: VaultAccounts, rent: u64) -> Result<VaultAccounts, Error> {
    match admitted(a, rent) {
        Ok(bumps) => Ok(initialized(funded(a, rent), bumps)),
        Err(e) => Err(e),
    }
}

/// What `deposit` does.
pub open spec fn deposit_result(a: VaultAccounts, amount: u64) -> Result<VaultAccounts, Error> {
    match located(a) {
        Ok(_) => deposited(a, amount),
        Err(e) => Err(e),
    }
}

/// What `withdraw` does.
pub open spec fn withdraw_result(a: VaultAccounts, amount: u64) -> Result<VaultAccounts, Error> {
    match located(a) {
        Ok(_) => withdrawn(a, amount),
        Err(e) => Err(e),
    }
}

/// What `close` does.
pub open spec fn close_result(a: VaultAccounts) -> Result<VaultAccounts, Error> {
    match located(a) {
        Ok(_) => closed(a),
        Err(e) => Err(e),
    }
}

/// Creates the depositor's vault: checks that both supplied addresses are the
/// derived ones and that no record exists, takes the record's rent from the
/// depositor and writes the record with the two nonces found.
pub fn initialize(accounts: &mut VaultAccounts, rent: u64) -> (r: Result<(), Error>)
    requires
        old(accounts).fits(),
    ensures
        r == outcome(initialize_result(*old(accounts), rent)),
        *final(accounts) == state_after(*old(accounts), initialize_result(*old(accounts), rent)),
        final(accounts).fits(),
{
    let bumps = match survey(accounts, rent) {
        Ok(bumps) => bumps,
        Err(e) => {
            return Err(e);
        },
    };
    let mut ctx = Initialize { accounts: *accounts };
    ctx.accounts.signer.balance = accounts.signer.balance - rent;
    ctx.accounts.vault_state.balance = accounts.vault_state.balance + rent;
    let r = ctx.initialize(&bumps);
    *accounts = ctx.accounts;
    r
}

/// Deposits `amount` into the vault, once the supplied accounts are found to
/// be the derived ones.
pub fn deposit(accounts: &mut VaultAccounts, amount: u64) -> (r: Result<(), Error>)
    requires
        old(accounts).fits(),
    ensures
        r == outcome(deposit_result(*old(accounts), amount)),
        *final(accounts) == state_after(*old(accounts), deposit_result(*old(accounts), amount)),
        final(accounts).fits(),
{
    if let Err(e) = locate(accounts) {
        return Err(e);
    }
    let mut ctx = Deposit { accounts: *accounts };
    let r = ctx.deposit(amount);
    *accounts = ctx.accounts;
    r
}

/// Withdraws `amount` from the vault, once the supplied accounts are found
/// to be the derived ones.
pub fn withdraw(accounts: &mut VaultAccounts, amount: u64) -> (r: Result<(), Error>)
    requires
        old(accounts).fits(),
    ensures
        r == outcome(withdraw_result(*old(accounts), amount)),
        *final(accounts) == state_after(*old(accounts), withdraw_result(*old(accounts), amount)),
        final(accounts).fits(),
{
    if let Err(e) = locate(accounts) {
        return Err(e);
    }
    let mut ctx = Withdraw { accounts: *accounts };
    let r = ctx.withdraw(amount);
    *accounts = ctx.accounts;
    r
}

/// Closes the vault, once the supplied accounts are found to be the derived
/// ones: the depositor gets the whole balance and the record's rent, and the
/// record is gone.
pub fn close(accounts: &mut VaultAccounts) -> (r: Result<(), Error>)
    requires
        old(accounts).fits(),
    ensures
        r == outcome(close_result(*old(accounts))),
        *final(accounts) == state_after(*old(accounts), close_result(*old(accounts))),
        final(accounts).fits(),
{
    if let Err(e) = locate(accounts) {
        return Err(e);
    }
    let mut ctx = Close { accounts: *accounts };
    let r = ctx.close();
    *accounts = ctx.accounts;
    r
}

} // verus!
