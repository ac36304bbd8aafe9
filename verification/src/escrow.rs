//! The escrow: one party's asset, held in trust at a custodial account
//! until the counterparty pays for it or the maker takes it back.

use vstd::prelude::*;
use vstd::bytes::{spec_u64_to_le_bytes, u64_to_le_bytes};
use crate::address::{address_at, derived, push_nonce, rederive, seed_bytes, Address, DerivationError};
use crate::engine::{authorize, is_address, tokens_transferred, transfer_checked, Authority, TokenAccount};
use crate::error::{outcome, state_after, Error};

verus! {

/// The record of one offer.
#[derive(Clone, Copy, Debug, PartialEq, Eq)]
pub struct Escrow {
    /// Chosen by the maker, to tell its offers apart.
    pub seed: u64,
    pub maker: Address,
    pub mint_a: Address,
    pub mint_b: Address,
    /// What the maker wants of the asset `mint_b`.
    pub receive: u64,
    pub bump: u8,
}

/// The nonce found while the accounts of `make` are checked.
#[derive(Clone, Copy, Debug, PartialEq, Eq)]
pub struct MakeBumps {
    pub escrow: u8,
}

/// The identities of the programs that an escrow operation goes through.
#[derive(Clone, Copy, Debug, PartialEq, Eq)]
pub struct Programs {
    /// The escrow program, which owns the records.
    pub escrow: Address,
    /// The engine that moves assets.
    pub token: Address,
    /// The program that owns the addresses of holding accounts.
    pub associated_token: Address,
}

/// The accounts that an escrow operation is handed, as the ledger holds them.
#[derive(Clone, Copy, Debug, PartialEq, Eq)]
pub struct EscrowAccounts {
    pub programs: Programs,
    /// The identity that signed the operation.
    pub signer: Address,
    pub mint_a: Address,
    pub mint_b: Address,
    pub maker_ata_a: TokenAccount,
    pub maker_ata_b: TokenAccount,
    pub taker_ata_a: TokenAccount,
    pub taker_ata_b: TokenAccount,
    pub escrow_key: Address,
    /// The record at `escrow_key`, while it exists.
    pub escrow: Option<Escrow>,
    /// The holding account.
    pub vault: TokenAccount,
    /// Whether the holding account exists.
    pub vault_open: bool,
    /// The maker's native balance.
    pub maker_funds: u64,
    /// What the ledger asks for storing the record and the holding account.
    pub rent_due: u64,
    /// The rent that the record and the holding account hold.
    pub rent_held: u64,
}

impl EscrowAccounts {
    /// The balances of each asset together fit the ledger's counter.
    pub open spec fn fits(&self) -> bool {
        &&& self.maker_ata_a.amount + self.taker_ata_a.amount + self.vault.amount <= u64::MAX
        &&& self.maker_ata_b.amount + self.taker_ata_b.amount <= u64::MAX
        &&& self.maker_funds + self.rent_held <= u64::MAX
    }
}

/// The accounts of `make`.
#[derive(Clone, Copy, Debug, PartialEq, Eq)]
pub struct Make {
    pub accounts: EscrowAccounts,
}

/// The bytes of the tag `maker`.
pub open spec fn maker_tag() -> Seq<u8> {
    seq![109u8, 97u8, 107u8, 101u8, 114u8]
}

/// The seeds of an offer's record: the tag `maker`, the maker, and the
/// maker's number for the offer in eight bytes, lowest first.
pub open spec fn escrow_seeds(maker: Address, seed: u64) -> Seq<Seq<u8>> {
    seq![maker_tag(), maker@, spec_u64_to_le_bytes(seed)]
}

/// The seeds of the holding account of `holder` for the asset `mint`.
pub open spec fn holding_seeds(holder: Address, token: Address, mint: Address) -> Seq<Seq<u8>> {
    seq![holder@, token@, mint@]
}

/// The seeds of the record of the offer `seed` of `maker`.
pub fn escrow_seed_list(maker: &Address, seed: u64) -> (r: Vec<Vec<u8>>)
    ensures
        seed_bytes(&r) == escrow_seeds(*maker, seed),
{
    let mut tag: Vec<u8> = Vec::new();
    tag.push(109);
    tag.push(97);
    tag.push(107);
    tag.push(101);
    tag.push(114);
    assert(tag@ =~= maker_tag());
    let mut seeds: Vec<Vec<u8>> = Vec::new();
    seeds.push(tag);
    seeds.push(maker.to_seed());
    seeds.push(u64_to_le_bytes(seed));
    assert(seed_bytes(&seeds) =~= escrow_seeds(*maker, seed));
    seeds
}

/// The seeds of the holding account of `holder` for the asset `mint`.
pub fn holding_seed_list(holder: &Address, token: &Address, mint: &Address) -> (r: Vec<Vec<u8>>)
    ensures
        seed_bytes(&r) == holding_seeds(*holder, *token, *mint),
{
    let mut seeds: Vec<Vec<u8>> = Vec::new();
    seeds.push(holder.to_seed());
    seeds.push(token.to_seed());
    seeds.push(mint.to_seed());
    assert(seed_bytes(&seeds) =~= holding_seeds(*holder, *token, *mint));
    seeds
}

/// The address of the holding account of `holder` for `mint`, as a search finds it.
pub open spec fn holding_address(programs: Programs, holder: Address, mint: Address) -> Option<Seq<u8>> {
    match derived(holding_seeds(holder, programs.token, mint), programs.associated_token@) {
        Some((address, _)) => Some(address),
        None => None,
    }
}

/// Whether `key` is the holding account of `holder` for `mint`.
pub open spec fn holding_checked(programs: Programs, holder: Address, mint: Address, key: Address) -> Result<(), Error> {
    match holding_address(programs, holder, mint) {
        None => Err(Error::Derivation(DerivationError::Exhausted)),
        Some(address) => if address == key@ {
            Ok(())
        } else {
            Err(Error::AddressMismatch)
        },
    }
}

/// Derives the holding account of `holder` for `mint` and holds `key` against it.
pub fn check_holding(programs: &Programs, holder: &Address, mint: &Address, key: &Address) -> (r: Result<(), Error>)
    ensures
        r == holding_checked(*programs, *holder, *mint, *key),
{
    let seeds = holding_seed_list(holder, &programs.token, mint);
    match crate::address::derive(&seeds, &programs.associated_token) {
        Err(e) => Err(Error::Derivation(e)),
        Ok((address, _)) => {
            if is_address(&Some(address), key) {
                Ok(())
            } else {
                Err(Error::AddressMismatch)
            }
        },
    }
}

/// The accounts with the record of the offer written.
pub open spec fn recorded(a: EscrowAccounts, seed: u64, receive: u64, bumps: MakeBumps) -> EscrowAccounts {
    EscrowAccounts {
        escrow: Some(
            Escrow {
                seed,
                maker: a.signer,
                mint_a: a.mint_a,
                mint_b: a.mint_b,
                receive,
                bump: bumps.escrow,
            },
        ),
        ..a
    }
}

/// The funding of an offer: the maker, who signed, moves `deposit` of the
/// first asset into the holding account.
pub open spec fn funded(a: EscrowAccounts, deposit: u64) -> Result<EscrowAccounts, Error> {
    if !a.vault_open {
        Err(Error::RecordNotFound)
    } else {
        match tokens_transferred(a.maker_ata_a, a.vault, a.mint_a, deposit, Some(a.signer@)) {
            Ok((maker_ata_a, vault)) => Ok(EscrowAccounts { maker_ata_a, vault, ..a }),
            Err(e) => Err(e),
        }
    }
}

impl Make {
    /// Writes the record of the offer.
    pub fn init_escrow(&mut self, seed: u64, receive: u64, bumps: &MakeBumps) -> (r: Result<(), Error>)
        ensures
            r == Ok::<(), Error>(()),
            final(self).accounts == recorded(old(self).accounts, seed, receive, *bumps),
    {
        self.accounts.escrow = Some(
            Escrow {
                seed,
                maker: self.accounts.signer,
                mint_a: self.accounts.mint_a,
                mint_b: self.accounts.mint_b,
                receive,
                bump: bumps.escrow,
            },
        );
        Ok(())
    }

    /// Moves `deposit` of the first asset from the maker into the holding account.
    pub fn deposit(&mut self, deposit: u64) -> (r: Result<(), Error>)
        requires
            old(self).accounts.fits(),
        ensures
            r == outcome(funded(old(self).accounts, deposit)),
            final(self).accounts == state_after(old(self).accounts, funded(old(self).accounts, deposit)),
            final(self).accounts.fits(),
    {
        if !self.accounts.vault_open {
            return Err(Error::RecordNotFound);
        }
        let authority = Authority::External(self.accounts.signer);
        match transfer_checked(
            &self.accounts.programs.escrow,
            self.accounts.maker_ata_a,
            self.accounts.vault,
            &self.accounts.mint_a,
            deposit,
            authority,
        ) {
            Ok((maker_ata_a, vault)) => {
                self.accounts.maker_ata_a = maker_ata_a;
                self.accounts.vault = vault;
                Ok(())
            },
            Err(e) => Err(e),
        }
    }
}

/// Whether an offer may be made on these accounts, and with which nonce.
/// The record's address is searched for and compared first; then neither
/// the record nor the holding account may exist; then the holding account's
/// address is searched for and compared; then the account that the deposit
/// comes from must be the maker's own, in the first asset; last, the maker
/// must hold the rent of the two accounts.
pub open spec fn offered(a: EscrowAccounts, seed: u64) -> Result<MakeBumps, Error> {
    match derived(escrow_seeds(a.signer, seed), a.programs.escrow@) {
        None => Err(Error::Derivation(DerivationError::Exhausted)),
        Some((record, bump)) => if record != a.escrow_key@ {
            Err(Error::AddressMismatch)
        } else if a.escrow is Some || a.vault_open {
            Err(Error::RecordAlreadyExists)
        } else {
            match holding_checked(a.programs, a.escrow_key, a.mint_a, a.vault.key) {
                Ok(_) => if a.maker_ata_a.owner != a.signer || a.maker_ata_a.mint != a.mint_a {
                    Err(Error::AddressMismatch)
                } else if a.maker_funds < a.rent_due {
                    Err(Error::InsufficientBalance)
                } else {
                    Ok(MakeBumps { escrow: bump })
                },
                Err(e) => Err(e),
            }
        },
    }
}

/// Checks the accounts of `make` and finds the record's nonce.
pub fn offer(a: &EscrowAccounts, seed: u64) -> (r: Result<MakeBumps, Error>)
    ensures
        r == offered(*a, seed),
{
    let seeds = escrow_seed_list(&a.signer, seed);
    let bump: u8 = match crate::address::derive(&seeds, &a.programs.escrow) {
        Err(e) => {
            return Err(Error::Derivation(e));
        },
        Ok((record, bump)) => {
            if !is_address(&Some(record), &a.escrow_key) {
                return Err(Error::AddressMismatch);
            }
            bump
        },
    };
    if a.escrow.is_some() || a.vault_open {
        return Err(Error::RecordAlreadyExists);
    }
    if let Err(e) = check_holding(&a.programs, &a.escrow_key, &a.mint_a, &a.vault.key) {
        return Err(e);
    }
    if !a.maker_ata_a.owner.same(&a.signer) || !a.maker_ata_a.mint.same(&a.mint_a) {
        return Err(Error::AddressMismatch);
    }
    if a.maker_funds < a.rent_due {
        return Err(Error::InsufficientBalance);
    }
    Ok(MakeBumps { escrow: bump })
}

/// The accounts with the holding account created: empty, in the first
/// asset, owned by the record, and the rent of both accounts paid by the maker.
pub open spec fn opened(a: EscrowAccounts) -> EscrowAccounts {
    EscrowAccounts {
        vault: TokenAccount { key: a.vault.key, mint: a.mint_a, owner: a.escrow_key, amount: 0 },
        vault_open: true,
        maker_funds: (a.maker_funds - a.rent_due) as u64,
        rent_held: (a.rent_held + a.rent_due) as u64,
        ..a
    }
}

/// What `make` does.
pub open spec fn make_result(a: EscrowAccounts, seed: u64, deposit: u64, receive: u64) -> Result<EscrowAccounts, Error> {
    match offered(a, seed) {
        Ok(bumps) => funded(recorded(opened(a), seed, receive, bumps), deposit),
        Err(e) => Err(e),
    }
}

/// Makes an offer: checks the supplied addresses against the derived ones,
/// creates the record and the holding account, and moves the maker's deposit
/// in. Where any step is refused, nothing has happened.
pub fn make(accounts: &mut EscrowAccounts, seed: u64, deposit: u64, receive: u64) -> (r: Result<(), Error>)
    requires
        old(accounts).fits(),
    ensures
        r == outcome(make_result(*old(accounts), seed, deposit, receive)),
        *final(accounts) == state_after(*old(accounts), make_result(*old(accounts), seed, deposit, receive)),
        final(accounts).fits(),
{
    let bumps = match offer(accounts, seed) {
        Ok(bumps) => bumps,
        Err(e) => {
            return Err(e);
        },
    };
    let mut ctx = Make { accounts: *accounts };
    ctx.accounts.vault = TokenAccount {
        key: accounts.vault.key,
        mint: accounts.mint_a,
        owner: accounts.escrow_key,
        amount: 0,
    };
    ctx.accounts.vault_open = true;
    ctx.accounts.maker_funds = accounts.maker_funds - accounts.rent_due;
    ctx.accounts.rent_held = accounts.rent_held + accounts.rent_due;
    let _ = ctx.init_escrow(seed, receive, &bumps);
    match ctx.deposit(deposit) {
        Ok(()) => {
            *accounts = ctx.accounts;
            Ok(())
        },
        Err(e) => Err(e),
    }
}

/// Whether the accounts of an existing offer are the ones that its record
/// derives: the record's address from the maker and the offer's number under
/// the recorded nonce, the holding account from the record's address and
/// the first asset.
pub open spec fn located(a: EscrowAccounts) -> Result<Escrow, Error> {
    match a.escrow {
        None => Err(Error::RecordNotFound),
        Some(escrow) => if !a.vault_open {
            Err(Error::RecordNotFound)
        } else if address_at(escrow_seeds(escrow.maker, escrow.seed), escrow.bump, a.programs.escrow@)
            != Some(a.escrow_key@) {
            Err(Error::AddressMismatch)
        } else if a.vault.owner != a.escrow_key || a.vault.mint != escrow.mint_a {
            Err(Error::AddressMismatch)
        } else {
            match holding_checked(a.programs, a.escrow_key, escrow.mint_a, a.vault.key) {
                Ok(_) => Ok(escrow),
                Err(e) => Err(e),
            }
        },
    }
}

/// Derives the addresses of an existing offer again and holds the supplied
/// accounts against them.
pub fn locate(a: &EscrowAccounts) -> (r: Result<Escrow, Error>)
    ensures
        r == located(*a),
{
    let escrow = match a.escrow {
        None => {
            return Err(Error::RecordNotFound);
        },
        Some(escrow) => escrow,
    };
    if !a.vault_open {
        return Err(Error::RecordNotFound);
    }
    let record = rederive(escrow_seed_list(&escrow.maker, escrow.seed), escrow.bump, &a.programs.escrow);
    if !is_address(&record, &a.escrow_key) {
        return Err(Error::AddressMismatch);
    }
    if !a.vault.owner.same(&a.escrow_key) || !a.vault.mint.same(&escrow.mint_a) {
        return Err(Error::AddressMismatch);
    }
    match check_holding(&a.programs, &a.escrow_key, &escrow.mint_a, &a.vault.key) {
        Ok(()) => Ok(escrow),
        Err(e) => Err(e),
    }
}

/// The identity that the record's seeds sign as.
pub open spec fn record_signer(a: EscrowAccounts, escrow: Escrow) -> Option<Seq<u8>> {
    address_at(escrow_seeds(escrow.maker, escrow.seed), escrow.bump, a.programs.escrow@)
}

/// The accounts with the record and the holding account closed, and their
/// rent handed to the maker.
pub open spec fn settled(a: EscrowAccounts) -> EscrowAccounts {
    EscrowAccounts {
        escrow: None,
        vault_open: false,
        maker_funds: (a.maker_funds + a.rent_held) as u64,
        rent_held: 0,
        ..a
    }
}

/// What `take` does: the taker, who signed, pays the maker what the record
/// asks of the second asset; then the holding account, signed for through
/// the record's seeds, gives the taker all it holds; then both are closed
/// and their rent goes to the maker.
pub open spec fn take_result(a: EscrowAccounts) -> Result<EscrowAccounts, Error> {
    match located(a) {
        Err(e) => Err(e),
        Ok(escrow) => if a.maker_ata_b.owner != escrow.maker || a.taker_ata_a.owner != a.signer {
            Err(Error::AddressMismatch)
        } else {
            match tokens_transferred(a.taker_ata_b, a.maker_ata_b, escrow.mint_b, escrow.receive, Some(a.signer@)) {
                Err(e) => Err(e),
                Ok((taker_ata_b, maker_ata_b)) => match tokens_transferred(
                    a.vault,
                    a.taker_ata_a,
                    escrow.mint_a,
                    a.vault.amount,
                    record_signer(a, escrow),
                ) {
                    Err(e) => Err(e),
                    Ok((vault, taker_ata_a)) => Ok(
                        settled(EscrowAccounts { taker_ata_b, maker_ata_b, vault, taker_ata_a, ..a }),
                    ),
                },
            }
        },
    }
}

/// Completes the swap for the signer as taker. Where any step is refused,
/// nothing has happened.
pub fn take(accounts: &mut EscrowAccounts) -> (r: Result<(), Error>)
    requires
        old(accounts).fits(),
    ensures
        r == outcome(take_result(*old(accounts))),
        *final(accounts) == state_after(*old(accounts), take_result(*old(accounts))),
        final(accounts).fits(),
{
    let escrow = match locate(accounts) {
        Ok(escrow) => escrow,
        Err(e) => {
            return Err(e);
        },
    };
    if !accounts.maker_ata_b.owner.same(&escrow.maker) || !accounts.taker_ata_a.owner.same(&accounts.signer) {
        return Err(Error::AddressMismatch);
    }
    let paid = transfer_checked(
        &accounts.programs.escrow,
        accounts.taker_ata_b,
        accounts.maker_ata_b,
        &escrow.mint_b,
        escrow.receive,
        Authority::External(accounts.signer),
    );
    let (taker_ata_b, maker_ata_b) = match paid {
        Ok(pair) => pair,
        Err(e) => {
            return Err(e);
        },
    };
    let seeds = push_nonce(escrow_seed_list(&escrow.maker, escrow.seed), escrow.bump);
    let released = transfer_checked(
        &accounts.programs.escrow,
        accounts.vault,
        accounts.taker_ata_a,
        &escrow.mint_a,
        accounts.vault.amount,
        Authority::Delegated(authorize(seeds)),
    );
    let (vault, taker_ata_a) = match released {
        Ok(pair) => pair,
        Err(e) => {
            return Err(e);
        },
    };
    accounts.taker_ata_b = taker_ata_b;
    accounts.maker_ata_b = maker_ata_b;
    accounts.vault = vault;
    accounts.taker_ata_a = taker_ata_a;
    accounts.escrow = None;
    accounts.vault_open = false;
    accounts.maker_funds = accounts.maker_funds + accounts.rent_held;
    accounts.rent_held = 0;
    Ok(())
}

/// What `refund` does: for the maker alone, the holding account, signed for
/// through the record's seeds, gives back all it holds; then both are closed
/// and their rent goes to the maker.
pub open spec fn refund_result(a: EscrowAccounts) -> Result<EscrowAccounts, Error> {
    match a.escrow {
        None => Err(Error::RecordNotFound),
        Some(escrow) => if !a.vault_open {
            Err(Error::RecordNotFound)
        } else if a.signer != escrow.maker {
            Err(Error::UnauthorizedCaller)
        } else {
            match located(a) {
                Err(e) => Err(e),
                Ok(_) => if a.maker_ata_a.owner != escrow.maker {
                    Err(Error::AddressMismatch)
                } else {
                    match tokens_transferred(
                        a.vault,
                        a.maker_ata_a,
                        escrow.mint_a,
                        a.vault.amount,
                        record_signer(a, escrow),
                    ) {
                        Err(e) => Err(e),
                        Ok((vault, maker_ata_a)) => Ok(settled(EscrowAccounts { vault, maker_ata_a, ..a })),
                    }
                },
            }
        },
    }
}

/// Gives the maker its deposit back and closes the offer. Where any step is
/// refused, nothing has happened.
pub fn refund(accounts: &mut EscrowAccounts) -> (r: Result<(), Error>)
    requires
        old(accounts).fits(),
    ensures
        r == outcome(refund_result(*old(accounts))),
        *final(accounts) == state_after(*old(accounts), refund_result(*old(accounts))),
        final(accounts).fits(),
{
    let maker = match accounts.escrow {
        None => {
            return Err(Error::RecordNotFound);
        },
        Some(escrow) => escrow.maker,
    };
    if !accounts.vault_open {
        return Err(Error::RecordNotFound);
    }
    if !accounts.signer.same(&maker) {
        return Err(Error::UnauthorizedCaller);
    }
    let escrow = match locate(accounts) {
        Ok(escrow) => escrow,
        Err(e) => {
            return Err(e);
        },
    };
    if !accounts.maker_ata_a.owner.same(&escrow.maker) {
        return Err(Error::AddressMismatch);
    }
    let seeds = push_nonce(escrow_seed_list(&escrow.maker, escrow.seed), escrow.bump);
    let released = transfer_checked(
        &accounts.programs.escrow,
        accounts.vault,
        accounts.maker_ata_a,
        &escrow.mint_a,
        accounts.vault.amount,
        Authority::Delegated(authorize(seeds)),
    );
    let (vault, maker_ata_a) = match released {
        Ok(pair) => pair,
        Err(e) => {
            return Err(e);
        },
    };
    accounts.vault = vault;
    accounts.maker_ata_a = maker_ata_a;
    accounts.escrow = None;
    accounts.vault_open = false;
    accounts.maker_funds = accounts.maker_funds + accounts.rent_held;
    accounts.rent_held = 0;
    Ok(())
}

} // verus!
