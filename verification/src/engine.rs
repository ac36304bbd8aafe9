//! Authority over an account, and the transfers that the ledger's engine
//! carries out under it.

use vstd::prelude::*;
use crate::address::{create_program_address, program_address, seed_bytes, address_view, Address};
use crate::error::Error;

verus! {

/// Proof that the running program controls a custodial address: the seeds,
/// nonce included, that derive it. It is made for one transfer and used up
/// by it.
#[derive(Debug)]
pub struct DelegatedAuthority {
    seeds: Vec<Vec<u8>>,
}

impl DelegatedAuthority {
    /// The seed components that the authority presents.
    pub closed spec fn seeds(&self) -> Seq<Seq<u8>> {
        seed_bytes(&self.seeds)
    }
}

/// Makes the authority that presents `seeds_with_nonce`.
pub fn authorize(seeds_with_nonce: Vec<Vec<u8>>) -> (r: DelegatedAuthority)
    ensures
        r.seeds() == seed_bytes(&seeds_with_nonce),
{
    DelegatedAuthority { seeds: seeds_with_nonce }
}

/// Who stands behind a transfer request.
#[derive(Debug)]
pub enum Authority {
    /// The identity that signed the operation from outside.
    External(Address),
    /// A custodial address, signed for by the program through its seeds.
    Delegated(DelegatedAuthority),
}

impl Authority {
    /// The identity that the authority signs as when `program` presents it,
    /// if it signs as any.
    pub open spec fn signs_as(&self, program: Address) -> Option<Seq<u8>> {
        match self {
            Authority::External(who) => Some(who@),
            Authority::Delegated(d) => program_address(d.seeds(), program@),
        }
    }

    /// Whether the request was signed from outside.
    pub open spec fn is_external(&self) -> bool {
        self is External
    }

    /// The identity that the authority signs as under `program`.
    pub fn signer(&self, program: &Address) -> (r: Option<Address>)
        ensures
            address_view(r) == self.signs_as(*program),
    {
        match self {
            Authority::External(who) => Some(*who),
            Authority::Delegated(d) => create_program_address(&d.seeds, program),
        }
    }
}

/// Whether `found` is the address `wanted`.
pub fn is_address(found: &Option<Address>, wanted: &Address) -> (r: bool)
    ensures
        r == (address_view(*found) == Some(wanted@)),
{
    match found {
        Some(a) => {
            let same = a.same(wanted);
            proof {
                if a@ == wanted@ {
                    crate::address::lemma_view_injective(*a, *wanted);
                }
            }
            same
        },
        None => false,
    }
}

/// An account that holds the ledger's native balance.
#[derive(Clone, Copy, Debug, PartialEq, Eq)]
pub struct Account {
    pub key: Address,
    pub balance: u64,
    /// What the ledger makes the account keep when its owner signs a transfer out of it.
    pub retained: u64,
}

/// An account that holds a balance of one asset for an owner.
#[derive(Clone, Copy, Debug, PartialEq, Eq)]
pub struct TokenAccount {
    pub key: Address,
    pub mint: Address,
    pub owner: Address,
    pub amount: u64,
}

/// What a native transfer does: it needs the source's own signature, and
/// a source that holds the amount, beside what it must keep when it signed
/// from outside.
pub open spec fn transferred(
    from: Account,
    to: Account,
    amount: u64,
    signer: Option<Seq<u8>>,
    external: bool,
) -> Result<(Account, Account), Error> {
    if signer != Some(from.key@) {
        Err(Error::UnauthorizedCaller)
    } else if from.balance < amount + (if external { from.retained as int } else { 0 }) {
        Err(Error::InsufficientBalance)
    } else {
        Ok(
            (
                Account { balance: (from.balance - amount) as u64, ..from },
                Account { balance: (to.balance + amount) as u64, ..to },
            ),
        )
    }
}

/// Moves `amount` of native balance from `from` to `to` under `authority`,
/// presented by `program`.
pub fn transfer(program: &Address, from: Account, to: Account, amount: u64, authority: Authority) -> (r: Result<(Account, Account), Error>)
    requires
        from.balance + to.balance <= u64::MAX,
    ensures
        r == transferred(from, to, amount, authority.signs_as(*program), authority.is_external()),
{
    let signer = authority.signer(program);
    if !is_address(&signer, &from.key) {
        return Err(Error::UnauthorizedCaller);
    }
    let floor: u64 = match authority {
        Authority::External(_) => from.retained,
        Authority::Delegated(_) => 0,
    };
    if from.balance < amount || from.balance - amount < floor {
        return Err(Error::InsufficientBalance);
    }
    Ok(
        (
            Account { key: from.key, balance: from.balance - amount, retained: from.retained },
            Account { key: to.key, balance: to.balance + amount, retained: to.retained },
        ),
    )
}

/// What a transfer of an asset does: it needs the signature of the source's
/// owner, both accounts in the asset `mint`, and a source that holds the amount.
pub open spec fn tokens_transferred(
    from: TokenAccount,
    to: TokenAccount,
    mint: Address,
    amount: u64,
    signer: Option<Seq<u8>>,
) -> Result<(TokenAccount, TokenAccount), Error> {
    if signer != Some(from.owner@) {
        Err(Error::UnauthorizedCaller)
    } else if from.mint != mint || to.mint != mint {
        Err(Error::AddressMismatch)
    } else if from.amount < amount {
        Err(Error::InsufficientBalance)
    } else {
        Ok(
            (
                TokenAccount { amount: (from.amount - amount) as u64, ..from },
                TokenAccount { amount: (to.amount + amount) as u64, ..to },
            ),
        )
    }
}

/// Moves `amount` of the asset `mint` from `from` to `to` under `authority`,
/// presented by `program`.
pub fn transfer_checked(
    program: &Address,
    from: TokenAccount,
    to: TokenAccount,
    mint: &Address,
    amount: u64,
    authority: Authority,
) -> (r: Result<(TokenAccount, TokenAccount), Error>)
    requires
        from.amount + to.amount <= u64::MAX,
    ensures
        r == tokens_transferred(from, to, *mint, amount, authority.signs_as(*program)),
{
    let signer = authority.signer(program);
    if !is_address(&signer, &from.owner) {
        return Err(Error::UnauthorizedCaller);
    }
    if !from.mint.same(mint) || !to.mint.same(mint) {
        return Err(Error::AddressMismatch);
    }
    if from.amount < amount {
        return Err(Error::InsufficientBalance);
    }
    Ok(
        (
            TokenAccount { key: from.key, mint: from.mint, owner: from.owner, amount: from.amount - amount },
            TokenAccount { key: to.key, mint: to.mint, owner: to.owner, amount: to.amount + amount },
        ),
    )
}

} // verus!
