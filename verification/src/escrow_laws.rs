//! What holds of the escrow over every input.

use vstd::prelude::*;
use crate::address::{derived, lemma_derived_exists, lemma_view_injective, Address, DerivationError};
use crate::engine::TokenAccount;
use crate::error::{state_after, Error};
use crate::escrow::{
    escrow_seeds, funded, holding_address, located, make_result, offered, record_signer,
    refund_result, take_result, EscrowAccounts,
};

verus! {

/// The accounts of a made offer as a taker hands them in: the taker signs
/// and names its own two accounts.
pub open spec fn taken_up(
    a: EscrowAccounts,
    taker: Address,
    taker_ata_a: TokenAccount,
    taker_ata_b: TokenAccount,
) -> EscrowAccounts {
    EscrowAccounts { signer: taker, taker_ata_a, taker_ata_b, ..a }
}

/// Funding is exact: a made offer has taken `deposit` of the first asset
/// from the maker into an open holding account, and keeps a record of what
/// the maker asks for.
pub proof fn lemma_make_funds(a: EscrowAccounts, seed: u64, deposit: u64, receive: u64)
    requires
        a.fits(),
        make_result(a, seed, deposit, receive) is Ok,
    ensures
        ({
            let made = make_result(a, seed, deposit, receive).unwrap();
            &&& made.maker_ata_a.amount == a.maker_ata_a.amount - deposit
            &&& made.vault.amount == deposit
            &&& made.vault_open
            &&& made.vault.owner == a.escrow_key
            &&& made.escrow is Some
            &&& made.escrow.unwrap().maker == a.signer
            &&& made.escrow.unwrap().seed == seed
            &&& made.escrow.unwrap().receive == receive
            &&& made.maker_ata_b == a.maker_ata_b
            &&& made.maker_funds == a.maker_funds - a.rent_due
            &&& made.rent_held == a.rent_held + a.rent_due
        }),
{
}

/// Atomic swap: when a taker completes an offer of `deposit` for `receive`,
/// the maker has `receive` more of the second asset and `deposit` less of
/// the first than before the offer, the taker has the reverse, the record
/// and the holding account are gone, and the maker has their rent back.
pub proof fn lemma_swap_exact(
    a: EscrowAccounts,
    seed: u64,
    deposit: u64,
    receive: u64,
    taker: Address,
    taker_ata_a: TokenAccount,
    taker_ata_b: TokenAccount,
)
    requires
        a.fits(),
        make_result(a, seed, deposit, receive) is Ok,
        taken_up(make_result(a, seed, deposit, receive).unwrap(), taker, taker_ata_a, taker_ata_b).fits(),
        take_result(
            taken_up(make_result(a, seed, deposit, receive).unwrap(), taker, taker_ata_a, taker_ata_b),
        ) is Ok,
    ensures
        ({
            let made = make_result(a, seed, deposit, receive).unwrap();
            let done = take_result(taken_up(made, taker, taker_ata_a, taker_ata_b)).unwrap();
            &&& done.maker_ata_a.amount == a.maker_ata_a.amount - deposit
            &&& done.maker_ata_b.amount == a.maker_ata_b.amount + receive
            &&& done.taker_ata_a.amount == taker_ata_a.amount + deposit
            &&& done.taker_ata_b.amount == taker_ata_b.amount - receive
            &&& done.vault.amount == 0
            &&& done.escrow is None
            &&& !done.vault_open
            &&& done.maker_funds == a.maker_funds + a.rent_held
            &&& done.rent_held == 0
        }),
{
}

/// When `take` is owed: on an offer whose accounts are the derived ones,
/// it succeeds exactly where the maker's receiving account is the maker's,
/// both of the taker's accounts are the signer's, each account is in the
/// asset it moves, and the taker holds what the record asks.
pub proof fn lemma_take_succeeds(a: EscrowAccounts)
    requires
        a.fits(),
        located(a) is Ok,
    ensures
        take_result(a) is Ok <==> {
            &&& a.maker_ata_b.owner == a.escrow.unwrap().maker
            &&& a.taker_ata_a.owner == a.signer
            &&& a.taker_ata_b.owner == a.signer
            &&& a.taker_ata_a.mint == a.escrow.unwrap().mint_a
            &&& a.taker_ata_b.mint == a.escrow.unwrap().mint_b
            &&& a.maker_ata_b.mint == a.escrow.unwrap().mint_b
            &&& a.taker_ata_b.amount >= a.escrow.unwrap().receive
        },
{
    if a.taker_ata_b.owner@ == a.signer@ {
        lemma_view_injective(a.taker_ata_b.owner, a.signer);
    }
}

/// Refund exclusivity: on an existing offer, a refund that anyone but the
/// recorded maker signed is refused as unauthorized and changes nothing.
pub proof fn lemma_refund_by_maker_only(a: EscrowAccounts)
    requires
        a.escrow is Some,
        a.vault_open,
        a.signer != a.escrow.unwrap().maker,
    ensures
        refund_result(a) == Err::<EscrowAccounts, Error>(Error::UnauthorizedCaller),
        state_after(a, refund_result(a)) == a,
{
}

/// A refund that the maker asks for on the offer it just made succeeds,
/// gives back exactly the deposit, and leaves no record and no holding account.
pub proof fn lemma_refund_exact(a: EscrowAccounts, seed: u64, deposit: u64, receive: u64)
    requires
        a.fits(),
        make_result(a, seed, deposit, receive) is Ok,
    ensures
        refund_result(make_result(a, seed, deposit, receive).unwrap()) is Ok,
        ({
            let back = refund_result(make_result(a, seed, deposit, receive).unwrap()).unwrap();
            &&& back.maker_ata_a.amount == a.maker_ata_a.amount
            &&& back.vault.amount == 0
            &&& back.escrow is None
            &&& !back.vault_open
            &&& back.maker_funds == a.maker_funds + a.rent_held
            &&& back.rent_held == 0
        }),
{
    lemma_derived_exists(escrow_seeds(a.signer, seed), a.programs.escrow@);
    lemma_view_injective(a.signer, a.maker_ata_a.owner);
}

/// No double consumption after `take`: once it has succeeded, a later
/// `take` or `refund` on that record finds no record, whoever signs and
/// whatever other accounts it names.
pub proof fn lemma_taken_once(a: EscrowAccounts, later: EscrowAccounts)
    requires
        take_result(a) is Ok,
        later.escrow == take_result(a).unwrap().escrow,
    ensures
        take_result(later) == Err::<EscrowAccounts, Error>(Error::RecordNotFound),
        refund_result(later) == Err::<EscrowAccounts, Error>(Error::RecordNotFound),
        state_after(later, take_result(later)) == later,
        state_after(later, refund_result(later)) == later,
{
}

/// No double consumption after `refund`: once it has succeeded, a later
/// `take` or `refund` on that record finds no record, whoever signs and
/// whatever other accounts it names.
pub proof fn lemma_refunded_once(a: EscrowAccounts, later: EscrowAccounts)
    requires
        refund_result(a) is Ok,
        later.escrow == refund_result(a).unwrap().escrow,
    ensures
        take_result(later) == Err::<EscrowAccounts, Error>(Error::RecordNotFound),
        refund_result(later) == Err::<EscrowAccounts, Error>(Error::RecordNotFound),
        state_after(later, take_result(later)) == later,
        state_after(later, refund_result(later)) == later,
{
}

/// No substitution: on an existing offer, where the record's address or the
/// holding account's address is not the derived one, `take` is refused as a
/// mismatch, and so is a `refund` that the maker signed; a `refund` that
/// another signed is refused all the same, and nothing changes.
pub proof fn lemma_substitute_refused(a: EscrowAccounts)
    requires
        a.escrow is Some,
        a.vault_open,
        record_signer(a, a.escrow.unwrap()) != Some(a.escrow_key@) || (holding_address(
            a.programs,
            a.escrow_key,
            a.escrow.unwrap().mint_a,
        ) matches Some(holding) && holding != a.vault.key@),
    ensures
        take_result(a) == Err::<EscrowAccounts, Error>(Error::AddressMismatch),
        a.signer == a.escrow.unwrap().maker ==> refund_result(a) == Err::<EscrowAccounts, Error>(
            Error::AddressMismatch,
        ),
        refund_result(a) is Err,
        state_after(a, take_result(a)) == a,
        state_after(a, refund_result(a)) == a,
{
}

/// No substitution at creation: where the search finds the record's address
/// and the supplied one is another, `make` is refused as a mismatch, whether
/// anything exists there or not; so it is where the record's address is
/// right, nothing exists yet, the search finds the holding account's
/// address and the supplied one is another. Nothing changes.
pub proof fn lemma_substitute_refused_at_creation(a: EscrowAccounts, seed: u64, deposit: u64, receive: u64)
    requires
        derived(escrow_seeds(a.signer, seed), a.programs.escrow@) matches Some((record, _)) && (record
            != a.escrow_key@ || (a.escrow is None && !a.vault_open && (holding_address(
            a.programs,
            a.escrow_key,
            a.mint_a,
        ) matches Some(holding) && holding != a.vault.key@))),
    ensures
        make_result(a, seed, deposit, receive) == Err::<EscrowAccounts, Error>(Error::AddressMismatch),
        state_after(a, make_result(a, seed, deposit, receive)) == a,
{
}

/// An exhausted search comes before everything else: where no nonce gives
/// the record an address, `make` is refused for that, whatever the accounts
/// hold, and nothing changes.
pub proof fn lemma_exhausted_refused_at_creation(a: EscrowAccounts, seed: u64, deposit: u64, receive: u64)
    requires
        derived(escrow_seeds(a.signer, seed), a.programs.escrow@) is None,
    ensures
        make_result(a, seed, deposit, receive) == Err::<EscrowAccounts, Error>(
            Error::Derivation(DerivationError::Exhausted),
        ),
        state_after(a, make_result(a, seed, deposit, receive)) == a,
{
}

/// When `make` is owed: once the accounts are admitted, it succeeds exactly
/// where the maker holds the deposit. Then the deposit has moved from the
/// maker's account into the holding account, and no balance of the second
/// asset has changed.
pub proof fn lemma_make_succeeds(a: EscrowAccounts, seed: u64, deposit: u64, receive: u64)
    requires
        a.fits(),
        offered(a, seed) is Ok,
    ensures
        make_result(a, seed, deposit, receive) is Ok <==> a.maker_ata_a.amount >= deposit,
        a.maker_ata_a.amount < deposit ==> make_result(a, seed, deposit, receive) == Err::<
            EscrowAccounts,
            Error,
        >(Error::InsufficientBalance),
        a.maker_ata_a.amount >= deposit ==> ({
            let made = make_result(a, seed, deposit, receive).unwrap();
            &&& made.maker_ata_a.amount == a.maker_ata_a.amount - deposit
            &&& made.vault.amount == deposit
            &&& made.maker_ata_b == a.maker_ata_b
            &&& made.taker_ata_b == a.taker_ata_b
            &&& made.taker_ata_a == a.taker_ata_a
        }),
{
}

/// Funding by itself: on an open holding account, from an account of the
/// first asset that the signer owns, `deposit` succeeds exactly where that
/// account holds the deposit; the deposit then moves into the holding
/// account on top of what it held, and nothing else changes.
pub proof fn lemma_deposit_funds(a: EscrowAccounts, deposit: u64)
    requires
        a.fits(),
        a.vault_open,
        a.maker_ata_a.owner == a.signer,
        a.maker_ata_a.mint == a.mint_a,
        a.vault.mint == a.mint_a,
    ensures
        funded(a, deposit) is Ok <==> a.maker_ata_a.amount >= deposit,
        a.maker_ata_a.amount >= deposit ==> funded(a, deposit) == Ok::<EscrowAccounts, Error>(
            EscrowAccounts {
                maker_ata_a: TokenAccount {
                    amount: (a.maker_ata_a.amount - deposit) as u64,
                    ..a.maker_ata_a
                },
                vault: TokenAccount { amount: (a.vault.amount + deposit) as u64, ..a.vault },
                ..a
            },
        ),
{
}

} // verus!
