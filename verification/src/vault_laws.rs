//! What holds of the vault over every input and every run of operations.

use vstd::prelude::*;
use crate::address::{address_at, derived, lemma_derived_exists, DerivationError};
use crate::error::{state_after, Error};
use crate::vault::{
    close_result, deposit_result, initialize_result, located, state_seeds,
    vault_seeds, withdraw_result, VaultAccounts,
};

verus! {

/// One balance-moving request to the vault.
#[derive(Clone, Copy, Debug, PartialEq, Eq)]
pub enum VaultOp {
    Deposit(u64),
    Withdraw(u64),
}

/// What one request does.
pub open spec fn step(a: VaultAccounts, op: VaultOp) -> Result<VaultAccounts, Error> {
    match op {
        VaultOp::Deposit(amount) => deposit_result(a, amount),
        VaultOp::Withdraw(amount) => withdraw_result(a, amount),
    }
}

/// The accounts after the requests `ops`, made in order; a refused request
/// changes nothing.
pub open spec fn run(a: VaultAccounts, ops: Seq<VaultOp>) -> VaultAccounts
    decreases ops.len(),
{
    if ops.len() == 0 {
        a
    } else {
        let before = run(a, ops.drop_last());
        state_after(before, step(before, ops.last()))
    }
}

/// The deposits that were carried out less the withdrawals that were carried out.
pub open spec fn net_deposits(a: VaultAccounts, ops: Seq<VaultOp>) -> int
    decreases ops.len(),
{
    if ops.len() == 0 {
        0
    } else {
        let before = run(a, ops.drop_last());
        let moved: int = if step(before, ops.last()) is Err {
            0
        } else {
            match ops.last() {
                VaultOp::Deposit(amount) => amount as int,
                VaultOp::Withdraw(amount) => -(amount as int),
            }
        };
        net_deposits(a, ops.drop_last()) + moved
    }
}

/// Conservation: after any run of deposits and withdrawals the vault holds
/// what it held before, plus the deposits carried out, less the withdrawals
/// carried out; the depositor holds the reverse, and the record is untouched.
pub proof fn lemma_vault_conservation(a: VaultAccounts, ops: Seq<VaultOp>)
    requires
        a.fits(),
    ensures
        run(a, ops).vault.balance == a.vault.balance + net_deposits(a, ops),
        run(a, ops).signer.balance == a.signer.balance - net_deposits(a, ops),
        run(a, ops).vault_state == a.vault_state,
        run(a, ops).fits(),
    decreases ops.len(),
{
    if ops.len() > 0 {
        lemma_vault_conservation(a, ops.drop_last());
    }
}

/// A withdrawal of more than the vault holds is refused for want of balance
/// and changes nothing.
pub proof fn lemma_overdraw_refused(a: VaultAccounts, amount: u64)
    requires
        located(a) is Ok,
        amount > a.vault.balance,
    ensures
        withdraw_result(a, amount) == Err::<VaultAccounts, Error>(Error::InsufficientBalance),
        state_after(a, withdraw_result(a, amount)) == a,
{
}

/// No substitution: where a record exists and one of the supplied addresses
/// is not the one derived from the recorded nonces, every operation is
/// refused as a mismatch and changes nothing.
pub proof fn lemma_substitute_refused(a: VaultAccounts, amount: u64)
    requires
        a.vault_state.record is Some,
        address_at(state_seeds(a.signer.key), a.vault_state.record.unwrap().state_bump, a.program@)
            != Some(a.vault_state.key@) || address_at(
            vault_seeds(a.vault_state.key),
            a.vault_state.record.unwrap().vault_bump,
            a.program@,
        ) != Some(a.vault.key@),
    ensures
        deposit_result(a, amount) == Err::<VaultAccounts, Error>(Error::AddressMismatch),
        withdraw_result(a, amount) == Err::<VaultAccounts, Error>(Error::AddressMismatch),
        close_result(a) == Err::<VaultAccounts, Error>(Error::AddressMismatch),
        state_after(a, deposit_result(a, amount)) == a,
        state_after(a, withdraw_result(a, amount)) == a,
        state_after(a, close_result(a)) == a,
{
}

/// No substitution at creation: where the search finds the record's address
/// and the supplied one is another, `initialize` is refused as a mismatch,
/// whether a record exists there or not; so it is where the record's address
/// is right, no record exists, the search finds the vault's address and the
/// supplied one is another. Nothing changes.
pub proof fn lemma_substitute_refused_at_creation(a: VaultAccounts, rent: u64)
    requires
        derived(state_seeds(a.signer.key), a.program@) matches Some((record, _)) && (record
            != a.vault_state.key@ || (a.vault_state.record is None && (derived(
            vault_seeds(a.vault_state.key),
            a.program@,
        ) matches Some((vault, _)) && vault != a.vault.key@))),
    ensures
        initialize_result(a, rent) == Err::<VaultAccounts, Error>(Error::AddressMismatch),
        state_after(a, initialize_result(a, rent)) == a,
{
}

/// An exhausted search comes before everything else: where no nonce gives
/// the record an address, `initialize` is refused for that, whatever the
/// accounts hold; so it is where the record's address is right, no record
/// exists and no nonce gives the vault an address. Nothing changes.
pub proof fn lemma_exhausted_refused_at_creation(a: VaultAccounts, rent: u64)
    requires
        derived(state_seeds(a.signer.key), a.program@) is None || (derived(
            state_seeds(a.signer.key),
            a.program@,
        ) matches Some((record, _)) && record == a.vault_state.key@ && a.vault_state.record is None
            && derived(vault_seeds(a.vault_state.key), a.program@) is None),
    ensures
        initialize_result(a, rent) == Err::<VaultAccounts, Error>(
            Error::Derivation(DerivationError::Exhausted),
        ),
        state_after(a, initialize_result(a, rent)) == a,
{
}

/// When `initialize` is owed: it succeeds exactly where both supplied
/// addresses are the ones found, no record exists, and the depositor holds
/// the rent beside what it must keep.
pub proof fn lemma_initialize_succeeds(a: VaultAccounts, rent: u64)
    ensures
        initialize_result(a, rent) is Ok <==> {
            &&& derived(state_seeds(a.signer.key), a.program@) matches Some((record, _)) && record
                == a.vault_state.key@
            &&& a.vault_state.record is None
            &&& derived(vault_seeds(a.vault_state.key), a.program@) matches Some((vault, _)) && vault
                == a.vault.key@
            &&& a.signer.balance >= rent + a.signer.retained
        },
{
}

/// A second `initialize` is refused: the record exists already.
pub proof fn lemma_initialize_once(a: VaultAccounts, rent: u64, again: u64)
    requires
        a.fits(),
        initialize_result(a, rent) is Ok,
    ensures
        initialize_result(initialize_result(a, rent).unwrap(), again) == Err::<VaultAccounts, Error>(
            Error::RecordAlreadyExists,
        ),
{
}

/// A vault that `initialize` created is found again by every later
/// operation: the recorded nonces derive the two addresses that were supplied.
pub proof fn lemma_initialized_is_located(a: VaultAccounts, rent: u64)
    requires
        initialize_result(a, rent) is Ok,
    ensures
        located(initialize_result(a, rent).unwrap()) is Ok,
{
    lemma_derived_exists(state_seeds(a.signer.key), a.program@);
    lemma_derived_exists(vault_seeds(a.vault_state.key), a.program@);
}

/// When a deposit or a withdrawal is owed: on a vault whose accounts are
/// the derived ones, a deposit succeeds exactly where the depositor holds
/// the amount beside what it must keep, and a withdrawal exactly where the
/// vault holds the amount; each then moves exactly the amount.
pub proof fn lemma_moves_owed(a: VaultAccounts, amount: u64)
    requires
        a.fits(),
        located(a) is Ok,
    ensures
        deposit_result(a, amount) is Ok <==> a.signer.balance >= amount + a.signer.retained,
        withdraw_result(a, amount) is Ok <==> a.vault.balance >= amount,
        deposit_result(a, amount) is Ok ==> {
            &&& deposit_result(a, amount).unwrap().vault.balance == a.vault.balance + amount
            &&& deposit_result(a, amount).unwrap().signer.balance == a.signer.balance - amount
        },
        withdraw_result(a, amount) is Ok ==> {
            &&& withdraw_result(a, amount).unwrap().vault.balance == a.vault.balance - amount
            &&& withdraw_result(a, amount).unwrap().signer.balance == a.signer.balance + amount
        },
{
}

/// Close completeness: `close` on a vault whose accounts are the derived
/// ones succeeds; after it no record exists, the vault holds nothing, and
/// the depositor has the vault's whole balance and the record's rent on top
/// of its own.
pub proof fn lemma_close_complete(a: VaultAccounts)
    requires
        a.fits(),
        located(a) is Ok,
    ensures
        close_result(a) is Ok,
        close_result(a).unwrap().vault_state.record is None,
        close_result(a).unwrap().vault_state.balance == 0,
        close_result(a).unwrap().vault.balance == 0,
        close_result(a).unwrap().signer.balance == a.signer.balance + a.vault.balance
            + a.vault_state.balance,
{
}

/// After `close` the vault is gone: every later deposit, withdrawal or close
/// finds no record.
pub proof fn lemma_closed_is_final(a: VaultAccounts, amount: u64)
    requires
        close_result(a) is Ok,
    ensures
        deposit_result(close_result(a).unwrap(), amount) == Err::<VaultAccounts, Error>(
            Error::RecordNotFound,
        ),
        withdraw_result(close_result(a).unwrap(), amount) == Err::<VaultAccounts, Error>(
            Error::RecordNotFound,
        ),
        close_result(close_result(a).unwrap()) == Err::<VaultAccounts, Error>(Error::RecordNotFound),
{
}

} // verus!
