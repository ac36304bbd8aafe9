//! How a record lies in an account's data: eight bytes that tell the kind
//! of record, then the record's fields in order, integers lowest byte first.

use vstd::prelude::*;
use vstd::bytes::{
    lemma_auto_spec_u64_to_from_le_bytes, spec_u64_from_le_bytes, spec_u64_to_le_bytes,
    u64_from_le_bytes, u64_to_le_bytes,
};
use crate::address::{lemma_view_injective, Address};
use crate::escrow::Escrow;
use crate::vault::VaultState;

verus! {

/// The bytes that tell a record's kind.
pub const DISCRIMINATOR_LEN: usize = 8;

/// The bytes of a vault's record, kind included.
pub const VAULT_STATE_LEN: usize = 10;

/// The bytes of an offer's record, kind included.
pub const ESCROW_LEN: usize = 121;

/// A vault's record as it lies in its account.
pub open spec fn vault_state_bytes(kind: Seq<u8>, state: VaultState) -> Seq<u8> {
    kind + seq![state.vault_bump, state.state_bump]
}

/// The vault's record that an account's data holds, if the data is of that
/// kind and long enough. What follows the record is ignored.
pub open spec fn vault_state_read(kind: Seq<u8>, data: Seq<u8>) -> Option<VaultState> {
    if data.len() >= VAULT_STATE_LEN && data.subrange(0, 8) == kind {
        Some(VaultState { vault_bump: data[8], state_bump: data[9] })
    } else {
        None
    }
}

/// An offer's record as it lies in its account.
pub open spec fn escrow_bytes(kind: Seq<u8>, escrow: Escrow) -> Seq<u8> {
    kind + spec_u64_to_le_bytes(escrow.seed) + escrow.maker@ + escrow.mint_a@ + escrow.mint_b@
        + spec_u64_to_le_bytes(escrow.receive) + seq![escrow.bump]
}

/// `read` is what an account's data holds as an offer's record: the record
/// whose bytes the data begins with, or nothing where the data is of
/// another kind or too short. What follows the record is ignored.
pub open spec fn escrow_read(kind: Seq<u8>, data: Seq<u8>, read: Option<Escrow>) -> bool {
    match read {
        Some(escrow) => data.len() >= ESCROW_LEN && data.subrange(0, ESCROW_LEN as int) == escrow_bytes(
            kind,
            escrow,
        ),
        None => data.len() < ESCROW_LEN || data.subrange(0, 8) != kind,
    }
}

fn append(out: &mut Vec<u8>, bytes: &Vec<u8>)
    ensures
        final(out)@ == old(out)@ + bytes@,
{
    let mut i: usize = 0;
    while i < bytes.len()
        invariant
            i <= bytes.len(),
            out@ == old(out)@ + bytes@.subrange(0, i as int),
        decreases bytes.len() - i,
    {
        out.push(bytes[i]);
        assert(out@ =~= old(out)@ + bytes@.subrange(0, i + 1));
        i = i + 1;
    }
    assert(bytes@.subrange(0, bytes.len() as int) =~= bytes@);
}

fn part(data: &Vec<u8>, start: usize, end: usize) -> (r: Vec<u8>)
    requires
        start <= end <= data.len(),
    ensures
        r@ == data@.subrange(start as int, end as int),
{
    let mut out: Vec<u8> = Vec::new();
    let mut i: usize = start;
    while i < end
        invariant
            start <= i <= end <= data.len(),
            out@ == data@.subrange(start as int, i as int),
        decreases end - i,
    {
        out.push(data[i]);
        assert(out@ =~= data@.subrange(start as int, i + 1));
        i = i + 1;
    }
    out
}

fn address_of(bytes: &Vec<u8>) -> (r: Address)
    requires
        bytes.len() == 32,
    ensures
        r@ == bytes@,
{
    let mut out: [u8; 32] = [0u8; 32];
    let mut i: usize = 0;
    while i < 32
        invariant
            i <= 32,
            bytes.len() == 32,
            forall|j: int| 0 <= j < i ==> out@[j] == bytes@[j],
        decreases 32 - i,
    {
        out.set(i, bytes[i]);
        i = i + 1;
    }
    let r = Address { bytes: out };
    assert(r@ =~= bytes@);
    r
}

fn kind_bytes(kind: &[u8; 8]) -> (r: Vec<u8>)
    ensures
        r@ == kind@,
{
    let mut out: Vec<u8> = Vec::new();
    let mut i: usize = 0;
    while i < 8
        invariant
            i <= 8,
            out@ == kind@.subrange(0, i as int),
        decreases 8 - i,
    {
        out.push(kind[i]);
        assert(out@ =~= kind@.subrange(0, i + 1));
        i = i + 1;
    }
    assert(kind@.subrange(0, 8) =~= kind@);
    out
}

fn is_kind(kind: &[u8; 8], data: &Vec<u8>) -> (r: bool)
    requires
        data.len() >= 8,
    ensures
        r == (data@.subrange(0, 8) == kind@),
{
    let mut i: usize = 0;
    while i < 8
        invariant
            i <= 8,
            data.len() >= 8,
            forall|j: int| 0 <= j < i ==> data@[j] == kind@[j],
        decreases 8 - i,
    {
        if data[i] != kind[i] {
            assert(data@.subrange(0, 8)[i as int] != kind@[i as int]);
            return false;
        }
        i = i + 1;
    }
    assert(data@.subrange(0, 8) =~= kind@);
    true
}

/// Lays a vault's record out under the kind `kind`.
pub fn encode_vault_state(kind: &[u8; 8], state: &VaultState) -> (r: Vec<u8>)
    ensures
        r@ == vault_state_bytes(kind@, *state),
{
    let mut out = kind_bytes(kind);
    out.push(state.vault_bump);
    out.push(state.state_bump);
    assert(out@ =~= vault_state_bytes(kind@, *state));
    out
}

/// Reads a vault's record from an account's data, refusing data of another kind.
pub fn decode_vault_state(kind: &[u8; 8], data: &Vec<u8>) -> (r: Option<VaultState>)
    ensures
        r == vault_state_read(kind@, data@),
{
    if data.len() < VAULT_STATE_LEN || !is_kind(kind, data) {
        return None;
    }
    Some(VaultState { vault_bump: data[8], state_bump: data[9] })
}

/// Lays an offer's record out under the kind `kind`.
pub fn encode_escrow(kind: &[u8; 8], escrow: &Escrow) -> (r: Vec<u8>)
    ensures
        r@ == escrow_bytes(kind@, *escrow),
{
    let mut out = kind_bytes(kind);
    append(&mut out, &u64_to_le_bytes(escrow.seed));
    append(&mut out, &escrow.maker.to_seed());
    append(&mut out, &escrow.mint_a.to_seed());
    append(&mut out, &escrow.mint_b.to_seed());
    append(&mut out, &u64_to_le_bytes(escrow.receive));
    out.push(escrow.bump);
    assert(out@ =~= escrow_bytes(kind@, *escrow));
    out
}

/// Reads an offer's record from an account's data, refusing data of another kind.
pub fn decode_escrow(kind: &[u8; 8], data: &Vec<u8>) -> (r: Option<Escrow>)
    ensures
        escrow_read(kind@, data@, r),
{
    if data.len() < ESCROW_LEN || !is_kind(kind, data) {
        return None;
    }
    let seed_part = part(data, 8, 16);
    let receive_part = part(data, 112, 120);
    let escrow = Escrow {
        seed: u64_from_le_bytes(seed_part.as_slice()),
        maker: address_of(&part(data, 16, 48)),
        mint_a: address_of(&part(data, 48, 80)),
        mint_b: address_of(&part(data, 80, 112)),
        receive: u64_from_le_bytes(receive_part.as_slice()),
        bump: data[120],
    };
    proof {
        lemma_auto_spec_u64_to_from_le_bytes();
        assert(spec_u64_to_le_bytes(escrow.seed) == data@.subrange(8, 16));
        assert(spec_u64_to_le_bytes(escrow.receive) == data@.subrange(112, 120));
        assert(data@.subrange(0, ESCROW_LEN as int) =~= escrow_bytes(kind@, escrow));
    }
    Some(escrow)
}

/// A vault's record that was laid out is read back as it was, whatever follows it.
pub proof fn lemma_vault_state_round_trip(kind: Seq<u8>, state: VaultState, rest: Seq<u8>)
    requires
        kind.len() == DISCRIMINATOR_LEN,
    ensures
        vault_state_read(kind, vault_state_bytes(kind, state) + rest) == Some(state),
{
    assert((vault_state_bytes(kind, state) + rest).subrange(0, 8) =~= kind);
}

/// A record laid out under one kind is not read as a vault's record under another.
pub proof fn lemma_vault_state_kind_checked(kind: Seq<u8>, other: Seq<u8>, data: Seq<u8>)
    requires
        kind.len() == DISCRIMINATOR_LEN,
        other.len() == DISCRIMINATOR_LEN,
        kind != other,
        data.len() >= DISCRIMINATOR_LEN,
        data.subrange(0, 8) == kind,
    ensures
        vault_state_read(other, data) is None,
{
}

/// An offer's record that was laid out is read back as it was, whatever
/// follows it: no other record has the same bytes.
pub proof fn lemma_escrow_round_trip(kind: Seq<u8>, escrow: Escrow, rest: Seq<u8>, read: Option<Escrow>)
    requires
        kind.len() == DISCRIMINATOR_LEN,
        escrow_read(kind, escrow_bytes(kind, escrow) + rest, read),
    ensures
        read == Some(escrow),
{
    lemma_auto_spec_u64_to_from_le_bytes();
    let data = escrow_bytes(kind, escrow) + rest;
    assert(data.len() >= ESCROW_LEN);
    assert(data.subrange(0, 8) =~= kind);
    assert(data.subrange(0, ESCROW_LEN as int) =~= escrow_bytes(kind, escrow));
    let got = read.unwrap();
    let a = escrow_bytes(kind, escrow);
    let b = escrow_bytes(kind, got);
    assert(a == b);
    assert(a.subrange(8, 16) =~= spec_u64_to_le_bytes(escrow.seed));
    assert(b.subrange(8, 16) =~= spec_u64_to_le_bytes(got.seed));
    assert(a.subrange(16, 48) =~= escrow.maker@);
    assert(b.subrange(16, 48) =~= got.maker@);
    assert(a.subrange(48, 80) =~= escrow.mint_a@);
    assert(b.subrange(48, 80) =~= got.mint_a@);
    assert(a.subrange(80, 112) =~= escrow.mint_b@);
    assert(b.subrange(80, 112) =~= got.mint_b@);
    assert(a.subrange(112, 120) =~= spec_u64_to_le_bytes(escrow.receive));
    assert(b.subrange(112, 120) =~= spec_u64_to_le_bytes(got.receive));
    assert(a[120] == escrow.bump);
    assert(b[120] == got.bump);
    lemma_view_injective(escrow.maker, got.maker);
    lemma_view_injective(escrow.mint_a, got.mint_a);
    lemma_view_injective(escrow.mint_b, got.mint_b);
    assert(spec_u64_from_le_bytes(spec_u64_to_le_bytes(escrow.seed)) == escrow.seed);
    assert(spec_u64_from_le_bytes(spec_u64_to_le_bytes(got.seed)) == got.seed);
    assert(spec_u64_from_le_bytes(spec_u64_to_le_bytes(escrow.receive)) == escrow.receive);
    assert(spec_u64_from_le_bytes(spec_u64_to_le_bytes(got.receive)) == got.receive);
}

} // verus!
