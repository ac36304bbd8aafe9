//! Custodial addresses: addresses without a signing key, found from seed
//! bytes and the identity of the program that owns them.

use vstd::prelude::*;

verus! {

/// The most seed components one derivation takes, the nonce included.
pub const MAX_SEEDS: usize = 16;

/// The most bytes one seed component holds.
pub const MAX_SEED_LEN: usize = 32;

/// A ledger address or identity: 32 bytes.
#[derive(Clone, Copy, Debug, PartialEq, Eq)]
pub struct Address {
    pub bytes: [u8; 32],
}

impl View for Address {
    type V = Seq<u8>;

    open spec fn view(&self) -> Seq<u8> {
        self.bytes@
    }
}

/// Why no custodial address was derived.
#[derive(Clone, Copy, Debug, PartialEq, Eq)]
pub enum DerivationError {
    /// No nonce from 255 down to 1 gives an address without a signing key.
    Exhausted,
}

/// The bytes of each seed component, in order.
pub open spec fn seed_bytes(seeds: &Vec<Vec<u8>>) -> Seq<Seq<u8>> {
    seeds@.map_values(|s: Vec<u8>| s@)
}

/// The seed list fits the ledger's limits on count and length.
pub open spec fn seeds_fit(seeds: Seq<Seq<u8>>) -> bool {
    &&& seeds.len() <= MAX_SEEDS
    &&& forall|i: int| 0 <= i < seeds.len() ==> (#[trigger] seeds[i]).len() <= MAX_SEED_LEN
}

/// The seed list followed by the one-byte nonce.
pub open spec fn with_nonce(seeds: Seq<Seq<u8>>, nonce: u8) -> Seq<Seq<u8>> {
    seeds.push(seq![nonce])
}

/// What `Pubkey::create_program_address` of anchor_lang gives for a seed list
/// within the limits and an owner: the hash of the components, the owner and
/// a fixed marker as an address, or `None` where that hash is a point of the
/// curve and so may have a signing key.
pub uninterp spec fn created_address(seeds: Seq<Seq<u8>>, owner: Seq<u8>) -> Option<Seq<u8>>;

/// The custodial address of a full seed list (nonce included), if there is one.
pub open spec fn program_address(seeds: Seq<Seq<u8>>, owner: Seq<u8>) -> Option<Seq<u8>> {
    if seeds_fit(seeds) {
        created_address(seeds, owner)
    } else {
        None
    }
}

/// The custodial address of `seeds` under one given nonce, if there is one.
pub open spec fn address_at(seeds: Seq<Seq<u8>>, nonce: u8, owner: Seq<u8>) -> Option<Seq<u8>> {
    program_address(with_nonce(seeds, nonce), owner)
}

/// `found` is the outcome of the nonce search: the address under the largest
/// nonce in 1..=255 that has one, or nothing where no nonce has one.
pub open spec fn derives_to(seeds: Seq<Seq<u8>>, owner: Seq<u8>, found: Option<(Seq<u8>, u8)>) -> bool {
    match found {
        Some((address, nonce)) => {
            &&& nonce >= 1
            &&& address_at(seeds, nonce, owner) == Some(address)
            &&& forall|m: u8| nonce < m ==> (#[trigger] address_at(seeds, m, owner)) is None
        },
        None => forall|m: u8| m >= 1 ==> (#[trigger] address_at(seeds, m, owner)) is None,
    }
}

/// The views of an optional address.
pub open spec fn address_view(a: Option<Address>) -> Option<Seq<u8>> {
    match a {
        Some(a) => Some(a@),
        None => None,
    }
}

/// The views of a derivation's outcome.
pub open spec fn derivation_view(r: Result<(Address, u8), DerivationError>) -> Option<(Seq<u8>, u8)> {
    match r {
        Ok((a, n)) => Some((a@, n)),
        Err(_) => None,
    }
}

/// Calls `Pubkey::create_program_address` of anchor_lang on the seed list as
/// it stands. The call refuses a list of more than 16 components or with a
/// component of more than 32 bytes, and otherwise hashes the components and
/// the owner; it gives the hash as the address unless the hash is a point of
/// the curve. Any refusal comes back as `None`.
#[verifier::external_body]
pub(crate) fn create_program_address(seeds: &Vec<Vec<u8>>, owner: &Address) -> (r: Option<Address>)
    ensures
        address_view(r) == if seeds_fit(seed_bytes(seeds)) {
            created_address(seed_bytes(seeds), owner@)
        } else {
            None
        },
{
    let parts: Vec<&[u8]> = seeds.iter().map(|s| s.as_slice()).collect();
    let program = anchor_lang::prelude::Pubkey::new_from_array(owner.bytes);
    anchor_lang::prelude::Pubkey::create_program_address(&parts, &program)
        .ok()
        .map(|k| Address { bytes: k.to_bytes() })
}

/// Calls `Pubkey::try_find_program_address` of anchor_lang. The call tries the
/// nonces 255, 254, .. down to 1, each as a last one-byte component, and gives
/// the first address that `create_program_address` accepts together with its
/// nonce; it gives `None` where the list is too long for a nonce, a component
/// is over length, or no nonce is accepted.
#[verifier::external_body]
pub(crate) fn find_program_address(seeds: &Vec<Vec<u8>>, owner: &Address) -> (r: Option<(Address, u8)>)
    ensures
        derives_to(
            seed_bytes(seeds),
            owner@,
            match r {
                Some((a, n)) => Some((a@, n)),
                None => None,
            },
        ),
{
    let parts: Vec<&[u8]> = seeds.iter().map(|s| s.as_slice()).collect();
    let program = anchor_lang::prelude::Pubkey::new_from_array(owner.bytes);
    anchor_lang::prelude::Pubkey::try_find_program_address(&parts, &program)
        .map(|(k, n)| (Address { bytes: k.to_bytes() }, n))
}

/// Two addresses with the same bytes are the same address.
pub proof fn lemma_view_injective(a: Address, b: Address)
    requires
        a@ == b@,
    ensures
        a == b,
{
    assert(a.bytes =~= b.bytes);
}

impl Address {
    /// Whether both addresses hold the same bytes.
    pub fn same(&self, other: &Address) -> (r: bool)
        ensures
            r == (*self == *other),
    {
        let mut i: usize = 0;
        while i < 32
            invariant
                i <= 32,
                forall|j: int| 0 <= j < i ==> self.bytes[j] == other.bytes[j],
            decreases 32 - i,
        {
            if self.bytes[i] != other.bytes[i] {
                return false;
            }
            i = i + 1;
        }
        proof {
            assert(self@ =~= other@);
            lemma_view_injective(*self, *other);
        }
        true
    }

    /// The address as a seed component.
    pub fn to_seed(&self) -> (r: Vec<u8>)
        ensures
            r@ == self@,
    {
        let mut out: Vec<u8> = Vec::new();
        let mut i: usize = 0;
        while i < 32
            invariant
                i <= 32,
                out@ == self@.subrange(0, i as int),
            decreases 32 - i,
        {
            out.push(self.bytes[i]);
            assert(self@.subrange(0, i + 1) =~= self@.subrange(0, i as int).push(self@[i as int]));
            i = i + 1;
        }
        assert(self@.subrange(0, 32) =~= self@);
        out
    }
}

/// The outcome of the nonce search over `seeds` and `owner`.
pub open spec fn derived(seeds: Seq<Seq<u8>>, owner: Seq<u8>) -> Option<(Seq<u8>, u8)> {
    choose|found: Option<(Seq<u8>, u8)>| derives_to(seeds, owner, found)
}

/// The search from the nonce `top` downwards, as far as 1.
pub open spec fn searched(seeds: Seq<Seq<u8>>, owner: Seq<u8>, top: u8) -> Option<(Seq<u8>, u8)>
    decreases top,
{
    if top == 0 {
        None
    } else {
        match address_at(seeds, top, owner) {
            Some(address) => Some((address, top)),
            None => searched(seeds, owner, (top - 1) as u8),
        }
    }
}

proof fn lemma_searched(seeds: Seq<Seq<u8>>, owner: Seq<u8>, top: u8)
    ensures
        match searched(seeds, owner, top) {
            Some((address, nonce)) => {
                &&& 1 <= nonce <= top
                &&& address_at(seeds, nonce, owner) == Some(address)
                &&& forall|m: u8| nonce < m <= top ==> (#[trigger] address_at(seeds, m, owner)) is None
            },
            None => forall|m: u8| 1 <= m <= top ==> (#[trigger] address_at(seeds, m, owner)) is None,
        },
    decreases top,
{
    if top > 0 {
        lemma_searched(seeds, owner, (top - 1) as u8);
    }
}

/// Every search has an outcome, and it is the one that the search from 255
/// downwards meets first.
pub proof fn lemma_derived_exists(seeds: Seq<Seq<u8>>, owner: Seq<u8>)
    ensures
        derives_to(seeds, owner, derived(seeds, owner)),
        derived(seeds, owner) == searched(seeds, owner, 255),
{
    lemma_searched(seeds, owner, 255);
    assert(derives_to(seeds, owner, searched(seeds, owner, 255)));
    lemma_derive_deterministic(seeds, owner, derived(seeds, owner), searched(seeds, owner, 255));
}

/// Derives the custodial address of `seeds` under `owner`: searches the
/// nonces from 255 down to 1 and gives the first address that has no signing
/// key, with its nonce.
pub fn derive(seeds: &Vec<Vec<u8>>, owner: &Address) -> (r: Result<(Address, u8), DerivationError>)
    ensures
        derives_to(seed_bytes(seeds), owner@, derivation_view(r)),
        derivation_view(r) == derived(seed_bytes(seeds), owner@),
{
    let r = match find_program_address(seeds, owner) {
        Some(found) => Ok(found),
        None => Err(DerivationError::Exhausted),
    };
    proof {
        lemma_derive_deterministic(
            seed_bytes(seeds),
            owner@,
            derivation_view(r),
            derived(seed_bytes(seeds), owner@),
        );
    }
    r
}

/// The seed list with the nonce as its last component.
pub fn push_nonce(seeds: Vec<Vec<u8>>, nonce: u8) -> (r: Vec<Vec<u8>>)
    ensures
        seed_bytes(&r) == with_nonce(seed_bytes(&seeds), nonce),
{
    let mut last: Vec<u8> = Vec::new();
    last.push(nonce);
    assert(last@ =~= seq![nonce]);
    let mut full = seeds;
    full.push(last);
    assert(seed_bytes(&full) =~= with_nonce(seed_bytes(&seeds), nonce));
    full
}

/// Derives the address of `seeds` again under a nonce that is already known,
/// without a search: `None` where that nonce gives no custodial address.
pub fn rederive(seeds: Vec<Vec<u8>>, nonce: u8, owner: &Address) -> (r: Option<Address>)
    ensures
        address_view(r) == address_at(seed_bytes(&seeds), nonce, owner@),
{
    let full = push_nonce(seeds, nonce);
    create_program_address(&full, owner)
}

/// The nonce that a search finds derives the found address again.
pub proof fn lemma_found_rederives(seeds: Seq<Seq<u8>>, owner: Seq<u8>, address: Seq<u8>, nonce: u8)
    requires
        derives_to(seeds, owner, Some((address, nonce))),
    ensures
        address_at(seeds, nonce, owner) == Some(address),
{
}

/// A derivation has one outcome: whatever two searches over the same seeds
/// and owner give, they give the same address and the same nonce.
pub proof fn lemma_derive_deterministic(
    seeds: Seq<Seq<u8>>,
    owner: Seq<u8>,
    first: Option<(Seq<u8>, u8)>,
    second: Option<(Seq<u8>, u8)>,
)
    requires
        derives_to(seeds, owner, first),
        derives_to(seeds, owner, second),
    ensures
        first == second,
{
    match (first, second) {
        (Some((a, n)), Some((b, m))) => {
            if n < m {
                assert(address_at(seeds, m, owner) is None);
            } else if m < n {
                assert(address_at(seeds, n, owner) is None);
            }
        },
        (Some((a, n)), None) => {
            assert(address_at(seeds, n, owner) is None);
        },
        (None, Some((b, m))) => {
            assert(address_at(seeds, m, owner) is None);
        },
        (None, None) => {},
    }
}

} // verus!
