//! Addresses and their deterministic derivation from seeds.
//!
//! A program-derived address is found by appending a one-byte bump to the
//! caller's seeds and hashing them under the owning program, starting at
//! bump 255 and counting down until the hash is not a point of the ed25519
//! curve. The hash and the curve test are the chain SDK's; the search is
//! this module's and is proved to return the first bump that works.

use solana_sdk::pubkey::Pubkey;
use solana_sdk::pubkey::PubkeyError;
use vstd::prelude::*;

verus! {

/// The most seeds that one derivation may hash, the bump included.
pub const MAX_SEEDS: usize = 16;

/// The most bytes that one seed may hold.
pub const MAX_SEED_LEN: usize = 32;

/// A 32-byte account or program identifier.
#[derive(Clone, Copy, Debug, Hash)]
pub struct Address(pub [u8; 32]);

impl View for Address {
    type V = Seq<u8>;

    open spec fn view(&self) -> Seq<u8> {
        self.0@
    }
}

/// Thirty-two zero bytes.
pub open spec fn zero_bytes() -> Seq<u8> {
    Seq::new(32, |i: int| 0u8)
}

impl Default for Address {
    /// The address of 32 zero bytes.
    fn default() -> (address: Address)
        ensures
            address@ == zero_bytes(),
    {
        let address = Address([0u8; 32]);
        assert(address@ =~= zero_bytes());
        address
    }
}

impl PartialEq for Address {
    fn eq(&self, other: &Address) -> (same: bool) {
        let mut i: usize = 0;
        while i < 32
            invariant
                i <= 32,
                forall|j: int| 0 <= j < i ==> self.0[j] == other.0[j],
            decreases 32 - i,
        {
            if self.0[i] != other.0[i] {
                return false;
            }
            i = i + 1;
        }
        assert(self.0@ =~= other.0@);
        true
    }
}

impl Eq for Address {

}

impl vstd::std_specs::cmp::PartialEqSpecImpl for Address {
    open spec fn obeys_eq_spec() -> bool {
        true
    }

    open spec fn eq_spec(&self, other: &Address) -> bool {
        self@ == other@
    }
}

/// Two addresses with the same bytes are the same address.
pub proof fn lemma_address_by_bytes(a: Address, b: Address)
    requires
        a@ == b@,
    ensures
        a == b,
{
    assert(a.0 =~= b.0);
}

/// The address whose bytes are `bytes`.
pub open spec fn address_of(bytes: Seq<u8>) -> Address {
    Address(choose|array: [u8; 32]| array@ == bytes)
}

/// Every address is the address of its bytes.
pub proof fn lemma_address_of_bytes(a: Address)
    ensures
        address_of(a@) == a,
{
    assert(a.0@ == a@);
    lemma_address_by_bytes(address_of(a@), a);
}

/// Why a derivation produced no address.
#[derive(Clone, Copy, Debug, PartialEq, Eq, Structural)]
pub enum DerivationError {
    /// There are `MAX_SEEDS` seeds or more, or a seed is longer than
    /// `MAX_SEED_LEN` bytes.
    SeedsOutOfRange,
    /// Every bump from 255 down to 1 gave a point on the curve.
    NoViableBump,
}

/// How one attempt at a program address can fail, as the chain SDK names it.
enum AddressError {
    MaxSeedLengthExceeded,
    InvalidSeeds,
    IllegalOwner,
}

/// The bytes of each seed, in order.
pub open spec fn seed_bytes(seeds: Seq<&[u8]>) -> Seq<Seq<u8>> {
    Seq::new(seeds.len(), |i: int| seeds[i]@)
}

/// Whether a seed list is within the limits of one hashing attempt.
pub open spec fn seeds_fit(seeds: Seq<Seq<u8>>) -> bool {
    &&& seeds.len() <= MAX_SEEDS
    &&& forall|i: int| 0 <= i < seeds.len() ==> (#[trigger] seeds[i]).len() <= MAX_SEED_LEN
}

/// The address that the chain SDK's `Pubkey::create_program_address` gives
/// for a seed list within the limits and an owning program, or `None` where
/// the hash of the two is a point of the ed25519 curve and so cannot be a
/// program address.
pub uninterp spec fn program_address(seeds: Seq<Seq<u8>>, program: Seq<u8>) -> Option<Seq<u8>>;

/// What one hashing attempt on `seeds` comes to, given what the hash of a
/// list within the limits yields.
spec fn spec_attempt(seeds: Seq<Seq<u8>>, hashed: Option<Seq<u8>>) -> Result<
    Seq<u8>,
    AddressError,
> {
    if !seeds_fit(seeds) {
        Err(AddressError::MaxSeedLengthExceeded)
    } else {
        match hashed {
            Some(hash) => Ok(hash),
            None => Err(AddressError::InvalidSeeds),
        }
    }
}

/// An attempt's outcome with the address taken as its bytes.
spec fn attempt_bytes(r: Result<Address, AddressError>) -> Result<Seq<u8>, AddressError> {
    match r {
        Ok(address) => Ok(address@),
        Err(e) => Err(e),
    }
}

/// One hashing attempt, made by `solana_sdk::pubkey::Pubkey::create_program_address`.
///
/// Not proved here: that function refuses a list of more than `MAX_SEEDS`
/// seeds, or one with a seed of more than `MAX_SEED_LEN` bytes, with
/// `MaxSeedLengthExceeded`; for any other list it hashes the seeds, the
/// program and a fixed marker, and returns the hash unless it is a curve
/// point, which it reports as `InvalidSeeds`. The outcome depends on the
/// seeds' bytes and the program alone.
#[verifier::external_body]
fn create_program_address(seeds: &[&[u8]], program: &Address) -> (r: Result<Address, AddressError>)
    ensures
        attempt_bytes(r) == spec_attempt(
            seed_bytes(seeds@),
            program_address(seed_bytes(seeds@), program@),
        ),
{
    match Pubkey::create_program_address(seeds, &Pubkey::new_from_array(program.0)) {
        Ok(key) => Ok(Address(key.to_bytes())),
        Err(PubkeyError::MaxSeedLengthExceeded) => Err(AddressError::MaxSeedLengthExceeded),
        Err(PubkeyError::InvalidSeeds) => Err(AddressError::InvalidSeeds),
        Err(PubkeyError::IllegalOwner) => Err(AddressError::IllegalOwner),
    }
}

/// The seed list with a one-byte bump seed appended.
pub open spec fn with_bump(seeds: Seq<Seq<u8>>, bump: u8) -> Seq<Seq<u8>> {
    seeds.push(seq![bump])
}

/// The first bump, counting down from `top` to 1, whose attempt gives an
/// address, with that address.
pub open spec fn first_bump_from(seeds: Seq<Seq<u8>>, program: Seq<u8>, top: u8) -> Option<
    (Seq<u8>, u8),
>
    decreases top,
{
    if top == 0 {
        None
    } else {
        match program_address(with_bump(seeds, top), program) {
            Some(hash) => Some((hash, top)),
            None => first_bump_from(seeds, program, (top - 1) as u8),
        }
    }
}

/// What deriving a program address from `seeds` under `program` yields.
pub open spec fn spec_derive(seeds: Seq<Seq<u8>>, program: Seq<u8>) -> Result<
    (Seq<u8>, u8),
    DerivationError,
> {
    if !seeds_fit(with_bump(seeds, 255)) {
        Err(DerivationError::SeedsOutOfRange)
    } else {
        match first_bump_from(seeds, program, 255) {
            Some(found) => Ok(found),
            None => Err(DerivationError::NoViableBump),
        }
    }
}

/// A derivation's outcome with the address taken as its bytes.
pub open spec fn derived_bytes(r: Result<(Address, u8), DerivationError>) -> Result<
    (Seq<u8>, u8),
    DerivationError,
> {
    match r {
        Ok((address, bump)) => Ok((address@, bump)),
        Err(e) => Err(e),
    }
}

/// Whether the seeds with a bump fit does not depend on the bump.
proof fn lemma_fit_any_bump(seeds: Seq<Seq<u8>>, a: u8, b: u8)
    ensures
        seeds_fit(with_bump(seeds, a)) == seeds_fit(with_bump(seeds, b)),
{
    let wa = with_bump(seeds, a);
    let wb = with_bump(seeds, b);
    if seeds_fit(wa) {
        assert forall|i: int| 0 <= i < wb.len() implies (#[trigger] wb[i]).len() <= MAX_SEED_LEN by {
            assert(wa[i].len() == wb[i].len());
        }
    }
    if seeds_fit(wb) {
        assert forall|i: int| 0 <= i < wa.len() implies (#[trigger] wa[i]).len() <= MAX_SEED_LEN by {
            assert(wb[i].len() == wa[i].len());
        }
    }
}

/// What is known of each bump at or below `top`: the search's answer is a
/// bump that works, no bump above it up to `top` works, and the search
/// gives up only if none from 1 to `top` works.
proof fn lemma_first_bump_from(seeds: Seq<Seq<u8>>, program: Seq<u8>, top: u8)
    ensures
        match first_bump_from(seeds, program, top) {
            Some((address, bump)) => {
                &&& 1 <= bump <= top
                &&& program_address(with_bump(seeds, bump), program) == Some(address)
                &&& forall|higher: u8|
                    bump < higher <= top ==> (#[trigger] program_address(
                        with_bump(seeds, higher),
                        program,
                    )) is None
            },
            None => forall|bump: u8|
                1 <= bump <= top ==> (#[trigger] program_address(
                    with_bump(seeds, bump),
                    program,
                )) is None,
        },
    decreases top,
{
    if top > 0 {
        lemma_first_bump_from(seeds, program, (top - 1) as u8);
    }
}

/// A derived address is a program address, and its bump is the first that
/// works: the derivation succeeds exactly when the seeds are within the
/// limits and some bump from 255 down to 1 hashes off the curve; it then
/// returns the highest such bump with the address of that bump.
pub proof fn lemma_derive_first_off_curve(seeds: Seq<Seq<u8>>, program: Seq<u8>)
    ensures
        match spec_derive(seeds, program) {
            Ok((address, bump)) => {
                &&& seeds_fit(with_bump(seeds, bump))
                &&& 1 <= bump
                &&& program_address(with_bump(seeds, bump), program) == Some(address)
                &&& forall|higher: u8|
                    bump < higher ==> (#[trigger] program_address(
                        with_bump(seeds, higher),
                        program,
                    )) is None
            },
            Err(DerivationError::NoViableBump) => {
                &&& seeds_fit(with_bump(seeds, 255))
                &&& forall|bump: u8|
                    1 <= bump ==> (#[trigger] program_address(
                        with_bump(seeds, bump),
                        program,
                    )) is None
            },
            Err(DerivationError::SeedsOutOfRange) => {
                ||| seeds.len() >= MAX_SEEDS
                ||| exists|i: int| 0 <= i < seeds.len() && (#[trigger] seeds[i]).len() > MAX_SEED_LEN
            },
        },
{
    lemma_first_bump_from(seeds, program, 255);
    match spec_derive(seeds, program) {
        Ok((address, bump)) => {
            lemma_fit_any_bump(seeds, bump, 255);
        },
        Err(DerivationError::NoViableBump) => {},
        Err(DerivationError::SeedsOutOfRange) => {
            let all = with_bump(seeds, 255);
            if seeds.len() < MAX_SEEDS {
                let i = choose|i: int| 0 <= i < all.len() && (#[trigger] all[i]).len() > MAX_SEED_LEN;
                assert(all[i] == seeds[i]);
            }
        },
    }
}

/// Two derivations from the same seeds under the same program agree.
pub proof fn lemma_derive_deterministic(
    first: Result<(Address, u8), DerivationError>,
    second: Result<(Address, u8), DerivationError>,
    seeds: Seq<Seq<u8>>,
    program: Seq<u8>,
)
    requires
        derived_bytes(first) == spec_derive(seeds, program),
        derived_bytes(second) == spec_derive(seeds, program),
    ensures
        first == second,
{
    if first is Ok {
        lemma_address_by_bytes(first->Ok_0.0, second->Ok_0.0);
    }
}

/// The caller's seeds followed by the bump seed.
fn seeds_with_bump<'a>(seeds: &[&'a [u8]], bump_seed: &'a [u8]) -> (all: Vec<&'a [u8]>)
    ensures
        all@ == seeds@.push(bump_seed),
{
    let mut all: Vec<&'a [u8]> = Vec::new();
    let mut i: usize = 0;
    while i < seeds.len()
        invariant
            i <= seeds@.len(),
            all@ == seeds@.subrange(0, i as int),
        decreases seeds@.len() - i,
    {
        all.push(seeds[i]);
        assert(seeds@.subrange(0, i as int).push(seeds@[i as int]) =~= seeds@.subrange(
            0,
            i + 1,
        ));
        i = i + 1;
    }
    assert(seeds@.subrange(0, i as int) =~= seeds@);
    all.push(bump_seed);
    all
}

/// Derives the program address of `seeds` under `program`, with its bump.
///
/// Bumps are tried from 255 down to 1. The result is the address of the
/// first bump whose hash is off the curve. It fails with `SeedsOutOfRange`
/// exactly when the seeds with a bump exceed the hashing limits, and with
/// `NoViableBump` exactly when they fit and no bump works.
pub fn derive(seeds: &[&[u8]], program: &Address) -> (r: Result<(Address, u8), DerivationError>)
    ensures
        derived_bytes(r) == spec_derive(seed_bytes(seeds@), program@),
{
    let ghost plain = seed_bytes(seeds@);
    let mut bump: u8 = 255;
    while bump > 0
        invariant
            plain == seed_bytes(seeds@),
            bump < 255 ==> seeds_fit(with_bump(plain, 255)),
            first_bump_from(plain, program@, 255) == first_bump_from(plain, program@, bump),
        decreases bump,
    {
        let bump_seed: [u8; 1] = [bump];
        let all = seeds_with_bump(seeds, bump_seed.as_slice());
        proof {
            assert(bump_seed@ =~= seq![bump]);
            assert(seed_bytes(all@) =~= with_bump(plain, bump));
            lemma_fit_any_bump(plain, bump, 255);
        }
        match create_program_address(all.as_slice(), program) {
            Ok(address) => {
                return Ok((address, bump));
            },
            Err(AddressError::InvalidSeeds) => {},
            Err(_) => {
                return Err(DerivationError::SeedsOutOfRange);
            },
        }
        bump = bump - 1;
    }
    proof {
        lemma_fit_any_bump(plain, 0, 255);
    }
    Err(DerivationError::NoViableBump)
}

/// The fixed seed list of a holding address: the owner, the program that
/// keeps the holdings, and the asset.
pub open spec fn holding_seeds(owner: Seq<u8>, asset: Seq<u8>, holding_program: Seq<u8>) -> Seq<
    Seq<u8>,
> {
    seq![owner, holding_program, asset]
}

/// The address at which `owner` holds `asset` under `holding_program`, as
/// the derivation scheme at `scheme` assigns it.
pub open spec fn spec_holding_address(
    owner: Seq<u8>,
    asset: Seq<u8>,
    holding_program: Seq<u8>,
    scheme: Seq<u8>,
) -> Result<Seq<u8>, DerivationError> {
    match spec_derive(holding_seeds(owner, asset, holding_program), scheme) {
        Ok((address, _)) => Ok(address),
        Err(e) => Err(e),
    }
}

/// An address or a failure, with the address taken as its bytes.
pub open spec fn address_bytes(r: Result<Address, DerivationError>) -> Result<
    Seq<u8>,
    DerivationError,
> {
    match r {
        Ok(address) => Ok(address@),
        Err(e) => Err(e),
    }
}

/// Derives the address at which `owner` holds `asset`.
///
/// It is the program address of the seeds owner, holding program, asset,
/// in that order, under the derivation scheme's program. Three 32-byte seeds
/// are always within the limits, so the only failure is `NoViableBump`.
pub fn derive_holding_address(
    owner: &Address,
    asset: &Address,
    holding_program: &Address,
    scheme: &Address,
) -> (r: Result<Address, DerivationError>)
    ensures
        address_bytes(r) == spec_holding_address(owner@, asset@, holding_program@, scheme@),
        r is Err ==> r->Err_0 == DerivationError::NoViableBump,
{
    let seeds: [&[u8]; 3] = [owner.0.as_slice(), holding_program.0.as_slice(), asset.0.as_slice()];
    proof {
        let plain = holding_seeds(owner@, asset@, holding_program@);
        assert(seed_bytes(seeds@) =~= plain);
        assert(seeds_fit(with_bump(plain, 255)));
    }
    match derive(seeds.as_slice(), scheme) {
        Ok((address, _)) => Ok(address),
        Err(e) => Err(e),
    }
}

} // verus!
