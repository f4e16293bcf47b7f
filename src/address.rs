//! Deterministic addressing of custody records.
//!
//! A record lives at a program-derived address: the hash of a domain tag, the
//! owners' keys and a one-byte salt (the bump), under the program's id, chosen
//! so that the result has no private key. The hashing itself is done by
//! `anchor_lang`; this module builds the seeds and checks stored addresses.

use vstd::prelude::*;

verus! {

/// A 32-byte account key.
#[derive(Clone, Copy, Debug)]
pub struct Address {
    pub bytes: [u8; 32],
}

impl View for Address {
    type V = Seq<u8>;

    open spec fn view(&self) -> Seq<u8> {
        self.bytes@
    }
}

impl Address {
    pub fn new(bytes: [u8; 32]) -> (r: Address)
        ensures
            r@ == bytes@,
    {
        Address { bytes }
    }

    /// The key's bytes as a seed.
    pub fn to_vec(&self) -> (r: Vec<u8>)
        ensures
            r@ == self@,
    {
        let mut out: Vec<u8> = Vec::new();
        let mut i: usize = 0;
        while i < 32
            invariant
                0 <= i <= 32,
                self@.len() == 32,
                out@ == self@.subrange(0, i as int),
            decreases 32 - i,
        {
            out.push(self.bytes[i]);
            i = i + 1;
            assert(out@ =~= self@.subrange(0, i as int));
        }
        assert(self@.subrange(0, 32) =~= self@);
        out
    }
}

impl PartialEq for Address {
    fn eq(&self, other: &Address) -> (r: bool) {
        let mut i: usize = 0;
        while i < 32
            invariant
                0 <= i <= 32,
                self@.len() == 32,
                other@.len() == 32,
                forall|j: int| 0 <= j < i ==> self@[j] == other@[j],
            decreases 32 - i,
        {
            if self.bytes[i] != other.bytes[i] {
                return false;
            }
            i = i + 1;
        }
        assert(self@ =~= other@);
        true
    }
}

impl vstd::std_specs::cmp::PartialEqSpecImpl for Address {
    open spec fn obeys_eq_spec() -> bool {
        true
    }

    open spec fn eq_spec(&self, other: &Address) -> bool {
        self@ == other@
    }
}

impl Eq for Address {}

/// Most seeds a derivation accepts.
pub const MAX_SEEDS: usize = 16;

/// Longest single seed a derivation accepts.
pub const MAX_SEED_LEN: usize = 32;

/// The address that `seeds` derive under `program_id`, or `None` where the
/// seeds are out of bounds or the hash lands on the curve.
pub uninterp spec fn created_program_address(seeds: Seq<Seq<u8>>, program_id: Seq<u8>) -> Option<
    Seq<u8>,
>;

pub open spec fn seeds_in_bounds(seeds: Seq<Seq<u8>>) -> bool {
    &&& seeds.len() <= MAX_SEEDS
    &&& forall|i: int| 0 <= i < seeds.len() ==> seeds[i].len() <= MAX_SEED_LEN
}

/// The seeds followed by the one-byte bump seed.
pub open spec fn with_bump(seeds: Seq<Seq<u8>>, bump: u8) -> Seq<Seq<u8>> {
    seeds.push(seq![bump])
}

/// The canonical bump of `seeds`: the largest bump in `1..=255` under which
/// the seeds derive an address.
pub open spec fn is_canonical_bump(seeds: Seq<Seq<u8>>, program_id: Seq<u8>, bump: u8) -> bool {
    &&& 1 <= bump
    &&& created_program_address(with_bump(seeds, bump), program_id) is Some
    &&& forall|b: u8|
        bump < b ==> #[trigger] created_program_address(with_bump(seeds, b), program_id) is None
}

pub open spec fn seeds_view(seeds: Seq<Vec<u8>>) -> Seq<Seq<u8>> {
    seeds.map_values(|s: Vec<u8>| s@)
}

/// Relies on `Pubkey::create_program_address`: a function of the seeds and the
/// program id, which refuses more than `MAX_SEEDS` seeds or a seed longer than
/// `MAX_SEED_LEN`.
#[verifier::external_body]
fn create_program_address(seeds: &Vec<Vec<u8>>, program_id: &Address) -> (r: Option<Address>)
    ensures
        r matches Some(a) ==> created_program_address(seeds_view(seeds@), program_id@) == Some(
            a@,
        ),
        r is None <==> created_program_address(seeds_view(seeds@), program_id@) is None,
        !seeds_in_bounds(seeds_view(seeds@)) ==> r is None,
{
    let refs: Vec<&[u8]> = seeds.iter().map(|s| s.as_slice()).collect();
    let program = anchor_lang::prelude::Pubkey::new_from_array(program_id.bytes);
    anchor_lang::prelude::Pubkey::create_program_address(&refs, &program).ok().map(
        |k| Address { bytes: k.to_bytes() },
    )
}

/// Relies on `Pubkey::try_find_program_address`: it tries the bumps from 255
/// down to 1 through `create_program_address` and returns the first that
/// derives an address.
#[verifier::external_body]
fn try_find_program_address(seeds: &Vec<Vec<u8>>, program_id: &Address) -> (r: Option<
    (Address, u8),
>)
    ensures
        r matches Some((a, bump)) ==> is_canonical_bump(seeds_view(seeds@), program_id@, bump)
            && created_program_address(with_bump(seeds_view(seeds@), bump), program_id@) == Some(
            a@,
        ),
        r is None ==> forall|b: u8|
            1 <= b ==> #[trigger] created_program_address(
                with_bump(seeds_view(seeds@), b),
                program_id@,
            ) is None,
{
    let refs: Vec<&[u8]> = seeds.iter().map(|s| s.as_slice()).collect();
    let program = anchor_lang::prelude::Pubkey::new_from_array(program_id.bytes);
    anchor_lang::prelude::Pubkey::try_find_program_address(&refs, &program).map(
        |(k, bump)| (Address { bytes: k.to_bytes() }, bump),
    )
}

/// Little-endian bytes of the low `k` bytes of `n`.
pub open spec fn le_bytes(n: nat, k: nat) -> Seq<u8>
    decreases k,
{
    if k == 0 {
        Seq::empty()
    } else {
        seq![(n % 256) as u8] + le_bytes(n / 256, (k - 1) as nat)
    }
}

/// The eight little-endian bytes of `n`.
pub fn u64_le_bytes(n: u64) -> (r: Vec<u8>)
    ensures
        r@ == le_bytes(n as nat, 8),
{
    let mut out: Vec<u8> = Vec::new();
    let mut rest: u64 = n;
    let mut i: usize = 0;
    while i < 8
        invariant
            0 <= i <= 8,
            out@ + le_bytes(rest as nat, (8 - i) as nat) == le_bytes(n as nat, 8),
        decreases 8 - i,
    {
        let byte = (rest % 256) as u8;
        let ghost before = out@;
        out.push(byte);
        proof {
            let tail = le_bytes((rest / 256) as nat, (8 - i - 1) as nat);
            assert(le_bytes(rest as nat, (8 - i) as nat) == seq![byte] + tail);
            assert(before + (seq![byte] + tail) == out@ + tail);
        }
        rest = rest / 256;
        i = i + 1;
    }
    assert(out@ + le_bytes(rest as nat, 0) == out@);
    out
}

/// The bytes of "escrow".
pub open spec fn escrow_tag() -> Seq<u8> {
    seq![101u8, 115, 99, 114, 111, 119]
}

/// The bytes of "auction".
pub open spec fn auction_tag() -> Seq<u8> {
    seq![97u8, 117, 99, 116, 105, 111, 110]
}

/// The bytes of "bounty".
pub open spec fn bounty_tag() -> Seq<u8> {
    seq![98u8, 111, 117, 110, 116, 121]
}

/// The bytes of "profile".
pub open spec fn profile_tag() -> Seq<u8> {
    seq![112u8, 114, 111, 102, 105, 108, 101]
}

/// Seeds of the escrow that `sender` opened towards `recipient`.
pub open spec fn spec_escrow_seeds(sender: Seq<u8>, recipient: Seq<u8>) -> Seq<Seq<u8>> {
    seq![escrow_tag(), sender, recipient]
}

/// Seeds of `host`'s auction number `auction_id`.
pub open spec fn spec_auction_seeds(host: Seq<u8>, auction_id: u64) -> Seq<Seq<u8>> {
    seq![auction_tag(), host, le_bytes(auction_id as nat, 8)]
}

/// Seeds of `issuer`'s bounty.
pub open spec fn spec_bounty_seeds(issuer: Seq<u8>) -> Seq<Seq<u8>> {
    seq![bounty_tag(), issuer]
}

/// Seeds of the profile of `authority`.
pub open spec fn spec_profile_seeds(authority: Seq<u8>) -> Seq<Seq<u8>> {
    seq![profile_tag(), authority]
}

pub fn escrow_seeds(sender: &Address, recipient: &Address) -> (r: Vec<Vec<u8>>)
    ensures
        seeds_view(r@) == spec_escrow_seeds(sender@, recipient@),
{
    let r = vec![
        vec![101u8, 115, 99, 114, 111, 119],
        sender.to_vec(),
        recipient.to_vec(),
    ];
    assert(seeds_view(r@) =~= spec_escrow_seeds(sender@, recipient@));
    r
}

pub fn auction_seeds(host: &Address, auction_id: u64) -> (r: Vec<Vec<u8>>)
    ensures
        seeds_view(r@) == spec_auction_seeds(host@, auction_id),
{
    let r = vec![
        vec![97u8, 117, 99, 116, 105, 111, 110],
        host.to_vec(),
        u64_le_bytes(auction_id),
    ];
    assert(seeds_view(r@) =~= spec_auction_seeds(host@, auction_id));
    r
}

pub fn bounty_seeds(issuer: &Address) -> (r: Vec<Vec<u8>>)
    ensures
        seeds_view(r@) == spec_bounty_seeds(issuer@),
{
    let r = vec![vec![98u8, 111, 117, 110, 116, 121], issuer.to_vec()];
    assert(seeds_view(r@) =~= spec_bounty_seeds(issuer@));
    r
}

pub fn profile_seeds(authority: &Address) -> (r: Vec<Vec<u8>>)
    ensures
        seeds_view(r@) == spec_profile_seeds(authority@),
{
    let r = vec![vec![112u8, 114, 111, 102, 105, 108, 101], authority.to_vec()];
    assert(seeds_view(r@) =~= spec_profile_seeds(authority@));
    r
}

/// The seeds with the bump appended: what signs for a record's vault.
pub fn signer_seeds(seeds: Vec<Vec<u8>>, bump: u8) -> (r: Vec<Vec<u8>>)
    ensures
        seeds_view(r@) == with_bump(seeds_view(seeds@), bump),
{
    let mut r = seeds;
    let ghost before = r@;
    let salt = vec![bump];
    assert(salt@ =~= seq![bump]);
    r.push(salt);
    assert(seeds_view(r@) =~= with_bump(seeds_view(before), bump));
    r
}

/// Whether `address` is the record that `seeds` and the stored `bump` derive.
pub open spec fn is_derived_address(
    seeds: Seq<Seq<u8>>,
    bump: u8,
    program_id: Seq<u8>,
    address: Seq<u8>,
) -> bool {
    created_program_address(with_bump(seeds, bump), program_id) == Some(address)
}

/// Checks a record's address against its seeds and stored bump: any other
/// owner set, tag or salt fails closed.
pub fn check_derived_address(
    seeds: Vec<Vec<u8>>,
    bump: u8,
    program_id: &Address,
    address: &Address,
) -> (r: bool)
    ensures
        r == is_derived_address(seeds_view(seeds@), bump, program_id@, address@),
{
    let with_salt = signer_seeds(seeds, bump);
    match create_program_address(&with_salt, program_id) {
        Some(derived) => derived == *address,
        None => false,
    }
}

/// Whether `address` is where a new record of `seeds` goes: the address that
/// the canonical bump derives.
pub open spec fn is_new_record_address(seeds: Seq<Seq<u8>>, program_id: Seq<u8>, address: Seq<
    u8,
>) -> bool {
    exists|b: u8|
        is_canonical_bump(seeds, program_id, b) && is_derived_address(
            seeds,
            b,
            program_id,
            address,
        )
}

/// The canonical bump, where there is one, is unique.
pub proof fn lemma_canonical_bump_unique(
    seeds: Seq<Seq<u8>>,
    program_id: Seq<u8>,
    b1: u8,
    b2: u8,
)
    requires
        is_canonical_bump(seeds, program_id, b1),
        is_canonical_bump(seeds, program_id, b2),
    ensures
        b1 == b2,
{
    if b1 < b2 {
        assert(created_program_address(with_bump(seeds, b2), program_id) is None);
    } else if b2 < b1 {
        assert(created_program_address(with_bump(seeds, b1), program_id) is None);
    }
}

/// The bump under which a new record of `seeds` sits at `address`, or `None`
/// where `address` is not the record's canonical address.
pub fn new_record_bump(seeds: &Vec<Vec<u8>>, program_id: &Address, address: &Address) -> (r:
    Option<u8>)
    ensures
        r is Some <==> is_new_record_address(seeds_view(seeds@), program_id@, address@),
        r matches Some(b) ==> is_canonical_bump(seeds_view(seeds@), program_id@, b)
            && is_derived_address(seeds_view(seeds@), b, program_id@, address@),
{
    let ghost sv = seeds_view(seeds@);
    match try_find_program_address(seeds, program_id) {
        Some((found, bump)) => {
            if found == *address {
                Some(bump)
            } else {
                proof {
                    assert forall|b: u8|
                        !(is_canonical_bump(sv, program_id@, b) && is_derived_address(
                            sv,
                            b,
                            program_id@,
                            address@,
                        )) by {
                        if is_canonical_bump(sv, program_id@, b) {
                            lemma_canonical_bump_unique(sv, program_id@, b, bump);
                        }
                    }
                }
                None
            }
        },
        None => None,
    }
}

/// Finds the address and canonical bump of a new record.
pub fn find_record_address(seeds: &Vec<Vec<u8>>, program_id: &Address) -> (r: Option<
    (Address, u8),
>)
    ensures
        r matches Some((a, bump)) ==> is_canonical_bump(seeds_view(seeds@), program_id@, bump)
            && is_derived_address(seeds_view(seeds@), bump, program_id@, a@),
        r is None ==> forall|b: u8|
            1 <= b ==> #[trigger] created_program_address(
                with_bump(seeds_view(seeds@), b),
                program_id@,
            ) is None,
{
    try_find_program_address(seeds, program_id)
}

} // verus!
