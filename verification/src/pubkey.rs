//! Addresses: 32-byte public keys, program-derived addresses, and the
//! deterministic derivation paths this program uses.
//!
//! A program-derived address is a deterministic, collision-resistant
//! function of a list of seed byte strings and a program id. It has no
//! private key: only code that can reproduce the seeds may authorize
//! operations on its behalf. Every program-owned account is tied to such a
//! derivation, so a caller cannot substitute an attacker-controlled account.

use vstd::prelude::*;

use crate::errors::AuctionError;

verus! {

/// A 32-byte address on the ledger: the identity of an account, a program,
/// a mint, or a derived signing authority.
#[derive(Clone, Copy, Debug)]
pub struct Pubkey {
    pub bytes: [u8; 32],
}

impl View for Pubkey {
    type V = Seq<u8>;

    open spec fn view(&self) -> Seq<u8> {
        self.bytes@
    }
}

impl Pubkey {
    /// Builds an address from its 32 raw bytes.
    pub fn new(bytes: [u8; 32]) -> (r: Pubkey)
        ensures
            r@ == bytes@,
    {
        Pubkey { bytes }
    }

    /// The address' bytes as a growable vector, for use as a seed.
    pub fn to_vec(&self) -> (r: Vec<u8>)
        ensures
            r@ == self@,
    {
        let mut out: Vec<u8> = Vec::new();
        let mut i: usize = 0;
        while i < 32
            invariant
                i <= 32,
                out@ == self@.take(i as int),
            decreases 32 - i,
        {
            out.push(self.bytes[i]);
            assert(out@ =~= self@.take(i + 1));
            i = i + 1;
        }
        assert(out@ =~= self@);
        out
    }
}

/// Byte-for-byte equality of two addresses.
pub fn pubkey_eq(a: &Pubkey, b: &Pubkey) -> (r: bool)
    ensures
        r <==> a@ == b@,
{
    let mut i: usize = 0;
    while i < 32
        invariant
            i <= 32,
            forall|j: int| 0 <= j < i ==> a.bytes[j] == b.bytes[j],
        decreases 32 - i,
    {
        if a.bytes[i] != b.bytes[i] {
            assert(a@ != b@);
            return false;
        }
        i = i + 1;
    }
    assert(a@ =~= b@);
    true
}

/// What the host's address derivation returns for a seed list and a program
/// id: the first bump byte, searched downward from 255, whose extended seed
/// list yields an address off the elliptic curve, together with that
/// address; or nothing in the statistically improbable event that no bump
/// works.
pub uninterp spec fn find_pda(seeds: Seq<Seq<u8>>, program: Seq<u8>) -> Option<(Seq<u8>, u8)>;

/// What the host's one-shot address derivation returns for a seed list and
/// a program id: a hash of them, or nothing when the hash lands on the
/// elliptic curve or a seed is over the host's length limits.
pub uninterp spec fn program_address(seeds: Seq<Seq<u8>>, program: Seq<u8>) -> Option<Seq<u8>>;

/// Relies on solana_program::pubkey::Pubkey::try_find_program_address: its
/// result is a function of the seeds and the program id alone, and its
/// source returns the first bump (from 255 downward) for which
/// create_program_address succeeds on the seeds extended with that single
/// bump byte, paired with exactly the address that call returned.
#[verifier::external_body]
fn try_find_program_address(seeds: &Vec<Vec<u8>>, program_id: &Pubkey) -> (r: Option<(Pubkey, u8)>)
    ensures
        match r {
            Some(p) => {
                &&& find_pda(seeds.deep_view(), program_id@) == Some((p.0@, p.1))
                &&& program_address(seeds.deep_view().push(seq![p.1]), program_id@) == Some(p.0@)
            },
            None => find_pda(seeds.deep_view(), program_id@) is None,
        },
{
    let s: Vec<&[u8]> = seeds.iter().map(|x| x.as_slice()).collect();
    let pid = solana_program::pubkey::Pubkey::new_from_array(program_id.bytes);
    solana_program::pubkey::Pubkey::try_find_program_address(&s, &pid)
        .map(|(k, b)| (Pubkey { bytes: k.to_bytes() }, b))
}

/// Relies on solana_program::pubkey::Pubkey::create_program_address: its
/// result is a function of the seeds and the program id alone.
#[verifier::external_body]
fn create_program_address(seeds: &Vec<Vec<u8>>, program_id: &Pubkey) -> (r: Option<Pubkey>)
    ensures
        match r {
            Some(k) => program_address(seeds.deep_view(), program_id@) == Some(k@),
            None => program_address(seeds.deep_view(), program_id@) is None,
        },
{
    let s: Vec<&[u8]> = seeds.iter().map(|x| x.as_slice()).collect();
    let pid = solana_program::pubkey::Pubkey::new_from_array(program_id.bytes);
    solana_program::pubkey::Pubkey::create_program_address(&s, &pid)
        .ok()
        .map(|k| Pubkey { bytes: k.to_bytes() })
}

/// The seed tag of auction and extended-data accounts, the bytes of
/// "auction".
pub open spec fn auction_prefix_seed() -> Seq<u8> {
    seq![97u8, 117u8, 99u8, 116u8, 105u8, 111u8, 110u8]
}

/// The seed tag that separates the extended-data account from the auction
/// account, the bytes of "extended".
pub open spec fn extended_suffix_seed() -> Seq<u8> {
    seq![101u8, 120u8, 116u8, 101u8, 110u8, 100u8, 101u8, 100u8]
}

/// The seed tag of the custody holding account, the bytes of "nft".
pub open spec fn custody_tag_seed() -> Seq<u8> {
    seq![110u8, 102u8, 116u8]
}

/// The seed tag of the escrow signing identity, the bytes of "escrow".
pub open spec fn escrow_tag_seed() -> Seq<u8> {
    seq![101u8, 115u8, 99u8, 114u8, 111u8, 119u8]
}

/// The derivation path of an auction account: (prefix, program id,
/// resource).
pub open spec fn auction_path(program: Seq<u8>, resource: Seq<u8>) -> Seq<Seq<u8>> {
    seq![auction_prefix_seed(), program, resource]
}

/// The derivation path of an extended-data account: the auction path plus
/// the extended suffix.
pub open spec fn extended_path(program: Seq<u8>, resource: Seq<u8>) -> Seq<Seq<u8>> {
    seq![auction_prefix_seed(), program, resource, extended_suffix_seed()]
}

/// The derivation path of the custody holding account: (custody tag,
/// auction address).
pub open spec fn custody_path(auction_key: Seq<u8>) -> Seq<Seq<u8>> {
    seq![custody_tag_seed(), auction_key]
}

/// The derivation path of the escrow identity: (escrow tag, creator
/// identity).
pub open spec fn escrow_path(creator: Seq<u8>) -> Seq<Seq<u8>> {
    seq![escrow_tag_seed(), creator]
}

/// The escrow identity's full seed list once a caller supplies the
/// disambiguation nonce.
pub open spec fn escrow_path_with_nonce(creator: Seq<u8>, nonce: u8) -> Seq<Seq<u8>> {
    seq![escrow_tag_seed(), creator, seq![nonce]]
}

fn auction_prefix_bytes() -> (r: Vec<u8>)
    ensures
        r@ == auction_prefix_seed(),
{
    let r: Vec<u8> = vec![97u8, 117u8, 99u8, 116u8, 105u8, 111u8, 110u8];
    assert(r@ =~= auction_prefix_seed());
    r
}

fn extended_suffix_bytes() -> (r: Vec<u8>)
    ensures
        r@ == extended_suffix_seed(),
{
    let r: Vec<u8> = vec![101u8, 120u8, 116u8, 101u8, 110u8, 100u8, 101u8, 100u8];
    assert(r@ =~= extended_suffix_seed());
    r
}

fn custody_tag_bytes() -> (r: Vec<u8>)
    ensures
        r@ == custody_tag_seed(),
{
    let r: Vec<u8> = vec![110u8, 102u8, 116u8];
    assert(r@ =~= custody_tag_seed());
    r
}

fn escrow_tag_bytes() -> (r: Vec<u8>)
    ensures
        r@ == escrow_tag_seed(),
{
    let r: Vec<u8> = vec![101u8, 115u8, 99u8, 114u8, 111u8, 119u8];
    assert(r@ =~= escrow_tag_seed());
    r
}

/// The auction account's seed list as the host derivation consumes it.
pub fn auction_seeds(program_id: &Pubkey, resource: &Pubkey) -> (r: Vec<Vec<u8>>)
    ensures
        r.deep_view() == auction_path(program_id@, resource@),
{
    let mut r: Vec<Vec<u8>> = Vec::new();
    r.push(auction_prefix_bytes());
    r.push(program_id.to_vec());
    r.push(resource.to_vec());
    assert(r.deep_view() =~~= auction_path(program_id@, resource@));
    r
}

/// The extended-data account's seed list.
pub fn extended_seeds(program_id: &Pubkey, resource: &Pubkey) -> (r: Vec<Vec<u8>>)
    ensures
        r.deep_view() == extended_path(program_id@, resource@),
{
    let mut r: Vec<Vec<u8>> = Vec::new();
    r.push(auction_prefix_bytes());
    r.push(program_id.to_vec());
    r.push(resource.to_vec());
    r.push(extended_suffix_bytes());
    assert(r.deep_view() =~~= extended_path(program_id@, resource@));
    r
}

/// The custody holding account's seed list.
pub fn custody_seeds(auction_key: &Pubkey) -> (r: Vec<Vec<u8>>)
    ensures
        r.deep_view() == custody_path(auction_key@),
{
    let mut r: Vec<Vec<u8>> = Vec::new();
    r.push(custody_tag_bytes());
    r.push(auction_key.to_vec());
    assert(r.deep_view() =~~= custody_path(auction_key@));
    r
}

/// The escrow identity's seed list, before the nonce.
pub fn escrow_seeds(creator: &Pubkey) -> (r: Vec<Vec<u8>>)
    ensures
        r.deep_view() == escrow_path(creator@),
{
    let mut r: Vec<Vec<u8>> = Vec::new();
    r.push(escrow_tag_bytes());
    r.push(creator.to_vec());
    assert(r.deep_view() =~~= escrow_path(creator@));
    r
}

/// Extends a seed list with a one-byte bump seed.
pub fn seeds_with_bump(seeds: Vec<Vec<u8>>, bump: u8) -> (r: Vec<Vec<u8>>)
    ensures
        r.deep_view() == seeds.deep_view().push(seq![bump]),
{
    let ghost orig = seeds.deep_view();
    let mut r = seeds;
    let b: Vec<u8> = vec![bump];
    assert(b@ =~= seq![bump]);
    r.push(b);
    assert(r.deep_view() =~~= orig.push(seq![bump]));
    r
}

/// Derives an address and bump from a seed list.
pub fn derive_address(seeds: &Vec<Vec<u8>>, program_id: &Pubkey) -> (r: Option<(Pubkey, u8)>)
    ensures
        match r {
            Some(p) => {
                &&& find_pda(seeds.deep_view(), program_id@) == Some((p.0@, p.1))
                &&& program_address(seeds.deep_view().push(seq![p.1]), program_id@) == Some(p.0@)
            },
            None => find_pda(seeds.deep_view(), program_id@) is None,
        },
{
    try_find_program_address(seeds, program_id)
}

/// Derives an address from a full seed list that already carries its nonce.
pub fn derive_with_nonce(seeds: &Vec<Vec<u8>>, program_id: &Pubkey) -> (r: Option<Pubkey>)
    ensures
        match r {
            Some(k) => program_address(seeds.deep_view(), program_id@) == Some(k@),
            None => program_address(seeds.deep_view(), program_id@) is None,
        },
{
    create_program_address(seeds, program_id)
}

/// Whether a supplied address is exactly what a seed list derives to.
pub open spec fn derivation_matches(seeds: Seq<Seq<u8>>, program: Seq<u8>, supplied: Seq<u8>) -> bool {
    find_pda(seeds, program) matches Some(p) && p.0 == supplied
}

/// Verifies that a caller-supplied address reproduces from a seed list, and
/// hands back the derivation's bump seed.
pub fn assert_derivation(seeds: &Vec<Vec<u8>>, program_id: &Pubkey, supplied: &Pubkey) -> (r: Result<
    u8,
    AuctionError,
>)
    ensures
        r is Ok <==> derivation_matches(seeds.deep_view(), program_id@, supplied@),
        r matches Ok(b) ==> {
            &&& find_pda(seeds.deep_view(), program_id@) == Some((supplied@, b))
            &&& program_address(seeds.deep_view().push(seq![b]), program_id@) == Some(supplied@)
        },
        r matches Err(e) ==> e == AuctionError::AddressMismatch,
{
    match derive_address(seeds, program_id) {
        Some((key, bump)) => {
            if pubkey_eq(&key, supplied) {
                Ok(bump)
            } else {
                Err(AuctionError::AddressMismatch)
            }
        },
        None => Err(AuctionError::AddressMismatch),
    }
}

/// Deriving the same seed list twice yields one address and one nonce:
/// whatever two derivations of it return, they agree, so two supplied
/// accounts that both pass verification against the same seed list are
/// the same account. Together with the mismatch rejection in
/// assert_derivation, this ties every program-owned account to its
/// immutable inputs.
pub proof fn lemma_derivation_is_deterministic(
    seeds: Seq<Seq<u8>>,
    program: Seq<u8>,
    k1: Seq<u8>,
    b1: u8,
    k2: Seq<u8>,
    b2: u8,
)
    requires
        find_pda(seeds, program) == Some((k1, b1)),
        find_pda(seeds, program) == Some((k2, b2)),
    ensures
        k1 == k2,
        b1 == b2,
{
}

} // verus!
