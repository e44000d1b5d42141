//! Custody authorization: addresses derived from an escrow's id that no
//! private key controls, and the seeds that let the program sign for them.
use vstd::prelude::*;
use vstd::string::StrSliceExecFns;
use vstd::string::StringSliceAdditionalSpecFns;
use anchor_lang::solana_program::pubkey::Pubkey;
use crate::address::Address;

verus! {

/// Most seeds that one derivation accepts.
pub const MAX_SEEDS: usize = 16;

/// Most bytes in one seed.
pub const MAX_SEED_LEN: usize = 32;

/// The address that a list of seeds derives under a program id, or `None`
/// where the derived point lies on the curve (an address that a key could
/// sign for, which a derivation refuses).
pub uninterp spec fn program_address(seeds: Seq<Seq<u8>>, program: Seq<u8>) -> Option<Seq<u8>>;

/// The address and bump that the bump search finds for a list of seeds
/// under a program id.
pub uninterp spec fn found_program_address(seeds: Seq<Seq<u8>>, program: Seq<u8>) -> Option<(Seq<u8>, u8)>;

pub open spec fn seeds_within_limits(seeds: Seq<Seq<u8>>) -> bool {
    &&& seeds.len() <= MAX_SEEDS
    &&& forall|i: int| 0 <= i < seeds.len() ==> #[trigger] seeds[i].len() <= MAX_SEED_LEN
}

pub open spec fn address_view(r: Option<Address>) -> Option<Seq<u8>> {
    match r {
        Some(a) => Some(a@),
        None => None,
    }
}

pub open spec fn derived_view(r: Option<(Address, u8)>) -> Option<(Seq<u8>, u8)> {
    match r {
        Some((a, b)) => Some((a@, b)),
        None => None,
    }
}

/// Relies on `Pubkey::create_program_address`: it refuses more than
/// `MAX_SEEDS` seeds or a seed longer than `MAX_SEED_LEN`; otherwise it hashes
/// the seeds with the program id, and refuses a hash that lies on the curve.
#[verifier::external_body]
fn create_program_address(seeds: &Vec<Vec<u8>>, program_id: &Address) -> (r: Option<Address>)
    ensures
        address_view(r) == if seeds_within_limits(seeds.deep_view()) {
            program_address(seeds.deep_view(), program_id@)
        } else {
            None
        },
{
    let slices: Vec<&[u8]> = seeds.iter().map(|s| s.as_slice()).collect();
    let program = Pubkey::new_from_array(program_id.bytes);
    Pubkey::create_program_address(&slices, &program).ok().map(|p| Address { bytes: p.to_bytes() })
}

/// Relies on `Pubkey::try_find_program_address`: it appends a one-byte bump to
/// the seeds, from 255 down, and returns the first address that
/// `Pubkey::create_program_address` accepts with that bump; it gives up when
/// the seeds with a bump exceed the limits.
#[verifier::external_body]
fn find_program_address(seeds: &Vec<Vec<u8>>, program_id: &Address) -> (r: Option<(Address, u8)>)
    ensures
        derived_view(r) == found_program_address(seeds.deep_view(), program_id@),
        !seeds_within_limits(seeds.deep_view().push(seq![255u8])) ==> r is None,
        r matches Some((a, b)) ==> program_address(seeds.deep_view().push(seq![b]), program_id@)
            == Some(a@),
{
    let slices: Vec<&[u8]> = seeds.iter().map(|s| s.as_slice()).collect();
    let program = Pubkey::new_from_array(program_id.bytes);
    Pubkey::try_find_program_address(&slices, &program).map(|(p, b)| (Address { bytes: p.to_bytes() }, b))
}

/// The bytes of the string `escrow`: the tag of an escrow record's address.
pub open spec fn escrow_tag() -> Seq<u8> {
    seq![101u8, 115u8, 99u8, 114u8, 111u8, 119u8]
}

/// The bytes of the string `vault`: the tag of a vault's address.
pub open spec fn vault_tag() -> Seq<u8> {
    seq![118u8, 97u8, 117u8, 108u8, 116u8]
}

/// The seeds of the address of the record with the given id, without bump.
pub open spec fn escrow_seeds(id: Seq<u8>) -> Seq<Seq<u8>> {
    seq![escrow_tag(), id]
}

/// The seeds of the address of the vault of the record with the given id.
pub open spec fn vault_seeds(id: Seq<u8>) -> Seq<Seq<u8>> {
    seq![vault_tag(), id]
}

/// The seeds with which the program signs for the record's address.
pub open spec fn authority_seeds(id: Seq<u8>, bump: u8) -> Seq<Seq<u8>> {
    escrow_seeds(id).push(seq![bump])
}

fn escrow_tag_bytes() -> (r: Vec<u8>)
    ensures
        r@ == escrow_tag(),
{
    let r: Vec<u8> = vec![101u8, 115u8, 99u8, 114u8, 111u8, 119u8];
    assert(r@ =~= escrow_tag());
    r
}

fn vault_tag_bytes() -> (r: Vec<u8>)
    ensures
        r@ == vault_tag(),
{
    let r: Vec<u8> = vec![118u8, 97u8, 117u8, 108u8, 116u8];
    assert(r@ =~= vault_tag());
    r
}

fn seed_pair(tag: Vec<u8>, gift_id: &str) -> (r: Vec<Vec<u8>>)
    ensures
        r.deep_view() == seq![tag@, gift_id.spec_bytes()],
{
    let mut r: Vec<Vec<u8>> = Vec::new();
    r.push(tag);
    r.push(gift_id.as_bytes_vec());
    assert(r@[0].deep_view() =~= r@[0]@);
    assert(r@[1].deep_view() =~= r@[1]@);
    assert(r.deep_view() =~= seq![r@[0]@, gift_id.spec_bytes()]);
    r
}

/// The address of the record with the given id, and the bump that lets the
/// program sign for it.
pub fn derive_authority(program_id: &Address, gift_id: &str) -> (r: Option<(Address, u8)>)
    ensures
        derived_view(r) == found_program_address(escrow_seeds(gift_id.spec_bytes()), program_id@),
        r matches Some((a, b)) ==> program_address(
            authority_seeds(gift_id.spec_bytes(), b),
            program_id@,
        ) == Some(a@),
        gift_id.spec_bytes().len() > MAX_SEED_LEN ==> r is None,
{
    let seeds = seed_pair(escrow_tag_bytes(), gift_id);
    let r = find_program_address(&seeds, program_id);
    proof {
        let with_bump = seeds.deep_view().push(seq![255u8]);
        if gift_id.spec_bytes().len() > MAX_SEED_LEN {
            assert(with_bump[1].len() > MAX_SEED_LEN);
        }
    }
    r
}

/// The address of the vault of the record with the given id, and its bump.
pub fn derive_vault(program_id: &Address, gift_id: &str) -> (r: Option<(Address, u8)>)
    ensures
        derived_view(r) == found_program_address(vault_seeds(gift_id.spec_bytes()), program_id@),
        gift_id.spec_bytes().len() > MAX_SEED_LEN ==> r is None,
{
    let seeds = seed_pair(vault_tag_bytes(), gift_id);
    let r = find_program_address(&seeds, program_id);
    proof {
        let with_bump = seeds.deep_view().push(seq![255u8]);
        if gift_id.spec_bytes().len() > MAX_SEED_LEN {
            assert(with_bump[1].len() > MAX_SEED_LEN);
        }
    }
    r
}

/// The seeds with which the program signs for the record with the given id.
pub fn signer_seeds(gift_id: &str, bump: u8) -> (r: Vec<Vec<u8>>)
    ensures
        r.deep_view() == authority_seeds(gift_id.spec_bytes(), bump),
{
    let mut r = seed_pair(escrow_tag_bytes(), gift_id);
    let ghost before = r.deep_view();
    assert(r@.len() == before.len());
    let b: Vec<u8> = vec![bump];
    assert(b.deep_view() =~= seq![bump]);
    r.push(b);
    assert(r@.len() == 3 && r@[2] == b);
    assert(r.deep_view() =~= before.push(seq![bump]));
    r
}

/// The address that the signer seeds of the record with the given id and bump
/// stand for; `None` where they derive no address.
pub fn reconstruct_authority(program_id: &Address, gift_id: &str, bump: u8) -> (r: Option<Address>)
    ensures
        address_view(r) == if seeds_within_limits(authority_seeds(gift_id.spec_bytes(), bump)) {
            program_address(authority_seeds(gift_id.spec_bytes(), bump), program_id@)
        } else {
            None
        },
{
    let seeds = signer_seeds(gift_id, bump);
    create_program_address(&seeds, program_id)
}

} // verus!
