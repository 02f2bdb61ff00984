//! The derived addresses of a release.
//!
//! The record of a release lives at the address derived from a fixed tag and
//! the address of its mint. The signer of a release is derived from the
//! address of the record alone. A token account that belongs to an owner and
//! a mint lives at the address derived from the owner, the token program and
//! the mint under the associated-account program.

use vstd::prelude::*;
use crate::pubkey::{
    found_view, option_view, seeds_view, spec_try_find_program_address, try_find_program_address, Pubkey,
};

verus! {

/// The tag that the address of a record is derived from: `nina-release`.
pub const RELEASE_SEED: [u8; 12] = [110, 105, 110, 97, 45, 114, 101, 108, 101, 97, 115, 101];

/// The address of the associated-account program.
pub const ASSOCIATED_TOKEN_PROGRAM_ID: [u8; 32] = [
    140,
    151,
    37,
    143,
    78,
    36,
    137,
    241,
    187,
    61,
    16,
    41,
    20,
    142,
    13,
    131,
    11,
    90,
    19,
    153,
    218,
    255,
    16,
    132,
    4,
    142,
    123,
    216,
    219,
    233,
    248,
    89,
];

/// The bytes of the tag as a seed.
pub fn release_seed() -> (seed: Vec<u8>)
    ensures
        seed@ == RELEASE_SEED@,
{
    let mut seed: Vec<u8> = Vec::new();
    let mut i: usize = 0;
    while i < 12
        invariant
            i <= 12,
            seed@.len() == i,
            forall|j: int| 0 <= j < i ==> seed@[j] == RELEASE_SEED[j],
        decreases 12 - i,
    {
        seed.push(RELEASE_SEED[i]);
        i += 1;
    }
    proof {
        assert(seed@ =~= RELEASE_SEED@);
    }
    seed
}

/// The address of the record of the release of `mint` under the program, and
/// the bump seed it is found with.
pub open spec fn spec_find_release_address(mint: Pubkey, program_id: Pubkey) -> Option<(Seq<u8>, u8)> {
    spec_try_find_program_address(seq![RELEASE_SEED@, mint@], program_id@)
}

/// Finds the address of the record of the release of `mint`.
pub fn find_release_address(mint: &Pubkey, program_id: &Pubkey) -> (found: Option<(Pubkey, u8)>)
    ensures
        found_view(found) == spec_find_release_address(*mint, *program_id),
{
    let mut seeds: Vec<Vec<u8>> = Vec::new();
    seeds.push(release_seed());
    seeds.push(mint.to_vec());
    proof {
        assert(seeds_view(seeds@) =~= seq![RELEASE_SEED@, mint@]);
    }
    try_find_program_address(seeds, program_id)
}

/// The address of the signer of the release recorded at `release`, and the
/// bump seed it is found with.
pub open spec fn spec_find_release_signer(release: Pubkey, program_id: Pubkey) -> Option<(Seq<u8>, u8)> {
    spec_try_find_program_address(seq![release@], program_id@)
}

/// Finds the address of the signer of the release recorded at `release`.
pub fn find_release_signer(release: &Pubkey, program_id: &Pubkey) -> (found: Option<(Pubkey, u8)>)
    ensures
        found_view(found) == spec_find_release_signer(*release, *program_id),
{
    let mut seeds: Vec<Vec<u8>> = Vec::new();
    seeds.push(release.to_vec());
    proof {
        assert(seeds_view(seeds@) =~= seq![release@]);
    }
    try_find_program_address(seeds, program_id)
}

/// The address of the token account of `wallet` for `mint` under the token
/// program.
pub open spec fn spec_associated_token_address(wallet: Pubkey, mint: Pubkey, token_program_id: Pubkey) -> Option<
    Seq<u8>,
> {
    match spec_try_find_program_address(
        seq![wallet@, token_program_id@, mint@],
        ASSOCIATED_TOKEN_PROGRAM_ID@,
    ) {
        Some((key, _)) => Some(key),
        None => None,
    }
}

/// Derives the address of the token account of `wallet` for `mint` under the
/// token program.
pub fn get_associated_token_address_with_program_id(
    wallet: &Pubkey,
    mint: &Pubkey,
    token_program_id: &Pubkey,
) -> (address: Option<Pubkey>)
    ensures
        option_view(address) == spec_associated_token_address(*wallet, *mint, *token_program_id),
{
    let mut seeds: Vec<Vec<u8>> = Vec::new();
    seeds.push(wallet.to_vec());
    seeds.push(token_program_id.to_vec());
    seeds.push(mint.to_vec());
    proof {
        assert(seeds_view(seeds@) =~= seq![wallet@, token_program_id@, mint@]);
    }
    let program = Pubkey::new_from_array(ASSOCIATED_TOKEN_PROGRAM_ID);
    match try_find_program_address(seeds, &program) {
        Some((key, _)) => Some(key),
        None => None,
    }
}

/// Whether `key` is the address that was found, if any was.
pub open spec fn is_found(found: Option<(Seq<u8>, u8)>, key: Pubkey) -> bool {
    found matches Some((address, _)) && address == key@
}

/// The bump seed that an address was found with; of no meaning where none
/// was found.
pub open spec fn found_bump(found: Option<(Seq<u8>, u8)>) -> u8 {
    match found {
        Some((_, bump)) => bump,
        None => 0,
    }
}

} // verus!
