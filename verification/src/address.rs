//! Program-derived and associated token account addresses.
use vstd::prelude::*;

use crate::key::Key;

verus! {

/// The address and bump seed that the runtime derives from `seeds` under `program_id`, or none
/// where no bump seed yields an address off the curve (or the seeds break the runtime's limits).
pub uninterp spec fn program_address(seeds: Seq<Seq<u8>>, program_id: Seq<u8>) -> Option<(Seq<u8>, u8)>;

/// The bytes of the token program's address.
pub open spec fn token_program_bytes() -> Seq<u8> {
    seq![6u8, 221, 246, 225, 215, 101, 161, 147, 217, 203, 225, 70, 206, 235, 121, 172, 28, 180, 133, 237, 95, 91, 55, 145, 58, 140, 245, 133, 126, 255, 0, 169]
}

/// The bytes of the associated-token-account program's address.
pub open spec fn associated_token_program_bytes() -> Seq<u8> {
    seq![140u8, 151, 37, 143, 78, 36, 137, 241, 187, 61, 16, 41, 20, 142, 13, 131, 11, 90, 19, 153, 218, 255, 16, 132, 4, 142, 123, 216, 219, 233, 248, 89]
}

/// The associated token account of `wallet` for `mint`: the address derived from the seeds
/// wallet, token program and mint under the associated-token-account program; none where the
/// runtime finds no bump seed.
pub open spec fn associated_token_address(wallet: Seq<u8>, mint: Seq<u8>) -> Option<Seq<u8>> {
    match program_address(seq![wallet, token_program_bytes(), mint], associated_token_program_bytes()) {
        Some((addr, _)) => Some(addr),
        None => None,
    }
}

/// Whether `key` is the associated token account of `wallet` for `mint`.
pub open spec fn is_associated_token_address(key: Seq<u8>, wallet: Seq<u8>, mint: Seq<u8>) -> bool {
    associated_token_address(wallet, mint) == Some(key)
}

/// The byte strings of a list of seeds.
pub open spec fn seeds_view(seeds: Seq<Vec<u8>>) -> Seq<Seq<u8>> {
    Seq::new(seeds.len(), |i: int| seeds[i]@)
}

/// Calls `Pubkey::try_find_program_address` of the Solana program crate. The contract claims
/// only that its answer is the named function `program_address` of the seeds and the program id.
#[verifier::external_body]
pub(crate) fn find_program_address(seeds: &Vec<Vec<u8>>, program_id: &Key) -> (r: Option<(Key, u8)>)
    ensures
        match program_address(seeds_view(seeds@), program_id@) {
            Some((addr, bump)) => r matches Some((k, b)) && k@ == addr && b == bump,
            None => r is None,
        },
{
    let slices: Vec<&[u8]> = seeds.iter().map(|s| s.as_slice()).collect();
    let id = anchor_lang::prelude::Pubkey::new_from_array(program_id.bytes);
    match anchor_lang::prelude::Pubkey::try_find_program_address(&slices, &id) {
        Some((p, b)) => Some((Key { bytes: p.to_bytes() }, b)),
        None => None,
    }
}

/// The seed tag of a planet's coordinate account: the bytes of `planet_coords`.
pub open spec fn planet_coords_tag() -> Seq<u8> {
    seq![112u8, 108, 97, 110, 101, 116, 95, 99, 111, 111, 114, 100, 115]
}

/// The seed tag of the market's signing authority: the bytes of `market_authority`.
pub open spec fn market_authority_tag() -> Seq<u8> {
    seq![109u8, 97, 114, 107, 101, 116, 95, 97, 117, 116, 104, 111, 114, 105, 116, 121]
}

/// The seeds of the coordinate account of the planet at the given place.
pub open spec fn planet_coords_seeds(galaxy: u16, system: u16, position: u8) -> Seq<Seq<u8>> {
    seq![
        planet_coords_tag(),
        vstd::bytes::spec_u16_to_le_bytes(galaxy),
        vstd::bytes::spec_u16_to_le_bytes(system),
        seq![position],
    ]
}

/// The address of the coordinate account of the planet at the given place, derived under
/// `program_id`; `None` where the runtime finds no bump seed.
pub fn planet_coords_address(galaxy: u16, system: u16, position: u8, program_id: &Key) -> (r: Option<(Key, u8)>)
    ensures
        match program_address(planet_coords_seeds(galaxy, system, position), program_id@) {
            Some((addr, bump)) => r matches Some((k, b)) && k@ == addr && b == bump,
            None => r is None,
        },
{
    let tag: Vec<u8> = vec![112u8, 108, 97, 110, 101, 116, 95, 99, 111, 111, 114, 100, 115];
    let g = vstd::bytes::u16_to_le_bytes(galaxy);
    let s = vstd::bytes::u16_to_le_bytes(system);
    let p: Vec<u8> = vec![position];
    let ghost views = seq![tag@, g@, s@, p@];
    assert(tag@ =~= planet_coords_tag());
    assert(p@ =~= seq![position]);
    let seeds: Vec<Vec<u8>> = vec![tag, g, s, p];
    assert(seeds_view(seeds@) =~= views);
    assert(views =~= planet_coords_seeds(galaxy, system, position));
    find_program_address(&seeds, program_id)
}

/// The address of the market's signing authority, derived under `market_program`.
pub fn market_authority_address(market_program: &Key) -> (r: Option<(Key, u8)>)
    ensures
        match program_address(seq![market_authority_tag()], market_program@) {
            Some((addr, bump)) => r matches Some((k, b)) && k@ == addr && b == bump,
            None => r is None,
        },
{
    let tag: Vec<u8> = vec![109u8, 97, 114, 107, 101, 116, 95, 97, 117, 116, 104, 111, 114, 105, 116, 121];
    let seeds: Vec<Vec<u8>> = vec![tag];
    assert(seeds_view(seeds@) =~= seq![market_authority_tag()]);
    find_program_address(&seeds, market_program)
}

/// Whether `addr` is the address derived from `seeds` under `program_id`.
pub open spec fn is_derived(addr: Seq<u8>, seeds: Seq<Seq<u8>>, program_id: Seq<u8>) -> bool {
    match program_address(seeds, program_id) {
        Some((a, _)) => addr == a,
        None => false,
    }
}

/// The bytes of `k` as a seed.
pub fn key_seed(k: &Key) -> (s: Vec<u8>)
    ensures
        s@ == k@,
{
    let mut s: Vec<u8> = Vec::new();
    let mut i: usize = 0;
    while i < 32
        invariant
            i <= 32,
            s@ == k@.subrange(0, i as int),
        decreases 32 - i,
    {
        s.push(k.bytes[i]);
        i = i + 1;
        assert(s@ =~= k@.subrange(0, i as int));
    }
    assert(k@.subrange(0, 32) =~= k@);
    s
}

/// Whether `addr` is the address derived from the single seed `tag` under `program_id`.
pub fn is_tagged_address(addr: &Key, tag: Vec<u8>, program_id: &Key) -> (r: bool)
    ensures
        r == is_derived(addr@, seq![tag@], program_id@),
{
    let ghost views = seq![tag@];
    let seeds: Vec<Vec<u8>> = vec![tag];
    assert(seeds_view(seeds@) =~= views);
    match find_program_address(&seeds, program_id) {
        Some((expected, _)) => addr.same_as(&expected),
        None => false,
    }
}

/// Whether `addr` is the address derived from the seeds `tag` and `key` under `program_id`.
pub fn is_tagged_key_address(addr: &Key, tag: Vec<u8>, key: &Key, program_id: &Key) -> (r: bool)
    ensures
        r == is_derived(addr@, seq![tag@, key@], program_id@),
{
    let k = key_seed(key);
    let ghost views = seq![tag@, k@];
    let seeds: Vec<Vec<u8>> = vec![tag, k];
    assert(seeds_view(seeds@) =~= views);
    match find_program_address(&seeds, program_id) {
        Some((expected, _)) => addr.same_as(&expected),
        None => false,
    }
}

/// The address derived from the seeds `tag` and `key` under `program_id`, with its bump.
pub fn tagged_key_address(tag: Vec<u8>, key: &Key, program_id: &Key) -> (r: Option<(Key, u8)>)
    ensures
        match program_address(seq![tag@, key@], program_id@) {
            Some((addr, bump)) => r matches Some((k, b)) && k@ == addr && b == bump,
            None => r is None,
        },
{
    let k = key_seed(key);
    let ghost views = seq![tag@, k@];
    let seeds: Vec<Vec<u8>> = vec![tag, k];
    assert(seeds_view(seeds@) =~= views);
    find_program_address(&seeds, program_id)
}

/// The associated token account of `wallet` for `mint`, derived as the token crate derives it;
/// none where the runtime finds no bump seed.
pub fn find_associated_token_address(wallet: &Key, mint: &Key) -> (r: Option<Key>)
    ensures
        match associated_token_address(wallet@, mint@) {
            Some(addr) => r matches Some(k) && k@ == addr,
            None => r is None,
        },
{
    let w = key_seed(wallet);
    let t: Vec<u8> = vec![6u8, 221, 246, 225, 215, 101, 161, 147, 217, 203, 225, 70, 206, 235, 121, 172, 28, 180, 133, 237, 95, 91, 55, 145, 58, 140, 245, 133, 126, 255, 0, 169];
    let m = key_seed(mint);
    assert(t@ =~= token_program_bytes());
    let ghost views = seq![w@, t@, m@];
    let seeds: Vec<Vec<u8>> = vec![w, t, m];
    assert(seeds_view(seeds@) =~= views);
    let program = Key { bytes: [140u8, 151, 37, 143, 78, 36, 137, 241, 187, 61, 16, 41, 20, 142, 13, 131, 11, 90, 19, 153, 218, 255, 16, 132, 4, 142, 123, 216, 219, 233, 248, 89] };
    assert(program@ =~= associated_token_program_bytes());
    match find_program_address(&seeds, &program) {
        Some((k, _)) => Some(k),
        None => None,
    }
}

/// Whether `key` is the associated token account of `wallet` for `mint`.
pub fn is_associated_token_account(key: &Key, wallet: &Key, mint: &Key) -> (r: bool)
    ensures
        r == is_associated_token_address(key@, wallet@, mint@),
{
    match find_associated_token_address(wallet, mint) {
        Some(expected) => key.same_as(&expected),
        None => false,
    }
}

} // verus!
