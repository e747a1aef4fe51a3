//! The public view of a planet: the record anyone may read (owner, place, name) and the
//! coordinate account that claims its place.
use vstd::prelude::*;

use crate::accounts::PlayerProfile;
use crate::address::{find_program_address, program_address, seeds_view};
use crate::error::GameStateError;
use crate::formulas::{copy_name, is_name_copy, valid_coordinates, validate_coordinates};
use crate::key::Key;
use crate::creation::{InitializeColonyParams, InitializeHomeworldParams};
use crate::planet::PlanetState;
use vstd::string::StringSliceAdditionalSpecFns;

verus! {

/// The public record of a planet.
#[derive(Clone, Copy, Debug)]
pub struct PublicPlanetState {
    pub authority: Key,
    pub player: Key,
    pub planet_index: u32,
    pub galaxy: u16,
    pub system: u16,
    pub position: u8,
    pub version: u8,
    pub name: [u8; 32],
    pub created_at: i64,
    pub bump: u8,
}

/// The account that claims a place for a public planet.
#[derive(Clone, Copy, Debug)]
pub struct PublicPlanetCoordinates {
    pub galaxy: u16,
    pub system: u16,
    pub position: u8,
    pub public_planet: Key,
    pub authority: Key,
    pub bump: u8,
}

/// The seed tag of a public coordinate account: the bytes of `public_planet_coords`.
pub open spec fn public_coords_tag() -> Seq<u8> {
    seq![112u8, 117, 98, 108, 105, 99, 95, 112, 108, 97, 110, 101, 116, 95, 99, 111, 111, 114, 100, 115]
}

/// The seeds of the public coordinate account of the place.
pub open spec fn public_coords_seeds(galaxy: u16, system: u16, position: u8) -> Seq<Seq<u8>> {
    seq![
        public_coords_tag(),
        vstd::bytes::spec_u16_to_le_bytes(galaxy),
        vstd::bytes::spec_u16_to_le_bytes(system),
        seq![position],
    ]
}

/// The address of the public coordinate account of the place, with its bump.
pub fn public_coords_address(galaxy: u16, system: u16, position: u8, program_id: &Key) -> (r: Option<(Key, u8)>)
    ensures
        match program_address(public_coords_seeds(galaxy, system, position), program_id@) {
            Some((addr, bump)) => r matches Some((k, b)) && k@ == addr && b == bump,
            None => r is None,
        },
{
    let tag: Vec<u8> = vec![112u8, 117, 98, 108, 105, 99, 95, 112, 108, 97, 110, 101, 116, 95, 99, 111, 111, 114, 100, 115];
    let g = vstd::bytes::u16_to_le_bytes(galaxy);
    let s = vstd::bytes::u16_to_le_bytes(system);
    let p: Vec<u8> = vec![position];
    let ghost views = seq![tag@, g@, s@, p@];
    assert(tag@ =~= public_coords_tag());
    assert(p@ =~= seq![position]);
    let seeds: Vec<Vec<u8>> = vec![tag, g, s, p];
    assert(seeds_view(seeds@) =~= views);
    assert(views =~= public_coords_seeds(galaxy, system, position));
    find_program_address(&seeds, program_id)
}

/// Why a public planet at the place cannot be created, if it cannot.
pub open spec fn public_planet_check(authority: Key, profile: PlayerProfile, coords_key: Key, galaxy: u16, system: u16, position: u8, program_id: Key) -> Result<u8, GameStateError> {
    if !valid_coordinates(galaxy, system, position) {
        Err(GameStateError::InvalidCoordinates)
    } else if profile.authority@ != authority@ {
        Err(GameStateError::Unauthorized)
    } else {
        match program_address(public_coords_seeds(galaxy, system, position), program_id@) {
            None => Err(GameStateError::InvalidCoordinates),
            Some((addr, bump)) => if coords_key@ != addr {
                Err(GameStateError::InvalidCoordinates)
            } else if profile.planet_count == u32::MAX {
                Err(GameStateError::PlanetCountOverflow)
            } else {
                Ok(bump)
            },
        }
    }
}

/// Creates the public record of `authority`'s next planet at the place, with the account that
/// claims the place; counts the planet in the profile. Hands back both records.
pub fn create_public_planet_state(
    authority: Key,
    player_profile: &mut PlayerProfile,
    player_profile_key: Key,
    public_planet_key: Key,
    public_planet_coords_key: Key,
    bump: u8,
    name: &str,
    galaxy: u16,
    system: u16,
    position: u8,
    created_at: i64,
    program_id: Key,
) -> (r: Result<(PublicPlanetState, PublicPlanetCoordinates), GameStateError>)
    ensures
        match public_planet_check(authority, *old(player_profile), public_planet_coords_key, galaxy, system, position, program_id) {
            Err(e) => r == Err::<(PublicPlanetState, PublicPlanetCoordinates), GameStateError>(e) && *final(player_profile) == *old(player_profile),
            Ok(coords_bump) => r matches Ok((p, c)) && {
                &&& *final(player_profile) == (PlayerProfile { planet_count: (old(player_profile).planet_count + 1) as u32, ..*old(player_profile) })
                &&& p == (PublicPlanetState {
                    authority,
                    player: player_profile_key,
                    planet_index: old(player_profile).planet_count,
                    galaxy,
                    system,
                    position,
                    version: 2,
                    name: p.name,
                    created_at,
                    bump,
                })
                &&& is_name_copy(p.name, name.spec_bytes(), "Planet".spec_bytes())
                &&& c == (PublicPlanetCoordinates { galaxy, system, position, public_planet: public_planet_key, authority, bump: coords_bump })
            },
        },
{
    match validate_coordinates(galaxy, system, position) {
        Err(e) => {
            return Err(e);
        },
        Ok(()) => {},
    }
    if !player_profile.authority.same_as(&authority) {
        return Err(GameStateError::Unauthorized);
    }
    let (expected, coords_bump) = match public_coords_address(galaxy, system, position, &program_id) {
        None => {
            return Err(GameStateError::InvalidCoordinates);
        },
        Some(x) => x,
    };
    if !public_planet_coords_key.same_as(&expected) {
        return Err(GameStateError::InvalidCoordinates);
    }
    let planet_index = player_profile.planet_count;
    match player_profile.planet_count.checked_add(1) {
        None => {
            return Err(GameStateError::PlanetCountOverflow);
        },
        Some(n) => {
            player_profile.planet_count = n;
        },
    }
    let coords = PublicPlanetCoordinates {
        galaxy,
        system,
        position,
        public_planet: public_planet_key,
        authority,
        bump: coords_bump,
    };
    let public = PublicPlanetState {
        authority,
        player: player_profile_key,
        planet_index,
        galaxy,
        system,
        position,
        version: 2,
        name: copy_name(name, "Planet"),
        created_at,
        bump,
    };
    Ok((public, coords))
}

/// Copies a planet's public fields into its public record.
pub fn sync_public_planet_view(planet: &PlanetState, public_planet: &mut PublicPlanetState, bump: u8)
    ensures
        *final(public_planet) == (PublicPlanetState {
            authority: planet.authority,
            player: planet.player,
            planet_index: planet.planet_index,
            galaxy: planet.galaxy,
            system: planet.system,
            position: planet.position,
            version: 1,
            name: planet.name,
            created_at: planet.created_at,
            bump,
        }),
{
    public_planet.authority = planet.authority;
    public_planet.player = planet.player;
    public_planet.planet_index = planet.planet_index;
    public_planet.galaxy = planet.galaxy;
    public_planet.system = planet.system;
    public_planet.position = planet.position;
    public_planet.version = 1;
    public_planet.name = planet.name;
    public_planet.created_at = planet.created_at;
    public_planet.bump = bump;
}

/// Founding a homeworld through the public planet path is closed: planets are founded through
/// their private record, so this request is always refused.
pub fn initialize_public_homeworld(_params: InitializeHomeworldParams) -> (r: Result<(), GameStateError>)
    ensures
        r == Err::<(), GameStateError>(GameStateError::InvalidArgs),
{
    Err(GameStateError::InvalidArgs)
}

/// Founding a colony through the public planet path is closed in the same way.
pub fn initialize_public_colony(_params: InitializeColonyParams) -> (r: Result<(), GameStateError>)
    ensures
        r == Err::<(), GameStateError>(GameStateError::InvalidArgs),
{
    Err(GameStateError::InvalidArgs)
}

} // verus!
