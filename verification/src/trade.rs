//! The game's side of market trades: locking resources for an offer, giving them back or to a
//! buyer, and handing a sold planet to its new owner.
use vstd::prelude::*;

use crate::accounts::PlayerProfile;
use crate::address::{market_authority_address, market_authority_tag, program_address};
use crate::economy::{settle_fits, settle_resources, settle_spec};
use crate::error::GameStateError;
use crate::key::{all_zero, Key};
use crate::planet::{PlanetCoordinates, PlanetState};

verus! {

/// The bytes of the market program's address.
pub open spec fn market_program_bytes() -> Seq<u8> {
    seq![
        190u8, 82, 37, 232, 28, 50, 248, 91, 61, 49, 15, 43, 213, 115, 237, 81, 239, 139, 230, 221,
        59, 251, 31, 76, 160, 16, 0, 153, 247, 21, 15, 41,
    ]
}

/// The address of the market program.
pub fn market_program_id() -> (k: Key)
    ensures
        k@ == market_program_bytes(),
{
    let k = Key {
        bytes: [
            190u8, 82, 37, 232, 28, 50, 248, 91, 61, 49, 15, 43, 213, 115, 237, 81, 239, 139, 230,
            221, 59, 251, 31, 76, 160, 16, 0, 153, 247, 21, 15, 41,
        ],
    };
    assert(k@ =~= market_program_bytes());
    k
}

/// Whether `signer` is the market's signing authority, derived under the market program.
pub open spec fn is_market_authority(signer: Seq<u8>) -> bool {
    match program_address(seq![market_authority_tag()], market_program_bytes()) {
        Some((addr, _)) => signer == addr,
        None => false,
    }
}

/// Checks that `signer` is the market's signing authority.
pub fn require_market_authority(signer: Key) -> (r: Result<(), GameStateError>)
    ensures
        r is Ok <==> is_market_authority(signer@),
        r is Err ==> r == Err::<(), GameStateError>(GameStateError::UnauthorizedMarket),
{
    let market = market_program_id();
    match market_authority_address(&market) {
        Some((expected, _)) => {
            if signer.same_as(&expected) {
                Ok(())
            } else {
                Err(GameStateError::UnauthorizedMarket)
            }
        },
        None => Err(GameStateError::UnauthorizedMarket),
    }
}

/// The planet after `amount` of the resource coded `resource_type` (metal, crystal,
/// deuterium) is taken from it, with the answer.
pub open spec fn take_resource_spec(p: PlanetState, resource_type: u8, amount: u64) -> (PlanetState, Result<(), GameStateError>) {
    if resource_type == 0 {
        if p.metal < amount {
            (p, Err(GameStateError::InsufficientResources))
        } else {
            (PlanetState { metal: (p.metal - amount) as u64, ..p }, Ok(()))
        }
    } else if resource_type == 1 {
        if p.crystal < amount {
            (p, Err(GameStateError::InsufficientResources))
        } else {
            (PlanetState { crystal: (p.crystal - amount) as u64, ..p }, Ok(()))
        }
    } else {
        if p.deuterium < amount {
            (p, Err(GameStateError::InsufficientResources))
        } else {
            (PlanetState { deuterium: (p.deuterium - amount) as u64, ..p }, Ok(()))
        }
    }
}

/// The planet after `amount` of the resource coded `resource_type` is added under its storage
/// caps, with the answer.
pub open spec fn give_resource_spec(p: PlanetState, resource_type: u8, amount: u64) -> (PlanetState, Result<(), GameStateError>) {
    let m: u64 = if resource_type == 0 { amount } else { 0 };
    let c: u64 = if resource_type == 1 { amount } else { 0 };
    let d: u64 = if resource_type == 2 { amount } else { 0 };
    if p.has_resource_room(m, c, d) {
        (PlanetState {
            metal: (p.metal + m) as u64,
            crystal: (p.crystal + c) as u64,
            deuterium: (p.deuterium + d) as u64,
            ..p
        }, Ok(()))
    } else {
        (p, Err(GameStateError::ResourceCapExceeded))
    }
}

/// What locking resources for a market offer does to the seller's planet at time `now`.
pub open spec fn lock_resources_spec(p0: PlanetState, resource_type: u8, amount: u64, now: i64) -> (PlanetState, Result<(), GameStateError>) {
    if amount == 0 || resource_type > 2 {
        (p0, Err(GameStateError::InvalidArgs))
    } else {
        let (p, r) = settle_spec(p0, now);
        if r is Err {
            (p, r)
        } else if now < p.market_unlocked_at {
            (p, Err(GameStateError::GameplayLocked))
        } else {
            take_resource_spec(p, resource_type, amount)
        }
    }
}

/// Settles the seller's planet and takes `amount` of a resource off it for a market offer.
pub fn lock_resources_for_market(planet: &mut PlanetState, resource_type: u8, amount: u64, now: i64) -> (r: Result<(), GameStateError>)
    requires
        amount != 0 && resource_type <= 2 ==> settle_fits(*old(planet), now),
    ensures
        (*final(planet), r) == lock_resources_spec(*old(planet), resource_type, amount, now),
{
    if amount == 0 || resource_type > 2 {
        return Err(GameStateError::InvalidArgs);
    }
    match settle_resources(planet, now) {
        Err(e) => {
            return Err(e);
        },
        Ok(()) => {},
    }
    if now < planet.market_unlocked_at {
        return Err(GameStateError::GameplayLocked);
    }
    if resource_type == 0 {
        if planet.metal < amount {
            return Err(GameStateError::InsufficientResources);
        }
        planet.metal = planet.metal - amount;
    } else if resource_type == 1 {
        if planet.crystal < amount {
            return Err(GameStateError::InsufficientResources);
        }
        planet.crystal = planet.crystal - amount;
    } else {
        if planet.deuterium < amount {
            return Err(GameStateError::InsufficientResources);
        }
        planet.deuterium = planet.deuterium - amount;
    }
    Ok(())
}

/// Adds `amount` of the resource coded `resource_type` (at most 2) under the storage caps.
fn give_resource(planet: &mut PlanetState, resource_type: u8, amount: u64) -> (r: Result<(), GameStateError>)
    requires
        resource_type <= 2,
    ensures
        (*final(planet), r) == give_resource_spec(*old(planet), resource_type, amount),
{
    let ghost p = *planet;
    let r = if resource_type == 0 {
        planet.credit_resources(amount, 0, 0)
    } else if resource_type == 1 {
        planet.credit_resources(0, amount, 0)
    } else {
        planet.credit_resources(0, 0, amount)
    };
    proof {
        let m: u64 = if resource_type == 0 { amount } else { 0 };
        let c: u64 = if resource_type == 1 { amount } else { 0 };
        let d: u64 = if resource_type == 2 { amount } else { 0 };
        if r is Ok {
            assert(*planet == (PlanetState {
                metal: (p.metal + m) as u64,
                crystal: (p.crystal + c) as u64,
                deuterium: (p.deuterium + d) as u64,
                ..p
            }));
            assert(p.has_resource_room(m, c, d));
        } else {
            assert(!p.has_resource_room(m, c, d));
            assert(*planet == p);
        }
    }
    r
}

/// What giving locked resources back to the seller's planet does, when the market authority
/// `signer` asks at time `now`.
pub open spec fn release_resources_spec(p0: PlanetState, signer: Seq<u8>, resource_type: u8, amount: u64, now: i64) -> (PlanetState, Result<(), GameStateError>) {
    if amount == 0 {
        (p0, Err(GameStateError::InvalidArgs))
    } else if !is_market_authority(signer) {
        (p0, Err(GameStateError::UnauthorizedMarket))
    } else if resource_type > 2 {
        (p0, Err(GameStateError::InvalidArgs))
    } else {
        let (p, r) = settle_spec(p0, now);
        if r is Err {
            (p, r)
        } else {
            give_resource_spec(p, resource_type, amount)
        }
    }
}

/// Gives the resources of a withdrawn offer back to the seller's planet.
pub fn release_resources_from_market(
    planet: &mut PlanetState,
    market_authority: Key,
    resource_type: u8,
    amount: u64,
    now: i64,
) -> (r: Result<(), GameStateError>)
    requires
        amount != 0 && is_market_authority(market_authority@) && resource_type <= 2 ==> settle_fits(*old(planet), now),
    ensures
        (*final(planet), r) == release_resources_spec(*old(planet), market_authority@, resource_type, amount, now),
{
    if amount == 0 {
        return Err(GameStateError::InvalidArgs);
    }
    match require_market_authority(market_authority) {
        Err(e) => {
            return Err(e);
        },
        Ok(()) => {},
    }
    if resource_type > 2 {
        return Err(GameStateError::InvalidArgs);
    }
    match settle_resources(planet, now) {
        Err(e) => {
            return Err(e);
        },
        Ok(()) => {},
    }
    give_resource(planet, resource_type, amount)
}

/// What delivering bought resources to the buyer's planet does, when the market authority
/// `signer` asks for `buyer` at time `now`.
pub open spec fn transfer_resources_spec(
    p0: PlanetState,
    signer: Seq<u8>,
    buyer: Seq<u8>,
    resource_type: u8,
    amount: u64,
    now: i64,
) -> (PlanetState, Result<(), GameStateError>) {
    if amount == 0 {
        (p0, Err(GameStateError::InvalidArgs))
    } else if !is_market_authority(signer) {
        (p0, Err(GameStateError::UnauthorizedMarket))
    } else if resource_type > 2 {
        (p0, Err(GameStateError::InvalidArgs))
    } else {
        let (p, r) = settle_spec(p0, now);
        if r is Err {
            (p, r)
        } else if p.authority@ != buyer {
            (p, Err(GameStateError::Unauthorized))
        } else if now < p.market_unlocked_at {
            (p, Err(GameStateError::GameplayLocked))
        } else {
            give_resource_spec(p, resource_type, amount)
        }
    }
}

/// Delivers the resources of a filled offer to the buyer's planet.
pub fn transfer_resources_from_market(
    planet: &mut PlanetState,
    market_authority: Key,
    buyer: Key,
    resource_type: u8,
    amount: u64,
    now: i64,
) -> (r: Result<(), GameStateError>)
    requires
        amount != 0 && is_market_authority(market_authority@) && resource_type <= 2 ==> settle_fits(*old(planet), now),
    ensures
        (*final(planet), r) == transfer_resources_spec(*old(planet), market_authority@, buyer@, resource_type, amount, now),
{
    if amount == 0 {
        return Err(GameStateError::InvalidArgs);
    }
    match require_market_authority(market_authority) {
        Err(e) => {
            return Err(e);
        },
        Ok(()) => {},
    }
    if resource_type > 2 {
        return Err(GameStateError::InvalidArgs);
    }
    match settle_resources(planet, now) {
        Err(e) => {
            return Err(e);
        },
        Ok(()) => {},
    }
    if !planet.authority.same_as(&buyer) {
        return Err(GameStateError::Unauthorized);
    }
    if now < planet.market_unlocked_at {
        return Err(GameStateError::GameplayLocked);
    }
    give_resource(planet, resource_type, amount)
}

/// Why a direct planet hand-over from `authority` is refused, if it is.
pub open spec fn transfer_planet_check(
    planet: PlanetState,
    planet_key: Seq<u8>,
    coords: PlanetCoordinates,
    authority: Seq<u8>,
    new_authority: Seq<u8>,
    new_profile: PlayerProfile,
) -> Result<(), GameStateError> {
    if new_profile.authority@ != new_authority {
        Err(GameStateError::Unauthorized)
    } else if planet.authority@ != authority {
        Err(GameStateError::Unauthorized)
    } else if coords.planet@ != planet_key {
        Err(GameStateError::InvalidDestination)
    } else if coords.authority@ != authority {
        Err(GameStateError::Unauthorized)
    } else {
        Ok(())
    }
}

/// Hands the owner's planet (at `planet_key`) to `new_authority`, whose profile is at
/// `new_profile_key`: the planet and its coordinate account name the new owner, and the planet
/// names the new profile. On an error nothing changes.
pub fn transfer_planet(
    planet: &mut PlanetState,
    planet_key: Key,
    coords: &mut PlanetCoordinates,
    authority: Key,
    new_authority: Key,
    new_profile: &PlayerProfile,
    new_profile_key: Key,
) -> (r: Result<(), GameStateError>)
    ensures
        r == transfer_planet_check(*old(planet), planet_key@, *old(coords), authority@, new_authority@, *new_profile),
        r is Ok ==> *final(planet) == (PlanetState { authority: new_authority, player: new_profile_key, ..*old(planet) })
            && *final(coords) == (PlanetCoordinates { authority: new_authority, ..*old(coords) }),
        r is Err ==> *final(planet) == *old(planet) && *final(coords) == *old(coords),
{
    if !new_profile.authority.same_as(&new_authority) {
        return Err(GameStateError::Unauthorized);
    }
    if !planet.authority.same_as(&authority) {
        return Err(GameStateError::Unauthorized);
    }
    if !coords.planet.same_as(&planet_key) {
        return Err(GameStateError::InvalidDestination);
    }
    if !coords.authority.same_as(&authority) {
        return Err(GameStateError::Unauthorized);
    }
    planet.authority = new_authority;
    planet.player = new_profile_key;
    coords.authority = new_authority;
    Ok(())
}

/// Why handing a sold planet from `seller` to its buyer is refused, if it is.
pub open spec fn transfer_from_market_check(
    planet: PlanetState,
    planet_key: Seq<u8>,
    coords: PlanetCoordinates,
    seller: Seq<u8>,
    new_authority: Seq<u8>,
    new_profile: PlayerProfile,
    market_authority: Seq<u8>,
) -> Result<(), GameStateError> {
    if new_profile.authority@ != new_authority && !all_zero(new_profile.authority@) {
        Err(GameStateError::Unauthorized)
    } else if coords.planet@ != planet_key {
        Err(GameStateError::InvalidDestination)
    } else if !is_market_authority(market_authority) {
        Err(GameStateError::Unauthorized)
    } else if planet.authority@ != seller {
        Err(GameStateError::Unauthorized)
    } else if coords.authority@ != seller {
        Err(GameStateError::Unauthorized)
    } else {
        Ok(())
    }
}

/// Hands a planet bought on the market from `seller` to `new_authority`, at the market
/// authority's request. On an error nothing changes.
pub fn transfer_planet_from_market(
    planet: &mut PlanetState,
    planet_key: Key,
    coords: &mut PlanetCoordinates,
    seller: Key,
    new_authority: Key,
    new_profile: &PlayerProfile,
    new_profile_key: Key,
    market_authority: Key,
) -> (r: Result<(), GameStateError>)
    ensures
        r == transfer_from_market_check(*old(planet), planet_key@, *old(coords), seller@, new_authority@, *new_profile, market_authority@),
        r is Ok ==> *final(planet) == (PlanetState { authority: new_authority, player: new_profile_key, ..*old(planet) })
            && *final(coords) == (PlanetCoordinates { authority: new_authority, ..*old(coords) }),
        r is Err ==> *final(planet) == *old(planet) && *final(coords) == *old(coords),
{
    if !new_profile.authority.same_as(&new_authority) && !new_profile.authority.is_zero() {
        return Err(GameStateError::Unauthorized);
    }
    if !coords.planet.same_as(&planet_key) {
        return Err(GameStateError::InvalidDestination);
    }
    match require_market_authority(market_authority) {
        Err(_) => {
            return Err(GameStateError::Unauthorized);
        },
        Ok(()) => {},
    }
    if !planet.authority.same_as(&seller) {
        return Err(GameStateError::Unauthorized);
    }
    if !coords.authority.same_as(&seller) {
        return Err(GameStateError::Unauthorized);
    }
    planet.authority = new_authority;
    planet.player = new_profile_key;
    coords.authority = new_authority;
    Ok(())
}

} // verus!
