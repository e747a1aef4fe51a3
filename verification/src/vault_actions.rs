//! Planet actions taken by a vault acting for the planet's owner: the delegation is checked
//! against the owner recorded in the planet, then the action's own rule applies.
use vstd::prelude::*;

use crate::accounts::AuthorizedVault;
use crate::bytes::read_key_at;
use crate::deposit::{deposit_settle_fits, settle_deposit_spec, settle_planet_deposit_fields};
use crate::economy::{
    finish_build_spec, finish_research_spec, finish_ship_build_spec,
    rates_fit, settle_fits, start_build_fits, start_build_spec, start_research_spec,
};
use crate::constants::QUEUE_IDLE;
use crate::error::GameStateError;
use crate::formulas::is_name_copy;
use crate::key::Key;
use crate::launch::{launch_fits, launch_fleet_planet, launch_spec, LaunchFleetParams};
use crate::live::{
    finish_build_live, finish_research_live, finish_ship_build_live, on_fields, start_build_live,
    start_research_live, state_of,
};
use crate::planet::PlanetState;
use crate::planet_bytes::{
    PlanetBuildFields, PLANET_AUTHORITY_OFFSET, PLANET_DEFENSE_BUILD_FINISH_TS_OFFSET,
    PLANET_SHIP_BUILD_FINISH_TS_OFFSET,
};
use crate::ship_bytes::{
    defense_build_bytes_spec, finish_defense_bytes_spec, finish_defense_build_bytes,
    ship_build_bytes_spec, start_defense_build_bytes, start_ship_build_bytes,
};
use crate::vault::{active_vault_check, is_vault_address, require_active_vault, require_active_vault_for_live_planet};
use vstd::string::StringSliceAdditionalSpecFns;

verus! {

/// A vault signer with the delegation it presents: the delegation record, the address that
/// record was read from, and the program that owns it.
#[derive(Clone, Copy, Debug)]
pub struct LiveVault {
    pub program_id: Key,
    pub signer: Key,
    pub record: AuthorizedVault,
    pub record_key: Key,
}

/// What the check of `v` acting for `owner` at `now` answers: the record must sit at the
/// owner's delegation address and let the signer act.
pub open spec fn live_vault_check(v: LiveVault, owner: Key, now: i64) -> Result<(), GameStateError> {
    if !is_vault_address(v.record_key@, owner@, v.program_id@) {
        Err(GameStateError::InvalidVaultAuthorization)
    } else {
        active_vault_check(v.signer@, v.record, owner@, now)
    }
}

fn check_live_vault(v: &LiveVault, owner: Key, now: i64) -> (r: Result<(), GameStateError>)
    ensures
        r == live_vault_check(*v, owner, now),
{
    require_active_vault_for_live_planet(v.program_id, v.signer, &v.record, v.record_key, owner, now)
}

/// Settles the planet's production for the vault signer.
pub fn produce_vault(planet: &mut PlanetBuildFields, vault: &LiveVault, now: i64) -> (r: Result<(), GameStateError>)
    requires
        live_vault_check(*vault, old(planet).deposit.authority, now) is Ok ==> deposit_settle_fits(old(planet).deposit, now),
    ensures
        live_vault_check(*vault, old(planet).deposit.authority, now) is Err ==> r == live_vault_check(
            *vault,
            old(planet).deposit.authority,
            now,
        ) && *final(planet) == *old(planet),
        live_vault_check(*vault, old(planet).deposit.authority, now) is Ok ==> (final(planet).deposit, r)
            == settle_deposit_spec(old(planet).deposit, now) && *final(planet) == (PlanetBuildFields {
            deposit: final(planet).deposit,
            ..*old(planet)
        }),
{
    check_live_vault(vault, planet.deposit.authority, now)?;
    settle_planet_deposit_fields(&mut planet.deposit, now)
}

/// Starts upgrading building `building_idx` for the vault signer.
pub fn start_build_vault(planet: &mut PlanetBuildFields, building_idx: u8, vault: &LiveVault, now: i64) -> (r: Result<(), GameStateError>)
    requires
        live_vault_check(*vault, old(planet).deposit.authority, now) is Ok ==> start_build_fits(state_of(*old(planet)), building_idx, now),
    ensures
        live_vault_check(*vault, old(planet).deposit.authority, now) is Err ==> r == live_vault_check(
            *vault,
            old(planet).deposit.authority,
            now,
        ) && *final(planet) == *old(planet),
        live_vault_check(*vault, old(planet).deposit.authority, now) is Ok ==> (*final(planet), r) == on_fields(
            start_build_spec(state_of(*old(planet)), building_idx, now),
        ),
{
    check_live_vault(vault, planet.deposit.authority, now)?;
    start_build_live(planet, building_idx, now)
}

/// Completes the building queue for the vault signer.
pub fn finish_build_vault(planet: &mut PlanetBuildFields, vault: &LiveVault, now: i64) -> (r: Result<(), GameStateError>)
    requires
        live_vault_check(*vault, old(planet).deposit.authority, now) is Ok ==> {
            &&& now >= old(planet).build_finish_ts ==> settle_fits(state_of(*old(planet)), now)
            &&& (now >= old(planet).build_finish_ts && old(planet).build_finish_ts > 0) ==> rates_fit(
                state_of(*old(planet)).with_building_level(old(planet).build_queue_item, old(planet).build_queue_target),
            )
        },
    ensures
        live_vault_check(*vault, old(planet).deposit.authority, now) is Err ==> r == live_vault_check(
            *vault,
            old(planet).deposit.authority,
            now,
        ) && *final(planet) == *old(planet),
        live_vault_check(*vault, old(planet).deposit.authority, now) is Ok ==> (*final(planet), r) == on_fields(
            finish_build_spec(state_of(*old(planet)), now),
        ),
{
    check_live_vault(vault, planet.deposit.authority, now)?;
    finish_build_live(planet, now)
}

/// Starts researching technology `tech_idx` for the vault signer.
pub fn start_research_vault(planet: &mut PlanetBuildFields, tech_idx: u8, vault: &LiveVault, now: i64) -> (r: Result<(), GameStateError>)
    requires
        live_vault_check(*vault, old(planet).deposit.authority, now) is Ok ==> {
            &&& settle_fits(state_of(*old(planet)), now)
            &&& now <= i64::MAX - 255 * 1800
        },
    ensures
        live_vault_check(*vault, old(planet).deposit.authority, now) is Err ==> r == live_vault_check(
            *vault,
            old(planet).deposit.authority,
            now,
        ) && *final(planet) == *old(planet),
        live_vault_check(*vault, old(planet).deposit.authority, now) is Ok ==> (*final(planet), r) == on_fields(
            start_research_spec(state_of(*old(planet)), tech_idx, now),
        ),
{
    check_live_vault(vault, planet.deposit.authority, now)?;
    start_research_live(planet, tech_idx, now)
}

/// Completes the research queue for the vault signer.
pub fn finish_research_vault(planet: &mut PlanetBuildFields, vault: &LiveVault, now: i64) -> (r: Result<(), GameStateError>)
    requires
        live_vault_check(*vault, old(planet).deposit.authority, now) is Ok ==> {
            &&& now >= old(planet).research_finish_ts ==> settle_fits(state_of(*old(planet)), now)
            &&& (now >= old(planet).research_finish_ts && old(planet).research_queue_item != QUEUE_IDLE) ==> rates_fit(
                state_of(*old(planet)).with_research_level(old(planet).research_queue_item, old(planet).research_queue_target),
            )
        },
    ensures
        live_vault_check(*vault, old(planet).deposit.authority, now) is Err ==> r == live_vault_check(
            *vault,
            old(planet).deposit.authority,
            now,
        ) && *final(planet) == *old(planet),
        live_vault_check(*vault, old(planet).deposit.authority, now) is Ok ==> (*final(planet), r) == on_fields(
            finish_research_spec(state_of(*old(planet)), now),
        ),
{
    check_live_vault(vault, planet.deposit.authority, now)?;
    finish_research_live(planet, now)
}

/// Completes the ship queue for the vault signer.
pub fn finish_ship_build_vault(planet: &mut PlanetBuildFields, vault: &LiveVault, now: i64) -> (r: Result<(), GameStateError>)
    requires
        live_vault_check(*vault, old(planet).deposit.authority, now) is Ok ==> {
            &&& now >= old(planet).ship_build_finish_ts ==> settle_fits(state_of(*old(planet)), now)
            &&& (now >= old(planet).ship_build_finish_ts && old(planet).ship_build_item == 13) ==> rates_fit(
                state_of(*old(planet)).with_ship_added(13, old(planet).ship_build_qty),
            )
        },
    ensures
        live_vault_check(*vault, old(planet).deposit.authority, now) is Err ==> r == live_vault_check(
            *vault,
            old(planet).deposit.authority,
            now,
        ) && *final(planet) == *old(planet),
        live_vault_check(*vault, old(planet).deposit.authority, now) is Ok ==> (*final(planet), r) == on_fields(
            finish_ship_build_spec(state_of(*old(planet)), now),
        ),
{
    check_live_vault(vault, planet.deposit.authority, now)?;
    finish_ship_build_live(planet, now)
}

/// What the check of a vault signer acting on the raw planet record `d` (owned by `owner`,
/// needing `min_len` bytes) answers: the record must be the program's and long enough, and the
/// delegation must let the signer act for the owner written in it.
pub open spec fn record_vault_check(
    owner: Key,
    program_id: Key,
    d: Seq<u8>,
    min_len: int,
    signer: Key,
    v: AuthorizedVault,
    now: i64,
) -> Result<(), GameStateError> {
    if owner@ != program_id@ {
        Err(GameStateError::Unauthorized)
    } else if d.len() < min_len {
        Err(GameStateError::InvalidArgs)
    } else {
        active_vault_check(signer@, v, d.subrange(PLANET_AUTHORITY_OFFSET as int, PLANET_AUTHORITY_OFFSET + 32), now)
    }
}

fn check_record_vault(
    owner: Key,
    program_id: Key,
    data: &Vec<u8>,
    min_len: usize,
    signer: Key,
    v: &AuthorizedVault,
    now: i64,
) -> (r: Result<(), GameStateError>)
    requires
        min_len >= PLANET_AUTHORITY_OFFSET + 32,
    ensures
        r == record_vault_check(owner, program_id, data@, min_len as int, signer, *v, now),
{
    if !owner.same_as(&program_id) {
        return Err(GameStateError::Unauthorized);
    }
    if data.len() < min_len {
        return Err(GameStateError::InvalidArgs);
    }
    let authority = read_key_at(data.as_slice(), PLANET_AUTHORITY_OFFSET);
    require_active_vault(signer, v, authority, now)
}

/// Queues `quantity` ships of `ship_type` in the raw planet record for the vault signer.
pub fn build_ship_vault(
    data: &mut Vec<u8>,
    owner: Key,
    program_id: Key,
    vault_signer: Key,
    authorized_vault: &AuthorizedVault,
    ship_type: u8,
    quantity: u32,
    now: i64,
) -> (r: Result<(), GameStateError>)
    requires
        record_vault_check(owner, program_id, old(data)@, PLANET_SHIP_BUILD_FINISH_TS_OFFSET + 8, vault_signer, *authorized_vault, now) is Ok
            && ship_build_bytes_spec(old(data)@, ship_type, quantity, now).1 is Ok ==> old(data)@[129] < 64,
    ensures
        ({
            let c = record_vault_check(owner, program_id, old(data)@, PLANET_SHIP_BUILD_FINISH_TS_OFFSET + 8, vault_signer, *authorized_vault, now);
            &&& c is Err ==> r == c && final(data)@ == old(data)@
            &&& c is Ok ==> (final(data)@, r) == ship_build_bytes_spec(old(data)@, ship_type, quantity, now)
        }),
{
    check_record_vault(owner, program_id, data, PLANET_SHIP_BUILD_FINISH_TS_OFFSET + 8, vault_signer, authorized_vault, now)?;
    start_ship_build_bytes(data, ship_type, quantity, now)
}

/// Queues `quantity` defenses of `defense_type` in the raw planet record for the vault signer.
pub fn build_defense_vault(
    data: &mut Vec<u8>,
    owner: Key,
    program_id: Key,
    vault_signer: Key,
    authorized_vault: &AuthorizedVault,
    defense_type: u8,
    quantity: u32,
    now: i64,
) -> (r: Result<(), GameStateError>)
    requires
        record_vault_check(owner, program_id, old(data)@, PLANET_DEFENSE_BUILD_FINISH_TS_OFFSET + 8, vault_signer, *authorized_vault, now) is Ok
            && defense_build_bytes_spec(old(data)@, defense_type, quantity, now).1 is Ok ==> old(data)@[129] < 64,
    ensures
        ({
            let c = record_vault_check(owner, program_id, old(data)@, PLANET_DEFENSE_BUILD_FINISH_TS_OFFSET + 8, vault_signer, *authorized_vault, now);
            &&& c is Err ==> r == c && final(data)@ == old(data)@
            &&& c is Ok ==> (final(data)@, r) == defense_build_bytes_spec(old(data)@, defense_type, quantity, now)
        }),
{
    check_record_vault(owner, program_id, data, PLANET_DEFENSE_BUILD_FINISH_TS_OFFSET + 8, vault_signer, authorized_vault, now)?;
    start_defense_build_bytes(data, defense_type, quantity, now)
}

/// Completes the defense queue in the raw planet record for the vault signer.
pub fn finish_defense_build_vault(
    data: &mut Vec<u8>,
    owner: Key,
    program_id: Key,
    vault_signer: Key,
    authorized_vault: &AuthorizedVault,
    now: i64,
) -> (r: Result<(), GameStateError>)
    ensures
        ({
            let c = record_vault_check(owner, program_id, old(data)@, PLANET_DEFENSE_BUILD_FINISH_TS_OFFSET + 8, vault_signer, *authorized_vault, now);
            &&& c is Err ==> r == c && final(data)@ == old(data)@
            &&& c is Ok ==> (final(data)@, r) == finish_defense_bytes_spec(old(data)@, now)
        }),
{
    check_record_vault(owner, program_id, data, PLANET_DEFENSE_BUILD_FINISH_TS_OFFSET + 8, vault_signer, authorized_vault, now)?;
    finish_defense_build_bytes(data, now)
}

/// Launches a fleet from the planet for the vault signer.
pub fn launch_fleet_vault(
    planet: &mut PlanetState,
    params: LaunchFleetParams,
    vault_signer: Key,
    authorized_vault: &AuthorizedVault,
    now: i64,
) -> (r: Result<(), GameStateError>)
    requires
        active_vault_check(vault_signer@, *authorized_vault, old(planet).authority@, now) is Ok ==> launch_fits(*old(planet), params, now),
    ensures
        active_vault_check(vault_signer@, *authorized_vault, old(planet).authority@, now) is Err ==> r == active_vault_check(
            vault_signer@,
            *authorized_vault,
            old(planet).authority@,
            now,
        ) && *final(planet) == *old(planet),
        active_vault_check(vault_signer@, *authorized_vault, old(planet).authority@, now) is Ok ==> exists|name: [u8; 32]|
            is_name_copy(name, vstd::utf8::encode_utf8(params.colony_name@), "".spec_bytes()) && (*final(planet), r)
                == launch_spec(*old(planet), params, now, name),
{
    require_active_vault(vault_signer, authorized_vault, planet.authority, now)?;
    launch_fleet_planet(planet, params, now)
}

} // verus!
