//! Creating planets: the homeworld a new player starts with, colonies founded by colony ships,
//! and the records both share.
use vstd::prelude::*;

use crate::accounts::{AuthorizedVault, PlayerProfile};
use crate::address::{is_derived, is_tagged_key_address, planet_coords_address, planet_coords_seeds, program_address};
use crate::constants::{BASE_STORAGE_CAP, MAX_MISSIONS, MISSION_COLONIZE, NEW_PLAYER_PROTECTION_SECONDS};
use crate::error::GameStateError;
use crate::formulas::{copy_name, is_name_copy, valid_coordinates, validate_coordinates};
use crate::key::Key;
use crate::num::{clamp_i64, sat_add_i64};
use crate::planet::{empty_mission, MissionState, PlanetCoordinates, PlanetState};
use crate::vault::{active_vault_check, authorized_vault_tag, require_active_vault};
use crate::accounts::QuestProgressState;
use crate::quest_claims::{counted, increment_quest_progress, progress_record_check, synced_progress, QuestProgressMetric};
use crate::resolution::ProgressRecord;
use vstd::string::StringSliceAdditionalSpecFns;

verus! {

/// Metal a homeworld starts with.
pub const STARTING_METAL: u64 = 500;
/// Crystal a homeworld starts with.
pub const STARTING_CRYSTAL: u64 = 500;
/// Deuterium a homeworld starts with.
pub const STARTING_DEUTERIUM: u64 = 0;
/// How long a new planet waits before it may trade on the market.
pub const MARKET_UNLOCK_SECONDS: i64 = 86_400;
/// How long a new planet waits before it may attack.
pub const ATTACK_UNLOCK_SECONDS: i64 = 86_400;

/// Everything a new planet record starts with.
pub struct InitializePlanetParams {
    pub name: String,
    pub galaxy: u16,
    pub system: u16,
    pub position: u8,
    pub diameter: u32,
    pub temperature: i16,
    pub max_fields: u16,
    pub used_fields: u16,
    pub metal_mine: u8,
    pub crystal_mine: u8,
    pub deuterium_synthesizer: u8,
    pub solar_plant: u8,
    pub fusion_reactor: u8,
    pub robotics_factory: u8,
    pub nanite_factory: u8,
    pub shipyard: u8,
    pub metal_storage: u8,
    pub crystal_storage: u8,
    pub deuterium_tank: u8,
    pub research_lab: u8,
    pub missile_silo: u8,
    pub energy_tech: u8,
    pub combustion_drive: u8,
    pub impulse_drive: u8,
    pub hyperspace_drive: u8,
    pub computer_tech: u8,
    pub astrophysics: u8,
    pub igr_network: u8,
    pub weapons_technology: u8,
    pub shielding_technology: u8,
    pub armor_technology: u8,
    pub research_queue_item: u8,
    pub research_queue_target: u8,
    pub research_finish_ts: i64,
    pub build_queue_item: u8,
    pub build_queue_target: u8,
    pub build_finish_ts: i64,
    pub metal: u64,
    pub crystal: u64,
    pub deuterium: u64,
    pub metal_hour: u64,
    pub crystal_hour: u64,
    pub deuterium_hour: u64,
    pub energy_production: u64,
    pub energy_consumption: u64,
    pub metal_cap: u64,
    pub crystal_cap: u64,
    pub deuterium_cap: u64,
    pub last_update_ts: i64,
    pub created_at: i64,
    pub protection_until_ts: i64,
    pub market_unlocked_at: i64,
    pub attack_unlocked_at: i64,
    pub last_attack_launch_ts: i64,
    pub last_attacked_ts: i64,
    pub small_cargo: u32,
    pub large_cargo: u32,
    pub light_fighter: u32,
    pub heavy_fighter: u32,
    pub cruiser: u32,
    pub battleship: u32,
    pub battlecruiser: u32,
    pub bomber: u32,
    pub destroyer: u32,
    pub deathstar: u32,
    pub recycler: u32,
    pub espionage_probe: u32,
    pub colony_ship: u32,
    pub solar_satellite: u32,
    pub rocket_launcher: u32,
    pub light_laser: u32,
    pub heavy_laser: u32,
    pub gauss_cannon: u32,
    pub ion_cannon: u32,
    pub plasma_turret: u32,
    pub small_shield_dome: u32,
    pub large_shield_dome: u32,
    pub anti_ballistic_missile: u32,
    pub interplanetary_missile: u32,
    pub ship_build_item: u8,
    pub ship_build_qty: u32,
    pub ship_build_finish_ts: i64,
    pub defense_build_item: u8,
    pub defense_build_qty: u32,
    pub defense_build_finish_ts: i64,
}

/// The planet record made from `params` for `authority`'s profile `player`, as its planet number
/// `planet_index`, named `name`, with no missions.
pub open spec fn created_planet(params: InitializePlanetParams, authority: Key, player: Key, planet_index: u32, name: [u8; 32], bump: u8) -> PlanetState {
    PlanetState {
        authority: authority,
        player: player,
        planet_index: planet_index,
        galaxy: params.galaxy,
        system: params.system,
        position: params.position,
        name: name,
        diameter: params.diameter,
        temperature: params.temperature,
        max_fields: params.max_fields,
        used_fields: params.used_fields,
        metal_mine: params.metal_mine,
        crystal_mine: params.crystal_mine,
        deuterium_synthesizer: params.deuterium_synthesizer,
        solar_plant: params.solar_plant,
        fusion_reactor: params.fusion_reactor,
        robotics_factory: params.robotics_factory,
        nanite_factory: params.nanite_factory,
        shipyard: params.shipyard,
        metal_storage: params.metal_storage,
        crystal_storage: params.crystal_storage,
        deuterium_tank: params.deuterium_tank,
        research_lab: params.research_lab,
        missile_silo: params.missile_silo,
        energy_tech: params.energy_tech,
        combustion_drive: params.combustion_drive,
        impulse_drive: params.impulse_drive,
        hyperspace_drive: params.hyperspace_drive,
        computer_tech: params.computer_tech,
        astrophysics: params.astrophysics,
        igr_network: params.igr_network,
        weapons_technology: params.weapons_technology,
        shielding_technology: params.shielding_technology,
        armor_technology: params.armor_technology,
        research_queue_item: params.research_queue_item,
        research_queue_target: params.research_queue_target,
        research_finish_ts: params.research_finish_ts,
        build_queue_item: params.build_queue_item,
        build_queue_target: params.build_queue_target,
        build_finish_ts: params.build_finish_ts,
        metal: params.metal,
        crystal: params.crystal,
        deuterium: params.deuterium,
        metal_hour: params.metal_hour,
        crystal_hour: params.crystal_hour,
        deuterium_hour: params.deuterium_hour,
        energy_production: params.energy_production,
        energy_consumption: params.energy_consumption,
        metal_cap: params.metal_cap,
        crystal_cap: params.crystal_cap,
        deuterium_cap: params.deuterium_cap,
        last_update_ts: params.last_update_ts,
        created_at: params.created_at,
        protection_until_ts: params.protection_until_ts,
        market_unlocked_at: params.market_unlocked_at,
        attack_unlocked_at: params.attack_unlocked_at,
        last_attack_launch_ts: params.last_attack_launch_ts,
        last_attacked_ts: params.last_attacked_ts,
        small_cargo: params.small_cargo,
        large_cargo: params.large_cargo,
        light_fighter: params.light_fighter,
        heavy_fighter: params.heavy_fighter,
        cruiser: params.cruiser,
        battleship: params.battleship,
        battlecruiser: params.battlecruiser,
        bomber: params.bomber,
        destroyer: params.destroyer,
        deathstar: params.deathstar,
        recycler: params.recycler,
        espionage_probe: params.espionage_probe,
        colony_ship: params.colony_ship,
        solar_satellite: params.solar_satellite,
        rocket_launcher: params.rocket_launcher,
        light_laser: params.light_laser,
        heavy_laser: params.heavy_laser,
        gauss_cannon: params.gauss_cannon,
        ion_cannon: params.ion_cannon,
        plasma_turret: params.plasma_turret,
        small_shield_dome: params.small_shield_dome,
        large_shield_dome: params.large_shield_dome,
        anti_ballistic_missile: params.anti_ballistic_missile,
        interplanetary_missile: params.interplanetary_missile,
        active_missions: 0,
        missions: vstd::array::spec_array_fill_for_copy_type(empty_mission()),
        bump: bump,
        ship_build_item: params.ship_build_item,
        ship_build_qty: params.ship_build_qty,
        ship_build_finish_ts: params.ship_build_finish_ts,
        defense_build_item: params.defense_build_item,
        defense_build_qty: params.defense_build_qty,
        defense_build_finish_ts: params.defense_build_finish_ts,
    }
}

/// Why creating a planet for `authority` at the place `params` names is refused, if it is.
pub open spec fn create_planet_check(params: InitializePlanetParams, authority: Seq<u8>, profile: PlayerProfile, coords_key: Seq<u8>, program_id: Seq<u8>) -> Result<(), GameStateError> {
    if !valid_coordinates(params.galaxy, params.system, params.position) {
        Err(GameStateError::InvalidCoordinates)
    } else if profile.authority@ != authority {
        Err(GameStateError::Unauthorized)
    } else if !is_derived(coords_key, planet_coords_seeds(params.galaxy, params.system, params.position), program_id) {
        Err(GameStateError::InvalidCoordinates)
    } else if profile.planet_count == u32::MAX {
        Err(GameStateError::PlanetCountOverflow)
    } else {
        Ok(())
    }
}

/// Creates `authority`'s next planet at the place `params` names: the coordinate account must
/// sit at the address the program derives for the place, the profile counts one more planet,
/// and the planet record (at `planet_key`) and its coordinate record are returned, the planet
/// named from `params.name` or `Planet`. On an error the profile is unchanged.
pub fn create_planet_state(
    authority: Key,
    profile: &mut PlayerProfile,
    profile_key: Key,
    planet_key: Key,
    coords_key: Key,
    program_id: Key,
    bump: u8,
    params: &InitializePlanetParams,
) -> (r: Result<(PlanetState, PlanetCoordinates), GameStateError>)
    ensures
        match create_planet_check(*params, authority@, *old(profile), coords_key@, program_id@) {
            Err(e) => r == Err::<(PlanetState, PlanetCoordinates), GameStateError>(e) && *final(profile) == *old(profile),
            Ok(()) => {
                &&& *final(profile) == (PlayerProfile { planet_count: (old(profile).planet_count + 1) as u32, ..*old(profile) })
                &&& r matches Ok((p, c)) && {
                    &&& is_name_copy(p.name, vstd::utf8::encode_utf8(params.name@), "Planet".spec_bytes())
                    &&& p == created_planet(*params, authority, profile_key, old(profile).planet_count, p.name, bump)
                    &&& c == (PlanetCoordinates {
                        galaxy: params.galaxy,
                        system: params.system,
                        position: params.position,
                        planet: planet_key,
                        authority,
                        debris_metal: 0,
                        debris_crystal: 0,
                        bump: program_address(planet_coords_seeds(params.galaxy, params.system, params.position), program_id@)->Some_0.1,
                    })
                }
            },
        },
{
    match validate_coordinates(params.galaxy, params.system, params.position) {
        Err(e) => {
            return Err(e);
        },
        Ok(()) => {},
    }
    if !profile.authority.same_as(&authority) {
        return Err(GameStateError::Unauthorized);
    }
    let coords_bump = match planet_coords_address(params.galaxy, params.system, params.position, &program_id) {
        Some((expected, b)) => {
            if !coords_key.same_as(&expected) {
                return Err(GameStateError::InvalidCoordinates);
            }
            b
        },
        None => {
            return Err(GameStateError::InvalidCoordinates);
        },
    };
    if profile.planet_count == u32::MAX {
        return Err(GameStateError::PlanetCountOverflow);
    }
    let planet_index = profile.planet_count;
    profile.planet_count = planet_index + 1;
    let coords = PlanetCoordinates {
        galaxy: params.galaxy,
        system: params.system,
        position: params.position,
        planet: planet_key,
        authority,
        debris_metal: 0,
        debris_crystal: 0,
        bump: coords_bump,
    };
    let name = copy_name(params.name.as_str(), "Planet");
    let player = profile_key;
    let m = MissionState::empty();
    let missions = [m, m, m, m];
    proof {
        broadcast use vstd::array::group_array_axioms;
        assert(missions =~= vstd::array::spec_array_fill_for_copy_type::<MissionState, 4>(empty_mission()));
    }
    let planet = PlanetState {
        authority: authority,
        player: player,
        planet_index: planet_index,
        galaxy: params.galaxy,
        system: params.system,
        position: params.position,
        name: name,
        diameter: params.diameter,
        temperature: params.temperature,
        max_fields: params.max_fields,
        used_fields: params.used_fields,
        metal_mine: params.metal_mine,
        crystal_mine: params.crystal_mine,
        deuterium_synthesizer: params.deuterium_synthesizer,
        solar_plant: params.solar_plant,
        fusion_reactor: params.fusion_reactor,
        robotics_factory: params.robotics_factory,
        nanite_factory: params.nanite_factory,
        shipyard: params.shipyard,
        metal_storage: params.metal_storage,
        crystal_storage: params.crystal_storage,
        deuterium_tank: params.deuterium_tank,
        research_lab: params.research_lab,
        missile_silo: params.missile_silo,
        energy_tech: params.energy_tech,
        combustion_drive: params.combustion_drive,
        impulse_drive: params.impulse_drive,
        hyperspace_drive: params.hyperspace_drive,
        computer_tech: params.computer_tech,
        astrophysics: params.astrophysics,
        igr_network: params.igr_network,
        weapons_technology: params.weapons_technology,
        shielding_technology: params.shielding_technology,
        armor_technology: params.armor_technology,
        research_queue_item: params.research_queue_item,
        research_queue_target: params.research_queue_target,
        research_finish_ts: params.research_finish_ts,
        build_queue_item: params.build_queue_item,
        build_queue_target: params.build_queue_target,
        build_finish_ts: params.build_finish_ts,
        metal: params.metal,
        crystal: params.crystal,
        deuterium: params.deuterium,
        metal_hour: params.metal_hour,
        crystal_hour: params.crystal_hour,
        deuterium_hour: params.deuterium_hour,
        energy_production: params.energy_production,
        energy_consumption: params.energy_consumption,
        metal_cap: params.metal_cap,
        crystal_cap: params.crystal_cap,
        deuterium_cap: params.deuterium_cap,
        last_update_ts: params.last_update_ts,
        created_at: params.created_at,
        protection_until_ts: params.protection_until_ts,
        market_unlocked_at: params.market_unlocked_at,
        attack_unlocked_at: params.attack_unlocked_at,
        last_attack_launch_ts: params.last_attack_launch_ts,
        last_attacked_ts: params.last_attacked_ts,
        small_cargo: params.small_cargo,
        large_cargo: params.large_cargo,
        light_fighter: params.light_fighter,
        heavy_fighter: params.heavy_fighter,
        cruiser: params.cruiser,
        battleship: params.battleship,
        battlecruiser: params.battlecruiser,
        bomber: params.bomber,
        destroyer: params.destroyer,
        deathstar: params.deathstar,
        recycler: params.recycler,
        espionage_probe: params.espionage_probe,
        colony_ship: params.colony_ship,
        solar_satellite: params.solar_satellite,
        rocket_launcher: params.rocket_launcher,
        light_laser: params.light_laser,
        heavy_laser: params.heavy_laser,
        gauss_cannon: params.gauss_cannon,
        ion_cannon: params.ion_cannon,
        plasma_turret: params.plasma_turret,
        small_shield_dome: params.small_shield_dome,
        large_shield_dome: params.large_shield_dome,
        anti_ballistic_missile: params.anti_ballistic_missile,
        interplanetary_missile: params.interplanetary_missile,
        active_missions: 0,
        missions: missions,
        bump: bump,
        ship_build_item: params.ship_build_item,
        ship_build_qty: params.ship_build_qty,
        ship_build_finish_ts: params.ship_build_finish_ts,
        defense_build_item: params.defense_build_item,
        defense_build_qty: params.defense_build_qty,
        defense_build_finish_ts: params.defense_build_finish_ts,
    };
    Ok((planet, coords))
}

/// What a player asks of its homeworld: a name and, where not zero, a place.
pub struct InitializeHomeworldParams {
    pub now: i64,
    pub name: String,
    pub galaxy: u16,
    pub system: u16,
    pub position: u8,
}

/// `v` held within `[lo, hi]`.
pub open spec fn clamp_int(v: int, lo: int, hi: int) -> int {
    if v < lo {
        lo
    } else if v > hi {
        hi
    } else {
        v
    }
}

/// The position of a homeworld: asked for (held to 1..=15) or, where zero, drawn from the
/// owner's key.
pub open spec fn homeworld_position(a: Seq<u8>, asked: u8) -> u8 {
    if asked == 0 {
        ((a[3] % 15) + 1) as u8
    } else {
        clamp_int(asked as int, 1, 15) as u8
    }
}

/// The galaxy of a homeworld: asked for (held to 1..=999) or drawn from the owner's key.
pub open spec fn homeworld_galaxy(a: Seq<u8>, asked: u16) -> u16 {
    if asked == 0 {
        ((a[0] as int % 999) + 1) as u16
    } else {
        clamp_int(asked as int, 1, 999) as u16
    }
}

/// The system of a homeworld: asked for (held to 1..=999) or drawn from the owner's key.
pub open spec fn homeworld_system(a: Seq<u8>, asked: u16) -> u16 {
    if asked == 0 {
        ((vstd::bytes::spec_u16_from_le_bytes(a.subrange(1, 3)) as int % 999) + 1) as u16
    } else {
        clamp_int(asked as int, 1, 999) as u16
    }
}

/// The diameter of a homeworld, drawn from the owner's key.
pub open spec fn homeworld_diameter(a: Seq<u8>) -> u32 {
    (8_000 + vstd::bytes::spec_u16_from_le_bytes(a.subrange(4, 6)) as int % 10_000) as u32
}

/// The temperature of a homeworld at `position`, varied by the owner's key and held to
/// -60..=120.
pub open spec fn homeworld_temperature(a: Seq<u8>, position: u8) -> i16 {
    clamp_int(120 - position * 12 + (a[6] as int % 40 - 20), -60, 120) as i16
}

/// The field count of a homeworld, drawn from the owner's key.
pub open spec fn homeworld_max_fields(a: Seq<u8>) -> u16 {
    (163 + a[7] as int % 40) as u16
}

/// The starting record of `authority`'s homeworld, named `name`, at `now`.
pub open spec fn homeworld_planet_params(a: Seq<u8>, name: String, asked: InitializeHomeworldParams, now: i64) -> InitializePlanetParams {
    let position = homeworld_position(a, asked.position);
    let galaxy = homeworld_galaxy(a, asked.galaxy);
    let system = homeworld_system(a, asked.system);
    let diameter = homeworld_diameter(a);
    let temperature = homeworld_temperature(a, position);
    let max_fields = homeworld_max_fields(a);
    InitializePlanetParams {
        name: name,
        galaxy: galaxy,
        system: system,
        position: position,
        diameter: diameter,
        temperature: temperature,
        max_fields: max_fields,
        used_fields: 4,
        metal_mine: 1,
        crystal_mine: 1,
        deuterium_synthesizer: 1,
        solar_plant: 1,
        fusion_reactor: 0,
        robotics_factory: 0,
        nanite_factory: 0,
        shipyard: 0,
        metal_storage: 0,
        crystal_storage: 0,
        deuterium_tank: 0,
        research_lab: 0,
        missile_silo: 0,
        energy_tech: 0,
        combustion_drive: 0,
        impulse_drive: 0,
        hyperspace_drive: 0,
        computer_tech: 0,
        astrophysics: 0,
        igr_network: 0,
        weapons_technology: 0,
        shielding_technology: 0,
        armor_technology: 0,
        research_queue_item: 255,
        research_queue_target: 0,
        research_finish_ts: 0,
        build_queue_item: 255,
        build_queue_target: 0,
        build_finish_ts: 0,
        metal: STARTING_METAL,
        crystal: STARTING_CRYSTAL,
        deuterium: STARTING_DEUTERIUM,
        metal_hour: 33,
        crystal_hour: 22,
        deuterium_hour: 14,
        energy_production: 22,
        energy_consumption: 42,
        metal_cap: BASE_STORAGE_CAP,
        crystal_cap: BASE_STORAGE_CAP,
        deuterium_cap: BASE_STORAGE_CAP,
        last_update_ts: now,
        created_at: now,
        protection_until_ts: clamp_i64(now + NEW_PLAYER_PROTECTION_SECONDS),
        market_unlocked_at: clamp_i64(now + MARKET_UNLOCK_SECONDS),
        attack_unlocked_at: clamp_i64(now + ATTACK_UNLOCK_SECONDS),
        last_attack_launch_ts: 0,
        last_attacked_ts: 0,
        small_cargo: 0,
        large_cargo: 0,
        light_fighter: 0,
        heavy_fighter: 0,
        cruiser: 0,
        battleship: 0,
        battlecruiser: 0,
        bomber: 0,
        destroyer: 0,
        deathstar: 0,
        recycler: 0,
        espionage_probe: 0,
        colony_ship: 0,
        solar_satellite: 0,
        rocket_launcher: 0,
        light_laser: 0,
        heavy_laser: 0,
        gauss_cannon: 0,
        ion_cannon: 0,
        plasma_turret: 0,
        small_shield_dome: 0,
        large_shield_dome: 0,
        anti_ballistic_missile: 0,
        interplanetary_missile: 0,
        ship_build_item: 255,
        ship_build_qty: 0,
        ship_build_finish_ts: 0,
        defense_build_item: 255,
        defense_build_qty: 0,
        defense_build_finish_ts: 0,
    }
}

fn clamp_u16(v: u16, lo: u16, hi: u16) -> (r: u16)
    ensures
        r == clamp_int(v as int, lo as int, hi as int),
{
    if v < lo {
        lo
    } else if v > hi {
        hi
    } else {
        v
    }
}

/// The starting record of `authority`'s homeworld as the player asked for it, at `now`; an
/// empty name becomes `Homeworld`.
pub fn homeworld_params(authority: &Key, asked: InitializeHomeworldParams, now: i64) -> (p: InitializePlanetParams)
    ensures
        p == homeworld_planet_params(authority@, p.name, asked, now),
        asked.name@.len() == 0 ==> p.name@ == "Homeworld"@,
        asked.name@.len() != 0 ==> p.name == asked.name,
{
    let a = &authority.bytes;
    let position: u8 = if asked.position == 0 {
        (a[3] % 15) + 1
    } else if asked.position < 1 {
        1
    } else if asked.position > 15 {
        15
    } else {
        asked.position
    };
    let galaxy: u16 = if asked.galaxy == 0 {
        ((a[0] as u16) % 999) + 1
    } else {
        clamp_u16(asked.galaxy, 1, 999)
    };
    let low = vstd::bytes::u16_from_le_bytes(vstd::slice::slice_subrange(vstd::array::array_as_slice(a), 1, 3));
    let system: u16 = if asked.system == 0 {
        (low % 999) + 1
    } else {
        clamp_u16(asked.system, 1, 999)
    };
    let dia = vstd::bytes::u16_from_le_bytes(vstd::slice::slice_subrange(vstd::array::array_as_slice(a), 4, 6));
    let diameter: u32 = 8_000u32 + (dia as u32 % 10_000);
    let base_temp: i16 = 120i16 - (position as i16 * 12);
    let raw: i16 = base_temp + ((a[6] as i16) % 40 - 20);
    let temperature: i16 = if raw < -60 {
        -60
    } else if raw > 120 {
        120
    } else {
        raw
    };
    let max_fields: u16 = 163u16 + (a[7] as u16 % 40);
    let name = if asked.name.as_str().is_empty() {
        "Homeworld".to_owned()
    } else {
        asked.name
    };
    let protection = sat_add_i64(now, NEW_PLAYER_PROTECTION_SECONDS);
    let market_at = sat_add_i64(now, MARKET_UNLOCK_SECONDS);
    let attack_at = sat_add_i64(now, ATTACK_UNLOCK_SECONDS);
    InitializePlanetParams {
        name: name,
        galaxy: galaxy,
        system: system,
        position: position,
        diameter: diameter,
        temperature: temperature,
        max_fields: max_fields,
        used_fields: 4,
        metal_mine: 1,
        crystal_mine: 1,
        deuterium_synthesizer: 1,
        solar_plant: 1,
        fusion_reactor: 0,
        robotics_factory: 0,
        nanite_factory: 0,
        shipyard: 0,
        metal_storage: 0,
        crystal_storage: 0,
        deuterium_tank: 0,
        research_lab: 0,
        missile_silo: 0,
        energy_tech: 0,
        combustion_drive: 0,
        impulse_drive: 0,
        hyperspace_drive: 0,
        computer_tech: 0,
        astrophysics: 0,
        igr_network: 0,
        weapons_technology: 0,
        shielding_technology: 0,
        armor_technology: 0,
        research_queue_item: 255,
        research_queue_target: 0,
        research_finish_ts: 0,
        build_queue_item: 255,
        build_queue_target: 0,
        build_finish_ts: 0,
        metal: STARTING_METAL,
        crystal: STARTING_CRYSTAL,
        deuterium: STARTING_DEUTERIUM,
        metal_hour: 33,
        crystal_hour: 22,
        deuterium_hour: 14,
        energy_production: 22,
        energy_consumption: 42,
        metal_cap: BASE_STORAGE_CAP,
        crystal_cap: BASE_STORAGE_CAP,
        deuterium_cap: BASE_STORAGE_CAP,
        last_update_ts: now,
        created_at: now,
        protection_until_ts: protection,
        market_unlocked_at: market_at,
        attack_unlocked_at: attack_at,
        last_attack_launch_ts: 0,
        last_attacked_ts: 0,
        small_cargo: 0,
        large_cargo: 0,
        light_fighter: 0,
        heavy_fighter: 0,
        cruiser: 0,
        battleship: 0,
        battlecruiser: 0,
        bomber: 0,
        destroyer: 0,
        deathstar: 0,
        recycler: 0,
        espionage_probe: 0,
        colony_ship: 0,
        solar_satellite: 0,
        rocket_launcher: 0,
        light_laser: 0,
        heavy_laser: 0,
        gauss_cannon: 0,
        ion_cannon: 0,
        plasma_turret: 0,
        small_shield_dome: 0,
        large_shield_dome: 0,
        anti_ballistic_missile: 0,
        interplanetary_missile: 0,
        ship_build_item: 255,
        ship_build_qty: 0,
        ship_build_finish_ts: 0,
        defense_build_item: 255,
        defense_build_qty: 0,
        defense_build_finish_ts: 0,
    }
}

/// Why founding `authority`'s homeworld is refused before it is created, if it is: the profile
/// must have no planet yet and the vault must act for the profile's owner.
pub open spec fn homeworld_check(
    profile: PlayerProfile,
    program_id: Seq<u8>,
    vault_signer: Seq<u8>,
    authorized_vault: AuthorizedVault,
    authorized_vault_key: Seq<u8>,
    now: i64,
) -> Result<(), GameStateError> {
    if profile.planet_count != 0 {
        Err(GameStateError::InvalidArgs)
    } else if !is_derived(authorized_vault_key, seq![authorized_vault_tag(), profile.authority@], program_id) {
        Err(GameStateError::InvalidVaultAuthorization)
    } else {
        active_vault_check(vault_signer, authorized_vault, profile.authority@, now)
    }
}

/// Whether the vault's delegation address is the profile owner's.
fn vault_address_ok(authorized_vault_key: &Key, authority: &Key, program_id: &Key) -> (r: bool)
    ensures
        r == is_derived(authorized_vault_key@, seq![authorized_vault_tag(), authority@], program_id@),
{
    let tag: Vec<u8> = vec![97u8, 117, 116, 104, 111, 114, 105, 122, 101, 100, 95, 118, 97, 117, 108, 116];
    assert(tag@ =~= authorized_vault_tag());
    is_tagged_key_address(authorized_vault_key, tag, authority, program_id)
}

/// A new player's vault founds its homeworld at `now`, where the player asked or where its key
/// places it, with the starting stock and buildings; returns the planet and coordinate records
/// and counts the planet on the profile. On an error the profile is unchanged.
pub fn initialize_homeworld(
    profile: &mut PlayerProfile,
    profile_key: Key,
    planet_key: Key,
    coords_key: Key,
    program_id: Key,
    vault_signer: Key,
    authorized_vault: &AuthorizedVault,
    authorized_vault_key: Key,
    asked: InitializeHomeworldParams,
    bump: u8,
    now: i64,
) -> (r: Result<(PlanetState, PlanetCoordinates), GameStateError>)
    ensures
        homeworld_check(*old(profile), program_id@, vault_signer@, *authorized_vault, authorized_vault_key@, now) is Err ==> {
            &&& r == Err::<(PlanetState, PlanetCoordinates), GameStateError>(
                homeworld_check(*old(profile), program_id@, vault_signer@, *authorized_vault, authorized_vault_key@, now)->Err_0,
            )
            &&& *final(profile) == *old(profile)
        },
        homeworld_check(*old(profile), program_id@, vault_signer@, *authorized_vault, authorized_vault_key@, now) is Ok ==> {
            let params = homeworld_planet_params(old(profile).authority@, asked.name, asked, now);
            match create_planet_check(params, old(profile).authority@, *old(profile), coords_key@, program_id@) {
                Err(e) => r == Err::<(PlanetState, PlanetCoordinates), GameStateError>(e) && *final(profile) == *old(profile),
                Ok(()) => {
                    &&& *final(profile) == (PlayerProfile { planet_count: 1, ..*old(profile) })
                    &&& r matches Ok((p, c)) && {
                        &&& p == created_planet(params, old(profile).authority, profile_key, 0, p.name, bump)
                        &&& asked.name@.len() == 0 ==> is_name_copy(p.name, "Homeworld".spec_bytes(), "Planet".spec_bytes())
                        &&& asked.name@.len() != 0 ==> is_name_copy(p.name, vstd::utf8::encode_utf8(asked.name@), "Planet".spec_bytes())
                        &&& c.planet == planet_key && c.authority == old(profile).authority
                        &&& c.galaxy == params.galaxy && c.system == params.system && c.position == params.position
                    }
                },
            }
        },
{
    if profile.planet_count != 0 {
        return Err(GameStateError::InvalidArgs);
    }
    let authority = profile.authority;
    if !vault_address_ok(&authorized_vault_key, &authority, &program_id) {
        return Err(GameStateError::InvalidVaultAuthorization);
    }
    match require_active_vault(vault_signer, authorized_vault, authority, now) {
        Err(e) => {
            return Err(e);
        },
        Ok(()) => {},
    }
    let ghost sp = homeworld_planet_params(authority@, asked.name, asked, now);
    let ghost count = profile.planet_count;
    let params = homeworld_params(&authority, asked, now);
    let r = create_planet_state(authority, profile, profile_key, planet_key, coords_key, program_id, bump, &params);
    proof {
        assert(create_planet_check(params, authority@, PlayerProfile { planet_count: count, ..*profile }, coords_key@, program_id@)
            == create_planet_check(sp, authority@, PlayerProfile { planet_count: count, ..*profile }, coords_key@, program_id@));
        match r {
            Ok((p, c)) => {
                assert(created_planet(params, authority, profile_key, count, p.name, bump) == created_planet(sp, authority, profile_key, count, p.name, bump));
            },
            Err(_) => {},
        }
    }
    r
}

/// What a colony ship's owner asks of the colony: its name and the place its mission targets.
pub struct InitializeColonyParams {
    pub now: i64,
    pub name: String,
    pub galaxy: u16,
    pub system: u16,
    pub position: u8,
    pub cargo_metal: u64,
    pub cargo_crystal: u64,
    pub cargo_deuterium: u64,
    pub small_cargo: u32,
    pub large_cargo: u32,
    pub light_fighter: u32,
    pub heavy_fighter: u32,
    pub cruiser: u32,
    pub battleship: u32,
    pub battlecruiser: u32,
    pub bomber: u32,
    pub destroyer: u32,
    pub deathstar: u32,
    pub recycler: u32,
    pub espionage_probe: u32,
    pub solar_satellite: u32,
}

/// The starting record of a colony founded at `now` by `mission` at the place `asked` names,
/// named `name`: it takes the mission's cargo and ships but not the colony ship.
pub open spec fn colony_planet_params(mission: MissionState, name: String, asked: InitializeColonyParams, now: i64) -> InitializePlanetParams {
    let galaxy = asked.galaxy;
    let system = asked.system;
    let position = asked.position;
    let diameter = (8_000 + ((galaxy * 997 + system * 37 + position * 101) % 10_000)) as u32;
    let temperature = clamp_int(120 - position * 12, -60, 120) as i16;
    let max_fields = (163 + ((galaxy + system + position) % 40)) as u16;
    InitializePlanetParams {
        name: name,
        galaxy: galaxy,
        system: system,
        position: position,
        diameter: diameter,
        temperature: temperature,
        max_fields: max_fields,
        used_fields: 4,
        metal_mine: 1,
        crystal_mine: 1,
        deuterium_synthesizer: 1,
        solar_plant: 1,
        fusion_reactor: 0,
        robotics_factory: 0,
        nanite_factory: 0,
        shipyard: 0,
        metal_storage: 0,
        crystal_storage: 0,
        deuterium_tank: 0,
        research_lab: 0,
        missile_silo: 0,
        energy_tech: 0,
        combustion_drive: 0,
        impulse_drive: 0,
        hyperspace_drive: 0,
        computer_tech: 0,
        astrophysics: 0,
        igr_network: 0,
        weapons_technology: 0,
        shielding_technology: 0,
        armor_technology: 0,
        research_queue_item: 255,
        research_queue_target: 0,
        research_finish_ts: 0,
        build_queue_item: 255,
        build_queue_target: 0,
        build_finish_ts: 0,
        metal: mission.cargo_metal,
        crystal: mission.cargo_crystal,
        deuterium: mission.cargo_deuterium,
        metal_hour: 33,
        crystal_hour: 22,
        deuterium_hour: 14,
        energy_production: 22,
        energy_consumption: 42,
        metal_cap: BASE_STORAGE_CAP,
        crystal_cap: BASE_STORAGE_CAP,
        deuterium_cap: BASE_STORAGE_CAP,
        last_update_ts: now,
        created_at: now,
        protection_until_ts: clamp_i64(now + NEW_PLAYER_PROTECTION_SECONDS),
        market_unlocked_at: clamp_i64(now + MARKET_UNLOCK_SECONDS),
        attack_unlocked_at: clamp_i64(now + ATTACK_UNLOCK_SECONDS),
        last_attack_launch_ts: 0,
        last_attacked_ts: 0,
        small_cargo: mission.small_cargo,
        large_cargo: mission.large_cargo,
        light_fighter: mission.light_fighter,
        heavy_fighter: mission.heavy_fighter,
        cruiser: mission.cruiser,
        battleship: mission.battleship,
        battlecruiser: mission.battlecruiser,
        bomber: mission.bomber,
        destroyer: mission.destroyer,
        deathstar: mission.deathstar,
        recycler: mission.recycler,
        espionage_probe: mission.espionage_probe,
        colony_ship: 0,
        solar_satellite: 0,
        rocket_launcher: 0,
        light_laser: 0,
        heavy_laser: 0,
        gauss_cannon: 0,
        ion_cannon: 0,
        plasma_turret: 0,
        small_shield_dome: 0,
        large_shield_dome: 0,
        anti_ballistic_missile: 0,
        interplanetary_missile: 0,
        ship_build_item: 255,
        ship_build_qty: 0,
        ship_build_finish_ts: 0,
        defense_build_item: 255,
        defense_build_qty: 0,
        defense_build_finish_ts: 0,
    }
}

/// The starting record of a colony founded at `now` by `mission`; an empty name becomes `Colony`.
pub fn colony_params(mission: &MissionState, asked: InitializeColonyParams, now: i64) -> (p: InitializePlanetParams)
    requires
        asked.galaxy + asked.system + asked.position <= u16::MAX,
    ensures
        p == colony_planet_params(*mission, p.name, asked, now),
        asked.name@.len() == 0 ==> p.name@ == "Colony"@,
        asked.name@.len() != 0 ==> p.name == asked.name,
{
    let galaxy = asked.galaxy;
    let system = asked.system;
    let position = asked.position;
    let diameter: u32 = 8_000u32 + ((galaxy as u32 * 997 + system as u32 * 37 + position as u32 * 101) % 10_000);
    let raw: i16 = 120i16 - (position as i16 * 12);
    let temperature: i16 = if raw < -60 {
        -60
    } else if raw > 120 {
        120
    } else {
        raw
    };
    let max_fields: u16 = 163u16 + ((galaxy + system + position as u16) % 40);
    let name = if asked.name.as_str().is_empty() {
        "Colony".to_owned()
    } else {
        asked.name
    };
    let protection = sat_add_i64(now, NEW_PLAYER_PROTECTION_SECONDS);
    let market_at = sat_add_i64(now, MARKET_UNLOCK_SECONDS);
    let attack_at = sat_add_i64(now, ATTACK_UNLOCK_SECONDS);
    InitializePlanetParams {
        name: name,
        galaxy: galaxy,
        system: system,
        position: position,
        diameter: diameter,
        temperature: temperature,
        max_fields: max_fields,
        used_fields: 4,
        metal_mine: 1,
        crystal_mine: 1,
        deuterium_synthesizer: 1,
        solar_plant: 1,
        fusion_reactor: 0,
        robotics_factory: 0,
        nanite_factory: 0,
        shipyard: 0,
        metal_storage: 0,
        crystal_storage: 0,
        deuterium_tank: 0,
        research_lab: 0,
        missile_silo: 0,
        energy_tech: 0,
        combustion_drive: 0,
        impulse_drive: 0,
        hyperspace_drive: 0,
        computer_tech: 0,
        astrophysics: 0,
        igr_network: 0,
        weapons_technology: 0,
        shielding_technology: 0,
        armor_technology: 0,
        research_queue_item: 255,
        research_queue_target: 0,
        research_finish_ts: 0,
        build_queue_item: 255,
        build_queue_target: 0,
        build_finish_ts: 0,
        metal: mission.cargo_metal,
        crystal: mission.cargo_crystal,
        deuterium: mission.cargo_deuterium,
        metal_hour: 33,
        crystal_hour: 22,
        deuterium_hour: 14,
        energy_production: 22,
        energy_consumption: 42,
        metal_cap: BASE_STORAGE_CAP,
        crystal_cap: BASE_STORAGE_CAP,
        deuterium_cap: BASE_STORAGE_CAP,
        last_update_ts: now,
        created_at: now,
        protection_until_ts: protection,
        market_unlocked_at: market_at,
        attack_unlocked_at: attack_at,
        last_attack_launch_ts: 0,
        last_attacked_ts: 0,
        small_cargo: mission.small_cargo,
        large_cargo: mission.large_cargo,
        light_fighter: mission.light_fighter,
        heavy_fighter: mission.heavy_fighter,
        cruiser: mission.cruiser,
        battleship: mission.battleship,
        battlecruiser: mission.battlecruiser,
        bomber: mission.bomber,
        destroyer: mission.destroyer,
        deathstar: mission.deathstar,
        recycler: mission.recycler,
        espionage_probe: mission.espionage_probe,
        colony_ship: 0,
        solar_satellite: 0,
        rocket_launcher: 0,
        light_laser: 0,
        heavy_laser: 0,
        gauss_cannon: 0,
        ion_cannon: 0,
        plasma_turret: 0,
        small_shield_dome: 0,
        large_shield_dome: 0,
        anti_ballistic_missile: 0,
        interplanetary_missile: 0,
        ship_build_item: 255,
        ship_build_qty: 0,
        ship_build_finish_ts: 0,
        defense_build_item: 255,
        defense_build_qty: 0,
        defense_build_finish_ts: 0,
    }
}

/// Why founding a colony from mission `slot` of `source` at `now` is refused before the colony
/// is created, if it is.
pub open spec fn colony_check(
    profile: PlayerProfile,
    source: PlanetState,
    slot: u8,
    asked: InitializeColonyParams,
    program_id: Seq<u8>,
    vault_signer: Seq<u8>,
    authorized_vault: AuthorizedVault,
    authorized_vault_key: Seq<u8>,
    now: i64,
) -> Result<(), GameStateError> {
    if profile.planet_count == 0 {
        Err(GameStateError::InvalidArgs)
    } else if slot >= MAX_MISSIONS {
        Err(GameStateError::InvalidMissionSlot)
    } else {
        let m = source.missions[slot as int];
        if m.mission_type != MISSION_COLONIZE {
            Err(GameStateError::InvalidMission)
        } else if m.applied {
            Err(GameStateError::AlreadyResolved)
        } else if now < m.arrive_ts {
            Err(GameStateError::MissionInFlight)
        } else if m.colony_ship != 1 {
            Err(GameStateError::MissingColonyShip)
        } else if !(m.target_galaxy == asked.galaxy && m.target_system == asked.system && m.target_position == asked.position) {
            Err(GameStateError::InvalidDestination)
        } else if !is_derived(authorized_vault_key, seq![authorized_vault_tag(), profile.authority@], program_id) {
            Err(GameStateError::InvalidVaultAuthorization)
        } else {
            active_vault_check(vault_signer, authorized_vault, profile.authority@, now)
        }
    }
}

/// The owner's vault founds a colony where the colonize mission in `slot` of `source` arrived:
/// the colony takes the mission's cargo and ships, the mission's slot is freed and the source's
/// mission count drops; returns the colony and its coordinate record. On an error nothing
/// changes. The owner's progress record `progress` counts one more colonized planet and is
/// handed back to store.
pub fn initialize_colony(
    profile: &mut PlayerProfile,
    profile_key: Key,
    source: &mut PlanetState,
    slot: u8,
    planet_key: Key,
    coords_key: Key,
    program_id: Key,
    vault_signer: Key,
    authorized_vault: &AuthorizedVault,
    authorized_vault_key: Key,
    asked: InitializeColonyParams,
    progress: &ProgressRecord,
    bump: u8,
    now: i64,
) -> (r: Result<(PlanetState, PlanetCoordinates, QuestProgressState), GameStateError>)
    requires
        colony_check(*old(profile), *old(source), slot, asked, program_id@, vault_signer@, *authorized_vault, authorized_vault_key@, now) is Ok
            ==> asked.galaxy + asked.system + asked.position <= u16::MAX,
    ensures
        colony_check(*old(profile), *old(source), slot, asked, program_id@, vault_signer@, *authorized_vault, authorized_vault_key@, now) is Err ==> {
            &&& r == Err::<(PlanetState, PlanetCoordinates, QuestProgressState), GameStateError>(
                colony_check(*old(profile), *old(source), slot, asked, program_id@, vault_signer@, *authorized_vault, authorized_vault_key@, now)->Err_0,
            )
            &&& *final(profile) == *old(profile)
            &&& *final(source) == *old(source)
        },
        colony_check(*old(profile), *old(source), slot, asked, program_id@, vault_signer@, *authorized_vault, authorized_vault_key@, now) is Ok ==> {
            let mission = old(source).missions[slot as int];
            let params = colony_planet_params(mission, asked.name, asked, now);
            match create_planet_check(params, old(profile).authority@, *old(profile), coords_key@, program_id@) {
                Err(e) => r == Err::<(PlanetState, PlanetCoordinates, QuestProgressState), GameStateError>(e) && *final(profile) == *old(profile)
                    && *final(source) == *old(source),
                Ok(()) => match progress_record_check(progress.key, progress.data_len, progress.state, old(profile).authority, program_id) {
                    Err(e) => r == Err::<(PlanetState, PlanetCoordinates, QuestProgressState), GameStateError>(e) && *final(profile) == *old(profile)
                        && *final(source) == *old(source),
                    Ok(g) => {
                    &&& *final(profile) == (PlayerProfile { planet_count: (old(profile).planet_count + 1) as u32, ..*old(profile) })
                    &&& *final(source) == (PlanetState {
                        active_missions: old(source).active_missions.saturating_sub(1),
                        ..old(source).with_slot_cleared(slot as int)
                    })
                    &&& r matches Ok((p, c, g2)) && {
                        &&& g2 == (QuestProgressState {
                            last_updated_ts: now,
                            ..counted(synced_progress(g, now), QuestProgressMetric::PlanetsColonized, 1)
                        })
                        &&& p == created_planet(params, old(profile).authority, profile_key, old(profile).planet_count, p.name, bump)
                        &&& asked.name@.len() == 0 ==> is_name_copy(p.name, "Colony".spec_bytes(), "Planet".spec_bytes())
                        &&& asked.name@.len() != 0 ==> is_name_copy(p.name, vstd::utf8::encode_utf8(asked.name@), "Planet".spec_bytes())
                        &&& c.planet == planet_key && c.authority == old(profile).authority
                        &&& c.galaxy == asked.galaxy && c.system == asked.system && c.position == asked.position
                    }
                    },
                },
            }
        },
{
    if profile.planet_count == 0 {
        return Err(GameStateError::InvalidArgs);
    }
    if slot as usize >= MAX_MISSIONS {
        return Err(GameStateError::InvalidMissionSlot);
    }
    let authority = profile.authority;
    let mission = source.mission(slot as usize);
    if mission.mission_type != MISSION_COLONIZE {
        return Err(GameStateError::InvalidMission);
    }
    if mission.applied {
        return Err(GameStateError::AlreadyResolved);
    }
    if now < mission.arrive_ts {
        return Err(GameStateError::MissionInFlight);
    }
    if mission.colony_ship != 1 {
        return Err(GameStateError::MissingColonyShip);
    }
    if !(mission.target_galaxy == asked.galaxy && mission.target_system == asked.system && mission.target_position == asked.position) {
        return Err(GameStateError::InvalidDestination);
    }
    if !vault_address_ok(&authorized_vault_key, &authority, &program_id) {
        return Err(GameStateError::InvalidVaultAuthorization);
    }
    match require_active_vault(vault_signer, authorized_vault, authority, now) {
        Err(e) => {
            return Err(e);
        },
        Ok(()) => {},
    }
    let ghost sp = colony_planet_params(mission, asked.name, asked, now);
    let ghost count = profile.planet_count;
    let saved = *profile;
    let params = colony_params(&mission, asked, now);
    let created = create_planet_state(authority, profile, profile_key, planet_key, coords_key, program_id, bump, &params);
    proof {
        assert(create_planet_check(params, authority@, PlayerProfile { planet_count: count, ..*profile }, coords_key@, program_id@)
            == create_planet_check(sp, authority@, PlayerProfile { planet_count: count, ..*profile }, coords_key@, program_id@));
        match created {
            Ok((p, c)) => {
                assert(created_planet(params, authority, profile_key, count, p.name, bump) == created_planet(sp, authority, profile_key, count, p.name, bump));
            },
            Err(_) => {},
        }
    }
    match created {
        Err(e) => {
            return Err(e);
        },
        Ok((planet, coords)) => {
            let counted_progress = match increment_quest_progress(
                &progress.key,
                progress.data_len,
                &progress.state,
                &authority,
                &program_id,
                now,
                QuestProgressMetric::PlanetsColonized,
                1,
            ) {
                Err(e) => {
                    *profile = saved;
                    return Err(e);
                },
                Ok(g) => g,
            };
            source.clear_mission(slot as usize);
            source.active_missions = source.active_missions.saturating_sub(1);
            Ok((planet, coords, counted_progress))
        },
    }
}

} // verus!
