//! Sending a fleet from a planet on an attack, transport, colonization or espionage mission.
use vstd::prelude::*;

use crate::constants::{
    ATTACK_LAUNCH_COOLDOWN_SECONDS, MIN_ATTACK_COMBAT_POINTS, MISSION_ATTACK, MISSION_COLONIZE,
    MISSION_ESPIONAGE, MISSION_TRANSPORT,
};
use crate::economy::{settle_fits, settle_resources, settle_spec};
use crate::error::GameStateError;
use crate::flight::{
    clamp_speed_factor, mission_flight_seconds, mission_flight_seconds_spec, slowest_fleet_speed,
    slowest_fleet_speed_spec,
};
use crate::formulas::{
    cargo_capacity, cargo_capacity_spec, copy_name, fleet_combat_points, fleet_combat_points_spec,
    is_name_copy, launch_fuel_cost, launch_fuel_cost_spec, valid_coordinates, validate_coordinates,
};
use crate::num::{clamp_i64, sat_add_i64};
use crate::planet::{MissionState, PlanetState};
use vstd::string::StringSliceAdditionalSpecFns;

verus! {

/// What a player asks for when launching a fleet.
pub struct LaunchFleetParams {
    pub mission_type: u8,
    pub light_fighter: u32,
    pub heavy_fighter: u32,
    pub cruiser: u32,
    pub battleship: u32,
    pub battlecruiser: u32,
    pub bomber: u32,
    pub destroyer: u32,
    pub deathstar: u32,
    pub small_cargo: u32,
    pub large_cargo: u32,
    pub recycler: u32,
    pub espionage_probe: u32,
    pub colony_ship: u32,
    pub cargo_metal: u64,
    pub cargo_crystal: u64,
    pub cargo_deuterium: u64,
    pub speed_factor: u8,
    pub now: i64,
    pub target_galaxy: u16,
    pub target_system: u16,
    pub target_position: u8,
    pub colony_name: String,
}

/// Number of ships the launch asks for.
pub open spec fn ships_total(pr: LaunchFleetParams) -> int {
    pr.light_fighter + pr.heavy_fighter + pr.cruiser + pr.battleship + pr.battlecruiser + pr.bomber
        + pr.destroyer + pr.deathstar + pr.small_cargo + pr.large_cargo + pr.recycler
        + pr.espionage_probe + pr.colony_ship
}

/// Resources the launch loads.
pub open spec fn cargo_total(pr: LaunchFleetParams) -> int {
    pr.cargo_metal + pr.cargo_crystal + pr.cargo_deuterium
}

/// The checks on the request alone, made before the planet is touched.
pub open spec fn launch_request_check(pr: LaunchFleetParams) -> Result<(), GameStateError> {
    let mt = pr.mission_type;
    let no_cargo = pr.cargo_metal == 0 && pr.cargo_crystal == 0 && pr.cargo_deuterium == 0;
    if !valid_coordinates(pr.target_galaxy, pr.target_system, pr.target_position) {
        Err(GameStateError::InvalidCoordinates)
    } else if !(mt == MISSION_ATTACK || mt == MISSION_TRANSPORT || mt == MISSION_COLONIZE || mt
        == MISSION_ESPIONAGE) {
        Err(GameStateError::InvalidMission)
    } else if ships_total(pr) == 0 {
        Err(GameStateError::EmptyFleet)
    } else if mt == MISSION_ESPIONAGE && pr.espionage_probe == 0 {
        Err(GameStateError::EmptyFleet)
    } else if mt == MISSION_ESPIONAGE && ships_total(pr) - pr.espionage_probe != 0 {
        Err(GameStateError::InvalidMission)
    } else if mt == MISSION_ESPIONAGE && !no_cargo {
        Err(GameStateError::InvalidMission)
    } else if mt == MISSION_COLONIZE && pr.colony_ship != 1 {
        Err(GameStateError::MissingColonyShip)
    } else if mt == MISSION_COLONIZE && ships_total(pr) - pr.colony_ship != 0 {
        Err(GameStateError::InvalidMission)
    } else if mt == MISSION_COLONIZE && !no_cargo {
        Err(GameStateError::InvalidMission)
    } else {
        Ok(())
    }
}

/// Whether the planet holds every ship the launch asks for.
pub open spec fn has_ships(p: PlanetState, pr: LaunchFleetParams) -> bool {
    &&& p.light_fighter >= pr.light_fighter
    &&& p.heavy_fighter >= pr.heavy_fighter
    &&& p.cruiser >= pr.cruiser
    &&& p.battleship >= pr.battleship
    &&& p.battlecruiser >= pr.battlecruiser
    &&& p.bomber >= pr.bomber
    &&& p.destroyer >= pr.destroyer
    &&& p.deathstar >= pr.deathstar
    &&& p.small_cargo >= pr.small_cargo
    &&& p.large_cargo >= pr.large_cargo
    &&& p.recycler >= pr.recycler
    &&& p.espionage_probe >= pr.espionage_probe
    &&& p.colony_ship >= pr.colony_ship
}

/// Fleet speed of the requested ships from planet `p`.
pub open spec fn launch_fleet_speed(p: PlanetState, pr: LaunchFleetParams) -> int {
    slowest_fleet_speed_spec(
        p,
        pr.light_fighter,
        pr.heavy_fighter,
        pr.cruiser,
        pr.battleship,
        pr.battlecruiser,
        pr.bomber,
        pr.destroyer,
        pr.deathstar,
        pr.small_cargo,
        pr.large_cargo,
        pr.recycler,
        pr.espionage_probe,
        pr.colony_ship,
    )
}

/// Deuterium the requested fleet burns.
pub open spec fn launch_fuel(pr: LaunchFleetParams) -> int {
    launch_fuel_cost_spec(
        pr.light_fighter,
        pr.heavy_fighter,
        pr.cruiser,
        pr.battleship,
        pr.battlecruiser,
        pr.bomber,
        pr.destroyer,
        pr.small_cargo,
        pr.large_cargo,
        pr.recycler,
        pr.espionage_probe,
        pr.colony_ship,
        clamp_speed_factor(pr.speed_factor) as u8,
    )
}

/// The checks against the settled planet `p` once a free slot exists.
pub open spec fn launch_planet_check(p: PlanetState, pr: LaunchFleetParams, now: i64) -> Result<(), GameStateError> {
    let attack = pr.mission_type == MISSION_ATTACK;
    let points = fleet_combat_points_spec(
        pr.light_fighter,
        pr.heavy_fighter,
        pr.cruiser,
        pr.battleship,
        pr.battlecruiser,
        pr.bomber,
        pr.destroyer,
        pr.deathstar,
        pr.small_cargo,
        pr.large_cargo,
        pr.recycler,
        pr.espionage_probe,
        pr.colony_ship,
    );
    if attack && now < p.attack_unlocked_at {
        Err(GameStateError::GameplayLocked)
    } else if attack && !(p.last_attack_launch_ts == 0 || now >= clamp_i64(
        p.last_attack_launch_ts + ATTACK_LAUNCH_COOLDOWN_SECONDS,
    )) {
        Err(GameStateError::AttackCooldown)
    } else if attack && points < MIN_ATTACK_COMBAT_POINTS {
        Err(GameStateError::AttackPowerTooLow)
    } else if !has_ships(p, pr) {
        Err(GameStateError::InsufficientShips)
    } else if cargo_total(pr) > cargo_capacity_spec(
        pr.small_cargo,
        pr.large_cargo,
        pr.recycler,
        pr.cruiser,
        pr.battleship,
    ) {
        Err(GameStateError::ExceedsCargo)
    } else if p.metal < pr.cargo_metal || p.crystal < pr.cargo_crystal || p.deuterium
        < pr.cargo_deuterium {
        Err(GameStateError::InsufficientResources)
    } else if launch_fleet_speed(p, pr) == 0 {
        Err(GameStateError::InvalidArgs)
    } else if p.deuterium < pr.cargo_deuterium + launch_fuel(pr) {
        Err(GameStateError::InsufficientDeuterium)
    } else {
        Ok(())
    }
}

/// The mission that a successful launch from `p` records.
pub open spec fn launched_mission(
    p: PlanetState,
    pr: LaunchFleetParams,
    now: i64,
    name: [u8; 32],
) -> MissionState {
    let sf = clamp_speed_factor(pr.speed_factor) as u8;
    let flight = mission_flight_seconds_spec(
        p.galaxy,
        p.system,
        p.position,
        pr.target_galaxy,
        pr.target_system,
        pr.target_position,
        sf,
        launch_fleet_speed(p, pr) as u64,
        p,
    );
    MissionState {
        mission_type: pr.mission_type,
        target_galaxy: pr.target_galaxy,
        target_system: pr.target_system,
        target_position: pr.target_position,
        colony_name: name,
        depart_ts: now,
        arrive_ts: clamp_i64(now + flight),
        return_ts: 0,
        small_cargo: pr.small_cargo,
        large_cargo: pr.large_cargo,
        light_fighter: pr.light_fighter,
        heavy_fighter: pr.heavy_fighter,
        cruiser: pr.cruiser,
        battleship: pr.battleship,
        battlecruiser: pr.battlecruiser,
        bomber: pr.bomber,
        destroyer: pr.destroyer,
        deathstar: pr.deathstar,
        recycler: pr.recycler,
        espionage_probe: pr.espionage_probe,
        colony_ship: pr.colony_ship,
        cargo_metal: pr.cargo_metal,
        cargo_crystal: pr.cargo_crystal,
        cargo_deuterium: pr.cargo_deuterium,
        applied: false,
        speed_factor: sf,
        combat_rounds: 0,
        attacker_won: false,
    }
}

/// Planet `p` after the fleet has left: ships, cargo and fuel removed.
pub open spec fn launched_planet(p: PlanetState, pr: LaunchFleetParams, now: i64) -> PlanetState {
    PlanetState {
        metal: (p.metal - pr.cargo_metal) as u64,
        crystal: (p.crystal - pr.cargo_crystal) as u64,
        deuterium: (p.deuterium - (pr.cargo_deuterium + launch_fuel(pr))) as u64,
        light_fighter: (p.light_fighter - pr.light_fighter) as u32,
        heavy_fighter: (p.heavy_fighter - pr.heavy_fighter) as u32,
        cruiser: (p.cruiser - pr.cruiser) as u32,
        battleship: (p.battleship - pr.battleship) as u32,
        battlecruiser: (p.battlecruiser - pr.battlecruiser) as u32,
        bomber: (p.bomber - pr.bomber) as u32,
        destroyer: (p.destroyer - pr.destroyer) as u32,
        deathstar: (p.deathstar - pr.deathstar) as u32,
        small_cargo: (p.small_cargo - pr.small_cargo) as u32,
        large_cargo: (p.large_cargo - pr.large_cargo) as u32,
        recycler: (p.recycler - pr.recycler) as u32,
        espionage_probe: (p.espionage_probe - pr.espionage_probe) as u32,
        colony_ship: (p.colony_ship - pr.colony_ship) as u32,
        active_missions: p.active_missions.saturating_add(1),
        last_attack_launch_ts: if pr.mission_type == MISSION_ATTACK {
            now
        } else {
            p.last_attack_launch_ts
        },
        ..p
    }
}

/// The outcome of a launch at `now`; `name` is the stored colony name.
pub open spec fn launch_spec(p0: PlanetState, pr: LaunchFleetParams, now: i64, name: [u8; 32]) -> (PlanetState, Result<(), GameStateError>) {
    let (p, r) = settle_spec(p0, now);
    if launch_request_check(pr) is Err {
        (p0, launch_request_check(pr))
    } else if r is Err {
        (p, r)
    } else if p.first_free_slot() is None {
        (p, Err(GameStateError::NoMissionSlot))
    } else if launch_planet_check(p, pr, now) is Err {
        (p, launch_planet_check(p, pr, now))
    } else {
        let slot = p.first_free_slot()->0 as int;
        let q = launched_planet(p, pr, now);
        (
            PlanetState {
                missions: vstd::array::spec_array_update(q.missions, slot, launched_mission(p, pr, now, name)),
                ..q
            },
            Ok(()),
        )
    }
}

/// Whether a launch stays within machine ranges: the ship and cargo sums fit.
pub open spec fn launch_fits(p0: PlanetState, pr: LaunchFleetParams, now: i64) -> bool {
    &&& launch_reaches_count(pr) ==> ships_total(pr) <= u32::MAX
    &&& launch_request_check(pr) is Ok ==> settle_fits(p0, now)
    &&& launch_reaches_cargo(p0, pr, now) ==> cargo_total(pr) <= u64::MAX
}

/// Whether a launch gets as far as counting its ships: the target place and the mission kind
/// are valid.
pub open spec fn launch_reaches_count(pr: LaunchFleetParams) -> bool {
    let mt = pr.mission_type;
    &&& valid_coordinates(pr.target_galaxy, pr.target_system, pr.target_position)
    &&& (mt == MISSION_ATTACK || mt == MISSION_TRANSPORT || mt == MISSION_COLONIZE || mt == MISSION_ESPIONAGE)
}

/// Whether a launch gets as far as adding up its cargo: the request is sound, the planet
/// settles and has a free slot, and the settled planet passes the attack and hangar checks.
pub open spec fn launch_reaches_cargo(p0: PlanetState, pr: LaunchFleetParams, now: i64) -> bool {
    let (p, r) = settle_spec(p0, now);
    let attack = pr.mission_type == MISSION_ATTACK;
    let points = fleet_combat_points_spec(
        pr.light_fighter,
        pr.heavy_fighter,
        pr.cruiser,
        pr.battleship,
        pr.battlecruiser,
        pr.bomber,
        pr.destroyer,
        pr.deathstar,
        pr.small_cargo,
        pr.large_cargo,
        pr.recycler,
        pr.espionage_probe,
        pr.colony_ship,
    );
    &&& launch_request_check(pr) is Ok
    &&& r is Ok
    &&& p.first_free_slot() is Some
    &&& !(attack && now < p.attack_unlocked_at)
    &&& !(attack && !(p.last_attack_launch_ts == 0 || now >= clamp_i64(p.last_attack_launch_ts + ATTACK_LAUNCH_COOLDOWN_SECONDS)))
    &&& !(attack && points < MIN_ATTACK_COMBAT_POINTS)
    &&& has_ships(p, pr)
}

fn has_ships_exec(p: &PlanetState, pr: &LaunchFleetParams) -> (r: bool)
    ensures
        r == has_ships(*p, *pr),
{
    p.light_fighter >= pr.light_fighter && p.heavy_fighter >= pr.heavy_fighter && p.cruiser
        >= pr.cruiser && p.battleship >= pr.battleship && p.battlecruiser >= pr.battlecruiser
        && p.bomber >= pr.bomber && p.destroyer >= pr.destroyer && p.deathstar >= pr.deathstar
        && p.small_cargo >= pr.small_cargo && p.large_cargo >= pr.large_cargo && p.recycler
        >= pr.recycler && p.espionage_probe >= pr.espionage_probe && p.colony_ship >= pr.colony_ship
}

/// Sends the requested fleet from `planet` at `now`, recording it in the first free mission slot.
pub fn launch_fleet_planet(planet: &mut PlanetState, params: LaunchFleetParams, now: i64) -> (r: Result<
    (),
    GameStateError,
>)
    requires
        launch_fits(*old(planet), params, now),
    ensures
        exists|name: [u8; 32]|
            is_name_copy(name, vstd::utf8::encode_utf8(params.colony_name@), "".spec_bytes()) && (
            *final(planet),
            r,
        ) == launch_spec(*old(planet), params, now, name),
{
    let name = copy_name(params.colony_name.as_str(), "");
    let r = launch_with_name(planet, &params, now, name);
    assert(is_name_copy(name, vstd::utf8::encode_utf8(params.colony_name@), "".spec_bytes()));
    r
}

fn launch_with_name(planet: &mut PlanetState, params: &LaunchFleetParams, now: i64, name: [u8; 32]) -> (r:
    Result<(), GameStateError>)
    requires
        launch_fits(*old(planet), *params, now),
    ensures
        (*final(planet), r) == launch_spec(*old(planet), *params, now, name),
{
    broadcast use vstd::array::group_array_axioms;

    validate_coordinates(params.target_galaxy, params.target_system, params.target_position)?;
    let mt = params.mission_type;
    if !(mt == MISSION_ATTACK || mt == MISSION_TRANSPORT || mt == MISSION_COLONIZE || mt
        == MISSION_ESPIONAGE) {
        return Err(GameStateError::InvalidMission);
    }
    let total_ships: u32 = params.light_fighter + params.heavy_fighter + params.cruiser
        + params.battleship + params.battlecruiser + params.bomber + params.destroyer
        + params.deathstar + params.small_cargo + params.large_cargo + params.recycler
        + params.espionage_probe + params.colony_ship;
    if total_ships == 0 {
        return Err(GameStateError::EmptyFleet);
    }
    let no_cargo = params.cargo_metal == 0 && params.cargo_crystal == 0 && params.cargo_deuterium
        == 0;
    if mt == MISSION_ESPIONAGE {
        if params.espionage_probe == 0 {
            return Err(GameStateError::EmptyFleet);
        }
        if total_ships - params.espionage_probe != 0 {
            return Err(GameStateError::InvalidMission);
        }
        if !no_cargo {
            return Err(GameStateError::InvalidMission);
        }
    }
    if mt == MISSION_COLONIZE {
        if params.colony_ship != 1 {
            return Err(GameStateError::MissingColonyShip);
        }
        if total_ships - params.colony_ship != 0 {
            return Err(GameStateError::InvalidMission);
        }
        if !no_cargo {
            return Err(GameStateError::InvalidMission);
        }
    }
    settle_resources(planet, now)?;
    let slot = match planet.free_mission_slot() {
        Some(s) => s,
        None => return Err(GameStateError::NoMissionSlot),
    };
    if mt == MISSION_ATTACK {
        if now < planet.attack_unlocked_at {
            return Err(GameStateError::GameplayLocked);
        }
        if !(planet.last_attack_launch_ts == 0 || now >= sat_add_i64(
            planet.last_attack_launch_ts,
            ATTACK_LAUNCH_COOLDOWN_SECONDS,
        )) {
            return Err(GameStateError::AttackCooldown);
        }
        let attack_points = fleet_combat_points(
            params.light_fighter,
            params.heavy_fighter,
            params.cruiser,
            params.battleship,
            params.battlecruiser,
            params.bomber,
            params.destroyer,
            params.deathstar,
            params.small_cargo,
            params.large_cargo,
            params.recycler,
            params.espionage_probe,
            params.colony_ship,
        );
        if attack_points < MIN_ATTACK_COMBAT_POINTS {
            return Err(GameStateError::AttackPowerTooLow);
        }
    }
    if !has_ships_exec(planet, params) {
        return Err(GameStateError::InsufficientShips);
    }
    let cap = cargo_capacity(
        params.small_cargo,
        params.large_cargo,
        params.recycler,
        params.cruiser,
        params.battleship,
    );
    if params.cargo_metal + params.cargo_crystal + params.cargo_deuterium > cap {
        return Err(GameStateError::ExceedsCargo);
    }
    if planet.metal < params.cargo_metal || planet.crystal < params.cargo_crystal || planet.deuterium
        < params.cargo_deuterium {
        return Err(GameStateError::InsufficientResources);
    }
    let speed_factor: u8 = if params.speed_factor < 10 {
        10
    } else if params.speed_factor > 100 {
        100
    } else {
        params.speed_factor
    };
    let fleet_speed = slowest_fleet_speed(
        planet,
        params.light_fighter,
        params.heavy_fighter,
        params.cruiser,
        params.battleship,
        params.battlecruiser,
        params.bomber,
        params.destroyer,
        params.deathstar,
        params.small_cargo,
        params.large_cargo,
        params.recycler,
        params.espionage_probe,
        params.colony_ship,
    );
    if fleet_speed == 0 {
        return Err(GameStateError::InvalidArgs);
    }
    let flight_seconds = mission_flight_seconds(
        planet.galaxy,
        planet.system,
        planet.position,
        params.target_galaxy,
        params.target_system,
        params.target_position,
        speed_factor,
        fleet_speed,
        planet,
    );
    let launch_fuel = launch_fuel_cost(
        params.light_fighter,
        params.heavy_fighter,
        params.cruiser,
        params.battleship,
        params.battlecruiser,
        params.bomber,
        params.destroyer,
        params.deathstar,
        params.small_cargo,
        params.large_cargo,
        params.recycler,
        params.espionage_probe,
        params.colony_ship,
        speed_factor,
    );
    proof {
        let sf = speed_factor as u64;
        assert(sf * sf <= 10_000) by (nonlinear_arith)
            requires
                sf <= 100,
        ;
        let base: int = params.small_cargo * 10 + params.large_cargo * 50 + params.light_fighter * 20
            + params.heavy_fighter * 75 + params.cruiser * 300 + params.battleship * 500
            + params.battlecruiser * 250 + params.bomber * 1_000 + params.destroyer * 1_000
            + params.recycler * 300 + params.espionage_probe + params.colony_ship * 1_000;
        assert(base * (sf * sf) / 10_000 <= base) by (nonlinear_arith)
            requires
                sf * sf <= 10_000,
                base >= 0,
        ;
    }
    if planet.deuterium < params.cargo_deuterium + launch_fuel {
        return Err(GameStateError::InsufficientDeuterium);
    }
    let ghost ps = *planet;
    let ghost slot_g = slot as int;
    assert(ps.first_free_slot() == Some(slot as nat));
    planet.metal = planet.metal - params.cargo_metal;
    planet.crystal = planet.crystal - params.cargo_crystal;
    planet.deuterium = planet.deuterium - (params.cargo_deuterium + launch_fuel);
    planet.light_fighter = planet.light_fighter - params.light_fighter;
    planet.heavy_fighter = planet.heavy_fighter - params.heavy_fighter;
    planet.cruiser = planet.cruiser - params.cruiser;
    planet.battleship = planet.battleship - params.battleship;
    planet.battlecruiser = planet.battlecruiser - params.battlecruiser;
    planet.bomber = planet.bomber - params.bomber;
    planet.destroyer = planet.destroyer - params.destroyer;
    planet.deathstar = planet.deathstar - params.deathstar;
    planet.small_cargo = planet.small_cargo - params.small_cargo;
    planet.large_cargo = planet.large_cargo - params.large_cargo;
    planet.recycler = planet.recycler - params.recycler;
    planet.espionage_probe = planet.espionage_probe - params.espionage_probe;
    planet.colony_ship = planet.colony_ship - params.colony_ship;
    let arrive_ts = sat_add_i64(now, flight_seconds);
    let mission = MissionState {
        mission_type: params.mission_type,
        target_galaxy: params.target_galaxy,
        target_system: params.target_system,
        target_position: params.target_position,
        colony_name: name,
        depart_ts: now,
        arrive_ts,
        return_ts: 0,
        small_cargo: params.small_cargo,
        large_cargo: params.large_cargo,
        light_fighter: params.light_fighter,
        heavy_fighter: params.heavy_fighter,
        cruiser: params.cruiser,
        battleship: params.battleship,
        battlecruiser: params.battlecruiser,
        bomber: params.bomber,
        destroyer: params.destroyer,
        deathstar: params.deathstar,
        recycler: params.recycler,
        espionage_probe: params.espionage_probe,
        colony_ship: params.colony_ship,
        cargo_metal: params.cargo_metal,
        cargo_crystal: params.cargo_crystal,
        cargo_deuterium: params.cargo_deuterium,
        applied: false,
        speed_factor,
        combat_rounds: 0,
        attacker_won: false,
    };
    assert(mission == launched_mission(ps, *params, now, name));
    let ghost q = launched_planet(ps, *params, now);
    planet.set_mission(slot, mission);
    planet.active_missions = planet.active_missions.saturating_add(1);
    if mt == MISSION_ATTACK {
        planet.last_attack_launch_ts = now;
    }
    assert(planet.missions@ =~= q.missions@.update(slot_g, mission));
    assert(planet.missions =~= vstd::array::spec_array_update(q.missions, slot_g, mission));
    assert(*planet == PlanetState { missions: vstd::array::spec_array_update(q.missions, slot_g, mission), ..q });
    Ok(())
}

} // verus!
