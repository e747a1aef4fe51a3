//! Resolving transport and colonization missions.
use vstd::prelude::*;

use crate::constants::{MAX_MISSIONS, MISSION_COLONIZE, MISSION_TRANSPORT};
use crate::economy::{settle_fits, settle_resources, settle_spec};
use crate::error::GameStateError;
use crate::formulas::{launch_fuel_cost, launch_fuel_cost_spec, valid_coordinates, validate_coordinates};
use crate::num::{clamp_i64, sat_add_i64, sat_sub_i64};
use crate::planet::{MissionState, PlanetState};

verus! {

/// Deuterium the ships of mission `m` burn on the way back.
pub open spec fn mission_return_fuel(m: MissionState) -> int {
    launch_fuel_cost_spec(
        m.light_fighter,
        m.heavy_fighter,
        m.cruiser,
        m.battleship,
        m.battlecruiser,
        m.bomber,
        m.destroyer,
        m.small_cargo,
        m.large_cargo,
        m.recycler,
        m.espionage_probe,
        m.colony_ship,
        m.speed_factor,
    )
}

fn mission_return_fuel_exec(m: &MissionState) -> (r: u64)
    ensures
        r == mission_return_fuel(*m),
{
    launch_fuel_cost(
        m.light_fighter,
        m.heavy_fighter,
        m.cruiser,
        m.battleship,
        m.battlecruiser,
        m.bomber,
        m.destroyer,
        m.deathstar,
        m.small_cargo,
        m.large_cargo,
        m.recycler,
        m.espionage_probe,
        m.colony_ship,
        m.speed_factor,
    )
}

/// The moment a mission that turns around at `now` is back: as long as the outward flight.
pub open spec fn homecoming(m: MissionState, now: i64) -> i64 {
    let d = clamp_i64(m.arrive_ts - m.depart_ts);
    clamp_i64(now + (if d >= 1 {
        d
    } else {
        1
    }))
}

fn homecoming_exec(m: &MissionState, now: i64) -> (r: i64)
    ensures
        r == homecoming(*m, now),
{
    let d = sat_sub_i64(m.arrive_ts, m.depart_ts);
    sat_add_i64(now, if d >= 1 {
        d
    } else {
        1
    })
}

/// `d` with the ships of `m` stationed there (saturating).
pub open spec fn with_ships_stationed(d: PlanetState, m: MissionState) -> PlanetState {
    d.with_ships_returned(m)
}

/// Result of a resolution step: source, destination and outcome.
pub type TransportStep = (PlanetState, PlanetState, Result<(), GameStateError>);

/// Resolution of the transport mission in slot `slot` of `s0` delivering to `d0` at `now`.
/// An arriving fleet unloads its cargo; between planets of one owner it stays at the
/// destination, otherwise it pays return fuel and flies home empty. A returning fleet
/// re-joins the source hangar.
pub open spec fn resolve_transport_spec(s0: PlanetState, d0: PlanetState, slot: int, now: i64) -> TransportStep {
    let m = s0.missions[slot];
    let (s1, r1) = settle_spec(s0, now);
    let (d1, r2) = settle_spec(d0, now);
    let fuel = mission_return_fuel(m);
    if slot < 0 || slot >= MAX_MISSIONS {
        (s0, d0, Err(GameStateError::InvalidMissionSlot))
    } else if m.mission_type != MISSION_TRANSPORT {
        (s0, d0, Err(GameStateError::InvalidMission))
    } else if !(m.target_galaxy == d0.galaxy && m.target_system == d0.system && m.target_position == d0.position) {
        (s0, d0, Err(GameStateError::InvalidDestination))
    } else if !m.applied {
        if now < m.arrive_ts {
            (s0, d0, Err(GameStateError::MissionInFlight))
        } else if r1 is Err {
            (s1, d0, r1)
        } else if r2 is Err {
            (s1, d1, r2)
        } else if !d1.has_resource_room(m.cargo_metal, m.cargo_crystal, m.cargo_deuterium) {
            (s1, d1, Err(GameStateError::ResourceCapExceeded))
        } else {
            let d2 = PlanetState {
                metal: (d1.metal + m.cargo_metal) as u64,
                crystal: (d1.crystal + m.cargo_crystal) as u64,
                deuterium: (d1.deuterium + m.cargo_deuterium) as u64,
                ..d1
            };
            if d0.authority@ == s0.authority@ {
                (s1.with_slot_cleared(slot), with_ships_stationed(d2, m), Ok(()))
            } else if s1.deuterium < fuel {
                (s1, d2, Err(GameStateError::InsufficientDeuterium))
            } else {
                let mission = MissionState {
                    cargo_metal: 0,
                    cargo_crystal: 0,
                    cargo_deuterium: 0,
                    return_ts: homecoming(m, now),
                    applied: true,
                    ..m
                };
                (PlanetState { deuterium: (s1.deuterium - fuel) as u64, ..s1 }.with_slot(slot, mission), d2, Ok(()))
            }
        }
    } else if !(m.return_ts > 0 && now >= m.return_ts) {
        (s0, d0, Err(GameStateError::ReturnInFlight))
    } else {
        (s0.with_ships_returned(m).with_slot_cleared(slot), d0, Ok(()))
    }
}

/// Whether resolving the transport in slot `slot` gets as far as settling the source planet: the
/// slot holds a transport to `d0` that has arrived and is not yet unloaded.
pub open spec fn transport_settles_source(s0: PlanetState, d0: PlanetState, slot: int, now: i64) -> bool {
    let m = s0.missions[slot];
    &&& 0 <= slot < MAX_MISSIONS
    &&& m.mission_type == MISSION_TRANSPORT
    &&& m.target_galaxy == d0.galaxy && m.target_system == d0.system && m.target_position == d0.position
    &&& !m.applied
    &&& now >= m.arrive_ts
}

/// Whether it gets as far as settling the destination: once the source has settled.
pub open spec fn transport_settles_destination(s0: PlanetState, d0: PlanetState, slot: int, now: i64) -> bool {
    transport_settles_source(s0, d0, slot, now) && settle_spec(s0, now).1 is Ok
}

/// Whether resolving the transport in slot `slot` without a destination gets as far as settling
/// the source: the transport has arrived, or has come back home.
pub open spec fn transport_empty_settles(s0: PlanetState, slot: int, now: i64) -> bool {
    let m = s0.missions[slot];
    &&& 0 <= slot < MAX_MISSIONS
    &&& m.mission_type == MISSION_TRANSPORT
    &&& if m.applied {
        m.return_ts > 0 && now >= m.return_ts
    } else {
        now >= m.arrive_ts
    }
}

pub fn resolve_transport_planets(
    source: &mut PlanetState,
    destination: &mut PlanetState,
    slot: usize,
    now: i64,
) -> (r: Result<(), GameStateError>)
    requires
        transport_settles_source(*old(source), *old(destination), slot as int, now) ==> settle_fits(*old(source), now),
        transport_settles_destination(*old(source), *old(destination), slot as int, now) ==> settle_fits(
            *old(destination),
            now,
        ),
    ensures
        (*final(source), *final(destination), r) == resolve_transport_spec(
            *old(source),
            *old(destination),
            slot as int,
            now,
        ),
{
    if slot >= MAX_MISSIONS {
        return Err(GameStateError::InvalidMissionSlot);
    }
    let mission = source.mission(slot);
    if mission.mission_type != MISSION_TRANSPORT {
        return Err(GameStateError::InvalidMission);
    }
    if !(mission.target_galaxy == destination.galaxy && mission.target_system == destination.system
        && mission.target_position == destination.position) {
        return Err(GameStateError::InvalidDestination);
    }
    if !mission.applied {
        if now < mission.arrive_ts {
            return Err(GameStateError::MissionInFlight);
        }
        settle_resources(source, now)?;
        settle_resources(destination, now)?;
        destination.credit_resources(mission.cargo_metal, mission.cargo_crystal, mission.cargo_deuterium)?;
        if destination.authority.same_as(&source.authority) {
            let d = destination;
            let m = mission;
            d.small_cargo = d.small_cargo.saturating_add(m.small_cargo);
            d.large_cargo = d.large_cargo.saturating_add(m.large_cargo);
            d.light_fighter = d.light_fighter.saturating_add(m.light_fighter);
            d.heavy_fighter = d.heavy_fighter.saturating_add(m.heavy_fighter);
            d.cruiser = d.cruiser.saturating_add(m.cruiser);
            d.battleship = d.battleship.saturating_add(m.battleship);
            d.battlecruiser = d.battlecruiser.saturating_add(m.battlecruiser);
            d.bomber = d.bomber.saturating_add(m.bomber);
            d.destroyer = d.destroyer.saturating_add(m.destroyer);
            d.deathstar = d.deathstar.saturating_add(m.deathstar);
            d.recycler = d.recycler.saturating_add(m.recycler);
            d.espionage_probe = d.espionage_probe.saturating_add(m.espionage_probe);
            d.colony_ship = d.colony_ship.saturating_add(m.colony_ship);
            source.clear_mission(slot);
            source.active_missions = source.active_missions.saturating_sub(1);
            return Ok(());
        }
        let return_fuel = mission_return_fuel_exec(&mission);
        if source.deuterium < return_fuel {
            return Err(GameStateError::InsufficientDeuterium);
        }
        source.deuterium = source.deuterium - return_fuel;
        let mut m2 = mission;
        m2.cargo_metal = 0;
        m2.cargo_crystal = 0;
        m2.cargo_deuterium = 0;
        m2.return_ts = homecoming_exec(&mission, now);
        m2.applied = true;
        source.set_mission(slot, m2);
        return Ok(());
    }
    if !(mission.return_ts > 0 && now >= mission.return_ts) {
        return Err(GameStateError::ReturnInFlight);
    }
    source.return_mission_ships_only(slot);
    source.clear_mission(slot);
    source.active_missions = source.active_missions.saturating_sub(1);
    Ok(())
}

/// Resolution of a transport mission whose destination slot is empty: the fleet turns
/// around with its cargo, and is unloaded at home when it is back.
pub open spec fn resolve_transport_empty_spec(s0: PlanetState, slot: int, now: i64) -> (PlanetState, Result<(), GameStateError>) {
    let m = s0.missions[slot];
    let (s1, r1) = settle_spec(s0, now);
    let fuel = mission_return_fuel(m);
    if slot < 0 || slot >= MAX_MISSIONS {
        (s0, Err(GameStateError::InvalidMissionSlot))
    } else if m.mission_type != MISSION_TRANSPORT {
        (s0, Err(GameStateError::InvalidMission))
    } else if !m.applied {
        if now < m.arrive_ts {
            (s0, Err(GameStateError::MissionInFlight))
        } else if r1 is Err {
            (s1, r1)
        } else if s1.deuterium < fuel {
            (s1, Err(GameStateError::InsufficientDeuterium))
        } else {
            let mission = MissionState { return_ts: homecoming(m, now), applied: true, ..m };
            (PlanetState { deuterium: (s1.deuterium - fuel) as u64, ..s1 }.with_slot(slot, mission), Ok(()))
        }
    } else if !(m.return_ts > 0 && now >= m.return_ts) {
        (s0, Err(GameStateError::ReturnInFlight))
    } else if r1 is Err {
        (s1, r1)
    } else if !s1.has_resource_room(m.cargo_metal, m.cargo_crystal, m.cargo_deuterium) {
        (s1, Err(GameStateError::ResourceCapExceeded))
    } else {
        (s1.with_assets_returned(m).with_slot_cleared(slot), Ok(()))
    }
}

pub fn resolve_transport_empty_slot(source: &mut PlanetState, slot: usize, now: i64) -> (r: Result<
    (),
    GameStateError,
>)
    requires
        transport_empty_settles(*old(source), slot as int, now) ==> settle_fits(*old(source), now),
    ensures
        (*final(source), r) == resolve_transport_empty_spec(*old(source), slot as int, now),
{
    if slot >= MAX_MISSIONS {
        return Err(GameStateError::InvalidMissionSlot);
    }
    let mission = source.mission(slot);
    if mission.mission_type != MISSION_TRANSPORT {
        return Err(GameStateError::InvalidMission);
    }
    if !mission.applied {
        if now < mission.arrive_ts {
            return Err(GameStateError::MissionInFlight);
        }
        settle_resources(source, now)?;
        let return_fuel = mission_return_fuel_exec(&mission);
        if source.deuterium < return_fuel {
            return Err(GameStateError::InsufficientDeuterium);
        }
        source.deuterium = source.deuterium - return_fuel;
        let mut m2 = mission;
        m2.return_ts = homecoming_exec(&mission, now);
        m2.applied = true;
        source.set_mission(slot, m2);
        return Ok(());
    }
    if !(mission.return_ts > 0 && now >= mission.return_ts) {
        return Err(GameStateError::ReturnInFlight);
    }
    settle_resources(source, now)?;
    source.return_mission_assets(slot)?;
    source.clear_mission(slot);
    source.active_missions = source.active_missions.saturating_sub(1);
    Ok(())
}

/// Resolution of a colonization mission: once arrived at valid, foreign coordinates with its
/// colony ship, the slot is freed (the colony itself is created separately).
pub open spec fn resolve_colonize_spec(s0: PlanetState, slot: int, now: i64) -> (PlanetState, Result<(), GameStateError>) {
    let m = s0.missions[slot];
    if slot < 0 || slot >= MAX_MISSIONS {
        (s0, Err(GameStateError::InvalidMissionSlot))
    } else if m.mission_type != MISSION_COLONIZE {
        (s0, Err(GameStateError::InvalidMission))
    } else if m.applied {
        (s0, Err(GameStateError::AlreadyResolved))
    } else if now < m.arrive_ts {
        (s0, Err(GameStateError::MissionInFlight))
    } else if m.colony_ship == 0 {
        (s0, Err(GameStateError::MissingColonyShip))
    } else if !valid_coordinates(m.target_galaxy, m.target_system, m.target_position) {
        (s0, Err(GameStateError::InvalidCoordinates))
    } else if s0.galaxy == m.target_galaxy && s0.system == m.target_system && s0.position == m.target_position {
        (s0, Err(GameStateError::InvalidDestination))
    } else {
        (s0.with_slot_cleared(slot), Ok(()))
    }
}

pub fn resolve_colonize_planet(source: &mut PlanetState, slot: usize, now: i64) -> (r: Result<
    (),
    GameStateError,
>)
    ensures
        (*final(source), r) == resolve_colonize_spec(*old(source), slot as int, now),
{
    if slot >= MAX_MISSIONS {
        return Err(GameStateError::InvalidMissionSlot);
    }
    let mission = source.mission(slot);
    if mission.mission_type != MISSION_COLONIZE {
        return Err(GameStateError::InvalidMission);
    }
    if mission.applied {
        return Err(GameStateError::AlreadyResolved);
    }
    if now < mission.arrive_ts {
        return Err(GameStateError::MissionInFlight);
    }
    if mission.colony_ship == 0 {
        return Err(GameStateError::MissingColonyShip);
    }
    validate_coordinates(mission.target_galaxy, mission.target_system, mission.target_position)?;
    if source.galaxy == mission.target_galaxy && source.system == mission.target_system
        && source.position == mission.target_position {
        return Err(GameStateError::InvalidDestination);
    }
    source.clear_mission(slot);
    source.active_missions = source.active_missions.saturating_sub(1);
    Ok(())
}

} // verus!
