//! Espionage: how much a probe mission reveals and how many probes it loses.
use vstd::prelude::*;

use crate::constants::{MAX_MISSIONS, MISSION_ESPIONAGE};
use crate::economy::{settle_fits, settle_resources, settle_spec};
use crate::error::GameStateError;
use crate::formulas::{fleet_combat_points, fleet_combat_points_spec};
use crate::num::{clamp_i64, clamp_u64, sat_add_i64, sat_mul, sat_sub_i64};
use crate::planet::{MissionState, PlanetState};

verus! {

/// Sum of the building levels of `p`.
pub open spec fn building_score_spec(p: PlanetState) -> int {
    p.metal_mine + p.crystal_mine + p.deuterium_synthesizer + p.solar_plant + p.fusion_reactor
        + p.robotics_factory + p.nanite_factory + p.shipyard + p.metal_storage + p.crystal_storage
        + p.deuterium_tank + p.research_lab + p.missile_silo
}

pub fn planet_building_score(planet: &PlanetState) -> (r: u64)
    ensures
        r == building_score_spec(*planet),
{
    let p = planet;
    p.metal_mine as u64 + p.crystal_mine as u64 + p.deuterium_synthesizer as u64 + p.solar_plant as u64
        + p.fusion_reactor as u64 + p.robotics_factory as u64 + p.nanite_factory as u64
        + p.shipyard as u64 + p.metal_storage as u64 + p.crystal_storage as u64
        + p.deuterium_tank as u64 + p.research_lab as u64 + p.missile_silo as u64
}

/// Combat points of the ships stationed at `p`.
pub open spec fn fleet_points_spec(p: PlanetState) -> int {
    fleet_combat_points_spec(
        p.light_fighter,
        p.heavy_fighter,
        p.cruiser,
        p.battleship,
        p.battlecruiser,
        p.bomber,
        p.destroyer,
        p.deathstar,
        p.small_cargo,
        p.large_cargo,
        p.recycler,
        p.espionage_probe,
        p.colony_ship,
    )
}

pub fn planet_fleet_points(planet: &PlanetState) -> (r: u64)
    ensures
        r == fleet_points_spec(*planet),
{
    fleet_combat_points(
        planet.light_fighter,
        planet.heavy_fighter,
        planet.cruiser,
        planet.battleship,
        planet.battlecruiser,
        planet.bomber,
        planet.destroyer,
        planet.deathstar,
        planet.small_cargo,
        planet.large_cargo,
        planet.recycler,
        planet.espionage_probe,
        planet.colony_ship,
    )
}

/// Defensive strength of the defenses at `p`.
pub open spec fn defense_points_spec(p: PlanetState) -> int {
    p.rocket_launcher * 80 + p.light_laser * 100 + p.heavy_laser * 250 + p.gauss_cannon * 1_100
        + p.ion_cannon * 250 + p.plasma_turret * 3_000 + p.small_shield_dome * 2_000
        + p.large_shield_dome * 10_000
}

pub fn planet_defense_points(planet: &PlanetState) -> (r: u64)
    ensures
        r == defense_points_spec(*planet),
{
    let p = planet;
    p.rocket_launcher as u64 * 80 + p.light_laser as u64 * 100 + p.heavy_laser as u64 * 250
        + p.gauss_cannon as u64 * 1_100 + p.ion_cannon as u64 * 250 + p.plasma_turret as u64 * 3_000
        + p.small_shield_dome as u64 * 2_000 + p.large_shield_dome as u64 * 10_000
}

/// Sensor strength of `probes` probes sent from `source`.
pub open spec fn sensor_score_spec(source: PlanetState, probes: u32) -> int {
    probes * 25 + source.computer_tech * 100 + source.astrophysics * 100
}

pub fn espionage_sensor_score(source: &PlanetState, probes: u32) -> (r: u64)
    ensures
        r == sensor_score_spec(*source, probes),
{
    probes as u64 * 25 + source.computer_tech as u64 * 100 + source.astrophysics as u64 * 100
}

/// Counter-espionage strength of `d`.
pub open spec fn counter_score_spec(d: PlanetState) -> int {
    d.computer_tech * 100 + d.shielding_technology * 50 + d.armor_technology * 50 + defense_points_spec(d)
        / 100 + fleet_points_spec(d) / 250
}

pub fn espionage_counter_score(destination: &PlanetState) -> (r: u64)
    ensures
        r == counter_score_spec(*destination),
{
    destination.computer_tech as u64 * 100 + destination.shielding_technology as u64 * 50
        + destination.armor_technology as u64 * 50 + planet_defense_points(destination) / 100
        + planet_fleet_points(destination) / 250
}

/// How much a report reveals (0 nothing .. 4 everything) given the two scores.
pub open spec fn reveal_level_spec(sensor: u64, counter: u64) -> u8 {
    if sensor >= counter.saturating_add(600) {
        4
    } else if sensor >= counter.saturating_add(200) {
        3
    } else if sensor >= clamp_u64(counter * 75) / 100 {
        2
    } else if sensor >= counter / 2 {
        1
    } else {
        0
    }
}

pub fn espionage_reveal_level(sensor_score: u64, counter_score: u64) -> (r: u8)
    ensures
        r == reveal_level_spec(sensor_score, counter_score),
        r <= 4,
{
    if sensor_score >= counter_score.saturating_add(600) {
        4
    } else if sensor_score >= counter_score.saturating_add(200) {
        3
    } else if sensor_score >= sat_mul(counter_score, 75) / 100 {
        2
    } else if sensor_score >= counter_score / 2 {
        1
    } else {
        0
    }
}

/// A resource amount as reported: hidden at level 0, rounded down to thousands at level 1.
pub open spec fn rounded_report_spec(value: u64, reveal_level: u8) -> u64 {
    if reveal_level == 0 {
        0
    } else if reveal_level == 1 {
        (value / 1_000 * 1_000) as u64
    } else {
        value
    }
}

pub fn rounded_resource_report(value: u64, reveal_level: u8) -> (r: u64)
    ensures
        r == rounded_report_spec(value, reveal_level),
{
    match reveal_level {
        0 => 0,
        1 => value / 1_000 * 1_000,
        _ => value,
    }
}

/// Probes lost: all of them when nothing is revealed; otherwise a share proportional to
/// the counter score's excess over the sensor score, always leaving one probe.
pub open spec fn probe_losses_spec(probes: u32, sensor: u64, counter: u64, reveal_level: u8) -> u32 {
    if probes == 0 {
        0
    } else if reveal_level == 0 {
        probes
    } else {
        let pressure = counter.saturating_sub(sensor);
        let loss = (clamp_u64(pressure * probes) as int / (if counter >= 1 {
            counter as int
        } else {
            1
        })) as u32;
        if loss <= probes - 1 {
            loss
        } else {
            (probes - 1) as u32
        }
    }
}

pub fn espionage_probe_losses(probes: u32, sensor_score: u64, counter_score: u64, reveal_level: u8) -> (r: u32)
    ensures
        r == probe_losses_spec(probes, sensor_score, counter_score, reveal_level),
        r <= probes,
{
    if probes == 0 {
        return 0;
    }
    if reveal_level == 0 {
        return probes;
    }
    let pressure = counter_score.saturating_sub(sensor_score);
    let divisor: u64 = if counter_score >= 1 {
        counter_score
    } else {
        1
    };
    let loss = (sat_mul(pressure, probes as u64) / divisor) as u32;
    let cap = probes - 1;
    if loss <= cap {
        loss
    } else {
        cap
    }
}

/// What an espionage report shows of the target.
#[derive(Clone, Copy)]
pub struct EspionageReport {
    pub reveal_level: u8,
    pub probes_sent: u32,
    pub probes_survived: u32,
    pub probes_lost: u32,
    pub sensor_score: u64,
    pub counter_score: u64,
    pub reported_metal: u64,
    pub reported_crystal: u64,
    pub reported_deuterium: u64,
    pub reported_building_score: u64,
    pub reported_fleet_points: u64,
    pub reported_defense_points: u64,
    pub reported_weapons_technology: u8,
    pub reported_shielding_technology: u8,
    pub reported_armor_technology: u8,
}

/// The report of a probe mission on `d`: resources from level 1 (rounded) and 2 (exact),
/// buildings from level 2, fleet and defenses from level 3, technologies at level 4.
pub open spec fn report_of(d: PlanetState, sent: u32, survived: u32, sensor: u64, counter: u64, level: u8) -> EspionageReport {
    EspionageReport {
        reveal_level: level,
        probes_sent: sent,
        probes_survived: survived,
        probes_lost: sent.saturating_sub(survived),
        sensor_score: sensor,
        counter_score: counter,
        reported_metal: rounded_report_spec(d.metal, level),
        reported_crystal: rounded_report_spec(d.crystal, level),
        reported_deuterium: rounded_report_spec(d.deuterium, level),
        reported_building_score: if level >= 2 { building_score_spec(d) as u64 } else { 0 },
        reported_fleet_points: if level >= 3 { fleet_points_spec(d) as u64 } else { 0 },
        reported_defense_points: if level >= 3 { defense_points_spec(d) as u64 } else { 0 },
        reported_weapons_technology: if level >= 4 { d.weapons_technology } else { 0 },
        reported_shielding_technology: if level >= 4 { d.shielding_technology } else { 0 },
        reported_armor_technology: if level >= 4 { d.armor_technology } else { 0 },
    }
}

pub fn espionage_report(
    destination: &PlanetState,
    probes_sent: u32,
    probes_survived: u32,
    sensor_score: u64,
    counter_score: u64,
    reveal_level: u8,
) -> (r: EspionageReport)
    ensures
        r == report_of(*destination, probes_sent, probes_survived, sensor_score, counter_score, reveal_level),
{
    let d = destination;
    EspionageReport {
        reveal_level,
        probes_sent,
        probes_survived,
        probes_lost: probes_sent.saturating_sub(probes_survived),
        sensor_score,
        counter_score,
        reported_metal: rounded_resource_report(d.metal, reveal_level),
        reported_crystal: rounded_resource_report(d.crystal, reveal_level),
        reported_deuterium: rounded_resource_report(d.deuterium, reveal_level),
        reported_building_score: if reveal_level >= 2 { planet_building_score(d) } else { 0 },
        reported_fleet_points: if reveal_level >= 3 { planet_fleet_points(d) } else { 0 },
        reported_defense_points: if reveal_level >= 3 { planet_defense_points(d) } else { 0 },
        reported_weapons_technology: if reveal_level >= 4 { d.weapons_technology } else { 0 },
        reported_shielding_technology: if reveal_level >= 4 { d.shielding_technology } else { 0 },
        reported_armor_technology: if reveal_level >= 4 { d.armor_technology } else { 0 },
    }
}

/// How an espionage mission was resolved.
pub enum EspionageResolution {
    /// The surviving probes were back home and have been unloaded.
    Returned,
    /// The probes reached the target and reported.
    Reported(EspionageReport),
}

/// Result of a resolution step: source, destination and outcome.
pub type EspionageStep = (PlanetState, PlanetState, Result<EspionageResolution, GameStateError>);

/// Resolution of the espionage mission in slot `slot` of `s0` against `d0` at `now`.
pub open spec fn resolve_espionage_spec(s0: PlanetState, d0: PlanetState, slot: int, now: i64) -> EspionageStep {
    let m = s0.missions[slot];
    let (s1, r1) = settle_spec(s0, now);
    let (d1, r2) = settle_spec(d0, now);
    let sent = m.espionage_probe;
    let sensor = sensor_score_spec(s1, sent) as u64;
    let counter = counter_score_spec(d1) as u64;
    let level = reveal_level_spec(sensor, counter);
    let lost = probe_losses_spec(sent, sensor, counter, level);
    let survived = (sent - lost) as u32;
    if slot < 0 || slot >= MAX_MISSIONS {
        (s0, d0, Err(GameStateError::InvalidMissionSlot))
    } else if m.mission_type != MISSION_ESPIONAGE {
        (s0, d0, Err(GameStateError::InvalidMission))
    } else if !(m.target_galaxy == d0.galaxy && m.target_system == d0.system && m.target_position == d0.position) {
        (s0, d0, Err(GameStateError::InvalidDestination))
    } else if s0.authority@ == d0.authority@ {
        (s0, d0, Err(GameStateError::CannotAttackOwnPlanet))
    } else if now < m.arrive_ts {
        (s0, d0, Err(GameStateError::MissionInFlight))
    } else if m.applied {
        if !(m.return_ts > 0 && now >= m.return_ts) {
            (s0, d0, Err(GameStateError::ReturnInFlight))
        } else if r1 is Err {
            (s1, d0, Err(r1->Err_0))
        } else if !s1.has_resource_room(m.cargo_metal, m.cargo_crystal, m.cargo_deuterium) {
            (s1, d0, Err(GameStateError::ResourceCapExceeded))
        } else {
            (s1.with_assets_returned(m).with_slot_cleared(slot), d0, Ok(EspionageResolution::Returned))
        }
    } else if r1 is Err {
        (s1, d0, Err(r1->Err_0))
    } else if r2 is Err {
        (s1, d1, Err(r2->Err_0))
    } else if sent == 0 {
        (s1, d1, Err(GameStateError::EmptyFleet))
    } else {
        let report = report_of(d1, sent, survived, sensor, counter, level);
        if survived == 0 {
            (s1.with_slot_cleared(slot), d1, Ok(EspionageResolution::Reported(report)))
        } else {
            let mission = MissionState {
                espionage_probe: survived,
                applied: true,
                return_ts: clamp_i64(now + (if clamp_i64(m.arrive_ts - m.depart_ts) >= 1 {
                    clamp_i64(m.arrive_ts - m.depart_ts)
                } else {
                    1
                })),
                ..m
            };
            (s1.with_slot(slot, mission), d1, Ok(EspionageResolution::Reported(report)))
        }
    }
}

/// Whether resolving the probe mission in slot `slot` gets as far as settling the source planet:
/// the slot holds probes that reached the right foreign target and are either arriving or back
/// home.
pub open spec fn espionage_settles_source(s0: PlanetState, d0: PlanetState, slot: int, now: i64) -> bool {
    let m = s0.missions[slot];
    &&& 0 <= slot < MAX_MISSIONS
    &&& m.mission_type == MISSION_ESPIONAGE
    &&& m.target_galaxy == d0.galaxy && m.target_system == d0.system && m.target_position == d0.position
    &&& s0.authority@ != d0.authority@
    &&& now >= m.arrive_ts
    &&& m.applied ==> m.return_ts > 0 && now >= m.return_ts
}

/// Whether it gets as far as settling the target planet: arriving probes, once the source has
/// settled.
pub open spec fn espionage_settles_destination(s0: PlanetState, d0: PlanetState, slot: int, now: i64) -> bool {
    &&& espionage_settles_source(s0, d0, slot, now)
    &&& !s0.missions[slot].applied
    &&& settle_spec(s0, now).1 is Ok
}

/// Resolves the espionage mission in slot `slot` of `source` at `now`: arriving probes
/// report on `destination` and the survivors turn home; returning probes are unloaded.
pub fn resolve_espionage_planets(
    source: &mut PlanetState,
    destination: &mut PlanetState,
    slot: usize,
    now: i64,
) -> (r: Result<EspionageResolution, GameStateError>)
    requires
        espionage_settles_source(*old(source), *old(destination), slot as int, now) ==> settle_fits(*old(source), now),
        espionage_settles_destination(*old(source), *old(destination), slot as int, now) ==> settle_fits(
            *old(destination),
            now,
        ),
    ensures
        (*final(source), *final(destination), r) == resolve_espionage_spec(
            *old(source),
            *old(destination),
            slot as int,
            now,
        ),
{
    if slot >= MAX_MISSIONS {
        return Err(GameStateError::InvalidMissionSlot);
    }
    let mut mission = source.mission(slot);
    if mission.mission_type != MISSION_ESPIONAGE {
        return Err(GameStateError::InvalidMission);
    }
    if !(mission.target_galaxy == destination.galaxy && mission.target_system == destination.system
        && mission.target_position == destination.position) {
        return Err(GameStateError::InvalidDestination);
    }
    if source.authority.same_as(&destination.authority) {
        return Err(GameStateError::CannotAttackOwnPlanet);
    }
    if now < mission.arrive_ts {
        return Err(GameStateError::MissionInFlight);
    }
    if mission.applied {
        if !(mission.return_ts > 0 && now >= mission.return_ts) {
            return Err(GameStateError::ReturnInFlight);
        }
        settle_resources(source, now)?;
        source.return_mission_assets(slot)?;
        source.clear_mission(slot);
        source.active_missions = source.active_missions.saturating_sub(1);
        return Ok(EspionageResolution::Returned);
    }
    settle_resources(source, now)?;
    settle_resources(destination, now)?;
    let probes_sent = mission.espionage_probe;
    if probes_sent == 0 {
        return Err(GameStateError::EmptyFleet);
    }
    let sensor_score = espionage_sensor_score(source, probes_sent);
    let counter_score = espionage_counter_score(destination);
    let reveal_level = espionage_reveal_level(sensor_score, counter_score);
    let probes_lost = espionage_probe_losses(probes_sent, sensor_score, counter_score, reveal_level);
    let probes_survived = probes_sent - probes_lost;
    let report = espionage_report(
        destination,
        probes_sent,
        probes_survived,
        sensor_score,
        counter_score,
        reveal_level,
    );
    if probes_survived == 0 {
        source.clear_mission(slot);
        source.active_missions = source.active_missions.saturating_sub(1);
        return Ok(EspionageResolution::Reported(report));
    }
    let flight = sat_sub_i64(mission.arrive_ts, mission.depart_ts);
    let back: i64 = if flight >= 1 {
        flight
    } else {
        1
    };
    mission.espionage_probe = probes_survived;
    mission.applied = true;
    mission.return_ts = sat_add_i64(now, back);
    source.set_mission(slot, mission);
    Ok(EspionageResolution::Reported(report))
}

} // verus!
