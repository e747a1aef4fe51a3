//! Resource settlement, production rates and the building, research and shipyard queues.
use vstd::prelude::*;

use crate::constants::{MAX_RESOURCE_SETTLEMENT_SECONDS, QUEUE_IDLE};
use crate::error::GameStateError;
use crate::formulas::{
    build_seconds, build_seconds_spec, defense_build_seconds, defense_build_seconds_spec,
    defense_cost, defense_cost_spec, mine_rate, mine_rate_fits, mine_rate_spec, research_cost_for_level,
    research_cost_spec, research_lab_requirement, research_lab_requirement_spec, research_seconds,
    research_seconds_spec, ship_build_seconds, ship_build_seconds_spec, ship_cost, ship_cost_spec,
    solar_satellite_energy, solar_satellite_energy_spec, store_cap, store_cap_spec, upgrade_cost,
    upgrade_cost_fits, upgrade_cost_spec,
};
use crate::num::{clamp_u64, min_u64, sat_mul};
use crate::planet::PlanetState;
use crate::requirements::{
    building_gate, defense_gate, enforce_building_requirements, enforce_defense_requirements,
    enforce_research_requirements, enforce_ship_research_gate, research_gate, ship_gate,
};

verus! {

/// Efficiency (in ten-thousandths) with which mines run given the energy balance.
pub open spec fn energy_efficiency(p: PlanetState) -> int {
    if p.energy_consumption == 0 {
        10_000
    } else {
        let e = p.energy_production * 10_000 / p.energy_consumption as int;
        if e < 10_000 {
            e
        } else {
            10_000
        }
    }
}

/// A resource balance after `dt` seconds of production at `rate` per hour, capped at `cap`.
pub open spec fn produced_balance(current: u64, rate: u64, dt: int, eff: int, cap: u64) -> u64 {
    let produced = clamp_u64(clamp_u64(rate * dt) * eff) / 3600 / 10_000;
    min_u64(clamp_u64(current + produced), cap)
}

/// Seconds of production one settlement at `now` credits.
pub open spec fn settle_seconds(p: PlanetState, now: i64) -> int {
    let d = now - p.last_update_ts;
    if d < MAX_RESOURCE_SETTLEMENT_SECONDS {
        d
    } else {
        MAX_RESOURCE_SETTLEMENT_SECONDS as int
    }
}

/// The planet and the outcome after crediting production up to `now`.
pub open spec fn settle_spec(p: PlanetState, now: i64) -> (PlanetState, Result<(), GameStateError>) {
    if now < 0 {
        (p, Err(GameStateError::InvalidTimestamp))
    } else if p.last_update_ts <= 0 {
        (PlanetState { last_update_ts: now, ..p }, Ok(()))
    } else if now < p.last_update_ts {
        (p, Err(GameStateError::InvalidTimestamp))
    } else if now == p.last_update_ts {
        (p, Ok(()))
    } else {
        let dt = settle_seconds(p, now);
        let eff = energy_efficiency(p);
        (
            PlanetState {
                metal: produced_balance(p.metal, p.metal_hour, dt, eff, p.metal_cap),
                crystal: produced_balance(p.crystal, p.crystal_hour, dt, eff, p.crystal_cap),
                deuterium: produced_balance(p.deuterium, p.deuterium_hour, dt, eff, p.deuterium_cap),
                last_update_ts: now,
                ..p
            },
            Ok(()),
        )
    }
}

/// Whether settling at `now` runs without leaving the `u64` range.
pub open spec fn settle_fits(p: PlanetState, now: i64) -> bool {
    (now > p.last_update_ts && p.last_update_ts > 0 && p.energy_consumption != 0) ==> p.energy_production
        * 10_000 <= u64::MAX
}

fn produce_into(current: u64, rate: u64, dt: u64, eff: u64, cap: u64) -> (r: u64)
    ensures
        r == produced_balance(current, rate, dt as int, eff as int, cap),
{
    let produced = sat_mul(sat_mul(rate, dt), eff) / 3600 / 10_000;
    let total = current.saturating_add(produced);
    if total <= cap {
        total
    } else {
        cap
    }
}

/// Credits the production accumulated since the last settlement, capped by storage.
pub fn settle_resources(planet: &mut PlanetState, now: i64) -> (r: Result<(), GameStateError>)
    requires
        settle_fits(*old(planet), now),
    ensures
        (*final(planet), r) == settle_spec(*old(planet), now),
{
    if now < 0 {
        return Err(GameStateError::InvalidTimestamp);
    }
    if planet.last_update_ts <= 0 {
        planet.last_update_ts = now;
        return Ok(());
    }
    if now < planet.last_update_ts {
        return Err(GameStateError::InvalidTimestamp);
    }
    if now == planet.last_update_ts {
        return Ok(());
    }
    let d: i64 = now - planet.last_update_ts;
    let dt: u64 = if d < MAX_RESOURCE_SETTLEMENT_SECONDS {
        d as u64
    } else {
        MAX_RESOURCE_SETTLEMENT_SECONDS as u64
    };
    let eff: u64 = if planet.energy_consumption == 0 {
        10_000
    } else {
        let e = planet.energy_production * 10_000 / planet.energy_consumption;
        if e < 10_000 {
            e
        } else {
            10_000
        }
    };
    planet.metal = produce_into(planet.metal, planet.metal_hour, dt, eff, planet.metal_cap);
    planet.crystal = produce_into(planet.crystal, planet.crystal_hour, dt, eff, planet.crystal_cap);
    planet.deuterium = produce_into(
        planet.deuterium,
        planet.deuterium_hour,
        dt,
        eff,
        planet.deuterium_cap,
    );
    planet.last_update_ts = now;
    Ok(())
}

/// Temperature factor of the deuterium synthesizer: `max(240 - temperature, 0)`.
pub open spec fn temperature_factor(p: PlanetState) -> int {
    if 240 - p.temperature >= 0 {
        240 - p.temperature
    } else {
        0
    }
}

/// Energy that the fusion reactor yields, boosted by energy technology.
pub open spec fn fusion_energy(p: PlanetState) -> int {
    if p.fusion_reactor == 0 {
        0
    } else {
        clamp_u64((mine_rate_spec(p.fusion_reactor, 30) * 180 / 100) * (100 + p.energy_tech * 10))
            as int / 100
    }
}

/// Whether the rates of `p` can be recomputed without leaving the `u64` range.
pub open spec fn rates_fit(p: PlanetState) -> bool {
    &&& mine_rate_fits(p.metal_mine, 30)
    &&& mine_rate_fits(p.crystal_mine, 20)
    &&& mine_rate_fits(p.deuterium_synthesizer, 10)
    &&& mine_rate_spec(p.deuterium_synthesizer, 10) * temperature_factor(p) <= u64::MAX
    &&& mine_rate_fits(p.solar_plant, 20)
    &&& mine_rate_fits(p.fusion_reactor, 30)
    &&& mine_rate_spec(p.fusion_reactor, 30) * 180 <= u64::MAX
    &&& mine_rate_fits(p.metal_mine, 10)
    &&& mine_rate_fits(p.crystal_mine, 10)
    &&& mine_rate_fits(p.deuterium_synthesizer, 20)
    &&& mine_rate_spec(p.metal_mine, 10) + mine_rate_spec(p.crystal_mine, 10) + mine_rate_spec(
        p.deuterium_synthesizer,
        20,
    ) <= u64::MAX
    &&& p.metal_storage < 64 && store_cap_spec(p.metal_storage) <= u64::MAX
    &&& p.crystal_storage < 64 && store_cap_spec(p.crystal_storage) <= u64::MAX
    &&& p.deuterium_tank < 64 && store_cap_spec(p.deuterium_tank) <= u64::MAX
}

/// `p` with production, energy and storage figures derived from its levels.
pub open spec fn with_rates(p: PlanetState) -> PlanetState {
    let satellites = clamp_u64(solar_satellite_energy_spec(p.temperature) * p.solar_satellite);
    PlanetState {
        metal_hour: mine_rate_spec(p.metal_mine, 30) as u64,
        crystal_hour: mine_rate_spec(p.crystal_mine, 20) as u64,
        deuterium_hour: if p.deuterium_synthesizer == 0 {
            0
        } else {
            (mine_rate_spec(p.deuterium_synthesizer, 10) * temperature_factor(p) / 200) as u64
        },
        energy_production: clamp_u64(
            clamp_u64(mine_rate_spec(p.solar_plant, 20) + satellites) + fusion_energy(p),
        ),
        energy_consumption: (mine_rate_spec(p.metal_mine, 10) + mine_rate_spec(p.crystal_mine, 10)
            + mine_rate_spec(p.deuterium_synthesizer, 20)) as u64,
        metal_cap: store_cap_spec(p.metal_storage) as u64,
        crystal_cap: store_cap_spec(p.crystal_storage) as u64,
        deuterium_cap: store_cap_spec(p.deuterium_tank) as u64,
        ..p
    }
}

/// Recomputes hourly production, energy balance and storage caps from the planet's levels.
pub fn recalculate_rates(planet: &mut PlanetState)
    requires
        rates_fit(*old(planet)),
    ensures
        *final(planet) == with_rates(*old(planet)),
{
    planet.metal_hour = mine_rate(planet.metal_mine, 30);
    planet.crystal_hour = mine_rate(planet.crystal_mine, 20);
    let temp_factor: u64 = if 240i32 - planet.temperature as i32 >= 0 {
        (240i32 - planet.temperature as i32) as u64
    } else {
        0
    };
    planet.deuterium_hour = if planet.deuterium_synthesizer == 0 {
        0
    } else {
        mine_rate(planet.deuterium_synthesizer, 10) * temp_factor / 200
    };
    let solar_prod = mine_rate(planet.solar_plant, 20);
    let satellite_prod = sat_mul(
        solar_satellite_energy(planet.temperature),
        planet.solar_satellite as u64,
    );
    let fusion_prod: u64 = if planet.fusion_reactor == 0 {
        0
    } else {
        let base = mine_rate(planet.fusion_reactor, 30) * 180 / 100;
        sat_mul(base, 100 + planet.energy_tech as u64 * 10) / 100
    };
    planet.energy_production = solar_prod.saturating_add(satellite_prod).saturating_add(fusion_prod);
    let c1 = mine_rate(planet.metal_mine, 10);
    let c2 = mine_rate(planet.crystal_mine, 10);
    let c3 = mine_rate(planet.deuterium_synthesizer, 20);
    planet.energy_consumption = c1 + c2 + c3;
    planet.metal_cap = store_cap(planet.metal_storage);
    planet.crystal_cap = store_cap(planet.crystal_storage);
    planet.deuterium_cap = store_cap(planet.deuterium_tank);
}

/// Credits the production accumulated up to `now`.
pub fn produce_planet(planet: &mut PlanetState, now: i64) -> (r: Result<(), GameStateError>)
    requires
        settle_fits(*old(planet), now),
    ensures
        (*final(planet), r) == settle_spec(*old(planet), now),
{
    settle_resources(planet, now)
}

/// `p` with its building queue applied: the queued level set, rates recomputed, queue idle.
pub open spec fn with_build_completed(p: PlanetState) -> PlanetState {
    PlanetState {
        build_queue_item: QUEUE_IDLE,
        build_queue_target: 0,
        build_finish_ts: 0,
        ..with_rates(p.with_building_level(p.build_queue_item, p.build_queue_target))
    }
}

pub open spec fn finish_build_now_spec(p0: PlanetState, now: i64) -> (PlanetState, Result<(), GameStateError>) {
    let (p, r) = settle_spec(p0, now);
    if r is Err {
        (p, r)
    } else if p.build_finish_ts <= 0 {
        (p, Err(GameStateError::NoBuild))
    } else {
        (with_build_completed(p), Ok(()))
    }
}

/// Completes the queued building upgrade at `now`, whether or not its timer has run out.
pub fn finish_build_now(planet: &mut PlanetState, now: i64) -> (r: Result<(), GameStateError>)
    requires
        settle_fits(*old(planet), now),
        old(planet).build_finish_ts > 0 ==> rates_fit(
            old(planet).with_building_level(old(planet).build_queue_item, old(planet).build_queue_target),
        ),
    ensures
        (*final(planet), r) == finish_build_now_spec(*old(planet), now),
{
    settle_resources(planet, now)?;
    if planet.build_finish_ts <= 0 {
        return Err(GameStateError::NoBuild);
    }
    let idx = planet.build_queue_item;
    let level = planet.build_queue_target;
    planet.set_building_level(idx, level);
    recalculate_rates(planet);
    planet.build_queue_item = QUEUE_IDLE;
    planet.build_queue_target = 0;
    planet.build_finish_ts = 0;
    Ok(())
}

pub open spec fn finish_build_spec(p0: PlanetState, now: i64) -> (PlanetState, Result<(), GameStateError>) {
    if now < p0.build_finish_ts {
        (p0, Err(GameStateError::BuildNotFinished))
    } else {
        finish_build_now_spec(p0, now)
    }
}

/// Completes the queued building upgrade once its timer has run out.
pub fn finish_build_planet(planet: &mut PlanetState, now: i64) -> (r: Result<(), GameStateError>)
    requires
        now >= old(planet).build_finish_ts ==> settle_fits(*old(planet), now),
        (now >= old(planet).build_finish_ts && old(planet).build_finish_ts > 0) ==> rates_fit(
            old(planet).with_building_level(old(planet).build_queue_item, old(planet).build_queue_target),
        ),
    ensures
        (*final(planet), r) == finish_build_spec(*old(planet), now),
{
    if now < planet.build_finish_ts {
        return Err(GameStateError::BuildNotFinished);
    }
    finish_build_now(planet, now)
}

/// The checks a building upgrade must pass on the settled planet `p`.
pub open spec fn start_build_check(p: PlanetState, idx: u8, now: i64) -> Result<(), GameStateError> {
    let next = p.spec_building_level(idx).saturating_add(1);
    let cost = upgrade_cost_spec(idx, next as u64);
    if !(p.build_finish_ts == 0 || now >= p.build_finish_ts) {
        Err(GameStateError::QueueBusy)
    } else if !(p.used_fields < p.max_fields) {
        Err(GameStateError::NoFields)
    } else if building_gate(idx, p) is Err {
        building_gate(idx, p)
    } else if p.metal < cost.0 {
        Err(GameStateError::InsufficientMetal)
    } else if p.crystal < cost.1 {
        Err(GameStateError::InsufficientCrystal)
    } else if p.deuterium < cost.2 {
        Err(GameStateError::InsufficientDeuterium)
    } else {
        Ok(())
    }
}

pub open spec fn start_build_spec(p0: PlanetState, idx: u8, now: i64) -> (PlanetState, Result<(), GameStateError>) {
    let (p, r) = settle_spec(p0, now);
    let next = p.spec_building_level(idx).saturating_add(1);
    let cost = upgrade_cost_spec(idx, next as u64);
    if r is Err {
        (p, r)
    } else if start_build_check(p, idx, now) is Err {
        (p, start_build_check(p, idx, now))
    } else {
        (
            PlanetState {
                metal: (p.metal - cost.0) as u64,
                crystal: (p.crystal - cost.1) as u64,
                deuterium: (p.deuterium - cost.2) as u64,
                build_queue_item: idx,
                build_queue_target: next,
                build_finish_ts: (now + build_seconds_spec(idx, next as u64, p.robotics_factory as u64)) as i64,
                used_fields: p.used_fields.saturating_add(1),
                ..p
            },
            Ok(()),
        )
    }
}

/// Whether `start_build_planet` stays within machine ranges on `p0`.
pub open spec fn start_build_fits(p0: PlanetState, idx: u8, now: i64) -> bool {
    let next = p0.spec_building_level(idx).saturating_add(1);
    &&& settle_fits(p0, now)
    &&& upgrade_cost_fits(idx, next as u64)
    &&& (settle_spec(p0, now).1 is Ok && start_build_check(settle_spec(p0, now).0, idx, now) is Ok)
        ==> now + build_seconds_spec(idx, next as u64, p0.robotics_factory as u64) <= i64::MAX
}

/// Pays for and queues the next level of building `idx`.
pub fn start_build_planet(planet: &mut PlanetState, building_idx: u8, now: i64) -> (r: Result<
    (),
    GameStateError,
>)
    requires
        start_build_fits(*old(planet), building_idx, now),
    ensures
        (*final(planet), r) == start_build_spec(*old(planet), building_idx, now),
{
    settle_resources(planet, now)?;
    let current = planet.building_level(building_idx);
    let next = current.saturating_add(1);
    let (cm, cc, cd) = upgrade_cost(building_idx, next as u64);
    if !(planet.build_finish_ts == 0 || now >= planet.build_finish_ts) {
        return Err(GameStateError::QueueBusy);
    }
    if !(planet.used_fields < planet.max_fields) {
        return Err(GameStateError::NoFields);
    }
    enforce_building_requirements(building_idx, planet)?;
    if planet.metal < cm {
        return Err(GameStateError::InsufficientMetal);
    }
    if planet.crystal < cc {
        return Err(GameStateError::InsufficientCrystal);
    }
    if planet.deuterium < cd {
        return Err(GameStateError::InsufficientDeuterium);
    }
    planet.metal = planet.metal - cm;
    planet.crystal = planet.crystal - cc;
    planet.deuterium = planet.deuterium - cd;
    let dur = build_seconds(building_idx, next as u64, planet.robotics_factory as u64);
    planet.build_queue_item = building_idx;
    planet.build_queue_target = next;
    planet.build_finish_ts = now + dur;
    planet.used_fields = planet.used_fields.saturating_add(1);
    Ok(())
}

/// The checks a research order must pass on the settled planet `p`.
pub open spec fn start_research_check(p: PlanetState, tech_idx: u8) -> Result<(), GameStateError> {
    let cost = research_cost_spec(tech_idx, p.spec_research_level(tech_idx));
    if tech_idx > 9 {
        Err(GameStateError::InvalidTech)
    } else if p.research_lab < 1 {
        Err(GameStateError::LabTooLow)
    } else if p.build_queue_item == 11 && p.build_finish_ts > 0 {
        Err(GameStateError::ResearchQueueBusy)
    } else if p.research_queue_item != QUEUE_IDLE {
        Err(GameStateError::ResearchQueueBusy)
    } else if p.research_lab < research_lab_requirement_spec(tech_idx) {
        Err(GameStateError::LabTooLow)
    } else if research_gate(tech_idx, p) is Err {
        research_gate(tech_idx, p)
    } else if p.metal < cost.0 {
        Err(GameStateError::InsufficientMetal)
    } else if p.crystal < cost.1 {
        Err(GameStateError::InsufficientCrystal)
    } else if p.deuterium < cost.2 {
        Err(GameStateError::InsufficientDeuterium)
    } else {
        Ok(())
    }
}

pub open spec fn start_research_spec(p0: PlanetState, tech_idx: u8, now: i64) -> (PlanetState, Result<(), GameStateError>) {
    let (p, r) = settle_spec(p0, now);
    let current = p.spec_research_level(tech_idx);
    let next = current.saturating_add(1);
    let cost = research_cost_spec(tech_idx, current);
    if r is Err {
        (p, r)
    } else if start_research_check(p, tech_idx) is Err {
        (p, start_research_check(p, tech_idx))
    } else {
        (
            PlanetState {
                metal: (p.metal - cost.0) as u64,
                crystal: (p.crystal - cost.1) as u64,
                deuterium: (p.deuterium - cost.2) as u64,
                research_queue_item: tech_idx,
                research_queue_target: next,
                research_finish_ts: (now + research_seconds_spec(next, p.research_lab, p.igr_network)) as i64,
                ..p
            },
            Ok(()),
        )
    }
}

/// Pays for and queues the next level of technology `tech_idx`.
pub fn start_research_planet(planet: &mut PlanetState, tech_idx: u8, now: i64) -> (r: Result<
    (),
    GameStateError,
>)
    requires
        settle_fits(*old(planet), now),
        now <= i64::MAX - 255 * 1800,
    ensures
        (*final(planet), r) == start_research_spec(*old(planet), tech_idx, now),
{
    settle_resources(planet, now)?;
    if tech_idx > 9 {
        return Err(GameStateError::InvalidTech);
    }
    if planet.research_lab < 1 {
        return Err(GameStateError::LabTooLow);
    }
    if planet.build_queue_item == 11 && planet.build_finish_ts > 0 {
        return Err(GameStateError::ResearchQueueBusy);
    }
    if planet.research_queue_item != QUEUE_IDLE {
        return Err(GameStateError::ResearchQueueBusy);
    }
    let lab_req = research_lab_requirement(tech_idx);
    if planet.research_lab < lab_req {
        return Err(GameStateError::LabTooLow);
    }
    enforce_research_requirements(tech_idx, planet)?;
    let current = planet.research_level(tech_idx);
    let next = current.saturating_add(1);
    let (cm, cc, cd) = research_cost_for_level(tech_idx, current);
    if planet.metal < cm {
        return Err(GameStateError::InsufficientMetal);
    }
    if planet.crystal < cc {
        return Err(GameStateError::InsufficientCrystal);
    }
    if planet.deuterium < cd {
        return Err(GameStateError::InsufficientDeuterium);
    }
    planet.metal = planet.metal - cm;
    planet.crystal = planet.crystal - cc;
    planet.deuterium = planet.deuterium - cd;
    planet.research_queue_item = tech_idx;
    planet.research_queue_target = next;
    planet.research_finish_ts = now + research_seconds(next, planet.research_lab, planet.igr_network);
    Ok(())
}

/// `p` with its research queue applied: the queued level set, rates recomputed, queue idle.
pub open spec fn with_research_completed(p: PlanetState) -> PlanetState {
    PlanetState {
        research_queue_item: QUEUE_IDLE,
        research_queue_target: 0,
        research_finish_ts: 0,
        ..with_rates(p.with_research_level(p.research_queue_item, p.research_queue_target))
    }
}

pub open spec fn finish_research_now_spec(p0: PlanetState, now: i64) -> (PlanetState, Result<(), GameStateError>) {
    let (p, r) = settle_spec(p0, now);
    if r is Err {
        (p, r)
    } else if p.research_queue_item == QUEUE_IDLE {
        (p, Err(GameStateError::NoResearch))
    } else {
        (with_research_completed(p), Ok(()))
    }
}

/// Completes the queued research at `now`, whether or not its timer has run out.
pub fn finish_research_now(planet: &mut PlanetState, now: i64) -> (r: Result<(), GameStateError>)
    requires
        settle_fits(*old(planet), now),
        old(planet).research_queue_item != QUEUE_IDLE ==> rates_fit(
            old(planet).with_research_level(
                old(planet).research_queue_item,
                old(planet).research_queue_target,
            ),
        ),
    ensures
        (*final(planet), r) == finish_research_now_spec(*old(planet), now),
{
    settle_resources(planet, now)?;
    if planet.research_queue_item == QUEUE_IDLE {
        return Err(GameStateError::NoResearch);
    }
    let idx = planet.research_queue_item;
    let target = planet.research_queue_target;
    planet.set_research_level(idx, target);
    recalculate_rates(planet);
    planet.research_queue_item = QUEUE_IDLE;
    planet.research_queue_target = 0;
    planet.research_finish_ts = 0;
    Ok(())
}

pub open spec fn finish_research_spec(p0: PlanetState, now: i64) -> (PlanetState, Result<(), GameStateError>) {
    if now < p0.research_finish_ts {
        (p0, Err(GameStateError::ResearchNotFinished))
    } else {
        finish_research_now_spec(p0, now)
    }
}

/// Completes the queued research once its timer has run out.
pub fn finish_research_planet(planet: &mut PlanetState, now: i64) -> (r: Result<(), GameStateError>)
    requires
        now >= old(planet).research_finish_ts ==> settle_fits(*old(planet), now),
        (now >= old(planet).research_finish_ts && old(planet).research_queue_item != QUEUE_IDLE)
            ==> rates_fit(
            old(planet).with_research_level(
                old(planet).research_queue_item,
                old(planet).research_queue_target,
            ),
        ),
    ensures
        (*final(planet), r) == finish_research_spec(*old(planet), now),
{
    if now < planet.research_finish_ts {
        return Err(GameStateError::ResearchNotFinished);
    }
    finish_research_now(planet, now)
}

/// Whether the shipyard (building or queue) is free for a new batch on `p`.
pub open spec fn shipyard_free(p: PlanetState) -> bool {
    !(p.build_queue_item == 7 && p.build_finish_ts > 0) && p.ship_build_item == QUEUE_IDLE
        && p.defense_build_item == QUEUE_IDLE
}

/// The checks a defense order must pass once the planet `p` is settled.
pub open spec fn build_defense_check(p: PlanetState, defense_type: u8, quantity: u32) -> Result<(), GameStateError> {
    let (cm, cc, cd) = defense_cost_spec(defense_type);
    if !shipyard_free(p) {
        Err(GameStateError::ShipyardQueueBusy)
    } else if defense_gate(defense_type, p) is Err {
        defense_gate(defense_type, p)
    } else if cm == 0 && cc == 0 && cd == 0 {
        Err(GameStateError::InvalidDefenseType)
    } else if p.metal < cm * quantity {
        Err(GameStateError::InsufficientMetal)
    } else if p.crystal < cc * quantity {
        Err(GameStateError::InsufficientCrystal)
    } else if p.deuterium < cd * quantity {
        Err(GameStateError::InsufficientDeuterium)
    } else {
        Ok(())
    }
}

pub open spec fn build_defense_spec(p0: PlanetState, defense_type: u8, quantity: u32, now: i64) -> (PlanetState, Result<(), GameStateError>) {
    let (p, r) = settle_spec(p0, now);
    let (cm, cc, cd) = defense_cost_spec(defense_type);
    if quantity == 0 {
        (p0, Err(GameStateError::InvalidArgs))
    } else if !((defense_type != 6 && defense_type != 7) || quantity == 1) {
        (p0, Err(GameStateError::InvalidDefenseType))
    } else if r is Err {
        (p, r)
    } else if build_defense_check(p, defense_type, quantity) is Err {
        (p, build_defense_check(p, defense_type, quantity))
    } else {
        (
            PlanetState {
                metal: (p.metal - cm * quantity) as u64,
                crystal: (p.crystal - cc * quantity) as u64,
                deuterium: (p.deuterium - cd * quantity) as u64,
                defense_build_item: defense_type,
                defense_build_qty: quantity,
                defense_build_finish_ts: (now + defense_build_seconds_spec(
                    defense_type,
                    quantity,
                    p.shipyard,
                    p.nanite_factory,
                )) as i64,
                ..p
            },
            Ok(()),
        )
    }
}

/// Whether a defense order that passes its checks stays within machine ranges.
pub open spec fn build_defense_fits(p0: PlanetState, defense_type: u8, quantity: u32, now: i64) -> bool {
    &&& settle_fits(p0, now)
    &&& (quantity > 0 && settle_spec(p0, now).1 is Ok && build_defense_check(
        settle_spec(p0, now).0,
        defense_type,
        quantity,
    ) is Ok) ==> (p0.nanite_factory < 64 && now + defense_build_seconds_spec(
        defense_type,
        quantity,
        p0.shipyard,
        p0.nanite_factory,
    ) <= i64::MAX)
}

/// Pays for and queues `quantity` defenses of type `defense_type`.
pub fn build_defense_planet(planet: &mut PlanetState, defense_type: u8, quantity: u32, now: i64) -> (r:
    Result<(), GameStateError>)
    requires
        build_defense_fits(*old(planet), defense_type, quantity, now),
    ensures
        (*final(planet), r) == build_defense_spec(*old(planet), defense_type, quantity, now),
{
    if quantity == 0 {
        return Err(GameStateError::InvalidArgs);
    }
    if !((defense_type != 6 && defense_type != 7) || quantity == 1) {
        return Err(GameStateError::InvalidDefenseType);
    }
    settle_resources(planet, now)?;
    if planet.build_queue_item == 7 && planet.build_finish_ts > 0 {
        return Err(GameStateError::ShipyardQueueBusy);
    }
    if planet.ship_build_item != QUEUE_IDLE {
        return Err(GameStateError::ShipyardQueueBusy);
    }
    if planet.defense_build_item != QUEUE_IDLE {
        return Err(GameStateError::ShipyardQueueBusy);
    }
    enforce_defense_requirements(defense_type, planet)?;
    let (cm, cc, cd) = defense_cost(defense_type);
    if cm == 0 && cc == 0 && cd == 0 {
        return Err(GameStateError::InvalidDefenseType);
    }
    let total_m = cm * quantity as u64;
    let total_c = cc * quantity as u64;
    let total_d = cd * quantity as u64;
    if planet.metal < total_m {
        return Err(GameStateError::InsufficientMetal);
    }
    if planet.crystal < total_c {
        return Err(GameStateError::InsufficientCrystal);
    }
    if planet.deuterium < total_d {
        return Err(GameStateError::InsufficientDeuterium);
    }
    planet.metal = planet.metal - total_m;
    planet.crystal = planet.crystal - total_c;
    planet.deuterium = planet.deuterium - total_d;
    planet.defense_build_item = defense_type;
    planet.defense_build_qty = quantity;
    planet.defense_build_finish_ts = now + defense_build_seconds(
        defense_type,
        quantity,
        planet.shipyard,
        planet.nanite_factory,
    );
    Ok(())
}

pub open spec fn finish_defense_build_spec(p0: PlanetState, now: i64) -> (PlanetState, Result<(), GameStateError>) {
    let (p, r) = settle_spec(p0, now);
    if now < p0.defense_build_finish_ts {
        (p0, Err(GameStateError::DefenseBuildNotFinished))
    } else if r is Err {
        (p, r)
    } else if p.defense_build_item == QUEUE_IDLE || p.defense_build_finish_ts <= 0 {
        (p, Err(GameStateError::NoDefenseBuild))
    } else if p.defense_build_item > 9 {
        (p, Err(GameStateError::InvalidDefenseType))
    } else {
        (
            PlanetState {
                defense_build_item: QUEUE_IDLE,
                defense_build_qty: 0,
                defense_build_finish_ts: 0,
                ..p.with_defense_added(p.defense_build_item, p.defense_build_qty)
            },
            Ok(()),
        )
    }
}

/// Delivers the queued defenses once their timer has run out.
pub fn finish_defense_build_planet(planet: &mut PlanetState, now: i64) -> (r: Result<
    (),
    GameStateError,
>)
    requires
        now >= old(planet).defense_build_finish_ts ==> settle_fits(*old(planet), now),
    ensures
        (*final(planet), r) == finish_defense_build_spec(*old(planet), now),
{
    if now < planet.defense_build_finish_ts {
        return Err(GameStateError::DefenseBuildNotFinished);
    }
    settle_resources(planet, now)?;
    if planet.defense_build_item == QUEUE_IDLE {
        return Err(GameStateError::NoDefenseBuild);
    }
    if planet.defense_build_finish_ts <= 0 {
        return Err(GameStateError::NoDefenseBuild);
    }
    let defense_type = planet.defense_build_item;
    let quantity = planet.defense_build_qty;
    planet.add_defense(defense_type, quantity)?;
    planet.defense_build_item = QUEUE_IDLE;
    planet.defense_build_qty = 0;
    planet.defense_build_finish_ts = 0;
    Ok(())
}

/// The checks a ship order must pass once the planet `p` is settled.
pub open spec fn build_ship_check(p: PlanetState, ship_type: u8, quantity: u32) -> Result<(), GameStateError> {
    let (cm, cc, cd) = ship_cost_spec(ship_type);
    if p.shipyard < 1 {
        Err(GameStateError::ShipyardTooLow)
    } else if !shipyard_free(p) {
        Err(GameStateError::ShipyardQueueBusy)
    } else if ship_gate(ship_type, p) is Err {
        ship_gate(ship_type, p)
    } else if cm == 0 && cc == 0 && cd == 0 && ship_type != 11 {
        Err(GameStateError::InvalidShipType)
    } else if p.metal < cm * quantity {
        Err(GameStateError::InsufficientMetal)
    } else if p.crystal < cc * quantity {
        Err(GameStateError::InsufficientCrystal)
    } else if p.deuterium < cd * quantity {
        Err(GameStateError::InsufficientDeuterium)
    } else {
        Ok(())
    }
}

pub open spec fn build_ship_spec(p0: PlanetState, ship_type: u8, quantity: u32, now: i64) -> (PlanetState, Result<(), GameStateError>) {
    let (p, r) = settle_spec(p0, now);
    let (cm, cc, cd) = ship_cost_spec(ship_type);
    if quantity == 0 {
        (p0, Err(GameStateError::InvalidArgs))
    } else if r is Err {
        (p, r)
    } else if build_ship_check(p, ship_type, quantity) is Err {
        (p, build_ship_check(p, ship_type, quantity))
    } else {
        (
            PlanetState {
                metal: (p.metal - cm * quantity) as u64,
                crystal: (p.crystal - cc * quantity) as u64,
                deuterium: (p.deuterium - cd * quantity) as u64,
                ship_build_item: ship_type,
                ship_build_qty: quantity,
                ship_build_finish_ts: (now + ship_build_seconds_spec(
                    ship_type,
                    quantity,
                    p.shipyard,
                    p.nanite_factory,
                )) as i64,
                ..p
            },
            Ok(()),
        )
    }
}

/// Whether a ship order that passes its checks stays within machine ranges.
pub open spec fn build_ship_fits(p0: PlanetState, ship_type: u8, quantity: u32, now: i64) -> bool {
    &&& quantity > 0 ==> settle_fits(p0, now)
    &&& (quantity > 0 && settle_spec(p0, now).1 is Ok && build_ship_check(
        settle_spec(p0, now).0,
        ship_type,
        quantity,
    ) is Ok) ==> (p0.nanite_factory < 64 && now + ship_build_seconds_spec(
        ship_type,
        quantity,
        p0.shipyard,
        p0.nanite_factory,
    ) <= i64::MAX)
}

/// Pays for and queues `quantity` ships of type `ship_type`.
pub fn build_ship_planet(planet: &mut PlanetState, ship_type: u8, quantity: u32, now: i64) -> (r: Result<
    (),
    GameStateError,
>)
    requires
        build_ship_fits(*old(planet), ship_type, quantity, now),
    ensures
        (*final(planet), r) == build_ship_spec(*old(planet), ship_type, quantity, now),
{
    if quantity == 0 {
        return Err(GameStateError::InvalidArgs);
    }
    settle_resources(planet, now)?;
    if planet.shipyard < 1 {
        return Err(GameStateError::ShipyardTooLow);
    }
    if planet.build_queue_item == 7 && planet.build_finish_ts > 0 {
        return Err(GameStateError::ShipyardQueueBusy);
    }
    if planet.ship_build_item != QUEUE_IDLE {
        return Err(GameStateError::ShipyardQueueBusy);
    }
    if planet.defense_build_item != QUEUE_IDLE {
        return Err(GameStateError::ShipyardQueueBusy);
    }
    enforce_ship_research_gate(ship_type, planet)?;
    let (cm, cc, cd) = ship_cost(ship_type);
    if cm == 0 && cc == 0 && cd == 0 && ship_type != 11 {
        return Err(GameStateError::InvalidShipType);
    }
    let total_m = cm * quantity as u64;
    let total_c = cc * quantity as u64;
    let total_d = cd * quantity as u64;
    if planet.metal < total_m {
        return Err(GameStateError::InsufficientMetal);
    }
    if planet.crystal < total_c {
        return Err(GameStateError::InsufficientCrystal);
    }
    if planet.deuterium < total_d {
        return Err(GameStateError::InsufficientDeuterium);
    }
    planet.metal = planet.metal - total_m;
    planet.crystal = planet.crystal - total_c;
    planet.deuterium = planet.deuterium - total_d;
    let dur = ship_build_seconds(ship_type, quantity, planet.shipyard, planet.nanite_factory);
    planet.ship_build_item = ship_type;
    planet.ship_build_qty = quantity;
    planet.ship_build_finish_ts = now + dur;
    Ok(())
}

pub open spec fn finish_ship_build_now_spec(p0: PlanetState, now: i64) -> (PlanetState, Result<(), GameStateError>) {
    let (p, r) = settle_spec(p0, now);
    let added = p.with_ship_added(p.ship_build_item, p.ship_build_qty);
    let delivered = if p.ship_build_item == 13 {
        with_rates(added)
    } else {
        added
    };
    if r is Err {
        (p, r)
    } else if p.ship_build_item == QUEUE_IDLE || p.ship_build_finish_ts <= 0 {
        (p, Err(GameStateError::NoShipBuild))
    } else if p.ship_build_item > 13 {
        (p, Err(GameStateError::InvalidShipType))
    } else {
        (
            PlanetState {
                ship_build_item: QUEUE_IDLE,
                ship_build_qty: 0,
                ship_build_finish_ts: 0,
                ..delivered
            },
            Ok(()),
        )
    }
}

/// Delivers the queued ships at `now`, whether or not their timer has run out.
pub fn finish_ship_build_now(planet: &mut PlanetState, now: i64) -> (r: Result<(), GameStateError>)
    requires
        settle_fits(*old(planet), now),
        old(planet).ship_build_item == 13 ==> rates_fit(
            old(planet).with_ship_added(13, old(planet).ship_build_qty),
        ),
    ensures
        (*final(planet), r) == finish_ship_build_now_spec(*old(planet), now),
{
    settle_resources(planet, now)?;
    if planet.ship_build_item == QUEUE_IDLE {
        return Err(GameStateError::NoShipBuild);
    }
    if planet.ship_build_finish_ts <= 0 {
        return Err(GameStateError::NoShipBuild);
    }
    let ship_type = planet.ship_build_item;
    let quantity = planet.ship_build_qty;
    planet.add_ship(ship_type, quantity)?;
    if ship_type == 13 {
        recalculate_rates(planet);
    }
    planet.ship_build_item = QUEUE_IDLE;
    planet.ship_build_qty = 0;
    planet.ship_build_finish_ts = 0;
    Ok(())
}

pub open spec fn finish_ship_build_spec(p0: PlanetState, now: i64) -> (PlanetState, Result<(), GameStateError>) {
    if now < p0.ship_build_finish_ts {
        (p0, Err(GameStateError::ShipBuildNotFinished))
    } else {
        finish_ship_build_now_spec(p0, now)
    }
}

/// Delivers the queued ships once their timer has run out.
pub fn finish_ship_build_planet(planet: &mut PlanetState, now: i64) -> (r: Result<(), GameStateError>)
    requires
        now >= old(planet).ship_build_finish_ts ==> settle_fits(*old(planet), now),
        (now >= old(planet).ship_build_finish_ts && old(planet).ship_build_item == 13) ==> rates_fit(
            old(planet).with_ship_added(13, old(planet).ship_build_qty),
        ),
    ensures
        (*final(planet), r) == finish_ship_build_spec(*old(planet), now),
{
    if now < planet.ship_build_finish_ts {
        return Err(GameStateError::ShipBuildNotFinished);
    }
    finish_ship_build_now(planet, now)
}

} // verus!
