//! Resolving an attack mission: the battle at the target and the return of the survivors.
use vstd::prelude::*;

use crate::combat::{
    attacker_debris, attacker_stacks_spec, battle, battle_aftermath, build_attacker_stacks,
    build_defender_stacks, collect_debris, collect_spec, defender_aftermath, defender_stacks_spec,
    defense_counts, fleet_counts, fleet_counts_from_stacks, plunder_resources,
    plunder_spec, run_battle, total_stack_units, units, with_survivors, apply_defender_survivors,
};
use crate::constants::{
    MAX_MISSIONS, MISSION_ATTACK, NEW_PLAYER_PROTECTION_SECONDS, TARGET_ATTACK_COOLDOWN_SECONDS,
};
use crate::economy::{settle_fits, settle_resources, settle_spec};
use crate::error::GameStateError;
use crate::formulas::{cargo_capacity, cargo_capacity_spec, launch_fuel_cost, launch_fuel_cost_spec};
use crate::num::{clamp_i64, sat_add_i64, sat_sub_i64};
use crate::planet::{MissionState, PlanetCoordinates, PlanetState};

verus! {

/// What a battle produced, for the report that is published about it.
#[derive(Clone, Copy)]
pub struct BattleReport {
    pub combat_rounds: u8,
    pub attacker_won: bool,
    pub attacker_destroyed: bool,
    pub defender_survived: bool,
    pub loot_metal: u64,
    pub loot_crystal: u64,
    pub loot_deuterium: u64,
    pub debris_metal: u64,
    pub debris_crystal: u64,
    pub recycled_metal: u64,
    pub recycled_crystal: u64,
    pub attacker_small_cargo: u32,
    pub attacker_large_cargo: u32,
    pub attacker_light_fighter: u32,
    pub attacker_heavy_fighter: u32,
    pub attacker_cruiser: u32,
    pub attacker_battleship: u32,
    pub attacker_battlecruiser: u32,
    pub attacker_bomber: u32,
    pub attacker_destroyer: u32,
    pub attacker_deathstar: u32,
    pub attacker_recycler: u32,
    pub attacker_espionage_probe: u32,
    pub attacker_colony_ship: u32,
}

/// The report of a battle with the given figures and attacker survivors `s`.
pub open spec fn report_spec(
    rounds: u8,
    won: bool,
    destroyed: bool,
    defender_survived: bool,
    loot: (u64, u64, u64),
    debris: (u64, u64),
    recycled: (u64, u64),
    s: Seq<u32>,
) -> BattleReport {
    BattleReport {
        combat_rounds: rounds,
        attacker_won: won,
        attacker_destroyed: destroyed,
        defender_survived,
        loot_metal: loot.0,
        loot_crystal: loot.1,
        loot_deuterium: loot.2,
        debris_metal: debris.0,
        debris_crystal: debris.1,
        recycled_metal: recycled.0,
        recycled_crystal: recycled.1,
        attacker_small_cargo: s[0],
        attacker_large_cargo: s[1],
        attacker_light_fighter: s[2],
        attacker_heavy_fighter: s[3],
        attacker_cruiser: s[4],
        attacker_battleship: s[5],
        attacker_battlecruiser: s[6],
        attacker_bomber: s[7],
        attacker_destroyer: s[8],
        attacker_deathstar: s[9],
        attacker_recycler: s[10],
        attacker_espionage_probe: s[11],
        attacker_colony_ship: s[12],
    }
}

fn make_report(
    rounds: u8,
    won: bool,
    destroyed: bool,
    defender_survived: bool,
    loot: (u64, u64, u64),
    debris: (u64, u64),
    recycled: (u64, u64),
    s: &[u32; 14],
) -> (r: BattleReport)
    ensures
        r == report_spec(rounds, won, destroyed, defender_survived, loot, debris, recycled, s@),
{
    BattleReport {
        combat_rounds: rounds,
        attacker_won: won,
        attacker_destroyed: destroyed,
        defender_survived,
        loot_metal: loot.0,
        loot_crystal: loot.1,
        loot_deuterium: loot.2,
        debris_metal: debris.0,
        debris_crystal: debris.1,
        recycled_metal: recycled.0,
        recycled_crystal: recycled.1,
        attacker_small_cargo: s[0],
        attacker_large_cargo: s[1],
        attacker_light_fighter: s[2],
        attacker_heavy_fighter: s[3],
        attacker_cruiser: s[4],
        attacker_battleship: s[5],
        attacker_battlecruiser: s[6],
        attacker_bomber: s[7],
        attacker_destroyer: s[8],
        attacker_deathstar: s[9],
        attacker_recycler: s[10],
        attacker_espionage_probe: s[11],
        attacker_colony_ship: s[12],
    }
}

/// How an attack mission was resolved.
pub enum AttackResolution {
    /// The fleet was back home and has been unloaded.
    Returned,
    /// The fleet arrived and fought.
    Battle(BattleReport),
}

/// Until when planet `p` is protected from attacks: its explicit protection, or the
/// new-player protection counted from its creation.
pub open spec fn protection_until(p: PlanetState) -> i64 {
    let beginner = if p.created_at > 0 {
        clamp_i64(p.created_at + NEW_PLAYER_PROTECTION_SECONDS)
    } else {
        0
    };
    if p.protection_until_ts >= beginner {
        p.protection_until_ts
    } else {
        beginner
    }
}

pub fn effective_attack_protection_until(planet: &PlanetState) -> (r: i64)
    ensures
        r == protection_until(*planet),
{
    let beginner_until: i64 = if planet.created_at > 0 {
        sat_add_i64(planet.created_at, NEW_PLAYER_PROTECTION_SECONDS)
    } else {
        0
    };
    if planet.protection_until_ts >= beginner_until {
        planet.protection_until_ts
    } else {
        beginner_until
    }
}

/// Deuterium the surviving ships burn on the way back.
pub open spec fn return_fuel(s: Seq<u32>, speed_factor: u8) -> int {
    launch_fuel_cost_spec(s[2], s[3], s[4], s[5], s[6], s[7], s[8], s[0], s[1], s[10], s[11], s[12], speed_factor)
}

/// Seconds of the return flight: as long as the outward flight, at least one.
pub open spec fn return_flight(m: MissionState) -> i64 {
    let d = clamp_i64(m.arrive_ts - m.depart_ts);
    if d >= 1 {
        d
    } else {
        1
    }
}

/// Whether the attacking fleet and the target planet meet the conditions for a battle.
pub open spec fn attack_precheck(s: PlanetState, d: PlanetState, c: PlanetCoordinates, m: MissionState, now: i64) -> Result<(), GameStateError> {
    if d.authority@ == s.authority@ {
        Err(GameStateError::CannotAttackOwnPlanet)
    } else if !(d.galaxy == m.target_galaxy && d.system == m.target_system && d.position == m.target_position) {
        Err(GameStateError::InvalidDestination)
    } else if !(c.galaxy == d.galaxy && c.system == d.system && c.position == d.position) {
        Err(GameStateError::InvalidDestination)
    } else if now < m.arrive_ts {
        Err(GameStateError::MissionInFlight)
    } else if now < protection_until(d) {
        Err(GameStateError::NewPlayerProtected)
    } else if !(d.last_attacked_ts == 0 || now >= clamp_i64(d.last_attacked_ts + TARGET_ATTACK_COOLDOWN_SECONDS)) {
        Err(GameStateError::TargetCooldown)
    } else {
        Ok(())
    }
}

/// Result of a resolution step: source, destination, coordinates and outcome.
pub type AttackStep = (PlanetState, PlanetState, PlanetCoordinates, Result<AttackResolution, GameStateError>);

/// Resolution of a mission that is flying home: unload it once it is back.
pub open spec fn attack_return_spec(s0: PlanetState, d0: PlanetState, c0: PlanetCoordinates, slot: int, now: i64) -> AttackStep {
    let m = s0.missions[slot];
    let (s1, r1) = settle_spec(s0, now);
    if !(m.return_ts > 0 && now >= m.return_ts) {
        (s0, d0, c0, Err(GameStateError::ReturnInFlight))
    } else if r1 is Err {
        (s1, d0, c0, Err(r1->Err_0))
    } else if !s1.has_resource_room(m.cargo_metal, m.cargo_crystal, m.cargo_deuterium) {
        (s1, d0, c0, Err(GameStateError::ResourceCapExceeded))
    } else {
        (s1.with_assets_returned(m).with_slot_cleared(slot), d0, c0, Ok(AttackResolution::Returned))
    }
}

/// The attacker's view after a battle that left survivors `surv`: fuel paid, loot and
/// debris loaded when it won, and the mission turned around.
pub open spec fn attack_homeward(
    s1: PlanetState,
    d3: PlanetState,
    c1: PlanetCoordinates,
    m: MissionState,
    slot: int,
    now: i64,
    surv: Seq<u32>,
    rounds: u8,
    won: bool,
    defender_survived: bool,
    dm: u64,
    dc: u64,
) -> AttackStep {
    let fuel = return_fuel(surv, m.speed_factor);
    let cap = cargo_capacity_spec(surv[0], surv[1], surv[10], surv[4], surv[5]);
    let launched = m.cargo_metal.saturating_add(m.cargo_crystal).saturating_add(m.cargo_deuterium);
    let room = (cap as u64).saturating_sub(launched);
    let loot = if won { plunder_spec(d3, room) } else { (0u64, 0u64, 0u64) };
    let d4 = PlanetState {
        metal: (d3.metal - loot.0) as u64,
        crystal: (d3.crystal - loot.1) as u64,
        deuterium: (d3.deuterium - loot.2) as u64,
        ..d3
    };
    let cm = m.cargo_metal.saturating_add(loot.0);
    let cc = m.cargo_crystal.saturating_add(loot.1);
    let cd = m.cargo_deuterium.saturating_add(loot.2);
    let used = cm.saturating_add(cc).saturating_add(cd);
    let rec = if won { collect_spec(c1, (cap as u64).saturating_sub(used), surv[10]) } else { (0u64, 0u64) };
    let c2 = PlanetCoordinates {
        debris_metal: (c1.debris_metal - rec.0) as u64,
        debris_crystal: (c1.debris_crystal - rec.1) as u64,
        ..c1
    };
    let mission = MissionState {
        small_cargo: surv[0],
        large_cargo: surv[1],
        light_fighter: surv[2],
        heavy_fighter: surv[3],
        cruiser: surv[4],
        battleship: surv[5],
        battlecruiser: surv[6],
        bomber: surv[7],
        destroyer: surv[8],
        deathstar: surv[9],
        recycler: surv[10],
        espionage_probe: surv[11],
        colony_ship: surv[12],
        cargo_metal: if won { cm.saturating_add(rec.0) } else { 0 },
        cargo_crystal: if won { cc.saturating_add(rec.1) } else { 0 },
        cargo_deuterium: if won { cd } else { 0 },
        return_ts: clamp_i64(now + return_flight(m)),
        combat_rounds: rounds,
        attacker_won: won,
        applied: true,
        ..m
    };
    if s1.deuterium < fuel {
        (s1, d3, c1, Err(GameStateError::InsufficientDeuterium))
    } else {
        (
            PlanetState { deuterium: (s1.deuterium - fuel) as u64, ..s1 }.with_slot(slot, mission),
            d4,
            c2,
            Ok(AttackResolution::Battle(report_spec(rounds, won, false, defender_survived, loot, (dm, dc), rec, surv))),
        )
    }
}

/// Sum of a sequence of counts.
pub open spec fn seq_sum(s: Seq<u32>) -> int
    decreases s.len(),
{
    if s.len() == 0 {
        0
    } else {
        seq_sum(s.drop_last()) + s.last()
    }
}

/// Resolution of a mission that has arrived: fight, then send the survivors home.
pub open spec fn attack_battle_spec(s0: PlanetState, d0: PlanetState, c0: PlanetCoordinates, slot: int, now: i64) -> AttackStep {
    let m = s0.missions[slot];
    let (s1, r1) = settle_spec(s0, now);
    let (d1, r2) = settle_spec(d0, now);
    let d2 = PlanetState { last_attacked_ts: now, ..d1 };
    let att0 = attacker_stacks_spec(m, s1);
    let def0 = defender_stacks_spec(d2);
    let (att, def, rounds) = battle(att0, def0, 0, 0);
    let surv = fleet_counts(att);
    let defender_survived = units(def) > 0;
    let (am, ac) = attacker_debris(att0, att, att0.len());
    let (f, g, dm, dc) = defender_aftermath(def0, def, def0.len(), fleet_counts(def), defense_counts(def), am, ac);
    let c1 = PlanetCoordinates {
        debris_metal: c0.debris_metal.saturating_add(dm),
        debris_crystal: c0.debris_crystal.saturating_add(dc),
        ..c0
    };
    let d3 = with_survivors(d2, f, g);
    if attack_precheck(s0, d0, c0, m, now) is Err {
        (s0, d0, c0, Err(attack_precheck(s0, d0, c0, m, now)->Err_0))
    } else if r1 is Err {
        (s1, d0, c0, Err(r1->Err_0))
    } else if r2 is Err {
        (s1, d1, c0, Err(r2->Err_0))
    } else if seq_sum(surv) == 0 {
        (
            s1.with_slot_cleared(slot),
            d3,
            c1,
            Ok(AttackResolution::Battle(report_spec(rounds as u8, false, true, defender_survived, (0, 0, 0), (dm, dc), (0, 0), surv))),
        )
    } else {
        attack_homeward(s1, d3, c1, m, slot, now, surv, rounds as u8, !defender_survived, defender_survived, dm, dc)
    }
}

/// Resolution of the attack mission in slot `slot` of `s0` at `now`.
pub open spec fn resolve_attack_spec(s0: PlanetState, d0: PlanetState, c0: PlanetCoordinates, slot: int, now: i64) -> AttackStep {
    if slot < 0 || slot >= MAX_MISSIONS {
        (s0, d0, c0, Err(GameStateError::InvalidMissionSlot))
    } else if s0.missions[slot].mission_type != MISSION_ATTACK {
        (s0, d0, c0, Err(GameStateError::InvalidMission))
    } else if s0.missions[slot].applied {
        attack_return_spec(s0, d0, c0, slot, now)
    } else {
        attack_battle_spec(s0, d0, c0, slot, now)
    }
}

fn sum_counts(s: &[u32; 14]) -> (r: u64)
    ensures
        r == seq_sum(s@),
{
    let mut total: u64 = 0;
    let mut i: usize = 0;
    while i < 14
        invariant
            i <= 14,
            total == seq_sum(s@.take(i as int)),
            total <= i * 0xffff_ffff,
        decreases 14 - i,
    {
        assert(s@.take(i + 1).drop_last() =~= s@.take(i as int));
        total = total + s[i] as u64;
        i = i + 1;
    }
    assert(s@.take(14) =~= s@);
    total
}

fn attack_send_home(
    source: &mut PlanetState,
    destination: &mut PlanetState,
    coords: &mut PlanetCoordinates,
    slot: usize,
    now: i64,
    m: MissionState,
    surv: &[u32; 14],
    rounds: u8,
    won: bool,
    defender_survived: bool,
    dm: u64,
    dc: u64,
) -> (r: Result<AttackResolution, GameStateError>)
    requires
        slot < MAX_MISSIONS,
    ensures
        (*final(source), *final(destination), *final(coords), r) == attack_homeward(
            *old(source),
            *old(destination),
            *old(coords),
            m,
            slot as int,
            now,
            surv@,
            rounds,
            won,
            defender_survived,
            dm,
            dc,
        ),
{
    let return_flight_seconds: i64 = {
        let d = sat_sub_i64(m.arrive_ts, m.depart_ts);
        if d >= 1 {
            d
        } else {
            1
        }
    };
    let fuel = launch_fuel_cost(
        surv[2],
        surv[3],
        surv[4],
        surv[5],
        surv[6],
        surv[7],
        surv[8],
        surv[9],
        surv[0],
        surv[1],
        surv[10],
        surv[11],
        surv[12],
        m.speed_factor,
    );
    if source.deuterium < fuel {
        return Err(GameStateError::InsufficientDeuterium);
    }
    source.deuterium = source.deuterium - fuel;
    let mut cargo_metal: u64 = 0;
    let mut cargo_crystal: u64 = 0;
    let mut cargo_deuterium: u64 = 0;
    let mut loot: (u64, u64, u64) = (0, 0, 0);
    let mut recycled: (u64, u64) = (0, 0);
    if won {
        let total_cargo_capacity = cargo_capacity(surv[0], surv[1], surv[10], surv[4], surv[5]);
        let launched_cargo = m.cargo_metal.saturating_add(m.cargo_crystal).saturating_add(m.cargo_deuterium);
        let cargo_room = total_cargo_capacity.saturating_sub(launched_cargo);
        loot = plunder_resources(destination, cargo_room);
        cargo_metal = m.cargo_metal.saturating_add(loot.0);
        cargo_crystal = m.cargo_crystal.saturating_add(loot.1);
        cargo_deuterium = m.cargo_deuterium.saturating_add(loot.2);
        let cargo_used = cargo_metal.saturating_add(cargo_crystal).saturating_add(cargo_deuterium);
        let debris_room = total_cargo_capacity.saturating_sub(cargo_used);
        recycled = collect_debris(coords, debris_room, surv[10]);
        cargo_metal = cargo_metal.saturating_add(recycled.0);
        cargo_crystal = cargo_crystal.saturating_add(recycled.1);
    }
    let mission = MissionState {
        small_cargo: surv[0],
        large_cargo: surv[1],
        light_fighter: surv[2],
        heavy_fighter: surv[3],
        cruiser: surv[4],
        battleship: surv[5],
        battlecruiser: surv[6],
        bomber: surv[7],
        destroyer: surv[8],
        deathstar: surv[9],
        recycler: surv[10],
        espionage_probe: surv[11],
        colony_ship: surv[12],
        cargo_metal,
        cargo_crystal,
        cargo_deuterium,
        return_ts: sat_add_i64(now, return_flight_seconds),
        combat_rounds: rounds,
        attacker_won: won,
        applied: true,
        ..m
    };
    source.set_mission(slot, mission);
    Ok(AttackResolution::Battle(make_report(rounds, won, false, defender_survived, loot, (dm, dc), recycled, surv)))
}

fn attack_return(source: &mut PlanetState, slot: usize, now: i64) -> (r: Result<AttackResolution, GameStateError>)
    requires
        slot < MAX_MISSIONS,
        old(source).missions[slot as int].return_ts > 0 && now >= old(source).missions[slot as int].return_ts
            ==> settle_fits(*old(source), now),
    ensures
        ({
            let (s, _d, _c, rr) = attack_return_spec(*old(source), *old(source), PlanetCoordinates {
                galaxy: 0, system: 0, position: 0, planet: old(source).authority, authority: old(source).authority,
                debris_metal: 0, debris_crystal: 0, bump: 0 }, slot as int, now);
            *final(source) == s && r == rr
        }),
{
    let m = source.mission(slot);
    if !(m.return_ts > 0 && now >= m.return_ts) {
        return Err(GameStateError::ReturnInFlight);
    }
    settle_resources(source, now)?;
    source.return_mission_assets(slot)?;
    source.clear_mission(slot);
    source.active_missions = source.active_missions.saturating_sub(1);
    Ok(AttackResolution::Returned)
}

/// Whether resolving the attack in slot `slot` gets as far as settling the source planet: the
/// slot holds an attack that is either back home or has arrived at a target it may strike.
pub open spec fn attack_settles_source(s0: PlanetState, d0: PlanetState, c0: PlanetCoordinates, slot: int, now: i64) -> bool {
    let m = s0.missions[slot];
    &&& 0 <= slot < MAX_MISSIONS
    &&& m.mission_type == MISSION_ATTACK
    &&& if m.applied {
        m.return_ts > 0 && now >= m.return_ts
    } else {
        attack_precheck(s0, d0, c0, m, now) is Ok
    }
}

/// Whether resolving the attack in slot `slot` gets as far as settling the target planet: the
/// attack has arrived at a target it may strike and the source has settled.
pub open spec fn attack_settles_destination(s0: PlanetState, d0: PlanetState, c0: PlanetCoordinates, slot: int, now: i64) -> bool {
    let m = s0.missions[slot];
    &&& 0 <= slot < MAX_MISSIONS
    &&& m.mission_type == MISSION_ATTACK
    &&& !m.applied
    &&& attack_precheck(s0, d0, c0, m, now) is Ok
    &&& settle_spec(s0, now).1 is Ok
}

/// Resolves the attack mission in slot `slot` of `source` against `destination` at `now`:
/// a returning fleet is unloaded; an arriving fleet fights, leaves debris at the target's
/// coordinates, plunders when it wins and turns home with its survivors.
#[verifier::rlimit(50)]
pub fn resolve_attack_planets(
    source: &mut PlanetState,
    destination: &mut PlanetState,
    destination_coords: &mut PlanetCoordinates,
    slot: usize,
    now: i64,
) -> (r: Result<AttackResolution, GameStateError>)
    requires
        attack_settles_source(*old(source), *old(destination), *old(destination_coords), slot as int, now) ==> settle_fits(
            *old(source),
            now,
        ),
        attack_settles_destination(*old(source), *old(destination), *old(destination_coords), slot as int, now)
            ==> settle_fits(*old(destination), now),
    ensures
        (*final(source), *final(destination), *final(destination_coords), r) == resolve_attack_spec(
            *old(source),
            *old(destination),
            *old(destination_coords),
            slot as int,
            now,
        ),
{
    if slot >= MAX_MISSIONS {
        return Err(GameStateError::InvalidMissionSlot);
    }
    let mission = source.mission(slot);
    if mission.mission_type != MISSION_ATTACK {
        return Err(GameStateError::InvalidMission);
    }
    if mission.applied {
        return attack_return(source, slot, now);
    }
    if destination.authority.same_as(&source.authority) {
        return Err(GameStateError::CannotAttackOwnPlanet);
    }
    if !(destination.galaxy == mission.target_galaxy && destination.system == mission.target_system
        && destination.position == mission.target_position) {
        return Err(GameStateError::InvalidDestination);
    }
    if !(destination_coords.galaxy == destination.galaxy && destination_coords.system == destination.system
        && destination_coords.position == destination.position) {
        return Err(GameStateError::InvalidDestination);
    }
    if now < mission.arrive_ts {
        return Err(GameStateError::MissionInFlight);
    }
    if now < effective_attack_protection_until(destination) {
        return Err(GameStateError::NewPlayerProtected);
    }
    if !(destination.last_attacked_ts == 0 || now >= sat_add_i64(
        destination.last_attacked_ts,
        TARGET_ATTACK_COOLDOWN_SECONDS,
    )) {
        return Err(GameStateError::TargetCooldown);
    }
    settle_resources(source, now)?;
    settle_resources(destination, now)?;
    destination.last_attacked_ts = now;
    let mut attacker = build_attacker_stacks(&mission, source);
    let mut defender = build_defender_stacks(destination);
    let initial_attacker = attacker.clone();
    let initial_defender = defender.clone();
    assert(initial_attacker@ == attacker@);
    assert(initial_defender@ == defender@);
    let combat_rounds = run_battle(&mut attacker, &mut defender);
    let attacker_survivors = fleet_counts_from_stacks(&attacker);
    let defender_survived_combat = total_stack_units(&defender) > 0;
    let (defender_survivors, defense_survivors, debris_metal, debris_crystal) = battle_aftermath(
        &initial_attacker,
        &attacker,
        &initial_defender,
        &defender,
    );
    destination_coords.debris_metal = destination_coords.debris_metal.saturating_add(debris_metal);
    destination_coords.debris_crystal = destination_coords.debris_crystal.saturating_add(debris_crystal);
    apply_defender_survivors(destination, defender_survivors, defense_survivors);
    let attacker_alive = sum_counts(&attacker_survivors) > 0;
    let attacker_won = !defender_survived_combat;
    if !attacker_alive {
        source.clear_mission(slot);
        source.active_missions = source.active_missions.saturating_sub(1);
        return Ok(AttackResolution::Battle(make_report(
            combat_rounds,
            false,
            true,
            defender_survived_combat,
            (0, 0, 0),
            (debris_metal, debris_crystal),
            (0, 0),
            &attacker_survivors,
        )));
    }
    attack_send_home(
        source,
        destination,
        destination_coords,
        slot,
        now,
        mission,
        &attacker_survivors,
        combat_rounds,
        attacker_won,
        defender_survived_combat,
        debris_metal,
        debris_crystal,
    )
}

} // verus!
