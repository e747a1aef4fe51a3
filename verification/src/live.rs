//! The building, research and shipyard rules on the partial planet record that the fast paths
//! decode: each runs the rule of the full record on a record that holds these fields.
use vstd::prelude::*;

use crate::constants::QUEUE_IDLE;
use crate::economy::{
    build_ship_fits, build_ship_planet, build_ship_spec, finish_build_planet, finish_build_spec,
    finish_research_planet, finish_research_spec, finish_ship_build_planet, finish_ship_build_spec,
    rates_fit, settle_fits, settle_resources, settle_spec, start_build_fits, start_build_planet,
    start_build_spec, start_research_planet, start_research_spec,
};
use crate::error::GameStateError;
use crate::economy::{recalculate_rates, with_rates};
use crate::formulas::{solar_satellite_energy, solar_satellite_energy_spec};
use crate::requirements::{
    building_gate, enforce_building_requirements, enforce_research_requirements, enforce_ship_research_gate,
    research_gate, ship_gate,
};
use crate::planet::{empty_mission, MissionState, PlanetState};
use crate::planet_bytes::{PlanetBuildFields, PlanetDepositFields};

verus! {

/// The full planet record that holds the fields of `f`, with idle queues and zeros elsewhere.
pub open spec fn state_of(f: PlanetBuildFields) -> PlanetState {
    PlanetState {
        authority: f.deposit.authority,
        player: f.deposit.authority,
        planet_index: 0,
        galaxy: 0,
        system: 0,
        position: 0,
        name: vstd::array::spec_array_fill_for_copy_type(0u8),
        diameter: 0,
        temperature: f.temperature,
        max_fields: f.max_fields,
        used_fields: f.used_fields,
        metal_mine: f.metal_mine,
        crystal_mine: f.crystal_mine,
        deuterium_synthesizer: f.deuterium_synthesizer,
        solar_plant: f.solar_plant,
        fusion_reactor: f.fusion_reactor,
        robotics_factory: f.robotics_factory,
        nanite_factory: f.nanite_factory,
        shipyard: f.shipyard,
        metal_storage: f.metal_storage,
        crystal_storage: f.crystal_storage,
        deuterium_tank: f.deuterium_tank,
        research_lab: f.research_lab,
        missile_silo: f.missile_silo,
        energy_tech: f.energy_tech,
        combustion_drive: f.combustion_drive,
        impulse_drive: f.impulse_drive,
        hyperspace_drive: f.hyperspace_drive,
        computer_tech: f.computer_tech,
        astrophysics: f.astrophysics,
        igr_network: f.igr_network,
        weapons_technology: f.weapons_technology,
        shielding_technology: f.shielding_technology,
        armor_technology: f.armor_technology,
        research_queue_item: f.research_queue_item,
        research_queue_target: f.research_queue_target,
        research_finish_ts: f.research_finish_ts,
        build_queue_item: f.build_queue_item,
        build_queue_target: f.build_queue_target,
        build_finish_ts: f.build_finish_ts,
        metal: f.deposit.metal,
        crystal: f.deposit.crystal,
        deuterium: f.deposit.deuterium,
        metal_hour: f.deposit.metal_hour,
        crystal_hour: f.deposit.crystal_hour,
        deuterium_hour: f.deposit.deuterium_hour,
        energy_production: f.deposit.energy_production,
        energy_consumption: f.deposit.energy_consumption,
        metal_cap: f.deposit.metal_cap,
        crystal_cap: f.deposit.crystal_cap,
        deuterium_cap: f.deposit.deuterium_cap,
        last_update_ts: f.deposit.last_update_ts,
        created_at: 0,
        protection_until_ts: 0,
        market_unlocked_at: 0,
        attack_unlocked_at: 0,
        last_attack_launch_ts: 0,
        last_attacked_ts: 0,
        small_cargo: f.small_cargo,
        large_cargo: f.large_cargo,
        light_fighter: f.light_fighter,
        heavy_fighter: f.heavy_fighter,
        cruiser: f.cruiser,
        battleship: f.battleship,
        battlecruiser: f.battlecruiser,
        bomber: f.bomber,
        destroyer: f.destroyer,
        deathstar: f.deathstar,
        recycler: f.recycler,
        espionage_probe: f.espionage_probe,
        colony_ship: f.colony_ship,
        solar_satellite: f.solar_satellite,
        rocket_launcher: 0,
        light_laser: 0,
        heavy_laser: 0,
        gauss_cannon: 0,
        ion_cannon: 0,
        plasma_turret: 0,
        small_shield_dome: 0,
        large_shield_dome: 0,
        anti_ballistic_missile: 0,
        interplanetary_missile: 0,
        active_missions: 0,
        missions: vstd::array::spec_array_fill_for_copy_type(empty_mission()),
        bump: 0,
        ship_build_item: f.ship_build_item,
        ship_build_qty: f.ship_build_qty,
        ship_build_finish_ts: f.ship_build_finish_ts,
        defense_build_item: QUEUE_IDLE,
        defense_build_qty: 0,
        defense_build_finish_ts: 0,
    }
}

/// The partial record that the fast paths decode from the full record `s`.
pub open spec fn fields_of(s: PlanetState) -> PlanetBuildFields {
    PlanetBuildFields {
        deposit: PlanetDepositFields {
            authority: s.authority,
            metal: s.metal,
            crystal: s.crystal,
            deuterium: s.deuterium,
            metal_hour: s.metal_hour,
            crystal_hour: s.crystal_hour,
            deuterium_hour: s.deuterium_hour,
            energy_production: s.energy_production,
            energy_consumption: s.energy_consumption,
            metal_cap: s.metal_cap,
            crystal_cap: s.crystal_cap,
            deuterium_cap: s.deuterium_cap,
            last_update_ts: s.last_update_ts,
        },
        temperature: s.temperature,
        max_fields: s.max_fields,
        used_fields: s.used_fields,
        metal_mine: s.metal_mine,
        crystal_mine: s.crystal_mine,
        deuterium_synthesizer: s.deuterium_synthesizer,
        solar_plant: s.solar_plant,
        fusion_reactor: s.fusion_reactor,
        robotics_factory: s.robotics_factory,
        nanite_factory: s.nanite_factory,
        shipyard: s.shipyard,
        metal_storage: s.metal_storage,
        crystal_storage: s.crystal_storage,
        deuterium_tank: s.deuterium_tank,
        research_lab: s.research_lab,
        missile_silo: s.missile_silo,
        energy_tech: s.energy_tech,
        combustion_drive: s.combustion_drive,
        impulse_drive: s.impulse_drive,
        hyperspace_drive: s.hyperspace_drive,
        computer_tech: s.computer_tech,
        astrophysics: s.astrophysics,
        igr_network: s.igr_network,
        weapons_technology: s.weapons_technology,
        shielding_technology: s.shielding_technology,
        armor_technology: s.armor_technology,
        small_cargo: s.small_cargo,
        large_cargo: s.large_cargo,
        light_fighter: s.light_fighter,
        heavy_fighter: s.heavy_fighter,
        cruiser: s.cruiser,
        battleship: s.battleship,
        battlecruiser: s.battlecruiser,
        bomber: s.bomber,
        destroyer: s.destroyer,
        deathstar: s.deathstar,
        recycler: s.recycler,
        espionage_probe: s.espionage_probe,
        colony_ship: s.colony_ship,
        solar_satellite: s.solar_satellite,
        research_queue_item: s.research_queue_item,
        research_queue_target: s.research_queue_target,
        research_finish_ts: s.research_finish_ts,
        build_queue_item: s.build_queue_item,
        build_queue_target: s.build_queue_target,
        build_finish_ts: s.build_finish_ts,
        ship_build_item: s.ship_build_item,
        ship_build_qty: s.ship_build_qty,
        ship_build_finish_ts: s.ship_build_finish_ts,
    }
}

/// The full record that holds the fields of `f`.
pub fn to_state(f: &PlanetBuildFields) -> (s: PlanetState)
    ensures
        s == state_of(*f),
{
    broadcast use vstd::array::group_array_axioms;

    let name = [0u8; 32];
    assert(name =~= vstd::array::spec_array_fill_for_copy_type::<u8, 32>(0u8));
    let m = MissionState::empty();
    let missions = [m, m, m, m];
    assert(missions =~= vstd::array::spec_array_fill_for_copy_type::<MissionState, 4>(empty_mission()));
    PlanetState {
        authority: f.deposit.authority,
        player: f.deposit.authority,
        planet_index: 0,
        galaxy: 0,
        system: 0,
        position: 0,
        name: name,
        diameter: 0,
        temperature: f.temperature,
        max_fields: f.max_fields,
        used_fields: f.used_fields,
        metal_mine: f.metal_mine,
        crystal_mine: f.crystal_mine,
        deuterium_synthesizer: f.deuterium_synthesizer,
        solar_plant: f.solar_plant,
        fusion_reactor: f.fusion_reactor,
        robotics_factory: f.robotics_factory,
        nanite_factory: f.nanite_factory,
        shipyard: f.shipyard,
        metal_storage: f.metal_storage,
        crystal_storage: f.crystal_storage,
        deuterium_tank: f.deuterium_tank,
        research_lab: f.research_lab,
        missile_silo: f.missile_silo,
        energy_tech: f.energy_tech,
        combustion_drive: f.combustion_drive,
        impulse_drive: f.impulse_drive,
        hyperspace_drive: f.hyperspace_drive,
        computer_tech: f.computer_tech,
        astrophysics: f.astrophysics,
        igr_network: f.igr_network,
        weapons_technology: f.weapons_technology,
        shielding_technology: f.shielding_technology,
        armor_technology: f.armor_technology,
        research_queue_item: f.research_queue_item,
        research_queue_target: f.research_queue_target,
        research_finish_ts: f.research_finish_ts,
        build_queue_item: f.build_queue_item,
        build_queue_target: f.build_queue_target,
        build_finish_ts: f.build_finish_ts,
        metal: f.deposit.metal,
        crystal: f.deposit.crystal,
        deuterium: f.deposit.deuterium,
        metal_hour: f.deposit.metal_hour,
        crystal_hour: f.deposit.crystal_hour,
        deuterium_hour: f.deposit.deuterium_hour,
        energy_production: f.deposit.energy_production,
        energy_consumption: f.deposit.energy_consumption,
        metal_cap: f.deposit.metal_cap,
        crystal_cap: f.deposit.crystal_cap,
        deuterium_cap: f.deposit.deuterium_cap,
        last_update_ts: f.deposit.last_update_ts,
        created_at: 0,
        protection_until_ts: 0,
        market_unlocked_at: 0,
        attack_unlocked_at: 0,
        last_attack_launch_ts: 0,
        last_attacked_ts: 0,
        small_cargo: f.small_cargo,
        large_cargo: f.large_cargo,
        light_fighter: f.light_fighter,
        heavy_fighter: f.heavy_fighter,
        cruiser: f.cruiser,
        battleship: f.battleship,
        battlecruiser: f.battlecruiser,
        bomber: f.bomber,
        destroyer: f.destroyer,
        deathstar: f.deathstar,
        recycler: f.recycler,
        espionage_probe: f.espionage_probe,
        colony_ship: f.colony_ship,
        solar_satellite: f.solar_satellite,
        rocket_launcher: 0,
        light_laser: 0,
        heavy_laser: 0,
        gauss_cannon: 0,
        ion_cannon: 0,
        plasma_turret: 0,
        small_shield_dome: 0,
        large_shield_dome: 0,
        anti_ballistic_missile: 0,
        interplanetary_missile: 0,
        active_missions: 0,
        missions: missions,
        bump: 0,
        ship_build_item: f.ship_build_item,
        ship_build_qty: f.ship_build_qty,
        ship_build_finish_ts: f.ship_build_finish_ts,
        defense_build_item: QUEUE_IDLE,
        defense_build_qty: 0,
        defense_build_finish_ts: 0,
    }
}

/// The partial record of the full record `s`.
pub fn to_fields(s: &PlanetState) -> (f: PlanetBuildFields)
    ensures
        f == fields_of(*s),
{
    PlanetBuildFields {
        deposit: PlanetDepositFields {
            authority: s.authority,
            metal: s.metal,
            crystal: s.crystal,
            deuterium: s.deuterium,
            metal_hour: s.metal_hour,
            crystal_hour: s.crystal_hour,
            deuterium_hour: s.deuterium_hour,
            energy_production: s.energy_production,
            energy_consumption: s.energy_consumption,
            metal_cap: s.metal_cap,
            crystal_cap: s.crystal_cap,
            deuterium_cap: s.deuterium_cap,
            last_update_ts: s.last_update_ts,
        },
        temperature: s.temperature,
        max_fields: s.max_fields,
        used_fields: s.used_fields,
        metal_mine: s.metal_mine,
        crystal_mine: s.crystal_mine,
        deuterium_synthesizer: s.deuterium_synthesizer,
        solar_plant: s.solar_plant,
        fusion_reactor: s.fusion_reactor,
        robotics_factory: s.robotics_factory,
        nanite_factory: s.nanite_factory,
        shipyard: s.shipyard,
        metal_storage: s.metal_storage,
        crystal_storage: s.crystal_storage,
        deuterium_tank: s.deuterium_tank,
        research_lab: s.research_lab,
        missile_silo: s.missile_silo,
        energy_tech: s.energy_tech,
        combustion_drive: s.combustion_drive,
        impulse_drive: s.impulse_drive,
        hyperspace_drive: s.hyperspace_drive,
        computer_tech: s.computer_tech,
        astrophysics: s.astrophysics,
        igr_network: s.igr_network,
        weapons_technology: s.weapons_technology,
        shielding_technology: s.shielding_technology,
        armor_technology: s.armor_technology,
        small_cargo: s.small_cargo,
        large_cargo: s.large_cargo,
        light_fighter: s.light_fighter,
        heavy_fighter: s.heavy_fighter,
        cruiser: s.cruiser,
        battleship: s.battleship,
        battlecruiser: s.battlecruiser,
        bomber: s.bomber,
        destroyer: s.destroyer,
        deathstar: s.deathstar,
        recycler: s.recycler,
        espionage_probe: s.espionage_probe,
        colony_ship: s.colony_ship,
        solar_satellite: s.solar_satellite,
        research_queue_item: s.research_queue_item,
        research_queue_target: s.research_queue_target,
        research_finish_ts: s.research_finish_ts,
        build_queue_item: s.build_queue_item,
        build_queue_target: s.build_queue_target,
        build_finish_ts: s.build_finish_ts,
        ship_build_item: s.ship_build_item,
        ship_build_qty: s.ship_build_qty,
        ship_build_finish_ts: s.ship_build_finish_ts,
    }
}

/// Decoding the full record that holds a partial record gives that partial record back.
pub proof fn lemma_fields_of_state_of(f: PlanetBuildFields)
    ensures
        fields_of(state_of(f)) == f,
{
}

/// The outcome of running the full-record rule `out` on the partial record `f`.
pub open spec fn on_fields(out: (PlanetState, Result<(), GameStateError>)) -> (PlanetBuildFields, Result<(), GameStateError>) {
    (fields_of(out.0), out.1)
}

/// Credits the production accumulated since the last settlement, capped by storage.
pub fn settle_live(planet: &mut PlanetBuildFields, now: i64) -> (r: Result<(), GameStateError>)
    requires
        settle_fits(state_of(*old(planet)), now),
    ensures
        (*final(planet), r) == on_fields(settle_spec(state_of(*old(planet)), now)),
{
    let mut s = to_state(planet);
    let r = settle_resources(&mut s, now);
    *planet = to_fields(&s);
    r
}

/// Starts upgrading building `building_idx`, as the full-record rule does.
pub fn start_build_live(planet: &mut PlanetBuildFields, building_idx: u8, now: i64) -> (r: Result<(), GameStateError>)
    requires
        start_build_fits(state_of(*old(planet)), building_idx, now),
    ensures
        (*final(planet), r) == on_fields(start_build_spec(state_of(*old(planet)), building_idx, now)),
{
    let mut s = to_state(planet);
    let r = start_build_planet(&mut s, building_idx, now);
    *planet = to_fields(&s);
    r
}

/// Completes the building queue, as the full-record rule does.
pub fn finish_build_live(planet: &mut PlanetBuildFields, now: i64) -> (r: Result<(), GameStateError>)
    requires
        now >= old(planet).build_finish_ts ==> settle_fits(state_of(*old(planet)), now),
        (now >= old(planet).build_finish_ts && old(planet).build_finish_ts > 0) ==> rates_fit(
            state_of(*old(planet)).with_building_level(old(planet).build_queue_item, old(planet).build_queue_target),
        ),
    ensures
        (*final(planet), r) == on_fields(finish_build_spec(state_of(*old(planet)), now)),
{
    let mut s = to_state(planet);
    let r = finish_build_planet(&mut s, now);
    *planet = to_fields(&s);
    r
}

/// Starts researching technology `tech_idx`, as the full-record rule does.
pub fn start_research_live(planet: &mut PlanetBuildFields, tech_idx: u8, now: i64) -> (r: Result<(), GameStateError>)
    requires
        settle_fits(state_of(*old(planet)), now),
        now <= i64::MAX - 255 * 1800,
    ensures
        (*final(planet), r) == on_fields(start_research_spec(state_of(*old(planet)), tech_idx, now)),
{
    let mut s = to_state(planet);
    let r = start_research_planet(&mut s, tech_idx, now);
    *planet = to_fields(&s);
    r
}

/// Completes the research queue, as the full-record rule does.
pub fn finish_research_live(planet: &mut PlanetBuildFields, now: i64) -> (r: Result<(), GameStateError>)
    requires
        now >= old(planet).research_finish_ts ==> settle_fits(state_of(*old(planet)), now),
        (now >= old(planet).research_finish_ts && old(planet).research_queue_item != QUEUE_IDLE) ==> rates_fit(
            state_of(*old(planet)).with_research_level(old(planet).research_queue_item, old(planet).research_queue_target),
        ),
    ensures
        (*final(planet), r) == on_fields(finish_research_spec(state_of(*old(planet)), now)),
{
    let mut s = to_state(planet);
    let r = finish_research_planet(&mut s, now);
    *planet = to_fields(&s);
    r
}

/// Queues `quantity` ships of `ship_type`, as the full-record rule does; the partial record
/// carries no defense queue, which the full-record rule then sees idle.
pub fn start_ship_build_live(planet: &mut PlanetBuildFields, ship_type: u8, quantity: u32, now: i64) -> (r: Result<(), GameStateError>)
    requires
        build_ship_fits(state_of(*old(planet)), ship_type, quantity, now),
    ensures
        (*final(planet), r) == on_fields(build_ship_spec(state_of(*old(planet)), ship_type, quantity, now)),
{
    let mut s = to_state(planet);
    let r = build_ship_planet(&mut s, ship_type, quantity, now);
    *planet = to_fields(&s);
    r
}

/// Completes the ship queue, as the full-record rule does.
pub fn finish_ship_build_live(planet: &mut PlanetBuildFields, now: i64) -> (r: Result<(), GameStateError>)
    requires
        now >= old(planet).ship_build_finish_ts ==> settle_fits(state_of(*old(planet)), now),
        (now >= old(planet).ship_build_finish_ts && old(planet).ship_build_item == 13) ==> rates_fit(
            state_of(*old(planet)).with_ship_added(13, old(planet).ship_build_qty),
        ),
    ensures
        (*final(planet), r) == on_fields(finish_ship_build_spec(state_of(*old(planet)), now)),
{
    let mut s = to_state(planet);
    let r = finish_ship_build_planet(&mut s, now);
    *planet = to_fields(&s);
    r
}

/// The level of building `idx` in the partial record.
pub fn building_level_live(planet: &PlanetBuildFields, idx: u8) -> (r: u8)
    ensures
        r == state_of(*planet).spec_building_level(idx),
{
    to_state(planet).building_level(idx)
}

/// Sets building `idx` of the partial record to `level`.
pub fn set_building_level_live(planet: &mut PlanetBuildFields, idx: u8, level: u8)
    ensures
        *final(planet) == fields_of(state_of(*old(planet)).with_building_level(idx, level)),
{
    let mut s = to_state(planet);
    s.set_building_level(idx, level);
    *planet = to_fields(&s);
}

/// The level of technology `idx` in the partial record.
pub fn research_level_live(planet: &PlanetBuildFields, idx: u8) -> (r: u8)
    ensures
        r == state_of(*planet).spec_research_level(idx),
{
    to_state(planet).research_level(idx)
}

/// Sets technology `idx` of the partial record to `level`.
pub fn set_research_level_live(planet: &mut PlanetBuildFields, idx: u8, level: u8)
    ensures
        *final(planet) == fields_of(state_of(*old(planet)).with_research_level(idx, level)),
{
    let mut s = to_state(planet);
    s.set_research_level(idx, level);
    *planet = to_fields(&s);
}

/// The building prerequisites of building `building_idx`, checked on the partial record.
pub fn enforce_building_requirements_live(building_idx: u8, planet: &PlanetBuildFields) -> (r: Result<(), GameStateError>)
    ensures
        r == building_gate(building_idx, state_of(*planet)),
{
    enforce_building_requirements(building_idx, &to_state(planet))
}

/// The prerequisites of technology `tech_idx`, checked on the partial record.
pub fn enforce_research_requirements_live(tech_idx: u8, planet: &PlanetBuildFields) -> (r: Result<(), GameStateError>)
    ensures
        r == research_gate(tech_idx, state_of(*planet)),
{
    enforce_research_requirements(tech_idx, &to_state(planet))
}

/// The research a ship type needs, checked on the partial record.
pub fn enforce_ship_research_gate_live(ship_type: u8, planet: &PlanetBuildFields) -> (r: Result<(), GameStateError>)
    ensures
        r == ship_gate(ship_type, state_of(*planet)),
{
    enforce_ship_research_gate(ship_type, &to_state(planet))
}

/// Adds ships of `ship_type` to the partial record; refused for an unknown type.
pub fn add_ship_live(planet: &mut PlanetBuildFields, ship_type: u8, quantity: u32) -> (r: Result<(), GameStateError>)
    ensures
        r is Ok <==> ship_type <= 13,
        r is Err ==> r == Err::<(), GameStateError>(GameStateError::InvalidShipType),
        *final(planet) == fields_of(state_of(*old(planet)).with_ship_added(ship_type, quantity)),
{
    let mut s = to_state(planet);
    let r = s.add_ship(ship_type, quantity);
    *planet = to_fields(&s);
    r
}

/// Recomputes the rates, energy and caps of the partial record from its buildings.
pub fn recalculate_rates_live(planet: &mut PlanetBuildFields)
    requires
        rates_fit(state_of(*old(planet))),
    ensures
        *final(planet) == fields_of(with_rates(state_of(*old(planet)))),
{
    let mut s = to_state(planet);
    recalculate_rates(&mut s);
    *planet = to_fields(&s);
}

/// The energy one solar satellite yields on a planet of the given temperature.
pub fn solar_satellite_energy_live(temperature: i16) -> (r: u64)
    ensures
        r == solar_satellite_energy_spec(temperature),
{
    solar_satellite_energy(temperature)
}

} // verus!
