use chained_universe::creation::{initialize_colony, InitializeColonyParams};
use chained_universe::attack::resolve_attack_planets;
use chained_universe::constants::{MISSION_ATTACK, MISSION_ESPIONAGE};
use chained_universe::espionage::resolve_espionage_planets;
use chained_universe::flight::{distance, mission_flight_seconds, slowest_fleet_speed};
use chained_universe::key::Key;
use chained_universe::launch::{launch_fleet_planet, LaunchFleetParams};
use chained_universe::planet::{MissionState, PlanetCoordinates, PlanetState};
use chained_universe::requirements::enforce_ship_research_gate;

fn unique_key(n: u8) -> Key {
    let mut bytes = [0u8; 32];
    bytes[0] = n;
    bytes[31] = 0xA5;
    Key::new(bytes)
}

fn blank_planet() -> PlanetState {
    PlanetState {
        authority: Key::zero(),
        player: Key::zero(),
        planet_index: 0,
        galaxy: 0,
        system: 0,
        position: 0,
        name: [0u8; 32],
        diameter: 0,
        temperature: 0,
        max_fields: 0,
        used_fields: 0,
        metal_mine: 0,
        crystal_mine: 0,
        deuterium_synthesizer: 0,
        solar_plant: 0,
        fusion_reactor: 0,
        robotics_factory: 0,
        nanite_factory: 0,
        shipyard: 0,
        metal_storage: 0,
        crystal_storage: 0,
        deuterium_tank: 0,
        research_lab: 0,
        missile_silo: 0,
        energy_tech: 0,
        combustion_drive: 0,
        impulse_drive: 0,
        hyperspace_drive: 0,
        computer_tech: 0,
        astrophysics: 0,
        igr_network: 0,
        weapons_technology: 0,
        shielding_technology: 0,
        armor_technology: 0,
        research_queue_item: 0,
        research_queue_target: 0,
        research_finish_ts: 0,
        build_queue_item: 0,
        build_queue_target: 0,
        build_finish_ts: 0,
        metal: 0,
        crystal: 0,
        deuterium: 0,
        metal_hour: 0,
        crystal_hour: 0,
        deuterium_hour: 0,
        energy_production: 0,
        energy_consumption: 0,
        metal_cap: 0,
        crystal_cap: 0,
        deuterium_cap: 0,
        last_update_ts: 0,
        created_at: 0,
        protection_until_ts: 0,
        market_unlocked_at: 0,
        attack_unlocked_at: 0,
        last_attack_launch_ts: 0,
        last_attacked_ts: 0,
        small_cargo: 0,
        large_cargo: 0,
        light_fighter: 0,
        heavy_fighter: 0,
        cruiser: 0,
        battleship: 0,
        battlecruiser: 0,
        bomber: 0,
        destroyer: 0,
        deathstar: 0,
        recycler: 0,
        espionage_probe: 0,
        colony_ship: 0,
        solar_satellite: 0,
        rocket_launcher: 0,
        light_laser: 0,
        heavy_laser: 0,
        gauss_cannon: 0,
        ion_cannon: 0,
        plasma_turret: 0,
        small_shield_dome: 0,
        large_shield_dome: 0,
        anti_ballistic_missile: 0,
        interplanetary_missile: 0,
        active_missions: 0,
        missions: [MissionState::empty(); 4],
        bump: 0,
        ship_build_item: 0,
        ship_build_qty: 0,
        ship_build_finish_ts: 0,
        defense_build_item: 0,
        defense_build_qty: 0,
        defense_build_finish_ts: 0,
    }
}

fn test_planet() -> PlanetState {
    PlanetState {
        galaxy: 1,
        system: 1,
        position: 1,
        combustion_drive: 6,
        impulse_drive: 6,
        hyperspace_drive: 6,
        astrophysics: 6,
        metal_cap: 1_000_000,
        crystal_cap: 1_000_000,
        deuterium_cap: 1_000_000,
        ..blank_planet()
    }
}

fn attack_mission(target: &PlanetState) -> MissionState {
    MissionState {
        mission_type: MISSION_ATTACK,
        target_galaxy: target.galaxy,
        target_system: target.system,
        target_position: target.position,
        depart_ts: 10,
        arrive_ts: 20,
        speed_factor: 100,
        ..MissionState::empty()
    }
}

fn espionage_mission(target: &PlanetState, probes: u32) -> MissionState {
    MissionState {
        mission_type: MISSION_ESPIONAGE,
        target_galaxy: target.galaxy,
        target_system: target.system,
        target_position: target.position,
        depart_ts: 10,
        arrive_ts: 20,
        espionage_probe: probes,
        speed_factor: 100,
        ..MissionState::empty()
    }
}

fn coords_for(planet: &PlanetState, n: u8) -> PlanetCoordinates {
    PlanetCoordinates {
        galaxy: planet.galaxy,
        system: planet.system,
        position: planet.position,
        planet: unique_key(n),
        authority: planet.authority,
        debris_metal: 0,
        debris_crystal: 0,
        bump: 0,
    }
}

fn target_at_two(n: u8) -> PlanetState {
    PlanetState { authority: unique_key(n), galaxy: 2, system: 2, position: 2, ..test_planet() }
}

#[test]
fn credit_resources_allows_exact_cap() {
    let mut planet = blank_planet();
    planet.metal_cap = 100;
    planet.crystal_cap = 200;
    planet.deuterium_cap = 300;

    planet.credit_resources(100, 200, 300).unwrap();

    assert_eq!(planet.metal, 100);
    assert_eq!(planet.crystal, 200);
    assert_eq!(planet.deuterium, 300);
}

#[test]
fn credit_resources_rejects_cap_excess_without_mutating() {
    let mut planet = blank_planet();
    planet.metal = 90;
    planet.crystal = 40;
    planet.deuterium = 20;
    planet.metal_cap = 100;
    planet.crystal_cap = 100;
    planet.deuterium_cap = 100;

    assert!(planet.credit_resources(11, 0, 0).is_err());
    assert_eq!(planet.metal, 90);
    assert_eq!(planet.crystal, 40);
    assert_eq!(planet.deuterium, 20);
}

#[test]
fn credit_resources_rejects_u64_overflow_without_mutating() {
    let mut planet = blank_planet();
    planet.metal = u64::MAX;
    planet.metal_cap = u64::MAX;
    planet.crystal_cap = u64::MAX;
    planet.deuterium_cap = u64::MAX;

    assert!(planet.credit_resources(1, 0, 0).is_err());
    assert_eq!(planet.metal, u64::MAX);
    assert_eq!(planet.crystal, 0);
    assert_eq!(planet.deuterium, 0);
}

#[test]
fn distance_scales_with_system_and_galaxy_jumps() {
    assert!(distance(1, 1, 1, 1, 2, 1) < distance(1, 1, 1, 1, 300, 1));
    assert!(distance(1, 1, 1, 2, 1, 1) < distance(1, 1, 1, 300, 1, 1));
    assert!(distance(1, 1, 1, 2, 3, 4) < distance(1, 1, 1, 300, 400, 10));
}

#[test]
fn flight_time_scales_with_larger_galaxy_jumps() {
    let planet = test_planet();
    let fleet_speed = slowest_fleet_speed(&planet, 0, 0, 0, 0, 0, 0, 0, 0, 1, 0, 0, 0, 0);

    let one_galaxy_jump = mission_flight_seconds(1, 1, 1, 2, 1, 1, 100, fleet_speed, &planet);
    let many_galaxy_jumps = mission_flight_seconds(1, 1, 1, 300, 1, 1, 100, fleet_speed, &planet);

    assert!(one_galaxy_jump < many_galaxy_jumps);
}

#[test]
fn flight_time_has_slowed_tier_baselines() {
    let mut planet = test_planet();
    planet.astrophysics = 0;
    let reference_speed = 5_000;

    assert_eq!(mission_flight_seconds(1, 1, 1, 1, 1, 2, 100, reference_speed, &planet), 300);
    assert_eq!(mission_flight_seconds(1, 1, 1, 1, 2, 1, 100, reference_speed, &planet), 3_600);
    assert_eq!(mission_flight_seconds(1, 1, 1, 2, 1, 1, 100, reference_speed, &planet), 86_400);
}

#[test]
fn slowest_ship_sets_fleet_travel_time() {
    let planet = test_planet();
    let fast_fleet_speed = slowest_fleet_speed(&planet, 1, 0, 0, 0, 0, 0, 0, 0, 0, 0, 0, 0, 0);
    let mixed_fleet_speed = slowest_fleet_speed(&planet, 1, 0, 0, 0, 0, 0, 0, 1, 0, 0, 0, 0, 0);

    let fast_time = mission_flight_seconds(1, 1, 1, 1, 50, 1, 100, fast_fleet_speed, &planet);
    let mixed_time = mission_flight_seconds(1, 1, 1, 1, 50, 1, 100, mixed_fleet_speed, &planet);

    assert!(mixed_fleet_speed < fast_fleet_speed);
    assert!(mixed_time > fast_time);
}

#[test]
fn launch_espionage_requires_probe_only_fleet() {
    let mut planet = test_planet();
    planet.espionage_probe = 3;
    planet.light_fighter = 1;
    planet.deuterium = 1_000;

    let mixed = launch_fleet_planet(
        &mut planet,
        LaunchFleetParams {
            mission_type: MISSION_ESPIONAGE,
            light_fighter: 1,
            heavy_fighter: 0,
            cruiser: 0,
            battleship: 0,
            battlecruiser: 0,
            bomber: 0,
            destroyer: 0,
            deathstar: 0,
            small_cargo: 0,
            large_cargo: 0,
            recycler: 0,
            espionage_probe: 1,
            colony_ship: 0,
            cargo_metal: 0,
            cargo_crystal: 0,
            cargo_deuterium: 0,
            speed_factor: 100,
            now: 0,
            target_galaxy: 1,
            target_system: 2,
            target_position: 1,
            colony_name: String::new(),
        },
        0,
    );

    assert!(mixed.is_err());
    assert_eq!(planet.espionage_probe, 3);
    assert_eq!(planet.light_fighter, 1);
}

#[test]
fn espionage_success_returns_surviving_probes() {
    let mut source = test_planet();
    source.authority = unique_key(1);
    source.computer_tech = 6;
    source.astrophysics = 6;

    let mut destination = target_at_two(2);
    destination.metal = 12_345;

    source.missions[0] = espionage_mission(&destination, 5);
    source.active_missions = 1;

    resolve_espionage_planets(&mut source, &mut destination, 0, 20).unwrap();

    assert!(source.missions[0].applied);
    assert!(source.missions[0].return_ts > 20);
    assert_eq!(source.missions[0].espionage_probe, 5);

    let return_ts = source.missions[0].return_ts;
    resolve_espionage_planets(&mut source, &mut destination, 0, return_ts).unwrap();

    assert_eq!(source.active_missions, 0);
    assert_eq!(source.missions[0].mission_type, 0);
    assert_eq!(source.espionage_probe, 5);
}

#[test]
fn espionage_blind_report_destroys_probes() {
    let mut source = test_planet();
    source.authority = unique_key(1);

    let mut destination = target_at_two(2);
    destination.computer_tech = 10;
    destination.shielding_technology = 10;
    destination.armor_technology = 10;
    destination.plasma_turret = 20;

    source.missions[0] = espionage_mission(&destination, 1);
    source.active_missions = 1;

    resolve_espionage_planets(&mut source, &mut destination, 0, 20).unwrap();

    assert_eq!(source.active_missions, 0);
    assert_eq!(source.missions[0].mission_type, 0);
    assert_eq!(source.espionage_probe, 0);
}

#[test]
fn attack_ship_requirements_block_locked_ships() {
    let mut planet = blank_planet();
    planet.shipyard = 1;
    planet.combustion_drive = 0;

    assert!(enforce_ship_research_gate(0, &planet).is_err());
    assert!(enforce_ship_research_gate(2, &planet).is_ok());
    assert!(enforce_ship_research_gate(6, &planet).is_err());
    assert!(enforce_ship_research_gate(9, &planet).is_err());
}

#[test]
fn attack_ship_requirements_allow_unlocked_ships() {
    let mut planet = blank_planet();
    planet.shipyard = 12;
    planet.combustion_drive = 6;
    planet.impulse_drive = 6;
    planet.hyperspace_drive = 7;
    planet.computer_tech = 5;
    planet.weapons_technology = 10;
    planet.shielding_technology = 2;
    planet.armor_technology = 6;
    planet.energy_tech = 12;
    planet.astrophysics = 4;

    for ship_type in 0..=13 {
        assert!(enforce_ship_research_gate(ship_type, &planet).is_ok());
    }
}

#[test]
fn attack_resolution_generates_return_trip_and_debris() {
    let mut source = test_planet();
    source.authority = unique_key(1);
    source.deuterium = 10_000;
    source.light_fighter = 10;

    let mut destination = target_at_two(2);
    destination.rocket_launcher = 4;

    let mut coords = PlanetCoordinates {
        galaxy: 2,
        system: 2,
        position: 2,
        planet: unique_key(3),
        authority: destination.authority,
        debris_metal: 0,
        debris_crystal: 0,
        bump: 0,
    };

    source.missions[0] = MissionState {
        mission_type: MISSION_ATTACK,
        target_galaxy: 2,
        target_system: 2,
        target_position: 2,
        depart_ts: 10,
        arrive_ts: 20,
        light_fighter: 10,
        speed_factor: 100,
        ..MissionState::empty()
    };
    source.active_missions = 1;

    resolve_attack_planets(&mut source, &mut destination, &mut coords, 0, 20).unwrap();

    assert!(source.missions[0].applied);
    assert!(source.missions[0].return_ts > 20);
    assert!(coords.debris_metal + coords.debris_crystal > 0);
}

#[test]
fn attack_resolution_rejects_own_planet() {
    let owner = unique_key(1);
    let mut source = test_planet();
    source.authority = owner;

    let mut destination = target_at_two(1);
    destination.authority = owner;

    let mut coords = coords_for(&destination, 3);
    source.missions[0] = MissionState { light_fighter: 10, ..attack_mission(&destination) };
    source.active_missions = 1;

    let result = resolve_attack_planets(&mut source, &mut destination, &mut coords, 0, 20);

    assert!(result.is_err());
    assert_eq!(source.active_missions, 1);
    assert!(!source.missions[0].applied);
}

#[test]
fn attack_resolution_respects_target_protection_and_cooldown() {
    let mut source = test_planet();
    source.authority = unique_key(1);

    let mut protected_target = target_at_two(2);
    protected_target.protection_until_ts = 100;

    let mut protected_coords = coords_for(&protected_target, 3);
    source.missions[0] = MissionState { light_fighter: 10, ..attack_mission(&protected_target) };
    source.active_missions = 1;

    let protected_result = resolve_attack_planets(&mut source, &mut protected_target, &mut protected_coords, 0, 20);
    assert!(protected_result.is_err());
    assert_eq!(protected_target.last_attacked_ts, 0);

    let mut cooled_target = target_at_two(4);
    cooled_target.last_attacked_ts = 100;

    let mut cooled_coords = coords_for(&cooled_target, 5);
    source.missions[0] = MissionState { light_fighter: 10, ..attack_mission(&cooled_target) };

    let cooldown_result = resolve_attack_planets(&mut source, &mut cooled_target, &mut cooled_coords, 0, 150);
    assert!(cooldown_result.is_err());
    assert_eq!(cooled_target.last_attacked_ts, 100);
}

#[test]
fn attacker_wipeout_clears_mission_and_leaves_debris() {
    let mut source = test_planet();
    source.authority = unique_key(1);
    source.deuterium = 10_000;

    let mut destination = target_at_two(2);
    destination.deathstar = 1;

    let mut coords = coords_for(&destination, 3);
    source.missions[0] = MissionState { light_fighter: 1, ..attack_mission(&destination) };
    source.active_missions = 1;

    resolve_attack_planets(&mut source, &mut destination, &mut coords, 0, 20).unwrap();

    assert_eq!(source.active_missions, 0);
    assert_eq!(source.missions[0].mission_type, 0);
    assert_eq!(source.light_fighter, 0);
    assert!(destination.deathstar > 0);
    assert!(coords.debris_metal + coords.debris_crystal > 0);
}

#[test]
fn returning_attack_restores_survivors_and_loot() {
    let mut source = test_planet();
    source.authority = unique_key(1);
    source.deuterium = 20_000;

    let mut destination = target_at_two(2);
    destination.metal = 10_000;
    destination.crystal = 10_000;
    destination.deuterium = 10_000;

    let mut coords = coords_for(&destination, 3);
    source.missions[0] = MissionState { small_cargo: 1, battlecruiser: 1, ..attack_mission(&destination) };
    source.active_missions = 1;

    resolve_attack_planets(&mut source, &mut destination, &mut coords, 0, 20).unwrap();

    let return_ts = source.missions[0].return_ts;
    let returning_metal = source.missions[0].cargo_metal;
    assert!(source.missions[0].applied);
    assert!(return_ts > 20);
    assert!(returning_metal > 0);

    resolve_attack_planets(&mut source, &mut destination, &mut coords, 0, return_ts).unwrap();

    assert_eq!(source.active_missions, 0);
    assert_eq!(source.missions[0].mission_type, 0);
    assert_eq!(source.small_cargo, 1);
    assert_eq!(source.battlecruiser, 1);
    assert!(source.metal >= returning_metal);
}

#[test]
fn surviving_recyclers_collect_attack_debris() {
    let mut source = test_planet();
    source.authority = unique_key(1);
    source.deuterium = 20_000;

    let mut destination = target_at_two(2);
    destination.rocket_launcher = 1;

    let mut coords = coords_for(&destination, 3);
    source.missions[0] = MissionState { battlecruiser: 1, recycler: 1, ..attack_mission(&destination) };
    source.active_missions = 1;

    resolve_attack_planets(&mut source, &mut destination, &mut coords, 0, 20).unwrap();

    assert!(source.missions[0].attacker_won);
    assert_eq!(source.missions[0].recycler, 1);
    assert!(source.missions[0].cargo_metal + source.missions[0].cargo_crystal > 0);
    assert_eq!(coords.debris_metal + coords.debris_crystal, 0);
}

#[test]
fn repaired_defenses_do_not_block_loot_after_attacker_wins() {
    let mut source = test_planet();
    source.authority = unique_key(1);
    source.deuterium = 10_000;

    let mut destination = target_at_two(2);
    destination.metal = 10_000;
    destination.crystal = 10_000;
    destination.deuterium = 10_000;
    destination.rocket_launcher = 1;

    let mut coords = PlanetCoordinates {
        galaxy: 2,
        system: 2,
        position: 2,
        planet: unique_key(3),
        authority: destination.authority,
        debris_metal: 0,
        debris_crystal: 0,
        bump: 0,
    };

    source.missions[0] = MissionState {
        mission_type: MISSION_ATTACK,
        target_galaxy: 2,
        target_system: 2,
        target_position: 2,
        depart_ts: 10,
        arrive_ts: 20,
        small_cargo: 1,
        battlecruiser: 1,
        speed_factor: 100,
        ..MissionState::empty()
    };
    source.active_missions = 1;

    resolve_attack_planets(&mut source, &mut destination, &mut coords, 0, 20).unwrap();

    assert!(source.missions[0].attacker_won);
    assert!(source.missions[0].cargo_metal > 0);
    assert!(destination.metal < 10_000);
}

use chained_universe::accelerate::{
    accelerate_build_with_antimatter, accelerate_mission_with_antimatter, acceleration_cost, TokenAccountView,
};
use chained_universe::accounts::{PlayerProfile, QuestState};
use chained_universe::economy::settle_resources;
use chained_universe::error::GameStateError;
use chained_universe::launch::launch_fleet_planet as launch;
use chained_universe::public_planet::{create_public_planet_state, sync_public_planet_view, PublicPlanetState};
use chained_universe::quest_claims::{
    claim_daily_check_in, claim_quest_reward, empty_quest_progress, initialize_quest_state,
};

fn fresh_quest(authority: Key) -> QuestState {
    initialize_quest_state(authority, 0, 1)
}

fn program_key() -> Key {
    Key::new([7u8; 32])
}

fn mint_key() -> Key {
    Key::new([9u8; 32])
}

#[test]
fn check_in_grants_streak_reward_once_a_day() {
    let player = unique_key(1);
    let mut quest = fresh_quest(player);
    let mut planet = test_planet();
    let day = 10 * 86_400;

    claim_daily_check_in(&mut quest, &mut planet, day).unwrap();
    assert_eq!(quest.daily_checkin_streak, 1);
    assert_eq!(quest.total_checkins, 1);
    assert_eq!(quest.daily_checkin_day, 10);
    assert_eq!((planet.metal, planet.crystal, planet.deuterium), (550, 325, 110));

    let again = claim_daily_check_in(&mut quest, &mut planet, day + 3_600);
    assert_eq!(again, Err(GameStateError::DailyCheckInAlreadyClaimed));
    assert_eq!(planet.metal, 550);

    claim_daily_check_in(&mut quest, &mut planet, day + 86_400).unwrap();
    assert_eq!(quest.daily_checkin_streak, 2);
    assert_eq!((planet.metal, planet.crystal, planet.deuterium), (550 + 600, 325 + 350, 110 + 120));

    claim_daily_check_in(&mut quest, &mut planet, day + 3 * 86_400).unwrap();
    assert_eq!(quest.daily_checkin_streak, 1);
}

#[test]
fn tutorial_quest_pays_once_and_needs_its_building() {
    let player = unique_key(1);
    let mut quest = fresh_quest(player);
    let mut planet = test_planet();
    let mut progress = empty_quest_progress(player, 0);

    let not_met = claim_quest_reward(&mut quest, &mut planet, &mut progress, 0, 1, 100);
    assert_eq!(not_met, Err(GameStateError::QuestRequirementsNotMet));

    planet.metal_mine = 2;
    claim_quest_reward(&mut quest, &mut planet, &mut progress, 0, 1, 100).unwrap();
    assert_eq!((planet.metal, planet.crystal, planet.deuterium), (700, 200, 0));
    assert_eq!(quest.tutorial_claimed_mask, 1 << 1);

    let twice = claim_quest_reward(&mut quest, &mut planet, &mut progress, 0, 1, 100);
    assert_eq!(twice, Err(GameStateError::QuestAlreadyClaimed));
    assert_eq!(planet.metal, 700);

    let out_of_range = claim_quest_reward(&mut quest, &mut planet, &mut progress, 0, 64, 100);
    assert_eq!(out_of_range, Err(GameStateError::InvalidQuest));
    let bad_period = claim_quest_reward(&mut quest, &mut planet, &mut progress, 4, 1, 100);
    assert_eq!(bad_period, Err(GameStateError::InvalidQuest));
}

#[test]
fn settling_production_respects_storage_caps() {
    let mut planet = test_planet();
    planet.metal = 900;
    planet.metal_cap = 1_000;
    planet.metal_hour = 3_600;
    planet.last_update_ts = 100;
    settle_resources(&mut planet, 100 + 3_600).unwrap();
    assert_eq!(planet.metal, 1_000);
    assert_eq!(planet.last_update_ts, 3_700);
    settle_resources(&mut planet, 3_700).unwrap();
    assert_eq!((planet.metal, planet.last_update_ts), (1_000, 3_700));
    assert_eq!(settle_resources(&mut planet, 50), Err(GameStateError::InvalidTimestamp));
}

#[test]
fn building_level_reads_back_what_was_set() {
    let mut planet = test_planet();
    planet.set_building_level(4, 9);
    assert_eq!(planet.building_level(4), 9);
    assert_eq!(planet.fusion_reactor, 9);
    assert_eq!(planet.building_level(3), 0);
    planet.set_building_level(13, 5);
    assert_eq!(planet.building_level(13), 0);
}

#[test]
fn launch_moves_ships_from_hangar_to_mission() {
    let mut planet = test_planet();
    planet.small_cargo = 5;
    planet.deuterium = 100_000;
    planet.metal = 1_000;
    let before = planet.small_cargo;
    let result = launch(
        &mut planet,
        LaunchFleetParams {
            mission_type: 2,
            light_fighter: 0,
            heavy_fighter: 0,
            cruiser: 0,
            battleship: 0,
            battlecruiser: 0,
            bomber: 0,
            destroyer: 0,
            deathstar: 0,
            small_cargo: 3,
            large_cargo: 0,
            recycler: 0,
            espionage_probe: 0,
            colony_ship: 0,
            cargo_metal: 500,
            cargo_crystal: 0,
            cargo_deuterium: 0,
            speed_factor: 100,
            now: 0,
            target_galaxy: 1,
            target_system: 2,
            target_position: 1,
            colony_name: String::new(),
        },
        1_000,
    );
    assert!(result.is_ok());
    assert_eq!(planet.small_cargo + planet.missions[0].small_cargo, before);
    assert_eq!(planet.missions[0].cargo_metal, 500);
    assert_eq!(planet.metal, 500);
    assert_eq!(planet.active_missions, 1);
}

#[test]
fn antimatter_finishes_a_building_at_one_token_per_second() {
    let authority = unique_key(1);
    let mut planet = test_planet();
    planet.build_queue_item = 0;
    planet.build_queue_target = 1;
    planet.build_finish_ts = 160;
    planet.last_update_ts = 100;
    let user = TokenAccountView { mint: mint_key(), owner: authority, amount: 100_000_000 };

    assert_eq!(acceleration_cost(160, 100), Ok(60_000_000));
    assert_eq!(acceleration_cost(100, 160), Err(GameStateError::NoAccelerationNeeded));
    assert_eq!(acceleration_cost(i64::MAX, 0), Err(GameStateError::AntimatterAmountOverflow));

    let wrong_mint = accelerate_build_with_antimatter(&mut planet, unique_key(3), 6, mint_key(), &user, authority, &program_key(), &None, 100);
    assert_eq!(wrong_mint.err(), Some(GameStateError::InvalidAntimatterMint));

    let stranger = Some(progress_record_for(unique_key(7)));
    let refused = accelerate_build_with_antimatter(&mut planet, mint_key(), 6, mint_key(), &user, authority, &program_key(), &stranger, 100);
    assert_eq!(refused.err(), Some(GameStateError::Unauthorized));
    assert_eq!(planet.build_queue_item, 0);

    let record = Some(progress_record_for(authority));
    let (paid, counted) =
        accelerate_build_with_antimatter(&mut planet, mint_key(), 6, mint_key(), &user, authority, &program_key(), &record, 100).unwrap();
    assert_eq!(paid, 60_000_000);
    let counted = counted.expect("the burn is counted");
    assert_eq!(counted.daily_antimatter_spent, 60_000_000);
    assert_eq!(counted.monthly_antimatter_spent, 60_000_000);
    assert_eq!(planet.metal_mine, 1);
    assert_eq!(planet.build_queue_item, 255);
    assert_eq!(planet.build_finish_ts, 0);

    let idle = accelerate_build_with_antimatter(&mut planet, mint_key(), 6, mint_key(), &user, authority, &program_key(), &None, 100);
    assert_eq!(idle.err(), Some(GameStateError::NoBuild));
}

#[test]
fn antimatter_brings_a_mission_leg_to_now() {
    let authority = unique_key(1);
    let mut planet = test_planet();
    let target = target_at_two(2);
    planet.missions[1] = MissionState { light_fighter: 1, ..attack_mission(&target) };
    let poor = TokenAccountView { mint: mint_key(), owner: authority, amount: 1 };
    let rich = TokenAccountView { mint: mint_key(), owner: authority, amount: u64::MAX };

    assert_eq!(
        accelerate_mission_with_antimatter(&mut planet, mint_key(), 6, mint_key(), &poor, authority, &program_key(), &None, 1, 0, 15).err(),
        Some(GameStateError::InsufficientAntimatter)
    );
    assert_eq!(
        accelerate_mission_with_antimatter(&mut planet, mint_key(), 6, mint_key(), &rich, authority, &program_key(), &None, 1, 1, 15).err(),
        Some(GameStateError::ReturnInFlight)
    );
    assert_eq!(
        accelerate_mission_with_antimatter(&mut planet, mint_key(), 6, mint_key(), &rich, authority, &program_key(), &None, 0, 0, 15).err(),
        Some(GameStateError::InvalidMission)
    );
    let paid = accelerate_mission_with_antimatter(&mut planet, mint_key(), 6, mint_key(), &rich, authority, &program_key(), &None, 1, 0, 15);
    assert_eq!(paid.unwrap().0, 5_000_000);
    assert_eq!(planet.missions[1].arrive_ts, 15);
}

#[test]
fn public_planet_claims_its_place_and_counts_the_planet() {
    let authority = unique_key(1);
    let mut profile = PlayerProfile { authority, planet_count: 2, bump: 0 };
    let program = anchor_lang::prelude::Pubkey::new_from_array(program_key().bytes);
    let (coords, bump) = anchor_lang::prelude::Pubkey::find_program_address(
        &[b"public_planet_coords", &3u16.to_le_bytes(), &40u16.to_le_bytes(), &[7u8]],
        &program,
    );
    let coords_key = Key::new(coords.to_bytes());

    let wrong = create_public_planet_state(
        authority, &mut profile, unique_key(2), unique_key(3), unique_key(4), 9, "Nova", 3, 40, 7, 500, program_key(),
    );
    assert_eq!(wrong.err(), Some(GameStateError::InvalidCoordinates));
    assert_eq!(profile.planet_count, 2);

    let (public, claim) = create_public_planet_state(
        authority, &mut profile, unique_key(2), unique_key(3), coords_key, 9, "Nova", 3, 40, 7, 500, program_key(),
    )
    .unwrap();
    assert_eq!(profile.planet_count, 3);
    assert_eq!(public.planet_index, 2);
    assert_eq!(public.version, 2);
    assert_eq!(&public.name[..4], b"Nova");
    assert_eq!(public.name[4], 0);
    assert_eq!(claim.bump, bump);
    assert_eq!(claim.public_planet.bytes, unique_key(3).bytes);

    let off_map = create_public_planet_state(
        authority, &mut profile, unique_key(2), unique_key(3), coords_key, 9, "Nova", 0, 40, 7, 500, program_key(),
    );
    assert_eq!(off_map.err(), Some(GameStateError::InvalidCoordinates));

    let mut view = public;
    let mut planet = test_planet();
    planet.planet_index = 5;
    sync_public_planet_view(&planet, &mut view, 4);
    assert_eq!(view.version, 1);
    assert_eq!(view.planet_index, 5);
    assert_eq!(view.bump, 4);
    let _unused: Option<PublicPlanetState> = None;
}

use chained_universe::accounts::{AuthorizedVault, GameConfig};
use chained_universe::config::{initialize_game_config, update_antimatter_mint};
use chained_universe::constants::MISSION_TRANSPORT;
use chained_universe::quest_actions::claim_quest;
use chained_universe::quest_claims::QUEST_PROGRESS_STATE_SPACE;
use chained_universe::resolution::{resolve_attack_vault, resolve_colonize, resolve_transport, ProgressRecord};
use chained_universe::vault_actions::{produce_vault, LiveVault};

fn progress_record_for(authority: Key) -> ProgressRecord {
    let program = anchor_lang::prelude::Pubkey::new_from_array(program_key().bytes);
    let (addr, _) = anchor_lang::prelude::Pubkey::find_program_address(&[b"quest_progress", &authority.bytes], &program);
    ProgressRecord {
        key: Key::new(addr.to_bytes()),
        data_len: QUEST_PROGRESS_STATE_SPACE,
        state: empty_quest_progress(authority, 0),
    }
}

fn transport_pair() -> (PlanetState, PlanetState) {
    let mut source = test_planet();
    source.authority = unique_key(1);
    source.deuterium = 100_000;
    let destination = target_at_two(2);
    source.missions[0] = MissionState {
        mission_type: MISSION_TRANSPORT,
        target_galaxy: destination.galaxy,
        target_system: destination.system,
        target_position: destination.position,
        depart_ts: 10,
        arrive_ts: 20,
        small_cargo: 1,
        cargo_metal: 100,
        speed_factor: 100,
        ..MissionState::empty()
    };
    source.active_missions = 1;
    (source, destination)
}

#[test]
fn transport_arrival_counts_once_and_homecoming_does_not() {
    let (mut source, mut destination) = transport_pair();
    let owner = source.authority;
    let record = Some(progress_record_for(owner));

    let arrived = resolve_transport(&mut source, &mut destination, 0, 20, &owner, &program_key(), &record).unwrap();
    let counted = arrived.expect("an arrival is counted");
    assert_eq!(counted.daily_transports_resolved, 1);
    assert_eq!(counted.weekly_transports_resolved, 1);
    assert_eq!(counted.monthly_transports_resolved, 1);
    assert_eq!(counted.last_updated_ts, 20);
    assert_eq!(destination.metal, 100);
    assert!(source.missions[0].applied);
    assert_eq!(source.missions[0].return_ts, 30);

    let home = resolve_transport(&mut source, &mut destination, 0, 30, &owner, &program_key(), &record).unwrap();
    assert!(home.is_none());
    assert_eq!(destination.metal, 100);
    assert_eq!(source.small_cargo, 1);
    assert_eq!(source.active_missions, 0);
}

#[test]
fn transport_without_progress_record_or_with_bad_slot() {
    let (mut source, mut destination) = transport_pair();
    let owner = source.authority;
    let none = resolve_transport(&mut source, &mut destination, 0, 20, &owner, &program_key(), &None).unwrap();
    assert!(none.is_none());
    assert_eq!(destination.metal, 100);

    let (mut source, mut destination) = transport_pair();
    let bad = resolve_transport(&mut source, &mut destination, 9, 20, &owner, &program_key(), &None);
    assert_eq!(bad.err(), Some(GameStateError::InvalidMissionSlot));

    let wrong_owner = Some(progress_record_for(unique_key(7)));
    let refused = resolve_transport(&mut source, &mut destination, 0, 20, &owner, &program_key(), &wrong_owner);
    assert_eq!(refused.err(), Some(GameStateError::Unauthorized));
}

#[test]
fn revoked_vault_cannot_resolve_an_attack() {
    let mut source = test_planet();
    source.authority = unique_key(1);
    let mut destination = target_at_two(2);
    source.missions[0] = attack_mission(&destination);
    source.active_missions = 1;
    let mut coords = coords_for(&destination, 3);
    let vault = AuthorizedVault { authority: source.authority, vault: unique_key(9), expires_at: 0, revoked: true, bump: 0 };
    let before = (source.missions[0].applied, source.active_missions, destination.metal);
    let r = resolve_attack_vault(
        &mut source, &mut destination, &mut coords, 0, 20, unique_key(9), &vault, &program_key(), &None,
    );
    assert_eq!(r.err(), Some(GameStateError::VaultAuthorizationRevoked));
    assert_eq!((source.missions[0].applied, source.active_missions, destination.metal), before);
    assert_eq!(resolve_colonize(0, 20), Err(GameStateError::InvalidMission));
}

#[test]
fn game_config_needs_the_protocol_authority_and_mint() {
    let admin = unique_key(1);
    let mint = mint_key();
    assert_eq!(
        initialize_game_config(unique_key(2), mint, admin, mint, 3).err(),
        Some(GameStateError::Unauthorized)
    );
    assert_eq!(
        initialize_game_config(admin, unique_key(4), admin, mint, 3).err(),
        Some(GameStateError::InvalidAntimatterMint)
    );
    let mut config: GameConfig = initialize_game_config(admin, mint, admin, mint, 3).unwrap();
    assert_eq!(config.bump, 3);
    assert_eq!(config.antimatter_mint.bytes, mint.bytes);
    assert_eq!(update_antimatter_mint(&mut config, unique_key(5), mint), Err(GameStateError::InvalidAntimatterMint));
    assert_eq!(config.antimatter_mint.bytes, mint.bytes);
    assert_eq!(update_antimatter_mint(&mut config, mint, mint), Ok(()));
}

#[test]
fn tutorial_claim_keeps_no_progress_record() {
    let player = unique_key(1);
    let mut quest = fresh_quest(player);
    let mut planet = test_planet();
    planet.metal_mine = 2;
    let stale = ProgressRecord { key: unique_key(8), data_len: 0, state: empty_quest_progress(player, 0) };
    let r = claim_quest(&mut quest, &mut planet, &stale, &player, &program_key(), 0, 1, 86_400);
    assert!(r.unwrap().is_none());
    assert_eq!(quest.tutorial_claimed_mask, 1 << 1);
    assert_eq!(planet.metal, 700);
    let daily = claim_quest(&mut quest, &mut planet, &stale, &player, &program_key(), 2, 3, 86_400);
    assert_eq!(daily.err(), Some(GameStateError::Unauthorized));
}

#[test]
fn vault_produces_only_with_the_owners_delegation_record() {
    let owner = unique_key(1);
    let signer = unique_key(9);
    let mut planet = test_planet();
    planet.authority = owner;
    planet.metal_hour = 3_600;
    planet.last_update_ts = 100;
    let mut fields = chained_universe::live::to_fields(&planet);
    let program = anchor_lang::prelude::Pubkey::new_from_array(program_key().bytes);
    let (record_addr, _) =
        anchor_lang::prelude::Pubkey::find_program_address(&[b"authorized_vault", &owner.bytes], &program);
    let record = AuthorizedVault { authority: owner, vault: signer, expires_at: 0, revoked: false, bump: 0 };
    let misplaced = LiveVault { program_id: program_key(), signer, record, record_key: unique_key(4) };
    assert_eq!(produce_vault(&mut fields, &misplaced, 200), Err(GameStateError::InvalidVaultAuthorization));
    assert_eq!(fields.deposit.metal, 0);
    let vault = LiveVault { program_id: program_key(), signer, record, record_key: Key::new(record_addr.to_bytes()) };
    assert_eq!(produce_vault(&mut fields, &vault, 200), Ok(()));
    assert_eq!(fields.deposit.metal, 100);
    assert_eq!(fields.deposit.last_update_ts, 200);
}

fn colony_request(name: &str) -> InitializeColonyParams {
    InitializeColonyParams {
        now: 0,
        name: name.to_string(),
        galaxy: 2,
        system: 2,
        position: 2,
        cargo_metal: 0,
        cargo_crystal: 0,
        cargo_deuterium: 0,
        small_cargo: 0,
        large_cargo: 0,
        light_fighter: 0,
        heavy_fighter: 0,
        cruiser: 0,
        battleship: 0,
        battlecruiser: 0,
        bomber: 0,
        destroyer: 0,
        deathstar: 0,
        recycler: 0,
        espionage_probe: 0,
        solar_satellite: 0,
    }
}

#[test]
fn founding_a_colony_counts_a_colonized_planet() {
    let owner = unique_key(1);
    let signer = unique_key(9);
    let program = anchor_lang::prelude::Pubkey::new_from_array(program_key().bytes);
    let vault_key = Key::new(
        anchor_lang::prelude::Pubkey::find_program_address(&[b"authorized_vault", &owner.bytes], &program).0.to_bytes(),
    );
    let coords_key = chained_universe::address::planet_coords_address(2, 2, 2, &program_key()).unwrap().0;
    let vault = AuthorizedVault { authority: owner, vault: signer, expires_at: 0, revoked: false, bump: 0 };
    let mut profile = PlayerProfile { authority: owner, planet_count: 1, bump: 0 };
    let mut source = test_planet();
    source.authority = owner;
    source.missions[0] = MissionState {
        mission_type: chained_universe::constants::MISSION_COLONIZE,
        target_galaxy: 2,
        target_system: 2,
        target_position: 2,
        depart_ts: 10,
        arrive_ts: 20,
        colony_ship: 1,
        cargo_metal: 400,
        speed_factor: 100,
        ..MissionState::empty()
    };
    source.active_missions = 1;

    let stranger = progress_record_for(unique_key(7));
    let refused = initialize_colony(
        &mut profile, unique_key(2), &mut source, 0, unique_key(3), coords_key, program_key(), signer, &vault, vault_key,
        colony_request("Nova"), &stranger, 4, 30,
    );
    assert_eq!(refused.err(), Some(GameStateError::Unauthorized));
    assert_eq!(profile.planet_count, 1);
    assert_eq!(source.active_missions, 1);

    let record = progress_record_for(owner);
    let (colony, coords, counted) = initialize_colony(
        &mut profile, unique_key(2), &mut source, 0, unique_key(3), coords_key, program_key(), signer, &vault, vault_key,
        colony_request("Nova"), &record, 4, 30,
    )
    .unwrap();
    assert_eq!(profile.planet_count, 2);
    assert_eq!(colony.planet_index, 1);
    assert_eq!(colony.metal, 400);
    assert_eq!((coords.galaxy, coords.system, coords.position), (2, 2, 2));
    assert_eq!(source.missions[0].mission_type, 0);
    assert_eq!(source.active_missions, 0);
    assert_eq!(counted.daily_planets_colonized, 1);
    assert_eq!(counted.monthly_planets_colonized, 1);
    assert_eq!(counted.last_updated_ts, 30);
}

#[test]
fn attack_never_grows_the_defender_and_loot_lands_in_cargo() {
    let mut source = test_planet();
    source.authority = unique_key(1);
    source.deuterium = 100_000;

    let mut destination = target_at_two(2);
    destination.metal = 50_000;
    destination.crystal = 40_000;
    destination.deuterium = 30_000;
    destination.rocket_launcher = 5;
    destination.light_laser = 2;
    destination.light_fighter = 3;
    destination.small_cargo = 1;
    let before = destination.clone();

    let mut coords = PlanetCoordinates {
        galaxy: 2,
        system: 2,
        position: 2,
        planet: unique_key(3),
        authority: destination.authority,
        debris_metal: 0,
        debris_crystal: 0,
        bump: 0,
    };

    source.missions[0] = MissionState {
        mission_type: MISSION_ATTACK,
        target_galaxy: 2,
        target_system: 2,
        target_position: 2,
        depart_ts: 10,
        arrive_ts: 20,
        battleship: 20,
        large_cargo: 10,
        speed_factor: 100,
        ..MissionState::empty()
    };
    source.active_missions = 1;
    let sent = source.missions[0];

    resolve_attack_planets(&mut source, &mut destination, &mut coords, 0, 20).unwrap();

    let m = source.missions[0];
    assert!(m.applied);
    assert!(m.attacker_won);
    assert!(destination.rocket_launcher <= before.rocket_launcher);
    assert!(destination.light_laser <= before.light_laser);
    assert!(destination.light_fighter <= before.light_fighter);
    assert!(destination.small_cargo <= before.small_cargo);
    assert_eq!(destination.light_fighter, 0);
    assert_eq!(destination.small_cargo, 0);
    assert!(m.battleship <= sent.battleship && m.large_cargo <= sent.large_cargo);
    let lost_metal = before.metal - destination.metal;
    let lost_crystal = before.crystal - destination.crystal;
    let lost_deuterium = before.deuterium - destination.deuterium;
    assert!(lost_metal > 0);
    assert!(lost_metal <= m.cargo_metal - sent.cargo_metal);
    assert!(lost_crystal <= m.cargo_crystal - sent.cargo_crystal);
    assert!(lost_deuterium <= m.cargo_deuterium - sent.cargo_deuterium);
}

#[test]
fn returned_attack_unloads_its_cargo_once() {
    let mut source = test_planet();
    source.authority = unique_key(1);
    source.deuterium = 20_000;

    let mut destination = target_at_two(2);
    destination.metal = 10_000;
    destination.crystal = 10_000;
    destination.deuterium = 10_000;

    let mut coords = coords_for(&destination, 3);
    source.missions[0] = MissionState { small_cargo: 1, battlecruiser: 1, ..attack_mission(&destination) };
    source.active_missions = 1;

    resolve_attack_planets(&mut source, &mut destination, &mut coords, 0, 20).unwrap();
    let m = source.missions[0];
    let return_ts = m.return_ts;
    let stock = (source.metal, source.crystal, source.deuterium);
    let target = destination.clone();

    resolve_attack_planets(&mut source, &mut destination, &mut coords, 0, return_ts).unwrap();

    assert_eq!(source.metal, stock.0 + m.cargo_metal);
    assert_eq!(source.crystal, stock.1 + m.cargo_crystal);
    assert_eq!(source.deuterium, stock.2 + m.cargo_deuterium);
    assert_eq!(destination.metal, target.metal);
    assert_eq!(destination.rocket_launcher, target.rocket_launcher);
    let again = resolve_attack_planets(&mut source, &mut destination, &mut coords, 0, return_ts + 10);
    assert!(matches!(again, Err(GameStateError::InvalidMission)));
}
