use chained_universe::components::{Fleet, FleetMission, Planet, Research, Resources};
use chained_universe::key::Key;
use chained_universe::system_attack::{self, E};
use chained_universe::system_build::{self, BuildError};
use chained_universe::system_initialize::{self, InitError};
use chained_universe::system_initialize_new_colony::{self, InitNewColonyError};
use chained_universe::system_launch::{self, LaunchError};
use chained_universe::system_produce::{self, ProduceError};
use chained_universe::system_registry::{init_wallet_meta, register_planet, RegistryError, WalletMeta};
use chained_universe::system_research::{self, ResearchError};
use chained_universe::system_resolve_colonize::{self, ResolveColonizeError};
use chained_universe::system_resolve_transport::{self, ResolveTransportError};
use chained_universe::system_session::{self, SessionError};
use chained_universe::system_shipyard::{self, ShipyardError};

fn key(n: u8) -> Key {
    let mut b = [0u8; 32];
    b[0] = n;
    b[5] = 3;
    Key::new(b)
}

fn planet() -> Planet {
    Planet {
        creator: Key::zero(),
        entity: Key::zero(),
        owner: Key::zero(),
        name: [0u8; 32],
        galaxy: 1,
        system: 1,
        position: 1,
        planet_index: 0,
        diameter: 0,
        temperature: 20,
        max_fields: 10,
        used_fields: 0,
        metal_mine: 0,
        crystal_mine: 0,
        deuterium_synthesizer: 0,
        solar_plant: 0,
        fusion_reactor: 0,
        robotics_factory: 0,
        nanite_factory: 0,
        shipyard: 0,
        metal_storage: 0,
        crystal_storage: 0,
        deuterium_tank: 0,
        research_lab: 0,
        missile_silo: 0,
        build_queue_item: 255,
        build_queue_target: 0,
        build_finish_ts: 0,
    }
}

fn stocked() -> Resources {
    Resources {
        metal: 100_000,
        crystal: 100_000,
        deuterium: 100_000,
        metal_cap: 1_000_000,
        crystal_cap: 1_000_000,
        deuterium_cap: 1_000_000,
        ..Resources::default()
    }
}

fn time_args(prefix: &[u8], now: i64) -> Vec<u8> {
    let mut a = prefix.to_vec();
    a.extend_from_slice(&now.to_le_bytes());
    a
}

fn launch_args(mission: u8, ships: [u32; 13], cargo: [u64; 3], now: i64, flight: i64, target: (u16, u16, u8)) -> Vec<u8> {
    let mut a = vec![mission];
    for s in ships.iter() {
        a.extend_from_slice(&s.to_le_bytes());
    }
    for c in cargo.iter() {
        a.extend_from_slice(&c.to_le_bytes());
    }
    a.push(100);
    a.extend_from_slice(&now.to_le_bytes());
    a.extend_from_slice(&flight.to_le_bytes());
    a.extend_from_slice(&target.0.to_le_bytes());
    a.extend_from_slice(&target.1.to_le_bytes());
    a.push(target.2);
    a
}

#[test]
fn produce_system_settles_up_to_the_given_time() {
    let mut res = Resources { metal_hour: 3_600, last_update_ts: 100, metal_cap: 10_000, ..Resources::default() };
    assert_eq!(system_produce::execute(&mut res, &[1, 2, 3]), Err(ProduceError::InvalidArgs));
    system_produce::execute(&mut res, &(100i64 + 7_200).to_le_bytes()).unwrap();
    assert_eq!(res.metal, 7_200);
    assert_eq!(res.last_update_ts, 7_300);
}

#[test]
fn session_system_accepts_only_the_end_code() {
    assert_eq!(system_session::execute(&[]), Err(SessionError::InvalidArgs));
    assert_eq!(system_session::execute(&[1]), Err(SessionError::InvalidArgs));
    assert_eq!(system_session::execute(&[0, 9]), Ok(()));
}

#[test]
fn launch_system_sends_a_transport_and_it_comes_back() {
    let mut fleet = Fleet { small_cargo: 4, ..Fleet::default() };
    let mut res = stocked();
    let mut ships = [0u32; 13];
    ships[8] = 2;
    let args = launch_args(2, ships, [1_000, 0, 0], 1_000, 60, (1, 2, 3));
    system_launch::execute(&mut fleet, &mut res, &args).unwrap();
    assert_eq!(fleet.small_cargo, 2);
    assert_eq!(fleet.active_missions, 1);
    let m = fleet.missions[0];
    assert_eq!(m.mission_type, 2);
    assert_eq!(m.small_cargo, 2);
    assert_eq!(m.arrive_ts, 1_060);
    assert_eq!(m.return_ts, 1_120);
    assert_eq!(res.metal, 99_000);
    assert_eq!(res.deuterium, 100_000 - 20);

    let mut dest = planet();
    dest.system = 2;
    dest.position = 3;
    let mut dest_res = Resources { metal_cap: 1_000_000, ..Resources::default() };
    let early = system_resolve_transport::execute(&mut fleet, &dest, &mut dest_res, &time_args(&[0], 1_000));
    assert_eq!(early, Err(ResolveTransportError::MissionInFlight));
    system_resolve_transport::execute(&mut fleet, &dest, &mut dest_res, &time_args(&[0], 1_060)).unwrap();
    assert_eq!(dest_res.metal, 1_000);
    assert!(fleet.missions[0].applied);
    let not_back = system_resolve_transport::execute(&mut fleet, &dest, &mut dest_res, &time_args(&[0], 1_100));
    assert_eq!(not_back, Err(ResolveTransportError::ReturnInFlight));
    system_resolve_transport::execute(&mut fleet, &dest, &mut dest_res, &time_args(&[0], 1_120)).unwrap();
    assert_eq!(fleet.small_cargo, 4);
    assert_eq!(fleet.active_missions, 0);
    assert_eq!(fleet.missions[0].mission_type, 0);
}

#[test]
fn launch_system_refusals() {
    let mut fleet = Fleet { small_cargo: 1, ..Fleet::default() };
    let mut res = stocked();
    let mut ships = [0u32; 13];
    ships[8] = 1;
    assert_eq!(system_launch::execute(&mut fleet, &mut res, &[2; 10]), Err(LaunchError::InvalidArgs));
    let mut short = launch_args(2, ships, [0, 0, 0], 0, 60, (1, 1, 1));
    short.truncate(95);
    assert_eq!(system_launch::execute(&mut fleet, &mut res, &short), Err(LaunchError::MissingTarget));
    let off = launch_args(2, ships, [0, 0, 0], 0, 60, (10, 1, 1));
    assert_eq!(system_launch::execute(&mut fleet, &mut res, &off), Err(LaunchError::InvalidTarget));
    let colonize = launch_args(5, ships, [0, 0, 0], 0, 60, (1, 1, 1));
    assert_eq!(system_launch::execute(&mut fleet, &mut res, &colonize), Err(LaunchError::MissingColonyName));
    let attack = launch_args(1, ships, [0, 0, 0], 0, 60, (1, 1, 1));
    assert_eq!(system_launch::execute(&mut fleet, &mut res, &attack), Err(LaunchError::InvalidMission));
    let empty = launch_args(2, [0; 13], [0, 0, 0], 0, 60, (1, 1, 1));
    assert_eq!(system_launch::execute(&mut fleet, &mut res, &empty), Err(LaunchError::EmptyFleet));
    let heavy = launch_args(2, ships, [6_000, 0, 0], 0, 60, (1, 1, 1));
    assert_eq!(system_launch::execute(&mut fleet, &mut res, &heavy), Err(LaunchError::ExceedsCargo));
    let mut two = ships;
    two[8] = 2;
    let many = launch_args(2, two, [0, 0, 0], 0, 60, (1, 1, 1));
    assert_eq!(system_launch::execute(&mut fleet, &mut res, &many), Err(LaunchError::InsufficientShips));
}

#[test]
fn build_system_starts_and_finishes_an_upgrade() {
    let mut p = planet();
    let mut res = stocked();
    let start = time_args(&[0, 0], 100);
    system_build::execute(&mut p, &mut res, &start).unwrap();
    assert_eq!(p.build_queue_item, 0);
    assert_eq!(p.build_queue_target, 1);
    assert_eq!(res.metal, 100_000 - 60);
    assert_eq!(res.crystal, 100_000 - 15);
    assert_eq!(p.build_finish_ts, 115);
    assert_eq!(p.used_fields, 1);
    assert_eq!(system_build::execute(&mut p, &mut res, &time_args(&[1, 0], 114)), Err(BuildError::NotFinished));
    system_build::execute(&mut p, &mut res, &time_args(&[1, 0], 115)).unwrap();
    assert_eq!(p.metal_mine, 1);
    assert_eq!(res.metal_hour, 33);
    assert_eq!(res.metal_cap, 50_000);
    assert_eq!(p.build_queue_item, 255);
    assert_eq!(system_build::execute(&mut p, &mut res, &time_args(&[1, 0], 200)), Err(BuildError::NoBuild));
    assert_eq!(system_build::execute(&mut p, &mut res, &time_args(&[7, 0], 200)), Err(BuildError::InvalidArgs));
}

#[test]
fn research_system_needs_a_lab_and_finishes_on_time() {
    let mut p = planet();
    let mut res = stocked();
    let mut rs = Research::default();
    assert_eq!(system_research::execute(&p, &mut res, &mut rs, &time_args(&[0, 0], 0)), Err(ResearchError::LabTooLow));
    assert_eq!(system_research::execute(&p, &mut res, &mut rs, &time_args(&[0, 7], 0)), Err(ResearchError::InvalidTech));
    p.research_lab = 2;
    system_research::execute(&p, &mut res, &mut rs, &time_args(&[0, 0], 0)).unwrap();
    assert_eq!(rs.queue_item, 0);
    assert_eq!(rs.research_finish_ts, 900);
    assert_eq!(res.crystal, 100_000 - 800);
    assert_eq!(system_research::execute(&p, &mut res, &mut rs, &time_args(&[1, 0], 899)), Err(ResearchError::NotFinished));
    system_research::execute(&p, &mut res, &mut rs, &time_args(&[1, 0], 900)).unwrap();
    assert_eq!(rs.energy_tech, 1);
    assert_eq!(rs.queue_item, 255);
}

#[test]
fn shipyard_system_checks_the_owner_and_charges_per_ship() {
    let owner = key(1);
    let mut fleet = Fleet::default();
    let mut res = stocked();
    let mut args = vec![2u8];
    args.extend_from_slice(&3u32.to_le_bytes());
    args.extend_from_slice(&[0u8; 5]);
    let refused = system_shipyard::execute(owner, true, key(2), owner, &mut fleet, &mut res, &args);
    assert_eq!(refused, Err(ShipyardError::Unauthorized));
    system_shipyard::execute(owner, true, owner, owner, &mut fleet, &mut res, &args).unwrap();
    assert_eq!(fleet.light_fighter, 3);
    assert_eq!(res.metal, 100_000 - 9_000);
    assert_eq!(res.crystal, 100_000 - 3_000);
    let mut bad = args.clone();
    bad[0] = 14;
    assert_eq!(system_shipyard::execute(owner, true, owner, owner, &mut fleet, &mut res, &bad), Err(ShipyardError::InvalidShipType));
}

#[test]
fn attack_system_wins_against_an_empty_fleet_and_plunders() {
    let mut attacker = Fleet::default();
    attacker.missions[0] = FleetMission {
        mission_type: 1,
        depart_ts: 10,
        arrive_ts: 20,
        small_cargo: 10,
        light_fighter: 5,
        ..FleetMission::empty()
    };
    attacker.active_missions = 1;
    let mut attacker_res = Resources::default();
    let mut defender = Fleet::default();
    let mut defender_res = Resources { metal: 9_000, crystal: 40_000, deuterium: 100, ..Resources::default() };

    let early = system_attack::execute(&mut attacker, &mut attacker_res, &mut defender, &mut defender_res, &time_args(&[0], 19));
    assert!(matches!(early, Err(E::NotArrived)));
    let result = system_attack::execute(&mut attacker, &mut attacker_res, &mut defender, &mut defender_res, &time_args(&[0], 20)).unwrap();
    assert!(result.attacker_wins);
    assert_eq!(result.rounds, 0);
    assert_eq!(defender_res.metal, 4_500);
    assert_eq!(defender_res.crystal, 40_000 - 16_666);
    assert_eq!(defender_res.deuterium, 50);
    let m = attacker.missions[0];
    assert!(m.applied);
    assert_eq!(m.return_ts, 30);
    assert_eq!(m.cargo_metal, 4_500);
    let again = system_attack::execute(&mut attacker, &mut attacker_res, &mut defender, &mut defender_res, &time_args(&[0], 30));
    assert!(matches!(again, Err(E::AlreadyApplied)));
}

#[test]
fn attack_system_against_a_stronger_defender_loses_ships() {
    let mut attacker = Fleet::default();
    attacker.missions[0] = FleetMission { mission_type: 1, depart_ts: 0, arrive_ts: 10, light_fighter: 10, ..FleetMission::empty() };
    let mut attacker_res = Resources::default();
    let mut defender = Fleet { deathstar: 1, ..Fleet::default() };
    let mut defender_res = Resources { metal: 1_000, ..Resources::default() };
    let result = system_attack::execute(&mut attacker, &mut attacker_res, &mut defender, &mut defender_res, &time_args(&[0], 10)).unwrap();
    assert!(!result.attacker_wins);
    assert!(attacker.missions[0].light_fighter < 10);
    assert_eq!(defender.deathstar, 1);
    assert_eq!(defender_res.metal, 1_000);
}

#[test]
fn initialize_systems_set_up_a_first_planet_and_a_colony() {
    let auth = key(4);
    let mut p = planet();
    let mut res = Resources::default();
    let mut fleet = Fleet::default();
    let mut args = vec![0u8; 65];
    args[0..8].copy_from_slice(&77i64.to_le_bytes());
    args[32] = 9;
    system_initialize::execute(auth, &mut p, &mut res, &mut fleet, &args).unwrap();
    assert_eq!(&p.name[..9], b"Homeworld");
    assert_eq!(p.galaxy, 5);
    assert_eq!(p.used_fields, 3);
    assert_eq!(p.entity.bytes[0], 9);
    assert_eq!(res.metal, 1_000_000);
    assert_eq!(res.last_update_ts, 77);
    assert_eq!(fleet.creator.bytes, auth.bytes);
    assert_eq!(system_initialize::execute(auth, &mut p, &mut res, &mut fleet, &args), Err(InitError::AlreadyInitialized));

    let mut colony = planet();
    let mut colony_res = Resources::default();
    let mut cargs = vec![0u8; 105];
    cargs[8..10].copy_from_slice(&2u16.to_le_bytes());
    cargs[10..12].copy_from_slice(&30u16.to_le_bytes());
    cargs[12] = 4;
    cargs[81..89].copy_from_slice(&500u64.to_le_bytes());
    assert_eq!(
        system_initialize_new_colony::execute(auth, &mut colony, &mut colony_res, &cargs),
        Err(InitNewColonyError::InvalidArgs)
    );
    cargs[45] = 1;
    system_initialize_new_colony::execute(auth, &mut colony, &mut colony_res, &cargs).unwrap();
    assert_eq!(&colony.name[..6], b"Colony");
    assert_eq!(colony.temperature, 72);
    assert_eq!(colony.max_fields, 163 + 36);
    assert_eq!(colony.diameter, 8_000 + (2 * 997 + 30 * 37 + 4 * 101));
    assert_eq!(colony_res.metal, 500);
}

#[test]
fn colonize_resolution_frees_the_slot() {
    let mut fleet = Fleet::default();
    fleet.missions[2] = FleetMission {
        mission_type: 5,
        arrive_ts: 50,
        colony_ship: 1,
        target_galaxy: 1,
        target_system: 1,
        target_position: 1,
        ..FleetMission::empty()
    };
    fleet.active_missions = 1;
    assert_eq!(system_resolve_colonize::execute(&mut fleet, &time_args(&[2], 40)), Err(ResolveColonizeError::MissionInFlight));
    assert_eq!(system_resolve_colonize::execute(&mut fleet, &time_args(&[1], 60)), Err(ResolveColonizeError::InvalidMission));
    system_resolve_colonize::execute(&mut fleet, &time_args(&[2], 60)).unwrap();
    assert_eq!(fleet.missions[2].mission_type, 0);
    assert_eq!(fleet.active_missions, 0);
}

#[test]
fn registry_counts_a_wallets_planets() {
    let wallet = key(6);
    let mut meta = WalletMeta { wallet: Key::zero(), planet_count: 7 };
    init_wallet_meta(&mut meta, wallet).unwrap();
    assert_eq!(meta.planet_count, 0);
    assert_eq!(init_wallet_meta(&mut meta, key(8)), Err(RegistryError::WalletMismatch));
    let (entry, coord) = register_planet(wallet, &mut meta, key(1), key(2), 3, 4, 5, 99).unwrap();
    assert_eq!(entry.planet_index, 0);
    assert_eq!(entry.created_at, 99);
    assert_eq!(coord.position, 5);
    assert_eq!(meta.planet_count, 1);
    assert_eq!(register_planet(wallet, &mut meta, key(1), key(2), 10, 4, 5, 99).err(), Some(RegistryError::InvalidGalaxy));
    assert_eq!(register_planet(wallet, &mut meta, key(1), key(2), 3, 500, 5, 99).err(), Some(RegistryError::InvalidSystem));
    assert_eq!(register_planet(wallet, &mut meta, key(1), key(2), 3, 4, 16, 99).err(), Some(RegistryError::InvalidPosition));
}
