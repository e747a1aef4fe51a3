//! Quests: the tutorial, the daily, weekly and monthly rotating quests drawn from catalogs,
//! daily check-ins, and the counters of quest-relevant actions.
use vstd::prelude::*;

use crate::accounts::QuestProgressState;
use crate::bytes::{read_u32_at, read_u8_at, u32_at};
use crate::constants::ANTIMATTER_SCALE;
use crate::error::GameStateError;
use crate::key::Key;
use crate::num::{clamp_u64, sat_mul};
use crate::planet::PlanetState;
use crate::planet_bytes::{deposit_fields_from, read_planet_deposit_fields, PlanetDepositFields, PLANET_DEPOSIT_MIN_LEN};

verus! {

/// What a quest asks of a planet: a building or research level, a count of ships or defenses
/// in all, or a count of one kind.
#[derive(Clone, Copy, Debug, PartialEq, Eq, Structural)]
pub enum QuestRequirement {
    MetalMine(u8),
    CrystalMine(u8),
    DeuteriumSynthesizer(u8),
    SolarPlant(u8),
    FusionReactor(u8),
    RoboticsFactory(u8),
    NaniteFactory(u8),
    Shipyard(u8),
    ResearchLab(u8),
    MetalStorage(u8),
    CrystalStorage(u8),
    DeuteriumTank(u8),
    EnergyTech(u8),
    CombustionDrive(u8),
    ImpulseDrive(u8),
    HyperspaceDrive(u8),
    ComputerTech(u8),
    Astrophysics(u8),
    IgrNetwork(u8),
    WeaponsTechnology(u8),
    ShieldingTechnology(u8),
    ArmorTechnology(u8),
    Ships(u64),
    Defenses(u64),
    SmallCargo(u32),
    LargeCargo(u32),
    LightFighter(u32),
    HeavyFighter(u32),
    Cruiser(u32),
    Battleship(u32),
    Recycler(u32),
    EspionageProbe(u32),
    ColonyShip(u32),
    RocketLauncher(u32),
    LightLaser(u32),
    HeavyLaser(u32),
    GaussCannon(u32),
    IonCannon(u32),
    PlasmaTurret(u32),
}

/// A rotating quest: what it asks and what it grants.
#[derive(Clone, Copy, Debug)]
pub struct QuestCatalogEntry {
    pub req: QuestRequirement,
    pub metal: u64,
    pub crystal: u64,
    pub deuterium: u64,
}

/// The figure a requirement asks for.
pub open spec fn req_value(req: QuestRequirement) -> u64 {
    match req {
        QuestRequirement::MetalMine(v) => v as u64,
        QuestRequirement::CrystalMine(v) => v as u64,
        QuestRequirement::DeuteriumSynthesizer(v) => v as u64,
        QuestRequirement::SolarPlant(v) => v as u64,
        QuestRequirement::FusionReactor(v) => v as u64,
        QuestRequirement::RoboticsFactory(v) => v as u64,
        QuestRequirement::NaniteFactory(v) => v as u64,
        QuestRequirement::Shipyard(v) => v as u64,
        QuestRequirement::ResearchLab(v) => v as u64,
        QuestRequirement::MetalStorage(v) => v as u64,
        QuestRequirement::CrystalStorage(v) => v as u64,
        QuestRequirement::DeuteriumTank(v) => v as u64,
        QuestRequirement::EnergyTech(v) => v as u64,
        QuestRequirement::CombustionDrive(v) => v as u64,
        QuestRequirement::ImpulseDrive(v) => v as u64,
        QuestRequirement::HyperspaceDrive(v) => v as u64,
        QuestRequirement::ComputerTech(v) => v as u64,
        QuestRequirement::Astrophysics(v) => v as u64,
        QuestRequirement::IgrNetwork(v) => v as u64,
        QuestRequirement::WeaponsTechnology(v) => v as u64,
        QuestRequirement::ShieldingTechnology(v) => v as u64,
        QuestRequirement::ArmorTechnology(v) => v as u64,
        QuestRequirement::Ships(v) => v as u64,
        QuestRequirement::Defenses(v) => v as u64,
        QuestRequirement::SmallCargo(v) => v as u64,
        QuestRequirement::LargeCargo(v) => v as u64,
        QuestRequirement::LightFighter(v) => v as u64,
        QuestRequirement::HeavyFighter(v) => v as u64,
        QuestRequirement::Cruiser(v) => v as u64,
        QuestRequirement::Battleship(v) => v as u64,
        QuestRequirement::Recycler(v) => v as u64,
        QuestRequirement::EspionageProbe(v) => v as u64,
        QuestRequirement::ColonyShip(v) => v as u64,
        QuestRequirement::RocketLauncher(v) => v as u64,
        QuestRequirement::LightLaser(v) => v as u64,
        QuestRequirement::HeavyLaser(v) => v as u64,
        QuestRequirement::GaussCannon(v) => v as u64,
        QuestRequirement::IonCannon(v) => v as u64,
        QuestRequirement::PlasmaTurret(v) => v as u64,
    }
}

/// Which counter of quest-relevant actions stands for a requirement in the rotating quests:
/// 1 store packs, 2 transports, 3 spy missions, 4 colonies, 5 ANTIMATTER spent, 6 attacks.
pub open spec fn req_category(req: QuestRequirement) -> u8 {
    match req {
        QuestRequirement::MetalMine(_) => 1,
        QuestRequirement::CrystalMine(_) => 1,
        QuestRequirement::DeuteriumSynthesizer(_) => 5,
        QuestRequirement::SolarPlant(_) => 2,
        QuestRequirement::FusionReactor(_) => 5,
        QuestRequirement::RoboticsFactory(_) => 5,
        QuestRequirement::NaniteFactory(_) => 5,
        QuestRequirement::Shipyard(_) => 5,
        QuestRequirement::ResearchLab(_) => 3,
        QuestRequirement::MetalStorage(_) => 1,
        QuestRequirement::CrystalStorage(_) => 1,
        QuestRequirement::DeuteriumTank(_) => 1,
        QuestRequirement::EnergyTech(_) => 5,
        QuestRequirement::CombustionDrive(_) => 5,
        QuestRequirement::ImpulseDrive(_) => 5,
        QuestRequirement::HyperspaceDrive(_) => 5,
        QuestRequirement::ComputerTech(_) => 3,
        QuestRequirement::Astrophysics(_) => 4,
        QuestRequirement::IgrNetwork(_) => 3,
        QuestRequirement::WeaponsTechnology(_) => 5,
        QuestRequirement::ShieldingTechnology(_) => 5,
        QuestRequirement::ArmorTechnology(_) => 5,
        QuestRequirement::Ships(_) => 6,
        QuestRequirement::Defenses(_) => 6,
        QuestRequirement::SmallCargo(_) => 2,
        QuestRequirement::LargeCargo(_) => 2,
        QuestRequirement::LightFighter(_) => 6,
        QuestRequirement::HeavyFighter(_) => 6,
        QuestRequirement::Cruiser(_) => 6,
        QuestRequirement::Battleship(_) => 6,
        QuestRequirement::Recycler(_) => 6,
        QuestRequirement::EspionageProbe(_) => 3,
        QuestRequirement::ColonyShip(_) => 4,
        QuestRequirement::RocketLauncher(_) => 6,
        QuestRequirement::LightLaser(_) => 6,
        QuestRequirement::HeavyLaser(_) => 6,
        QuestRequirement::GaussCannon(_) => 6,
        QuestRequirement::IonCannon(_) => 6,
        QuestRequirement::PlasmaTurret(_) => 6,
    }
}

/// How many ships a planet has, all kinds together.
pub open spec fn total_ships_spec(p: PlanetState) -> int {
    p.small_cargo + p.large_cargo + p.light_fighter + p.heavy_fighter + p.cruiser + p.battleship + p.battlecruiser + p.bomber + p.destroyer + p.deathstar + p.recycler + p.espionage_probe + p.colony_ship + p.solar_satellite
}

/// How many defenses a planet has, all kinds together.
pub open spec fn total_defenses_spec(p: PlanetState) -> int {
    p.rocket_launcher + p.light_laser + p.heavy_laser + p.gauss_cannon + p.ion_cannon + p.plasma_turret + p.small_shield_dome + p.large_shield_dome
}

/// How many ships a planet has, all kinds together.
pub fn total_ships(planet: &PlanetState) -> (r: u64)
    ensures
        r == total_ships_spec(*planet),
{
    planet.small_cargo as u64
        + planet.large_cargo as u64
        + planet.light_fighter as u64
        + planet.heavy_fighter as u64
        + planet.cruiser as u64
        + planet.battleship as u64
        + planet.battlecruiser as u64
        + planet.bomber as u64
        + planet.destroyer as u64
        + planet.deathstar as u64
        + planet.recycler as u64
        + planet.espionage_probe as u64
        + planet.colony_ship as u64
        + planet.solar_satellite as u64
}

/// How many defenses a planet has, all kinds together.
pub fn total_defenses(planet: &PlanetState) -> (r: u64)
    ensures
        r == total_defenses_spec(*planet),
{
    planet.rocket_launcher as u64
        + planet.light_laser as u64
        + planet.heavy_laser as u64
        + planet.gauss_cannon as u64
        + planet.ion_cannon as u64
        + planet.plasma_turret as u64
        + planet.small_shield_dome as u64
        + planet.large_shield_dome as u64
}

/// The planet's figure that a requirement is held against.
pub open spec fn req_current(req: QuestRequirement, p: PlanetState) -> int {
    match req {
        QuestRequirement::MetalMine(_) => p.metal_mine as int,
        QuestRequirement::CrystalMine(_) => p.crystal_mine as int,
        QuestRequirement::DeuteriumSynthesizer(_) => p.deuterium_synthesizer as int,
        QuestRequirement::SolarPlant(_) => p.solar_plant as int,
        QuestRequirement::FusionReactor(_) => p.fusion_reactor as int,
        QuestRequirement::RoboticsFactory(_) => p.robotics_factory as int,
        QuestRequirement::NaniteFactory(_) => p.nanite_factory as int,
        QuestRequirement::Shipyard(_) => p.shipyard as int,
        QuestRequirement::ResearchLab(_) => p.research_lab as int,
        QuestRequirement::MetalStorage(_) => p.metal_storage as int,
        QuestRequirement::CrystalStorage(_) => p.crystal_storage as int,
        QuestRequirement::DeuteriumTank(_) => p.deuterium_tank as int,
        QuestRequirement::EnergyTech(_) => p.energy_tech as int,
        QuestRequirement::CombustionDrive(_) => p.combustion_drive as int,
        QuestRequirement::ImpulseDrive(_) => p.impulse_drive as int,
        QuestRequirement::HyperspaceDrive(_) => p.hyperspace_drive as int,
        QuestRequirement::ComputerTech(_) => p.computer_tech as int,
        QuestRequirement::Astrophysics(_) => p.astrophysics as int,
        QuestRequirement::IgrNetwork(_) => p.igr_network as int,
        QuestRequirement::WeaponsTechnology(_) => p.weapons_technology as int,
        QuestRequirement::ShieldingTechnology(_) => p.shielding_technology as int,
        QuestRequirement::ArmorTechnology(_) => p.armor_technology as int,
        QuestRequirement::Ships(_) => total_ships_spec(p),
        QuestRequirement::Defenses(_) => total_defenses_spec(p),
        QuestRequirement::SmallCargo(_) => p.small_cargo as int,
        QuestRequirement::LargeCargo(_) => p.large_cargo as int,
        QuestRequirement::LightFighter(_) => p.light_fighter as int,
        QuestRequirement::HeavyFighter(_) => p.heavy_fighter as int,
        QuestRequirement::Cruiser(_) => p.cruiser as int,
        QuestRequirement::Battleship(_) => p.battleship as int,
        QuestRequirement::Recycler(_) => p.recycler as int,
        QuestRequirement::EspionageProbe(_) => p.espionage_probe as int,
        QuestRequirement::ColonyShip(_) => p.colony_ship as int,
        QuestRequirement::RocketLauncher(_) => p.rocket_launcher as int,
        QuestRequirement::LightLaser(_) => p.light_laser as int,
        QuestRequirement::HeavyLaser(_) => p.heavy_laser as int,
        QuestRequirement::GaussCannon(_) => p.gauss_cannon as int,
        QuestRequirement::IonCannon(_) => p.ion_cannon as int,
        QuestRequirement::PlasmaTurret(_) => p.plasma_turret as int,
    }
}

/// Whether the planet meets the requirement.
pub open spec fn requirement_met_spec(req: QuestRequirement, p: PlanetState) -> bool {
    req_current(req, p) >= req_value(req)
}

/// Whether the planet meets the requirement.
pub fn requirement_met(req: QuestRequirement, planet: &PlanetState) -> (r: bool)
    ensures
        r == requirement_met_spec(req, *planet),
{
    match req {
        QuestRequirement::MetalMine(v) => planet.metal_mine >= v,
        QuestRequirement::CrystalMine(v) => planet.crystal_mine >= v,
        QuestRequirement::DeuteriumSynthesizer(v) => planet.deuterium_synthesizer >= v,
        QuestRequirement::SolarPlant(v) => planet.solar_plant >= v,
        QuestRequirement::FusionReactor(v) => planet.fusion_reactor >= v,
        QuestRequirement::RoboticsFactory(v) => planet.robotics_factory >= v,
        QuestRequirement::NaniteFactory(v) => planet.nanite_factory >= v,
        QuestRequirement::Shipyard(v) => planet.shipyard >= v,
        QuestRequirement::ResearchLab(v) => planet.research_lab >= v,
        QuestRequirement::MetalStorage(v) => planet.metal_storage >= v,
        QuestRequirement::CrystalStorage(v) => planet.crystal_storage >= v,
        QuestRequirement::DeuteriumTank(v) => planet.deuterium_tank >= v,
        QuestRequirement::EnergyTech(v) => planet.energy_tech >= v,
        QuestRequirement::CombustionDrive(v) => planet.combustion_drive >= v,
        QuestRequirement::ImpulseDrive(v) => planet.impulse_drive >= v,
        QuestRequirement::HyperspaceDrive(v) => planet.hyperspace_drive >= v,
        QuestRequirement::ComputerTech(v) => planet.computer_tech >= v,
        QuestRequirement::Astrophysics(v) => planet.astrophysics >= v,
        QuestRequirement::IgrNetwork(v) => planet.igr_network >= v,
        QuestRequirement::WeaponsTechnology(v) => planet.weapons_technology >= v,
        QuestRequirement::ShieldingTechnology(v) => planet.shielding_technology >= v,
        QuestRequirement::ArmorTechnology(v) => planet.armor_technology >= v,
        QuestRequirement::Ships(v) => total_ships(planet) >= v,
        QuestRequirement::Defenses(v) => total_defenses(planet) >= v,
        QuestRequirement::SmallCargo(v) => planet.small_cargo >= v,
        QuestRequirement::LargeCargo(v) => planet.large_cargo >= v,
        QuestRequirement::LightFighter(v) => planet.light_fighter >= v,
        QuestRequirement::HeavyFighter(v) => planet.heavy_fighter >= v,
        QuestRequirement::Cruiser(v) => planet.cruiser >= v,
        QuestRequirement::Battleship(v) => planet.battleship >= v,
        QuestRequirement::Recycler(v) => planet.recycler >= v,
        QuestRequirement::EspionageProbe(v) => planet.espionage_probe >= v,
        QuestRequirement::ColonyShip(v) => planet.colony_ship >= v,
        QuestRequirement::RocketLauncher(v) => planet.rocket_launcher >= v,
        QuestRequirement::LightLaser(v) => planet.light_laser >= v,
        QuestRequirement::HeavyLaser(v) => planet.heavy_laser >= v,
        QuestRequirement::GaussCannon(v) => planet.gauss_cannon >= v,
        QuestRequirement::IonCannon(v) => planet.ion_cannon >= v,
        QuestRequirement::PlasmaTurret(v) => planet.plasma_turret >= v,
    }
}

/// The fields of a planet record that the quest fast paths read.
#[derive(Clone, Copy, Debug)]
pub struct PlanetQuestFields {
    pub deposit: PlanetDepositFields,
    pub metal_mine: u8,
    pub crystal_mine: u8,
    pub deuterium_synthesizer: u8,
    pub solar_plant: u8,
    pub fusion_reactor: u8,
    pub robotics_factory: u8,
    pub nanite_factory: u8,
    pub shipyard: u8,
    pub metal_storage: u8,
    pub crystal_storage: u8,
    pub deuterium_tank: u8,
    pub research_lab: u8,
    pub energy_tech: u8,
    pub combustion_drive: u8,
    pub impulse_drive: u8,
    pub hyperspace_drive: u8,
    pub computer_tech: u8,
    pub astrophysics: u8,
    pub igr_network: u8,
    pub weapons_technology: u8,
    pub shielding_technology: u8,
    pub armor_technology: u8,
    pub small_cargo: u32,
    pub large_cargo: u32,
    pub light_fighter: u32,
    pub heavy_fighter: u32,
    pub cruiser: u32,
    pub battleship: u32,
    pub battlecruiser: u32,
    pub bomber: u32,
    pub destroyer: u32,
    pub deathstar: u32,
    pub recycler: u32,
    pub espionage_probe: u32,
    pub colony_ship: u32,
    pub solar_satellite: u32,
    pub rocket_launcher: u32,
    pub light_laser: u32,
    pub heavy_laser: u32,
    pub gauss_cannon: u32,
    pub ion_cannon: u32,
    pub plasma_turret: u32,
    pub small_shield_dome: u32,
    pub large_shield_dome: u32,
}

/// Whether `f` holds the quest fields of the record bytes `d`.
pub open spec fn quest_fields_from(f: PlanetQuestFields, d: Seq<u8>) -> bool {
    &&& deposit_fields_from(f.deposit, d)
    &&& f.metal_mine == d[123]
    &&& f.crystal_mine == d[124]
    &&& f.deuterium_synthesizer == d[125]
    &&& f.solar_plant == d[126]
    &&& f.fusion_reactor == d[127]
    &&& f.robotics_factory == d[128]
    &&& f.nanite_factory == d[129]
    &&& f.shipyard == d[130]
    &&& f.metal_storage == d[131]
    &&& f.crystal_storage == d[132]
    &&& f.deuterium_tank == d[133]
    &&& f.research_lab == d[134]
    &&& f.energy_tech == d[136]
    &&& f.combustion_drive == d[137]
    &&& f.impulse_drive == d[138]
    &&& f.hyperspace_drive == d[139]
    &&& f.computer_tech == d[140]
    &&& f.astrophysics == d[141]
    &&& f.igr_network == d[142]
    &&& f.weapons_technology == d[143]
    &&& f.shielding_technology == d[144]
    &&& f.armor_technology == d[145]
    &&& f.small_cargo == u32_at(d, 310)
    &&& f.large_cargo == u32_at(d, 314)
    &&& f.light_fighter == u32_at(d, 318)
    &&& f.heavy_fighter == u32_at(d, 322)
    &&& f.cruiser == u32_at(d, 326)
    &&& f.battleship == u32_at(d, 330)
    &&& f.battlecruiser == u32_at(d, 334)
    &&& f.bomber == u32_at(d, 338)
    &&& f.destroyer == u32_at(d, 342)
    &&& f.deathstar == u32_at(d, 346)
    &&& f.recycler == u32_at(d, 350)
    &&& f.espionage_probe == u32_at(d, 354)
    &&& f.colony_ship == u32_at(d, 358)
    &&& f.solar_satellite == u32_at(d, 362)
    &&& f.rocket_launcher == u32_at(d, 366)
    &&& f.light_laser == u32_at(d, 370)
    &&& f.heavy_laser == u32_at(d, 374)
    &&& f.gauss_cannon == u32_at(d, 378)
    &&& f.ion_cannon == u32_at(d, 382)
    &&& f.plasma_turret == u32_at(d, 386)
    &&& f.small_shield_dome == u32_at(d, 390)
    &&& f.large_shield_dome == u32_at(d, 394)
}

/// Reads the fields of a planet record that the quest fast paths use; refused as the resource
/// fields are.
pub fn read_planet_quest_fields(owner: Key, program_id: Key, data: &[u8]) -> (r: Result<PlanetQuestFields, GameStateError>)
    ensures
        owner@ != program_id@ ==> r == Err::<PlanetQuestFields, GameStateError>(GameStateError::Unauthorized),
        owner@ == program_id@ && data@.len() < PLANET_DEPOSIT_MIN_LEN ==> r == Err::<PlanetQuestFields, GameStateError>(GameStateError::InvalidArgs),
        owner@ == program_id@ && data@.len() >= PLANET_DEPOSIT_MIN_LEN ==> (r matches Ok(f) && quest_fields_from(f, data@)),
{
    let deposit = match read_planet_deposit_fields(owner, program_id, data) {
        Ok(f) => f,
        Err(e) => {
            return Err(e);
        },
    };
    Ok(PlanetQuestFields {
        deposit,
        metal_mine: read_u8_at(data, 123),
        crystal_mine: read_u8_at(data, 124),
        deuterium_synthesizer: read_u8_at(data, 125),
        solar_plant: read_u8_at(data, 126),
        fusion_reactor: read_u8_at(data, 127),
        robotics_factory: read_u8_at(data, 128),
        nanite_factory: read_u8_at(data, 129),
        shipyard: read_u8_at(data, 130),
        metal_storage: read_u8_at(data, 131),
        crystal_storage: read_u8_at(data, 132),
        deuterium_tank: read_u8_at(data, 133),
        research_lab: read_u8_at(data, 134),
        energy_tech: read_u8_at(data, 136),
        combustion_drive: read_u8_at(data, 137),
        impulse_drive: read_u8_at(data, 138),
        hyperspace_drive: read_u8_at(data, 139),
        computer_tech: read_u8_at(data, 140),
        astrophysics: read_u8_at(data, 141),
        igr_network: read_u8_at(data, 142),
        weapons_technology: read_u8_at(data, 143),
        shielding_technology: read_u8_at(data, 144),
        armor_technology: read_u8_at(data, 145),
        small_cargo: read_u32_at(data, 310),
        large_cargo: read_u32_at(data, 314),
        light_fighter: read_u32_at(data, 318),
        heavy_fighter: read_u32_at(data, 322),
        cruiser: read_u32_at(data, 326),
        battleship: read_u32_at(data, 330),
        battlecruiser: read_u32_at(data, 334),
        bomber: read_u32_at(data, 338),
        destroyer: read_u32_at(data, 342),
        deathstar: read_u32_at(data, 346),
        recycler: read_u32_at(data, 350),
        espionage_probe: read_u32_at(data, 354),
        colony_ship: read_u32_at(data, 358),
        solar_satellite: read_u32_at(data, 362),
        rocket_launcher: read_u32_at(data, 366),
        light_laser: read_u32_at(data, 370),
        heavy_laser: read_u32_at(data, 374),
        gauss_cannon: read_u32_at(data, 378),
        ion_cannon: read_u32_at(data, 382),
        plasma_turret: read_u32_at(data, 386),
        small_shield_dome: read_u32_at(data, 390),
        large_shield_dome: read_u32_at(data, 394),
    })
}

/// How many ships the quest fields count, summed with saturation.
pub open spec fn total_ships_live_spec(p: PlanetQuestFields) -> u32 {
    p.small_cargo.saturating_add(p.large_cargo).saturating_add(p.light_fighter).saturating_add(p.heavy_fighter).saturating_add(p.cruiser).saturating_add(p.battleship).saturating_add(p.battlecruiser).saturating_add(p.bomber).saturating_add(p.destroyer).saturating_add(p.deathstar).saturating_add(p.recycler).saturating_add(p.espionage_probe).saturating_add(p.colony_ship).saturating_add(p.solar_satellite)
}

/// How many defenses the quest fields count, summed with saturation.
pub open spec fn total_defenses_live_spec(p: PlanetQuestFields) -> u32 {
    p.rocket_launcher.saturating_add(p.light_laser).saturating_add(p.heavy_laser).saturating_add(p.gauss_cannon).saturating_add(p.ion_cannon).saturating_add(p.plasma_turret).saturating_add(p.small_shield_dome).saturating_add(p.large_shield_dome)
}

/// How many ships the quest fields count, summed with saturation.
pub fn total_ships_live(planet: &PlanetQuestFields) -> (r: u32)
    ensures
        r == total_ships_live_spec(*planet),
{
    planet.small_cargo.saturating_add(planet.large_cargo).saturating_add(planet.light_fighter).saturating_add(planet.heavy_fighter).saturating_add(planet.cruiser).saturating_add(planet.battleship).saturating_add(planet.battlecruiser).saturating_add(planet.bomber).saturating_add(planet.destroyer).saturating_add(planet.deathstar).saturating_add(planet.recycler).saturating_add(planet.espionage_probe).saturating_add(planet.colony_ship).saturating_add(planet.solar_satellite)
}

/// How many defenses the quest fields count, summed with saturation.
pub fn total_defenses_live(planet: &PlanetQuestFields) -> (r: u32)
    ensures
        r == total_defenses_live_spec(*planet),
{
    planet.rocket_launcher.saturating_add(planet.light_laser).saturating_add(planet.heavy_laser).saturating_add(planet.gauss_cannon).saturating_add(planet.ion_cannon).saturating_add(planet.plasma_turret).saturating_add(planet.small_shield_dome).saturating_add(planet.large_shield_dome)
}

/// The figure of the quest fields that a requirement is held against.
pub open spec fn req_current_live(req: QuestRequirement, p: PlanetQuestFields) -> int {
    match req {
        QuestRequirement::MetalMine(_) => p.metal_mine as int,
        QuestRequirement::CrystalMine(_) => p.crystal_mine as int,
        QuestRequirement::DeuteriumSynthesizer(_) => p.deuterium_synthesizer as int,
        QuestRequirement::SolarPlant(_) => p.solar_plant as int,
        QuestRequirement::FusionReactor(_) => p.fusion_reactor as int,
        QuestRequirement::RoboticsFactory(_) => p.robotics_factory as int,
        QuestRequirement::NaniteFactory(_) => p.nanite_factory as int,
        QuestRequirement::Shipyard(_) => p.shipyard as int,
        QuestRequirement::ResearchLab(_) => p.research_lab as int,
        QuestRequirement::MetalStorage(_) => p.metal_storage as int,
        QuestRequirement::CrystalStorage(_) => p.crystal_storage as int,
        QuestRequirement::DeuteriumTank(_) => p.deuterium_tank as int,
        QuestRequirement::EnergyTech(_) => p.energy_tech as int,
        QuestRequirement::CombustionDrive(_) => p.combustion_drive as int,
        QuestRequirement::ImpulseDrive(_) => p.impulse_drive as int,
        QuestRequirement::HyperspaceDrive(_) => p.hyperspace_drive as int,
        QuestRequirement::ComputerTech(_) => p.computer_tech as int,
        QuestRequirement::Astrophysics(_) => p.astrophysics as int,
        QuestRequirement::IgrNetwork(_) => p.igr_network as int,
        QuestRequirement::WeaponsTechnology(_) => p.weapons_technology as int,
        QuestRequirement::ShieldingTechnology(_) => p.shielding_technology as int,
        QuestRequirement::ArmorTechnology(_) => p.armor_technology as int,
        QuestRequirement::Ships(_) => total_ships_live_spec(p) as int,
        QuestRequirement::Defenses(_) => total_defenses_live_spec(p) as int,
        QuestRequirement::SmallCargo(_) => p.small_cargo as int,
        QuestRequirement::LargeCargo(_) => p.large_cargo as int,
        QuestRequirement::LightFighter(_) => p.light_fighter as int,
        QuestRequirement::HeavyFighter(_) => p.heavy_fighter as int,
        QuestRequirement::Cruiser(_) => p.cruiser as int,
        QuestRequirement::Battleship(_) => p.battleship as int,
        QuestRequirement::Recycler(_) => p.recycler as int,
        QuestRequirement::EspionageProbe(_) => p.espionage_probe as int,
        QuestRequirement::ColonyShip(_) => p.colony_ship as int,
        QuestRequirement::RocketLauncher(_) => p.rocket_launcher as int,
        QuestRequirement::LightLaser(_) => p.light_laser as int,
        QuestRequirement::HeavyLaser(_) => p.heavy_laser as int,
        QuestRequirement::GaussCannon(_) => p.gauss_cannon as int,
        QuestRequirement::IonCannon(_) => p.ion_cannon as int,
        QuestRequirement::PlasmaTurret(_) => p.plasma_turret as int,
    }
}

/// Whether the quest fields meet the requirement.
pub open spec fn requirement_met_live_spec(req: QuestRequirement, p: PlanetQuestFields) -> bool {
    req_current_live(req, p) >= req_value(req)
}

/// Whether the quest fields meet the requirement.
pub fn requirement_met_live(req: QuestRequirement, planet: &PlanetQuestFields) -> (r: bool)
    ensures
        r == requirement_met_live_spec(req, *planet),
{
    match req {
        QuestRequirement::MetalMine(v) => planet.metal_mine >= v,
        QuestRequirement::CrystalMine(v) => planet.crystal_mine >= v,
        QuestRequirement::DeuteriumSynthesizer(v) => planet.deuterium_synthesizer >= v,
        QuestRequirement::SolarPlant(v) => planet.solar_plant >= v,
        QuestRequirement::FusionReactor(v) => planet.fusion_reactor >= v,
        QuestRequirement::RoboticsFactory(v) => planet.robotics_factory >= v,
        QuestRequirement::NaniteFactory(v) => planet.nanite_factory >= v,
        QuestRequirement::Shipyard(v) => planet.shipyard >= v,
        QuestRequirement::ResearchLab(v) => planet.research_lab >= v,
        QuestRequirement::MetalStorage(v) => planet.metal_storage >= v,
        QuestRequirement::CrystalStorage(v) => planet.crystal_storage >= v,
        QuestRequirement::DeuteriumTank(v) => planet.deuterium_tank >= v,
        QuestRequirement::EnergyTech(v) => planet.energy_tech >= v,
        QuestRequirement::CombustionDrive(v) => planet.combustion_drive >= v,
        QuestRequirement::ImpulseDrive(v) => planet.impulse_drive >= v,
        QuestRequirement::HyperspaceDrive(v) => planet.hyperspace_drive >= v,
        QuestRequirement::ComputerTech(v) => planet.computer_tech >= v,
        QuestRequirement::Astrophysics(v) => planet.astrophysics >= v,
        QuestRequirement::IgrNetwork(v) => planet.igr_network >= v,
        QuestRequirement::WeaponsTechnology(v) => planet.weapons_technology >= v,
        QuestRequirement::ShieldingTechnology(v) => planet.shielding_technology >= v,
        QuestRequirement::ArmorTechnology(v) => planet.armor_technology >= v,
        QuestRequirement::Ships(v) => total_ships_live(planet) as u64 >= v,
        QuestRequirement::Defenses(v) => total_defenses_live(planet) as u64 >= v,
        QuestRequirement::SmallCargo(v) => planet.small_cargo >= v,
        QuestRequirement::LargeCargo(v) => planet.large_cargo >= v,
        QuestRequirement::LightFighter(v) => planet.light_fighter >= v,
        QuestRequirement::HeavyFighter(v) => planet.heavy_fighter >= v,
        QuestRequirement::Cruiser(v) => planet.cruiser >= v,
        QuestRequirement::Battleship(v) => planet.battleship >= v,
        QuestRequirement::Recycler(v) => planet.recycler >= v,
        QuestRequirement::EspionageProbe(v) => planet.espionage_probe >= v,
        QuestRequirement::ColonyShip(v) => planet.colony_ship >= v,
        QuestRequirement::RocketLauncher(v) => planet.rocket_launcher >= v,
        QuestRequirement::LightLaser(v) => planet.light_laser >= v,
        QuestRequirement::HeavyLaser(v) => planet.heavy_laser >= v,
        QuestRequirement::GaussCannon(v) => planet.gauss_cannon >= v,
        QuestRequirement::IonCannon(v) => planet.ion_cannon >= v,
        QuestRequirement::PlasmaTurret(v) => planet.plasma_turret >= v,
    }
}

/// Entry `idx` (0..23) of the rotating quest catalog of `period` (1 day, 2 week, 3 month).
#[verifier::opaque]
pub open spec fn catalog_spec(period: u8, idx: u64) -> QuestCatalogEntry {
    let e = |req: QuestRequirement, metal: u64, crystal: u64, deuterium: u64| QuestCatalogEntry { req, metal, crystal, deuterium };
    match (period, idx) {
        (1, 0) => e(QuestRequirement::MetalMine(3), 1_000, 500, 100),
        (1, 1) => e(QuestRequirement::CrystalMine(3), 500, 1_000, 100),
        (1, 2) => e(QuestRequirement::SolarPlant(4), 700, 700, 150),
        (1, 3) => e(QuestRequirement::DeuteriumSynthesizer(2), 600, 500, 300),
        (1, 4) => e(QuestRequirement::RoboticsFactory(1), 800, 650, 150),
        (1, 5) => e(QuestRequirement::Shipyard(2), 1_200, 900, 250),
        (1, 6) => e(QuestRequirement::ResearchLab(1), 900, 900, 250),
        (1, 7) => e(QuestRequirement::EnergyTech(1), 800, 800, 250),
        (1, 8) => e(QuestRequirement::ComputerTech(1), 800, 1_000, 300),
        (1, 9) => e(QuestRequirement::Ships(3), 1_500, 1_000, 250),
        (1, 10) => e(QuestRequirement::Defenses(3), 1_200, 800, 150),
        (1, 11) => e(QuestRequirement::SmallCargo(2), 1_000, 700, 200),
        (1, 12) => e(QuestRequirement::LightFighter(2), 1_100, 700, 200),
        (1, 13) => e(QuestRequirement::RocketLauncher(3), 900, 500, 100),
        (1, 14) => e(QuestRequirement::LightLaser(1), 1_000, 700, 100),
        (1, 15) => e(QuestRequirement::EspionageProbe(1), 700, 700, 250),
        (1, 16) => e(QuestRequirement::CombustionDrive(1), 900, 600, 300),
        (1, 17) => e(QuestRequirement::MetalStorage(1), 700, 500, 100),
        (1, 18) => e(QuestRequirement::CrystalStorage(1), 500, 700, 100),
        (1, 19) => e(QuestRequirement::DeuteriumTank(1), 600, 500, 250),
        (1, 20) => e(QuestRequirement::HeavyFighter(1), 1_400, 1_000, 350),
        (1, 21) => e(QuestRequirement::ShieldingTechnology(1), 900, 1_100, 250),
        (1, 22) => e(QuestRequirement::ArmorTechnology(1), 1_100, 800, 250),
        (2, 0) => e(QuestRequirement::ResearchLab(2), 6_000, 7_000, 2_000),
        (2, 1) => e(QuestRequirement::Shipyard(2), 8_000, 5_000, 1_500),
        (2, 2) => e(QuestRequirement::Ships(5), 9_000, 6_000, 2_500),
        (2, 3) => e(QuestRequirement::Defenses(5), 8_000, 7_000, 1_500),
        (2, 4) => e(QuestRequirement::MetalMine(5), 10_000, 3_000, 500),
        (2, 5) => e(QuestRequirement::CrystalMine(5), 4_000, 10_000, 500),
        (2, 6) => e(QuestRequirement::DeuteriumSynthesizer(4), 5_000, 4_000, 3_000),
        (2, 7) => e(QuestRequirement::CombustionDrive(2), 5_000, 3_000, 3_000),
        (2, 8) => e(QuestRequirement::ComputerTech(2), 4_000, 5_000, 3_000),
        (2, 9) => e(QuestRequirement::SmallCargo(5), 9_000, 7_000, 1_500),
        (2, 10) => e(QuestRequirement::RocketLauncher(10), 12_000, 3_000, 500),
        (2, 11) => e(QuestRequirement::LargeCargo(1), 8_000, 8_000, 2_000),
        (2, 12) => e(QuestRequirement::LightFighter(5), 8_000, 5_000, 1_500),
        (2, 13) => e(QuestRequirement::HeavyFighter(2), 9_000, 8_000, 3_000),
        (2, 14) => e(QuestRequirement::Recycler(1), 8_000, 7_000, 2_500),
        (2, 15) => e(QuestRequirement::EspionageProbe(5), 5_000, 6_000, 2_000),
        (2, 16) => e(QuestRequirement::SolarPlant(8), 8_000, 5_000, 1_000),
        (2, 17) => e(QuestRequirement::RoboticsFactory(3), 8_000, 6_000, 1_500),
        (2, 18) => e(QuestRequirement::EnergyTech(2), 6_000, 7_000, 2_500),
        (2, 19) => e(QuestRequirement::WeaponsTechnology(1), 8_000, 5_000, 2_000),
        (2, 20) => e(QuestRequirement::ShieldingTechnology(1), 7_000, 8_000, 2_000),
        (2, 21) => e(QuestRequirement::ArmorTechnology(1), 8_000, 7_000, 2_000),
        (2, 22) => e(QuestRequirement::LightLaser(5), 7_000, 5_000, 1_000),
        (3, 0) => e(QuestRequirement::ImpulseDrive(1), 30_000, 25_000, 12_000),
        (3, 1) => e(QuestRequirement::Astrophysics(1), 25_000, 35_000, 15_000),
        (3, 2) => e(QuestRequirement::Ships(25), 45_000, 30_000, 15_000),
        (3, 3) => e(QuestRequirement::Defenses(25), 40_000, 35_000, 12_000),
        (3, 4) => e(QuestRequirement::MetalMine(10), 50_000, 15_000, 3_000),
        (3, 5) => e(QuestRequirement::CrystalMine(10), 20_000, 50_000, 3_000),
        (3, 6) => e(QuestRequirement::SolarPlant(12), 25_000, 25_000, 5_000),
        (3, 7) => e(QuestRequirement::ResearchLab(5), 30_000, 40_000, 15_000),
        (3, 8) => e(QuestRequirement::Shipyard(5), 45_000, 35_000, 10_000),
        (3, 9) => e(QuestRequirement::ComputerTech(5), 30_000, 35_000, 20_000),
        (3, 10) => e(QuestRequirement::ColonyShip(1), 60_000, 50_000, 20_000),
        (3, 11) => e(QuestRequirement::Battleship(1), 70_000, 50_000, 25_000),
        (3, 12) => e(QuestRequirement::Cruiser(3), 55_000, 45_000, 18_000),
        (3, 13) => e(QuestRequirement::Recycler(5), 45_000, 35_000, 18_000),
        (3, 14) => e(QuestRequirement::HeavyLaser(10), 35_000, 30_000, 8_000),
        (3, 15) => e(QuestRequirement::GaussCannon(3), 45_000, 35_000, 10_000),
        (3, 16) => e(QuestRequirement::IonCannon(3), 35_000, 45_000, 12_000),
        (3, 17) => e(QuestRequirement::PlasmaTurret(1), 60_000, 45_000, 18_000),
        (3, 18) => e(QuestRequirement::FusionReactor(3), 35_000, 35_000, 16_000),
        (3, 19) => e(QuestRequirement::NaniteFactory(1), 80_000, 60_000, 20_000),
        (3, 20) => e(QuestRequirement::HyperspaceDrive(1), 50_000, 55_000, 25_000),
        (3, 21) => e(QuestRequirement::IgrNetwork(1), 45_000, 60_000, 20_000),
        (3, 22) => e(QuestRequirement::WeaponsTechnology(3), 55_000, 45_000, 20_000),
        _ => e(QuestRequirement::MetalMine(0), 0, 0, 0),
    }
}

/// Entry `idx` of the rotating quest catalog of `period`.
pub fn catalog_entry(period: u8, idx: u64) -> (e: QuestCatalogEntry)
    requires
        1 <= period <= 3,
        idx < 23,
    ensures
        e == catalog_spec(period, idx),
{
    reveal(catalog_spec);
    let (req, metal, crystal, deuterium): (QuestRequirement, u64, u64, u64) = match (period, idx) {
        (1, 0) => (QuestRequirement::MetalMine(3), 1_000, 500, 100),
        (1, 1) => (QuestRequirement::CrystalMine(3), 500, 1_000, 100),
        (1, 2) => (QuestRequirement::SolarPlant(4), 700, 700, 150),
        (1, 3) => (QuestRequirement::DeuteriumSynthesizer(2), 600, 500, 300),
        (1, 4) => (QuestRequirement::RoboticsFactory(1), 800, 650, 150),
        (1, 5) => (QuestRequirement::Shipyard(2), 1_200, 900, 250),
        (1, 6) => (QuestRequirement::ResearchLab(1), 900, 900, 250),
        (1, 7) => (QuestRequirement::EnergyTech(1), 800, 800, 250),
        (1, 8) => (QuestRequirement::ComputerTech(1), 800, 1_000, 300),
        (1, 9) => (QuestRequirement::Ships(3), 1_500, 1_000, 250),
        (1, 10) => (QuestRequirement::Defenses(3), 1_200, 800, 150),
        (1, 11) => (QuestRequirement::SmallCargo(2), 1_000, 700, 200),
        (1, 12) => (QuestRequirement::LightFighter(2), 1_100, 700, 200),
        (1, 13) => (QuestRequirement::RocketLauncher(3), 900, 500, 100),
        (1, 14) => (QuestRequirement::LightLaser(1), 1_000, 700, 100),
        (1, 15) => (QuestRequirement::EspionageProbe(1), 700, 700, 250),
        (1, 16) => (QuestRequirement::CombustionDrive(1), 900, 600, 300),
        (1, 17) => (QuestRequirement::MetalStorage(1), 700, 500, 100),
        (1, 18) => (QuestRequirement::CrystalStorage(1), 500, 700, 100),
        (1, 19) => (QuestRequirement::DeuteriumTank(1), 600, 500, 250),
        (1, 20) => (QuestRequirement::HeavyFighter(1), 1_400, 1_000, 350),
        (1, 21) => (QuestRequirement::ShieldingTechnology(1), 900, 1_100, 250),
        (1, 22) => (QuestRequirement::ArmorTechnology(1), 1_100, 800, 250),
        (2, 0) => (QuestRequirement::ResearchLab(2), 6_000, 7_000, 2_000),
        (2, 1) => (QuestRequirement::Shipyard(2), 8_000, 5_000, 1_500),
        (2, 2) => (QuestRequirement::Ships(5), 9_000, 6_000, 2_500),
        (2, 3) => (QuestRequirement::Defenses(5), 8_000, 7_000, 1_500),
        (2, 4) => (QuestRequirement::MetalMine(5), 10_000, 3_000, 500),
        (2, 5) => (QuestRequirement::CrystalMine(5), 4_000, 10_000, 500),
        (2, 6) => (QuestRequirement::DeuteriumSynthesizer(4), 5_000, 4_000, 3_000),
        (2, 7) => (QuestRequirement::CombustionDrive(2), 5_000, 3_000, 3_000),
        (2, 8) => (QuestRequirement::ComputerTech(2), 4_000, 5_000, 3_000),
        (2, 9) => (QuestRequirement::SmallCargo(5), 9_000, 7_000, 1_500),
        (2, 10) => (QuestRequirement::RocketLauncher(10), 12_000, 3_000, 500),
        (2, 11) => (QuestRequirement::LargeCargo(1), 8_000, 8_000, 2_000),
        (2, 12) => (QuestRequirement::LightFighter(5), 8_000, 5_000, 1_500),
        (2, 13) => (QuestRequirement::HeavyFighter(2), 9_000, 8_000, 3_000),
        (2, 14) => (QuestRequirement::Recycler(1), 8_000, 7_000, 2_500),
        (2, 15) => (QuestRequirement::EspionageProbe(5), 5_000, 6_000, 2_000),
        (2, 16) => (QuestRequirement::SolarPlant(8), 8_000, 5_000, 1_000),
        (2, 17) => (QuestRequirement::RoboticsFactory(3), 8_000, 6_000, 1_500),
        (2, 18) => (QuestRequirement::EnergyTech(2), 6_000, 7_000, 2_500),
        (2, 19) => (QuestRequirement::WeaponsTechnology(1), 8_000, 5_000, 2_000),
        (2, 20) => (QuestRequirement::ShieldingTechnology(1), 7_000, 8_000, 2_000),
        (2, 21) => (QuestRequirement::ArmorTechnology(1), 8_000, 7_000, 2_000),
        (2, 22) => (QuestRequirement::LightLaser(5), 7_000, 5_000, 1_000),
        (3, 0) => (QuestRequirement::ImpulseDrive(1), 30_000, 25_000, 12_000),
        (3, 1) => (QuestRequirement::Astrophysics(1), 25_000, 35_000, 15_000),
        (3, 2) => (QuestRequirement::Ships(25), 45_000, 30_000, 15_000),
        (3, 3) => (QuestRequirement::Defenses(25), 40_000, 35_000, 12_000),
        (3, 4) => (QuestRequirement::MetalMine(10), 50_000, 15_000, 3_000),
        (3, 5) => (QuestRequirement::CrystalMine(10), 20_000, 50_000, 3_000),
        (3, 6) => (QuestRequirement::SolarPlant(12), 25_000, 25_000, 5_000),
        (3, 7) => (QuestRequirement::ResearchLab(5), 30_000, 40_000, 15_000),
        (3, 8) => (QuestRequirement::Shipyard(5), 45_000, 35_000, 10_000),
        (3, 9) => (QuestRequirement::ComputerTech(5), 30_000, 35_000, 20_000),
        (3, 10) => (QuestRequirement::ColonyShip(1), 60_000, 50_000, 20_000),
        (3, 11) => (QuestRequirement::Battleship(1), 70_000, 50_000, 25_000),
        (3, 12) => (QuestRequirement::Cruiser(3), 55_000, 45_000, 18_000),
        (3, 13) => (QuestRequirement::Recycler(5), 45_000, 35_000, 18_000),
        (3, 14) => (QuestRequirement::HeavyLaser(10), 35_000, 30_000, 8_000),
        (3, 15) => (QuestRequirement::GaussCannon(3), 45_000, 35_000, 10_000),
        (3, 16) => (QuestRequirement::IonCannon(3), 35_000, 45_000, 12_000),
        (3, 17) => (QuestRequirement::PlasmaTurret(1), 60_000, 45_000, 18_000),
        (3, 18) => (QuestRequirement::FusionReactor(3), 35_000, 35_000, 16_000),
        (3, 19) => (QuestRequirement::NaniteFactory(1), 80_000, 60_000, 20_000),
        (3, 20) => (QuestRequirement::HyperspaceDrive(1), 50_000, 55_000, 25_000),
        (3, 21) => (QuestRequirement::IgrNetwork(1), 45_000, 60_000, 20_000),
        (3, 22) => (QuestRequirement::WeaponsTechnology(3), 55_000, 45_000, 20_000),
        _ => (QuestRequirement::MetalMine(0), 0, 0, 0),
    };
    QuestCatalogEntry { req, metal, crystal, deuterium }
}


/// The counter a requirement's category reads in `period` (1 day, 2 week, 3 month); `None` for
/// another period.
pub open spec fn progress_current(period: u8, req: QuestRequirement, g: QuestProgressState) -> Option<u64> {
    if period < 1 || period > 3 {
        None
    } else {
        let pick3 = |d: u64, w: u64, m: u64| if period == 1 { d } else if period == 2 { w } else { m };
        let c = req_category(req);
        Some(
            if c == 1 {
                pick3(g.daily_store_packs_bought as u64, g.weekly_store_packs_bought as u64, g.monthly_store_packs_bought as u64)
            } else if c == 2 {
                pick3(g.daily_transports_resolved as u64, g.weekly_transports_resolved as u64, g.monthly_transports_resolved as u64)
            } else if c == 3 {
                pick3(g.daily_spy_missions_resolved as u64, g.weekly_spy_missions_resolved as u64, g.monthly_spy_missions_resolved as u64)
            } else if c == 4 {
                pick3(g.daily_planets_colonized as u64, g.weekly_planets_colonized as u64, g.monthly_planets_colonized as u64)
            } else if c == 5 {
                pick3(g.daily_antimatter_spent, g.weekly_antimatter_spent, g.monthly_antimatter_spent)
            } else {
                pick3(g.daily_attacks_resolved as u64, g.weekly_attacks_resolved as u64, g.monthly_attacks_resolved as u64)
            },
        )
    }
}

/// Picks the counter of `period` among three; refused for another period.
pub fn progress_u64_for_period(period: u8, daily: u64, weekly: u64, monthly: u64) -> (r: Result<u64, GameStateError>)
    ensures
        period == 1 ==> r == Ok::<u64, GameStateError>(daily),
        period == 2 ==> r == Ok::<u64, GameStateError>(weekly),
        period == 3 ==> r == Ok::<u64, GameStateError>(monthly),
        (period < 1 || period > 3) ==> r == Err::<u64, GameStateError>(GameStateError::InvalidQuest),
{
    if period == 1 {
        Ok(daily)
    } else if period == 2 {
        Ok(weekly)
    } else if period == 3 {
        Ok(monthly)
    } else {
        Err(GameStateError::InvalidQuest)
    }
}

/// Picks the counter of `period` among three; refused for another period.
pub fn progress_u32_for_period(period: u8, daily: u32, weekly: u32, monthly: u32) -> (r: Result<u32, GameStateError>)
    ensures
        period == 1 ==> r == Ok::<u32, GameStateError>(daily),
        period == 2 ==> r == Ok::<u32, GameStateError>(weekly),
        period == 3 ==> r == Ok::<u32, GameStateError>(monthly),
        (period < 1 || period > 3) ==> r == Err::<u32, GameStateError>(GameStateError::InvalidQuest),
{
    if period == 1 {
        Ok(daily)
    } else if period == 2 {
        Ok(weekly)
    } else if period == 3 {
        Ok(monthly)
    } else {
        Err(GameStateError::InvalidQuest)
    }
}

/// The category of a requirement, as the rotating quests count it.
pub fn requirement_category(req: QuestRequirement) -> (c: u8)
    ensures
        c == req_category(req),
{
    match req {
        QuestRequirement::MetalMine(_) => 1,
        QuestRequirement::CrystalMine(_) => 1,
        QuestRequirement::DeuteriumSynthesizer(_) => 5,
        QuestRequirement::SolarPlant(_) => 2,
        QuestRequirement::FusionReactor(_) => 5,
        QuestRequirement::RoboticsFactory(_) => 5,
        QuestRequirement::NaniteFactory(_) => 5,
        QuestRequirement::Shipyard(_) => 5,
        QuestRequirement::ResearchLab(_) => 3,
        QuestRequirement::MetalStorage(_) => 1,
        QuestRequirement::CrystalStorage(_) => 1,
        QuestRequirement::DeuteriumTank(_) => 1,
        QuestRequirement::EnergyTech(_) => 5,
        QuestRequirement::CombustionDrive(_) => 5,
        QuestRequirement::ImpulseDrive(_) => 5,
        QuestRequirement::HyperspaceDrive(_) => 5,
        QuestRequirement::ComputerTech(_) => 3,
        QuestRequirement::Astrophysics(_) => 4,
        QuestRequirement::IgrNetwork(_) => 3,
        QuestRequirement::WeaponsTechnology(_) => 5,
        QuestRequirement::ShieldingTechnology(_) => 5,
        QuestRequirement::ArmorTechnology(_) => 5,
        QuestRequirement::Ships(_) => 6,
        QuestRequirement::Defenses(_) => 6,
        QuestRequirement::SmallCargo(_) => 2,
        QuestRequirement::LargeCargo(_) => 2,
        QuestRequirement::LightFighter(_) => 6,
        QuestRequirement::HeavyFighter(_) => 6,
        QuestRequirement::Cruiser(_) => 6,
        QuestRequirement::Battleship(_) => 6,
        QuestRequirement::Recycler(_) => 6,
        QuestRequirement::EspionageProbe(_) => 3,
        QuestRequirement::ColonyShip(_) => 4,
        QuestRequirement::RocketLauncher(_) => 6,
        QuestRequirement::LightLaser(_) => 6,
        QuestRequirement::HeavyLaser(_) => 6,
        QuestRequirement::GaussCannon(_) => 6,
        QuestRequirement::IonCannon(_) => 6,
        QuestRequirement::PlasmaTurret(_) => 6,
    }
}

/// The figure a requirement asks for.
pub fn requirement_value(req: QuestRequirement) -> (v: u64)
    ensures
        v == req_value(req),
{
    match req {
        QuestRequirement::MetalMine(v) => v as u64,
        QuestRequirement::CrystalMine(v) => v as u64,
        QuestRequirement::DeuteriumSynthesizer(v) => v as u64,
        QuestRequirement::SolarPlant(v) => v as u64,
        QuestRequirement::FusionReactor(v) => v as u64,
        QuestRequirement::RoboticsFactory(v) => v as u64,
        QuestRequirement::NaniteFactory(v) => v as u64,
        QuestRequirement::Shipyard(v) => v as u64,
        QuestRequirement::ResearchLab(v) => v as u64,
        QuestRequirement::MetalStorage(v) => v as u64,
        QuestRequirement::CrystalStorage(v) => v as u64,
        QuestRequirement::DeuteriumTank(v) => v as u64,
        QuestRequirement::EnergyTech(v) => v as u64,
        QuestRequirement::CombustionDrive(v) => v as u64,
        QuestRequirement::ImpulseDrive(v) => v as u64,
        QuestRequirement::HyperspaceDrive(v) => v as u64,
        QuestRequirement::ComputerTech(v) => v as u64,
        QuestRequirement::Astrophysics(v) => v as u64,
        QuestRequirement::IgrNetwork(v) => v as u64,
        QuestRequirement::WeaponsTechnology(v) => v as u64,
        QuestRequirement::ShieldingTechnology(v) => v as u64,
        QuestRequirement::ArmorTechnology(v) => v as u64,
        QuestRequirement::Ships(v) => v as u64,
        QuestRequirement::Defenses(v) => v as u64,
        QuestRequirement::SmallCargo(v) => v as u64,
        QuestRequirement::LargeCargo(v) => v as u64,
        QuestRequirement::LightFighter(v) => v as u64,
        QuestRequirement::HeavyFighter(v) => v as u64,
        QuestRequirement::Cruiser(v) => v as u64,
        QuestRequirement::Battleship(v) => v as u64,
        QuestRequirement::Recycler(v) => v as u64,
        QuestRequirement::EspionageProbe(v) => v as u64,
        QuestRequirement::ColonyShip(v) => v as u64,
        QuestRequirement::RocketLauncher(v) => v as u64,
        QuestRequirement::LightLaser(v) => v as u64,
        QuestRequirement::HeavyLaser(v) => v as u64,
        QuestRequirement::GaussCannon(v) => v as u64,
        QuestRequirement::IonCannon(v) => v as u64,
        QuestRequirement::PlasmaTurret(v) => v as u64,
    }
}

/// The counter of quest-relevant actions in `period` that stands for the requirement.
pub fn recurring_requirement_current(period: u8, req: QuestRequirement, progress: &QuestProgressState) -> (r: Result<u64, GameStateError>)
    ensures
        match progress_current(period, req, *progress) {
            Some(v) => r == Ok::<u64, GameStateError>(v),
            None => r == Err::<u64, GameStateError>(GameStateError::InvalidQuest),
        },
{
    let c = requirement_category(req);
    let g = progress;
    let r32 = if c == 1 {
        progress_u32_for_period(period, g.daily_store_packs_bought, g.weekly_store_packs_bought, g.monthly_store_packs_bought)
    } else if c == 2 {
        progress_u32_for_period(period, g.daily_transports_resolved, g.weekly_transports_resolved, g.monthly_transports_resolved)
    } else if c == 3 {
        progress_u32_for_period(period, g.daily_spy_missions_resolved, g.weekly_spy_missions_resolved, g.monthly_spy_missions_resolved)
    } else if c == 4 {
        progress_u32_for_period(period, g.daily_planets_colonized, g.weekly_planets_colonized, g.monthly_planets_colonized)
    } else if c == 5 {
        return progress_u64_for_period(period, g.daily_antimatter_spent, g.weekly_antimatter_spent, g.monthly_antimatter_spent);
    } else {
        progress_u32_for_period(period, g.daily_attacks_resolved, g.weekly_attacks_resolved, g.monthly_attacks_resolved)
    };
    match r32 {
        Ok(v) => Ok(v as u64),
        Err(e) => Err(e),
    }
}

/// The figure a rotating quest of `period` asks of its counter: ANTIMATTER quests ask for the
/// level times a period's base times one token, colony quests for one to three, the others for
/// at least one.
pub open spec fn required_spec(period: u8, req: QuestRequirement) -> u64 {
    let raw = req_value(req);
    let at_least_one: u64 = if raw < 1 { 1 } else { raw };
    let c = req_category(req);
    if c == 5 {
        let base: u64 = if period == 1 { 50 } else if period == 2 { 250 } else if period == 3 { 1_000 } else { 0 };
        clamp_u64(clamp_u64(at_least_one * base) * ANTIMATTER_SCALE)
    } else if c == 4 {
        if raw < 1 { 1 } else if raw > 3 { 3 } else { raw }
    } else {
        at_least_one
    }
}

/// The figure a rotating quest of `period` asks of its counter.
pub fn recurring_requirement_required(period: u8, req: QuestRequirement) -> (r: u64)
    ensures
        r == required_spec(period, req),
{
    let raw = requirement_value(req);
    let at_least_one: u64 = if raw < 1 { 1 } else { raw };
    let c = requirement_category(req);
    if c == 5 {
        let base: u64 = if period == 1 { 50 } else if period == 2 { 250 } else if period == 3 { 1_000 } else { 0 };
        sat_mul(sat_mul(at_least_one, base), ANTIMATTER_SCALE)
    } else if c == 4 {
        if raw < 1 { 1 } else if raw > 3 { 3 } else { raw }
    } else {
        at_least_one
    }
}

/// The signature that tells two rotating quests apart: the category in the top byte and the
/// required figure below it.
#[verifier::opaque]
pub open spec fn signature_spec(period: u8, req: QuestRequirement) -> u64 {
    ((req_category(req) as u64) << 56u64) | (required_spec(period, req) & 0x00FF_FFFF_FFFF_FFFFu64)
}

/// The signature of a rotating quest of `period`.
pub fn recurring_requirement_signature(period: u8, req: QuestRequirement) -> (s: u64)
    ensures
        s == signature_spec(period, req),
{
    let c = requirement_category(req) as u64;
    let required = recurring_requirement_required(period, req);
    proof {
        reveal(signature_spec);
    }
    (c << 56u64) | (required & 0x00FF_FFFF_FFFF_FFFFu64)
}

/// The greatest common divisor, by Euclid's steps.
pub open spec fn gcd_spec(a: u64, b: u64) -> u64
    decreases b,
{
    if b == 0 {
        a
    } else {
        gcd_spec(b, a % b)
    }
}

/// The greatest common divisor of `a` and `b`.
pub fn gcd_u64(a: u64, b: u64) -> (g: u64)
    ensures
        g == gcd_spec(a, b),
{
    let mut x = a;
    let mut y = b;
    while y != 0
        invariant
            gcd_spec(x, y) == gcd_spec(a, b),
        decreases y,
    {
        let next = x % y;
        x = y;
        y = next;
    }
    x
}

/// One is coprime to every number above one.
pub proof fn lemma_gcd_one(len: u64)
    requires
        len > 1,
    ensures
        gcd_spec(1, len) == 1,
{
    reveal_with_fuel(gcd_spec, 3);
    assert(1u64 % len == 1) by (nonlinear_arith)
        requires
            len > 1,
    ;
}

/// The first step from `step` on, wrapping from `len - 1` back to one, that is coprime to `len`.
pub open spec fn coprime_from(step: u64, len: u64) -> u64
    decreases (if step == 1 { 0int } else { len - step + 1 }),
    when 1 <= step < len && len > 1
{
    if gcd_spec(step, len) == 1 {
        step
    } else if step == 1 {
        step
    } else if step + 1 >= len {
        coprime_from(1, len)
    } else {
        coprime_from((step + 1) as u64, len)
    }
}

/// The stride of the walk through a catalog of `len` entries: drawn from the seed's high bits,
/// moved on until it is coprime to `len`.
pub open spec fn quest_step_spec(seed: u64, len: u64) -> u64 {
    coprime_from((((seed >> 32u64) % ((len - 1) as u64)) + 1) as u64, len)
}

/// The stride of the walk through a catalog of `len` entries.
pub fn coprime_quest_step(seed: u64, len: u64) -> (s: u64)
    requires
        len > 1,
    ensures
        s == quest_step_spec(seed, len),
        1 <= s < len,
{
    let mut step = ((seed >> 32u64) % (len - 1)) + 1;
    proof {
        lemma_gcd_one(len);
    }
    while gcd_u64(step, len) != 1
        invariant
            1 <= step < len,
            len > 1,
            gcd_spec(1, len) == 1,
            coprime_from(step, len) == quest_step_spec(seed, len),
        decreases (if step == 1 { 0int } else { len - step + 1 }),
    {
        step = if step + 1 >= len { 1 } else { step + 1 };
    }
    step
}

/// The number of entries of each rotating catalog.
pub const ROTATING_CATALOG_LEN: u64 = 23;

/// The seed of the walk through the catalog of `period` in `epoch`.
pub open spec fn quest_seed(period: u8, epoch: i64) -> u64 {
    (epoch as u64).wrapping_mul(0x9E37_79B9_7F4A_7C15u64).wrapping_add((period as u64).wrapping_mul(0xBF58_476D_1CE4_E5B9u64))
}

/// The quest that the walk picks: visiting entries `offset + i * step` (modulo the catalog's
/// length) from `i` on, skipping any whose signature was already seen, the one whose turn is
/// `slot`.
pub open spec fn select_quest(period: u8, offset: u64, step: u64, i: u64, seen: Seq<u64>, selected: u64, slot: u64) -> Option<QuestCatalogEntry>
    decreases ROTATING_CATALOG_LEN - i,
{
    if i >= ROTATING_CATALOG_LEN {
        None
    } else {
        let idx = ((offset + i * step) % (ROTATING_CATALOG_LEN as int)) as u64;
        let quest = catalog_spec(period, idx);
        let sig = signature_spec(period, quest.req);
        if seen.contains(sig) {
            select_quest(period, offset, step, (i + 1) as u64, seen, selected, slot)
        } else if selected == slot {
            Some(quest)
        } else if seen.len() >= ROTATING_CATALOG_LEN {
            None
        } else {
            select_quest(period, offset, step, (i + 1) as u64, seen.push(sig), (selected + 1) as u64, slot)
        }
    }
}

/// The rotating quest `quest_id` of `period` in `epoch`: daily quests count from one (zero is
/// the check-in), weekly and monthly from zero, twelve of each per period.
pub open spec fn rotating_quest_spec(period: u8, quest_id: u8, epoch: i64) -> Option<QuestCatalogEntry> {
    if period < 1 || period > 3 || (period == 1 && quest_id < 1) {
        None
    } else {
        let slot: u64 = if period == 1 { (quest_id - 1) as u64 } else { quest_id as u64 };
        if slot >= 12 {
            None
        } else {
            let seed = quest_seed(period, epoch);
            select_quest(period, seed % ROTATING_CATALOG_LEN, quest_step_spec(seed, ROTATING_CATALOG_LEN), 0, Seq::empty(), 0, slot)
        }
    }
}

fn seen_contains(seen: &Vec<u64>, sig: u64) -> (r: bool)
    ensures
        r == seen@.contains(sig),
{
    let mut i: usize = 0;
    let mut found = false;
    while i < seen.len()
        invariant
            i <= seen@.len(),
            found == (exists|j: int| 0 <= j < i && seen@[j] == sig),
        decreases seen@.len() - i,
    {
        if seen[i] == sig {
            found = true;
        }
        i = i + 1;
    }
    found
}

/// The seed of the walk, computed.
fn rotating_seed(period: u8, epoch: i64) -> (seed: u64)
    ensures
        seed == quest_seed(period, epoch),
{
    (epoch as u64).wrapping_mul(0x9E37_79B9_7F4A_7C15u64).wrapping_add((period as u64).wrapping_mul(0xBF58_476D_1CE4_E5B9u64))
}

/// Walks the catalog of `period` from `offset` by `step` and hands back the entry whose turn is
/// `slot`, skipping repeated signatures.
fn walk_catalog(period: u8, offset: u64, step: u64, slot: u64) -> (found: Option<QuestCatalogEntry>)
    requires
        1 <= period <= 3,
        offset < ROTATING_CATALOG_LEN,
        1 <= step < ROTATING_CATALOG_LEN,
    ensures
        found == select_quest(period, offset, step, 0, Seq::empty(), 0, slot),
{
    let len = ROTATING_CATALOG_LEN;
    let mut seen: Vec<u64> = Vec::new();
    let mut selected: u64 = 0;
    let mut i: u64 = 0;
    let mut found: Option<QuestCatalogEntry> = None;
    let mut stopped = false;
    while i < len && !stopped
        invariant
            i <= len,
            len == ROTATING_CATALOG_LEN,
            offset < len,
            1 <= step < len,
            1 <= period <= 3,
            seen@.len() <= i,
            selected == seen@.len(),
            !stopped ==> select_quest(period, offset, step, i, seen@, selected, slot) == select_quest(period, offset, step, 0, Seq::empty(), 0, slot),
            stopped ==> found == select_quest(period, offset, step, 0, Seq::empty(), 0, slot),
            !stopped ==> found is None,
        decreases len - i + (if stopped { 0int } else { 1int }),
    {
        assert(i * step < 23 * 23) by (nonlinear_arith)
            requires
                i < 23,
                step < 23,
        ;
        let idx = (offset + i.wrapping_mul(step)) % len;
        let quest = catalog_entry(period, idx);
        let sig = recurring_requirement_signature(period, quest.req);
        if seen_contains(&seen, sig) {
            i = i + 1;
        } else if selected == slot {
            found = Some(quest);
            stopped = true;
        } else {
            seen.push(sig);
            selected = selected + 1;
            i = i + 1;
        }
    }
    if !stopped {
        assert(select_quest(period, offset, step, i, seen@, selected, slot) is None);
    }
    found
}

/// The rotating quest `quest_id` of `period` in `epoch`; refused where there is none.
pub fn rotating_quest(period: u8, quest_id: u8, epoch: i64) -> (r: Result<QuestCatalogEntry, GameStateError>)
    ensures
        match rotating_quest_spec(period, quest_id, epoch) {
            Some(e) => r == Ok::<QuestCatalogEntry, GameStateError>(e),
            None => r == Err::<QuestCatalogEntry, GameStateError>(GameStateError::InvalidQuest),
        },
{
    if period < 1 || period > 3 || (period == 1 && quest_id < 1) {
        return Err(GameStateError::InvalidQuest);
    }
    let slot: u64 = if period == 1 { (quest_id - 1) as u64 } else { quest_id as u64 };
    if slot >= 12 {
        return Err(GameStateError::InvalidQuest);
    }
    let seed = rotating_seed(period, epoch);
    let offset = seed % ROTATING_CATALOG_LEN;
    let step = coprime_quest_step(seed, ROTATING_CATALOG_LEN);
    match walk_catalog(period, offset, step, slot) {
        Some(q) => Ok(q),
        None => Err(GameStateError::InvalidQuest),
    }
}

/// Whether the planet meets tutorial quest `quest_id`.
pub open spec fn tutorial_met(quest_id: u8, p: PlanetState) -> bool {
    match quest_id {
        0 => true,
        1 => p.metal_mine >= 2,
        2 => p.crystal_mine >= 2,
        3 => p.solar_plant >= 2,
        4 => p.deuterium_synthesizer >= 1,
        5 => p.metal_storage >= 1,
        6 => p.robotics_factory >= 1,
        7 => p.shipyard >= 1,
        8 => p.research_lab >= 1,
        9 => p.energy_tech >= 1,
        10 => p.combustion_drive >= 1,
        11 => total_ships_spec(p) >= 1,
        12 => p.small_cargo >= 1,
        13 => p.rocket_launcher >= 1,
        14 => p.computer_tech >= 1,
        15 => p.espionage_probe >= 1,
        16 => p.light_laser >= 1,
        17 => p.impulse_drive >= 1,
        18 => p.astrophysics >= 1,
        19 => total_defenses_spec(p) >= 5,
        20 => p.colony_ship >= 1,
        _ => false,
    }
}

/// Whether the quest fields meet tutorial quest `quest_id`.
pub open spec fn tutorial_met_live(quest_id: u8, p: PlanetQuestFields) -> bool {
    match quest_id {
        0 => true,
        1 => p.metal_mine >= 2,
        2 => p.crystal_mine >= 2,
        3 => p.solar_plant >= 2,
        4 => p.deuterium_synthesizer >= 1,
        5 => p.metal_storage >= 1,
        6 => p.robotics_factory >= 1,
        7 => p.shipyard >= 1,
        8 => p.research_lab >= 1,
        9 => p.energy_tech >= 1,
        10 => p.combustion_drive >= 1,
        11 => total_ships_live_spec(p) >= 1,
        12 => p.small_cargo >= 1,
        13 => p.rocket_launcher >= 1,
        14 => p.computer_tech >= 1,
        15 => p.espionage_probe >= 1,
        16 => p.light_laser >= 1,
        17 => p.impulse_drive >= 1,
        18 => p.astrophysics >= 1,
        19 => total_defenses_live_spec(p) >= 5,
        20 => p.colony_ship >= 1,
        _ => false,
    }
}

/// Whether the planet meets quest `quest_id` of `period` (0 tutorial) in `epoch`.
pub open spec fn quest_requirement_met_spec(period: u8, quest_id: u8, epoch: i64, p: PlanetState) -> bool {
    if period != 0 {
        match rotating_quest_spec(period, quest_id, epoch) {
            Some(q) => requirement_met_spec(q.req, p),
            None => false,
        }
    } else {
        tutorial_met(quest_id, p)
    }
}

/// Whether the planet meets quest `quest_id` of `period` (0 tutorial) in `epoch`.
pub fn quest_requirement_met(period: u8, quest_id: u8, epoch: i64, planet: &PlanetState) -> (r: bool)
    ensures
        r == quest_requirement_met_spec(period, quest_id, epoch, *planet),
{
    if period != 0 {
        return match rotating_quest(period, quest_id, epoch) {
            Ok(q) => requirement_met(q.req, planet),
            Err(_) => false,
        };
    }
    match quest_id {
        0 => true,
        1 => planet.metal_mine >= 2,
        2 => planet.crystal_mine >= 2,
        3 => planet.solar_plant >= 2,
        4 => planet.deuterium_synthesizer >= 1,
        5 => planet.metal_storage >= 1,
        6 => planet.robotics_factory >= 1,
        7 => planet.shipyard >= 1,
        8 => planet.research_lab >= 1,
        9 => planet.energy_tech >= 1,
        10 => planet.combustion_drive >= 1,
        11 => total_ships(planet) >= 1,
        12 => planet.small_cargo >= 1,
        13 => planet.rocket_launcher >= 1,
        14 => planet.computer_tech >= 1,
        15 => planet.espionage_probe >= 1,
        16 => planet.light_laser >= 1,
        17 => planet.impulse_drive >= 1,
        18 => planet.astrophysics >= 1,
        19 => total_defenses(planet) >= 5,
        20 => planet.colony_ship >= 1,
        _ => false,
    }
}

/// Whether the quest fields meet quest `quest_id` of `period` (0 tutorial) in `epoch`.
pub open spec fn quest_requirement_met_live_spec(period: u8, quest_id: u8, epoch: i64, p: PlanetQuestFields) -> bool {
    if period != 0 {
        match rotating_quest_spec(period, quest_id, epoch) {
            Some(q) => requirement_met_live_spec(q.req, p),
            None => false,
        }
    } else {
        tutorial_met_live(quest_id, p)
    }
}

/// Whether the quest fields meet quest `quest_id` of `period` (0 tutorial) in `epoch`.
pub fn quest_requirement_met_live(period: u8, quest_id: u8, epoch: i64, planet: &PlanetQuestFields) -> (r: bool)
    ensures
        r == quest_requirement_met_live_spec(period, quest_id, epoch, *planet),
{
    if period != 0 {
        return match rotating_quest(period, quest_id, epoch) {
            Ok(q) => requirement_met_live(q.req, planet),
            Err(_) => false,
        };
    }
    match quest_id {
        0 => true,
        1 => planet.metal_mine >= 2,
        2 => planet.crystal_mine >= 2,
        3 => planet.solar_plant >= 2,
        4 => planet.deuterium_synthesizer >= 1,
        5 => planet.metal_storage >= 1,
        6 => planet.robotics_factory >= 1,
        7 => planet.shipyard >= 1,
        8 => planet.research_lab >= 1,
        9 => planet.energy_tech >= 1,
        10 => planet.combustion_drive >= 1,
        11 => total_ships_live(planet) >= 1,
        12 => planet.small_cargo >= 1,
        13 => planet.rocket_launcher >= 1,
        14 => planet.computer_tech >= 1,
        15 => planet.espionage_probe >= 1,
        16 => planet.light_laser >= 1,
        17 => planet.impulse_drive >= 1,
        18 => planet.astrophysics >= 1,
        19 => total_defenses_live(planet) >= 5,
        20 => planet.colony_ship >= 1,
        _ => false,
    }
}

/// Whether the counters meet rotating quest `quest_id` of `period` in `epoch`, or why the
/// question is malformed.
pub open spec fn recurring_met_spec(period: u8, quest_id: u8, epoch: i64, g: QuestProgressState) -> Result<bool, GameStateError> {
    match rotating_quest_spec(period, quest_id, epoch) {
        None => Err(GameStateError::InvalidQuest),
        Some(q) => match progress_current(period, q.req, g) {
            None => Err(GameStateError::InvalidQuest),
            Some(c) => Ok(c >= required_spec(period, q.req)),
        },
    }
}

/// Whether the counters meet rotating quest `quest_id` of `period` in `epoch`.
pub fn recurring_quest_requirement_met(period: u8, quest_id: u8, epoch: i64, progress: &QuestProgressState) -> (r: Result<bool, GameStateError>)
    ensures
        r == recurring_met_spec(period, quest_id, epoch, *progress),
{
    let quest = match rotating_quest(period, quest_id, epoch) {
        Ok(q) => q,
        Err(e) => {
            return Err(e);
        },
    };
    let current = match recurring_requirement_current(period, quest.req, progress) {
        Ok(c) => c,
        Err(e) => {
            return Err(e);
        },
    };
    let required = recurring_requirement_required(period, quest.req);
    Ok(current >= required)
}

/// The metal, crystal and deuterium that quest `quest_id` of `period` (0 tutorial) grants in
/// `epoch`, if there is such a quest.
pub open spec fn quest_reward_spec(period: u8, quest_id: u8, epoch: i64) -> Option<(u64, u64, u64)> {
    if period != 0 {
        match rotating_quest_spec(period, quest_id, epoch) {
            Some(q) => Some((q.metal, q.crystal, q.deuterium)),
            None => None,
        }
    } else {
        match quest_id {
            0 => Some((500, 300, 0)),
            1 => Some((700, 200, 0)),
            2 => Some((400, 600, 0)),
            3 => Some((350, 300, 0)),
            4 => Some((400, 250, 150)),
            5 => Some((300, 300, 0)),
            6 => Some((800, 400, 0)),
            7 => Some((1000, 700, 100)),
            8 => Some((800, 900, 200)),
            9 => Some((600, 600, 200)),
            10 => Some((600, 300, 300)),
            11 => Some((900, 600, 150)),
            12 => Some((1000, 700, 150)),
            13 => Some((800, 200, 0)),
            14 => Some((700, 700, 250)),
            15 => Some((600, 500, 250)),
            16 => Some((800, 500, 0)),
            17 => Some((1500, 1500, 600)),
            18 => Some((1500, 1800, 700)),
            19 => Some((1200, 900, 200)),
            20 => Some((5000, 5000, 2000)),
            _ => None,
        }
    }
}

/// What quest `quest_id` of `period` grants in `epoch`; refused for an unknown quest.
pub fn quest_reward(period: u8, quest_id: u8, epoch: i64) -> (r: Result<(u64, u64, u64), GameStateError>)
    ensures
        match quest_reward_spec(period, quest_id, epoch) {
            Some(x) => r == Ok::<(u64, u64, u64), GameStateError>(x),
            None => r == Err::<(u64, u64, u64), GameStateError>(GameStateError::InvalidQuest),
        },
{
    if period != 0 {
        return match rotating_quest(period, quest_id, epoch) {
            Ok(q) => Ok((q.metal, q.crystal, q.deuterium)),
            Err(e) => Err(e),
        };
    }
    match quest_id {
        0 => Ok((500, 300, 0)),
        1 => Ok((700, 200, 0)),
        2 => Ok((400, 600, 0)),
        3 => Ok((350, 300, 0)),
        4 => Ok((400, 250, 150)),
        5 => Ok((300, 300, 0)),
        6 => Ok((800, 400, 0)),
        7 => Ok((1000, 700, 100)),
        8 => Ok((800, 900, 200)),
        9 => Ok((600, 600, 200)),
        10 => Ok((600, 300, 300)),
        11 => Ok((900, 600, 150)),
        12 => Ok((1000, 700, 150)),
        13 => Ok((800, 200, 0)),
        14 => Ok((700, 700, 250)),
        15 => Ok((600, 500, 250)),
        16 => Ok((800, 500, 0)),
        17 => Ok((1500, 1500, 600)),
        18 => Ok((1500, 1800, 700)),
        19 => Ok((1200, 900, 200)),
        20 => Ok((5000, 5000, 2000)),
        _ => Err(GameStateError::InvalidQuest),
    }
}

} // verus!
