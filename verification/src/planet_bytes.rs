//! The byte layout of a planet record, and the parts of it that the fast paths read and write
//! without decoding the whole record.
use vstd::prelude::*;

use crate::bytes::{
    i16_at, i64_at, put_i64, put_u16, put_u32, put_u64, put_u8, read_i16_at, read_i64_at,
    read_key_at, read_u16_at, read_u32_at, read_u64_at, read_u8_at, u16_at, u32_at, u64_at,
    write_i64_at, write_u16_at, write_u32_at, write_u64_at, write_u8_at,
};
use crate::error::GameStateError;
use crate::key::Key;

verus! {

/// Where a planet record stores its owner's key.
pub const PLANET_AUTHORITY_OFFSET: usize = 8;
/// Where a planet record stores its count of missions in flight.
pub const PLANET_ACTIVE_MISSIONS_OFFSET: usize = 406;
/// How many bytes one mission slot takes in a planet record.
pub const PLANET_MISSION_STATE_SIZE: usize = 142;
/// Where a planet record stores its bump seed, after the mission slots.
pub const PLANET_BUMP_OFFSET: usize = 975;
/// Where a planet record stores its ship queue's item.
pub const PLANET_SHIP_BUILD_ITEM_OFFSET: usize = 976;
/// Where a planet record stores its ship queue's quantity.
pub const PLANET_SHIP_BUILD_QTY_OFFSET: usize = 977;
/// Where a planet record stores when its ship queue finishes.
pub const PLANET_SHIP_BUILD_FINISH_TS_OFFSET: usize = 981;
/// Where a planet record stores its defense queue's item.
pub const PLANET_DEFENSE_BUILD_ITEM_OFFSET: usize = 989;
/// Where a planet record stores its defense queue's quantity.
pub const PLANET_DEFENSE_BUILD_QTY_OFFSET: usize = 990;
/// Where a planet record stores when its defense queue finishes.
pub const PLANET_DEFENSE_BUILD_FINISH_TS_OFFSET: usize = 994;
/// The shortest planet record that holds every field up to the ship queue.
pub const PLANET_DEPOSIT_MIN_LEN: usize = 989;
/// The shortest planet record that holds every field up to the defense queue.
pub const PLANET_FULL_MIN_LEN: usize = 1002;

/// The resource fields of a planet record: its owner, stock, rates, caps and last settlement.
#[derive(Clone, Copy, Debug)]
pub struct PlanetDepositFields {
    pub authority: Key,
    pub metal: u64,
    pub crystal: u64,
    pub deuterium: u64,
    pub metal_hour: u64,
    pub crystal_hour: u64,
    pub deuterium_hour: u64,
    pub energy_production: u64,
    pub energy_consumption: u64,
    pub metal_cap: u64,
    pub crystal_cap: u64,
    pub deuterium_cap: u64,
    pub last_update_ts: i64,
}

/// The fields of a planet record that the building, research and shipyard fast paths use.
#[derive(Clone, Copy, Debug)]
pub struct PlanetBuildFields {
    pub deposit: PlanetDepositFields,
    pub temperature: i16,
    pub max_fields: u16,
    pub used_fields: u16,
    pub metal_mine: u8,
    pub crystal_mine: u8,
    pub deuterium_synthesizer: u8,
    pub solar_plant: u8,
    pub fusion_reactor: u8,
    pub robotics_factory: u8,
    pub nanite_factory: u8,
    pub shipyard: u8,
    pub metal_storage: u8,
    pub crystal_storage: u8,
    pub deuterium_tank: u8,
    pub research_lab: u8,
    pub missile_silo: u8,
    pub energy_tech: u8,
    pub combustion_drive: u8,
    pub impulse_drive: u8,
    pub hyperspace_drive: u8,
    pub computer_tech: u8,
    pub astrophysics: u8,
    pub igr_network: u8,
    pub weapons_technology: u8,
    pub shielding_technology: u8,
    pub armor_technology: u8,
    pub small_cargo: u32,
    pub large_cargo: u32,
    pub light_fighter: u32,
    pub heavy_fighter: u32,
    pub cruiser: u32,
    pub battleship: u32,
    pub battlecruiser: u32,
    pub bomber: u32,
    pub destroyer: u32,
    pub deathstar: u32,
    pub recycler: u32,
    pub espionage_probe: u32,
    pub colony_ship: u32,
    pub solar_satellite: u32,
    pub research_queue_item: u8,
    pub research_queue_target: u8,
    pub research_finish_ts: i64,
    pub build_queue_item: u8,
    pub build_queue_target: u8,
    pub build_finish_ts: i64,
    pub ship_build_item: u8,
    pub ship_build_qty: u32,
    pub ship_build_finish_ts: i64,
}

/// Whether `f` holds the resource fields of the record bytes `d`.
pub open spec fn deposit_fields_from(f: PlanetDepositFields, d: Seq<u8>) -> bool {
    &&& f.authority@ == d.subrange(8, 40)
    &&& f.metal == u64_at(d, 166)
    &&& f.crystal == u64_at(d, 174)
    &&& f.deuterium == u64_at(d, 182)
    &&& f.metal_hour == u64_at(d, 190)
    &&& f.crystal_hour == u64_at(d, 198)
    &&& f.deuterium_hour == u64_at(d, 206)
    &&& f.energy_production == u64_at(d, 214)
    &&& f.energy_consumption == u64_at(d, 222)
    &&& f.metal_cap == u64_at(d, 230)
    &&& f.crystal_cap == u64_at(d, 238)
    &&& f.deuterium_cap == u64_at(d, 246)
    &&& f.last_update_ts == i64_at(d, 254)
}

/// Reads the resource fields of a planet record owned by `owner`; refused where the record is
/// not `program_id`'s or is too short.
pub fn read_planet_deposit_fields(owner: Key, program_id: Key, data: &[u8]) -> (r: Result<PlanetDepositFields, GameStateError>)
    ensures
        owner@ != program_id@ ==> r == Err::<PlanetDepositFields, GameStateError>(GameStateError::Unauthorized),
        owner@ == program_id@ && data@.len() < PLANET_DEPOSIT_MIN_LEN ==> r == Err::<PlanetDepositFields, GameStateError>(GameStateError::InvalidArgs),
        owner@ == program_id@ && data@.len() >= PLANET_DEPOSIT_MIN_LEN ==> (r matches Ok(f) && deposit_fields_from(f, data@)),
{
    if !owner.same_as(&program_id) {
        return Err(GameStateError::Unauthorized);
    }
    if data.len() < PLANET_DEPOSIT_MIN_LEN {
        return Err(GameStateError::InvalidArgs);
    }
    Ok(PlanetDepositFields {
        authority: read_key_at(data, PLANET_AUTHORITY_OFFSET),
        metal: read_u64_at(data, 166),
        crystal: read_u64_at(data, 174),
        deuterium: read_u64_at(data, 182),
        metal_hour: read_u64_at(data, 190),
        crystal_hour: read_u64_at(data, 198),
        deuterium_hour: read_u64_at(data, 206),
        energy_production: read_u64_at(data, 214),
        energy_consumption: read_u64_at(data, 222),
        metal_cap: read_u64_at(data, 230),
        crystal_cap: read_u64_at(data, 238),
        deuterium_cap: read_u64_at(data, 246),
        last_update_ts: read_i64_at(data, 254),
    })
}

/// The record bytes `d` once the resource fields that settlement changes are written from `f`.
pub open spec fn deposit_fields_written(d: Seq<u8>, f: PlanetDepositFields) -> Seq<u8> {
    let d = put_u64(d, 166, f.metal);
    let d = put_u64(d, 174, f.crystal);
    let d = put_u64(d, 182, f.deuterium);
    put_i64(d, 254, f.last_update_ts)
}

/// Writes the stock and settlement time of `planet` back into the record bytes; refused where
/// the record is too short.
pub fn write_planet_deposit_fields(data: &mut Vec<u8>, planet: &PlanetDepositFields) -> (r: Result<(), GameStateError>)
    ensures
        old(data)@.len() < PLANET_DEPOSIT_MIN_LEN ==> r == Err::<(), GameStateError>(GameStateError::InvalidArgs) && final(data)@ == old(data)@,
        old(data)@.len() >= PLANET_DEPOSIT_MIN_LEN ==> r == Ok::<(), GameStateError>(()) && final(data)@ == deposit_fields_written(old(data)@, *planet),
        final(data)@.len() == old(data)@.len(),
{
    if data.len() < PLANET_DEPOSIT_MIN_LEN {
        return Err(GameStateError::InvalidArgs);
    }
    write_u64_at(data, 166, planet.metal);
    write_u64_at(data, 174, planet.crystal);
    write_u64_at(data, 182, planet.deuterium);
    write_i64_at(data, 254, planet.last_update_ts);
    Ok(())
}

/// Whether `f` holds the building, research and shipyard fields of the record bytes `d`.
pub open spec fn build_fields_from(f: PlanetBuildFields, d: Seq<u8>) -> bool {
    &&& deposit_fields_from(f.deposit, d)
    &&& f.temperature == i16_at(d, 117)
    &&& f.max_fields == u16_at(d, 119)
    &&& f.used_fields == u16_at(d, 121)
    &&& f.metal_mine == d[123]
    &&& f.crystal_mine == d[124]
    &&& f.deuterium_synthesizer == d[125]
    &&& f.solar_plant == d[126]
    &&& f.fusion_reactor == d[127]
    &&& f.robotics_factory == d[128]
    &&& f.nanite_factory == d[129]
    &&& f.shipyard == d[130]
    &&& f.metal_storage == d[131]
    &&& f.crystal_storage == d[132]
    &&& f.deuterium_tank == d[133]
    &&& f.research_lab == d[134]
    &&& f.missile_silo == d[135]
    &&& f.energy_tech == d[136]
    &&& f.combustion_drive == d[137]
    &&& f.impulse_drive == d[138]
    &&& f.hyperspace_drive == d[139]
    &&& f.computer_tech == d[140]
    &&& f.astrophysics == d[141]
    &&& f.igr_network == d[142]
    &&& f.weapons_technology == d[143]
    &&& f.shielding_technology == d[144]
    &&& f.armor_technology == d[145]
    &&& f.small_cargo == u32_at(d, 310)
    &&& f.large_cargo == u32_at(d, 314)
    &&& f.light_fighter == u32_at(d, 318)
    &&& f.heavy_fighter == u32_at(d, 322)
    &&& f.cruiser == u32_at(d, 326)
    &&& f.battleship == u32_at(d, 330)
    &&& f.battlecruiser == u32_at(d, 334)
    &&& f.bomber == u32_at(d, 338)
    &&& f.destroyer == u32_at(d, 342)
    &&& f.deathstar == u32_at(d, 346)
    &&& f.recycler == u32_at(d, 350)
    &&& f.espionage_probe == u32_at(d, 354)
    &&& f.colony_ship == u32_at(d, 358)
    &&& f.solar_satellite == u32_at(d, 362)
    &&& f.research_queue_item == d[146]
    &&& f.research_queue_target == d[147]
    &&& f.research_finish_ts == i64_at(d, 148)
    &&& f.build_queue_item == d[156]
    &&& f.build_queue_target == d[157]
    &&& f.build_finish_ts == i64_at(d, 158)
    &&& f.ship_build_item == d[976]
    &&& f.ship_build_qty == u32_at(d, 977)
    &&& f.ship_build_finish_ts == i64_at(d, 981)
}

/// Reads the fields of a planet record that the building, research and shipyard fast paths
/// use; refused as the resource fields are.
pub fn read_planet_build_fields(owner: Key, program_id: Key, data: &[u8]) -> (r: Result<PlanetBuildFields, GameStateError>)
    ensures
        owner@ != program_id@ ==> r == Err::<PlanetBuildFields, GameStateError>(GameStateError::Unauthorized),
        owner@ == program_id@ && data@.len() < PLANET_DEPOSIT_MIN_LEN ==> r == Err::<PlanetBuildFields, GameStateError>(GameStateError::InvalidArgs),
        owner@ == program_id@ && data@.len() >= PLANET_DEPOSIT_MIN_LEN ==> (r matches Ok(f) && build_fields_from(f, data@)),
{
    let deposit = match read_planet_deposit_fields(owner, program_id, data) {
        Ok(f) => f,
        Err(e) => {
            return Err(e);
        },
    };
    Ok(PlanetBuildFields {
        deposit,
        temperature: read_i16_at(data, 117),
        max_fields: read_u16_at(data, 119),
        used_fields: read_u16_at(data, 121),
        metal_mine: read_u8_at(data, 123),
        crystal_mine: read_u8_at(data, 124),
        deuterium_synthesizer: read_u8_at(data, 125),
        solar_plant: read_u8_at(data, 126),
        fusion_reactor: read_u8_at(data, 127),
        robotics_factory: read_u8_at(data, 128),
        nanite_factory: read_u8_at(data, 129),
        shipyard: read_u8_at(data, 130),
        metal_storage: read_u8_at(data, 131),
        crystal_storage: read_u8_at(data, 132),
        deuterium_tank: read_u8_at(data, 133),
        research_lab: read_u8_at(data, 134),
        missile_silo: read_u8_at(data, 135),
        energy_tech: read_u8_at(data, 136),
        combustion_drive: read_u8_at(data, 137),
        impulse_drive: read_u8_at(data, 138),
        hyperspace_drive: read_u8_at(data, 139),
        computer_tech: read_u8_at(data, 140),
        astrophysics: read_u8_at(data, 141),
        igr_network: read_u8_at(data, 142),
        weapons_technology: read_u8_at(data, 143),
        shielding_technology: read_u8_at(data, 144),
        armor_technology: read_u8_at(data, 145),
        small_cargo: read_u32_at(data, 310),
        large_cargo: read_u32_at(data, 314),
        light_fighter: read_u32_at(data, 318),
        heavy_fighter: read_u32_at(data, 322),
        cruiser: read_u32_at(data, 326),
        battleship: read_u32_at(data, 330),
        battlecruiser: read_u32_at(data, 334),
        bomber: read_u32_at(data, 338),
        destroyer: read_u32_at(data, 342),
        deathstar: read_u32_at(data, 346),
        recycler: read_u32_at(data, 350),
        espionage_probe: read_u32_at(data, 354),
        colony_ship: read_u32_at(data, 358),
        solar_satellite: read_u32_at(data, 362),
        research_queue_item: read_u8_at(data, 146),
        research_queue_target: read_u8_at(data, 147),
        research_finish_ts: read_i64_at(data, 148),
        build_queue_item: read_u8_at(data, 156),
        build_queue_target: read_u8_at(data, 157),
        build_finish_ts: read_i64_at(data, 158),
        ship_build_item: read_u8_at(data, 976),
        ship_build_qty: read_u32_at(data, 977),
        ship_build_finish_ts: read_i64_at(data, 981),
    })
}

/// The record bytes `d` once every field of `f` that the fast paths change is written back, in
/// the order the writer writes them.
pub open spec fn build_fields_written(d: Seq<u8>, f: PlanetBuildFields) -> Seq<u8> {
    let d = deposit_fields_written(d, f.deposit);
    let d = put_u16(d, 121, f.used_fields);
    let d = put_u8(d, 123, f.metal_mine);
    let d = put_u8(d, 124, f.crystal_mine);
    let d = put_u8(d, 125, f.deuterium_synthesizer);
    let d = put_u8(d, 126, f.solar_plant);
    let d = put_u8(d, 127, f.fusion_reactor);
    let d = put_u8(d, 128, f.robotics_factory);
    let d = put_u8(d, 129, f.nanite_factory);
    let d = put_u8(d, 130, f.shipyard);
    let d = put_u8(d, 131, f.metal_storage);
    let d = put_u8(d, 132, f.crystal_storage);
    let d = put_u8(d, 133, f.deuterium_tank);
    let d = put_u8(d, 134, f.research_lab);
    let d = put_u8(d, 135, f.missile_silo);
    let d = put_u8(d, 136, f.energy_tech);
    let d = put_u8(d, 137, f.combustion_drive);
    let d = put_u8(d, 138, f.impulse_drive);
    let d = put_u8(d, 139, f.hyperspace_drive);
    let d = put_u8(d, 140, f.computer_tech);
    let d = put_u8(d, 141, f.astrophysics);
    let d = put_u8(d, 142, f.igr_network);
    let d = put_u8(d, 143, f.weapons_technology);
    let d = put_u8(d, 144, f.shielding_technology);
    let d = put_u8(d, 145, f.armor_technology);
    let d = put_u8(d, 146, f.research_queue_item);
    let d = put_u8(d, 147, f.research_queue_target);
    let d = put_i64(d, 148, f.research_finish_ts);
    let d = put_u64(d, 190, f.deposit.metal_hour);
    let d = put_u64(d, 198, f.deposit.crystal_hour);
    let d = put_u64(d, 206, f.deposit.deuterium_hour);
    let d = put_u64(d, 214, f.deposit.energy_production);
    let d = put_u64(d, 222, f.deposit.energy_consumption);
    let d = put_u64(d, 230, f.deposit.metal_cap);
    let d = put_u64(d, 238, f.deposit.crystal_cap);
    let d = put_u64(d, 246, f.deposit.deuterium_cap);
    let d = put_u8(d, 156, f.build_queue_item);
    let d = put_u8(d, 157, f.build_queue_target);
    let d = put_i64(d, 158, f.build_finish_ts);
    let d = put_u32(d, 310, f.small_cargo);
    let d = put_u32(d, 314, f.large_cargo);
    let d = put_u32(d, 318, f.light_fighter);
    let d = put_u32(d, 322, f.heavy_fighter);
    let d = put_u32(d, 326, f.cruiser);
    let d = put_u32(d, 330, f.battleship);
    let d = put_u32(d, 334, f.battlecruiser);
    let d = put_u32(d, 338, f.bomber);
    let d = put_u32(d, 342, f.destroyer);
    let d = put_u32(d, 346, f.deathstar);
    let d = put_u32(d, 350, f.recycler);
    let d = put_u32(d, 354, f.espionage_probe);
    let d = put_u32(d, 358, f.colony_ship);
    let d = put_u32(d, 362, f.solar_satellite);
    let d = put_u8(d, 976, f.ship_build_item);
    let d = put_u32(d, 977, f.ship_build_qty);
    let d = put_i64(d, 981, f.ship_build_finish_ts);
    d
}

/// Writes every field of `planet` that the fast paths change back into the record bytes;
/// refused where the record is too short.
pub fn write_planet_build_fields(data: &mut Vec<u8>, planet: &PlanetBuildFields) -> (r: Result<(), GameStateError>)
    ensures
        old(data)@.len() < PLANET_DEPOSIT_MIN_LEN ==> r == Err::<(), GameStateError>(GameStateError::InvalidArgs) && final(data)@ == old(data)@,
        old(data)@.len() >= PLANET_DEPOSIT_MIN_LEN ==> r == Ok::<(), GameStateError>(()) && final(data)@ == build_fields_written(old(data)@, *planet),
        final(data)@.len() == old(data)@.len(),
{
    match write_planet_deposit_fields(data, &planet.deposit) {
        Err(e) => {
            return Err(e);
        },
        Ok(()) => {},
    }
    write_u16_at(data, 121, planet.used_fields);
    write_u8_at(data, 123, planet.metal_mine);
    write_u8_at(data, 124, planet.crystal_mine);
    write_u8_at(data, 125, planet.deuterium_synthesizer);
    write_u8_at(data, 126, planet.solar_plant);
    write_u8_at(data, 127, planet.fusion_reactor);
    write_u8_at(data, 128, planet.robotics_factory);
    write_u8_at(data, 129, planet.nanite_factory);
    write_u8_at(data, 130, planet.shipyard);
    write_u8_at(data, 131, planet.metal_storage);
    write_u8_at(data, 132, planet.crystal_storage);
    write_u8_at(data, 133, planet.deuterium_tank);
    write_u8_at(data, 134, planet.research_lab);
    write_u8_at(data, 135, planet.missile_silo);
    write_u8_at(data, 136, planet.energy_tech);
    write_u8_at(data, 137, planet.combustion_drive);
    write_u8_at(data, 138, planet.impulse_drive);
    write_u8_at(data, 139, planet.hyperspace_drive);
    write_u8_at(data, 140, planet.computer_tech);
    write_u8_at(data, 141, planet.astrophysics);
    write_u8_at(data, 142, planet.igr_network);
    write_u8_at(data, 143, planet.weapons_technology);
    write_u8_at(data, 144, planet.shielding_technology);
    write_u8_at(data, 145, planet.armor_technology);
    write_u8_at(data, 146, planet.research_queue_item);
    write_u8_at(data, 147, planet.research_queue_target);
    write_i64_at(data, 148, planet.research_finish_ts);
    write_u64_at(data, 190, planet.deposit.metal_hour);
    write_u64_at(data, 198, planet.deposit.crystal_hour);
    write_u64_at(data, 206, planet.deposit.deuterium_hour);
    write_u64_at(data, 214, planet.deposit.energy_production);
    write_u64_at(data, 222, planet.deposit.energy_consumption);
    write_u64_at(data, 230, planet.deposit.metal_cap);
    write_u64_at(data, 238, planet.deposit.crystal_cap);
    write_u64_at(data, 246, planet.deposit.deuterium_cap);
    write_u8_at(data, 156, planet.build_queue_item);
    write_u8_at(data, 157, planet.build_queue_target);
    write_i64_at(data, 158, planet.build_finish_ts);
    write_u32_at(data, 310, planet.small_cargo);
    write_u32_at(data, 314, planet.large_cargo);
    write_u32_at(data, 318, planet.light_fighter);
    write_u32_at(data, 322, planet.heavy_fighter);
    write_u32_at(data, 326, planet.cruiser);
    write_u32_at(data, 330, planet.battleship);
    write_u32_at(data, 334, planet.battlecruiser);
    write_u32_at(data, 338, planet.bomber);
    write_u32_at(data, 342, planet.destroyer);
    write_u32_at(data, 346, planet.deathstar);
    write_u32_at(data, 350, planet.recycler);
    write_u32_at(data, 354, planet.espionage_probe);
    write_u32_at(data, 358, planet.colony_ship);
    write_u32_at(data, 362, planet.solar_satellite);
    write_u8_at(data, 976, planet.ship_build_item);
    write_u32_at(data, 977, planet.ship_build_qty);
    write_i64_at(data, 981, planet.ship_build_finish_ts);
    Ok(())
}

} // verus!
