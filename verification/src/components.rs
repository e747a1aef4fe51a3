//! The entity-component records of the session game: a planet's buildings, its resources, its
//! research and its fleet with four mission slots, and the production they share.
use vstd::prelude::*;

use crate::key::Key;

verus! {

/// The buildings and build queue of a planet entity.
#[derive(Clone, Copy, Debug)]
pub struct Planet {
    pub creator: Key,
    pub entity: Key,
    pub owner: Key,
    pub name: [u8; 32],
    pub galaxy: u16,
    pub system: u16,
    pub position: u8,
    pub planet_index: u32,
    pub diameter: u32,
    pub temperature: i16,
    pub max_fields: u16,
    pub used_fields: u16,
    pub metal_mine: u8,
    pub crystal_mine: u8,
    pub deuterium_synthesizer: u8,
    pub solar_plant: u8,
    pub fusion_reactor: u8,
    pub robotics_factory: u8,
    pub nanite_factory: u8,
    pub shipyard: u8,
    pub metal_storage: u8,
    pub crystal_storage: u8,
    pub deuterium_tank: u8,
    pub research_lab: u8,
    pub missile_silo: u8,
    pub build_queue_item: u8,
    pub build_queue_target: u8,
    pub build_finish_ts: i64,
}

impl Planet {
    /// The level of building `idx` (0 metal mine .. 12 missile silo); 0 for any other index.
    pub open spec fn spec_level(self, idx: u8) -> u8 {
        match idx {
            0 => self.metal_mine,
            1 => self.crystal_mine,
            2 => self.deuterium_synthesizer,
            3 => self.solar_plant,
            4 => self.fusion_reactor,
            5 => self.robotics_factory,
            6 => self.nanite_factory,
            7 => self.shipyard,
            8 => self.metal_storage,
            9 => self.crystal_storage,
            10 => self.deuterium_tank,
            11 => self.research_lab,
            12 => self.missile_silo,
            _ => 0,
        }
    }

    /// This planet with building `idx` at `level`; unchanged for an unknown index.
    pub open spec fn with_level(self, idx: u8, level: u8) -> Planet {
        match idx {
            0 => Planet { metal_mine: level, ..self },
            1 => Planet { crystal_mine: level, ..self },
            2 => Planet { deuterium_synthesizer: level, ..self },
            3 => Planet { solar_plant: level, ..self },
            4 => Planet { fusion_reactor: level, ..self },
            5 => Planet { robotics_factory: level, ..self },
            6 => Planet { nanite_factory: level, ..self },
            7 => Planet { shipyard: level, ..self },
            8 => Planet { metal_storage: level, ..self },
            9 => Planet { crystal_storage: level, ..self },
            10 => Planet { deuterium_tank: level, ..self },
            11 => Planet { research_lab: level, ..self },
            12 => Planet { missile_silo: level, ..self },
            _ => self,
        }
    }

    /// The level of building `idx`.
    pub fn get_level(&self, idx: u8) -> (r: u8)
        ensures
            r == self.spec_level(idx),
    {
        match idx {
            0 => self.metal_mine,
            1 => self.crystal_mine,
            2 => self.deuterium_synthesizer,
            3 => self.solar_plant,
            4 => self.fusion_reactor,
            5 => self.robotics_factory,
            6 => self.nanite_factory,
            7 => self.shipyard,
            8 => self.metal_storage,
            9 => self.crystal_storage,
            10 => self.deuterium_tank,
            11 => self.research_lab,
            12 => self.missile_silo,
            _ => 0,
        }
    }

    /// Sets building `idx` to `level`; nothing happens for an unknown index.
    pub fn set_level(&mut self, idx: u8, level: u8)
        ensures
            *final(self) == old(self).with_level(idx, level),
    {
        match idx {
            0 => self.metal_mine = level,
            1 => self.crystal_mine = level,
            2 => self.deuterium_synthesizer = level,
            3 => self.solar_plant = level,
            4 => self.fusion_reactor = level,
            5 => self.robotics_factory = level,
            6 => self.nanite_factory = level,
            7 => self.shipyard = level,
            8 => self.metal_storage = level,
            9 => self.crystal_storage = level,
            10 => self.deuterium_tank = level,
            11 => self.research_lab = level,
            12 => self.missile_silo = level,
            _ => {},
        }
    }
}

/// The resource stock, rates and caps of a planet entity.
#[derive(Clone, Copy, Debug)]
pub struct Resources {
    pub metal: u64,
    pub crystal: u64,
    pub deuterium: u64,
    pub metal_hour: u64,
    pub crystal_hour: u64,
    pub deuterium_hour: u64,
    pub energy_production: u64,
    pub energy_consumption: u64,
    pub metal_cap: u64,
    pub crystal_cap: u64,
    pub deuterium_cap: u64,
    pub last_update_ts: i64,
}

/// Resources with every figure at zero.
pub open spec fn empty_resources() -> Resources {
    Resources {
        metal: 0,
        crystal: 0,
        deuterium: 0,
        metal_hour: 0,
        crystal_hour: 0,
        deuterium_hour: 0,
        energy_production: 0,
        energy_consumption: 0,
        metal_cap: 0,
        crystal_cap: 0,
        deuterium_cap: 0,
        last_update_ts: 0,
    }
}

impl Default for Resources {
    fn default() -> (r: Resources)
        ensures
            r == empty_resources(),
    {
        Resources {
            metal: 0,
            crystal: 0,
            deuterium: 0,
            metal_hour: 0,
            crystal_hour: 0,
            deuterium_hour: 0,
            energy_production: 0,
            energy_consumption: 0,
            metal_cap: 0,
            crystal_cap: 0,
            deuterium_cap: 0,
            last_update_ts: 0,
        }
    }
}

/// The research levels and queue of a player entity.
#[derive(Clone, Copy, Debug)]
pub struct Research {
    pub creator: Key,
    pub energy_tech: u8,
    pub combustion_drive: u8,
    pub impulse_drive: u8,
    pub hyperspace_drive: u8,
    pub computer_tech: u8,
    pub astrophysics: u8,
    pub igr_network: u8,
    pub queue_item: u8,
    pub queue_target: u8,
    pub research_finish_ts: i64,
}

/// Research with every level at zero and an idle queue.
pub open spec fn empty_research() -> Research {
    Research {
        creator: Key { bytes: vstd::array::spec_array_fill_for_copy_type(0u8) },
        energy_tech: 0,
        combustion_drive: 0,
        impulse_drive: 0,
        hyperspace_drive: 0,
        computer_tech: 0,
        astrophysics: 0,
        igr_network: 0,
        queue_item: 255,
        queue_target: 0,
        research_finish_ts: 0,
    }
}

impl Default for Research {
    fn default() -> (r: Research)
        ensures
            r.creator@ == Seq::new(32, |i: int| 0u8),
            r == (Research { creator: r.creator, ..empty_research() }),
    {
        Research {
            creator: Key::zero(),
            energy_tech: 0,
            combustion_drive: 0,
            impulse_drive: 0,
            hyperspace_drive: 0,
            computer_tech: 0,
            astrophysics: 0,
            igr_network: 0,
            queue_item: 255,
            queue_target: 0,
            research_finish_ts: 0,
        }
    }
}

impl Research {
    /// The level of technology `idx` (0 energy .. 6 IGR network); 0 for any other index.
    pub open spec fn spec_level(self, idx: u8) -> u8 {
        match idx {
            0 => self.energy_tech,
            1 => self.combustion_drive,
            2 => self.impulse_drive,
            3 => self.hyperspace_drive,
            4 => self.computer_tech,
            5 => self.astrophysics,
            6 => self.igr_network,
            _ => 0,
        }
    }

    /// This research with technology `idx` at `level`; unchanged for an unknown index.
    pub open spec fn with_level(self, idx: u8, level: u8) -> Research {
        match idx {
            0 => Research { energy_tech: level, ..self },
            1 => Research { combustion_drive: level, ..self },
            2 => Research { impulse_drive: level, ..self },
            3 => Research { hyperspace_drive: level, ..self },
            4 => Research { computer_tech: level, ..self },
            5 => Research { astrophysics: level, ..self },
            6 => Research { igr_network: level, ..self },
            _ => self,
        }
    }

    /// The level of technology `idx`.
    pub fn level(&self, idx: u8) -> (r: u8)
        ensures
            r == self.spec_level(idx),
    {
        match idx {
            0 => self.energy_tech,
            1 => self.combustion_drive,
            2 => self.impulse_drive,
            3 => self.hyperspace_drive,
            4 => self.computer_tech,
            5 => self.astrophysics,
            6 => self.igr_network,
            _ => 0,
        }
    }

    /// Sets technology `idx` to `level`; nothing happens for an unknown index.
    pub fn set_level(&mut self, idx: u8, level: u8)
        ensures
            *final(self) == old(self).with_level(idx, level),
    {
        match idx {
            0 => self.energy_tech = level,
            1 => self.combustion_drive = level,
            2 => self.impulse_drive = level,
            3 => self.hyperspace_drive = level,
            4 => self.computer_tech = level,
            5 => self.astrophysics = level,
            6 => self.igr_network = level,
            _ => {},
        }
    }
}

/// One mission slot of a fleet.
#[derive(Clone, Copy, Debug)]
pub struct FleetMission {
    pub mission_type: u8,
    pub target_galaxy: u16,
    pub target_system: u16,
    pub target_position: u8,
    pub colony_name: [u8; 32],
    pub depart_ts: i64,
    pub arrive_ts: i64,
    pub return_ts: i64,
    pub small_cargo: u32,
    pub large_cargo: u32,
    pub light_fighter: u32,
    pub heavy_fighter: u32,
    pub cruiser: u32,
    pub battleship: u32,
    pub battlecruiser: u32,
    pub bomber: u32,
    pub destroyer: u32,
    pub deathstar: u32,
    pub recycler: u32,
    pub espionage_probe: u32,
    pub colony_ship: u32,
    pub cargo_metal: u64,
    pub cargo_crystal: u64,
    pub cargo_deuterium: u64,
    pub applied: bool,
}

/// An empty mission slot.
pub open spec fn empty_fleet_mission() -> FleetMission {
    FleetMission {
        mission_type: 0,
        target_galaxy: 0,
        target_system: 0,
        target_position: 0,
        colony_name: vstd::array::spec_array_fill_for_copy_type(0u8),
        depart_ts: 0,
        arrive_ts: 0,
        return_ts: 0,
        small_cargo: 0,
        large_cargo: 0,
        light_fighter: 0,
        heavy_fighter: 0,
        cruiser: 0,
        battleship: 0,
        battlecruiser: 0,
        bomber: 0,
        destroyer: 0,
        deathstar: 0,
        recycler: 0,
        espionage_probe: 0,
        colony_ship: 0,
        cargo_metal: 0,
        cargo_crystal: 0,
        cargo_deuterium: 0,
        applied: false,
    }
}

impl FleetMission {
    /// An empty mission slot.
    pub fn empty() -> (m: FleetMission)
        ensures
            m == empty_fleet_mission(),
    {
        let m = FleetMission {
            mission_type: 0,
            target_galaxy: 0,
            target_system: 0,
            target_position: 0,
            colony_name: [0u8; 32],
            depart_ts: 0,
            arrive_ts: 0,
            return_ts: 0,
            small_cargo: 0,
            large_cargo: 0,
            light_fighter: 0,
            heavy_fighter: 0,
            cruiser: 0,
            battleship: 0,
            battlecruiser: 0,
            bomber: 0,
            destroyer: 0,
            deathstar: 0,
            recycler: 0,
            espionage_probe: 0,
            colony_ship: 0,
            cargo_metal: 0,
            cargo_crystal: 0,
            cargo_deuterium: 0,
            applied: false,
        };
        assert(m.colony_name =~= vstd::array::spec_array_fill_for_copy_type(0u8));
        m
    }
}

/// The stationed ships and the mission slots of a player's fleet.
#[derive(Clone, Copy, Debug)]
pub struct Fleet {
    pub creator: Key,
    pub small_cargo: u32,
    pub large_cargo: u32,
    pub light_fighter: u32,
    pub heavy_fighter: u32,
    pub cruiser: u32,
    pub battleship: u32,
    pub battlecruiser: u32,
    pub bomber: u32,
    pub destroyer: u32,
    pub deathstar: u32,
    pub recycler: u32,
    pub espionage_probe: u32,
    pub colony_ship: u32,
    pub solar_satellite: u32,
    pub active_missions: u8,
    pub missions: [FleetMission; 4],
}

/// The slot a mission index addresses: slots 0 to 2 as given, every other index the last slot.
pub open spec fn slot_index(slot: usize) -> int {
    if slot < 3 {
        slot as int
    } else {
        3
    }
}

fn slot_of(slot: usize) -> (i: usize)
    ensures
        i == slot_index(slot),
{
    if slot < 3 {
        slot
    } else {
        3
    }
}

/// A fleet with no ships and four empty slots.
pub open spec fn empty_fleet() -> Fleet {
    Fleet {
        creator: Key { bytes: vstd::array::spec_array_fill_for_copy_type(0u8) },
        small_cargo: 0,
        large_cargo: 0,
        light_fighter: 0,
        heavy_fighter: 0,
        cruiser: 0,
        battleship: 0,
        battlecruiser: 0,
        bomber: 0,
        destroyer: 0,
        deathstar: 0,
        recycler: 0,
        espionage_probe: 0,
        colony_ship: 0,
        solar_satellite: 0,
        active_missions: 0,
        missions: vstd::array::spec_array_fill_for_copy_type(empty_fleet_mission()),
    }
}

impl Default for Fleet {
    fn default() -> (f: Fleet)
        ensures
            f.creator@ == Seq::new(32, |i: int| 0u8),
            f == (Fleet { creator: f.creator, missions: f.missions, ..empty_fleet() }),
            forall|i: int| 0 <= i < 4 ==> f.missions[i] == empty_fleet_mission(),
    {
        let m = FleetMission::empty();
        Fleet {
            creator: Key::zero(),
            small_cargo: 0,
            large_cargo: 0,
            light_fighter: 0,
            heavy_fighter: 0,
            cruiser: 0,
            battleship: 0,
            battlecruiser: 0,
            bomber: 0,
            destroyer: 0,
            deathstar: 0,
            recycler: 0,
            espionage_probe: 0,
            colony_ship: 0,
            solar_satellite: 0,
            active_missions: 0,
            missions: [m, m, m, m],
        }
    }
}

impl Fleet {
    /// The `mission_type` of mission slot `slot`.
    pub fn m_type(&self, slot: usize) -> (r: u8)
        ensures
            r == self.missions[slot_index(slot)].mission_type,
    {
        self.missions[slot_of(slot)].mission_type
    }

    /// The `target_galaxy` of mission slot `slot`.
    pub fn m_target_galaxy(&self, slot: usize) -> (r: u16)
        ensures
            r == self.missions[slot_index(slot)].target_galaxy,
    {
        self.missions[slot_of(slot)].target_galaxy
    }

    /// The `target_system` of mission slot `slot`.
    pub fn m_target_system(&self, slot: usize) -> (r: u16)
        ensures
            r == self.missions[slot_index(slot)].target_system,
    {
        self.missions[slot_of(slot)].target_system
    }

    /// The `target_position` of mission slot `slot`.
    pub fn m_target_position(&self, slot: usize) -> (r: u8)
        ensures
            r == self.missions[slot_index(slot)].target_position,
    {
        self.missions[slot_of(slot)].target_position
    }

    /// The `colony_name` of mission slot `slot`.
    pub fn m_colony_name(&self, slot: usize) -> (r: [u8; 32])
        ensures
            r == self.missions[slot_index(slot)].colony_name,
    {
        self.missions[slot_of(slot)].colony_name
    }

    /// The `depart_ts` of mission slot `slot`.
    pub fn m_depart_ts(&self, slot: usize) -> (r: i64)
        ensures
            r == self.missions[slot_index(slot)].depart_ts,
    {
        self.missions[slot_of(slot)].depart_ts
    }

    /// The `arrive_ts` of mission slot `slot`.
    pub fn m_arrive_ts(&self, slot: usize) -> (r: i64)
        ensures
            r == self.missions[slot_index(slot)].arrive_ts,
    {
        self.missions[slot_of(slot)].arrive_ts
    }

    /// The `return_ts` of mission slot `slot`.
    pub fn m_return_ts(&self, slot: usize) -> (r: i64)
        ensures
            r == self.missions[slot_index(slot)].return_ts,
    {
        self.missions[slot_of(slot)].return_ts
    }

    /// The `small_cargo` of mission slot `slot`.
    pub fn m_small_cargo(&self, slot: usize) -> (r: u32)
        ensures
            r == self.missions[slot_index(slot)].small_cargo,
    {
        self.missions[slot_of(slot)].small_cargo
    }

    /// The `large_cargo` of mission slot `slot`.
    pub fn m_large_cargo(&self, slot: usize) -> (r: u32)
        ensures
            r == self.missions[slot_index(slot)].large_cargo,
    {
        self.missions[slot_of(slot)].large_cargo
    }

    /// The `light_fighter` of mission slot `slot`.
    pub fn m_light_fighter(&self, slot: usize) -> (r: u32)
        ensures
            r == self.missions[slot_index(slot)].light_fighter,
    {
        self.missions[slot_of(slot)].light_fighter
    }

    /// The `heavy_fighter` of mission slot `slot`.
    pub fn m_heavy_fighter(&self, slot: usize) -> (r: u32)
        ensures
            r == self.missions[slot_index(slot)].heavy_fighter,
    {
        self.missions[slot_of(slot)].heavy_fighter
    }

    /// The `cruiser` of mission slot `slot`.
    pub fn m_cruiser(&self, slot: usize) -> (r: u32)
        ensures
            r == self.missions[slot_index(slot)].cruiser,
    {
        self.missions[slot_of(slot)].cruiser
    }

    /// The `battleship` of mission slot `slot`.
    pub fn m_battleship(&self, slot: usize) -> (r: u32)
        ensures
            r == self.missions[slot_index(slot)].battleship,
    {
        self.missions[slot_of(slot)].battleship
    }

    /// The `battlecruiser` of mission slot `slot`.
    pub fn m_battlecruiser(&self, slot: usize) -> (r: u32)
        ensures
            r == self.missions[slot_index(slot)].battlecruiser,
    {
        self.missions[slot_of(slot)].battlecruiser
    }

    /// The `bomber` of mission slot `slot`.
    pub fn m_bomber(&self, slot: usize) -> (r: u32)
        ensures
            r == self.missions[slot_index(slot)].bomber,
    {
        self.missions[slot_of(slot)].bomber
    }

    /// The `destroyer` of mission slot `slot`.
    pub fn m_destroyer(&self, slot: usize) -> (r: u32)
        ensures
            r == self.missions[slot_index(slot)].destroyer,
    {
        self.missions[slot_of(slot)].destroyer
    }

    /// The `deathstar` of mission slot `slot`.
    pub fn m_deathstar(&self, slot: usize) -> (r: u32)
        ensures
            r == self.missions[slot_index(slot)].deathstar,
    {
        self.missions[slot_of(slot)].deathstar
    }

    /// The `recycler` of mission slot `slot`.
    pub fn m_recycler(&self, slot: usize) -> (r: u32)
        ensures
            r == self.missions[slot_index(slot)].recycler,
    {
        self.missions[slot_of(slot)].recycler
    }

    /// The `espionage_probe` of mission slot `slot`.
    pub fn m_espionage_probe(&self, slot: usize) -> (r: u32)
        ensures
            r == self.missions[slot_index(slot)].espionage_probe,
    {
        self.missions[slot_of(slot)].espionage_probe
    }

    /// The `colony_ship` of mission slot `slot`.
    pub fn m_colony_ship(&self, slot: usize) -> (r: u32)
        ensures
            r == self.missions[slot_index(slot)].colony_ship,
    {
        self.missions[slot_of(slot)].colony_ship
    }

    /// The `cargo_metal` of mission slot `slot`.
    pub fn m_cargo_metal(&self, slot: usize) -> (r: u64)
        ensures
            r == self.missions[slot_index(slot)].cargo_metal,
    {
        self.missions[slot_of(slot)].cargo_metal
    }

    /// The `cargo_crystal` of mission slot `slot`.
    pub fn m_cargo_crystal(&self, slot: usize) -> (r: u64)
        ensures
            r == self.missions[slot_index(slot)].cargo_crystal,
    {
        self.missions[slot_of(slot)].cargo_crystal
    }

    /// The `cargo_deuterium` of mission slot `slot`.
    pub fn m_cargo_deuterium(&self, slot: usize) -> (r: u64)
        ensures
            r == self.missions[slot_index(slot)].cargo_deuterium,
    {
        self.missions[slot_of(slot)].cargo_deuterium
    }

    /// The `applied` of mission slot `slot`.
    pub fn m_applied(&self, slot: usize) -> (r: bool)
        ensures
            r == self.missions[slot_index(slot)].applied,
    {
        self.missions[slot_of(slot)].applied
    }

    /// This fleet with mission slot `slot` replaced by `m`.
    pub open spec fn with_mission(self, slot: usize, m: FleetMission) -> Fleet {
        Fleet { missions: vstd::array::spec_array_update(self.missions, slot_index(slot), m), ..self }
    }

    /// Replaces mission slot `slot` with `m`.
    pub fn replace_mission(&mut self, slot: usize, m: FleetMission)
        ensures
            *final(self) == old(self).with_mission(slot, m),
    {
        broadcast use vstd::array::group_array_axioms;

        let i = slot_of(slot);
        self.missions[i] = m;
        assert(self.missions =~= vstd::array::spec_array_update(old(self).missions, i as int, m));
    }

    /// Marks mission slot `slot` resolved or not.
    pub fn set_mission_applied(&mut self, slot: usize, applied: bool)
        ensures
            *final(self) == old(self).with_mission(slot, FleetMission { applied, ..old(self).missions[slot_index(slot)] }),
    {
        let i = slot_of(slot);
        let m = FleetMission { applied, ..self.missions[i] };
        self.replace_mission(slot, m);
    }

    /// This fleet with the ships of mission slot `slot` added back to the stationed ships.
    pub open spec fn with_ships_returned(self, slot: usize) -> Fleet {
        let m = self.missions[slot_index(slot)];
        Fleet {
            light_fighter: self.light_fighter.saturating_add(m.light_fighter),
            heavy_fighter: self.heavy_fighter.saturating_add(m.heavy_fighter),
            cruiser: self.cruiser.saturating_add(m.cruiser),
            battleship: self.battleship.saturating_add(m.battleship),
            battlecruiser: self.battlecruiser.saturating_add(m.battlecruiser),
            bomber: self.bomber.saturating_add(m.bomber),
            destroyer: self.destroyer.saturating_add(m.destroyer),
            deathstar: self.deathstar.saturating_add(m.deathstar),
            small_cargo: self.small_cargo.saturating_add(m.small_cargo),
            large_cargo: self.large_cargo.saturating_add(m.large_cargo),
            recycler: self.recycler.saturating_add(m.recycler),
            espionage_probe: self.espionage_probe.saturating_add(m.espionage_probe),
            colony_ship: self.colony_ship.saturating_add(m.colony_ship),
            ..self
        }
    }

    /// Adds the ships of mission slot `slot` back to the stationed ships (saturating).
    pub fn return_mission_ships(&mut self, slot: usize)
        ensures
            *final(self) == old(self).with_ships_returned(slot),
    {
        self.light_fighter = self.light_fighter.saturating_add(self.m_light_fighter(slot));
        self.heavy_fighter = self.heavy_fighter.saturating_add(self.m_heavy_fighter(slot));
        self.cruiser = self.cruiser.saturating_add(self.m_cruiser(slot));
        self.battleship = self.battleship.saturating_add(self.m_battleship(slot));
        self.battlecruiser = self.battlecruiser.saturating_add(self.m_battlecruiser(slot));
        self.bomber = self.bomber.saturating_add(self.m_bomber(slot));
        self.destroyer = self.destroyer.saturating_add(self.m_destroyer(slot));
        self.deathstar = self.deathstar.saturating_add(self.m_deathstar(slot));
        self.small_cargo = self.small_cargo.saturating_add(self.m_small_cargo(slot));
        self.large_cargo = self.large_cargo.saturating_add(self.m_large_cargo(slot));
        self.recycler = self.recycler.saturating_add(self.m_recycler(slot));
        self.espionage_probe = self.espionage_probe.saturating_add(self.m_espionage_probe(slot));
        self.colony_ship = self.colony_ship.saturating_add(self.m_colony_ship(slot));
    }

    /// Empties mission slot `slot`.
    pub fn clear_mission(&mut self, slot: usize)
        ensures
            *final(self) == old(self).with_mission(slot, empty_fleet_mission()),
    {
        self.replace_mission(slot, FleetMission::empty());
    }

    /// The first slot that holds no mission.
    pub open spec fn spec_free_slot(self) -> Option<usize> {
        if self.missions[0].mission_type == 0 {
            Some(0)
        } else if self.missions[1].mission_type == 0 {
            Some(1)
        } else if self.missions[2].mission_type == 0 {
            Some(2)
        } else if self.missions[3].mission_type == 0 {
            Some(3)
        } else {
            None
        }
    }

    /// The first slot that holds no mission.
    pub fn free_slot(&self) -> (r: Option<usize>)
        ensures
            r == self.spec_free_slot(),
    {
        let mut i: usize = 0;
        while i < 4
            invariant
                i <= 4,
                forall|j: int| 0 <= j < i ==> self.missions[j].mission_type != 0,
            decreases 4 - i,
        {
            if self.m_type(i) == 0 {
                return Some(i);
            }
            i = i + 1;
        }
        None
    }

    /// Records a new mission in slot `slot`, not yet resolved.
    pub fn set_mission(
        &mut self,
        slot: usize,
        mission_type: u8,
        target_galaxy: u16,
        target_system: u16,
        target_position: u8,
        colony_name: [u8; 32],
        depart_ts: i64,
        arrive_ts: i64,
        return_ts: i64,
        lf: u32,
        hf: u32,
        cr: u32,
        bs: u32,
        bc: u32,
        bm: u32,
        ds: u32,
        de: u32,
        sc: u32,
        lc: u32,
        rec: u32,
        ep: u32,
        col: u32,
        cargo_metal: u64,
        cargo_crystal: u64,
        cargo_deuterium: u64,
    )
        ensures
            *final(self) == old(self).with_mission(slot, FleetMission {
                mission_type,
                target_galaxy,
                target_system,
                target_position,
                colony_name,
                depart_ts,
                arrive_ts,
                return_ts,
                small_cargo: sc,
                large_cargo: lc,
                light_fighter: lf,
                heavy_fighter: hf,
                cruiser: cr,
                battleship: bs,
                battlecruiser: bc,
                bomber: bm,
                destroyer: ds,
                deathstar: de,
                recycler: rec,
                espionage_probe: ep,
                colony_ship: col,
                cargo_metal,
                cargo_crystal,
                cargo_deuterium,
                applied: false,
            }),
    {
        self.replace_mission(slot, FleetMission {
            mission_type,
            target_galaxy,
            target_system,
            target_position,
            colony_name,
            depart_ts,
            arrive_ts,
            return_ts,
            small_cargo: sc,
            large_cargo: lc,
            light_fighter: lf,
            heavy_fighter: hf,
            cruiser: cr,
            battleship: bs,
            battlecruiser: bc,
            bomber: bm,
            destroyer: ds,
            deathstar: de,
            recycler: rec,
            espionage_probe: ep,
            colony_ship: col,
            cargo_metal,
            cargo_crystal,
            cargo_deuterium,
            applied: false,
        });
    }
}

/// Production efficiency (in ten-thousandths) given the energy balance.
pub open spec fn resource_efficiency(r: Resources) -> int {
    if r.energy_consumption == 0 {
        10_000
    } else {
        let e = r.energy_production * 10_000 / r.energy_consumption as int;
        if e < 10_000 {
            e
        } else {
            10_000
        }
    }
}

/// A balance after `dt` seconds at `rate` per hour with efficiency `eff`, saturating, capped.
pub open spec fn gained_balance(current: u64, rate: u64, dt: int, eff: int, cap: u64) -> u64 {
    let gained = crate::num::clamp_u64(crate::num::clamp_u64(rate * dt) * eff) / 3_600 / 10_000;
    crate::num::min_u64(crate::num::clamp_u64(current + gained), cap)
}

/// The resources once production up to `now` is credited: nothing is produced the first time or
/// when `now` is not later; the settlement time becomes `now` either way.
pub open spec fn settled_resources(r: Resources, now: i64) -> Resources {
    if r.last_update_ts <= 0 || now <= r.last_update_ts {
        Resources { last_update_ts: now, ..r }
    } else {
        let dt = now - r.last_update_ts;
        let eff = resource_efficiency(r);
        Resources {
            metal: gained_balance(r.metal, r.metal_hour, dt, eff, r.metal_cap),
            crystal: gained_balance(r.crystal, r.crystal_hour, dt, eff, r.crystal_cap),
            deuterium: gained_balance(r.deuterium, r.deuterium_hour, dt, eff, r.deuterium_cap),
            last_update_ts: now,
            ..r
        }
    }
}

/// Whether settling at `now` stays within the `u64` range.
pub open spec fn settle_resources_fits(r: Resources, now: i64) -> bool {
    (r.last_update_ts > 0 && now > r.last_update_ts && r.energy_consumption != 0) ==> r.energy_production * 10_000 <= u64::MAX
}

fn gain(current: u64, rate: u64, dt: u64, eff: u64, cap: u64) -> (r: u64)
    ensures
        r == gained_balance(current, rate, dt as int, eff as int, cap),
{
    let gained = crate::num::sat_mul(crate::num::sat_mul(rate, dt), eff) / 3_600 / 10_000;
    let total = current.saturating_add(gained);
    if total < cap {
        total
    } else {
        cap
    }
}

/// Credits the production since the last settlement, capped by storage, and moves the
/// settlement time to `now`.
pub fn settle_resources(res: &mut Resources, now: i64)
    requires
        settle_resources_fits(*old(res), now),
    ensures
        *final(res) == settled_resources(*old(res), now),
{
    if res.last_update_ts <= 0 || now <= res.last_update_ts {
        res.last_update_ts = now;
        return;
    }
    let dt = (now - res.last_update_ts) as u64;
    let eff: u64 = if res.energy_consumption == 0 {
        10_000
    } else {
        let e = res.energy_production * 10_000 / res.energy_consumption;
        if e < 10_000 {
            e
        } else {
            10_000
        }
    };
    res.metal = gain(res.metal, res.metal_hour, dt, eff, res.metal_cap);
    res.crystal = gain(res.crystal, res.crystal_hour, dt, eff, res.crystal_cap);
    res.deuterium = gain(res.deuterium, res.deuterium_hour, dt, eff, res.deuterium_cap);
    res.last_update_ts = now;
}

} // verus!
