//! The planet and mission records and the operations that keep their counters consistent.
use vstd::prelude::*;

use crate::constants::MAX_MISSIONS;
use crate::error::GameStateError;
use crate::key::Key;

verus! {

/// One fleet movement occupying a mission slot of its source planet.
#[derive(Clone, Copy)]
pub struct MissionState {
    pub mission_type: u8,
    pub target_galaxy: u16,
    pub target_system: u16,
    pub target_position: u8,
    pub colony_name: [u8; 32],
    pub depart_ts: i64,
    pub arrive_ts: i64,
    pub return_ts: i64,
    pub small_cargo: u32,
    pub large_cargo: u32,
    pub light_fighter: u32,
    pub heavy_fighter: u32,
    pub cruiser: u32,
    pub battleship: u32,
    pub battlecruiser: u32,
    pub bomber: u32,
    pub destroyer: u32,
    pub deathstar: u32,
    pub recycler: u32,
    pub espionage_probe: u32,
    pub colony_ship: u32,
    pub cargo_metal: u64,
    pub cargo_crystal: u64,
    pub cargo_deuterium: u64,
    pub applied: bool,
    pub speed_factor: u8,
    pub combat_rounds: u8,
    pub attacker_won: bool,
}

/// Whether `m` is the empty mission that a free slot holds.
pub open spec fn is_empty_mission(m: MissionState) -> bool {
    &&& m.mission_type == 0
    &&& m.target_galaxy == 0
    &&& m.target_system == 0
    &&& m.target_position == 0
    &&& forall|i: int| 0 <= i < 32 ==> m.colony_name[i] == 0
    &&& m.depart_ts == 0
    &&& m.arrive_ts == 0
    &&& m.return_ts == 0
    &&& m.small_cargo == 0
    &&& m.large_cargo == 0
    &&& m.light_fighter == 0
    &&& m.heavy_fighter == 0
    &&& m.cruiser == 0
    &&& m.battleship == 0
    &&& m.battlecruiser == 0
    &&& m.bomber == 0
    &&& m.destroyer == 0
    &&& m.deathstar == 0
    &&& m.recycler == 0
    &&& m.espionage_probe == 0
    &&& m.colony_ship == 0
    &&& m.cargo_metal == 0
    &&& m.cargo_crystal == 0
    &&& m.cargo_deuterium == 0
    &&& !m.applied
    &&& m.speed_factor == 0
    &&& m.combat_rounds == 0
    &&& !m.attacker_won
}

/// The empty mission that a free slot holds.
pub open spec fn empty_mission() -> MissionState {
    MissionState {
        mission_type: 0,
        target_galaxy: 0,
        target_system: 0,
        target_position: 0,
        colony_name: vstd::array::spec_array_fill_for_copy_type(0u8),
        depart_ts: 0,
        arrive_ts: 0,
        return_ts: 0,
        small_cargo: 0,
        large_cargo: 0,
        light_fighter: 0,
        heavy_fighter: 0,
        cruiser: 0,
        battleship: 0,
        battlecruiser: 0,
        bomber: 0,
        destroyer: 0,
        deathstar: 0,
        recycler: 0,
        espionage_probe: 0,
        colony_ship: 0,
        cargo_metal: 0,
        cargo_crystal: 0,
        cargo_deuterium: 0,
        applied: false,
        speed_factor: 0,
        combat_rounds: 0,
        attacker_won: false,
    }
}

impl MissionState {
    /// The empty mission.
    pub fn empty() -> (m: MissionState)
        ensures
            is_empty_mission(m),
            m == empty_mission(),
    {
        broadcast use vstd::array::group_array_axioms;

        let name = [0u8; 32];
        assert(name =~= vstd::array::spec_array_fill_for_copy_type::<u8, 32>(0u8));
        MissionState {
            mission_type: 0,
            target_galaxy: 0,
            target_system: 0,
            target_position: 0,
            colony_name: name,
            depart_ts: 0,
            arrive_ts: 0,
            return_ts: 0,
            small_cargo: 0,
            large_cargo: 0,
            light_fighter: 0,
            heavy_fighter: 0,
            cruiser: 0,
            battleship: 0,
            battlecruiser: 0,
            bomber: 0,
            destroyer: 0,
            deathstar: 0,
            recycler: 0,
            espionage_probe: 0,
            colony_ship: 0,
            cargo_metal: 0,
            cargo_crystal: 0,
            cargo_deuterium: 0,
            applied: false,
            speed_factor: 0,
            combat_rounds: 0,
            attacker_won: false,
        }
    }
}

/// The full gameplay record of one planet.
#[derive(Clone, Copy)]
pub struct PlanetState {
    pub authority: Key,
    pub player: Key,
    pub planet_index: u32,
    pub galaxy: u16,
    pub system: u16,
    pub position: u8,
    pub name: [u8; 32],
    pub diameter: u32,
    pub temperature: i16,
    pub max_fields: u16,
    pub used_fields: u16,
    pub metal_mine: u8,
    pub crystal_mine: u8,
    pub deuterium_synthesizer: u8,
    pub solar_plant: u8,
    pub fusion_reactor: u8,
    pub robotics_factory: u8,
    pub nanite_factory: u8,
    pub shipyard: u8,
    pub metal_storage: u8,
    pub crystal_storage: u8,
    pub deuterium_tank: u8,
    pub research_lab: u8,
    pub missile_silo: u8,
    pub energy_tech: u8,
    pub combustion_drive: u8,
    pub impulse_drive: u8,
    pub hyperspace_drive: u8,
    pub computer_tech: u8,
    pub astrophysics: u8,
    pub igr_network: u8,
    pub weapons_technology: u8,
    pub shielding_technology: u8,
    pub armor_technology: u8,
    pub research_queue_item: u8,
    pub research_queue_target: u8,
    pub research_finish_ts: i64,
    pub build_queue_item: u8,
    pub build_queue_target: u8,
    pub build_finish_ts: i64,
    pub metal: u64,
    pub crystal: u64,
    pub deuterium: u64,
    pub metal_hour: u64,
    pub crystal_hour: u64,
    pub deuterium_hour: u64,
    pub energy_production: u64,
    pub energy_consumption: u64,
    pub metal_cap: u64,
    pub crystal_cap: u64,
    pub deuterium_cap: u64,
    pub last_update_ts: i64,
    pub created_at: i64,
    pub protection_until_ts: i64,
    pub market_unlocked_at: i64,
    pub attack_unlocked_at: i64,
    pub last_attack_launch_ts: i64,
    pub last_attacked_ts: i64,
    pub small_cargo: u32,
    pub large_cargo: u32,
    pub light_fighter: u32,
    pub heavy_fighter: u32,
    pub cruiser: u32,
    pub battleship: u32,
    pub battlecruiser: u32,
    pub bomber: u32,
    pub destroyer: u32,
    pub deathstar: u32,
    pub recycler: u32,
    pub espionage_probe: u32,
    pub colony_ship: u32,
    pub solar_satellite: u32,
    pub rocket_launcher: u32,
    pub light_laser: u32,
    pub heavy_laser: u32,
    pub gauss_cannon: u32,
    pub ion_cannon: u32,
    pub plasma_turret: u32,
    pub small_shield_dome: u32,
    pub large_shield_dome: u32,
    pub anti_ballistic_missile: u32,
    pub interplanetary_missile: u32,
    pub active_missions: u8,
    pub missions: [MissionState; 4],
    pub bump: u8,
    pub ship_build_item: u8,
    pub ship_build_qty: u32,
    pub ship_build_finish_ts: i64,
    pub defense_build_item: u8,
    pub defense_build_qty: u32,
    pub defense_build_finish_ts: i64,
}

/// Whether `value` added to `current` stays within `cap` without leaving the `u64` range.
pub open spec fn fits_under_cap(current: u64, value: u64, cap: u64) -> bool {
    current + value <= cap && current + value <= u64::MAX
}

impl PlanetState {
    /// Level of building `idx` (0 metal mine .. 12 missile silo); 0 for any other index.
    pub open spec fn spec_building_level(self, idx: u8) -> u8 {
        match idx {
            0 => self.metal_mine,
            1 => self.crystal_mine,
            2 => self.deuterium_synthesizer,
            3 => self.solar_plant,
            4 => self.fusion_reactor,
            5 => self.robotics_factory,
            6 => self.nanite_factory,
            7 => self.shipyard,
            8 => self.metal_storage,
            9 => self.crystal_storage,
            10 => self.deuterium_tank,
            11 => self.research_lab,
            12 => self.missile_silo,
            _ => 0,
        }
    }

    /// This planet with building `idx` set to `level`; unchanged for an unknown index.
    pub open spec fn with_building_level(self, idx: u8, level: u8) -> PlanetState {
        match idx {
            0 => PlanetState { metal_mine: level, ..self },
            1 => PlanetState { crystal_mine: level, ..self },
            2 => PlanetState { deuterium_synthesizer: level, ..self },
            3 => PlanetState { solar_plant: level, ..self },
            4 => PlanetState { fusion_reactor: level, ..self },
            5 => PlanetState { robotics_factory: level, ..self },
            6 => PlanetState { nanite_factory: level, ..self },
            7 => PlanetState { shipyard: level, ..self },
            8 => PlanetState { metal_storage: level, ..self },
            9 => PlanetState { crystal_storage: level, ..self },
            10 => PlanetState { deuterium_tank: level, ..self },
            11 => PlanetState { research_lab: level, ..self },
            12 => PlanetState { missile_silo: level, ..self },
            _ => self,
        }
    }

    /// Level of technology `idx` (0 energy .. 9 armor); 0 for any other index.
    pub open spec fn spec_research_level(self, idx: u8) -> u8 {
        match idx {
            0 => self.energy_tech,
            1 => self.combustion_drive,
            2 => self.impulse_drive,
            3 => self.hyperspace_drive,
            4 => self.computer_tech,
            5 => self.astrophysics,
            6 => self.igr_network,
            7 => self.weapons_technology,
            8 => self.shielding_technology,
            9 => self.armor_technology,
            _ => 0,
        }
    }

    /// This planet with technology `idx` set to `level`; unchanged for an unknown index.
    pub open spec fn with_research_level(self, idx: u8, level: u8) -> PlanetState {
        match idx {
            0 => PlanetState { energy_tech: level, ..self },
            1 => PlanetState { combustion_drive: level, ..self },
            2 => PlanetState { impulse_drive: level, ..self },
            3 => PlanetState { hyperspace_drive: level, ..self },
            4 => PlanetState { computer_tech: level, ..self },
            5 => PlanetState { astrophysics: level, ..self },
            6 => PlanetState { igr_network: level, ..self },
            7 => PlanetState { weapons_technology: level, ..self },
            8 => PlanetState { shielding_technology: level, ..self },
            9 => PlanetState { armor_technology: level, ..self },
            _ => self,
        }
    }

    /// Number of mission slots the computer technology unlocks.
    pub open spec fn spec_usable_slots(self) -> int {
        let n = 1 + self.computer_tech / 5;
        if n < MAX_MISSIONS {
            n
        } else {
            MAX_MISSIONS as int
        }
    }

    /// Whether the three resources can each receive the given amounts.
    pub open spec fn has_resource_room(self, metal: u64, crystal: u64, deuterium: u64) -> bool {
        &&& fits_under_cap(self.metal, metal, self.metal_cap)
        &&& fits_under_cap(self.crystal, crystal, self.crystal_cap)
        &&& fits_under_cap(self.deuterium, deuterium, self.deuterium_cap)
    }

    /// This planet with the ships of mission `m` added back to its hangar (saturating).
    pub open spec fn with_ships_returned(self, m: MissionState) -> PlanetState {
        PlanetState {
            light_fighter: self.light_fighter.saturating_add(m.light_fighter),
            heavy_fighter: self.heavy_fighter.saturating_add(m.heavy_fighter),
            cruiser: self.cruiser.saturating_add(m.cruiser),
            battleship: self.battleship.saturating_add(m.battleship),
            battlecruiser: self.battlecruiser.saturating_add(m.battlecruiser),
            bomber: self.bomber.saturating_add(m.bomber),
            destroyer: self.destroyer.saturating_add(m.destroyer),
            deathstar: self.deathstar.saturating_add(m.deathstar),
            small_cargo: self.small_cargo.saturating_add(m.small_cargo),
            large_cargo: self.large_cargo.saturating_add(m.large_cargo),
            recycler: self.recycler.saturating_add(m.recycler),
            espionage_probe: self.espionage_probe.saturating_add(m.espionage_probe),
            colony_ship: self.colony_ship.saturating_add(m.colony_ship),
            ..self
        }
    }

    /// This planet with the ships and the cargo of mission `m` added back.
    pub open spec fn with_assets_returned(self, m: MissionState) -> PlanetState {
        PlanetState {
            metal: self.metal.saturating_add(m.cargo_metal),
            crystal: self.crystal.saturating_add(m.cargo_crystal),
            deuterium: self.deuterium.saturating_add(m.cargo_deuterium),
            ..self.with_ships_returned(m)
        }
    }

    /// This planet with `quantity` more ships of type `ship_type` (saturating).
    pub open spec fn with_ship_added(self, ship_type: u8, quantity: u32) -> PlanetState {
        match ship_type {
            0 => PlanetState { small_cargo: self.small_cargo.saturating_add(quantity), ..self },
            1 => PlanetState { large_cargo: self.large_cargo.saturating_add(quantity), ..self },
            2 => PlanetState { light_fighter: self.light_fighter.saturating_add(quantity), ..self },
            3 => PlanetState { heavy_fighter: self.heavy_fighter.saturating_add(quantity), ..self },
            4 => PlanetState { cruiser: self.cruiser.saturating_add(quantity), ..self },
            5 => PlanetState { battleship: self.battleship.saturating_add(quantity), ..self },
            6 => PlanetState { battlecruiser: self.battlecruiser.saturating_add(quantity), ..self },
            7 => PlanetState { bomber: self.bomber.saturating_add(quantity), ..self },
            8 => PlanetState { destroyer: self.destroyer.saturating_add(quantity), ..self },
            9 => PlanetState { deathstar: self.deathstar.saturating_add(quantity), ..self },
            10 => PlanetState { recycler: self.recycler.saturating_add(quantity), ..self },
            11 => PlanetState {
                espionage_probe: self.espionage_probe.saturating_add(quantity),
                ..self
            },
            12 => PlanetState { colony_ship: self.colony_ship.saturating_add(quantity), ..self },
            13 => PlanetState {
                solar_satellite: self.solar_satellite.saturating_add(quantity),
                ..self
            },
            _ => self,
        }
    }

    /// This planet with `quantity` more defenses of type `defense_type` (saturating).
    pub open spec fn with_defense_added(self, defense_type: u8, quantity: u32) -> PlanetState {
        match defense_type {
            0 => PlanetState {
                rocket_launcher: self.rocket_launcher.saturating_add(quantity),
                ..self
            },
            1 => PlanetState { light_laser: self.light_laser.saturating_add(quantity), ..self },
            2 => PlanetState { heavy_laser: self.heavy_laser.saturating_add(quantity), ..self },
            3 => PlanetState { gauss_cannon: self.gauss_cannon.saturating_add(quantity), ..self },
            4 => PlanetState { ion_cannon: self.ion_cannon.saturating_add(quantity), ..self },
            5 => PlanetState { plasma_turret: self.plasma_turret.saturating_add(quantity), ..self },
            6 => PlanetState {
                small_shield_dome: self.small_shield_dome.saturating_add(quantity),
                ..self
            },
            7 => PlanetState {
                large_shield_dome: self.large_shield_dome.saturating_add(quantity),
                ..self
            },
            8 => PlanetState {
                anti_ballistic_missile: self.anti_ballistic_missile.saturating_add(quantity),
                ..self
            },
            9 => PlanetState {
                interplanetary_missile: self.interplanetary_missile.saturating_add(quantity),
                ..self
            },
            _ => self,
        }
    }

    /// This planet with mission slot `slot` holding `m`.
    pub open spec fn with_slot(self, slot: int, m: MissionState) -> PlanetState {
        PlanetState { missions: vstd::array::spec_array_update(self.missions, slot, m), ..self }
    }

    /// This planet with mission slot `slot` emptied and one mission fewer counted.
    pub open spec fn with_slot_cleared(self, slot: int) -> PlanetState {
        PlanetState {
            active_missions: self.active_missions.saturating_sub(1),
            ..self.with_slot(slot, empty_mission())
        }
    }

    pub fn building_level(&self, idx: u8) -> (r: u8)
        ensures
            r == self.spec_building_level(idx),
    {
        match idx {
            0 => self.metal_mine,
            1 => self.crystal_mine,
            2 => self.deuterium_synthesizer,
            3 => self.solar_plant,
            4 => self.fusion_reactor,
            5 => self.robotics_factory,
            6 => self.nanite_factory,
            7 => self.shipyard,
            8 => self.metal_storage,
            9 => self.crystal_storage,
            10 => self.deuterium_tank,
            11 => self.research_lab,
            12 => self.missile_silo,
            _ => 0,
        }
    }

    pub fn set_building_level(&mut self, idx: u8, level: u8)
        ensures
            *final(self) == old(self).with_building_level(idx, level),
    {
        match idx {
            0 => self.metal_mine = level,
            1 => self.crystal_mine = level,
            2 => self.deuterium_synthesizer = level,
            3 => self.solar_plant = level,
            4 => self.fusion_reactor = level,
            5 => self.robotics_factory = level,
            6 => self.nanite_factory = level,
            7 => self.shipyard = level,
            8 => self.metal_storage = level,
            9 => self.crystal_storage = level,
            10 => self.deuterium_tank = level,
            11 => self.research_lab = level,
            12 => self.missile_silo = level,
            _ => {},
        }
    }

    pub fn research_level(&self, idx: u8) -> (r: u8)
        ensures
            r == self.spec_research_level(idx),
    {
        match idx {
            0 => self.energy_tech,
            1 => self.combustion_drive,
            2 => self.impulse_drive,
            3 => self.hyperspace_drive,
            4 => self.computer_tech,
            5 => self.astrophysics,
            6 => self.igr_network,
            7 => self.weapons_technology,
            8 => self.shielding_technology,
            9 => self.armor_technology,
            _ => 0,
        }
    }

    pub fn set_research_level(&mut self, idx: u8, level: u8)
        ensures
            *final(self) == old(self).with_research_level(idx, level),
    {
        match idx {
            0 => self.energy_tech = level,
            1 => self.combustion_drive = level,
            2 => self.impulse_drive = level,
            3 => self.hyperspace_drive = level,
            4 => self.computer_tech = level,
            5 => self.astrophysics = level,
            6 => self.igr_network = level,
            7 => self.weapons_technology = level,
            8 => self.shielding_technology = level,
            9 => self.armor_technology = level,
            _ => {},
        }
    }
    pub fn max_usable_mission_slots(&self) -> (r: usize)
        ensures
            r == self.spec_usable_slots(),
            1 <= r <= MAX_MISSIONS,
    {
        let n: usize = 1 + (self.computer_tech as usize) / 5;
        if n < MAX_MISSIONS {
            n
        } else {
            MAX_MISSIONS
        }
    }

    /// The first usable slot from `i` on that holds no mission.
    pub open spec fn first_free_from(self, i: nat) -> Option<nat>
        decreases MAX_MISSIONS - i,
    {
        if i >= self.spec_usable_slots() || i >= MAX_MISSIONS {
            None
        } else if self.missions[i as int].mission_type == 0 {
            Some(i)
        } else {
            self.first_free_from(i + 1)
        }
    }

    /// The first usable slot that holds no mission.
    pub open spec fn first_free_slot(self) -> Option<nat> {
        self.first_free_from(0)
    }

    /// The first usable slot that holds no mission.
    pub fn free_mission_slot(&self) -> (r: Option<usize>)
        ensures
            match r {
                Some(i) => self.first_free_slot() == Some(i as nat) && i < MAX_MISSIONS,
                None => self.first_free_slot() is None,
            },
    {
        let usable = self.max_usable_mission_slots();
        let mut i: usize = 0;
        while i < usable
            invariant
                usable == self.spec_usable_slots(),
                usable <= MAX_MISSIONS,
                i <= usable,
                self.first_free_from(0) == self.first_free_from(i as nat),
            decreases usable - i,
        {
            if self.missions[i].mission_type == 0 {
                return Some(i);
            }
            i = i + 1;
        }
        None
    }

    pub fn mission(&self, slot: usize) -> (m: MissionState)
        requires
            slot < MAX_MISSIONS,
        ensures
            m == self.missions[slot as int],
    {
        self.missions[slot]
    }

    pub fn set_mission(&mut self, slot: usize, mission: MissionState)
        requires
            slot < MAX_MISSIONS,
        ensures
            final(self).missions@ == old(self).missions@.update(slot as int, mission),
            *final(self) == old(self).with_slot(slot as int, mission),
    {
        broadcast use vstd::array::group_array_axioms;

        self.missions[slot] = mission;
        assert(self.missions =~= vstd::array::spec_array_update(old(self).missions, slot as int, mission));
    }

    pub fn set_mission_applied(&mut self, slot: usize, applied: bool)
        requires
            slot < MAX_MISSIONS,
        ensures
            final(self).missions@ == old(self).missions@.update(
                slot as int,
                MissionState { applied, ..old(self).missions[slot as int] },
            ),
            *final(self) == old(self).with_slot(
                slot as int,
                MissionState { applied, ..old(self).missions[slot as int] },
            ),
    {
        broadcast use vstd::array::group_array_axioms;

        let mut m = self.missions[slot];
        m.applied = applied;
        self.missions[slot] = m;
        assert(self.missions =~= vstd::array::spec_array_update(old(self).missions, slot as int, m));
    }

    pub fn clear_mission(&mut self, slot: usize)
        requires
            slot < MAX_MISSIONS,
        ensures
            is_empty_mission(final(self).missions[slot as int]),
            forall|j: int| 0 <= j < 4 && j != slot ==> final(self).missions[j] == old(self).missions[j],
            *final(self) == old(self).with_slot(slot as int, empty_mission()),
    {
        broadcast use vstd::array::group_array_axioms;

        let e = MissionState::empty();
        self.missions[slot] = e;
        assert(self.missions =~= vstd::array::spec_array_update(old(self).missions, slot as int, e));
    }

    /// Succeeds exactly when every resource can take the given amount without passing its cap.
    pub fn ensure_resource_room(&self, metal: u64, crystal: u64, deuterium: u64) -> (r: Result<
        (),
        GameStateError,
    >)
        ensures
            r is Ok <==> self.has_resource_room(metal, crystal, deuterium),
            r is Err ==> r == Err::<(), GameStateError>(GameStateError::ResourceCapExceeded),
    {
        match self.metal.checked_add(metal) {
            Some(v) => if v > self.metal_cap {
                return Err(GameStateError::ResourceCapExceeded);
            },
            None => return Err(GameStateError::ResourceCapExceeded),
        }
        match self.crystal.checked_add(crystal) {
            Some(v) => if v > self.crystal_cap {
                return Err(GameStateError::ResourceCapExceeded);
            },
            None => return Err(GameStateError::ResourceCapExceeded),
        }
        match self.deuterium.checked_add(deuterium) {
            Some(v) => if v > self.deuterium_cap {
                return Err(GameStateError::ResourceCapExceeded);
            },
            None => return Err(GameStateError::ResourceCapExceeded),
        }
        Ok(())
    }

    /// Adds the three amounts when they all fit under their caps; otherwise changes nothing.
    pub fn credit_resources(&mut self, metal: u64, crystal: u64, deuterium: u64) -> (r: Result<
        (),
        GameStateError,
    >)
        ensures
            r is Ok <==> old(self).has_resource_room(metal, crystal, deuterium),
            r is Ok ==> r == Ok::<(), GameStateError>(()) && *final(self) == (PlanetState {
                metal: (old(self).metal + metal) as u64,
                crystal: (old(self).crystal + crystal) as u64,
                deuterium: (old(self).deuterium + deuterium) as u64,
                ..*old(self)
            }),
            r is Err ==> *final(self) == *old(self) && r == Err::<(), GameStateError>(
                GameStateError::ResourceCapExceeded,
            ),
    {
        self.ensure_resource_room(metal, crystal, deuterium)?;
        self.metal = self.metal.saturating_add(metal);
        self.crystal = self.crystal.saturating_add(crystal);
        self.deuterium = self.deuterium.saturating_add(deuterium);
        Ok(())
    }

    /// Returns ships and cargo of mission `slot` when the cargo fits; otherwise changes nothing.
    pub fn return_mission_assets(&mut self, slot: usize) -> (r: Result<(), GameStateError>)
        requires
            slot < MAX_MISSIONS,
        ensures
            r is Ok <==> old(self).has_resource_room(
                old(self).missions[slot as int].cargo_metal,
                old(self).missions[slot as int].cargo_crystal,
                old(self).missions[slot as int].cargo_deuterium,
            ),
            r is Ok ==> *final(self) == old(self).with_assets_returned(old(self).missions[slot as int]),
            r is Err ==> *final(self) == *old(self) && r == Err::<(), GameStateError>(
                GameStateError::ResourceCapExceeded,
            ),
    {
        let mission = self.missions[slot];
        self.ensure_resource_room(mission.cargo_metal, mission.cargo_crystal, mission.cargo_deuterium)?;
        self.light_fighter = self.light_fighter.saturating_add(mission.light_fighter);
        self.heavy_fighter = self.heavy_fighter.saturating_add(mission.heavy_fighter);
        self.cruiser = self.cruiser.saturating_add(mission.cruiser);
        self.battleship = self.battleship.saturating_add(mission.battleship);
        self.battlecruiser = self.battlecruiser.saturating_add(mission.battlecruiser);
        self.bomber = self.bomber.saturating_add(mission.bomber);
        self.destroyer = self.destroyer.saturating_add(mission.destroyer);
        self.deathstar = self.deathstar.saturating_add(mission.deathstar);
        self.small_cargo = self.small_cargo.saturating_add(mission.small_cargo);
        self.large_cargo = self.large_cargo.saturating_add(mission.large_cargo);
        self.recycler = self.recycler.saturating_add(mission.recycler);
        self.espionage_probe = self.espionage_probe.saturating_add(mission.espionage_probe);
        self.colony_ship = self.colony_ship.saturating_add(mission.colony_ship);
        self.metal = self.metal.saturating_add(mission.cargo_metal);
        self.crystal = self.crystal.saturating_add(mission.cargo_crystal);
        self.deuterium = self.deuterium.saturating_add(mission.cargo_deuterium);
        Ok(())
    }

    /// Returns the ships of mission `slot` to the hangar; the cargo is not touched.
    pub fn return_mission_ships_only(&mut self, slot: usize)
        requires
            slot < MAX_MISSIONS,
        ensures
            *final(self) == old(self).with_ships_returned(old(self).missions[slot as int]),
    {
        let mission = self.missions[slot];
        self.light_fighter = self.light_fighter.saturating_add(mission.light_fighter);
        self.heavy_fighter = self.heavy_fighter.saturating_add(mission.heavy_fighter);
        self.cruiser = self.cruiser.saturating_add(mission.cruiser);
        self.battleship = self.battleship.saturating_add(mission.battleship);
        self.battlecruiser = self.battlecruiser.saturating_add(mission.battlecruiser);
        self.bomber = self.bomber.saturating_add(mission.bomber);
        self.destroyer = self.destroyer.saturating_add(mission.destroyer);
        self.deathstar = self.deathstar.saturating_add(mission.deathstar);
        self.small_cargo = self.small_cargo.saturating_add(mission.small_cargo);
        self.large_cargo = self.large_cargo.saturating_add(mission.large_cargo);
        self.recycler = self.recycler.saturating_add(mission.recycler);
        self.espionage_probe = self.espionage_probe.saturating_add(mission.espionage_probe);
        self.colony_ship = self.colony_ship.saturating_add(mission.colony_ship);
    }

    /// Adds ships of a known type (0..=13); an unknown type is refused and changes nothing.
    pub fn add_ship(&mut self, ship_type: u8, quantity: u32) -> (r: Result<(), GameStateError>)
        ensures
            r is Ok <==> ship_type <= 13,
            *final(self) == old(self).with_ship_added(ship_type, quantity),
            r is Err ==> r == Err::<(), GameStateError>(GameStateError::InvalidShipType),
    {
        match ship_type {
            0 => self.small_cargo = self.small_cargo.saturating_add(quantity),
            1 => self.large_cargo = self.large_cargo.saturating_add(quantity),
            2 => self.light_fighter = self.light_fighter.saturating_add(quantity),
            3 => self.heavy_fighter = self.heavy_fighter.saturating_add(quantity),
            4 => self.cruiser = self.cruiser.saturating_add(quantity),
            5 => self.battleship = self.battleship.saturating_add(quantity),
            6 => self.battlecruiser = self.battlecruiser.saturating_add(quantity),
            7 => self.bomber = self.bomber.saturating_add(quantity),
            8 => self.destroyer = self.destroyer.saturating_add(quantity),
            9 => self.deathstar = self.deathstar.saturating_add(quantity),
            10 => self.recycler = self.recycler.saturating_add(quantity),
            11 => self.espionage_probe = self.espionage_probe.saturating_add(quantity),
            12 => self.colony_ship = self.colony_ship.saturating_add(quantity),
            13 => self.solar_satellite = self.solar_satellite.saturating_add(quantity),
            _ => return Err(GameStateError::InvalidShipType),
        }
        Ok(())
    }

    /// Adds defenses of a known type (0..=9); an unknown type is refused and changes nothing.
    pub fn add_defense(&mut self, defense_type: u8, quantity: u32) -> (r: Result<(), GameStateError>)
        ensures
            r is Ok <==> defense_type <= 9,
            *final(self) == old(self).with_defense_added(defense_type, quantity),
            r is Err ==> r == Err::<(), GameStateError>(GameStateError::InvalidDefenseType),
    {
        match defense_type {
            0 => self.rocket_launcher = self.rocket_launcher.saturating_add(quantity),
            1 => self.light_laser = self.light_laser.saturating_add(quantity),
            2 => self.heavy_laser = self.heavy_laser.saturating_add(quantity),
            3 => self.gauss_cannon = self.gauss_cannon.saturating_add(quantity),
            4 => self.ion_cannon = self.ion_cannon.saturating_add(quantity),
            5 => self.plasma_turret = self.plasma_turret.saturating_add(quantity),
            6 => self.small_shield_dome = self.small_shield_dome.saturating_add(quantity),
            7 => self.large_shield_dome = self.large_shield_dome.saturating_add(quantity),
            8 => self.anti_ballistic_missile = self.anti_ballistic_missile.saturating_add(quantity),
            9 => self.interplanetary_missile = self.interplanetary_missile.saturating_add(quantity),
            _ => return Err(GameStateError::InvalidDefenseType),
        }
        Ok(())
    }
}

/// The registry entry of an occupied slot of the universe, holding the debris field there.
#[derive(Clone, Copy)]
pub struct PlanetCoordinates {
    pub galaxy: u16,
    pub system: u16,
    pub position: u8,
    pub planet: Key,
    pub authority: Key,
    pub debris_metal: u64,
    pub debris_crystal: u64,
    pub bump: u8,
}

} // verus!
