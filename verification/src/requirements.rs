//! Technology and building prerequisites for ships, buildings, research and defenses.
use vstd::prelude::*;

use crate::error::GameStateError;
use crate::planet::PlanetState;

verus! {

/// `Ok` when `cond` holds, otherwise the given error.
pub open spec fn gate(cond: bool, e: GameStateError) -> Result<(), GameStateError> {
    if cond {
        Ok(())
    } else {
        Err(e)
    }
}

/// Prerequisites of ship type `ship_type` (0 small cargo .. 13 solar satellite).
pub open spec fn ship_gate(ship_type: u8, p: PlanetState) -> Result<(), GameStateError> {
    let locked = GameStateError::TechLocked;
    match ship_type {
        0 => gate(p.shipyard >= 2 && p.combustion_drive >= 2, locked),
        1 => gate(p.shipyard >= 4 && p.combustion_drive >= 6, locked),
        2 => gate(p.shipyard >= 1, locked),
        3 => gate(p.shipyard >= 3 && p.armor_technology >= 2 && p.impulse_drive >= 2, locked),
        4 => gate(p.shipyard >= 5 && p.impulse_drive >= 4, locked),
        5 => gate(p.shipyard >= 7 && p.hyperspace_drive >= 4, locked),
        6 => gate(
            p.shipyard >= 8 && p.hyperspace_drive >= 5 && p.computer_tech >= 5
                && p.weapons_technology >= 5,
            locked,
        ),
        7 => gate(
            p.shipyard >= 8 && p.impulse_drive >= 6 && p.hyperspace_drive >= 5
                && p.weapons_technology >= 5,
            locked,
        ),
        8 => gate(p.shipyard >= 9 && p.hyperspace_drive >= 6 && p.armor_technology >= 6, locked),
        9 => gate(
            p.shipyard >= 12 && p.hyperspace_drive >= 7 && p.weapons_technology >= 10
                && p.energy_tech >= 12,
            locked,
        ),
        10 => gate(
            p.shipyard >= 4 && p.combustion_drive >= 6 && p.shielding_technology >= 2,
            locked,
        ),
        11 => gate(p.shipyard >= 3 && p.combustion_drive >= 3, locked),
        12 => gate(p.shipyard >= 4 && p.impulse_drive >= 3 && p.astrophysics >= 4, locked),
        13 => gate(p.shipyard >= 1, locked),
        _ => Err(GameStateError::InvalidShipType),
    }
}

pub fn enforce_ship_research_gate(ship_type: u8, planet: &PlanetState) -> (r: Result<
    (),
    GameStateError,
>)
    ensures
        r == ship_gate(ship_type, *planet),
{
    let p = planet;
    let ok = match ship_type {
        0 => p.shipyard >= 2 && p.combustion_drive >= 2,
        1 => p.shipyard >= 4 && p.combustion_drive >= 6,
        2 => p.shipyard >= 1,
        3 => p.shipyard >= 3 && p.armor_technology >= 2 && p.impulse_drive >= 2,
        4 => p.shipyard >= 5 && p.impulse_drive >= 4,
        5 => p.shipyard >= 7 && p.hyperspace_drive >= 4,
        6 => p.shipyard >= 8 && p.hyperspace_drive >= 5 && p.computer_tech >= 5
            && p.weapons_technology >= 5,
        7 => p.shipyard >= 8 && p.impulse_drive >= 6 && p.hyperspace_drive >= 5
            && p.weapons_technology >= 5,
        8 => p.shipyard >= 9 && p.hyperspace_drive >= 6 && p.armor_technology >= 6,
        9 => p.shipyard >= 12 && p.hyperspace_drive >= 7 && p.weapons_technology >= 10
            && p.energy_tech >= 12,
        10 => p.shipyard >= 4 && p.combustion_drive >= 6 && p.shielding_technology >= 2,
        11 => p.shipyard >= 3 && p.combustion_drive >= 3,
        12 => p.shipyard >= 4 && p.impulse_drive >= 3 && p.astrophysics >= 4,
        13 => p.shipyard >= 1,
        _ => return Err(GameStateError::InvalidShipType),
    };
    if ok {
        Ok(())
    } else {
        Err(GameStateError::TechLocked)
    }
}

/// Prerequisites of building `idx`; buildings without prerequisites always pass.
pub open spec fn building_gate(idx: u8, p: PlanetState) -> Result<(), GameStateError> {
    let locked = GameStateError::TechLocked;
    match idx {
        4 => gate(p.deuterium_synthesizer >= 5 && p.energy_tech >= 3, locked),
        6 => gate(p.robotics_factory >= 10 && p.computer_tech >= 10, locked),
        7 => gate(p.robotics_factory >= 2, locked),
        12 => gate(p.shipyard >= 1, locked),
        _ => Ok(()),
    }
}

pub fn enforce_building_requirements(building_idx: u8, planet: &PlanetState) -> (r: Result<
    (),
    GameStateError,
>)
    ensures
        r == building_gate(building_idx, *planet),
{
    let p = planet;
    let ok = match building_idx {
        4 => p.deuterium_synthesizer >= 5 && p.energy_tech >= 3,
        6 => p.robotics_factory >= 10 && p.computer_tech >= 10,
        7 => p.robotics_factory >= 2,
        12 => p.shipyard >= 1,
        _ => true,
    };
    if ok {
        Ok(())
    } else {
        Err(GameStateError::TechLocked)
    }
}

/// Prerequisites of technology `idx`; an unknown index passes here (callers reject it earlier).
pub open spec fn research_gate(idx: u8, p: PlanetState) -> Result<(), GameStateError> {
    let locked = GameStateError::TechLocked;
    match idx {
        0 => gate(p.research_lab >= 1, locked),
        1 => gate(p.research_lab >= 1 && p.energy_tech >= 1, locked),
        2 => gate(p.research_lab >= 2 && p.energy_tech >= 1, locked),
        3 => gate(p.research_lab >= 7, locked),
        4 => gate(p.research_lab >= 1, locked),
        5 => gate(p.research_lab >= 3 && p.impulse_drive >= 3, locked),
        6 => gate(p.research_lab >= 10 && p.computer_tech >= 8, locked),
        7 => gate(p.research_lab >= 4, locked),
        8 => gate(p.research_lab >= 6 && p.energy_tech >= 3, locked),
        9 => gate(p.research_lab >= 2, locked),
        _ => Ok(()),
    }
}

pub fn enforce_research_requirements(tech_idx: u8, planet: &PlanetState) -> (r: Result<
    (),
    GameStateError,
>)
    ensures
        r == research_gate(tech_idx, *planet),
{
    let p = planet;
    let ok = match tech_idx {
        0 => p.research_lab >= 1,
        1 => p.research_lab >= 1 && p.energy_tech >= 1,
        2 => p.research_lab >= 2 && p.energy_tech >= 1,
        3 => p.research_lab >= 7,
        4 => p.research_lab >= 1,
        5 => p.research_lab >= 3 && p.impulse_drive >= 3,
        6 => p.research_lab >= 10 && p.computer_tech >= 8,
        7 => p.research_lab >= 4,
        8 => p.research_lab >= 6 && p.energy_tech >= 3,
        9 => p.research_lab >= 2,
        _ => true,
    };
    if ok {
        Ok(())
    } else {
        Err(GameStateError::TechLocked)
    }
}

/// Prerequisites of defense type `defense_type`; missiles (8, 9) and unknown types are refused.
pub open spec fn defense_gate(defense_type: u8, p: PlanetState) -> Result<(), GameStateError> {
    let locked = GameStateError::TechLocked;
    if p.shipyard < 1 {
        Err(GameStateError::ShipyardTooLow)
    } else {
        match defense_type {
            0 => Ok(()),
            1 => gate(p.shipyard >= 2, locked),
            2 => gate(p.shipyard >= 4, locked),
            3 => gate(p.shipyard >= 6 && p.weapons_technology >= 3, locked),
            4 => gate(p.shipyard >= 4 && p.shielding_technology >= 2, locked),
            5 => gate(
                p.shipyard >= 8 && p.shielding_technology >= 8 && p.weapons_technology >= 10
                    && p.energy_tech >= 8,
                locked,
            ),
            6 => gate(p.shielding_technology >= 2 && p.small_shield_dome == 0, locked),
            7 => gate(p.shielding_technology >= 6 && p.large_shield_dome == 0, locked),
            _ => Err(GameStateError::InvalidDefenseType),
        }
    }
}

pub fn enforce_defense_requirements(defense_type: u8, planet: &PlanetState) -> (r: Result<
    (),
    GameStateError,
>)
    ensures
        r == defense_gate(defense_type, *planet),
{
    let p = planet;
    if p.shipyard < 1 {
        return Err(GameStateError::ShipyardTooLow);
    }
    let ok = match defense_type {
        0 => true,
        1 => p.shipyard >= 2,
        2 => p.shipyard >= 4,
        3 => p.shipyard >= 6 && p.weapons_technology >= 3,
        4 => p.shipyard >= 4 && p.shielding_technology >= 2,
        5 => p.shipyard >= 8 && p.shielding_technology >= 8 && p.weapons_technology >= 10
            && p.energy_tech >= 8,
        6 => p.shielding_technology >= 2 && p.small_shield_dome == 0,
        7 => p.shielding_technology >= 6 && p.large_shield_dome == 0,
        _ => return Err(GameStateError::InvalidDefenseType),
    };
    if ok {
        Ok(())
    } else {
        Err(GameStateError::TechLocked)
    }
}

} // verus!
