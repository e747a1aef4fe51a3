//! The colonize-resolution system: closes a colonize mission that has arrived at a valid target.
use vstd::prelude::*;

use crate::bytes::{i64_at, read_i64_at};
use crate::components::{empty_fleet_mission, slot_index, Fleet};

verus! {

/// The mission type of a colonization.
pub const COLONIZE_MISSION: u8 = 5;

/// Why the colonize-resolution system refuses.
#[derive(Clone, Copy, Debug, PartialEq, Eq, Structural)]
pub enum ResolveColonizeError {
    InvalidArgs,
    InvalidSlot,
    InvalidMission,
    MissionInFlight,
    InvalidTarget,
    AlreadyResolved,
    MissingColonyShip,
}

/// Why closing the colonize mission in `slot` at `now` is refused, if it is.
pub open spec fn colonize_check(f: Fleet, slot: usize, now: i64) -> Result<(), ResolveColonizeError> {
    let m = f.missions[slot_index(slot)];
    if slot >= 4 {
        Err(ResolveColonizeError::InvalidSlot)
    } else if m.mission_type != COLONIZE_MISSION {
        Err(ResolveColonizeError::InvalidMission)
    } else if m.applied {
        Err(ResolveColonizeError::AlreadyResolved)
    } else if now < m.arrive_ts {
        Err(ResolveColonizeError::MissionInFlight)
    } else if m.colony_ship == 0 {
        Err(ResolveColonizeError::MissingColonyShip)
    } else if !(1 <= m.target_galaxy <= 9 && 1 <= m.target_system <= 499 && 1 <= m.target_position <= 15) {
        Err(ResolveColonizeError::InvalidTarget)
    } else {
        Ok(())
    }
}

/// Closes the colonize mission named by the arguments (slot byte, then the time): the slot is
/// emptied and the active count goes down.
pub fn execute(source_fleet: &mut Fleet, args: &[u8]) -> (r: Result<(), ResolveColonizeError>)
    ensures
        args.len() < 9 ==> r == Err::<(), ResolveColonizeError>(ResolveColonizeError::InvalidArgs) && *final(source_fleet) == *old(source_fleet),
        args.len() >= 9 ==> match colonize_check(*old(source_fleet), args[0] as usize, i64_at(args@, 1)) {
            Err(e) => r == Err::<(), ResolveColonizeError>(e) && *final(source_fleet) == *old(source_fleet),
            Ok(()) => r == Ok::<(), ResolveColonizeError>(()) && *final(source_fleet) == (Fleet {
                active_missions: old(source_fleet).active_missions.saturating_sub(1),
                ..old(source_fleet).with_mission(args[0] as usize, empty_fleet_mission())
            }),
        },
{
    if args.len() < 9 {
        return Err(ResolveColonizeError::InvalidArgs);
    }
    let slot = args[0] as usize;
    let now = read_i64_at(args, 1);
    if slot >= 4 {
        return Err(ResolveColonizeError::InvalidSlot);
    }
    if source_fleet.m_type(slot) != COLONIZE_MISSION {
        return Err(ResolveColonizeError::InvalidMission);
    }
    if source_fleet.m_applied(slot) {
        return Err(ResolveColonizeError::AlreadyResolved);
    }
    if now < source_fleet.m_arrive_ts(slot) {
        return Err(ResolveColonizeError::MissionInFlight);
    }
    if source_fleet.m_colony_ship(slot) == 0 {
        return Err(ResolveColonizeError::MissingColonyShip);
    }
    let g = source_fleet.m_target_galaxy(slot);
    let s = source_fleet.m_target_system(slot);
    let p = source_fleet.m_target_position(slot);
    if !(1 <= g && g <= 9 && 1 <= s && s <= 499 && 1 <= p && p <= 15) {
        return Err(ResolveColonizeError::InvalidTarget);
    }
    source_fleet.clear_mission(slot);
    source_fleet.active_missions = source_fleet.active_missions.saturating_sub(1);
    Ok(())
}

} // verus!
