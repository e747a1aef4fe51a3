//! The transport-resolution system: delivers a transport's cargo when it arrives and returns its
//! ships when they are back.
use vstd::prelude::*;

use crate::bytes::{i64_at, read_i64_at};
use crate::components::{
    empty_fleet_mission, settle_resources, settle_resources_fits, settled_resources, slot_index, Fleet, FleetMission,
    Planet, Resources,
};

verus! {

/// The mission type of a transport.
pub const TRANSPORT_MISSION: u8 = 2;

/// Why the transport-resolution system refuses.
#[derive(Clone, Copy, Debug, PartialEq, Eq, Structural)]
pub enum ResolveTransportError {
    InvalidArgs,
    InvalidSlot,
    InvalidMission,
    InvalidDestination,
    MissionInFlight,
    ReturnInFlight,
}

/// What resolving the transport in `slot` at `now` leaves of the fleet and the destination's
/// resources, and the answer: the first call after arrival delivers the cargo, the call after
/// the return brings the ships home and frees the slot.
pub open spec fn transport_spec(f: Fleet, dest: Planet, res: Resources, slot: usize, now: i64) -> (Fleet, Resources, Result<(), ResolveTransportError>) {
    let m = f.missions[slot_index(slot)];
    if slot >= 4 {
        (f, res, Err(ResolveTransportError::InvalidSlot))
    } else if m.mission_type != TRANSPORT_MISSION {
        (f, res, Err(ResolveTransportError::InvalidMission))
    } else if !(m.target_galaxy == dest.galaxy && m.target_system == dest.system && m.target_position == dest.position) {
        (f, res, Err(ResolveTransportError::InvalidDestination))
    } else if !m.applied {
        if now < m.arrive_ts {
            (f, res, Err(ResolveTransportError::MissionInFlight))
        } else {
            let s = settled_resources(res, now);
            (
                f.with_mission(slot, FleetMission { applied: true, ..m }),
                Resources {
                    metal: s.metal.saturating_add(m.cargo_metal),
                    crystal: s.crystal.saturating_add(m.cargo_crystal),
                    deuterium: s.deuterium.saturating_add(m.cargo_deuterium),
                    ..s
                },
                Ok(()),
            )
        }
    } else if !(m.return_ts > 0 && now >= m.return_ts) {
        (f, res, Err(ResolveTransportError::ReturnInFlight))
    } else {
        let back = f.with_ships_returned(slot).with_mission(slot, empty_fleet_mission());
        (Fleet { active_missions: f.active_missions.saturating_sub(1), ..back }, res, Ok(()))
    }
}

/// Resolves the transport named by the arguments (slot byte, then the time).
pub fn execute(fleet: &mut Fleet, destination_planet: &Planet, destination_resources: &mut Resources, args: &[u8]) -> (r: Result<
    (),
    ResolveTransportError,
>)
    requires
        args.len() >= 9 ==> settle_resources_fits(*old(destination_resources), i64_at(args@, 1)),
    ensures
        args.len() < 9 ==> r == Err::<(), ResolveTransportError>(ResolveTransportError::InvalidArgs)
            && *final(fleet) == *old(fleet) && *final(destination_resources) == *old(destination_resources),
        args.len() >= 9 ==> (*final(fleet), *final(destination_resources), r) == transport_spec(
            *old(fleet),
            *destination_planet,
            *old(destination_resources),
            args[0] as usize,
            i64_at(args@, 1),
        ),
{
    if args.len() < 9 {
        return Err(ResolveTransportError::InvalidArgs);
    }
    let slot = args[0] as usize;
    let now = read_i64_at(args, 1);
    if slot >= 4 {
        return Err(ResolveTransportError::InvalidSlot);
    }
    if fleet.m_type(slot) != TRANSPORT_MISSION {
        return Err(ResolveTransportError::InvalidMission);
    }
    if !(fleet.m_target_galaxy(slot) == destination_planet.galaxy && fleet.m_target_system(slot) == destination_planet.system
        && fleet.m_target_position(slot) == destination_planet.position) {
        return Err(ResolveTransportError::InvalidDestination);
    }
    if !fleet.m_applied(slot) {
        if now < fleet.m_arrive_ts(slot) {
            return Err(ResolveTransportError::MissionInFlight);
        }
        settle_resources(destination_resources, now);
        destination_resources.metal = destination_resources.metal.saturating_add(fleet.m_cargo_metal(slot));
        destination_resources.crystal = destination_resources.crystal.saturating_add(fleet.m_cargo_crystal(slot));
        destination_resources.deuterium = destination_resources.deuterium.saturating_add(fleet.m_cargo_deuterium(slot));
        fleet.set_mission_applied(slot, true);
        return Ok(());
    }
    if !(fleet.m_return_ts(slot) > 0 && now >= fleet.m_return_ts(slot)) {
        return Err(ResolveTransportError::ReturnInFlight);
    }
    fleet.return_mission_ships(slot);
    fleet.clear_mission(slot);
    fleet.active_missions = fleet.active_missions.saturating_sub(1);
    Ok(())
}

} // verus!
