//! The shipyard system: buys ships for a fleet entity out of its resources.
use vstd::prelude::*;

use crate::bytes::{i64_at, read_i64_at, read_u32_at, u32_at};
use crate::components::{settle_resources, settle_resources_fits, settled_resources, Fleet, Resources};
use crate::formulas::{ship_cost, ship_cost_spec};
use crate::key::Key;

verus! {

/// Why the shipyard system refuses.
#[derive(Clone, Copy, Debug, PartialEq, Eq, Structural)]
pub enum ShipyardError {
    InvalidArgs,
    Unauthorized,
    InvalidShipType,
    InsufficientMetal,
    InsufficientCrystal,
    InsufficientDeuterium,
}

/// Checks that `authority` signed and owns both components.
pub fn require_component_authority(authority: Key, authority_is_signer: bool, fleet_authority: Key, resources_authority: Key) -> (r: Result<
    (),
    ShipyardError,
>)
    ensures
        r is Ok <==> authority_is_signer && fleet_authority@ == authority@ && resources_authority@ == authority@,
        r is Err ==> r == Err::<(), ShipyardError>(ShipyardError::Unauthorized),
{
    if !authority_is_signer {
        return Err(ShipyardError::Unauthorized);
    }
    if !fleet_authority.same_as(&authority) {
        return Err(ShipyardError::Unauthorized);
    }
    if !resources_authority.same_as(&authority) {
        return Err(ShipyardError::Unauthorized);
    }
    Ok(())
}

/// The fleet with `quantity` more ships of `ship_type` (0 small cargo .. 13 solar satellite),
/// saturating; unchanged for an unknown type.
pub open spec fn with_ships(f: Fleet, ship_type: u8, quantity: u32) -> Fleet {
    match ship_type {
        0 => Fleet { small_cargo: f.small_cargo.saturating_add(quantity), ..f },
        1 => Fleet { large_cargo: f.large_cargo.saturating_add(quantity), ..f },
        2 => Fleet { light_fighter: f.light_fighter.saturating_add(quantity), ..f },
        3 => Fleet { heavy_fighter: f.heavy_fighter.saturating_add(quantity), ..f },
        4 => Fleet { cruiser: f.cruiser.saturating_add(quantity), ..f },
        5 => Fleet { battleship: f.battleship.saturating_add(quantity), ..f },
        6 => Fleet { battlecruiser: f.battlecruiser.saturating_add(quantity), ..f },
        7 => Fleet { bomber: f.bomber.saturating_add(quantity), ..f },
        8 => Fleet { destroyer: f.destroyer.saturating_add(quantity), ..f },
        9 => Fleet { deathstar: f.deathstar.saturating_add(quantity), ..f },
        10 => Fleet { recycler: f.recycler.saturating_add(quantity), ..f },
        11 => Fleet { espionage_probe: f.espionage_probe.saturating_add(quantity), ..f },
        12 => Fleet { colony_ship: f.colony_ship.saturating_add(quantity), ..f },
        13 => Fleet { solar_satellite: f.solar_satellite.saturating_add(quantity), ..f },
        _ => f,
    }
}

/// What buying `quantity` ships of `ship_type` at `now` leaves, and the answer (after the
/// authority check has passed).
pub open spec fn shipyard_spec(f: Fleet, res0: Resources, ship_type: u8, quantity: u32, now: i64) -> (Fleet, Resources, Result<(), ShipyardError>) {
    if quantity == 0 {
        (f, res0, Err(ShipyardError::InvalidArgs))
    } else {
        let res = settled_resources(res0, now);
        let (cm, cc, cd) = ship_cost_spec(ship_type);
        let (tm, tc, td) = (cm * quantity, cc * quantity, cd * quantity);
        if res.metal < tm {
            (f, res, Err(ShipyardError::InsufficientMetal))
        } else if res.crystal < tc {
            (f, res, Err(ShipyardError::InsufficientCrystal))
        } else if res.deuterium < td {
            (f, res, Err(ShipyardError::InsufficientDeuterium))
        } else {
            let paid = Resources {
                metal: (res.metal - tm) as u64,
                crystal: (res.crystal - tc) as u64,
                deuterium: (res.deuterium - td) as u64,
                ..res
            };
            if ship_type > 13 {
                (f, paid, Err(ShipyardError::InvalidShipType))
            } else {
                (with_ships(f, ship_type, quantity), paid, Ok(()))
            }
        }
    }
}

/// Buys the ships the arguments name (ship type byte, then the quantity, with the time read
/// from the bytes two to ten, as the argument layout has it) for `authority`.
pub fn execute(
    authority: Key,
    authority_is_signer: bool,
    fleet_authority: Key,
    resources_authority: Key,
    fleet: &mut Fleet,
    resources: &mut Resources,
    args: &[u8],
) -> (r: Result<(), ShipyardError>)
    requires
        args.len() >= 10 ==> settle_resources_fits(*old(resources), i64_at(args@, 2)),
    ensures
        !(authority_is_signer && fleet_authority@ == authority@ && resources_authority@ == authority@) ==> r == Err::<
            (),
            ShipyardError,
        >(ShipyardError::Unauthorized) && *final(fleet) == *old(fleet) && *final(resources) == *old(resources),
        (authority_is_signer && fleet_authority@ == authority@ && resources_authority@ == authority@) ==> {
            &&& args.len() < 10 ==> r == Err::<(), ShipyardError>(ShipyardError::InvalidArgs) && *final(fleet) == *old(fleet)
                && *final(resources) == *old(resources)
            &&& args.len() >= 10 ==> (*final(fleet), *final(resources), r) == shipyard_spec(
                *old(fleet),
                *old(resources),
                args[0],
                u32_at(args@, 1),
                i64_at(args@, 2),
            )
        },
{
    match require_component_authority(authority, authority_is_signer, fleet_authority, resources_authority) {
        Err(e) => {
            return Err(e);
        },
        Ok(()) => {},
    }
    if args.len() < 10 {
        return Err(ShipyardError::InvalidArgs);
    }
    let ship_type = args[0];
    let quantity = read_u32_at(args, 1);
    let now = read_i64_at(args, 2);
    if quantity == 0 {
        return Err(ShipyardError::InvalidArgs);
    }
    settle_resources(resources, now);
    let (cm, cc, cd) = ship_cost(ship_type);
    let q = quantity as u64;
    proof {
        assert(cm * q <= 5_000_000 * 0xFFFF_FFFF) by (nonlinear_arith)
            requires
                cm <= 5_000_000,
                q <= 0xFFFF_FFFF,
        ;
        assert(cc * q <= 5_000_000 * 0xFFFF_FFFF) by (nonlinear_arith)
            requires
                cc <= 5_000_000,
                q <= 0xFFFF_FFFF,
        ;
        assert(cd * q <= 5_000_000 * 0xFFFF_FFFF) by (nonlinear_arith)
            requires
                cd <= 5_000_000,
                q <= 0xFFFF_FFFF,
        ;
    }
    let total_m = cm * quantity as u64;
    let total_c = cc * quantity as u64;
    let total_d = cd * quantity as u64;
    if resources.metal < total_m {
        return Err(ShipyardError::InsufficientMetal);
    }
    if resources.crystal < total_c {
        return Err(ShipyardError::InsufficientCrystal);
    }
    if resources.deuterium < total_d {
        return Err(ShipyardError::InsufficientDeuterium);
    }
    resources.metal = resources.metal - total_m;
    resources.crystal = resources.crystal - total_c;
    resources.deuterium = resources.deuterium - total_d;
    match ship_type {
        0 => fleet.small_cargo = fleet.small_cargo.saturating_add(quantity),
        1 => fleet.large_cargo = fleet.large_cargo.saturating_add(quantity),
        2 => fleet.light_fighter = fleet.light_fighter.saturating_add(quantity),
        3 => fleet.heavy_fighter = fleet.heavy_fighter.saturating_add(quantity),
        4 => fleet.cruiser = fleet.cruiser.saturating_add(quantity),
        5 => fleet.battleship = fleet.battleship.saturating_add(quantity),
        6 => fleet.battlecruiser = fleet.battlecruiser.saturating_add(quantity),
        7 => fleet.bomber = fleet.bomber.saturating_add(quantity),
        8 => fleet.destroyer = fleet.destroyer.saturating_add(quantity),
        9 => fleet.deathstar = fleet.deathstar.saturating_add(quantity),
        10 => fleet.recycler = fleet.recycler.saturating_add(quantity),
        11 => fleet.espionage_probe = fleet.espionage_probe.saturating_add(quantity),
        12 => fleet.colony_ship = fleet.colony_ship.saturating_add(quantity),
        13 => fleet.solar_satellite = fleet.solar_satellite.saturating_add(quantity),
        _ => {
            return Err(ShipyardError::InvalidShipType);
        },
    }
    Ok(())
}

} // verus!
