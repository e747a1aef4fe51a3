//! The build system: starts and finishes building upgrades of a planet entity, and recomputes
//! its production rates, energy and storage caps when an upgrade completes.
use vstd::prelude::*;

use crate::bytes::{i64_at, read_i64_at};
use crate::components::{settle_resources, settle_resources_fits, settled_resources, Planet, Resources};
use crate::formulas::{
    build_seconds, build_seconds_spec, mine_rate, mine_rate_fits, mine_rate_spec, pow2, upgrade_cost,
    upgrade_cost_fits, upgrade_cost_spec,
};

verus! {

/// The storage cap at level zero.
pub const BASE_STORE_CAP: u64 = 50_000;

/// Why the build system refuses.
#[derive(Clone, Copy, Debug, PartialEq, Eq, Structural)]
pub enum BuildError {
    InvalidArgs,
    QueueBusy,
    NoFields,
    InsufficientMetal,
    InsufficientCrystal,
    InsufficientDeuterium,
    NoBuild,
    NotFinished,
}

/// The building levels and temperature that production depends on.
#[derive(Clone, Copy, Debug)]
pub struct PlanetData {
    pub temperature: i16,
    pub metal_mine: u8,
    pub crystal_mine: u8,
    pub deuterium_synthesizer: u8,
    pub solar_plant: u8,
    pub fusion_reactor: u8,
    pub metal_storage: u8,
    pub crystal_storage: u8,
    pub deuterium_tank: u8,
}

/// The production-relevant part of a planet.
pub open spec fn snapshot(p: Planet) -> PlanetData {
    PlanetData {
        temperature: p.temperature,
        metal_mine: p.metal_mine,
        crystal_mine: p.crystal_mine,
        deuterium_synthesizer: p.deuterium_synthesizer,
        solar_plant: p.solar_plant,
        fusion_reactor: p.fusion_reactor,
        metal_storage: p.metal_storage,
        crystal_storage: p.crystal_storage,
        deuterium_tank: p.deuterium_tank,
    }
}

/// The storage cap of a store at `level`: fifty thousand, doubled per level.
pub open spec fn store_cap_of(level: u8) -> int {
    BASE_STORE_CAP * vstd::arithmetic::power2::pow2(level as nat)
}

/// How far below 240 degrees the planet is, never negative.
pub open spec fn temp_factor(t: i16) -> int {
    if 240 - t > 0 {
        240 - t
    } else {
        0
    }
}

/// The hourly deuterium output.
pub open spec fn deuterium_rate(p: PlanetData) -> int {
    if p.deuterium_synthesizer == 0 {
        0
    } else {
        mine_rate_spec(p.deuterium_synthesizer, 10) * temp_factor(p.temperature) / 200
    }
}

/// The energy of the fusion reactor.
pub open spec fn fusion_output(p: PlanetData) -> int {
    if p.fusion_reactor == 0 {
        0
    } else {
        mine_rate_spec(p.fusion_reactor, 30) * 180 / 100
    }
}

/// The resources with rates, energy and caps recomputed from the buildings.
pub open spec fn rates_from(p: PlanetData, res: Resources) -> Resources {
    Resources {
        metal_hour: mine_rate_spec(p.metal_mine, 30) as u64,
        crystal_hour: mine_rate_spec(p.crystal_mine, 20) as u64,
        deuterium_hour: deuterium_rate(p) as u64,
        energy_production: (mine_rate_spec(p.solar_plant, 20) + fusion_output(p)) as u64,
        energy_consumption: (mine_rate_spec(p.metal_mine, 10) + mine_rate_spec(p.crystal_mine, 10) + mine_rate_spec(
            p.deuterium_synthesizer,
            20,
        )) as u64,
        metal_cap: store_cap_of(p.metal_storage) as u64,
        crystal_cap: store_cap_of(p.crystal_storage) as u64,
        deuterium_cap: store_cap_of(p.deuterium_tank) as u64,
        ..res
    }
}

/// Whether the recomputation stays within the `u64` range.
pub open spec fn rates_from_fits(p: PlanetData) -> bool {
    &&& mine_rate_fits(p.metal_mine, 30)
    &&& mine_rate_fits(p.crystal_mine, 20)
    &&& mine_rate_fits(p.deuterium_synthesizer, 10)
    &&& mine_rate_fits(p.solar_plant, 20)
    &&& mine_rate_fits(p.fusion_reactor, 30)
    &&& mine_rate_fits(p.metal_mine, 10)
    &&& mine_rate_fits(p.crystal_mine, 10)
    &&& mine_rate_fits(p.deuterium_synthesizer, 20)
    &&& mine_rate_spec(p.deuterium_synthesizer, 10) * temp_factor(p.temperature) <= u64::MAX
    &&& mine_rate_spec(p.fusion_reactor, 30) * 180 <= u64::MAX
    &&& mine_rate_spec(p.solar_plant, 20) + fusion_output(p) <= u64::MAX
    &&& mine_rate_spec(p.metal_mine, 10) + mine_rate_spec(p.crystal_mine, 10) <= u64::MAX
    &&& mine_rate_spec(p.metal_mine, 10) + mine_rate_spec(p.crystal_mine, 10) + mine_rate_spec(p.deuterium_synthesizer, 20)
        <= u64::MAX
    &&& p.metal_storage < 64 && store_cap_of(p.metal_storage) <= u64::MAX
    &&& p.crystal_storage < 64 && store_cap_of(p.crystal_storage) <= u64::MAX
    &&& p.deuterium_tank < 64 && store_cap_of(p.deuterium_tank) <= u64::MAX
}

fn store_cap_at(level: u8) -> (r: u64)
    requires
        level < 64,
        store_cap_of(level) <= u64::MAX,
    ensures
        r == store_cap_of(level),
{
    let p = pow2(level);
    BASE_STORE_CAP * p
}

/// Recomputes the rates, energy and caps of `res` from the buildings in `p`.
pub fn recalc_rates_from_snapshot(p: &PlanetData, res: &mut Resources)
    requires
        rates_from_fits(*p),
    ensures
        *final(res) == rates_from(*p, *old(res)),
{
    res.metal_hour = mine_rate(p.metal_mine, 30);
    res.crystal_hour = mine_rate(p.crystal_mine, 20);
    let tf: u64 = if 240i32 - (p.temperature as i32) > 0 {
        (240i32 - (p.temperature as i32)) as u64
    } else {
        0
    };
    res.deuterium_hour = if p.deuterium_synthesizer == 0 {
        0
    } else {
        mine_rate(p.deuterium_synthesizer, 10) * tf / 200
    };
    let solar = mine_rate(p.solar_plant, 20);
    let fusion = if p.fusion_reactor == 0 {
        0
    } else {
        mine_rate(p.fusion_reactor, 30) * 180 / 100
    };
    res.energy_production = solar + fusion;
    res.energy_consumption = mine_rate(p.metal_mine, 10) + mine_rate(p.crystal_mine, 10) + mine_rate(p.deuterium_synthesizer, 20);
    res.metal_cap = store_cap_at(p.metal_storage);
    res.crystal_cap = store_cap_at(p.crystal_storage);
    res.deuterium_cap = store_cap_at(p.deuterium_tank);
}

/// What the build system leaves of the planet and its resources, and the answer, for
/// instruction `ins` (0 start, 1 finish) on building `idx` at `now`; the resources are settled
/// first whatever the instruction.
pub open spec fn build_spec(p: Planet, res0: Resources, ins: u8, idx: u8, now: i64) -> (Planet, Resources, Result<(), BuildError>) {
    let res = settled_resources(res0, now);
    if ins == 0 {
        let next = (p.spec_level(idx) + 1) as u8;
        let (cm, cc, cd) = upgrade_cost_spec(idx, next as u64);
        if !(p.build_finish_ts == 0 || now >= p.build_finish_ts) {
            (p, res, Err(BuildError::QueueBusy))
        } else if p.used_fields >= p.max_fields {
            (p, res, Err(BuildError::NoFields))
        } else if res.metal < cm {
            (p, res, Err(BuildError::InsufficientMetal))
        } else if res.crystal < cc {
            (p, res, Err(BuildError::InsufficientCrystal))
        } else if res.deuterium < cd {
            (p, res, Err(BuildError::InsufficientDeuterium))
        } else {
            (
                Planet {
                    build_queue_item: idx,
                    build_queue_target: next,
                    build_finish_ts: (now + build_seconds_spec(idx, next as u64, p.robotics_factory as u64)) as i64,
                    used_fields: (p.used_fields + 1) as u16,
                    ..p
                },
                Resources {
                    metal: (res.metal - cm) as u64,
                    crystal: (res.crystal - cc) as u64,
                    deuterium: (res.deuterium - cd) as u64,
                    ..res
                },
                Ok(()),
            )
        }
    } else if ins == 1 {
        if p.build_finish_ts <= 0 {
            (p, res, Err(BuildError::NoBuild))
        } else if now < p.build_finish_ts {
            (p, res, Err(BuildError::NotFinished))
        } else {
            let leveled = p.with_level(p.build_queue_item, p.build_queue_target);
            (
                Planet { build_queue_item: 255, build_queue_target: 0, build_finish_ts: 0, ..leveled },
                rates_from(snapshot(leveled), res),
                Ok(()),
            )
        }
    } else {
        (p, res, Err(BuildError::InvalidArgs))
    }
}

/// Whether the build system runs without a machine-range failure on these inputs.
pub open spec fn build_fits(p: Planet, res0: Resources, ins: u8, idx: u8, now: i64) -> bool {
    &&& settle_resources_fits(res0, now)
    &&& ins == 0 ==> {
        &&& p.spec_level(idx) < 255
        &&& upgrade_cost_fits(idx, (p.spec_level(idx) + 1) as u64)
        &&& now + build_seconds_spec(idx, (p.spec_level(idx) + 1) as u64, p.robotics_factory as u64) <= i64::MAX
    }
    &&& (ins == 1 && p.build_finish_ts > 0 && now >= p.build_finish_ts) ==> rates_from_fits(
        snapshot(p.with_level(p.build_queue_item, p.build_queue_target)),
    )
}

/// Runs the build instruction the arguments hold: the instruction byte, the building, then the
/// time (little-endian).
pub fn execute(planet: &mut Planet, resources: &mut Resources, args: &[u8]) -> (r: Result<(), BuildError>)
    requires
        args.len() >= 10 ==> build_fits(*old(planet), *old(resources), args[0], args[1], i64_at(args@, 2)),
    ensures
        args.len() < 10 ==> r == Err::<(), BuildError>(BuildError::InvalidArgs) && *final(planet) == *old(planet)
            && *final(resources) == *old(resources),
        args.len() >= 10 ==> (*final(planet), *final(resources), r) == build_spec(
            *old(planet),
            *old(resources),
            args[0],
            args[1],
            i64_at(args@, 2),
        ),
{
    if args.len() < 10 {
        return Err(BuildError::InvalidArgs);
    }
    let instruction = args[0];
    let now = read_i64_at(args, 2);
    settle_resources(resources, now);
    if instruction == 0 {
        let idx = args[1];
        let current = planet.get_level(idx);
        let next = current + 1;
        let (cm, cc, cd) = upgrade_cost(idx, next as u64);
        if !(planet.build_finish_ts == 0 || now >= planet.build_finish_ts) {
            return Err(BuildError::QueueBusy);
        }
        if planet.used_fields >= planet.max_fields {
            return Err(BuildError::NoFields);
        }
        if resources.metal < cm {
            return Err(BuildError::InsufficientMetal);
        }
        if resources.crystal < cc {
            return Err(BuildError::InsufficientCrystal);
        }
        if resources.deuterium < cd {
            return Err(BuildError::InsufficientDeuterium);
        }
        resources.metal = resources.metal - cm;
        resources.crystal = resources.crystal - cc;
        resources.deuterium = resources.deuterium - cd;
        let dur = build_seconds(idx, next as u64, planet.robotics_factory as u64);
        planet.build_queue_item = idx;
        planet.build_queue_target = next;
        planet.build_finish_ts = now + dur;
        planet.used_fields = planet.used_fields + 1;
        Ok(())
    } else if instruction == 1 {
        if planet.build_finish_ts <= 0 {
            return Err(BuildError::NoBuild);
        }
        if now < planet.build_finish_ts {
            return Err(BuildError::NotFinished);
        }
        let idx = planet.build_queue_item;
        let level = planet.build_queue_target;
        planet.set_level(idx, level);
        let snap = PlanetData {
            temperature: planet.temperature,
            metal_mine: planet.metal_mine,
            crystal_mine: planet.crystal_mine,
            deuterium_synthesizer: planet.deuterium_synthesizer,
            solar_plant: planet.solar_plant,
            fusion_reactor: planet.fusion_reactor,
            metal_storage: planet.metal_storage,
            crystal_storage: planet.crystal_storage,
            deuterium_tank: planet.deuterium_tank,
        };
        recalc_rates_from_snapshot(&snap, resources);
        planet.build_queue_item = 255;
        planet.build_queue_target = 0;
        planet.build_finish_ts = 0;
        Ok(())
    } else {
        Err(BuildError::InvalidArgs)
    }
}

} // verus!
