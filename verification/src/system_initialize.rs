//! The initialize system: sets up a player's first planet entity, its resources and its fleet,
//! with the place and traits drawn from the player's key where the arguments leave them open.
use vstd::prelude::*;

use crate::bytes::{i64_at, read_i64_at, read_key_at, read_u16_at, read_u32_at, u16_at, u32_at};
use crate::components::{Fleet, Planet, Resources};
use crate::key::{all_zero, Key};

verus! {

/// Why the initialize system refuses.
#[derive(Clone, Copy, Debug, PartialEq, Eq, Structural)]
pub enum InitError {
    AlreadyInitialized,
    InvalidArgs,
}

/// `v` brought into `lo..=hi`.
pub open spec fn clamp_int(v: int, lo: int, hi: int) -> int {
    if v < lo {
        lo
    } else if v > hi {
        hi
    } else {
        v
    }
}

/// The bytes of `Homeworld`, zero-padded to 32.
pub open spec fn homeworld_name() -> Seq<u8> {
    seq![72u8, 111, 109, 101, 119, 111, 114, 108, 100] + Seq::new(23, |i: int| 0u8)
}

/// The name the arguments give (their bytes 13 to 31, zero-padded), or `Homeworld` when it
/// starts with a zero byte.
pub open spec fn first_planet_name(a: Seq<u8>) -> Seq<u8> {
    if a[13] == 0 {
        homeworld_name()
    } else {
        a.subrange(13, 32) + Seq::new(13, |i: int| 0u8)
    }
}

/// The first planet of `auth` as the arguments `a` describe it (name and entity aside).
pub open spec fn first_planet(p: Planet, auth: Key, a: Seq<u8>) -> Planet {
    let k = auth@;
    let galaxy = u16_at(a, 8);
    let system = u16_at(a, 10);
    let position = a[12];
    let gf = if galaxy == 0 { (k[0] % 9) + 1 } else { clamp_int(galaxy as int, 1, 9) };
    let sf = if system == 0 { (u16_at(k, 1) % 499) + 1 } else { clamp_int(system as int, 1, 499) };
    let pf = if position == 0 { (k[3] % 15) + 1 } else { clamp_int(position as int, 1, 15) };
    Planet {
        creator: auth,
        owner: auth,
        galaxy: gf as u16,
        system: sf as u16,
        position: pf as u8,
        planet_index: if a.len() >= 68 { u32_at(a, 64) } else { 0 },
        diameter: (8_000 + (u16_at(k, 4) % 10_000)) as u32,
        temperature: clamp_int(120 - pf * 12 + ((k[6] % 40) - 20), -60, 120) as i16,
        max_fields: (163 + (k[7] % 40)) as u16,
        used_fields: 3,
        metal_mine: 1,
        crystal_mine: 1,
        deuterium_synthesizer: 1,
        solar_plant: 1,
        build_queue_item: 255,
        ..p
    }
}

/// The resources a new planet starts with: the given stock, the starting rates and caps.
pub open spec fn starting_resources(r: Resources, metal: u64, crystal: u64, deuterium: u64, now: i64) -> Resources {
    Resources {
        metal,
        crystal,
        deuterium,
        metal_hour: 33,
        crystal_hour: 22,
        deuterium_hour: 14,
        energy_production: 22,
        energy_consumption: 42,
        metal_cap: 1_000_000,
        crystal_cap: 1_000_000,
        deuterium_cap: 1_000_000,
        last_update_ts: now,
        ..r
    }
}

/// Sets up `authority`'s first planet from the arguments: the time, the asked place (zero for
/// one drawn from the key), a name, the entity's key and optionally the planet's index.
pub fn execute(authority: Key, planet: &mut Planet, resources: &mut Resources, fleet: &mut Fleet, args: &[u8]) -> (r: Result<
    (),
    InitError,
>)
    ensures
        !all_zero(old(planet).creator@) ==> r == Err::<(), InitError>(InitError::AlreadyInitialized) && *final(planet) == *old(planet)
            && *final(resources) == *old(resources) && *final(fleet) == *old(fleet),
        all_zero(old(planet).creator@) && args.len() < 65 ==> r == Err::<(), InitError>(InitError::InvalidArgs) && *final(planet)
            == *old(planet) && *final(resources) == *old(resources) && *final(fleet) == *old(fleet),
        all_zero(old(planet).creator@) && args.len() >= 65 ==> {
            &&& r == Ok::<(), InitError>(())
            &&& *final(planet) == (Planet { name: final(planet).name, entity: final(planet).entity, ..first_planet(*old(planet), authority, args@) })
            &&& final(planet).name@ == first_planet_name(args@)
            &&& final(planet).entity@ == args@.subrange(32, 64)
            &&& *final(resources) == starting_resources(*old(resources), 1_000_000, 1_000_000, 1_000_000, i64_at(args@, 0))
            &&& *final(fleet) == (Fleet { creator: authority, ..*old(fleet) })
        },
{
    if !planet.creator.is_zero() {
        return Err(InitError::AlreadyInitialized);
    }
    if args.len() < 65 {
        return Err(InitError::InvalidArgs);
    }
    let now = read_i64_at(args, 0);
    let galaxy = read_u16_at(args, 8);
    let system = read_u16_at(args, 10);
    let position = args[12];
    let mut name = [0u8; 32];
    let mut i: usize = 0;
    while i < 19
        invariant
            i <= 19,
            args.len() >= 65,
            forall|j: int| 0 <= j < i ==> name[j] == args@[13 + j],
            forall|j: int| i <= j < 32 ==> name[j] == 0,
        decreases 19 - i,
    {
        name[i] = args[13 + i];
        i = i + 1;
    }
    let k = authority.bytes;
    let kb = vstd::array::array_as_slice(&k);
    let galaxy_final: u16 = if galaxy == 0 {
        (k[0] as u16 % 9) + 1
    } else if galaxy > 9 {
        9
    } else {
        galaxy
    };
    let system_final: u16 = if system == 0 {
        (read_u16_at(kb, 1) % 499) + 1
    } else if system > 499 {
        499
    } else {
        system
    };
    let position_final: u8 = if position == 0 {
        (k[3] % 15) + 1
    } else if position > 15 {
        15
    } else {
        position
    };
    let diameter: u32 = 8_000u32 + (read_u16_at(kb, 4) as u32 % 10_000);
    let base_temp: i16 = 120i16 - (position_final as i16 * 12);
    let raw_temp: i16 = base_temp + ((k[6] as i16) % 40 - 20);
    let temperature: i16 = if raw_temp < -60 {
        -60
    } else if raw_temp > 120 {
        120
    } else {
        raw_temp
    };
    let max_fields: u16 = 163u16 + (k[7] as u16 % 40);
    let effective_name: [u8; 32] = if name[0] == 0 {
        let mut d = [0u8; 32];
        d[0] = 72;
        d[1] = 111;
        d[2] = 109;
        d[3] = 101;
        d[4] = 119;
        d[5] = 111;
        d[6] = 114;
        d[7] = 108;
        d[8] = 100;
        assert(d@ =~= homeworld_name());
        d
    } else {
        assert(name@ =~= args@.subrange(13, 32) + Seq::new(13, |i: int| 0u8));
        name
    };
    let entity = read_key_at(args, 32);
    let planet_index: u32 = if args.len() >= 68 {
        read_u32_at(args, 64)
    } else {
        0
    };
    planet.creator = authority;
    planet.entity = entity;
    planet.owner = authority;
    planet.name = effective_name;
    planet.galaxy = galaxy_final;
    planet.system = system_final;
    planet.position = position_final;
    planet.planet_index = planet_index;
    planet.diameter = diameter;
    planet.temperature = temperature;
    planet.max_fields = max_fields;
    planet.used_fields = 3;
    planet.metal_mine = 1;
    planet.crystal_mine = 1;
    planet.deuterium_synthesizer = 1;
    planet.solar_plant = 1;
    planet.build_queue_item = 255;
    resources.metal = 1_000_000;
    resources.crystal = 1_000_000;
    resources.deuterium = 1_000_000;
    resources.metal_hour = 33;
    resources.crystal_hour = 22;
    resources.deuterium_hour = 14;
    resources.energy_production = 22;
    resources.energy_consumption = 42;
    resources.metal_cap = 1_000_000;
    resources.crystal_cap = 1_000_000;
    resources.deuterium_cap = 1_000_000;
    resources.last_update_ts = now;
    fleet.creator = authority;
    Ok(())
}

} // verus!
