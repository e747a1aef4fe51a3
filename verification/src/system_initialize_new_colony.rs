//! The new-colony system: sets up a colonized planet entity and stocks it with the cargo the
//! colony ship carried.
use vstd::prelude::*;

use crate::bytes::{i64_at, read_i64_at, read_key_at, read_u16_at, read_u32_at, read_u64_at, u16_at, u32_at, u64_at};
use crate::components::{Planet, Resources};
use crate::key::{all_zero, Key};
use crate::system_initialize::{clamp_int, starting_resources};

verus! {

/// The shortest argument list.
pub const MIN_ARGS_LEN: usize = 105;

/// Why the new-colony system refuses.
#[derive(Clone, Copy, Debug, PartialEq, Eq, Structural)]
pub enum InitNewColonyError {
    AlreadyInitialized,
    InvalidArgs,
    InvalidTarget,
}

/// The bytes of `Colony`, zero-padded to 32.
pub open spec fn colony_default_name() -> Seq<u8> {
    seq![67u8, 111, 108, 111, 110, 121] + Seq::new(26, |i: int| 0u8)
}

/// The colony's name: the argument bytes 13 to 44 when present, or `Colony` when they are
/// missing or start with a zero byte.
pub open spec fn colony_name_spec(a: Seq<u8>) -> Seq<u8> {
    if a.len() >= 45 && a[13] != 0 {
        a.subrange(13, 45)
    } else {
        colony_default_name()
    }
}

/// The colony's name read from the arguments.
pub fn colony_name_from_args(args: &[u8]) -> (n: [u8; 32])
    ensures
        n@ == colony_name_spec(args@),
{
    let mut name = [0u8; 32];
    if args.len() >= 45 {
        let mut i: usize = 0;
        while i < 32
            invariant
                i <= 32,
                args.len() >= 45,
                forall|j: int| 0 <= j < i ==> name[j] == args@[13 + j],
                forall|j: int| i <= j < 32 ==> name[j] == 0,
            decreases 32 - i,
        {
            name[i] = args[13 + i];
            i = i + 1;
        }
        assert(name@ =~= args@.subrange(13, 45));
    }
    if name[0] == 0 {
        let mut d = [0u8; 32];
        d[0] = 67;
        d[1] = 111;
        d[2] = 108;
        d[3] = 111;
        d[4] = 110;
        d[5] = 121;
        assert(d@ =~= colony_default_name());
        d
    } else {
        name
    }
}

/// Why setting up the colony is refused, if it is (once the arguments are long enough).
pub open spec fn colony_check(a: Seq<u8>) -> Result<(), InitNewColonyError> {
    if !(1 <= u16_at(a, 8) <= 9) || !(1 <= u16_at(a, 10) <= 499) || !(1 <= a[12] <= 15) {
        Err(InitNewColonyError::InvalidTarget)
    } else if all_zero(a.subrange(45, 77)) {
        Err(InitNewColonyError::InvalidArgs)
    } else {
        Ok(())
    }
}

/// The colony planet of `owner` the arguments describe (name and entity aside).
pub open spec fn colony_planet(p: Planet, owner: Key, a: Seq<u8>) -> Planet {
    let g = u16_at(a, 8);
    let s = u16_at(a, 10);
    let pos = a[12];
    Planet {
        creator: owner,
        owner,
        galaxy: g,
        system: s,
        position: pos,
        planet_index: u32_at(a, 77),
        diameter: (8_000 + ((g * 997 + s * 37 + pos * 101) % 10_000)) as u32,
        temperature: clamp_int(120 - pos * 12, -60, 120) as i16,
        max_fields: (163 + ((g + s + pos) % 40)) as u16,
        used_fields: 3,
        metal_mine: 1,
        crystal_mine: 1,
        deuterium_synthesizer: 1,
        solar_plant: 1,
        build_queue_item: 255,
        ..p
    }
}

/// Sets up `authority`'s colony from the arguments: the time, the place, the name, the entity's
/// key, the planet's index and the cargo it starts with.
pub fn execute(authority: Key, planet: &mut Planet, resources: &mut Resources, args: &[u8]) -> (r: Result<(), InitNewColonyError>)
    ensures
        !all_zero(old(planet).creator@) ==> r == Err::<(), InitNewColonyError>(InitNewColonyError::AlreadyInitialized)
            && *final(planet) == *old(planet) && *final(resources) == *old(resources),
        all_zero(old(planet).creator@) && args.len() < MIN_ARGS_LEN ==> r == Err::<(), InitNewColonyError>(
            InitNewColonyError::InvalidArgs,
        ) && *final(planet) == *old(planet) && *final(resources) == *old(resources),
        all_zero(old(planet).creator@) && args.len() >= MIN_ARGS_LEN ==> match colony_check(args@) {
            Err(e) => r == Err::<(), InitNewColonyError>(e) && *final(planet) == *old(planet) && *final(resources) == *old(resources),
            Ok(()) => {
                &&& r == Ok::<(), InitNewColonyError>(())
                &&& *final(planet) == (Planet { name: final(planet).name, entity: final(planet).entity, ..colony_planet(*old(planet), authority, args@) })
                &&& final(planet).name@ == colony_name_spec(args@)
                &&& final(planet).entity@ == args@.subrange(45, 77)
                &&& *final(resources) == starting_resources(
                    *old(resources),
                    u64_at(args@, 81),
                    u64_at(args@, 89),
                    u64_at(args@, 97),
                    i64_at(args@, 0),
                )
            },
        },
{
    if !planet.creator.is_zero() {
        return Err(InitNewColonyError::AlreadyInitialized);
    }
    if args.len() < MIN_ARGS_LEN {
        return Err(InitNewColonyError::InvalidArgs);
    }
    let now = read_i64_at(args, 0);
    let galaxy = read_u16_at(args, 8);
    let system = read_u16_at(args, 10);
    let position = args[12];
    let name = colony_name_from_args(args);
    let entity = read_key_at(args, 45);
    let planet_index = read_u32_at(args, 77);
    let cargo_metal = read_u64_at(args, 81);
    let cargo_crystal = read_u64_at(args, 89);
    let cargo_deuterium = read_u64_at(args, 97);
    if !(1 <= galaxy && galaxy <= 9) || !(1 <= system && system <= 499) || !(1 <= position && position <= 15) {
        return Err(InitNewColonyError::InvalidTarget);
    }
    if entity.is_zero() {
        return Err(InitNewColonyError::InvalidArgs);
    }
    let raw: i16 = 120i16 - (position as i16 * 12);
    let temperature: i16 = if raw < -60 {
        -60
    } else if raw > 120 {
        120
    } else {
        raw
    };
    let diameter: u32 = 8_000u32 + ((galaxy as u32 * 997 + system as u32 * 37 + position as u32 * 101) % 10_000);
    let max_fields: u16 = 163u16 + ((galaxy + system + position as u16) % 40);
    planet.creator = authority;
    planet.entity = entity;
    planet.owner = authority;
    planet.name = name;
    planet.galaxy = galaxy;
    planet.system = system;
    planet.position = position;
    planet.planet_index = planet_index;
    planet.diameter = diameter;
    planet.temperature = temperature;
    planet.max_fields = max_fields;
    planet.used_fields = 3;
    planet.metal_mine = 1;
    planet.crystal_mine = 1;
    planet.deuterium_synthesizer = 1;
    planet.solar_plant = 1;
    planet.build_queue_item = 255;
    resources.metal = cargo_metal;
    resources.crystal = cargo_crystal;
    resources.deuterium = cargo_deuterium;
    resources.metal_hour = 33;
    resources.crystal_hour = 22;
    resources.deuterium_hour = 14;
    resources.energy_production = 22;
    resources.energy_consumption = 42;
    resources.metal_cap = 1_000_000;
    resources.crystal_cap = 1_000_000;
    resources.deuterium_cap = 1_000_000;
    resources.last_update_ts = now;
    Ok(())
}

} // verus!
