//! The launch system: sends ships and cargo from a fleet on a transport or colonize mission.
use vstd::prelude::*;

use crate::bytes::{i64_at, read_i64_at, read_u16_at, read_u32_at, read_u64_at, u16_at, u32_at, u64_at};
use crate::components::{settle_resources, settle_resources_fits, settled_resources, Fleet, FleetMission, Resources};

verus! {

/// The mission type of a transport.
pub const TRANSPORT_MISSION: u8 = 2;
/// The mission type of a colonization.
pub const COLONIZE_MISSION: u8 = 5;
/// The length of the fixed part of the arguments.
pub const BASE_ARGS_LEN: usize = 94;
/// Where the target coordinates start in the arguments.
pub const TARGET_COORDS_OFFSET: usize = 94;
/// The length of the target coordinates.
pub const TARGET_COORDS_LEN: usize = 5;
/// The length of a colony name.
pub const COLONY_NAME_LEN: usize = 32;

/// Why the launch system refuses.
#[derive(Clone, Copy, Debug, PartialEq, Eq, Structural)]
pub enum LaunchError {
    InvalidArgs,
    InvalidMission,
    MissingTarget,
    InvalidTarget,
    MissingColonyName,
    EmptyFleet,
    NoSlot,
    InsufficientShips,
    ExceedsCargo,
    InsufficientResources,
    InsufficientDeuterium,
}

/// A launch request as the argument bytes hold it.
#[derive(Clone, Copy, Debug)]
pub struct LaunchRequest {
    pub mission_type: u8,
    pub lf: u32,
    pub hf: u32,
    pub cr: u32,
    pub bs: u32,
    pub bc: u32,
    pub bm: u32,
    pub ds: u32,
    pub de: u32,
    pub sc: u32,
    pub lc: u32,
    pub rec: u32,
    pub ep: u32,
    pub col: u32,
    pub cargo_metal: u64,
    pub cargo_crystal: u64,
    pub cargo_deuterium: u64,
    pub speed_factor: u8,
    pub now: i64,
    pub flight_seconds: i64,
}

/// The request held by argument bytes `a` (at least the fixed part long); the speed factor is
/// clamped to 10..=100.
pub open spec fn request_of(a: Seq<u8>) -> LaunchRequest {
    LaunchRequest {
        mission_type: a[0],
        lf: u32_at(a, 1),
        hf: u32_at(a, 5),
        cr: u32_at(a, 9),
        bs: u32_at(a, 13),
        bc: u32_at(a, 17),
        bm: u32_at(a, 21),
        ds: u32_at(a, 25),
        de: u32_at(a, 29),
        sc: u32_at(a, 33),
        lc: u32_at(a, 37),
        rec: u32_at(a, 41),
        ep: u32_at(a, 45),
        col: u32_at(a, 49),
        cargo_metal: u64_at(a, 53),
        cargo_crystal: u64_at(a, 61),
        cargo_deuterium: u64_at(a, 69),
        speed_factor: if a[77] < 10 { 10 } else if a[77] > 100 { 100 } else { a[77] },
        now: i64_at(a, 78),
        flight_seconds: i64_at(a, 86),
    }
}

fn read_request(args: &[u8]) -> (q: LaunchRequest)
    requires
        args.len() >= BASE_ARGS_LEN,
    ensures
        q == request_of(args@),
{
    let raw = args[77];
    LaunchRequest {
        mission_type: args[0],
        lf: read_u32_at(args, 1),
        hf: read_u32_at(args, 5),
        cr: read_u32_at(args, 9),
        bs: read_u32_at(args, 13),
        bc: read_u32_at(args, 17),
        bm: read_u32_at(args, 21),
        ds: read_u32_at(args, 25),
        de: read_u32_at(args, 29),
        sc: read_u32_at(args, 33),
        lc: read_u32_at(args, 37),
        rec: read_u32_at(args, 41),
        ep: read_u32_at(args, 45),
        col: read_u32_at(args, 49),
        cargo_metal: read_u64_at(args, 53),
        cargo_crystal: read_u64_at(args, 61),
        cargo_deuterium: read_u64_at(args, 69),
        speed_factor: if raw < 10 { 10 } else if raw > 100 { 100 } else { raw },
        now: read_i64_at(args, 78),
        flight_seconds: read_i64_at(args, 86),
    }
}

/// The number of ships the request sends.
pub open spec fn request_ships(q: LaunchRequest) -> int {
    q.lf + q.hf + q.cr + q.bs + q.bc + q.bm + q.ds + q.de + q.sc + q.lc + q.rec + q.ep + q.col
}

/// The cargo the request carries.
pub open spec fn request_cargo(q: LaunchRequest) -> int {
    q.cargo_metal + q.cargo_crystal + q.cargo_deuterium
}

/// The cargo room of the ships sent.
pub open spec fn request_capacity(q: LaunchRequest) -> int {
    q.sc * 5_000 + q.lc * 25_000 + q.rec * 20_000 + q.cr * 800 + q.bs * 1_500
}

/// The deuterium the flight burns: the ships' fuel weights times the square of the speed factor,
/// over ten thousand.
pub open spec fn request_fuel(q: LaunchRequest) -> int {
    (q.lf * 20 + q.hf * 75 + q.cr * 300 + q.bs * 500 + q.bc * 250 + q.bm * 1000 + q.ds * 1000 + q.sc * 10 + q.lc * 50 + q.rec * 300 + q.ep * 1 + q.col * 1000) * (q.speed_factor * q.speed_factor) / 10_000
}

/// Why the arguments alone are refused, if they are: length, target, colony name, mission type,
/// flight time.
pub open spec fn args_check(a: Seq<u8>) -> Result<(), LaunchError> {
    if a.len() < BASE_ARGS_LEN {
        Err(LaunchError::InvalidArgs)
    } else if a.len() < TARGET_COORDS_OFFSET + TARGET_COORDS_LEN {
        Err(LaunchError::MissingTarget)
    } else if !(1 <= u16_at(a, 94) <= 9) || !(1 <= u16_at(a, 96) <= 499) || !(1 <= a[98] <= 15) {
        Err(LaunchError::InvalidTarget)
    } else if a[0] == COLONIZE_MISSION && a.len() < TARGET_COORDS_OFFSET + TARGET_COORDS_LEN + COLONY_NAME_LEN {
        Err(LaunchError::MissingColonyName)
    } else if a[0] != TRANSPORT_MISSION && a[0] != COLONIZE_MISSION {
        Err(LaunchError::InvalidMission)
    } else if i64_at(a, 86) <= 0 {
        Err(LaunchError::InvalidArgs)
    } else {
        Ok(())
    }
}

/// Whether the fleet holds every ship the request sends.
pub open spec fn fleet_has(f: Fleet, q: LaunchRequest) -> bool {
    &&& f.light_fighter >= q.lf
    &&& f.heavy_fighter >= q.hf
    &&& f.cruiser >= q.cr
    &&& f.battleship >= q.bs
    &&& f.battlecruiser >= q.bc
    &&& f.bomber >= q.bm
    &&& f.destroyer >= q.ds
    &&& f.deathstar >= q.de
    &&& f.small_cargo >= q.sc
    &&& f.large_cargo >= q.lc
    &&& f.recycler >= q.rec
    &&& f.espionage_probe >= q.ep
    &&& f.colony_ship >= q.col
}

/// Why the request is refused against the fleet and its (settled) resources, if it is.
pub open spec fn launch_check(f: Fleet, res: Resources, q: LaunchRequest) -> Result<usize, LaunchError> {
    if request_ships(q) == 0 {
        Err(LaunchError::EmptyFleet)
    } else if f.spec_free_slot() is None {
        Err(LaunchError::NoSlot)
    } else if !fleet_has(f, q) {
        Err(LaunchError::InsufficientShips)
    } else if request_cargo(q) > request_capacity(q) {
        Err(LaunchError::ExceedsCargo)
    } else if res.metal < q.cargo_metal || res.crystal < q.cargo_crystal || res.deuterium < q.cargo_deuterium {
        Err(LaunchError::InsufficientResources)
    } else if res.deuterium < q.cargo_deuterium + request_fuel(q) {
        Err(LaunchError::InsufficientDeuterium)
    } else {
        Ok(f.spec_free_slot()->0)
    }
}

/// Whether the launch runs without a machine-range failure: the ship count fits a `u32`, the
/// settlement fits, the cargo total and the deuterium due fit a `u64`, each where it is reached.
pub open spec fn launch_fits(f: Fleet, res: Resources, a: Seq<u8>) -> bool {
    args_check(a) is Ok ==> {
        let q = request_of(a);
        &&& request_ships(q) <= u32::MAX
        &&& request_ships(q) > 0 ==> settle_resources_fits(res, q.now)
        &&& (request_ships(q) > 0 && f.spec_free_slot() is Some && fleet_has(f, q)) ==> request_cargo(q) <= u64::MAX
        &&& (request_ships(q) > 0 && f.spec_free_slot() is Some && fleet_has(f, q)) ==> q.cargo_deuterium + request_fuel(q) <= u64::MAX
    }
}

/// The colony name the arguments carry for a colonization (zeros otherwise).
pub open spec fn colony_name_of(a: Seq<u8>) -> Seq<u8> {
    if a[0] == COLONIZE_MISSION {
        a.subrange(99, 131)
    } else {
        Seq::new(32, |i: int| 0u8)
    }
}

/// The mission the launch records.
pub open spec fn launched(q: LaunchRequest, g: u16, s: u16, p: u8, name: [u8; 32]) -> FleetMission {
    FleetMission {
        mission_type: q.mission_type,
        target_galaxy: g,
        target_system: s,
        target_position: p,
        colony_name: name,
        depart_ts: q.now,
        arrive_ts: crate::num::clamp_i64(q.now + q.flight_seconds),
        return_ts: if q.mission_type == TRANSPORT_MISSION {
            crate::num::clamp_i64(q.now + crate::num::clamp_i64(q.flight_seconds * 2))
        } else {
            0
        },
        light_fighter: q.lf,
        heavy_fighter: q.hf,
        cruiser: q.cr,
        battleship: q.bs,
        battlecruiser: q.bc,
        bomber: q.bm,
        destroyer: q.ds,
        deathstar: q.de,
        small_cargo: q.sc,
        large_cargo: q.lc,
        recycler: q.rec,
        espionage_probe: q.ep,
        colony_ship: q.col,
        cargo_metal: q.cargo_metal,
        cargo_crystal: q.cargo_crystal,
        cargo_deuterium: q.cargo_deuterium,
        applied: false,
    }
}

/// The fleet once the ships have left.
pub open spec fn fleet_after(f: Fleet, q: LaunchRequest) -> Fleet {
    Fleet {
        light_fighter: (f.light_fighter - q.lf) as u32,
        heavy_fighter: (f.heavy_fighter - q.hf) as u32,
        cruiser: (f.cruiser - q.cr) as u32,
        battleship: (f.battleship - q.bs) as u32,
        battlecruiser: (f.battlecruiser - q.bc) as u32,
        bomber: (f.bomber - q.bm) as u32,
        destroyer: (f.destroyer - q.ds) as u32,
        deathstar: (f.deathstar - q.de) as u32,
        small_cargo: (f.small_cargo - q.sc) as u32,
        large_cargo: (f.large_cargo - q.lc) as u32,
        recycler: (f.recycler - q.rec) as u32,
        espionage_probe: (f.espionage_probe - q.ep) as u32,
        colony_ship: (f.colony_ship - q.col) as u32,
        ..f
    }
}

/// What a launch leaves of the fleet and the resources, and the answer.
pub open spec fn launch_spec(f: Fleet, res: Resources, a: Seq<u8>) -> (Fleet, Resources, Result<(), LaunchError>) {
    if args_check(a) is Err {
        (f, res, Err(args_check(a)->Err_0))
    } else {
        let q = request_of(a);
        let settled = if request_ships(q) == 0 { res } else { settled_resources(res, q.now) };
        match launch_check(f, settled, q) {
            Err(e) => (f, settled, Err(e)),
            Ok(slot) => {
                let m = launched(q, u16_at(a, 94), u16_at(a, 96), a[98], arbitrary());
                let f1 = fleet_after(f, q);
                let f2 = f1.with_mission(slot, FleetMission { colony_name: stored_colony_name(a), ..m });
                (
                    Fleet { active_missions: f.active_missions.saturating_add(1), ..f2 },
                    Resources {
                        metal: (settled.metal - q.cargo_metal) as u64,
                        crystal: (settled.crystal - q.cargo_crystal) as u64,
                        deuterium: (settled.deuterium - (q.cargo_deuterium + request_fuel(q))) as u64,
                        ..settled
                    },
                    Ok(()),
                )
            },
        }
    }
}

/// The stored colony name: the bytes the arguments carry, as an array.
pub open spec fn stored_colony_name(a: Seq<u8>) -> [u8; 32] {
    choose|n: [u8; 32]| n@ == colony_name_of(a)
}

/// The 32 bytes of `b` from `o` on, or zeros where `b` is too short.
pub open spec fn colony_name_at_spec(b: Seq<u8>, o: int) -> Seq<u8> {
    if b.len() >= o + COLONY_NAME_LEN {
        b.subrange(o, o + COLONY_NAME_LEN)
    } else {
        Seq::new(32, |i: int| 0u8)
    }
}

/// The colony name stored in `b` from `o` on, or zeros where `b` is too short.
pub fn colony_name_at(b: &[u8], o: usize) -> (n: [u8; 32])
    requires
        o + COLONY_NAME_LEN <= usize::MAX,
    ensures
        n@ == colony_name_at_spec(b@, o as int),
{
    let mut n = [0u8; 32];
    if b.len() >= o + COLONY_NAME_LEN {
        let mut i: usize = 0;
        while i < 32
            invariant
                i <= 32,
                b.len() >= o + 32,
                forall|j: int| 0 <= j < i ==> n[j] == b@[o + j],
                forall|j: int| i <= j < 32 ==> n[j] == 0,
            decreases 32 - i,
        {
            n[i] = b[o + i];
            i = i + 1;
        }
        assert(n@ =~= b@.subrange(o as int, o + 32));
    } else {
        assert(n@ =~= Seq::new(32, |i: int| 0u8));
    }
    n
}

/// Launches the mission the arguments describe from `fleet`, paying cargo and fuel from
/// `resources`.
#[verifier::rlimit(40)]
pub fn execute(fleet: &mut Fleet, resources: &mut Resources, args: &[u8]) -> (r: Result<(), LaunchError>)
    requires
        launch_fits(*old(fleet), *old(resources), args@),
    ensures
        (*final(fleet), *final(resources), r) == launch_spec(*old(fleet), *old(resources), args@),
{
    if args.len() < BASE_ARGS_LEN {
        return Err(LaunchError::InvalidArgs);
    }
    let q = read_request(args);
    if args.len() < TARGET_COORDS_OFFSET + TARGET_COORDS_LEN {
        return Err(LaunchError::MissingTarget);
    }
    let target_galaxy = read_u16_at(args, 94);
    let target_system = read_u16_at(args, 96);
    let target_position = args[98];
    if !(1 <= target_galaxy && target_galaxy <= 9) || !(1 <= target_system && target_system <= 499) || !(1 <= target_position
        && target_position <= 15) {
        return Err(LaunchError::InvalidTarget);
    }
    if q.mission_type == COLONIZE_MISSION && args.len() < TARGET_COORDS_OFFSET + TARGET_COORDS_LEN + COLONY_NAME_LEN {
        return Err(LaunchError::MissingColonyName);
    }
    let colony_name: [u8; 32] = if q.mission_type == COLONIZE_MISSION {
        colony_name_at(args, 99)
    } else {
        let z = [0u8; 32];
        assert(z@ =~= Seq::new(32, |i: int| 0u8));
        z
    };
    proof {
        broadcast use vstd::array::group_array_axioms;

        assert(stored_colony_name(args@)@ == colony_name@);
        assert(stored_colony_name(args@) =~= colony_name);
    }
    let return_ts: i64 = if q.mission_type == TRANSPORT_MISSION {
        crate::num::sat_add_i64(q.now, crate::num::sat_mul_i64(q.flight_seconds, 2))
    } else {
        0
    };
    if q.mission_type != TRANSPORT_MISSION && q.mission_type != COLONIZE_MISSION {
        return Err(LaunchError::InvalidMission);
    }
    if q.flight_seconds <= 0 {
        return Err(LaunchError::InvalidArgs);
    }
    if q.lf + q.hf + q.cr + q.bs + q.bc + q.bm + q.ds + q.de + q.sc + q.lc + q.rec + q.ep + q.col == 0 {
        return Err(LaunchError::EmptyFleet);
    }
    settle_resources(resources, q.now);
    let slot = match fleet.free_slot() {
        None => {
            return Err(LaunchError::NoSlot);
        },
        Some(s) => s,
    };
    if fleet.light_fighter < q.lf {
        return Err(LaunchError::InsufficientShips);
    }
    if fleet.heavy_fighter < q.hf {
        return Err(LaunchError::InsufficientShips);
    }
    if fleet.cruiser < q.cr {
        return Err(LaunchError::InsufficientShips);
    }
    if fleet.battleship < q.bs {
        return Err(LaunchError::InsufficientShips);
    }
    if fleet.battlecruiser < q.bc {
        return Err(LaunchError::InsufficientShips);
    }
    if fleet.bomber < q.bm {
        return Err(LaunchError::InsufficientShips);
    }
    if fleet.destroyer < q.ds {
        return Err(LaunchError::InsufficientShips);
    }
    if fleet.deathstar < q.de {
        return Err(LaunchError::InsufficientShips);
    }
    if fleet.small_cargo < q.sc {
        return Err(LaunchError::InsufficientShips);
    }
    if fleet.large_cargo < q.lc {
        return Err(LaunchError::InsufficientShips);
    }
    if fleet.recycler < q.rec {
        return Err(LaunchError::InsufficientShips);
    }
    if fleet.espionage_probe < q.ep {
        return Err(LaunchError::InsufficientShips);
    }
    if fleet.colony_ship < q.col {
        return Err(LaunchError::InsufficientShips);
    }
    let cap = q.sc as u64 * 5_000 + q.lc as u64 * 25_000 + q.rec as u64 * 20_000 + q.cr as u64 * 800 + q.bs as u64 * 1_500;
    if q.cargo_metal + q.cargo_crystal + q.cargo_deuterium > cap {
        return Err(LaunchError::ExceedsCargo);
    }
    if resources.metal < q.cargo_metal || resources.crystal < q.cargo_crystal || resources.deuterium < q.cargo_deuterium {
        return Err(LaunchError::InsufficientResources);
    }
    let sf = q.speed_factor as u64;
    let weight: u64 = q.lf as u64 * 20 + q.hf as u64 * 75 + q.cr as u64 * 300 + q.bs as u64 * 500 + q.bc as u64 * 250 + q.bm as u64 * 1000 + q.ds as u64 * 1000 + q.sc as u64 * 10 + q.lc as u64 * 50 + q.rec as u64 * 300 + q.ep as u64 * 1 + q.col as u64 * 1000;
    proof {
        assert(sf * sf <= 10_000) by (nonlinear_arith)
            requires
                sf <= 100,
        ;
        assert(weight * (sf * sf) <= weight * 10_000) by (nonlinear_arith)
            requires
                sf <= 100,
        ;
    }
    let fuel = weight * (sf * sf) / 10_000;
    if resources.deuterium < q.cargo_deuterium + fuel {
        return Err(LaunchError::InsufficientDeuterium);
    }
    resources.metal = resources.metal - q.cargo_metal;
    resources.crystal = resources.crystal - q.cargo_crystal;
    resources.deuterium = resources.deuterium - (q.cargo_deuterium + fuel);
    fleet.light_fighter = fleet.light_fighter - q.lf;
    fleet.heavy_fighter = fleet.heavy_fighter - q.hf;
    fleet.cruiser = fleet.cruiser - q.cr;
    fleet.battleship = fleet.battleship - q.bs;
    fleet.battlecruiser = fleet.battlecruiser - q.bc;
    fleet.bomber = fleet.bomber - q.bm;
    fleet.destroyer = fleet.destroyer - q.ds;
    fleet.deathstar = fleet.deathstar - q.de;
    fleet.small_cargo = fleet.small_cargo - q.sc;
    fleet.large_cargo = fleet.large_cargo - q.lc;
    fleet.recycler = fleet.recycler - q.rec;
    fleet.espionage_probe = fleet.espionage_probe - q.ep;
    fleet.colony_ship = fleet.colony_ship - q.col;
    fleet.set_mission(
        slot,
        q.mission_type,
        target_galaxy,
        target_system,
        target_position,
        colony_name,
        q.now,
        crate::num::sat_add_i64(q.now, q.flight_seconds),
        return_ts,
        q.lf,
        q.hf,
        q.cr,
        q.bs,
        q.bc,
        q.bm,
        q.ds,
        q.de,
        q.sc,
        q.lc,
        q.rec,
        q.ep,
        q.col,
        q.cargo_metal,
        q.cargo_crystal,
        q.cargo_deuterium,
    );
    fleet.active_missions = fleet.active_missions.saturating_add(1);
    Ok(())
}

} // verus!
