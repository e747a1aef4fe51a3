//! The attack system: resolves an attack mission of a fleet entity in up to six rounds against
//! the defending fleet, plunders the defender when the attacker wins, and brings the ships home
//! when the return time has come.
use vstd::prelude::*;

use crate::bytes::{i64_at, read_i64_at};
use crate::components::{
    empty_fleet_mission, settle_resources, settle_resources_fits, settled_resources, slot_index, Fleet, FleetMission,
    Resources,
};

verus! {

/// The mission type of an attack.
pub const ATTACK_MISSION: u8 = 1;
/// The most rounds a battle lasts.
pub const MAX_ROUNDS: u8 = 6;

/// Why the attack system refuses.
#[derive(Clone, Copy, Debug, PartialEq, Eq, Structural)]
pub enum E {
    InvalidArgs,
    InvalidSlot,
    NotAttack,
    AlreadyApplied,
    NotArrived,
}

/// The outcome of a battle: whether the attacker won and how many rounds were fought.
#[derive(Clone, Copy, Debug)]
pub struct BattleResult {
    pub attacker_wins: bool,
    pub rounds: u8,
}

/// The state of a battle: the hull and shield pools of both sides, the rounds fought, the
/// attacker's ten kinds of ships and the defender's eight.
#[derive(Clone, Copy, Debug)]
pub struct Battle {
    pub ah: u64,
    pub ash: u64,
    pub dh: u64,
    pub dsh: u64,
    pub rounds: u8,
    pub alf: u32,
    pub ahf: u32,
    pub acr: u32,
    pub abs: u32,
    pub abc: u32,
    pub abm: u32,
    pub ads: u32,
    pub ade: u32,
    pub asc: u32,
    pub alc: u32,
    pub dlf: u32,
    pub dhf: u32,
    pub dcr: u32,
    pub dbs: u32,
    pub dbc: u32,
    pub dbm: u32,
    pub dds: u32,
    pub dde: u32,
}

/// The firepower of eight kinds of warships.
pub open spec fn atk(lf: u32, hf: u32, cr: u32, bs: u32, bc: u32, bm: u32, ds: u32, de: u32) -> int {
    lf * 50 + hf * 150 + cr * 400 + bs * 1000 + bc * 700 + bm * 1000 + ds * 2000 + de * 200000
}

/// The shields of eight kinds of warships.
pub open spec fn shd(lf: u32, hf: u32, cr: u32, bs: u32, bc: u32, bm: u32, ds: u32, de: u32) -> int {
    lf * 10 + hf * 25 + cr * 50 + bs * 200 + bc * 400 + bm * 500 + ds * 500 + de * 50000
}

/// The hull of eight kinds of warships.
pub open spec fn hul(lf: u32, hf: u32, cr: u32, bs: u32, bc: u32, bm: u32, ds: u32, de: u32) -> int {
    lf * 800 + hf * 3000 + cr * 13500 + bs * 30000 + bc * 35000 + bm * 30000 + ds * 55000 + de * 2000000
}

fn atk_of(lf: u32, hf: u32, cr: u32, bs: u32, bc: u32, bm: u32, ds: u32, de: u32) -> (r: u64)
    ensures
        r == atk(lf, hf, cr, bs, bc, bm, ds, de),
{
    lf as u64 * 50 + hf as u64 * 150 + cr as u64 * 400 + bs as u64 * 1000 + bc as u64 * 700 + bm as u64 * 1000 + ds as u64 * 2000 + de as u64 * 200000
}

fn shd_of(lf: u32, hf: u32, cr: u32, bs: u32, bc: u32, bm: u32, ds: u32, de: u32) -> (r: u64)
    ensures
        r == shd(lf, hf, cr, bs, bc, bm, ds, de),
{
    lf as u64 * 10 + hf as u64 * 25 + cr as u64 * 50 + bs as u64 * 200 + bc as u64 * 400 + bm as u64 * 500 + ds as u64 * 500 + de as u64 * 50000
}

fn hul_of(lf: u32, hf: u32, cr: u32, bs: u32, bc: u32, bm: u32, ds: u32, de: u32) -> (r: u64)
    ensures
        r == hul(lf, hf, cr, bs, bc, bm, ds, de),
{
    lf as u64 * 800 + hf as u64 * 3000 + cr as u64 * 13500 + bs as u64 * 30000 + bc as u64 * 35000 + bm as u64 * 30000 + ds as u64 * 55000 + de as u64 * 2000000
}

/// A ship count scaled by `r` thousandths, rounded down.
pub open spec fn sc(n: u32, r: u64) -> u32 {
    ((n * r) / 1_000) as u32
}

fn scale(n: u32, r: u64) -> (s: u32)
    requires
        r <= 1_000,
    ensures
        s == sc(n, r),
        s <= n,
{
    proof {
        assert(n * r <= n * 1_000) by (nonlinear_arith)
            requires
                r <= 1_000,
        ;
    }
    ((n as u64 * r) / 1_000) as u32
}

/// Whether the defender has nothing left to fight with.
pub open spec fn defender_down(b: Battle) -> bool {
    b.dh == 0 || (b.dlf == 0 && b.dhf == 0 && b.dcr == 0 && b.dbs == 0 && b.dbc == 0 && b.dbm == 0 && b.dds == 0 && b.dde == 0)
}

/// One round: the attacker fires (shields first, then hull), the defender's ships shrink with
/// its hull, the defender fires back the same way, then both shields are restored.
pub open spec fn round(b: Battle, tah: u64, tas: u64, tdh: u64, tds: u64) -> Battle {
    let ad = atk(b.alf, b.ahf, b.acr, b.abs, b.abc, b.abm, b.ads, b.ade) + b.asc * 5 + b.alc * 5;
    let dsh1: u64 = if b.dsh >= ad { (b.dsh - ad) as u64 } else { 0 };
    let dh1: u64 = if b.dsh >= ad { b.dh } else { crate::num::clamp_u64(b.dh - (ad - b.dsh)) };
    let rd: u64 = crate::num::clamp_u64(dh1 * 1_000) / (if tdh > 0 { tdh } else { 1u64 });
    let dlf: u32 = if tdh > 0 { sc(b.dlf, rd) } else { b.dlf };
    let dhf: u32 = if tdh > 0 { sc(b.dhf, rd) } else { b.dhf };
    let dcr: u32 = if tdh > 0 { sc(b.dcr, rd) } else { b.dcr };
    let dbs: u32 = if tdh > 0 { sc(b.dbs, rd) } else { b.dbs };
    let dbc: u32 = if tdh > 0 { sc(b.dbc, rd) } else { b.dbc };
    let dbm: u32 = if tdh > 0 { sc(b.dbm, rd) } else { b.dbm };
    let dds: u32 = if tdh > 0 { sc(b.dds, rd) } else { b.dds };
    let dde: u32 = if tdh > 0 { sc(b.dde, rd) } else { b.dde };
    let dd = atk(dlf, dhf, dcr, dbs, dbc, dbm, dds, dde);
    let ah1: u64 = if b.ash >= dd { b.ah } else { crate::num::clamp_u64(b.ah - (dd - b.ash)) };
    let ra: u64 = crate::num::clamp_u64(ah1 * 1_000) / (if tah > 0 { tah } else { 1u64 });
    Battle {
        ah: ah1,
        ash: tas,
        dh: dh1,
        dsh: tds,
        rounds: (b.rounds + 1) as u8,
        alf: if tah > 0 { sc(b.alf, ra) } else { b.alf },
        ahf: if tah > 0 { sc(b.ahf, ra) } else { b.ahf },
        acr: if tah > 0 { sc(b.acr, ra) } else { b.acr },
        abs: if tah > 0 { sc(b.abs, ra) } else { b.abs },
        abc: if tah > 0 { sc(b.abc, ra) } else { b.abc },
        abm: if tah > 0 { sc(b.abm, ra) } else { b.abm },
        ads: if tah > 0 { sc(b.ads, ra) } else { b.ads },
        ade: if tah > 0 { sc(b.ade, ra) } else { b.ade },
        asc: if tah > 0 { sc(b.asc, ra) } else { b.asc },
        alc: if tah > 0 { sc(b.alc, ra) } else { b.alc },
        dlf,
        dhf,
        dcr,
        dbs,
        dbc,
        dbm,
        dds,
        dde,
    }
}

/// The battle after at most `n` more rounds; it stops early once either side is down.
pub open spec fn battle(b: Battle, tah: u64, tas: u64, tdh: u64, tds: u64, n: nat) -> Battle
    decreases n,
{
    if n == 0 || b.ah == 0 || defender_down(b) {
        b
    } else {
        battle(round(b, tah, tas, tdh, tds), tah, tas, tdh, tds, (n - 1) as nat)
    }
}

/// Fights one round.
fn fight_round(b: &mut Battle, tah: u64, tas: u64, tdh: u64, tds: u64)
    requires
        old(b).ah <= tah,
        old(b).dh <= tdh,
        old(b).rounds < 255,
    ensures
        *final(b) == round(*old(b), tah, tas, tdh, tds),
        final(b).ah <= tah,
        final(b).dh <= tdh,
{
    let ad = atk_of(b.alf, b.ahf, b.acr, b.abs, b.abc, b.abm, b.ads, b.ade) + b.asc as u64 * 5 + b.alc as u64 * 5;
    if b.dsh >= ad {
        b.dsh = b.dsh - ad;
    } else {
        b.dh = b.dh.saturating_sub(ad - b.dsh);
        b.dsh = 0;
    }
    if tdh > 0 {
        let r = crate::num::sat_mul(b.dh, 1_000) / tdh;
        proof {
            assert(crate::num::clamp_u64(b.dh * 1_000) <= tdh * 1_000) by (nonlinear_arith)
                requires
                    b.dh <= tdh,
            ;
            assert(crate::num::clamp_u64(b.dh * 1_000) / tdh <= 1_000) by (nonlinear_arith)
                requires
                    crate::num::clamp_u64(b.dh * 1_000) <= tdh * 1_000,
                    tdh > 0,
            ;
        }
        b.dlf = scale(b.dlf, r);
        b.dhf = scale(b.dhf, r);
        b.dcr = scale(b.dcr, r);
        b.dbs = scale(b.dbs, r);
        b.dbc = scale(b.dbc, r);
        b.dbm = scale(b.dbm, r);
        b.dds = scale(b.dds, r);
        b.dde = scale(b.dde, r);
    }
    let dd = atk_of(b.dlf, b.dhf, b.dcr, b.dbs, b.dbc, b.dbm, b.dds, b.dde);
    if b.ash >= dd {
        b.ash = b.ash - dd;
    } else {
        b.ah = b.ah.saturating_sub(dd - b.ash);
        b.ash = 0;
    }
    if tah > 0 {
        let r = crate::num::sat_mul(b.ah, 1_000) / tah;
        proof {
            assert(crate::num::clamp_u64(b.ah * 1_000) <= tah * 1_000) by (nonlinear_arith)
                requires
                    b.ah <= tah,
            ;
            assert(crate::num::clamp_u64(b.ah * 1_000) / tah <= 1_000) by (nonlinear_arith)
                requires
                    crate::num::clamp_u64(b.ah * 1_000) <= tah * 1_000,
                    tah > 0,
            ;
        }
        b.alf = scale(b.alf, r);
        b.ahf = scale(b.ahf, r);
        b.acr = scale(b.acr, r);
        b.abs = scale(b.abs, r);
        b.abc = scale(b.abc, r);
        b.abm = scale(b.abm, r);
        b.ads = scale(b.ads, r);
        b.ade = scale(b.ade, r);
        b.asc = scale(b.asc, r);
        b.alc = scale(b.alc, r);
    }
    b.ash = tas;
    b.dsh = tds;
    b.rounds = b.rounds + 1;
}

/// The battle as it starts: the mission's ships against the defender's stationed warships.
pub open spec fn opening(m: FleetMission, d: Fleet) -> Battle {
    Battle {
        ah: (hul(m.light_fighter, m.heavy_fighter, m.cruiser, m.battleship, m.battlecruiser, m.bomber, m.destroyer, m.deathstar) + m.small_cargo * 800 + m.large_cargo * 3_500) as u64,
        ash: shd(m.light_fighter, m.heavy_fighter, m.cruiser, m.battleship, m.battlecruiser, m.bomber, m.destroyer, m.deathstar) as u64,
        dh: hul(d.light_fighter, d.heavy_fighter, d.cruiser, d.battleship, d.battlecruiser, d.bomber, d.destroyer, d.deathstar) as u64,
        dsh: shd(d.light_fighter, d.heavy_fighter, d.cruiser, d.battleship, d.battlecruiser, d.bomber, d.destroyer, d.deathstar) as u64,
        rounds: 0,
        alf: m.light_fighter,
        ahf: m.heavy_fighter,
        acr: m.cruiser,
        abs: m.battleship,
        abc: m.battlecruiser,
        abm: m.bomber,
        ads: m.destroyer,
        ade: m.deathstar,
        asc: m.small_cargo,
        alc: m.large_cargo,
        dlf: d.light_fighter,
        dhf: d.heavy_fighter,
        dcr: d.cruiser,
        dbs: d.battleship,
        dbc: d.battlecruiser,
        dbm: d.bomber,
        dds: d.destroyer,
        dde: d.deathstar,
    }
}

/// The battle as it ends.
pub open spec fn outcome(m: FleetMission, d: Fleet) -> Battle {
    let o = opening(m, d);
    battle(o, o.ah, o.ash, o.dh, o.dsh, MAX_ROUNDS as nat)
}

/// The cargo room of a mission's ships.
pub open spec fn mission_cargo_capacity_spec(m: FleetMission) -> int {
    m.small_cargo * 5_000 + m.large_cargo * 25_000 + m.recycler * 20_000 + m.cruiser * 800 + m.battleship * 1_500
}

/// The cargo room of a mission's ships.
pub fn mission_cargo_capacity(m: &FleetMission) -> (r: u64)
    ensures
        r == mission_cargo_capacity_spec(*m),
{
    m.small_cargo as u64 * 5_000 + m.large_cargo as u64 * 25_000 + m.recycler as u64 * 20_000 + m.cruiser as u64 * 800
        + m.battleship as u64 * 1_500
}

/// The share of a stock the winner takes: half of it, at most a third of the cargo room.
pub open spec fn plunder(stock: u64, cap: u64) -> u64 {
    if stock / 2 < cap / 3 {
        stock / 2
    } else {
        cap / 3
    }
}

/// The mission once the battle `b` is over: its surviving ships.
pub open spec fn surviving_mission(m: FleetMission, b: Battle) -> FleetMission {
    FleetMission {
        light_fighter: b.alf,
        heavy_fighter: b.ahf,
        cruiser: b.acr,
        battleship: b.abs,
        battlecruiser: b.abc,
        bomber: b.abm,
        destroyer: b.ads,
        deathstar: b.ade,
        small_cargo: b.asc,
        large_cargo: b.alc,
        ..m
    }
}

/// What resolving the attack in `slot` at `now` leaves of the four components, and the answer.
pub open spec fn attack_spec(af: Fleet, ar: Resources, df: Fleet, dr0: Resources, slot: usize, now: i64) -> (Fleet, Resources, Fleet, Resources, Result<BattleResult, E>) {
    let m0 = af.missions[slot_index(slot)];
    if slot >= 4 {
        (af, ar, df, dr0, Err(E::InvalidSlot))
    } else if m0.mission_type != ATTACK_MISSION {
        (af, ar, df, dr0, Err(E::NotAttack))
    } else if m0.applied {
        (af, ar, df, dr0, Err(E::AlreadyApplied))
    } else if now < m0.arrive_ts {
        (af, ar, df, dr0, Err(E::NotArrived))
    } else {
        let dr = settled_resources(dr0, now);
        let b = outcome(m0, df);
        let wins = b.ah > 0 && defender_down(b);
        let df1 = Fleet {
            light_fighter: b.dlf,
            heavy_fighter: b.dhf,
            cruiser: b.dcr,
            battleship: b.dbs,
            battlecruiser: b.dbc,
            bomber: b.dbm,
            destroyer: b.dds,
            deathstar: b.dde,
            ..df
        };
        let m1 = surviving_mission(m0, b);
        let cap = mission_cargo_capacity_spec(m1) as u64;
        let (sm, sc2, sd) = if wins { (plunder(dr.metal, cap), plunder(dr.crystal, cap), plunder(dr.deuterium, cap)) } else { (0u64, 0u64, 0u64) };
        let dr1 = Resources { metal: (dr.metal - sm) as u64, crystal: (dr.crystal - sc2) as u64, deuterium: (dr.deuterium - sd) as u64, ..dr };
        let m2 = if wins { FleetMission { cargo_metal: sm, cargo_crystal: sc2, cargo_deuterium: sd, ..m1 } } else { m1 };
        let m3 = FleetMission { applied: true, return_ts: (now + (m0.arrive_ts - m0.depart_ts)) as i64, ..m2 };
        let result = Ok(BattleResult { attacker_wins: wins, rounds: b.rounds });
        if now >= m3.return_ts {
            let home = Fleet {
                light_fighter: af.light_fighter.saturating_add(m3.light_fighter),
                heavy_fighter: af.heavy_fighter.saturating_add(m3.heavy_fighter),
                cruiser: af.cruiser.saturating_add(m3.cruiser),
                battleship: af.battleship.saturating_add(m3.battleship),
                battlecruiser: af.battlecruiser.saturating_add(m3.battlecruiser),
                bomber: af.bomber.saturating_add(m3.bomber),
                destroyer: af.destroyer.saturating_add(m3.destroyer),
                deathstar: af.deathstar.saturating_add(m3.deathstar),
                small_cargo: af.small_cargo.saturating_add(m3.small_cargo),
                large_cargo: af.large_cargo.saturating_add(m3.large_cargo),
                ..af
            };
            (
                Fleet { active_missions: af.active_missions.saturating_sub(1), ..home.with_mission(slot, empty_fleet_mission()) },
                Resources {
                    metal: ar.metal.saturating_add(m3.cargo_metal),
                    crystal: ar.crystal.saturating_add(m3.cargo_crystal),
                    deuterium: ar.deuterium.saturating_add(m3.cargo_deuterium),
                    ..ar
                },
                df1,
                dr1,
                result,
            )
        } else {
            (af.with_mission(slot, m3), ar, df1, dr1, result)
        }
    }
}

/// Whether the attack runs without a machine-range failure: the defender's settlement fits and
/// the return time fits an `i64`, where they are reached.
pub open spec fn attack_fits(af: Fleet, dr: Resources, slot: usize, now: i64) -> bool {
    let m = af.missions[slot_index(slot)];
    (slot < 4 && m.mission_type == ATTACK_MISSION && !m.applied && now >= m.arrive_ts) ==> {
        &&& settle_resources_fits(dr, now)
        &&& i64::MIN <= m.arrive_ts - m.depart_ts <= i64::MAX
        &&& i64::MIN <= now + (m.arrive_ts - m.depart_ts) <= i64::MAX
    }
}

fn fight(m: &FleetMission, d: &Fleet) -> (b: Battle)
    ensures
        b == outcome(*m, *d),
{
    let ah = hul_of(m.light_fighter, m.heavy_fighter, m.cruiser, m.battleship, m.battlecruiser, m.bomber, m.destroyer, m.deathstar) + m.small_cargo as u64 * 800 + m.large_cargo as u64 * 3_500;
    let ash = shd_of(m.light_fighter, m.heavy_fighter, m.cruiser, m.battleship, m.battlecruiser, m.bomber, m.destroyer, m.deathstar);
    let dh = hul_of(d.light_fighter, d.heavy_fighter, d.cruiser, d.battleship, d.battlecruiser, d.bomber, d.destroyer, d.deathstar);
    let dsh = shd_of(d.light_fighter, d.heavy_fighter, d.cruiser, d.battleship, d.battlecruiser, d.bomber, d.destroyer, d.deathstar);
    let mut b = Battle {
        ah,
        ash,
        dh,
        dsh,
        rounds: 0,
        alf: m.light_fighter,
        ahf: m.heavy_fighter,
        acr: m.cruiser,
        abs: m.battleship,
        abc: m.battlecruiser,
        abm: m.bomber,
        ads: m.destroyer,
        ade: m.deathstar,
        asc: m.small_cargo,
        alc: m.large_cargo,
        dlf: d.light_fighter,
        dhf: d.heavy_fighter,
        dcr: d.cruiser,
        dbs: d.battleship,
        dbc: d.battlecruiser,
        dbm: d.bomber,
        dds: d.destroyer,
        dde: d.deathstar,
    };
    let ghost o = b;
    assert(o == opening(*m, *d));
    let (tah, tas, tdh, tds) = (ah, ash, dh, dsh);
    while b.rounds < MAX_ROUNDS
        invariant
            b.rounds <= MAX_ROUNDS,
            b.ah <= tah,
            b.dh <= tdh,
            o == opening(*m, *d),
            tah == o.ah && tas == o.ash && tdh == o.dh && tds == o.dsh,
            battle(b, tah, tas, tdh, tds, (MAX_ROUNDS - b.rounds) as nat) == battle(o, tah, tas, tdh, tds, MAX_ROUNDS as nat),
        ensures
            battle(b, tah, tas, tdh, tds, (MAX_ROUNDS - b.rounds) as nat) == battle(o, tah, tas, tdh, tds, MAX_ROUNDS as nat),
            b.rounds == MAX_ROUNDS || b.ah == 0 || defender_down(b),
        decreases MAX_ROUNDS - b.rounds,
    {
        let dead_a = b.ah == 0;
        let dead_d = b.dh == 0 || (b.dlf == 0 && b.dhf == 0 && b.dcr == 0 && b.dbs == 0 && b.dbc == 0 && b.dbm == 0 && b.dds == 0 && b.dde == 0);
        if dead_a || dead_d {
            break;
        }
        fight_round(&mut b, tah, tas, tdh, tds);
    }
    b
}

/// Resolves the attack named by the arguments (slot byte, then the time).
#[verifier::rlimit(40)]
pub fn execute(
    attacker_fleet: &mut Fleet,
    attacker_resources: &mut Resources,
    defender_fleet: &mut Fleet,
    defender_resources: &mut Resources,
    args: &[u8],
) -> (r: Result<BattleResult, E>)
    requires
        args.len() >= 9 ==> attack_fits(*old(attacker_fleet), *old(defender_resources), args[0] as usize, i64_at(args@, 1)),
    ensures
        args.len() < 9 ==> r == Err::<BattleResult, E>(E::InvalidArgs) && *final(attacker_fleet) == *old(attacker_fleet)
            && *final(attacker_resources) == *old(attacker_resources) && *final(defender_fleet) == *old(defender_fleet)
            && *final(defender_resources) == *old(defender_resources),
        args.len() >= 9 ==> (*final(attacker_fleet), *final(attacker_resources), *final(defender_fleet), *final(defender_resources), r)
            == attack_spec(
            *old(attacker_fleet),
            *old(attacker_resources),
            *old(defender_fleet),
            *old(defender_resources),
            args[0] as usize,
            i64_at(args@, 1),
        ),
{
    if args.len() < 9 {
        return Err(E::InvalidArgs);
    }
    let slot = args[0] as usize;
    let now = read_i64_at(args, 1);
    if slot >= 4 {
        return Err(E::InvalidSlot);
    }
    let m0 = attacker_fleet.missions[slot];
    if m0.mission_type != ATTACK_MISSION {
        return Err(E::NotAttack);
    }
    if m0.applied {
        return Err(E::AlreadyApplied);
    }
    if now < m0.arrive_ts {
        return Err(E::NotArrived);
    }
    settle_resources(defender_resources, now);
    let b = fight(&m0, defender_fleet);
    let wins = b.ah > 0 && (b.dh == 0 || (b.dlf == 0 && b.dhf == 0 && b.dcr == 0 && b.dbs == 0 && b.dbc == 0 && b.dbm == 0 && b.dds == 0 && b.dde == 0));
    defender_fleet.light_fighter = b.dlf;
    defender_fleet.heavy_fighter = b.dhf;
    defender_fleet.cruiser = b.dcr;
    defender_fleet.battleship = b.dbs;
    defender_fleet.battlecruiser = b.dbc;
    defender_fleet.bomber = b.dbm;
    defender_fleet.destroyer = b.dds;
    defender_fleet.deathstar = b.dde;
    let mut m = FleetMission {
        light_fighter: b.alf,
        heavy_fighter: b.ahf,
        cruiser: b.acr,
        battleship: b.abs,
        battlecruiser: b.abc,
        bomber: b.abm,
        destroyer: b.ads,
        deathstar: b.ade,
        small_cargo: b.asc,
        large_cargo: b.alc,
        ..m0
    };
    if wins {
        let cap = mission_cargo_capacity(&m);
        let sm = if defender_resources.metal / 2 < cap / 3 { defender_resources.metal / 2 } else { cap / 3 };
        let sc2 = if defender_resources.crystal / 2 < cap / 3 { defender_resources.crystal / 2 } else { cap / 3 };
        let sd = if defender_resources.deuterium / 2 < cap / 3 { defender_resources.deuterium / 2 } else { cap / 3 };
        defender_resources.metal = defender_resources.metal - sm;
        defender_resources.crystal = defender_resources.crystal - sc2;
        defender_resources.deuterium = defender_resources.deuterium - sd;
        m.cargo_metal = sm;
        m.cargo_crystal = sc2;
        m.cargo_deuterium = sd;
    }
    m.applied = true;
    m.return_ts = now + (m.arrive_ts - m.depart_ts);
    let result = BattleResult { attacker_wins: wins, rounds: b.rounds };
    if now >= m.return_ts {
        attacker_fleet.light_fighter = attacker_fleet.light_fighter.saturating_add(m.light_fighter);
        attacker_fleet.heavy_fighter = attacker_fleet.heavy_fighter.saturating_add(m.heavy_fighter);
        attacker_fleet.cruiser = attacker_fleet.cruiser.saturating_add(m.cruiser);
        attacker_fleet.battleship = attacker_fleet.battleship.saturating_add(m.battleship);
        attacker_fleet.battlecruiser = attacker_fleet.battlecruiser.saturating_add(m.battlecruiser);
        attacker_fleet.bomber = attacker_fleet.bomber.saturating_add(m.bomber);
        attacker_fleet.destroyer = attacker_fleet.destroyer.saturating_add(m.destroyer);
        attacker_fleet.deathstar = attacker_fleet.deathstar.saturating_add(m.deathstar);
        attacker_fleet.small_cargo = attacker_fleet.small_cargo.saturating_add(m.small_cargo);
        attacker_fleet.large_cargo = attacker_fleet.large_cargo.saturating_add(m.large_cargo);
        attacker_resources.metal = attacker_resources.metal.saturating_add(m.cargo_metal);
        attacker_resources.crystal = attacker_resources.crystal.saturating_add(m.cargo_crystal);
        attacker_resources.deuterium = attacker_resources.deuterium.saturating_add(m.cargo_deuterium);
        attacker_fleet.clear_mission(slot);
        attacker_fleet.active_missions = attacker_fleet.active_missions.saturating_sub(1);
    } else {
        attacker_fleet.replace_mission(slot, m);
    }
    Ok(result)
}

} // verus!
