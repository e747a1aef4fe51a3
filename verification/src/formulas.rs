//! Costs, timers, capacities and production rates of buildings, research, ships and defenses.
use vstd::prelude::*;

use crate::constants::BASE_STORAGE_CAP;
use crate::error::GameStateError;
use crate::num::{clamp_u64, sat_mul};
use vstd::string::StringSliceAdditionalSpecFns;

verus! {

/// Whether the coordinates name a slot of the universe (galaxy and system 1..=999, position 1..=15).
pub open spec fn valid_coordinates(galaxy: u16, system: u16, position: u8) -> bool {
    1 <= galaxy <= 999 && 1 <= system <= 999 && 1 <= position <= 15
}

pub fn validate_coordinates(galaxy: u16, system: u16, position: u8) -> (r: Result<(), GameStateError>)
    ensures
        r is Ok <==> valid_coordinates(galaxy, system, position),
        r is Err ==> r == Err::<(), GameStateError>(GameStateError::InvalidCoordinates),
{
    if !(1 <= galaxy && galaxy <= 999) {
        return Err(GameStateError::InvalidCoordinates);
    }
    if !(1 <= system && system <= 999) {
        return Err(GameStateError::InvalidCoordinates);
    }
    if !(1 <= position && position <= 15) {
        return Err(GameStateError::InvalidCoordinates);
    }
    Ok(())
}

/// The bytes a stored name is copied from: `value`, or `fallback` when `value` is empty.
pub open spec fn name_source(value: Seq<u8>, fallback: Seq<u8>) -> Seq<u8> {
    if value.len() == 0 {
        fallback
    } else {
        value
    }
}

/// Whether `out` holds the first 32 bytes of the chosen name source, zero-padded.
pub open spec fn is_name_copy(out: [u8; 32], value: Seq<u8>, fallback: Seq<u8>) -> bool {
    forall|i: int|
        0 <= i < 32 ==> out[i] == (if i < name_source(value, fallback).len() {
            name_source(value, fallback)[i]
        } else {
            0u8
        })
}

/// Copies the UTF-8 bytes of `value` (or of `fallback` when `value` is empty) into a
/// zero-padded 32-byte field, cutting what does not fit.
pub fn copy_name(value: &str, fallback: &str) -> (out: [u8; 32])
    ensures
        is_name_copy(out, value.spec_bytes(), fallback.spec_bytes()),
{
    let vb = value.as_bytes();
    let source: &[u8] = if vb.len() == 0 {
        fallback.as_bytes()
    } else {
        vb
    };
    let mut out = [0u8; 32];
    let copy_len: usize = if source.len() < 32 {
        source.len()
    } else {
        32
    };
    let mut i: usize = 0;
    while i < 32
        invariant
            i <= 32,
            copy_len == if source@.len() < 32 { source@.len() } else { 32 },
            source@ == name_source(value.spec_bytes(), fallback.spec_bytes()),
            forall|j: int| 0 <= j < i ==> out[j] == (if j < source@.len() { source@[j] } else { 0u8 }),
            forall|j: int| i <= j < 32 ==> out[j] == 0u8,
        decreases 32 - i,
    {
        if i < copy_len {
            out[i] = source[i];
        }
        i = i + 1;
    }
    out
}

/// 1000 times 1.5 to the power `n`, rounded down at every step.
pub open spec fn pow15_spec(n: nat) -> nat
    decreases n,
{
    if n == 0 {
        1000
    } else {
        pow15_spec((n - 1) as nat) * 3 / 2
    }
}

pub proof fn lemma_pow15_monotonic(i: nat, j: nat)
    requires
        i <= j,
    ensures
        pow15_spec(i) <= pow15_spec(j),
    decreases j - i,
{
    if i < j {
        lemma_pow15_monotonic(i, (j - 1) as nat);
    }
}

/// Whether `pow15` runs without leaving the `u64` range.
pub open spec fn pow15_fits(n: nat) -> bool {
    n == 0 || pow15_spec((n - 1) as nat) * 3 <= u64::MAX
}

pub fn pow15(n: u64) -> (r: u64)
    requires
        pow15_fits(n as nat),
    ensures
        r == pow15_spec(n as nat),
{
    let mut r: u64 = 1_000;
    let mut i: u64 = 0;
    while i < n
        invariant
            i <= n,
            r == pow15_spec(i as nat),
            pow15_fits(n as nat),
        decreases n - i,
    {
        proof {
            lemma_pow15_monotonic(i as nat, (n - 1) as nat);
        }
        r = r * 3 / 2;
        i = i + 1;
    }
    r
}

/// Base (metal, crystal, deuterium) cost of building `idx`.
pub open spec fn base_cost_spec(idx: u8) -> (u32, u32, u32) {
    match idx {
        0 => (60, 15, 0),
        1 => (48, 24, 0),
        2 => (225, 75, 0),
        3 => (75, 30, 0),
        4 => (900, 360, 900),
        5 => (400, 120, 200),
        6 => (1_000_000, 500_000, 100_000),
        7 => (400, 200, 100),
        8 => (1000, 0, 0),
        9 => (1000, 500, 0),
        10 => (1000, 1000, 0),
        11 => (200, 400, 200),
        12 => (20, 20, 0),
        _ => (0, 0, 0),
    }
}

pub fn base_cost(idx: u8) -> (r: (u32, u32, u32))
    ensures
        r == base_cost_spec(idx),
        r.0 <= 1_000_000 && r.1 <= 1_000_000 && r.2 <= 1_000_000,
{
    match idx {
        0 => (60, 15, 0),
        1 => (48, 24, 0),
        2 => (225, 75, 0),
        3 => (75, 30, 0),
        4 => (900, 360, 900),
        5 => (400, 120, 200),
        6 => (1_000_000, 500_000, 100_000),
        7 => (400, 200, 100),
        8 => (1000, 0, 0),
        9 => (1000, 500, 0),
        10 => (1000, 1000, 0),
        11 => (200, 400, 200),
        12 => (20, 20, 0),
        _ => (0, 0, 0),
    }
}

/// The exponent `upgrade_cost` and `build_seconds` use for reaching `level`.
pub open spec fn level_exponent(level: u64) -> nat {
    if level == 0 {
        0
    } else {
        (level - 1) as nat
    }
}

/// Cost (metal, crystal, deuterium) of raising building `idx` to `level`.
pub open spec fn upgrade_cost_spec(idx: u8, level: u64) -> (int, int, int) {
    let (bm, bc, bd) = base_cost_spec(idx);
    let mult = pow15_spec(level_exponent(level));
    ((bm * mult) / 1_000, (bc * mult) / 1_000, (bd * mult) / 1_000)
}

/// Whether the cost of level `level` of building `idx` can be computed in `u64`.
pub open spec fn upgrade_cost_fits(idx: u8, level: u64) -> bool {
    let (bm, bc, bd) = base_cost_spec(idx);
    &&& pow15_fits(level_exponent(level))
    &&& (bm + bc) * pow15_spec(level_exponent(level)) <= u64::MAX
    &&& bd * pow15_spec(level_exponent(level)) <= u64::MAX
}

pub fn upgrade_cost(idx: u8, level: u64) -> (r: (u64, u64, u64))
    requires
        upgrade_cost_fits(idx, level),
    ensures
        r.0 == upgrade_cost_spec(idx, level).0,
        r.1 == upgrade_cost_spec(idx, level).1,
        r.2 == upgrade_cost_spec(idx, level).2,
{
    let (bm, bc, bd) = base_cost(idx);
    let mult = pow15(level.saturating_sub(1));
    proof {
        assert(level.saturating_sub(1) as nat == level_exponent(level));
        assert(bm * mult <= (bm + bc) * mult) by (nonlinear_arith);
        assert(bc * mult <= (bm + bc) * mult) by (nonlinear_arith);
    }
    ((bm as u64 * mult) / 1_000, (bc as u64 * mult) / 1_000, (bd as u64 * mult) / 1_000)
}

/// Seconds needed to raise building `idx` to `level` with the given robotics factory level.
pub open spec fn build_seconds_spec(idx: u8, level: u64, robotics: u64) -> int {
    let (bm, bc, _) = base_cost_spec(idx);
    let total = ((bm + bc) * pow15_spec(level_exponent(level))) / 1_000;
    let per = total / (5 * (1 + robotics));
    if per >= 1 {
        per
    } else {
        1
    }
}

pub fn build_seconds(idx: u8, level: u64, robotics: u64) -> (r: i64)
    requires
        upgrade_cost_fits(idx, level),
        robotics < 1_000,
    ensures
        r == build_seconds_spec(idx, level, robotics),
        r >= 1,
{
    let (bm, bc, _) = base_cost(idx);
    let mult = pow15(level.saturating_sub(1));
    proof {
        assert(level.saturating_sub(1) as nat == level_exponent(level));
    }
    let total = ((bm as u64 + bc as u64) * mult) / 1_000;
    let divisor = 5u64 * (1 + robotics);
    let per = total / divisor;
    proof {
        assert(per <= total);
        assert(total <= u64::MAX / 1_000);
    }
    if per >= 1 {
        per as i64
    } else {
        1
    }
}

/// Base (metal, crystal, deuterium) cost of technology `idx`.
pub open spec fn research_base_cost_spec(idx: u8) -> (u64, u64, u64) {
    match idx {
        0 => (0, 800, 400),
        1 => (400, 0, 600),
        2 => (2000, 4000, 600),
        3 => (10000, 20000, 6000),
        4 => (0, 400, 600),
        5 => (4000, 2000, 1000),
        6 => (240000, 400000, 160000),
        7 => (800, 200, 0),
        8 => (200, 600, 0),
        9 => (1000, 0, 0),
        _ => (0, 0, 0),
    }
}

pub fn research_base_cost(idx: u8) -> (r: (u64, u64, u64))
    ensures
        r == research_base_cost_spec(idx),
{
    match idx {
        0 => (0, 800, 400),
        1 => (400, 0, 600),
        2 => (2000, 4000, 600),
        3 => (10000, 20000, 6000),
        4 => (0, 400, 600),
        5 => (4000, 2000, 1000),
        6 => (240000, 400000, 160000),
        7 => (800, 200, 0),
        8 => (200, 600, 0),
        9 => (1000, 0, 0),
        _ => (0, 0, 0),
    }
}

/// Research lab level that technology `idx` needs; 255 for an unknown technology.
pub open spec fn research_lab_requirement_spec(idx: u8) -> u8 {
    match idx {
        0 | 1 | 4 | 7 | 8 | 9 => 1,
        5 => 3,
        2 => 5,
        3 => 7,
        6 => 10,
        _ => 255,
    }
}

pub fn research_lab_requirement(idx: u8) -> (r: u8)
    ensures
        r == research_lab_requirement_spec(idx),
{
    match idx {
        0 | 1 | 4 | 7 | 8 | 9 => 1,
        5 => 3,
        2 => 5,
        3 => 7,
        6 => 10,
        _ => 255,
    }
}

/// Two to the power `level`, or `u64::MAX` when the shift leaves the `u64` width.
pub open spec fn pow2_spec(level: u8) -> u64 {
    if level < 64 {
        vstd::arithmetic::power2::pow2(level as nat) as u64
    } else {
        u64::MAX
    }
}

pub fn pow2(level: u8) -> (r: u64)
    ensures
        r == pow2_spec(level),
{
    if level < 64 {
        let mut r: u64 = 1;
        let mut i: u8 = 0;
        proof {
            vstd::arithmetic::power2::lemma2_to64();
        }
        while i < level
            invariant
                i <= level < 64,
                r == vstd::arithmetic::power2::pow2(i as nat),
            decreases level - i,
        {
            proof {
                vstd::arithmetic::power2::lemma_pow2_unfold((i + 1) as nat);
                vstd::arithmetic::power2::lemma_pow2_strictly_increases((i + 1) as nat, 64);
                vstd::arithmetic::power2::lemma2_to64();
            }
            r = r * 2;
            i = i + 1;
        }
        r
    } else {
        u64::MAX
    }
}

/// Cost of researching technology `idx` from level `current` to the next one (saturating).
pub open spec fn research_cost_spec(idx: u8, current: u8) -> (u64, u64, u64) {
    let (m, c, d) = research_base_cost_spec(idx);
    let mult = pow2_spec(current);
    (clamp_u64(m * mult), clamp_u64(c * mult), clamp_u64(d * mult))
}

pub fn research_cost_for_level(idx: u8, current: u8) -> (r: (u64, u64, u64))
    ensures
        r == research_cost_spec(idx, current),
{
    let (m, c, d) = research_base_cost(idx);
    let mult = pow2(current);
    (sat_mul(m, mult), sat_mul(c, mult), sat_mul(d, mult))
}

/// Seconds a research to `next_level` takes with the given lab and network levels.
pub open spec fn research_seconds_spec(next_level: u8, lab_level: u8, igr_network: u8) -> int {
    let speed_bonus = 100 + igr_network * 10;
    let lab = if lab_level >= 1 { lab_level as int } else { 1 };
    let effective_lab = lab * speed_bonus / 100;
    let divisor = if effective_lab >= 1 { effective_lab } else { 1 };
    let secs = (next_level * 1800) / divisor;
    if secs >= 1 {
        secs
    } else {
        1
    }
}

pub fn research_seconds(next_level: u8, lab_level: u8, igr_network: u8) -> (r: i64)
    ensures
        r == research_seconds_spec(next_level, lab_level, igr_network),
        1 <= r <= 255 * 1800,
{
    let speed_bonus: u64 = 100u64 + igr_network as u64 * 10;
    let lab: u64 = if lab_level >= 1 {
        lab_level as u64
    } else {
        1
    };
    proof {
        assert(lab * speed_bonus <= 255 * 2650) by (nonlinear_arith)
            requires
                lab <= 255,
                speed_bonus <= 2650,
        ;
    }
    let effective_lab = lab * speed_bonus / 100;
    let divisor: u64 = if effective_lab >= 1 {
        effective_lab
    } else {
        1
    };
    let secs = (next_level as u64 * 1800) / divisor;
    proof {
        assert(secs <= next_level as u64 * 1800) by (nonlinear_arith)
            requires
                divisor >= 1,
                secs as int == (next_level as u64 * 1800) as int / divisor as int,
        ;
    }
    if secs >= 1 {
        secs as i64
    } else {
        1
    }
}

/// Base (metal, crystal, deuterium) cost of one ship of type `ship_type`.
pub open spec fn ship_cost_spec(ship_type: u8) -> (u64, u64, u64) {
    match ship_type {
        0 => (2000, 2000, 0),
        1 => (6000, 6000, 0),
        2 => (3000, 1000, 0),
        3 => (6000, 4000, 0),
        4 => (20000, 7000, 2000),
        5 => (45000, 15000, 0),
        6 => (30000, 40000, 15000),
        7 => (50000, 25000, 15000),
        8 => (60000, 50000, 15000),
        9 => (5000000, 4000000, 1000000),
        10 => (10000, 6000, 2000),
        11 => (0, 1000, 0),
        12 => (10000, 20000, 10000),
        13 => (0, 2000, 500),
        _ => (0, 0, 0),
    }
}

pub fn ship_cost(ship_type: u8) -> (r: (u64, u64, u64))
    ensures
        r == ship_cost_spec(ship_type),
        r.0 <= 5_000_000 && r.1 <= 5_000_000 && r.2 <= 5_000_000,
{
    match ship_type {
        0 => (2000, 2000, 0),
        1 => (6000, 6000, 0),
        2 => (3000, 1000, 0),
        3 => (6000, 4000, 0),
        4 => (20000, 7000, 2000),
        5 => (45000, 15000, 0),
        6 => (30000, 40000, 15000),
        7 => (50000, 25000, 15000),
        8 => (60000, 50000, 15000),
        9 => (5000000, 4000000, 1000000),
        10 => (10000, 6000, 2000),
        11 => (0, 1000, 0),
        12 => (10000, 20000, 10000),
        13 => (0, 2000, 500),
        _ => (0, 0, 0),
    }
}

/// Base (metal, crystal, deuterium) cost of one defense of type `defense_type`.
pub open spec fn defense_cost_spec(defense_type: u8) -> (u64, u64, u64) {
    match defense_type {
        0 => (2000, 0, 0),
        1 => (1500, 500, 0),
        2 => (6000, 2000, 0),
        3 => (20000, 15000, 2000),
        4 => (2000, 6000, 0),
        5 => (50000, 50000, 30000),
        6 => (10000, 10000, 0),
        7 => (50000, 50000, 0),
        8 => (8000, 0, 2000),
        9 => (12500, 2500, 10000),
        _ => (0, 0, 0),
    }
}

pub fn defense_cost(defense_type: u8) -> (r: (u64, u64, u64))
    ensures
        r == defense_cost_spec(defense_type),
        r.0 <= 50_000 && r.1 <= 50_000 && r.2 <= 30_000,
{
    match defense_type {
        0 => (2000, 0, 0),
        1 => (1500, 500, 0),
        2 => (6000, 2000, 0),
        3 => (20000, 15000, 2000),
        4 => (2000, 6000, 0),
        5 => (50000, 50000, 30000),
        6 => (10000, 10000, 0),
        7 => (50000, 50000, 0),
        8 => (8000, 0, 2000),
        9 => (12500, 2500, 10000),
        _ => (0, 0, 0),
    }
}

/// Shipyard throughput: shipyard level (at least 1) times two to the nanite level, saturating.
pub open spec fn shipyard_speed_spec(shipyard: u8, nanite: u8) -> u64 {
    let s = clamp_u64((if shipyard >= 1 { shipyard as int } else { 1 }) * vstd::arithmetic::power2::pow2(
        nanite as nat,
    ));
    if s >= 1 {
        s
    } else {
        1
    }
}

/// Seconds a batch takes when `total_cost` resources are built at `speed`, given the
/// cost that takes five minutes at speed one; never less than five minutes.
pub open spec fn batch_seconds_spec(total_cost: u64, speed: u64, cost_for_five_minutes: u64) -> int {
    let t = clamp_u64(total_cost * 300) as int / clamp_u64(cost_for_five_minutes * speed) as int;
    if t >= 300 {
        t
    } else {
        300
    }
}

fn shipyard_speed(shipyard: u8, nanite: u8) -> (r: u64)
    requires
        nanite < 64,
    ensures
        r == shipyard_speed_spec(shipyard, nanite),
        r >= 1,
{
    let lvl: u64 = if shipyard >= 1 {
        shipyard as u64
    } else {
        1
    };
    let p = pow2(nanite);
    proof {
        vstd::arithmetic::power2::lemma_pow2_strictly_increases(nanite as nat, 64);
        vstd::arithmetic::power2::lemma2_to64();
        assert(p == vstd::arithmetic::power2::pow2(nanite as nat));
    }
    let s = sat_mul(lvl, p);
    if s >= 1 {
        s
    } else {
        1
    }
}

fn batch_seconds(total_cost: u64, speed: u64, cost_for_five_minutes: u64) -> (r: i64)
    requires
        speed >= 1,
        cost_for_five_minutes >= 2,
    ensures
        r == batch_seconds_spec(total_cost, speed, cost_for_five_minutes),
{
    let num = sat_mul(total_cost, 300);
    let den = sat_mul(cost_for_five_minutes, speed);
    proof {
        assert(cost_for_five_minutes * speed >= 2) by (nonlinear_arith)
            requires
                speed >= 1,
                cost_for_five_minutes >= 2,
        ;
    }
    let t = num / den;
    proof {
        assert(den >= 2);
        assert(t <= num / 2) by (nonlinear_arith)
            requires
                den >= 2,
                t == num / den,
        ;
    }
    if t >= 300 {
        t as i64
    } else {
        300
    }
}

/// Seconds the shipyard needs for `quantity` ships of type `ship_type`.
pub open spec fn ship_build_seconds_spec(ship_type: u8, quantity: u32, shipyard: u8, nanite: u8) -> int {
    let (m, c, d) = ship_cost_spec(ship_type);
    batch_seconds_spec(
        clamp_u64((m + c + d) * quantity),
        shipyard_speed_spec(shipyard, nanite),
        1_000,
    )
}

pub fn ship_build_seconds(ship_type: u8, quantity: u32, shipyard: u8, nanite: u8) -> (r: i64)
    requires
        nanite < 64,
    ensures
        r == ship_build_seconds_spec(ship_type, quantity, shipyard, nanite),
        r >= 300,
{
    let (m, c, d) = ship_cost(ship_type);
    let total = sat_mul(m + c + d, quantity as u64);
    let speed = shipyard_speed(shipyard, nanite);
    batch_seconds(total, speed, 1_000)
}

/// Seconds the shipyard needs for `quantity` defenses of type `defense_type`.
pub open spec fn defense_build_seconds_spec(
    defense_type: u8,
    quantity: u32,
    shipyard: u8,
    nanite: u8,
) -> int {
    let (m, c, d) = defense_cost_spec(defense_type);
    batch_seconds_spec(
        clamp_u64((m + c + d) * quantity),
        shipyard_speed_spec(shipyard, nanite),
        2_000,
    )
}

pub fn defense_build_seconds(defense_type: u8, quantity: u32, shipyard: u8, nanite: u8) -> (r: i64)
    requires
        nanite < 64,
    ensures
        r == defense_build_seconds_spec(defense_type, quantity, shipyard, nanite),
        r >= 300,
{
    let (m, c, d) = defense_cost(defense_type);
    let total = sat_mul(m + c + d, quantity as u64);
    let speed = shipyard_speed(shipyard, nanite);
    batch_seconds(total, speed, 2_000)
}

/// Cargo capacity of a fleet: small and large cargo, recyclers, cruisers and battleships.
pub open spec fn cargo_capacity_spec(sc: u32, lc: u32, rec: u32, cr: u32, bs: u32) -> int {
    sc * 5_000 + lc * 25_000 + rec * 20_000 + cr * 800 + bs * 1_500
}

pub fn cargo_capacity(sc: u32, lc: u32, rec: u32, cr: u32, bs: u32) -> (r: u64)
    ensures
        r == cargo_capacity_spec(sc, lc, rec, cr, bs),
{
    sc as u64 * 5_000 + lc as u64 * 25_000 + rec as u64 * 20_000 + cr as u64 * 800 + bs as u64
        * 1_500
}

/// Combat strength of a fleet, used to gate attacks and in espionage scores.
pub open spec fn fleet_combat_points_spec(
    lf: u32,
    hf: u32,
    cr: u32,
    bs: u32,
    bc: u32,
    bm: u32,
    ds: u32,
    de: u32,
    sc: u32,
    lc: u32,
    rec: u32,
    ep: u32,
    col: u32,
) -> int {
    lf * 50 + hf * 150 + cr * 400 + bs * 1_000 + bc * 700 + bm * 1_000 + ds * 2_000 + de * 200_000
        + sc * 5 + lc * 5 + rec + ep + col * 50
}

pub fn fleet_combat_points(
    lf: u32,
    hf: u32,
    cr: u32,
    bs: u32,
    bc: u32,
    bm: u32,
    ds: u32,
    de: u32,
    sc: u32,
    lc: u32,
    rec: u32,
    ep: u32,
    col: u32,
) -> (r: u64)
    ensures
        r == fleet_combat_points_spec(lf, hf, cr, bs, bc, bm, ds, de, sc, lc, rec, ep, col),
{
    lf as u64 * 50 + hf as u64 * 150 + cr as u64 * 400 + bs as u64 * 1_000 + bc as u64 * 700
        + bm as u64 * 1_000 + ds as u64 * 2_000 + de as u64 * 200_000 + sc as u64 * 5 + lc as u64
        * 5 + rec as u64 + ep as u64 + col as u64 * 50
}

/// Deuterium a fleet burns to fly at `speed_factor` percent.
pub open spec fn launch_fuel_cost_spec(
    lf: u32,
    hf: u32,
    cr: u32,
    bs: u32,
    bc: u32,
    bm: u32,
    ds: u32,
    sc: u32,
    lc: u32,
    rec: u32,
    ep: u32,
    col: u32,
    speed_factor: u8,
) -> int {
    (sc * 10 + lc * 50 + lf * 20 + hf * 75 + cr * 300 + bs * 500 + bc * 250 + bm * 1_000 + ds
        * 1_000 + rec * 300 + ep + col * 1_000) * (speed_factor * speed_factor) / 10_000
}

pub fn launch_fuel_cost(
    lf: u32,
    hf: u32,
    cr: u32,
    bs: u32,
    bc: u32,
    bm: u32,
    ds: u32,
    de: u32,
    sc: u32,
    lc: u32,
    rec: u32,
    ep: u32,
    col: u32,
    speed_factor: u8,
) -> (r: u64)
    ensures
        r == launch_fuel_cost_spec(lf, hf, cr, bs, bc, bm, ds, sc, lc, rec, ep, col, speed_factor),
{
    let base: u64 = sc as u64 * 10 + lc as u64 * 50 + lf as u64 * 20 + hf as u64 * 75 + cr as u64
        * 300 + bs as u64 * 500 + bc as u64 * 250 + bm as u64 * 1_000 + ds as u64 * 1_000
        + rec as u64 * 300 + ep as u64 + col as u64 * 1_000;
    let sf: u64 = speed_factor as u64;
    proof {
        assert(base <= 5_000 * 0xffff_ffff);
        assert(sf * sf <= 255 * 255) by (nonlinear_arith)
            requires
                sf <= 255,
        ;
        assert(base * (sf * sf) <= 5_000 * 0xffff_ffff * (255 * 255)) by (nonlinear_arith)
            requires
                base <= 5_000 * 0xffff_ffff,
                sf * sf <= 255 * 255,
        ;
    }
    let sq: u64 = sf * sf;
    assert(5_000 * 0xffff_ffffu64 * (255 * 255) <= u64::MAX);
    let prod: u64 = base * sq;
    prod / 10_000
}

/// `b` to the power `e`.
pub open spec fn pow_nat(b: nat, e: nat) -> nat
    decreases e,
{
    if e == 0 {
        1
    } else {
        b * pow_nat(b, (e - 1) as nat)
    }
}

pub proof fn lemma_pow_nat_monotonic(b: nat, i: nat, j: nat)
    requires
        b >= 1,
        i <= j,
    ensures
        1 <= pow_nat(b, i) <= pow_nat(b, j),
    decreases j,
{
    if j > 0 {
        if i < j {
            lemma_pow_nat_monotonic(b, i, (j - 1) as nat);
        } else {
            lemma_pow_nat_monotonic(b, 0, (j - 1) as nat);
        }
        assert(pow_nat(b, (j - 1) as nat) >= 1);
        assert(b * pow_nat(b, (j - 1) as nat) >= pow_nat(b, (j - 1) as nat)) by (nonlinear_arith)
            requires
                b >= 1,
                pow_nat(b, (j - 1) as nat) >= 1,
        ;
    }
}

pub proof fn lemma_pow_nat_base_monotonic(a: nat, b: nat, e: nat)
    requires
        a <= b,
    ensures
        pow_nat(a, e) <= pow_nat(b, e),
    decreases e,
{
    if e > 0 {
        lemma_pow_nat_base_monotonic(a, b, (e - 1) as nat);
        let pa = pow_nat(a, (e - 1) as nat);
        let pb = pow_nat(b, (e - 1) as nat);
        assert(a * pa <= b * pb) by (nonlinear_arith)
            requires
                a <= b,
                pa <= pb,
        ;
    }
}

/// Hourly output of a building at `level`: `base * level * 11^level / 10^level`, zero at level 0.
pub open spec fn mine_rate_spec(level: u8, base: u64) -> int {
    if level == 0 {
        0
    } else {
        base * level * pow_nat(11, level as nat) / pow_nat(10, level as nat) as int
    }
}

/// Whether `mine_rate(level, base)` is computed without leaving the `u64` range.
pub open spec fn mine_rate_fits(level: u8, base: u64) -> bool {
    level == 0 || (pow_nat(11, level as nat) <= u64::MAX && base * level * pow_nat(11, level as nat)
        <= u64::MAX)
}

pub fn mine_rate(level: u8, base: u64) -> (r: u64)
    requires
        mine_rate_fits(level, base),
    ensures
        r == mine_rate_spec(level, base),
{
    if level == 0 {
        return 0;
    }
    let mut p11: u64 = 1;
    let mut p10: u64 = 1;
    let mut i: u8 = 0;
    while i < level
        invariant
            i <= level,
            level >= 1,
            mine_rate_fits(level, base),
            p11 == pow_nat(11, i as nat),
            p10 == pow_nat(10, i as nat),
        decreases level - i,
    {
        proof {
            lemma_pow_nat_monotonic(11, (i + 1) as nat, level as nat);
            lemma_pow_nat_base_monotonic(10, 11, (i + 1) as nat);
        }
        p11 = p11 * 11;
        p10 = p10 * 10;
        i = i + 1;
    }
    proof {
        lemma_pow_nat_monotonic(10, 0, level as nat);
        lemma_pow_nat_monotonic(11, 0, level as nat);
        assert(base * level <= base * level * p11) by (nonlinear_arith)
            requires
                p11 >= 1,
        ;
    }
    base * (level as u64) * p11 / p10
}

/// Capacity of a storage building at `level`.
pub open spec fn store_cap_spec(level: u8) -> int {
    BASE_STORAGE_CAP * vstd::arithmetic::power2::pow2(level as nat)
}

pub fn store_cap(level: u8) -> (r: u64)
    requires
        store_cap_spec(level) <= u64::MAX,
        level < 64,
    ensures
        r == store_cap_spec(level),
{
    if level == 0 {
        proof {
            vstd::arithmetic::power2::lemma2_to64();
        }
        BASE_STORAGE_CAP
    } else {
        let p = pow2(level);
        proof {
            vstd::arithmetic::power2::lemma_pow2_strictly_increases(level as nat, 64);
            vstd::arithmetic::power2::lemma2_to64();
        }
        BASE_STORAGE_CAP * p
    }
}

/// Energy one solar satellite yields at the given planet temperature.
pub open spec fn solar_satellite_energy_spec(temperature: i16) -> int {
    let t = if temperature + 160 >= 6 { temperature + 160 } else { 6 };
    let e = t / 6;
    if e >= 1 {
        e
    } else {
        1
    }
}

pub fn solar_satellite_energy(temperature: i16) -> (r: u64)
    ensures
        r == solar_satellite_energy_spec(temperature),
        r <= 6000,
{
    let t: i32 = if temperature as i32 + 160 >= 6 {
        temperature as i32 + 160
    } else {
        6
    };
    let e: u64 = t as u64 / 6;
    if e >= 1 {
        e
    } else {
        1
    }
}

} // verus!
