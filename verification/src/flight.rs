//! Distances, ship speeds and flight times.
use vstd::prelude::*;

use crate::num::{clamp_u64, sat_mul};
use crate::planet::PlanetState;

verus! {

/// Absolute difference of two integers.
pub open spec fn abs_diff(a: int, b: int) -> int {
    if a >= b {
        a - b
    } else {
        b - a
    }
}

fn abs_diff_u64(a: u64, b: u64) -> (r: u64)
    ensures
        r == abs_diff(a as int, b as int),
{
    if a >= b {
        a - b
    } else {
        b - a
    }
}

/// Distance between two coordinates: galaxy jumps weigh 20 000, system jumps 2 000,
/// position steps 200, plus a constant 1 000.
pub open spec fn distance_spec(
    from_galaxy: u16,
    from_system: u16,
    from_position: u8,
    to_galaxy: u16,
    to_system: u16,
    to_position: u8,
) -> int {
    abs_diff(from_galaxy as int, to_galaxy as int) * 20_000 + abs_diff(from_system as int, to_system as int)
        * 2_000 + abs_diff(from_position as int, to_position as int) * 200 + 1_000
}

pub fn distance(
    from_galaxy: u16,
    from_system: u16,
    from_position: u8,
    to_galaxy: u16,
    to_system: u16,
    to_position: u8,
) -> (r: u64)
    ensures
        r == distance_spec(from_galaxy, from_system, from_position, to_galaxy, to_system, to_position),
{
    let galaxy_jump = abs_diff_u64(from_galaxy as u64, to_galaxy as u64) * 20_000;
    let system_jump = abs_diff_u64(from_system as u64, to_system as u64) * 2_000;
    let position_jump = abs_diff_u64(from_position as u64, to_position as u64) * 200;
    galaxy_jump.saturating_add(system_jump).saturating_add(position_jump).saturating_add(1_000)
}

/// Flight time at reference speed: a day per galaxy jump (at least a day), an hour per
/// system jump (at least an hour), five minutes per position step (at least five minutes).
pub open spec fn base_flight_seconds_spec(
    from_galaxy: u16,
    from_system: u16,
    from_position: u8,
    to_galaxy: u16,
    to_system: u16,
    to_position: u8,
) -> int {
    let g = abs_diff(from_galaxy as int, to_galaxy as int);
    let s = abs_diff(from_system as int, to_system as int);
    let p = abs_diff(from_position as int, to_position as int);
    if g > 0 {
        let t = 86_400 * g + 3_600 * s + 300 * p;
        if t >= 86_400 {
            t
        } else {
            86_400
        }
    } else if s > 0 {
        let t = 3_600 * s + 300 * p;
        if t >= 3_600 {
            t
        } else {
            3_600
        }
    } else {
        300 * (if p >= 1 {
            p
        } else {
            1
        })
    }
}

pub fn base_flight_seconds(
    from_galaxy: u16,
    from_system: u16,
    from_position: u8,
    to_galaxy: u16,
    to_system: u16,
    to_position: u8,
) -> (r: u64)
    ensures
        r == base_flight_seconds_spec(
            from_galaxy,
            from_system,
            from_position,
            to_galaxy,
            to_system,
            to_position,
        ),
        r <= 86_400 * 65_535 + 3_600 * 65_535 + 300 * 255,
{
    let g = abs_diff_u64(from_galaxy as u64, to_galaxy as u64);
    let s = abs_diff_u64(from_system as u64, to_system as u64);
    let p = abs_diff_u64(from_position as u64, to_position as u64);
    if g > 0 {
        let t = 86_400u64 * g + 3_600u64 * s + 300u64 * p;
        if t >= 86_400 {
            t
        } else {
            86_400
        }
    } else if s > 0 {
        let t = 3_600u64 * s + 300u64 * p;
        if t >= 3_600 {
            t
        } else {
            3_600
        }
    } else {
        300u64 * (if p >= 1 {
            p
        } else {
            1
        })
    }
}

/// Speed bonus (percent) that astrophysics gives for a flight between the two systems.
pub open spec fn flight_bonus_spec(
    from_galaxy: u16,
    from_system: u16,
    to_galaxy: u16,
    to_system: u16,
    p: PlanetState,
) -> int {
    if from_galaxy == to_galaxy && from_system == to_system {
        if p.astrophysics >= 1 {
            100 + p.astrophysics * 2
        } else {
            100
        }
    } else if from_galaxy == to_galaxy {
        if p.astrophysics >= 1 {
            100 + p.astrophysics * 3
        } else {
            100
        }
    } else if p.astrophysics >= 4 {
        100 + p.astrophysics * 10
    } else {
        100
    }
}

pub fn research_flight_bonus_pct(
    from_galaxy: u16,
    from_system: u16,
    to_galaxy: u16,
    to_system: u16,
    planet: &PlanetState,
) -> (r: u64)
    ensures
        r == flight_bonus_spec(from_galaxy, from_system, to_galaxy, to_system, *planet),
        100 <= r <= 2_650,
{
    let mut bonus: u64 = 100;
    if from_galaxy == to_galaxy && from_system == to_system {
        if planet.astrophysics >= 1 {
            bonus = bonus + planet.astrophysics as u64 * 2;
        }
        return bonus;
    }
    if from_galaxy == to_galaxy {
        if planet.astrophysics >= 1 {
            bonus = bonus + planet.astrophysics as u64 * 3;
        }
        return bonus;
    }
    if planet.astrophysics >= 4 {
        bonus = bonus + planet.astrophysics as u64 * 10;
    }
    bonus
}

/// Speed of ship type `ship_type` with the drive technologies of `p`; 0 for unknown types.
pub open spec fn ship_speed_spec(ship_type: u8, p: PlanetState) -> int {
    let comb = 100 + p.combustion_drive * 10;
    let imp = 100 + p.impulse_drive * 20;
    let hyp = 100 + p.hyperspace_drive * 30;
    match ship_type {
        0 => 5_000 * comb / 100,
        1 => 7_500 * comb / 100,
        2 => 12_500 * comb / 100,
        3 => 10_000 * imp / 100,
        4 => 15_000 * imp / 100,
        5 => 10_000 * hyp / 100,
        6 => 10_000 * hyp / 100,
        7 => 4_000 * imp / 100,
        8 => 5_000 * hyp / 100,
        9 => 100 * hyp / 100,
        10 => 2_000 * comb / 100,
        11 => 100_000_000 * comb / 100,
        12 => 2_500 * imp / 100,
        _ => 0,
    }
}

pub fn ship_speed(ship_type: u8, planet: &PlanetState) -> (r: u64)
    ensures
        r == ship_speed_spec(ship_type, *planet),
{
    let comb: u64 = 100 + planet.combustion_drive as u64 * 10;
    let imp: u64 = 100 + planet.impulse_drive as u64 * 20;
    let hyp: u64 = 100 + planet.hyperspace_drive as u64 * 30;
    match ship_type {
        0 => 5_000u64 * comb / 100,
        1 => 7_500u64 * comb / 100,
        2 => 12_500u64 * comb / 100,
        3 => 10_000u64 * imp / 100,
        4 => 15_000u64 * imp / 100,
        5 => 10_000u64 * hyp / 100,
        6 => 10_000u64 * hyp / 100,
        7 => 4_000u64 * imp / 100,
        8 => 5_000u64 * hyp / 100,
        9 => 100u64 * hyp / 100,
        10 => 2_000u64 * comb / 100,
        11 => 100_000_000u64 * comb / 100,
        12 => 2_500u64 * imp / 100,
        _ => 0,
    }
}

/// `s` lowered to `v` when the ship kind is present.
pub open spec fn take_min(s: int, present: bool, v: int) -> int {
    if present && v < s {
        v
    } else {
        s
    }
}

/// Speed of the slowest present ship, at least 1; 0 when the fleet is empty.
pub open spec fn slowest_fleet_speed_spec(
    p: PlanetState,
    lf: u32,
    hf: u32,
    cr: u32,
    bs: u32,
    bc: u32,
    bm: u32,
    ds: u32,
    de: u32,
    sc: u32,
    lc: u32,
    rec: u32,
    ep: u32,
    col: u32,
) -> int {
    let s0 = u64::MAX as int;
    let s1 = take_min(s0, sc > 0, ship_speed_spec(0, p));
    let s2 = take_min(s1, lc > 0, ship_speed_spec(1, p));
    let s3 = take_min(s2, lf > 0, ship_speed_spec(2, p));
    let s4 = take_min(s3, hf > 0, ship_speed_spec(3, p));
    let s5 = take_min(s4, cr > 0, ship_speed_spec(4, p));
    let s6 = take_min(s5, bs > 0, ship_speed_spec(5, p));
    let s7 = take_min(s6, bc > 0, ship_speed_spec(6, p));
    let s8 = take_min(s7, bm > 0, ship_speed_spec(7, p));
    let s9 = take_min(s8, ds > 0, ship_speed_spec(8, p));
    let s10 = take_min(s9, de > 0, ship_speed_spec(9, p));
    let s11 = take_min(s10, rec > 0, ship_speed_spec(10, p));
    let s12 = take_min(s11, ep > 0, ship_speed_spec(11, p));
    let s13 = take_min(s12, col > 0, ship_speed_spec(12, p));
    if s13 == u64::MAX {
        0
    } else if s13 >= 1 {
        s13
    } else {
        1
    }
}

fn lower(s: u64, present: bool, v: u64) -> (r: u64)
    ensures
        r == take_min(s as int, present, v as int),
{
    if present && v < s {
        v
    } else {
        s
    }
}

pub fn slowest_fleet_speed(
    planet: &PlanetState,
    lf: u32,
    hf: u32,
    cr: u32,
    bs: u32,
    bc: u32,
    bm: u32,
    ds: u32,
    de: u32,
    sc: u32,
    lc: u32,
    rec: u32,
    ep: u32,
    col: u32,
) -> (r: u64)
    ensures
        r == slowest_fleet_speed_spec(*planet, lf, hf, cr, bs, bc, bm, ds, de, sc, lc, rec, ep, col),
{
    let mut speed = u64::MAX;
    speed = lower(speed, sc > 0, ship_speed(0, planet));
    speed = lower(speed, lc > 0, ship_speed(1, planet));
    speed = lower(speed, lf > 0, ship_speed(2, planet));
    speed = lower(speed, hf > 0, ship_speed(3, planet));
    speed = lower(speed, cr > 0, ship_speed(4, planet));
    speed = lower(speed, bs > 0, ship_speed(5, planet));
    speed = lower(speed, bc > 0, ship_speed(6, planet));
    speed = lower(speed, bm > 0, ship_speed(7, planet));
    speed = lower(speed, ds > 0, ship_speed(8, planet));
    speed = lower(speed, de > 0, ship_speed(9, planet));
    speed = lower(speed, rec > 0, ship_speed(10, planet));
    speed = lower(speed, ep > 0, ship_speed(11, planet));
    speed = lower(speed, col > 0, ship_speed(12, planet));
    if speed == u64::MAX {
        0
    } else if speed >= 1 {
        speed
    } else {
        1
    }
}

/// Speed the fleet effectively travels at: fleet speed (at least 1) times the speed
/// factor (clamped to 10..=100) times the astrophysics bonus, over 100, saturating.
pub open spec fn effective_speed_spec(fleet_speed: u64, sf: int, bonus: int) -> int {
    let f = if fleet_speed >= 1 {
        fleet_speed
    } else {
        1
    };
    clamp_u64(clamp_u64(f * sf) * bonus) as int / 100
}

/// The speed factor clamped to 10..=100.
pub open spec fn clamp_speed_factor(speed_factor: u8) -> int {
    if speed_factor < 10 {
        10
    } else if speed_factor > 100 {
        100
    } else {
        speed_factor as int
    }
}

/// One-way flight time of a mission: the reference time scaled by the reference speed
/// (500 000) over the effective speed, at least one second.
pub open spec fn mission_flight_seconds_spec(
    from_galaxy: u16,
    from_system: u16,
    from_position: u8,
    to_galaxy: u16,
    to_system: u16,
    to_position: u8,
    speed_factor: u8,
    fleet_speed: u64,
    p: PlanetState,
) -> int {
    let base = base_flight_seconds_spec(
        from_galaxy,
        from_system,
        from_position,
        to_galaxy,
        to_system,
        to_position,
    );
    let eff = effective_speed_spec(
        fleet_speed,
        clamp_speed_factor(speed_factor),
        flight_bonus_spec(from_galaxy, from_system, to_galaxy, to_system, p),
    );
    let t = base * 500_000 / (if eff >= 1 {
        eff
    } else {
        1
    });
    if t >= 1 {
        t
    } else {
        1
    }
}

pub fn mission_flight_seconds(
    from_galaxy: u16,
    from_system: u16,
    from_position: u8,
    to_galaxy: u16,
    to_system: u16,
    to_position: u8,
    speed_factor: u8,
    fleet_speed: u64,
    planet: &PlanetState,
) -> (r: i64)
    ensures
        r == mission_flight_seconds_spec(
            from_galaxy,
            from_system,
            from_position,
            to_galaxy,
            to_system,
            to_position,
            speed_factor,
            fleet_speed,
            *planet,
        ),
        r >= 1,
{
    let sf: u64 = if speed_factor < 10 {
        10
    } else if speed_factor > 100 {
        100
    } else {
        speed_factor as u64
    };
    let base_seconds = base_flight_seconds(
        from_galaxy,
        from_system,
        from_position,
        to_galaxy,
        to_system,
        to_position,
    );
    let f: u64 = if fleet_speed >= 1 {
        fleet_speed
    } else {
        1
    };
    let tech_bonus = research_flight_bonus_pct(from_galaxy, from_system, to_galaxy, to_system, planet);
    let effective_speed = sat_mul(sat_mul(f, sf), tech_bonus) / 100;
    let divisor: u64 = if effective_speed >= 1 {
        effective_speed
    } else {
        1
    };
    let num: u64 = base_seconds * 500_000;
    let t = num / divisor;
    proof {
        assert(t <= num) by (nonlinear_arith)
            requires
                divisor >= 1,
                t == num / divisor,
        ;
    }
    if t >= 1 {
        t as i64
    } else {
        1
    }
}

} // verus!
