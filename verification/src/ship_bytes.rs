//! The shipyard fast paths, which read and write a planet record's bytes in place.
use vstd::prelude::*;

use crate::bytes::{
    i64_at, put_i64, put_u32, put_u64, put_u8, read_i64_at, read_u32_at, read_u64_at, read_u8_at,
    u32_at, u64_at, write_i64_at, write_u32_at, write_u64_at, write_u8_at,
};
use crate::constants::MAX_RESOURCE_SETTLEMENT_SECONDS;
use crate::error::GameStateError;
use crate::formulas::{
    defense_build_seconds, defense_build_seconds_spec, defense_cost, defense_cost_spec,
    ship_build_seconds, ship_build_seconds_spec, ship_cost, ship_cost_spec,
};
use crate::num::{clamp_i64, clamp_u64, sat_add_i64, sat_mul};
use crate::planet_bytes::PLANET_FULL_MIN_LEN;

verus! {

/// A product of two `u128` values, saturated at the largest `u128`.
pub open spec fn sat_mul_u128(a: u128, b: u128) -> u128 {
    if a * b > u128::MAX {
        u128::MAX
    } else {
        (a * b) as u128
    }
}

fn mul_u128_saturating(a: u128, b: u128) -> (r: u128)
    ensures
        r == sat_mul_u128(a, b),
{
    match a.checked_mul(b) {
        Some(v) => v,
        None => u128::MAX,
    }
}

/// The production of `dt` seconds at `rate` per hour, scaled by the energy ratio
/// `eff_num / eff_den` and truncated to 64 bits as the fast path stores it.
pub open spec fn byte_gain(rate: u64, dt: u64, eff_num: u128, eff_den: u128) -> u64 {
    (sat_mul_u128(sat_mul_u128(rate as u128, dt as u128), eff_num) / 3600 / eff_den) as u64
}

/// The energy ratio the fast path applies: full where nothing consumes energy or production
/// covers consumption, production over consumption otherwise.
pub open spec fn byte_efficiency(d: Seq<u8>) -> (u128, u128) {
    let prod = u64_at(d, 214);
    let cons = u64_at(d, 222);
    if cons == 0 || prod >= cons {
        (1, 1)
    } else {
        (prod as u128, cons as u128)
    }
}

/// A balance raised by `gain`, saturated and then capped.
pub open spec fn raised(current: u64, gain: u64, cap: u64) -> u64 {
    let t = clamp_u64(current + gain);
    if t < cap {
        t
    } else {
        cap
    }
}

/// The metal, crystal and deuterium the fast path settles to at `now` from the record bytes `d`.
pub open spec fn byte_settled(d: Seq<u8>, now: i64) -> (u64, u64, u64) {
    let last = i64_at(d, 254);
    let m = u64_at(d, 166);
    let c = u64_at(d, 174);
    let de = u64_at(d, 182);
    if last <= 0 {
        (m, c, de)
    } else {
        let diff = now - last;
        let dt: u64 = if diff < MAX_RESOURCE_SETTLEMENT_SECONDS { diff as u64 } else { MAX_RESOURCE_SETTLEMENT_SECONDS as u64 };
        if dt == 0 {
            (m, c, de)
        } else {
            let (n, q) = byte_efficiency(d);
            (
                raised(m, byte_gain(u64_at(d, 190), dt, n, q), u64_at(d, 230)),
                raised(c, byte_gain(u64_at(d, 198), dt, n, q), u64_at(d, 238)),
                raised(de, byte_gain(u64_at(d, 206), dt, n, q), u64_at(d, 246)),
            )
        }
    }
}

fn gain_of(rate: u64, dt: u64, eff_num: u128, eff_den: u128) -> (g: u64)
    requires
        eff_den > 0,
    ensures
        g == byte_gain(rate, dt, eff_num, eff_den),
{
    let a = mul_u128_saturating(rate as u128, dt as u128);
    let b = mul_u128_saturating(a, eff_num);
    let q: u128 = b / 3600 / eff_den;
    (#[verifier::truncate] (q as u64))
}

fn raise(current: u64, gain: u64, cap: u64) -> (r: u64)
    ensures
        r == raised(current, gain, cap),
{
    let t = current.saturating_add(gain);
    if t < cap {
        t
    } else {
        cap
    }
}

/// Settles the stock in the record bytes at `now` without writing it.
fn settle_bytes(data: &Vec<u8>, now: i64) -> (r: (u64, u64, u64))
    requires
        data@.len() >= PLANET_FULL_MIN_LEN,
        i64_at(data@, 254) <= now,
    ensures
        r == byte_settled(data@, now),
{
    let last = read_i64_at(data.as_slice(), 254);
    let m = read_u64_at(data.as_slice(), 166);
    let c = read_u64_at(data.as_slice(), 174);
    let de = read_u64_at(data.as_slice(), 182);
    if last <= 0 {
        return (m, c, de);
    }
    let diff: i64 = now - last;
    let dt: u64 = if diff < MAX_RESOURCE_SETTLEMENT_SECONDS { diff as u64 } else { MAX_RESOURCE_SETTLEMENT_SECONDS as u64 };
    if dt == 0 {
        return (m, c, de);
    }
    let prod = read_u64_at(data.as_slice(), 214);
    let cons = read_u64_at(data.as_slice(), 222);
    let (n, q): (u128, u128) = if cons == 0 || prod >= cons {
        (1, 1)
    } else {
        (prod as u128, cons as u128)
    };
    (
        raise(m, gain_of(read_u64_at(data.as_slice(), 190), dt, n, q), read_u64_at(data.as_slice(), 230)),
        raise(c, gain_of(read_u64_at(data.as_slice(), 198), dt, n, q), read_u64_at(data.as_slice(), 238)),
        raise(de, gain_of(read_u64_at(data.as_slice(), 206), dt, n, q), read_u64_at(data.as_slice(), 246)),
    )
}

/// Whether a production queue whose item, quantity and finish time are given is empty.
pub open spec fn queue_empty(item: u8, qty: u32, finish: i64) -> bool {
    item == 255 || (qty == 0 && finish == 0)
}

/// Whether the record bytes `d` meet the shipyard and research needs of `ship_type`; `None`
/// for an unknown ship type.
pub open spec fn ship_tech_bytes(d: Seq<u8>, ship_type: u8) -> Option<bool> {
    let sy = d[130];
    match ship_type {
        0 => Some(sy >= 2 && d[137] >= 2),
        1 => Some(sy >= 4 && d[137] >= 6),
        2 => Some(sy >= 1),
        3 => Some(sy >= 3 && d[145] >= 2 && d[138] >= 2),
        4 => Some(sy >= 5 && d[138] >= 4),
        5 => Some(sy >= 7 && d[139] >= 4),
        6 => Some(sy >= 8 && d[139] >= 5 && d[140] >= 5 && d[143] >= 5),
        7 => Some(sy >= 8 && d[138] >= 6 && d[139] >= 5 && d[143] >= 5),
        8 => Some(sy >= 9 && d[139] >= 6 && d[145] >= 6),
        9 => Some(sy >= 12 && d[139] >= 7 && d[143] >= 10 && d[136] >= 12),
        10 => Some(sy >= 4 && d[137] >= 6 && d[144] >= 2),
        11 => Some(sy >= 3 && d[140] >= 2),
        12 => Some(sy >= 4 && d[138] >= 3 && d[141] >= 3),
        13 => Some(sy >= 1),
        _ => None,
    }
}

fn ship_tech(data: &Vec<u8>, ship_type: u8) -> (r: Option<bool>)
    requires
        data@.len() >= PLANET_FULL_MIN_LEN,
    ensures
        r == ship_tech_bytes(data@, ship_type),
{
    let d = data.as_slice();
    let sy = read_u8_at(d, 130);
    match ship_type {
        0 => Some(sy >= 2 && read_u8_at(d, 137) >= 2),
        1 => Some(sy >= 4 && read_u8_at(d, 137) >= 6),
        2 => Some(sy >= 1),
        3 => Some(sy >= 3 && read_u8_at(d, 145) >= 2 && read_u8_at(d, 138) >= 2),
        4 => Some(sy >= 5 && read_u8_at(d, 138) >= 4),
        5 => Some(sy >= 7 && read_u8_at(d, 139) >= 4),
        6 => Some(sy >= 8 && read_u8_at(d, 139) >= 5 && read_u8_at(d, 140) >= 5 && read_u8_at(d, 143) >= 5),
        7 => Some(sy >= 8 && read_u8_at(d, 138) >= 6 && read_u8_at(d, 139) >= 5 && read_u8_at(d, 143) >= 5),
        8 => Some(sy >= 9 && read_u8_at(d, 139) >= 6 && read_u8_at(d, 145) >= 6),
        9 => Some(sy >= 12 && read_u8_at(d, 139) >= 7 && read_u8_at(d, 143) >= 10 && read_u8_at(d, 136) >= 12),
        10 => Some(sy >= 4 && read_u8_at(d, 137) >= 6 && read_u8_at(d, 144) >= 2),
        11 => Some(sy >= 3 && read_u8_at(d, 140) >= 2),
        12 => Some(sy >= 4 && read_u8_at(d, 138) >= 3 && read_u8_at(d, 141) >= 3),
        13 => Some(sy >= 1),
        _ => None,
    }
}

/// The record bytes once a queue starts at `now` with the settled stock `(m, c, de)`: the
/// stock and settlement time, then the queue's item, quantity and finish time.
pub open spec fn queue_written(
    d: Seq<u8>,
    m: u64,
    c: u64,
    de: u64,
    now: i64,
    item_off: int,
    item: u8,
    quantity: u32,
    finish: i64,
) -> Seq<u8> {
    let d = put_u64(d, 166, m);
    let d = put_u64(d, 174, c);
    let d = put_u64(d, 182, de);
    let d = put_i64(d, 254, now);
    let d = put_u8(d, item_off, item);
    let d = put_u32(d, item_off + 1, quantity);
    put_i64(d, item_off + 5, finish)
}

/// What queuing `quantity` ships of `ship_type` at `now` does to the record bytes `d`.
pub open spec fn ship_build_bytes_spec(d: Seq<u8>, ship_type: u8, quantity: u32, now: i64) -> (Seq<u8>, Result<(), GameStateError>) {
    if quantity == 0 {
        (d, Err(GameStateError::InvalidArgs))
    } else if now < 0 {
        (d, Err(GameStateError::InvalidTimestamp))
    } else if d.len() < PLANET_FULL_MIN_LEN {
        (d, Err(GameStateError::InvalidArgs))
    } else if i64_at(d, 254) > now {
        (d, Err(GameStateError::InvalidTimestamp))
    } else if d[130] < 1 {
        (d, Err(GameStateError::ShipyardTooLow))
    } else if d[156] == 7 && i64_at(d, 158) > 0 {
        (d, Err(GameStateError::ShipyardQueueBusy))
    } else if !queue_empty(d[976], u32_at(d, 977), i64_at(d, 981)) {
        (d, Err(GameStateError::ShipyardQueueBusy))
    } else if !queue_empty(d[989], u32_at(d, 990), i64_at(d, 994)) {
        (d, Err(GameStateError::ShipyardQueueBusy))
    } else if ship_tech_bytes(d, ship_type) is None {
        (d, Err(GameStateError::InvalidShipType))
    } else if ship_tech_bytes(d, ship_type) == Some(false) {
        (d, Err(GameStateError::TechLocked))
    } else {
        let (cm, cc, cd) = ship_cost_spec(ship_type);
        let (m, c, de) = byte_settled(d, now);
        let tm = clamp_u64(cm * quantity);
        let tc = clamp_u64(cc * quantity);
        let td = clamp_u64(cd * quantity);
        if cm == 0 && cc == 0 && cd == 0 && ship_type != 11 {
            (d, Err(GameStateError::InvalidShipType))
        } else if m < tm {
            (d, Err(GameStateError::InsufficientMetal))
        } else if c < tc {
            (d, Err(GameStateError::InsufficientCrystal))
        } else if de < td {
            (d, Err(GameStateError::InsufficientDeuterium))
        } else {
            let dur = ship_build_seconds_spec(ship_type, quantity, d[130], d[129]);
            (
                queue_written(d, (m - tm) as u64, (c - tc) as u64, (de - td) as u64, now, 976, ship_type, quantity, clamp_i64(now + dur)),
                Ok(()),
            )
        }
    }
}

/// Queues `quantity` ships of `ship_type` at `now` directly in the planet record bytes: the
/// stock is settled as the fast path settles it, the cost is taken, and the ship queue is set.
/// On an error the bytes are unchanged.
pub fn start_ship_build_bytes(data: &mut Vec<u8>, ship_type: u8, quantity: u32, now: i64) -> (r: Result<(), GameStateError>)
    requires
        ship_build_bytes_spec(old(data)@, ship_type, quantity, now).1 is Ok ==> old(data)@[129] < 64,
    ensures
        (final(data)@, r) == ship_build_bytes_spec(old(data)@, ship_type, quantity, now),
{
    if quantity == 0 {
        return Err(GameStateError::InvalidArgs);
    }
    if now < 0 {
        return Err(GameStateError::InvalidTimestamp);
    }
    if data.len() < PLANET_FULL_MIN_LEN {
        return Err(GameStateError::InvalidArgs);
    }
    let last = read_i64_at(data.as_slice(), 254);
    if last > now {
        return Err(GameStateError::InvalidTimestamp);
    }
    let (m, c, de) = settle_bytes(data, now);
    let shipyard = read_u8_at(data.as_slice(), 130);
    if shipyard < 1 {
        return Err(GameStateError::ShipyardTooLow);
    }
    if read_u8_at(data.as_slice(), 156) == 7 && read_i64_at(data.as_slice(), 158) > 0 {
        return Err(GameStateError::ShipyardQueueBusy);
    }
    let item = read_u8_at(data.as_slice(), 976);
    let qty = read_u32_at(data.as_slice(), 977);
    let fin = read_i64_at(data.as_slice(), 981);
    if !(item == 255 || (qty == 0 && fin == 0)) {
        return Err(GameStateError::ShipyardQueueBusy);
    }
    let ditem = read_u8_at(data.as_slice(), 989);
    let dqty = read_u32_at(data.as_slice(), 990);
    let dfin = read_i64_at(data.as_slice(), 994);
    if !(ditem == 255 || (dqty == 0 && dfin == 0)) {
        return Err(GameStateError::ShipyardQueueBusy);
    }
    match ship_tech(data, ship_type) {
        None => {
            return Err(GameStateError::InvalidShipType);
        },
        Some(ok) => {
            if !ok {
                return Err(GameStateError::TechLocked);
            }
        },
    }
    let (cm, cc, cd) = ship_cost(ship_type);
    if cm == 0 && cc == 0 && cd == 0 && ship_type != 11 {
        return Err(GameStateError::InvalidShipType);
    }
    let tm = sat_mul(cm, quantity as u64);
    let tc = sat_mul(cc, quantity as u64);
    let td = sat_mul(cd, quantity as u64);
    if m < tm {
        return Err(GameStateError::InsufficientMetal);
    }
    if c < tc {
        return Err(GameStateError::InsufficientCrystal);
    }
    if de < td {
        return Err(GameStateError::InsufficientDeuterium);
    }
    let nanite = read_u8_at(data.as_slice(), 129);
    let dur = ship_build_seconds(ship_type, quantity, shipyard, nanite);
    write_u64_at(data, 166, m - tm);
    write_u64_at(data, 174, c - tc);
    write_u64_at(data, 182, de - td);
    write_i64_at(data, 254, now);
    write_u8_at(data, 976, ship_type);
    write_u32_at(data, 977, quantity);
    write_i64_at(data, 981, sat_add_i64(now, dur));
    Ok(())
}

/// Whether the record bytes `d` meet the shipyard and research needs of `quantity` defenses of
/// `defense_type`, or why the request is malformed.
pub open spec fn defense_tech_bytes(d: Seq<u8>, defense_type: u8, quantity: u32) -> Result<bool, GameStateError> {
    let sy = d[130];
    match defense_type {
        0 => Ok(true),
        1 => Ok(sy >= 2),
        2 => Ok(sy >= 4),
        3 => Ok(sy >= 6 && d[143] >= 3),
        4 => Ok(sy >= 4 && d[144] >= 2),
        5 => Ok(sy >= 8 && d[144] >= 8 && d[143] >= 10 && d[136] >= 8),
        6 => if quantity != 1 {
            Err(GameStateError::InvalidDefenseType)
        } else {
            Ok(d[144] >= 2 && u32_at(d, 390) == 0)
        },
        7 => if quantity != 1 {
            Err(GameStateError::InvalidDefenseType)
        } else {
            Ok(d[144] >= 6 && u32_at(d, 394) == 0)
        },
        _ => Err(GameStateError::InvalidDefenseType),
    }
}

fn defense_tech(data: &Vec<u8>, defense_type: u8, quantity: u32) -> (r: Result<bool, GameStateError>)
    requires
        data@.len() >= PLANET_FULL_MIN_LEN,
    ensures
        r == defense_tech_bytes(data@, defense_type, quantity),
{
    let d = data.as_slice();
    let sy = read_u8_at(d, 130);
    match defense_type {
        0 => Ok(true),
        1 => Ok(sy >= 2),
        2 => Ok(sy >= 4),
        3 => Ok(sy >= 6 && read_u8_at(d, 143) >= 3),
        4 => Ok(sy >= 4 && read_u8_at(d, 144) >= 2),
        5 => Ok(sy >= 8 && read_u8_at(d, 144) >= 8 && read_u8_at(d, 143) >= 10 && read_u8_at(d, 136) >= 8),
        6 => {
            if quantity != 1 {
                Err(GameStateError::InvalidDefenseType)
            } else {
                Ok(read_u8_at(d, 144) >= 2 && read_u32_at(d, 390) == 0)
            }
        },
        7 => {
            if quantity != 1 {
                Err(GameStateError::InvalidDefenseType)
            } else {
                Ok(read_u8_at(d, 144) >= 6 && read_u32_at(d, 394) == 0)
            }
        },
        _ => Err(GameStateError::InvalidDefenseType),
    }
}

/// What queuing `quantity` defenses of `defense_type` at `now` does to the record bytes `d`.
pub open spec fn defense_build_bytes_spec(d: Seq<u8>, defense_type: u8, quantity: u32, now: i64) -> (Seq<u8>, Result<(), GameStateError>) {
    if quantity == 0 {
        (d, Err(GameStateError::InvalidArgs))
    } else if now < 0 {
        (d, Err(GameStateError::InvalidTimestamp))
    } else if d.len() < PLANET_FULL_MIN_LEN {
        (d, Err(GameStateError::InvalidArgs))
    } else if i64_at(d, 254) > now {
        (d, Err(GameStateError::InvalidTimestamp))
    } else if d[130] < 1 {
        (d, Err(GameStateError::ShipyardTooLow))
    } else if d[156] == 7 && i64_at(d, 158) > 0 {
        (d, Err(GameStateError::ShipyardQueueBusy))
    } else if !queue_empty(d[989], u32_at(d, 990), i64_at(d, 994)) {
        (d, Err(GameStateError::ShipyardQueueBusy))
    } else if !queue_empty(d[976], u32_at(d, 977), i64_at(d, 981)) {
        (d, Err(GameStateError::ShipyardQueueBusy))
    } else if defense_tech_bytes(d, defense_type, quantity) is Err {
        (d, Err(defense_tech_bytes(d, defense_type, quantity)->Err_0))
    } else if defense_tech_bytes(d, defense_type, quantity) == Ok::<bool, GameStateError>(false) {
        (d, Err(GameStateError::TechLocked))
    } else {
        let (cm, cc, cd) = defense_cost_spec(defense_type);
        let (m, c, de) = byte_settled(d, now);
        let tm = clamp_u64(cm * quantity);
        let tc = clamp_u64(cc * quantity);
        let td = clamp_u64(cd * quantity);
        if cm == 0 && cc == 0 && cd == 0 {
            (d, Err(GameStateError::InvalidDefenseType))
        } else if m < tm {
            (d, Err(GameStateError::InsufficientMetal))
        } else if c < tc {
            (d, Err(GameStateError::InsufficientCrystal))
        } else if de < td {
            (d, Err(GameStateError::InsufficientDeuterium))
        } else {
            let dur = defense_build_seconds_spec(defense_type, quantity, d[130], d[129]);
            (
                queue_written(d, (m - tm) as u64, (c - tc) as u64, (de - td) as u64, now, 989, defense_type, quantity, clamp_i64(now + dur)),
                Ok(()),
            )
        }
    }
}

/// Queues `quantity` defenses of `defense_type` at `now` directly in the planet record bytes,
/// as the ship fast path does for ships. On an error the bytes are unchanged.
pub fn start_defense_build_bytes(data: &mut Vec<u8>, defense_type: u8, quantity: u32, now: i64) -> (r: Result<(), GameStateError>)
    requires
        defense_build_bytes_spec(old(data)@, defense_type, quantity, now).1 is Ok ==> old(data)@[129] < 64,
    ensures
        (final(data)@, r) == defense_build_bytes_spec(old(data)@, defense_type, quantity, now),
{
    if quantity == 0 {
        return Err(GameStateError::InvalidArgs);
    }
    if now < 0 {
        return Err(GameStateError::InvalidTimestamp);
    }
    if data.len() < PLANET_FULL_MIN_LEN {
        return Err(GameStateError::InvalidArgs);
    }
    let last = read_i64_at(data.as_slice(), 254);
    if last > now {
        return Err(GameStateError::InvalidTimestamp);
    }
    let (m, c, de) = settle_bytes(data, now);
    let shipyard = read_u8_at(data.as_slice(), 130);
    if shipyard < 1 {
        return Err(GameStateError::ShipyardTooLow);
    }
    if read_u8_at(data.as_slice(), 156) == 7 && read_i64_at(data.as_slice(), 158) > 0 {
        return Err(GameStateError::ShipyardQueueBusy);
    }
    let item = read_u8_at(data.as_slice(), 989);
    let qty = read_u32_at(data.as_slice(), 990);
    let fin = read_i64_at(data.as_slice(), 994);
    if !(item == 255 || (qty == 0 && fin == 0)) {
        return Err(GameStateError::ShipyardQueueBusy);
    }
    let sitem = read_u8_at(data.as_slice(), 976);
    let sqty = read_u32_at(data.as_slice(), 977);
    let sfin = read_i64_at(data.as_slice(), 981);
    if !(sitem == 255 || (sqty == 0 && sfin == 0)) {
        return Err(GameStateError::ShipyardQueueBusy);
    }
    match defense_tech(data, defense_type, quantity) {
        Err(e) => {
            return Err(e);
        },
        Ok(ok) => {
            if !ok {
                return Err(GameStateError::TechLocked);
            }
        },
    }
    let (cm, cc, cd) = defense_cost(defense_type);
    if cm == 0 && cc == 0 && cd == 0 {
        return Err(GameStateError::InvalidDefenseType);
    }
    let tm = sat_mul(cm, quantity as u64);
    let tc = sat_mul(cc, quantity as u64);
    let td = sat_mul(cd, quantity as u64);
    if m < tm {
        return Err(GameStateError::InsufficientMetal);
    }
    if c < tc {
        return Err(GameStateError::InsufficientCrystal);
    }
    if de < td {
        return Err(GameStateError::InsufficientDeuterium);
    }
    let nanite = read_u8_at(data.as_slice(), 129);
    let dur = defense_build_seconds(defense_type, quantity, shipyard, nanite);
    write_u64_at(data, 166, m - tm);
    write_u64_at(data, 174, c - tc);
    write_u64_at(data, 182, de - td);
    write_i64_at(data, 254, now);
    write_u8_at(data, 989, defense_type);
    write_u32_at(data, 990, quantity);
    write_i64_at(data, 994, sat_add_i64(now, dur));
    Ok(())
}

/// Where the record stores the count of defenses of `defense_type`.
pub open spec fn defense_count_offset_spec(defense_type: u8) -> Option<int> {
    if defense_type <= 7 {
        Some(366 + 4 * defense_type)
    } else {
        None
    }
}

/// Where the record stores the count of defenses of `defense_type`; refused for an unknown type.
pub fn defense_count_offset(defense_type: u8) -> (r: Result<usize, GameStateError>)
    ensures
        match defense_count_offset_spec(defense_type) {
            Some(off) => r == Ok::<usize, GameStateError>(off as usize),
            None => r == Err::<usize, GameStateError>(GameStateError::InvalidDefenseType),
        },
{
    match defense_type {
        0 => Ok(366),
        1 => Ok(370),
        2 => Ok(374),
        3 => Ok(378),
        4 => Ok(382),
        5 => Ok(386),
        6 => Ok(390),
        7 => Ok(394),
        _ => Err(GameStateError::InvalidDefenseType),
    }
}

/// What completing the defense queue at `now` does to the record bytes `d`.
pub open spec fn finish_defense_bytes_spec(d: Seq<u8>, now: i64) -> (Seq<u8>, Result<(), GameStateError>) {
    if now < 0 {
        (d, Err(GameStateError::InvalidTimestamp))
    } else if d.len() < PLANET_FULL_MIN_LEN {
        (d, Err(GameStateError::InvalidArgs))
    } else {
        let t = d[989];
        let qty = u32_at(d, 990);
        let fin = i64_at(d, 994);
        if !(qty > 0 && fin > 0) || t == 255 {
            (d, Err(GameStateError::NoDefenseBuild))
        } else if now < fin {
            (d, Err(GameStateError::DefenseBuildNotFinished))
        } else {
            match defense_count_offset_spec(t) {
                None => (d, Err(GameStateError::InvalidDefenseType)),
                Some(off) => {
                    let d1 = put_u32(d, off, u32_at(d, off).saturating_add(qty));
                    let d2 = put_u8(d1, 989, 255);
                    let d3 = put_u32(d2, 990, 0);
                    (put_i64(d3, 994, 0), Ok(()))
                },
            }
        }
    }
}

/// Completes the defense queue at `now` directly in the planet record bytes: the defenses
/// join the planet's count and the queue goes idle. On an error the bytes are unchanged.
pub fn finish_defense_build_bytes(data: &mut Vec<u8>, now: i64) -> (r: Result<(), GameStateError>)
    ensures
        (final(data)@, r) == finish_defense_bytes_spec(old(data)@, now),
{
    if now < 0 {
        return Err(GameStateError::InvalidTimestamp);
    }
    if data.len() < PLANET_FULL_MIN_LEN {
        return Err(GameStateError::InvalidArgs);
    }
    let t = read_u8_at(data.as_slice(), 989);
    let qty = read_u32_at(data.as_slice(), 990);
    let fin = read_i64_at(data.as_slice(), 994);
    if !(qty > 0 && fin > 0) {
        return Err(GameStateError::NoDefenseBuild);
    }
    if t == 255 {
        return Err(GameStateError::NoDefenseBuild);
    }
    if now < fin {
        return Err(GameStateError::DefenseBuildNotFinished);
    }
    let off = match defense_count_offset(t) {
        Ok(o) => o,
        Err(e) => {
            return Err(e);
        },
    };
    let current = read_u32_at(data.as_slice(), off);
    write_u32_at(data, off, current.saturating_add(qty));
    write_u8_at(data, 989, 255);
    write_u32_at(data, 990, 0);
    write_i64_at(data, 994, 0);
    Ok(())
}

} // verus!
