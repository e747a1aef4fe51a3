//! What settling a planet's production credits: each mine's hourly rate over the elapsed
//! time, scaled down by the share of the needed energy that the planet produces, and capped
//! by storage.

use vstd::prelude::*;

use crate::components::{gained_balance, settled_resources, Resources};
use crate::deposit::settle_deposit_spec;
use crate::economy::{produced_balance, settle_spec};
use crate::planet::PlanetState;
use crate::planet_bytes::PlanetDepositFields;

verus! {

/// The share of full production (in ten-thousandths) a planet runs at: all of it when it
/// produces at least the energy it consumes, otherwise production over consumption, rounded
/// down.
pub open spec fn energy_share(production: u64, consumption: u64) -> int {
    if consumption == 0 || production >= consumption {
        10_000
    } else {
        production * 10_000 / (consumption as int)
    }
}

/// A balance `current` credited with `work` (an hourly rate times seconds) at `share`
/// ten-thousandths, rounded down, and capped at `cap`.
pub open spec fn credited(current: u64, work: int, share: int, cap: u64) -> int {
    let gain = work * share / 36_000_000;
    if current + gain <= cap {
        current + gain
    } else {
        cap as int
    }
}

/// What the settlement rules compute for one resource is `credited` at the energy share.
proof fn lemma_credit(current: u64, rate: u64, dt: int, production: u64, consumption: u64, cap: u64, eff: int)
    requires
        dt >= 0,
        rate * dt * 10_000 <= u64::MAX,
        eff == (if consumption == 0 {
            10_000
        } else if production * 10_000 / (consumption as int) < 10_000 {
            production * 10_000 / (consumption as int)
        } else {
            10_000
        }),
    ensures
        eff == energy_share(production, consumption),
        produced_balance(current, rate, dt, eff, cap) as int == credited(current, rate * dt, eff, cap),
        gained_balance(current, rate, dt, eff, cap) as int == credited(current, rate * dt, eff, cap),
{
    let work = rate * dt;
    assert(0 <= work && work * 10_000 <= u64::MAX) by (nonlinear_arith)
        requires
            work == rate * dt,
            rate >= 0,
            dt >= 0,
            rate * dt * 10_000 <= u64::MAX,
    ;
    if consumption != 0 {
        let n = production * 10_000;
        let q = n / (consumption as int);
        vstd::arithmetic::div_mod::lemma_fundamental_div_mod(n, (consumption as int));
        vstd::arithmetic::div_mod::lemma_mod_pos_bound(n, (consumption as int));
        let r = n % (consumption as int);
        if production >= consumption {
            assert(q >= 10_000) by (nonlinear_arith)
                requires
                    n == production * 10_000,
                    n == consumption * q + r,
                    0 <= r < consumption,
                    production >= consumption,
                    consumption > 0,
            ;
        } else {
            assert(0 <= q < 10_000) by (nonlinear_arith)
                requires
                    n == production * 10_000,
                    n == consumption * q + r,
                    0 <= r < consumption,
                    production < consumption,
                    production >= 0,
                    consumption > 0,
            ;
        }
    }
    assert(0 <= eff <= 10_000);
    assert(0 <= work * eff <= u64::MAX) by (nonlinear_arith)
        requires
            0 <= work,
            work * 10_000 <= u64::MAX,
            0 <= eff <= 10_000,
    ;
    vstd::arithmetic::div_mod::lemma_div_denominator(work * eff, 3600, 10_000);
    assert(crate::num::clamp_u64(work) == work);
    assert(crate::num::clamp_u64(work) * eff == work * eff);
}

/// The relations `credited` has with the energy share for one resource: full production is
/// the hourly rate over the elapsed time, half the needed energy halves it, and any shortage
/// credits strictly less than full production.
proof fn lemma_credit_by_share(current: u64, work: int, production: u64, consumption: u64, cap: u64)
    requires
        work >= 0,
    ensures
        (consumption == 0 || production >= consumption) ==> credited(current, work, energy_share(production, consumption), cap)
            == (if current + work / 3600 <= cap { current + work / 3600 } else { cap as int }),
        (consumption > 0 && production * 2 == consumption) ==> credited(current, work, energy_share(production, consumption), cap)
            == (if current + work / 7200 <= cap { current + work / 7200 } else { cap as int }),
        (production < consumption && work > 0 && current <= cap) ==> (credited(
            current,
            work,
            energy_share(production, consumption),
            cap,
        ) - current) * 3600 < work,
{
    let share = energy_share(production, consumption);
    if consumption == 0 || production >= consumption {
        vstd::arithmetic::div_mod::lemma_div_multiples_vanish_quotient(10_000, work, 3600);
        assert(work * 10_000 == 10_000 * work);
    }
    if consumption > 0 && production * 2 == consumption {
        assert(production * 10_000 == consumption * 5_000);
        vstd::arithmetic::div_mod::lemma_div_multiples_vanish(5_000, (consumption as int));
        assert(share == 5_000);
        vstd::arithmetic::div_mod::lemma_div_multiples_vanish_quotient(5_000, work, 7200);
        assert(work * 5_000 == 5_000 * work);
    }
    if production < consumption && work > 0 && current <= cap {
        let n = production * 10_000;
        vstd::arithmetic::div_mod::lemma_fundamental_div_mod(n, (consumption as int));
        vstd::arithmetic::div_mod::lemma_mod_pos_bound(n, (consumption as int));
        let q = n / (consumption as int);
        let r = n % (consumption as int);
        assert(0 <= q < 10_000) by (nonlinear_arith)
            requires
                n == production * 10_000,
                n == consumption * q + r,
                0 <= r < consumption,
                production < consumption,
                production >= 0,
                consumption > 0,
        ;
        let g = work * share / 36_000_000;
        vstd::arithmetic::div_mod::lemma_fundamental_div_mod(work * share, 36_000_000);
        vstd::arithmetic::div_mod::lemma_mod_pos_bound(work * share, 36_000_000);
        assert(g * 3600 < work) by (nonlinear_arith)
            requires
                work * share == 36_000_000 * g + (work * share) % 36_000_000,
                (work * share) % 36_000_000 >= 0,
                0 <= share < 10_000,
                work > 0,
        ;
    }
}

/// Settling a planet whose last settlement was at a positive time before `now` credits each
/// resource with its hourly rate over the elapsed time (at most a week), scaled by the share
/// of its needed energy the planet produces (in ten-thousandths, rounded down), capped by
/// storage. With enough energy the mines run at their full hourly rate; with half the energy
/// they produce half; with any shortage a planet below its cap gains strictly less than the
/// full rate would give.
pub proof fn law_settle_pays_production_by_energy(p: PlanetState, now: i64)
    requires
        0 < p.last_update_ts < now,
        ({
            let dt = if now - p.last_update_ts < 604_800 { now - p.last_update_ts } else { 604_800 };
            &&& p.metal_hour * dt * 10_000 <= u64::MAX
            &&& p.crystal_hour * dt * 10_000 <= u64::MAX
            &&& p.deuterium_hour * dt * 10_000 <= u64::MAX
        }),
    ensures
        ({
            let dt = if now - p.last_update_ts < 604_800 { now - p.last_update_ts } else { 604_800 };
            let share = energy_share(p.energy_production, p.energy_consumption);
            let (s, r) = settle_spec(p, now);
            let full = p.metal_hour * dt / 3600;
            &&& r is Ok
            &&& s.last_update_ts == now
            &&& s.metal == credited(p.metal, p.metal_hour * dt, share, p.metal_cap)
            &&& s.crystal == credited(p.crystal, p.crystal_hour * dt, share, p.crystal_cap)
            &&& s.deuterium == credited(p.deuterium, p.deuterium_hour * dt, share, p.deuterium_cap)
            &&& p.energy_production >= p.energy_consumption ==> s.metal == (if p.metal + full <= p.metal_cap {
                p.metal + full
            } else {
                p.metal_cap as int
            })
            &&& (p.energy_consumption > 0 && p.energy_production * 2 == p.energy_consumption) ==> s.metal == (if p.metal
                + p.metal_hour * dt / 7200 <= p.metal_cap {
                p.metal + p.metal_hour * dt / 7200
            } else {
                p.metal_cap as int
            })
            &&& (p.energy_production < p.energy_consumption && p.metal_hour * dt > 0 && p.metal <= p.metal_cap) ==> (s.metal
                - p.metal) * 3600 < p.metal_hour * dt
        }),
{
    let dt = crate::economy::settle_seconds(p, now);
    let eff = crate::economy::energy_efficiency(p);
    lemma_credit(p.metal, p.metal_hour, dt, p.energy_production, p.energy_consumption, p.metal_cap, eff);
    lemma_credit(p.crystal, p.crystal_hour, dt, p.energy_production, p.energy_consumption, p.crystal_cap, eff);
    lemma_credit(p.deuterium, p.deuterium_hour, dt, p.energy_production, p.energy_consumption, p.deuterium_cap, eff);
    assert(p.metal_hour * dt >= 0) by (nonlinear_arith)
        requires
            dt >= 0,
    ;
    lemma_credit_by_share(p.metal, p.metal_hour * dt, p.energy_production, p.energy_consumption, p.metal_cap);
}

/// Settling the resource fields of a planet record follows the same rule: each resource gains
/// its hourly rate over the elapsed time (at most a week) at the planet's energy share,
/// capped by storage; full energy gives the full hourly rate, half the energy half of it, and
/// a shortage strictly less.
pub proof fn law_deposit_settle_pays_production_by_energy(p: PlanetDepositFields, now: i64)
    requires
        0 < p.last_update_ts < now,
        ({
            let dt = if now - p.last_update_ts < 604_800 { now - p.last_update_ts } else { 604_800 };
            &&& p.metal_hour * dt * 10_000 <= u64::MAX
            &&& p.crystal_hour * dt * 10_000 <= u64::MAX
            &&& p.deuterium_hour * dt * 10_000 <= u64::MAX
        }),
    ensures
        ({
            let dt = if now - p.last_update_ts < 604_800 { now - p.last_update_ts } else { 604_800 };
            let share = energy_share(p.energy_production, p.energy_consumption);
            let (s, r) = settle_deposit_spec(p, now);
            let full = p.metal_hour * dt / 3600;
            &&& r is Ok
            &&& s.last_update_ts == now
            &&& s.metal == credited(p.metal, p.metal_hour * dt, share, p.metal_cap)
            &&& s.crystal == credited(p.crystal, p.crystal_hour * dt, share, p.crystal_cap)
            &&& s.deuterium == credited(p.deuterium, p.deuterium_hour * dt, share, p.deuterium_cap)
            &&& p.energy_production >= p.energy_consumption ==> s.metal == (if p.metal + full <= p.metal_cap {
                p.metal + full
            } else {
                p.metal_cap as int
            })
            &&& (p.energy_consumption > 0 && p.energy_production * 2 == p.energy_consumption) ==> s.metal == (if p.metal
                + p.metal_hour * dt / 7200 <= p.metal_cap {
                p.metal + p.metal_hour * dt / 7200
            } else {
                p.metal_cap as int
            })
            &&& (p.energy_production < p.energy_consumption && p.metal_hour * dt > 0 && p.metal <= p.metal_cap) ==> (s.metal
                - p.metal) * 3600 < p.metal_hour * dt
        }),
{
    let dt = if now - p.last_update_ts < 604_800 { now - p.last_update_ts } else { 604_800 };
    let eff = crate::deposit::deposit_efficiency(p);
    lemma_credit(p.metal, p.metal_hour, dt, p.energy_production, p.energy_consumption, p.metal_cap, eff);
    lemma_credit(p.crystal, p.crystal_hour, dt, p.energy_production, p.energy_consumption, p.crystal_cap, eff);
    lemma_credit(p.deuterium, p.deuterium_hour, dt, p.energy_production, p.energy_consumption, p.deuterium_cap, eff);
    assert(p.metal_hour * dt >= 0) by (nonlinear_arith)
        requires
            dt >= 0,
    ;
    lemma_credit_by_share(p.metal, p.metal_hour * dt, p.energy_production, p.energy_consumption, p.metal_cap);
}

/// The entity-component production system credits each resource its hourly rate over the
/// whole elapsed time at the planet's energy share, capped by storage; full energy gives the
/// full hourly rate, half the energy half of it, and a shortage strictly less.
pub proof fn law_system_settle_pays_production_by_energy(res: Resources, now: i64)
    requires
        0 < res.last_update_ts < now,
        res.metal_hour * (now - res.last_update_ts) * 10_000 <= u64::MAX,
        res.crystal_hour * (now - res.last_update_ts) * 10_000 <= u64::MAX,
        res.deuterium_hour * (now - res.last_update_ts) * 10_000 <= u64::MAX,
    ensures
        ({
            let dt = now - res.last_update_ts;
            let share = energy_share(res.energy_production, res.energy_consumption);
            let s = settled_resources(res, now);
            let full = res.metal_hour * dt / 3600;
            &&& s.last_update_ts == now
            &&& s.metal == credited(res.metal, res.metal_hour * dt, share, res.metal_cap)
            &&& s.crystal == credited(res.crystal, res.crystal_hour * dt, share, res.crystal_cap)
            &&& s.deuterium == credited(res.deuterium, res.deuterium_hour * dt, share, res.deuterium_cap)
            &&& res.energy_production >= res.energy_consumption ==> s.metal == (if res.metal + full <= res.metal_cap {
                res.metal + full
            } else {
                res.metal_cap as int
            })
            &&& (res.energy_consumption > 0 && res.energy_production * 2 == res.energy_consumption) ==> s.metal == (if res.metal
                + res.metal_hour * dt / 7200 <= res.metal_cap {
                res.metal + res.metal_hour * dt / 7200
            } else {
                res.metal_cap as int
            })
            &&& (res.energy_production < res.energy_consumption && res.metal_hour * dt > 0 && res.metal <= res.metal_cap) ==> (
            s.metal - res.metal) * 3600 < res.metal_hour * dt
        }),
{
    let dt = now - res.last_update_ts;
    let eff = crate::components::resource_efficiency(res);
    lemma_credit(res.metal, res.metal_hour, dt, res.energy_production, res.energy_consumption, res.metal_cap, eff);
    lemma_credit(res.crystal, res.crystal_hour, dt, res.energy_production, res.energy_consumption, res.crystal_cap, eff);
    lemma_credit(res.deuterium, res.deuterium_hour, dt, res.energy_production, res.energy_consumption, res.deuterium_cap, eff);
    assert(res.metal_hour * dt >= 0) by (nonlinear_arith)
        requires
            dt >= 0,
    ;
    lemma_credit_by_share(res.metal, res.metal_hour * dt, res.energy_production, res.energy_consumption, res.metal_cap);
}

} // verus!
