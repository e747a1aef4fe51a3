//! How long a building upgrade, a research and a shipyard batch take, stated from the costs
//! and the facility levels: each duration is the work divided by what the facilities
//! contribute, and better facilities never make anything slower.

use vstd::prelude::*;

use crate::formulas::{
    base_cost_spec, build_seconds_spec, defense_build_seconds_spec, defense_cost_spec, level_exponent, pow15_spec,
    research_seconds_spec, ship_build_seconds_spec, ship_cost_spec,
};

verus! {

/// `a / d` is the quotient of `a` by `d`: it leaves a remainder below `d`.
proof fn lemma_quotient(a: int, d: int)
    requires
        0 <= a,
        0 < d,
    ensures
        0 <= a / d,
        (a / d) * d <= a,
        a < (a / d + 1) * d,
{
    vstd::arithmetic::div_mod::lemma_fundamental_div_mod(a, d);
    vstd::arithmetic::div_mod::lemma_mod_pos_bound(a, d);
    let q = a / d;
    let r = a % d;
    assert(0 <= q && q * d <= a && a < (q + 1) * d) by (nonlinear_arith)
        requires
            a == d * q + r,
            0 <= r < d,
            0 < d,
            0 <= a,
    ;
}

/// A number `x` with `x * d <= a` is at most the quotient of `a` by `d`.
proof fn lemma_below_quotient(x: int, a: int, d: int)
    requires
        0 <= a,
        0 < d,
        x * d <= a,
    ensures
        x <= a / d,
{
    lemma_quotient(a, d);
    let q = a / d;
    assert(x <= q) by (nonlinear_arith)
        requires
            x * d <= a,
            a < (q + 1) * d,
            0 < d,
    ;
}

/// The seconds a building upgrade to `level` takes are its metal and crystal cost divided by
/// five times one more than the robotics factory level (at least one second): the result times
/// that divisor fits in the cost with less than one divisor to spare. A higher robotics factory
/// never makes the upgrade slower, and an upgrade worth at least 15 is strictly faster with a
/// robotics factory at level 2 than with none.
pub proof fn law_build_time_divided_by_robotics(idx: u8, level: u64, robotics: u64, better: u64)
    requires
        robotics <= better,
    ensures
        ({
            let (bm, bc, _) = base_cost_spec(idx);
            let total = ((bm + bc) * pow15_spec(level_exponent(level))) / 1_000;
            let d = 5 * (1 + robotics);
            let s = build_seconds_spec(idx, level, robotics);
            &&& s >= 1
            &&& total >= d ==> s * d <= total && total < (s + 1) * d
            &&& total < d ==> s == 1
            &&& build_seconds_spec(idx, level, better) <= s
            &&& total >= 15 ==> build_seconds_spec(idx, level, 2) < build_seconds_spec(idx, level, 0)
        }),
{
    let (bm, bc, _) = base_cost_spec(idx);
    let m = pow15_spec(level_exponent(level));
    assert((bm + bc) * m >= 0) by (nonlinear_arith)
        requires
            bm + bc >= 0,
            m >= 0,
    ;
    let total = ((bm + bc) * m) / 1_000;
    let d = 5 * (1 + robotics);
    let db = 5 * (1 + better);
    lemma_quotient(total, d);
    if total >= d {
        lemma_below_quotient(1, total, d);
    } else {
        assert(total / d == 0) by (nonlinear_arith)
            requires
                0 <= total < d,
        ;
    }
    vstd::arithmetic::div_mod::lemma_div_is_ordered_by_denominator(total, d, db);
    lemma_quotient(total, 5);
    lemma_quotient(total, 15);
    if total >= 15 {
        lemma_below_quotient(1, total, 15);
        let q5 = total / 5;
        let q15 = total / 15;
        assert(q15 < q5) by (nonlinear_arith)
            requires
                q15 * 15 <= total,
                total < (q5 + 1) * 5,
                q15 >= 1,
        ;
    }
}

/// The research lab's effective level: the lab (at least level 1) sped up by ten percent per
/// level of the research network, at least 1.
pub open spec fn effective_lab(lab: u8, igr: u8) -> int {
    let base = if lab >= 1 { lab as int } else { 1 };
    let e = base * (100 + 10 * igr) / 100;
    if e >= 1 { e } else { 1 }
}

/// The effective lab grows with the lab level.
proof fn lemma_effective_lab_grows(lab: u8, bigger: u8, igr: u8)
    requires
        lab <= bigger,
    ensures
        1 <= effective_lab(lab, igr) <= effective_lab(bigger, igr),
{
    let bl = if lab >= 1 { lab as int } else { 1 };
    let bb = if bigger >= 1 { bigger as int } else { 1 };
    let sp = 100 + 10 * igr;
    assert(bl * sp <= bb * sp) by (nonlinear_arith)
        requires
            1 <= bl <= bb,
            sp >= 100,
    ;
    vstd::arithmetic::div_mod::lemma_div_is_ordered(bl * sp, bb * sp, 100);
}

/// The seconds a research to level `next` takes are half an hour per level divided by the
/// effective lab (at least one second): the result times the effective lab fits in the work
/// with less than one effective lab to spare. A higher lab never makes research slower, and
/// a lab at level 2 researches strictly faster than one at level 1.
pub proof fn law_research_time_divided_by_lab(next: u8, lab: u8, igr: u8, bigger: u8)
    requires
        lab <= bigger,
    ensures
        ({
            let work = next * 1800;
            let e = effective_lab(lab, igr);
            let s = research_seconds_spec(next, lab, igr);
            &&& s >= 1
            &&& work >= e ==> s * e <= work && work < (s + 1) * e
            &&& work < e ==> s == 1
            &&& research_seconds_spec(next, bigger, igr) <= s
            &&& next >= 1 ==> research_seconds_spec(next, 2, igr) < research_seconds_spec(next, 1, igr)
        }),
{
    let work = next * 1800;
    let e = effective_lab(lab, igr);
    lemma_effective_lab_grows(lab, bigger, igr);
    let eb = effective_lab(bigger, igr);
    lemma_quotient(work, e);
    if work >= e {
        lemma_below_quotient(1, work, e);
    } else {
        assert(work / e == 0) by (nonlinear_arith)
            requires
                0 <= work < e,
        ;
    }
    vstd::arithmetic::div_mod::lemma_div_is_ordered_by_denominator(work, e, eb);
    if next >= 1 {
        let sp = 100 + 10 * igr;
        let e1 = effective_lab(1, igr);
        let e2 = effective_lab(2, igr);
        assert(e1 == sp / 100);
        lemma_quotient(sp, 100);
        assert(1 <= e1 <= 26);
        assert(2 * e1 * 100 <= 2 * sp);
        lemma_below_quotient(2 * e1, 2 * sp, 100);
        assert(2 * e1 <= e2);
        vstd::arithmetic::div_mod::lemma_div_is_ordered_by_denominator(work, 2 * e1, e2);
        vstd::arithmetic::div_mod::lemma_div_denominator(work, e1, 2);
        vstd::arithmetic::div_mod::lemma_div_is_ordered_by_denominator(work, e1, 26);
        vstd::arithmetic::div_mod::lemma_div_is_ordered(1800, work, 26);
        let q = work / e1;
        assert(q >= 69);
        assert(q / 2 < q);
        assert(work / (e1 * 2) == work / (2 * e1));
    }
}

/// In the entity-component research system, a research to level `next` takes half an hour per
/// level divided by the lab level (at least 1), and at least one second: the result times the
/// lab fits in the work with less than one lab to spare. A higher lab never makes research
/// slower, and a lab at level 2 researches strictly faster than one at level 1.
pub proof fn law_system_research_time_divided_by_lab(next: u8, lab: u8, bigger: u8)
    requires
        lab <= bigger,
    ensures
        ({
            let work = next * 1800;
            let e = if lab >= 1 { lab as int } else { 1 };
            let s = crate::system_research::research_seconds_spec(next, lab);
            &&& s >= 1
            &&& work >= e ==> s * e <= work && work < (s + 1) * e
            &&& work < e ==> s == 1
            &&& crate::system_research::research_seconds_spec(next, bigger) <= s
            &&& next >= 1 ==> crate::system_research::research_seconds_spec(next, 2) < crate::system_research::research_seconds_spec(next, 1)
        }),
{
    let work = next * 1800;
    let e = if lab >= 1 { lab as int } else { 1 };
    let eb = if bigger >= 1 { bigger as int } else { 1 };
    lemma_quotient(work, e);
    if work >= e {
        lemma_below_quotient(1, work, e);
    } else {
        assert(work / e == 0) by (nonlinear_arith)
            requires
                0 <= work < e,
        ;
    }
    vstd::arithmetic::div_mod::lemma_div_is_ordered_by_denominator(work, e, eb);
    if next >= 1 {
        assert(work / 1 == work);
        lemma_quotient(work, 2);
    }
}

/// The shipyard's pace: its level (at least 1) times two to the nanite factory level, times the
/// cost that takes five minutes at pace one, as far as a `u64` holds it.
pub open spec fn shipyard_rate(shipyard: u8, nanite: u8, cost_for_five_minutes: int) -> int {
    let raw = cost_for_five_minutes * ((if shipyard >= 1 { shipyard as int } else { 1 }) * vstd::arithmetic::power2::pow2(nanite as nat));
    if raw <= u64::MAX { raw } else { u64::MAX as int }
}

/// `x` times 300 as far as a `u64` holds it.
pub open spec fn batch_work(x: int) -> int {
    if x * 300 <= u64::MAX { x * 300 } else { u64::MAX as int }
}

/// A batch of work `total` (a sum of costs times a quantity) at the shipyard takes the work
/// times five minutes over the shipyard's rate, and never less than five minutes; a bigger
/// shipyard is never slower, and doubling the shipyard halves a batch that takes at least ten
/// minutes.
proof fn lemma_batch_time(sum: int, quantity: u32, shipyard: u8, nanite: u8, bigger: u8, five: u64)
    requires
        sum >= 0,
        five == 1_000 || five == 2_000,
        shipyard <= bigger,
    ensures
        ({
            let total = crate::num::clamp_u64(sum * quantity);
            let work = batch_work(sum * quantity);
            let rate = shipyard_rate(shipyard, nanite, five as int);
            let s = crate::formulas::batch_seconds_spec(total, crate::formulas::shipyard_speed_spec(shipyard, nanite), five);
            &&& rate >= 1
            &&& s == (if work / rate >= 300 { work / rate } else { 300 })
            &&& crate::formulas::batch_seconds_spec(total, crate::formulas::shipyard_speed_spec(bigger, nanite), five) <= s
            &&& (1 <= shipyard && shipyard * 2 <= 255 && s >= 600) ==> crate::formulas::batch_seconds_spec(
                total,
                crate::formulas::shipyard_speed_spec((shipyard * 2) as u8, nanite),
                five,
            ) == s / 2
        }),
{
    let x = sum * quantity;
    assert(x >= 0) by (nonlinear_arith)
        requires
            x == sum * quantity,
            sum >= 0,
            quantity >= 0,
    ;
    let p = vstd::arithmetic::power2::pow2(nanite as nat);
    vstd::arithmetic::power2::lemma_pow2_pos(nanite as nat);
    let work = batch_work(x);
    let total = crate::num::clamp_u64(x);
    assert(crate::num::clamp_u64(total * 300) as int == work) by (nonlinear_arith)
        requires
            x >= 0,
            total == (if x > u64::MAX { u64::MAX as int } else { x }),
            work == (if x * 300 <= u64::MAX { x * 300 } else { u64::MAX as int }),
            crate::num::clamp_u64(total * 300) as int == (if total * 300 > u64::MAX { u64::MAX as int } else { total * 300 }),
    ;
    // the shipyard's rate at levels `a` of the shipyard
    assert forall|a: u8| #![trigger crate::formulas::shipyard_speed_spec(a, nanite)]
        crate::num::clamp_u64(five * crate::formulas::shipyard_speed_spec(a, nanite)) as int == shipyard_rate(a, nanite, five as int) by {
        let b = if a >= 1 { a as int } else { 1 };
        let y = b * p;
        assert(y >= 1) by (nonlinear_arith)
            requires
                y == b * p,
                b >= 1,
                p >= 1,
        ;
        let sp = crate::formulas::shipyard_speed_spec(a, nanite);
        assert(sp as int == (if y > u64::MAX { u64::MAX as int } else { y }));
        assert(crate::num::clamp_u64(five * sp) as int == (if five * y <= u64::MAX { five * y } else { u64::MAX as int })) by (nonlinear_arith)
            requires
                y >= 1,
                five >= 1000,
                sp as int == (if y > u64::MAX { u64::MAX as int } else { y }),
                crate::num::clamp_u64(five * sp) as int == (if five * sp > u64::MAX { u64::MAX as int } else { five * sp }),
        ;
    }
    let rate = shipyard_rate(shipyard, nanite, five as int);
    let rate_b = shipyard_rate(bigger, nanite, five as int);
    let bs = if shipyard >= 1 { shipyard as int } else { 1 };
    let bb = if bigger >= 1 { bigger as int } else { 1 };
    assert(1 <= rate <= rate_b) by (nonlinear_arith)
        requires
            1 <= bs <= bb,
            p >= 1,
            five >= 1000,
            rate == (if five * (bs * p) <= u64::MAX { five * (bs * p) } else { u64::MAX as int }),
            rate_b == (if five * (bb * p) <= u64::MAX { five * (bb * p) } else { u64::MAX as int }),
    ;
    assert(work >= 0);
    vstd::arithmetic::div_mod::lemma_div_is_ordered_by_denominator(work, rate, rate_b);
    let s = crate::formulas::batch_seconds_spec(total, crate::formulas::shipyard_speed_spec(shipyard, nanite), five);
    if 1 <= shipyard && shipyard * 2 <= 255 && s >= 600 {
        let q = work / rate;
        assert(q >= 600);
        lemma_quotient(work, rate);
        let rate2 = shipyard_rate((shipyard * 2) as u8, nanite, five as int);
        assert(rate2 == 2 * rate) by (nonlinear_arith)
            requires
                q >= 600,
                q * rate <= work,
                work <= u64::MAX,
                rate >= 1,
                bs == shipyard,
                rate == (if five * (bs * p) <= u64::MAX { five * (bs * p) } else { u64::MAX as int }),
                rate2 == (if five * ((2 * bs) * p) <= u64::MAX { five * ((2 * bs) * p) } else { u64::MAX as int }),
        ;
        vstd::arithmetic::div_mod::lemma_div_denominator(work, rate, 2);
        assert(work / (rate * 2) == work / rate2);
    }
}

/// A shipyard batch of `quantity` ships of type `ship_type` takes the ships' total cost times
/// five minutes over a thousand times the shipyard's pace (its level, at least 1, times two
/// to the nanite level), each figure as far as a `u64` holds it, and never less than five
/// minutes. A bigger shipyard is never slower, and doubling the shipyard halves a batch that
/// takes at least ten minutes.
pub proof fn law_ship_batch_time_divided_by_shipyard(ship_type: u8, quantity: u32, shipyard: u8, nanite: u8, bigger: u8)
    requires
        shipyard <= bigger,
    ensures
        ({
            let (m, c, d) = ship_cost_spec(ship_type);
            let work = batch_work((m + c + d) * quantity);
            let rate = shipyard_rate(shipyard, nanite, 1_000);
            let s = ship_build_seconds_spec(ship_type, quantity, shipyard, nanite);
            &&& rate >= 1
            &&& s == (if work / rate >= 300 { work / rate } else { 300 })
            &&& ship_build_seconds_spec(ship_type, quantity, bigger, nanite) <= s
            &&& (1 <= shipyard && shipyard * 2 <= 255 && s >= 600) ==> ship_build_seconds_spec(
                ship_type,
                quantity,
                (shipyard * 2) as u8,
                nanite,
            ) == s / 2
        }),
{
    let (m, c, d) = ship_cost_spec(ship_type);
    lemma_batch_time(m + c + d, quantity, shipyard, nanite, bigger, 1_000);
}

/// A shipyard batch of `quantity` defenses of type `defense_type` takes their total cost times
/// five minutes over two thousand times the shipyard's pace, each figure as far as a `u64`
/// holds it, and never less than five minutes. A bigger shipyard is never slower, and doubling
/// the shipyard halves a batch that takes at least ten minutes.
pub proof fn law_defense_batch_time_divided_by_shipyard(defense_type: u8, quantity: u32, shipyard: u8, nanite: u8, bigger: u8)
    requires
        shipyard <= bigger,
    ensures
        ({
            let (m, c, d) = defense_cost_spec(defense_type);
            let work = batch_work((m + c + d) * quantity);
            let rate = shipyard_rate(shipyard, nanite, 2_000);
            let s = defense_build_seconds_spec(defense_type, quantity, shipyard, nanite);
            &&& rate >= 1
            &&& s == (if work / rate >= 300 { work / rate } else { 300 })
            &&& defense_build_seconds_spec(defense_type, quantity, bigger, nanite) <= s
            &&& (1 <= shipyard && shipyard * 2 <= 255 && s >= 600) ==> defense_build_seconds_spec(
                defense_type,
                quantity,
                (shipyard * 2) as u8,
                nanite,
            ) == s / 2
        }),
{
    let (m, c, d) = defense_cost_spec(defense_type);
    lemma_batch_time(m + c + d, quantity, shipyard, nanite, bigger, 2_000);
}

} // verus!
