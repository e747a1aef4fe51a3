//! Battle simulation: unit statistics, stacks of identical units, volleys and rounds.
use vstd::prelude::*;

use crate::formulas::{defense_cost, defense_cost_spec, ship_cost, ship_cost_spec};
use crate::constants::MAX_COMBAT_ROUNDS;
use crate::num::{clamp_u64, min_u64, sat_mul};
use crate::planet::{MissionState, PlanetCoordinates, PlanetState};

verus! {

/// A group of identical units fighting together.
#[derive(Clone, Copy)]
pub struct CombatStack {
    pub kind: u8,
    pub count: u32,
    pub attack: u64,
    pub shield: u64,
    pub hull: u64,
    pub metal_cost: u64,
    pub crystal_cost: u64,
    pub is_defense: bool,
    pub repairable: bool,
}

/// Base (attack, shield, hull) of ship type `ship_type`.
pub open spec fn ship_stats_spec(ship_type: u8) -> (u64, u64, u64) {
    match ship_type {
        0 => (5, 10, 400),
        1 => (5, 25, 1200),
        2 => (50, 10, 400),
        3 => (150, 25, 1000),
        4 => (400, 50, 2700),
        5 => (1000, 200, 6000),
        6 => (700, 400, 7000),
        7 => (1000, 500, 7500),
        8 => (2000, 500, 11000),
        9 => (200000, 50000, 900000),
        10 => (1, 10, 1600),
        11 => (1, 1, 100),
        12 => (50, 100, 3000),
        13 => (1, 1, 200),
        _ => (0, 0, 0),
    }
}

pub fn ship_stats(ship_type: u8) -> (r: (u64, u64, u64))
    ensures
        r == ship_stats_spec(ship_type),
{
    match ship_type {
        0 => (5, 10, 400),
        1 => (5, 25, 1200),
        2 => (50, 10, 400),
        3 => (150, 25, 1000),
        4 => (400, 50, 2700),
        5 => (1000, 200, 6000),
        6 => (700, 400, 7000),
        7 => (1000, 500, 7500),
        8 => (2000, 500, 11000),
        9 => (200000, 50000, 900000),
        10 => (1, 10, 1600),
        11 => (1, 1, 100),
        12 => (50, 100, 3000),
        13 => (1, 1, 200),
        _ => (0, 0, 0),
    }
}

/// Base (attack, shield, hull) of defense type `defense_type`.
pub open spec fn defense_stats_spec(defense_type: u8) -> (u64, u64, u64) {
    match defense_type {
        0 => (80, 20, 200),
        1 => (100, 25, 200),
        2 => (250, 100, 800),
        3 => (1100, 200, 3500),
        4 => (250, 500, 800),
        5 => (3000, 300, 10000),
        6 => (1, 2000, 2000),
        7 => (1, 10000, 10000),
        8 => (1, 1, 800),
        9 => (12000, 1, 1500),
        _ => (0, 0, 0),
    }
}

pub fn defense_stats(defense_type: u8) -> (r: (u64, u64, u64))
    ensures
        r == defense_stats_spec(defense_type),
{
    match defense_type {
        0 => (80, 20, 200),
        1 => (100, 25, 200),
        2 => (250, 100, 800),
        3 => (1100, 200, 3500),
        4 => (250, 500, 800),
        5 => (3000, 300, 10000),
        6 => (1, 2000, 2000),
        7 => (1, 10000, 10000),
        8 => (1, 1, 800),
        9 => (12000, 1, 1500),
        _ => (0, 0, 0),
    }
}

/// Shots per allocated shot that attacker kind `a` fires at defender kind `d`.
pub open spec fn rapid_fire_spec(a: u8, d: u8) -> u64 {
    if a == 6 && (d == 2 || d == 3) {
        4
    } else if a == 6 && d == 4 {
        7
    } else if a == 6 && d == 5 {
        2
    } else if a == 6 && (d == 0 || d == 1 || d == 10) {
        3
    } else if a == 6 && (d == 11 || d == 13) {
        5
    } else if a == 7 && d <= 5 {
        2
    } else if a == 8 && d == 6 {
        2
    } else if a == 8 && d == 7 {
        3
    } else {
        1
    }
}

pub fn rapid_fire_multiplier(attacker_kind: u8, defender_kind: u8) -> (r: u64)
    ensures
        r == rapid_fire_spec(attacker_kind, defender_kind),
        1 <= r <= 7,
{
    let a = attacker_kind;
    let d = defender_kind;
    if a == 6 && (d == 2 || d == 3) {
        4
    } else if a == 6 && d == 4 {
        7
    } else if a == 6 && d == 5 {
        2
    } else if a == 6 && (d == 0 || d == 1 || d == 10) {
        3
    } else if a == 6 && (d == 11 || d == 13) {
        5
    } else if a == 7 && d <= 5 {
        2
    } else if a == 8 && d == 6 {
        2
    } else if a == 8 && d == 7 {
        3
    } else {
        1
    }
}

/// `base` raised by ten percent per technology level (saturating, rounded down).
pub open spec fn tech_bonus_spec(base: u64, tech_level: u8) -> u64 {
    (clamp_u64(base * (100 + tech_level * 10)) / 100) as u64
}

pub fn apply_weapons_bonus(base_attack: u64, tech_level: u8) -> (r: u64)
    ensures
        r == tech_bonus_spec(base_attack, tech_level),
{
    sat_mul(base_attack, 100 + tech_level as u64 * 10) / 100
}

pub fn apply_shield_bonus(base_shield: u64, tech_level: u8) -> (r: u64)
    ensures
        r == tech_bonus_spec(base_shield, tech_level),
{
    sat_mul(base_shield, 100 + tech_level as u64 * 10) / 100
}

pub fn apply_armor_bonus(base_hull: u64, tech_level: u8) -> (r: u64)
    ensures
        r == tech_bonus_spec(base_hull, tech_level),
{
    sat_mul(base_hull, 100 + tech_level as u64 * 10) / 100
}

/// The stack of `count` ships of type `ship_type` armed with the technologies of `src`.
pub open spec fn ship_stack_spec(count: u32, ship_type: u8, src: PlanetState) -> Option<CombatStack> {
    if count == 0 {
        None
    } else {
        let (a, s, h) = ship_stats_spec(ship_type);
        let (m, c, _) = ship_cost_spec(ship_type);
        Some(
            CombatStack {
                kind: ship_type,
                count,
                attack: tech_bonus_spec(a, src.weapons_technology),
                shield: tech_bonus_spec(s, src.shielding_technology),
                hull: tech_bonus_spec(h, src.armor_technology),
                metal_cost: m,
                crystal_cost: c,
                is_defense: false,
                repairable: false,
            },
        )
    }
}

pub fn ship_stack(count: u32, ship_type: u8, tech_source: &PlanetState) -> (r: Option<CombatStack>)
    ensures
        r == ship_stack_spec(count, ship_type, *tech_source),
{
    if count == 0 {
        return None;
    }
    let (attack, shield, hull) = ship_stats(ship_type);
    let (metal_cost, crystal_cost, _) = ship_cost(ship_type);
    Some(
        CombatStack {
            kind: ship_type,
            count,
            attack: apply_weapons_bonus(attack, tech_source.weapons_technology),
            shield: apply_shield_bonus(shield, tech_source.shielding_technology),
            hull: apply_armor_bonus(hull, tech_source.armor_technology),
            metal_cost,
            crystal_cost,
            is_defense: false,
            repairable: false,
        },
    )
}

/// The stack of `count` defenses of type `defense_type` with the technologies of `src`;
/// defenses up to the large shield dome (7) can be repaired.
pub open spec fn defense_stack_spec(count: u32, defense_type: u8, src: PlanetState) -> Option<CombatStack> {
    if count == 0 {
        None
    } else {
        let (a, s, h) = defense_stats_spec(defense_type);
        let (m, c, _) = defense_cost_spec(defense_type);
        Some(
            CombatStack {
                kind: defense_type,
                count,
                attack: tech_bonus_spec(a, src.weapons_technology),
                shield: tech_bonus_spec(s, src.shielding_technology),
                hull: tech_bonus_spec(h, src.armor_technology),
                metal_cost: m,
                crystal_cost: c,
                is_defense: true,
                repairable: defense_type <= 7,
            },
        )
    }
}

pub fn defense_stack(count: u32, defense_type: u8, tech_source: &PlanetState) -> (r: Option<
    CombatStack,
>)
    ensures
        r == defense_stack_spec(count, defense_type, *tech_source),
{
    if count == 0 {
        return None;
    }
    let (attack, shield, hull) = defense_stats(defense_type);
    let (metal_cost, crystal_cost, _) = defense_cost(defense_type);
    Some(
        CombatStack {
            kind: defense_type,
            count,
            attack: apply_weapons_bonus(attack, tech_source.weapons_technology),
            shield: apply_shield_bonus(shield, tech_source.shielding_technology),
            hull: apply_armor_bonus(hull, tech_source.armor_technology),
            metal_cost,
            crystal_cost,
            is_defense: true,
            repairable: defense_type <= 7,
        },
    )
}

/// Total number of units in `stacks`.
pub open spec fn units(stacks: Seq<CombatStack>) -> int
    decreases stacks.len(),
{
    if stacks.len() == 0 {
        0
    } else {
        units(stacks.drop_last()) + stacks.last().count
    }
}

pub proof fn lemma_units_bound(stacks: Seq<CombatStack>)
    ensures
        0 <= units(stacks) <= stacks.len() * 0xffff_ffff,
    decreases stacks.len(),
{
    if stacks.len() > 0 {
        lemma_units_bound(stacks.drop_last());
    }
}

pub fn total_stack_units(stacks: &Vec<CombatStack>) -> (r: u64)
    requires
        stacks@.len() <= 0xffff_ffff,
    ensures
        r == units(stacks@),
{
    let mut total: u64 = 0;
    let mut i: usize = 0;
    while i < stacks.len()
        invariant
            i <= stacks@.len() <= 0xffff_ffff,
            total == units(stacks@.take(i as int)),
        decreases stacks@.len() - i,
    {
        proof {
            assert(stacks@.take(i + 1).drop_last() =~= stacks@.take(i as int));
            lemma_units_bound(stacks@.take(i as int));
            assert(i * 0xffff_ffff + 0xffff_ffff <= 0xffff_ffff * 0xffff_ffff + 0xffff_ffff) by (nonlinear_arith)
                requires
                    i <= 0xffff_ffff,
            ;
        }
        total = total + stacks[i].count as u64;
        i = i + 1;
    }
    assert(stacks@.take(stacks@.len() as int) =~= stacks@);
    total
}

/// Stack `d` after losing `k` units.
pub open spec fn with_count(d: CombatStack, k: int) -> CombatStack {
    CombatStack { count: (d.count - k) as u32, ..d }
}

/// Stacks `defs` after attacker stack `a` fires at the stacks from `idx` on, with
/// `remaining` shots left, `total` targets counted at the start of its turn and `kills`
/// accumulated so far. Shots are shared in proportion to stack sizes (at least one shot per
/// stack while shots remain); each shot deals attack minus shield, and whole hulls die.
pub open spec fn fire_at(
    a: CombatStack,
    defs: Seq<CombatStack>,
    idx: nat,
    remaining: int,
    total: int,
    kills: int,
) -> (Seq<CombatStack>, int)
    decreases defs.len() - idx,
{
    if idx >= defs.len() {
        (defs, kills)
    } else {
        let d = defs[idx as int];
        if d.count == 0 {
            fire_at(a, defs, idx + 1, remaining, total, kills)
        } else {
            let alloc0 = a.count * d.count / total;
            let alloc1 = if alloc0 == 0 && remaining > 0 {
                1
            } else {
                alloc0
            };
            let alloc = if alloc1 < remaining {
                alloc1
            } else {
                remaining
            };
            if alloc == 0 {
                fire_at(a, defs, idx + 1, remaining, total, kills)
            } else {
                let rem = remaining - alloc;
                let eff = clamp_u64(alloc * rapid_fire_spec(a.kind, d.kind));
                let dmg = a.attack.saturating_sub(d.shield);
                if dmg == 0 {
                    fire_at(a, defs, idx + 1, rem, total, kills)
                } else {
                    let possible = clamp_u64(eff * dmg) as int / (if d.hull >= 1 {
                        d.hull as int
                    } else {
                        1
                    });
                    let k = if possible < d.count {
                        possible
                    } else {
                        d.count as int
                    };
                    if k > 0 {
                        fire_at(
                            a,
                            defs.update(idx as int, with_count(d, k)),
                            idx + 1,
                            rem,
                            total,
                            clamp_u64(kills + k) as int,
                        )
                    } else {
                        fire_at(a, defs, idx + 1, rem, total, kills)
                    }
                }
            }
        }
    }
}

/// Stacks `defs` and the kill count after the attacking stacks from `i` on have fired.
/// Stacks without units or attack do not fire; the volley ends when no target is left.
pub open spec fn volley_from(atts: Seq<CombatStack>, i: nat, defs: Seq<CombatStack>, kills: int) -> (Seq<CombatStack>, int)
    decreases atts.len() - i,
{
    if i >= atts.len() {
        (defs, kills)
    } else {
        let a = atts[i as int];
        if !(a.count > 0 && a.attack > 0) {
            volley_from(atts, i + 1, defs, kills)
        } else if units(defs) == 0 {
            (defs, kills)
        } else {
            let (d2, k2) = fire_at(a, defs, 0, a.count as int, units(defs), kills);
            volley_from(atts, i + 1, d2, k2)
        }
    }
}

/// One volley of `atts` on `defs`: the surviving defenders and the number of kills.
pub open spec fn volley(atts: Seq<CombatStack>, defs: Seq<CombatStack>) -> (Seq<CombatStack>, int) {
    volley_from(atts, 0, defs, 0)
}

/// Whether `b` is `a` with the same stacks, each keeping at most as many units.
pub open spec fn same_stacks_fewer_units(a: Seq<CombatStack>, b: Seq<CombatStack>) -> bool {
    &&& a.len() == b.len()
    &&& forall|j: int|
        0 <= j < a.len() ==> #[trigger] b[j] == CombatStack { count: b[j].count, ..a[j] } && b[j].count
            <= a[j].count
}

pub proof fn lemma_fire_at_shape(
    a: CombatStack,
    defs: Seq<CombatStack>,
    idx: nat,
    remaining: int,
    total: int,
    kills: int,
)
    requires
        kills >= 0,
    ensures
        same_stacks_fewer_units(defs, fire_at(a, defs, idx, remaining, total, kills).0),
        fire_at(a, defs, idx, remaining, total, kills).1 >= 0,
    decreases defs.len() - idx,
{
    if idx < defs.len() {
        let d = defs[idx as int];
        if d.count != 0 {
            let alloc0 = a.count * d.count / total;
            let alloc1 = if alloc0 == 0 && remaining > 0 {
                1
            } else {
                alloc0
            };
            let alloc = if alloc1 < remaining {
                alloc1
            } else {
                remaining
            };
            if alloc != 0 {
                let rem = remaining - alloc;
                let eff = clamp_u64(alloc * rapid_fire_spec(a.kind, d.kind));
                let dmg = a.attack.saturating_sub(d.shield);
                if dmg != 0 {
                    let possible = clamp_u64(eff * dmg) as int / (if d.hull >= 1 {
                        d.hull as int
                    } else {
                        1
                    });
                    let k = if possible < d.count {
                        possible
                    } else {
                        d.count as int
                    };
                    if k > 0 {
                        let d2 = defs.update(idx as int, with_count(d, k));
                        lemma_fire_at_shape(a, d2, idx + 1, rem, total, clamp_u64(kills + k) as int);
                        let out = fire_at(a, d2, idx + 1, rem, total, clamp_u64(kills + k) as int).0;
                        assert forall|j: int| 0 <= j < defs.len() implies #[trigger] out[j]
                            == CombatStack { count: out[j].count, ..defs[j] } && out[j].count
                            <= defs[j].count by {
                            assert(out[j] == CombatStack { count: out[j].count, ..d2[j] });
                        }
                        return;
                    }
                }
                lemma_fire_at_shape(a, defs, idx + 1, rem, total, kills);
                return;
            }
        }
        lemma_fire_at_shape(a, defs, idx + 1, remaining, total, kills);
    }
}

pub proof fn lemma_volley_from_shape(atts: Seq<CombatStack>, i: nat, defs: Seq<CombatStack>, kills: int)
    requires
        kills >= 0,
    ensures
        same_stacks_fewer_units(defs, volley_from(atts, i, defs, kills).0),
        volley_from(atts, i, defs, kills).1 >= 0,
    decreases atts.len() - i,
{
    if i < atts.len() {
        let a = atts[i as int];
        if !(a.count > 0 && a.attack > 0) {
            lemma_volley_from_shape(atts, i + 1, defs, kills);
        } else if units(defs) != 0 {
            let (d2, k2) = fire_at(a, defs, 0, a.count as int, units(defs), kills);
            lemma_fire_at_shape(a, defs, 0, a.count as int, units(defs), kills);
            lemma_volley_from_shape(atts, i + 1, d2, k2);
            let out = volley_from(atts, i + 1, d2, k2).0;
            assert forall|j: int| 0 <= j < defs.len() implies #[trigger] out[j] == CombatStack {
                count: out[j].count,
                ..defs[j]
            } && out[j].count <= defs[j].count by {
                assert(out[j] == CombatStack { count: out[j].count, ..d2[j] });
                assert(d2[j] == CombatStack { count: d2[j].count, ..defs[j] });
            }
        }
    }
}

/// Fires one volley from `attacking` at `defending` and returns the number of kills.
pub fn apply_volley(attacking: &Vec<CombatStack>, defending: &mut Vec<CombatStack>) -> (r: u64)
    requires
        old(defending)@.len() <= 0xffff_ffff,
    ensures
        (final(defending)@, r as int) == volley(attacking@, old(defending)@),
{
    let ghost d0 = defending@;
    let mut total_kills: u64 = 0;
    let mut i: usize = 0;
    while i < attacking.len()
        invariant
            i <= attacking@.len(),
            defending@.len() == d0.len(),
            d0.len() <= 0xffff_ffff,
            volley_from(attacking@, 0, d0, 0) == volley_from(attacking@, i as nat, defending@, total_kills as int),
        decreases attacking@.len() - i,
    {
        let attacker = attacking[i];
        if !(attacker.count > 0 && attacker.attack > 0) {
            i = i + 1;
            continue;
        }
        let total_targets = total_stack_units(defending);
        if total_targets == 0 {
            i = attacking.len();
            continue;
        }
        let ghost before = defending@;
        let ghost kills_before = total_kills as int;
        let mut remaining: u64 = attacker.count as u64;
        let mut idx: usize = 0;
        while idx < defending.len()
            invariant
                idx <= defending@.len(),
                defending@.len() == d0.len(),
                total_targets >= 1,
                remaining <= attacker.count,
                fire_at(attacker, before, 0, attacker.count as int, total_targets as int, kills_before)
                    == fire_at(attacker, defending@, idx as nat, remaining as int, total_targets as int, total_kills as int),
            decreases defending@.len() - idx,
        {
            let d = defending[idx];
            let target_count = d.count as u64;
            if target_count == 0 {
                idx = idx + 1;
                continue;
            }
            proof {
                assert(attacker.count as u64 * target_count <= 0xffff_ffff * 0xffff_ffff) by (nonlinear_arith)
                    requires
                        attacker.count <= 0xffff_ffff,
                        target_count <= 0xffff_ffff,
                ;
            }
            let mut allocated: u64 = attacker.count as u64 * target_count / total_targets;
            if allocated == 0 && remaining > 0 {
                allocated = 1;
            }
            if remaining < allocated {
                allocated = remaining;
            }
            if allocated == 0 {
                idx = idx + 1;
                continue;
            }
            remaining = remaining - allocated;
            let multiplier = rapid_fire_multiplier(attacker.kind, d.kind);
            let effective_shots = sat_mul(allocated, multiplier);
            let damage_per_shot = attacker.attack.saturating_sub(d.shield);
            if damage_per_shot == 0 {
                idx = idx + 1;
                continue;
            }
            let hull: u64 = if d.hull >= 1 {
                d.hull
            } else {
                1
            };
            let possible_kills = sat_mul(effective_shots, damage_per_shot) / hull;
            let kills: u32 = if possible_kills < d.count as u64 {
                possible_kills as u32
            } else {
                d.count
            };
            if kills > 0 {
                let nd = CombatStack { count: d.count - kills, ..d };
                defending.set(idx, nd);
                total_kills = total_kills.saturating_add(kills as u64);
            }
            idx = idx + 1;
        }
        i = i + 1;
    }
    assert(volley_from(attacking@, i as nat, defending@, total_kills as int) == (defending@, total_kills as int));
    total_kills
}

/// The stacks of a battle after rounds `round..` have been fought, with `rounds` counted.
/// A round is an attacker volley followed by a defender volley; the battle stops after
/// the last round, when a side has no units left, or when a round kills nothing.
pub open spec fn battle(att: Seq<CombatStack>, def: Seq<CombatStack>, round: nat, rounds: nat) -> (Seq<
    CombatStack,
>, Seq<CombatStack>, nat)
    decreases MAX_COMBAT_ROUNDS - round,
{
    if round >= MAX_COMBAT_ROUNDS || units(att) == 0 || units(def) == 0 {
        (att, def, rounds)
    } else {
        let (d2, dk) = volley(att, def);
        let (a2, ak) = volley(d2, att);
        if dk == 0 && ak == 0 {
            (a2, d2, rounds + 1)
        } else {
            battle(a2, d2, round + 1, rounds + 1)
        }
    }
}

/// Fights the battle between `attacker` and `defender` and returns the number of rounds.
pub fn run_battle(attacker: &mut Vec<CombatStack>, defender: &mut Vec<CombatStack>) -> (rounds: u8)
    requires
        old(attacker)@.len() <= 0xffff_ffff,
        old(defender)@.len() <= 0xffff_ffff,
    ensures
        (final(attacker)@, final(defender)@, rounds as nat) == battle(old(attacker)@, old(defender)@, 0, 0),
        same_stacks_fewer_units(old(attacker)@, final(attacker)@),
        same_stacks_fewer_units(old(defender)@, final(defender)@),
{
    let ghost a0 = attacker@;
    let ghost d0 = defender@;
    let mut rounds: u8 = 0;
    let mut done = false;
    while rounds < MAX_COMBAT_ROUNDS && !done
        invariant
            rounds <= MAX_COMBAT_ROUNDS,
            same_stacks_fewer_units(a0, attacker@),
            same_stacks_fewer_units(d0, defender@),
            a0.len() <= 0xffff_ffff,
            d0.len() <= 0xffff_ffff,
            battle(a0, d0, 0, 0) == (if done {
                (attacker@, defender@, rounds as nat)
            } else {
                battle(attacker@, defender@, rounds as nat, rounds as nat)
            }),
        decreases MAX_COMBAT_ROUNDS - rounds + (if done { 0int } else { 1int }),
    {
        if total_stack_units(attacker) == 0 || total_stack_units(defender) == 0 {
            done = true;
        } else {
            let ghost ab = attacker@;
            let ghost db = defender@;
            let defender_kills = apply_volley(attacker, defender);
            proof {
                lemma_volley_from_shape(ab, 0, db, 0);
            }
            let ghost dm = defender@;
            let attacker_kills = apply_volley(defender, attacker);
            proof {
                lemma_volley_from_shape(dm, 0, ab, 0);
                assert forall|j: int| 0 <= j < a0.len() implies #[trigger] attacker@[j] == CombatStack {
                    count: attacker@[j].count,
                    ..a0[j]
                } && attacker@[j].count <= a0[j].count by {
                    assert(attacker@[j] == CombatStack { count: attacker@[j].count, ..ab[j] });
                }
                assert forall|j: int| 0 <= j < d0.len() implies #[trigger] defender@[j] == CombatStack {
                    count: defender@[j].count,
                    ..d0[j]
                } && defender@[j].count <= d0[j].count by {
                    assert(defender@[j] == CombatStack { count: defender@[j].count, ..db[j] });
                }
            }
            rounds = rounds + 1;
            if defender_kills == 0 && attacker_kills == 0 {
                done = true;
            }
        }
    }
    rounds
}

/// The stacks contributed by one optional stack.
pub open spec fn opt_seq(o: Option<CombatStack>) -> Seq<CombatStack> {
    match o {
        Some(s) => seq![s],
        None => Seq::empty(),
    }
}

fn push_opt(v: &mut Vec<CombatStack>, o: Option<CombatStack>)
    ensures
        final(v)@ == old(v)@ + opt_seq(o),
{
    match o {
        Some(s) => {
            v.push(s);
            assert(final(v)@ =~= old(v)@ + opt_seq(o));
        },
        None => {
            assert(old(v)@ + opt_seq(o) =~= old(v)@);
        },
    }
}

/// The attacking stacks of mission `m`, armed with the technologies of `src`.
pub open spec fn attacker_stacks_spec(m: MissionState, src: PlanetState) -> Seq<CombatStack> {
    opt_seq(ship_stack_spec(m.small_cargo, 0, src)) + opt_seq(ship_stack_spec(m.large_cargo, 1, src))
        + opt_seq(ship_stack_spec(m.light_fighter, 2, src)) + opt_seq(
        ship_stack_spec(m.heavy_fighter, 3, src),
    ) + opt_seq(ship_stack_spec(m.cruiser, 4, src)) + opt_seq(ship_stack_spec(m.battleship, 5, src))
        + opt_seq(ship_stack_spec(m.battlecruiser, 6, src)) + opt_seq(
        ship_stack_spec(m.bomber, 7, src),
    ) + opt_seq(ship_stack_spec(m.destroyer, 8, src)) + opt_seq(ship_stack_spec(m.deathstar, 9, src))
        + opt_seq(ship_stack_spec(m.recycler, 10, src)) + opt_seq(
        ship_stack_spec(m.espionage_probe, 11, src),
    ) + opt_seq(ship_stack_spec(m.colony_ship, 12, src))
}

pub fn build_attacker_stacks(mission: &MissionState, source: &PlanetState) -> (r: Vec<CombatStack>)
    ensures
        r@ == attacker_stacks_spec(*mission, *source),
        r@.len() <= 13,
{
    let mut v: Vec<CombatStack> = Vec::new();
    push_opt(&mut v, ship_stack(mission.small_cargo, 0, source));
    push_opt(&mut v, ship_stack(mission.large_cargo, 1, source));
    push_opt(&mut v, ship_stack(mission.light_fighter, 2, source));
    push_opt(&mut v, ship_stack(mission.heavy_fighter, 3, source));
    push_opt(&mut v, ship_stack(mission.cruiser, 4, source));
    push_opt(&mut v, ship_stack(mission.battleship, 5, source));
    push_opt(&mut v, ship_stack(mission.battlecruiser, 6, source));
    push_opt(&mut v, ship_stack(mission.bomber, 7, source));
    push_opt(&mut v, ship_stack(mission.destroyer, 8, source));
    push_opt(&mut v, ship_stack(mission.deathstar, 9, source));
    push_opt(&mut v, ship_stack(mission.recycler, 10, source));
    push_opt(&mut v, ship_stack(mission.espionage_probe, 11, source));
    push_opt(&mut v, ship_stack(mission.colony_ship, 12, source));
    assert(v@ =~= attacker_stacks_spec(*mission, *source));
    v
}

/// The defending stacks of planet `d`: its ships (including satellites) and defenses.
pub open spec fn defender_stacks_spec(d: PlanetState) -> Seq<CombatStack> {
    opt_seq(ship_stack_spec(d.small_cargo, 0, d)) + opt_seq(ship_stack_spec(d.large_cargo, 1, d))
        + opt_seq(ship_stack_spec(d.light_fighter, 2, d)) + opt_seq(
        ship_stack_spec(d.heavy_fighter, 3, d),
    ) + opt_seq(ship_stack_spec(d.cruiser, 4, d)) + opt_seq(ship_stack_spec(d.battleship, 5, d))
        + opt_seq(ship_stack_spec(d.battlecruiser, 6, d)) + opt_seq(ship_stack_spec(d.bomber, 7, d))
        + opt_seq(ship_stack_spec(d.destroyer, 8, d)) + opt_seq(ship_stack_spec(d.deathstar, 9, d))
        + opt_seq(ship_stack_spec(d.recycler, 10, d)) + opt_seq(
        ship_stack_spec(d.espionage_probe, 11, d),
    ) + opt_seq(ship_stack_spec(d.colony_ship, 12, d)) + opt_seq(
        ship_stack_spec(d.solar_satellite, 13, d),
    ) + opt_seq(defense_stack_spec(d.rocket_launcher, 0, d)) + opt_seq(
        defense_stack_spec(d.light_laser, 1, d),
    ) + opt_seq(defense_stack_spec(d.heavy_laser, 2, d)) + opt_seq(
        defense_stack_spec(d.gauss_cannon, 3, d),
    ) + opt_seq(defense_stack_spec(d.ion_cannon, 4, d)) + opt_seq(
        defense_stack_spec(d.plasma_turret, 5, d),
    ) + opt_seq(defense_stack_spec(d.small_shield_dome, 6, d)) + opt_seq(
        defense_stack_spec(d.large_shield_dome, 7, d),
    )
}

pub fn build_defender_stacks(destination: &PlanetState) -> (r: Vec<CombatStack>)
    ensures
        r@ == defender_stacks_spec(*destination),
        r@.len() <= 22,
{
    let d = destination;
    let mut v: Vec<CombatStack> = Vec::new();
    push_opt(&mut v, ship_stack(d.small_cargo, 0, d));
    push_opt(&mut v, ship_stack(d.large_cargo, 1, d));
    push_opt(&mut v, ship_stack(d.light_fighter, 2, d));
    push_opt(&mut v, ship_stack(d.heavy_fighter, 3, d));
    push_opt(&mut v, ship_stack(d.cruiser, 4, d));
    push_opt(&mut v, ship_stack(d.battleship, 5, d));
    push_opt(&mut v, ship_stack(d.battlecruiser, 6, d));
    push_opt(&mut v, ship_stack(d.bomber, 7, d));
    push_opt(&mut v, ship_stack(d.destroyer, 8, d));
    push_opt(&mut v, ship_stack(d.deathstar, 9, d));
    push_opt(&mut v, ship_stack(d.recycler, 10, d));
    push_opt(&mut v, ship_stack(d.espionage_probe, 11, d));
    push_opt(&mut v, ship_stack(d.colony_ship, 12, d));
    push_opt(&mut v, ship_stack(d.solar_satellite, 13, d));
    push_opt(&mut v, defense_stack(d.rocket_launcher, 0, d));
    push_opt(&mut v, defense_stack(d.light_laser, 1, d));
    push_opt(&mut v, defense_stack(d.heavy_laser, 2, d));
    push_opt(&mut v, defense_stack(d.gauss_cannon, 3, d));
    push_opt(&mut v, defense_stack(d.ion_cannon, 4, d));
    push_opt(&mut v, defense_stack(d.plasma_turret, 5, d));
    push_opt(&mut v, defense_stack(d.small_shield_dome, 6, d));
    push_opt(&mut v, defense_stack(d.large_shield_dome, 7, d));
    assert(v@ =~= defender_stacks_spec(*destination));
    v
}

/// Survivor counts of the ship stacks of `stacks`, indexed by ship type (14 entries).
pub open spec fn fleet_counts(stacks: Seq<CombatStack>) -> Seq<u32>
    decreases stacks.len(),
{
    if stacks.len() == 0 {
        Seq::new(14, |i: int| 0u32)
    } else {
        let c = fleet_counts(stacks.drop_last());
        let s = stacks.last();
        if !s.is_defense && s.kind < 14 {
            c.update(s.kind as int, s.count)
        } else {
            c
        }
    }
}

/// Survivor counts of the defense stacks of `stacks`, indexed by defense type (10 entries).
pub open spec fn defense_counts(stacks: Seq<CombatStack>) -> Seq<u32>
    decreases stacks.len(),
{
    if stacks.len() == 0 {
        Seq::new(10, |i: int| 0u32)
    } else {
        let c = defense_counts(stacks.drop_last());
        let s = stacks.last();
        if s.is_defense && s.kind < 10 {
            c.update(s.kind as int, s.count)
        } else {
            c
        }
    }
}

pub proof fn lemma_counts_len(stacks: Seq<CombatStack>)
    ensures
        fleet_counts(stacks).len() == 14,
        defense_counts(stacks).len() == 10,
    decreases stacks.len(),
{
    if stacks.len() > 0 {
        lemma_counts_len(stacks.drop_last());
    }
}

pub fn fleet_counts_from_stacks(stacks: &Vec<CombatStack>) -> (r: [u32; 14])
    ensures
        r@ == fleet_counts(stacks@),
{
    let mut counts = [0u32; 14];
    let mut i: usize = 0;
    assert(counts@ =~= fleet_counts(stacks@.take(0)));
    while i < stacks.len()
        invariant
            i <= stacks@.len(),
            counts@ == fleet_counts(stacks@.take(i as int)),
        decreases stacks@.len() - i,
    {
        proof {
            assert(stacks@.take(i + 1).drop_last() =~= stacks@.take(i as int));
            lemma_counts_len(stacks@.take(i as int));
        }
        let s = stacks[i];
        if !s.is_defense && (s.kind as usize) < 14 {
            counts[s.kind as usize] = s.count;
        }
        i = i + 1;
    }
    assert(stacks@.take(stacks@.len() as int) =~= stacks@);
    counts
}

pub fn defense_counts_from_stacks(stacks: &Vec<CombatStack>) -> (r: [u32; 10])
    ensures
        r@ == defense_counts(stacks@),
{
    let mut counts = [0u32; 10];
    let mut i: usize = 0;
    assert(counts@ =~= defense_counts(stacks@.take(0)));
    while i < stacks.len()
        invariant
            i <= stacks@.len(),
            counts@ == defense_counts(stacks@.take(i as int)),
        decreases stacks@.len() - i,
    {
        proof {
            assert(stacks@.take(i + 1).drop_last() =~= stacks@.take(i as int));
            lemma_counts_len(stacks@.take(i as int));
        }
        let s = stacks[i];
        if s.is_defense && (s.kind as usize) < 10 {
            counts[s.kind as usize] = s.count;
        }
        i = i + 1;
    }
    assert(stacks@.take(stacks@.len() as int) =~= stacks@);
    counts
}

/// `d` with its ships and non-missile defenses replaced by the given survivor counts.
pub open spec fn with_survivors(d: PlanetState, f: Seq<u32>, g: Seq<u32>) -> PlanetState {
    PlanetState {
        small_cargo: f[0],
        large_cargo: f[1],
        light_fighter: f[2],
        heavy_fighter: f[3],
        cruiser: f[4],
        battleship: f[5],
        battlecruiser: f[6],
        bomber: f[7],
        destroyer: f[8],
        deathstar: f[9],
        recycler: f[10],
        espionage_probe: f[11],
        colony_ship: f[12],
        solar_satellite: f[13],
        rocket_launcher: g[0],
        light_laser: g[1],
        heavy_laser: g[2],
        gauss_cannon: g[3],
        ion_cannon: g[4],
        plasma_turret: g[5],
        small_shield_dome: g[6],
        large_shield_dome: g[7],
        ..d
    }
}

pub fn apply_defender_survivors(destination: &mut PlanetState, fleet_counts: [u32; 14], defense_counts: [u32; 10])
    ensures
        *final(destination) == with_survivors(*old(destination), fleet_counts@, defense_counts@),
{
    destination.small_cargo = fleet_counts[0];
    destination.large_cargo = fleet_counts[1];
    destination.light_fighter = fleet_counts[2];
    destination.heavy_fighter = fleet_counts[3];
    destination.cruiser = fleet_counts[4];
    destination.battleship = fleet_counts[5];
    destination.battlecruiser = fleet_counts[6];
    destination.bomber = fleet_counts[7];
    destination.destroyer = fleet_counts[8];
    destination.deathstar = fleet_counts[9];
    destination.recycler = fleet_counts[10];
    destination.espionage_probe = fleet_counts[11];
    destination.colony_ship = fleet_counts[12];
    destination.solar_satellite = fleet_counts[13];
    destination.rocket_launcher = defense_counts[0];
    destination.light_laser = defense_counts[1];
    destination.heavy_laser = defense_counts[2];
    destination.gauss_cannon = defense_counts[3];
    destination.ion_cannon = defense_counts[4];
    destination.plasma_turret = defense_counts[5];
    destination.small_shield_dome = defense_counts[6];
    destination.large_shield_dome = defense_counts[7];
}

/// Debris left by `destroyed` units of the given cost: thirty percent of metal and crystal.
pub open spec fn fleet_debris_spec(destroyed: u32, metal_cost: u64, crystal_cost: u64) -> (u64, u64) {
    (
        (clamp_u64(clamp_u64(metal_cost * destroyed) * 3) / 10) as u64,
        (clamp_u64(clamp_u64(crystal_cost * destroyed) * 3) / 10) as u64,
    )
}

pub fn fleet_debris(destroyed_count: u32, metal_cost: u64, crystal_cost: u64) -> (r: (u64, u64))
    ensures
        r == fleet_debris_spec(destroyed_count, metal_cost, crystal_cost),
{
    let total_metal = sat_mul(metal_cost, destroyed_count as u64);
    let total_crystal = sat_mul(crystal_cost, destroyed_count as u64);
    (sat_mul(total_metal, 3) / 10, sat_mul(total_crystal, 3) / 10)
}

/// Loot taken from `d` into `room` cargo space: up to half its metal, then up to a quarter
/// of its crystal, then up to a quarter of its deuterium, in that order of priority.
pub open spec fn plunder_spec(d: PlanetState, room: u64) -> (u64, u64, u64) {
    if room == 0 {
        (0, 0, 0)
    } else {
        let metal = min_u64(d.metal / 2, room);
        let after_metal = (room - metal) as u64;
        let crystal = min_u64(d.crystal / 4, after_metal);
        let after_crystal = (after_metal - crystal) as u64;
        let deuterium = min_u64(d.deuterium / 4, after_crystal);
        (metal, crystal, deuterium)
    }
}

/// Takes the loot described by `plunder_spec` out of `destination`.
pub fn plunder_resources(destination: &mut PlanetState, cargo_room: u64) -> (r: (u64, u64, u64))
    ensures
        r == plunder_spec(*old(destination), cargo_room),
        *final(destination) == (PlanetState {
            metal: (old(destination).metal - r.0) as u64,
            crystal: (old(destination).crystal - r.1) as u64,
            deuterium: (old(destination).deuterium - r.2) as u64,
            ..*old(destination)
        }),
{
    if cargo_room == 0 {
        return (0, 0, 0);
    }
    let desired_metal = destination.metal / 2;
    let desired_crystal = destination.crystal / 4;
    let desired_deuterium = destination.deuterium / 4;
    let metal = if desired_metal <= cargo_room {
        desired_metal
    } else {
        cargo_room
    };
    let after_metal = cargo_room - metal;
    let crystal = if desired_crystal <= after_metal {
        desired_crystal
    } else {
        after_metal
    };
    let after_crystal = after_metal - crystal;
    let deuterium = if desired_deuterium <= after_crystal {
        desired_deuterium
    } else {
        after_crystal
    };
    destination.metal = destination.metal - metal;
    destination.crystal = destination.crystal - crystal;
    destination.deuterium = destination.deuterium - deuterium;
    (metal, crystal, deuterium)
}

/// Debris gathered into `room` cargo space when recyclers are present: metal first, then crystal.
pub open spec fn collect_spec(c: PlanetCoordinates, room: u64, recyclers: u32) -> (u64, u64) {
    if room == 0 || recyclers == 0 {
        (0, 0)
    } else {
        let metal = min_u64(c.debris_metal, room);
        let crystal = min_u64(c.debris_crystal, (room - metal) as u64);
        (metal, crystal)
    }
}

/// Takes the debris described by `collect_spec` out of the debris field.
pub fn collect_debris(coords: &mut PlanetCoordinates, cargo_room: u64, recyclers: u32) -> (r: (u64, u64))
    ensures
        r == collect_spec(*old(coords), cargo_room, recyclers),
        *final(coords) == (PlanetCoordinates {
            debris_metal: (old(coords).debris_metal - r.0) as u64,
            debris_crystal: (old(coords).debris_crystal - r.1) as u64,
            ..*old(coords)
        }),
{
    if cargo_room == 0 || recyclers == 0 {
        return (0, 0);
    }
    let metal = if coords.debris_metal <= cargo_room {
        coords.debris_metal
    } else {
        cargo_room
    };
    let after_metal = cargo_room - metal;
    let crystal = if coords.debris_crystal <= after_metal {
        coords.debris_crystal
    } else {
        after_metal
    };
    coords.debris_metal = coords.debris_metal - metal;
    coords.debris_crystal = coords.debris_crystal - crystal;
    (metal, crystal)
}

/// Saturating product of two `u32` values.
pub fn sat_mul_u32(a: u32, b: u32) -> (r: u32)
    ensures
        r == (if a * b > u32::MAX {
            u32::MAX as int
        } else {
            a * b
        }),
{
    match a.checked_mul(b) {
        Some(v) => v,
        None => u32::MAX,
    }
}

/// Debris (metal, crystal) left by the losses of the first `n` attacker stacks.
pub open spec fn attacker_debris(before: Seq<CombatStack>, after: Seq<CombatStack>, n: nat) -> (u64, u64)
    decreases n,
{
    if n == 0 {
        (0, 0)
    } else {
        let (m0, c0) = attacker_debris(before, after, (n - 1) as nat);
        let b = before[n - 1];
        let a = after[n - 1];
        let (m, c) = fleet_debris_spec(b.count.saturating_sub(a.count), b.metal_cost, b.crystal_cost);
        (m0.saturating_add(m), c0.saturating_add(c))
    }
}

/// Units of a repairable defense stack that are repaired after losing `destroyed`: seventy percent.
pub open spec fn repaired_units(destroyed: u32) -> u32 {
    ((if destroyed * 7 > u32::MAX {
        u32::MAX as int
    } else {
        destroyed * 7
    }) / 10) as u32
}

/// Defender survivors (ships, defenses) and accumulated debris after accounting the first
/// `n` defender stacks: ships die for good and leave debris; repairable defenses get
/// seventy percent of their losses back and only the rest leaves debris.
pub open spec fn defender_aftermath(
    before: Seq<CombatStack>,
    after: Seq<CombatStack>,
    n: nat,
    f0: Seq<u32>,
    g0: Seq<u32>,
    m0: u64,
    c0: u64,
) -> (Seq<u32>, Seq<u32>, u64, u64)
    decreases n,
{
    if n == 0 {
        (f0, g0, m0, c0)
    } else {
        let (f, g, m, c) = defender_aftermath(before, after, (n - 1) as nat, f0, g0, m0, c0);
        let b = before[n - 1];
        let a = after[n - 1];
        let destroyed = b.count.saturating_sub(a.count);
        if b.is_defense && b.repairable {
            let repaired = repaired_units(destroyed);
            let (dm, dc) = fleet_debris_spec((destroyed - repaired) as u32, b.metal_cost, b.crystal_cost);
            let g2 = if b.kind < 10 {
                g.update(b.kind as int, a.count.saturating_add(repaired))
            } else {
                g
            };
            (f, g2, m.saturating_add(dm), c.saturating_add(dc))
        } else if b.is_defense {
            let g2 = if b.kind < 10 {
                g.update(b.kind as int, a.count)
            } else {
                g
            };
            (f, g2, m, c)
        } else {
            let (dm, dc) = fleet_debris_spec(destroyed, b.metal_cost, b.crystal_cost);
            let f2 = if b.kind < 14 {
                f.update(b.kind as int, a.count)
            } else {
                f
            };
            (f2, g, m.saturating_add(dm), c.saturating_add(dc))
        }
    }
}

pub proof fn lemma_aftermath_len(
    before: Seq<CombatStack>,
    after: Seq<CombatStack>,
    n: nat,
    f0: Seq<u32>,
    g0: Seq<u32>,
    m0: u64,
    c0: u64,
)
    requires
        f0.len() == 14,
        g0.len() == 10,
    ensures
        defender_aftermath(before, after, n, f0, g0, m0, c0).0.len() == f0.len(),
        defender_aftermath(before, after, n, f0, g0, m0, c0).1.len() == g0.len(),
    decreases n,
{
    if n > 0 {
        lemma_aftermath_len(before, after, (n - 1) as nat, f0, g0, m0, c0);
    }
}

/// What a battle leaves behind: defender ship survivors, defense survivors after repairs,
/// and the debris of both sides.
pub fn battle_aftermath(
    initial_attacker: &Vec<CombatStack>,
    attacker: &Vec<CombatStack>,
    initial_defender: &Vec<CombatStack>,
    defender: &Vec<CombatStack>,
) -> (r: ([u32; 14], [u32; 10], u64, u64))
    requires
        initial_attacker@.len() == attacker@.len(),
        initial_defender@.len() == defender@.len(),
    ensures
        ({
            let (m, c) = attacker_debris(initial_attacker@, attacker@, attacker@.len());
            (r.0@, r.1@, r.2, r.3) == defender_aftermath(
                initial_defender@,
                defender@,
                defender@.len(),
                fleet_counts(defender@),
                defense_counts(defender@),
                m,
                c,
            )
        }),
{
    let mut debris_metal: u64 = 0;
    let mut debris_crystal: u64 = 0;
    let mut i: usize = 0;
    while i < attacker.len()
        invariant
            i <= attacker@.len() == initial_attacker@.len(),
            (debris_metal, debris_crystal) == attacker_debris(initial_attacker@, attacker@, i as nat),
        decreases attacker@.len() - i,
    {
        let before = initial_attacker[i];
        let after = attacker[i];
        let destroyed = before.count.saturating_sub(after.count);
        let (m, c) = fleet_debris(destroyed, before.metal_cost, before.crystal_cost);
        debris_metal = debris_metal.saturating_add(m);
        debris_crystal = debris_crystal.saturating_add(c);
        i = i + 1;
    }
    let mut defender_survivors = fleet_counts_from_stacks(defender);
    let mut defense_survivors = defense_counts_from_stacks(defender);
    proof {
        lemma_counts_len(defender@);
    }
    let ghost f0 = defender_survivors@;
    let ghost g0 = defense_survivors@;
    let ghost m0 = debris_metal;
    let ghost c0 = debris_crystal;
    let mut j: usize = 0;
    while j < defender.len()
        invariant
            j <= defender@.len() == initial_defender@.len(),
            f0.len() == 14,
            g0.len() == 10,
            (defender_survivors@, defense_survivors@, debris_metal, debris_crystal) == defender_aftermath(
                initial_defender@,
                defender@,
                j as nat,
                f0,
                g0,
                m0,
                c0,
            ),
        decreases defender@.len() - j,
    {
        proof {
            lemma_aftermath_len(initial_defender@, defender@, j as nat, f0, g0, m0, c0);
        }
        let before = initial_defender[j];
        let after = defender[j];
        let destroyed = before.count.saturating_sub(after.count);
        if before.is_defense && before.repairable {
            let repaired = sat_mul_u32(destroyed, 7) / 10;
            let permanently_destroyed = destroyed - repaired;
            let (m, c) = fleet_debris(permanently_destroyed, before.metal_cost, before.crystal_cost);
            debris_metal = debris_metal.saturating_add(m);
            debris_crystal = debris_crystal.saturating_add(c);
            if (before.kind as usize) < 10 {
                defense_survivors[before.kind as usize] = after.count.saturating_add(repaired);
            }
        } else if before.is_defense {
            if (before.kind as usize) < 10 {
                defense_survivors[before.kind as usize] = after.count;
            }
        } else {
            if (before.kind as usize) < 14 {
                defender_survivors[before.kind as usize] = after.count;
            }
            let (m, c) = fleet_debris(destroyed, before.metal_cost, before.crystal_cost);
            debris_metal = debris_metal.saturating_add(m);
            debris_crystal = debris_crystal.saturating_add(c);
        }
        j = j + 1;
    }
    (defender_survivors, defense_survivors, debris_metal, debris_crystal)
}

/// Having fewer units in the same stacks carries over from one step to the next.
pub proof fn lemma_fewer_units_trans(a: Seq<CombatStack>, b: Seq<CombatStack>, c: Seq<CombatStack>)
    requires
        same_stacks_fewer_units(a, b),
        same_stacks_fewer_units(b, c),
    ensures
        same_stacks_fewer_units(a, c),
{
    assert forall|j: int| 0 <= j < a.len() implies #[trigger] c[j] == CombatStack { count: c[j].count, ..a[j] } && c[j].count
        <= a[j].count by {
        assert(b[j] == CombatStack { count: b[j].count, ..a[j] });
        assert(c[j] == CombatStack { count: c[j].count, ..b[j] });
    }
}

/// A battle keeps both sides' stacks and never adds a unit to any of them.
pub proof fn lemma_battle_shape(att: Seq<CombatStack>, def: Seq<CombatStack>, round: nat, rounds: nat)
    ensures
        same_stacks_fewer_units(att, battle(att, def, round, rounds).0),
        same_stacks_fewer_units(def, battle(att, def, round, rounds).1),
    decreases MAX_COMBAT_ROUNDS - round,
{
    if round >= MAX_COMBAT_ROUNDS || units(att) == 0 || units(def) == 0 {
        assert(same_stacks_fewer_units(att, att));
        assert(same_stacks_fewer_units(def, def));
    } else {
        let (d2, dk) = volley(att, def);
        let (a2, ak) = volley(d2, att);
        lemma_volley_from_shape(att, 0, def, 0);
        lemma_volley_from_shape(d2, 0, att, 0);
        if !(dk == 0 && ak == 0) {
            lemma_battle_shape(a2, d2, round + 1, rounds + 1);
            lemma_fewer_units_trans(att, a2, battle(a2, d2, round + 1, rounds + 1).0);
            lemma_fewer_units_trans(def, d2, battle(a2, d2, round + 1, rounds + 1).1);
        }
    }
}

/// Whether every stack of `stacks` is a ship stack of a known type holding at most `bound` of
/// its type.
pub open spec fn ships_bounded(stacks: Seq<CombatStack>, bound: Seq<u32>) -> bool {
    forall|j: int|
        0 <= j < stacks.len() ==> !(#[trigger] stacks[j]).is_defense && stacks[j].kind < 14 && stacks[j].count
            <= bound[stacks[j].kind as int]
}

/// The ship counts of a fleet whose stacks are bounded never exceed the bound.
pub proof fn lemma_fleet_counts_bounded(stacks: Seq<CombatStack>, bound: Seq<u32>)
    requires
        bound.len() == 14,
        ships_bounded(stacks, bound),
    ensures
        forall|k: int| 0 <= k < 14 ==> #[trigger] fleet_counts(stacks)[k] <= bound[k],
    decreases stacks.len(),
{
    lemma_counts_len(stacks);
    if stacks.len() > 0 {
        let rest = stacks.drop_last();
        assert(ships_bounded(rest, bound)) by {
            assert forall|j: int| 0 <= j < rest.len() implies !(#[trigger] rest[j]).is_defense && rest[j].kind < 14
                && rest[j].count <= bound[rest[j].kind as int] by {
                assert(rest[j] == stacks[j]);
            }
        }
        lemma_fleet_counts_bounded(rest, bound);
        lemma_counts_len(rest);
        assert(stacks.last() == stacks[stacks.len() - 1]);
    }
}

/// Fewer units in the same stacks stay within a bound.
pub proof fn lemma_ships_bounded_fewer(a: Seq<CombatStack>, b: Seq<CombatStack>, bound: Seq<u32>)
    requires
        ships_bounded(a, bound),
        same_stacks_fewer_units(a, b),
    ensures
        ships_bounded(b, bound),
{
    assert forall|j: int| 0 <= j < b.len() implies !(#[trigger] b[j]).is_defense && b[j].kind < 14 && b[j].count
        <= bound[b[j].kind as int] by {
        assert(b[j] == CombatStack { count: b[j].count, ..a[j] });
        assert(a[j].count <= bound[a[j].kind as int]);
    }
}

/// Joined bounded fleets stay bounded.
pub proof fn lemma_ships_bounded_add(a: Seq<CombatStack>, b: Seq<CombatStack>, bound: Seq<u32>)
    requires
        ships_bounded(a, bound),
        ships_bounded(b, bound),
    ensures
        ships_bounded(a + b, bound),
{
    assert forall|j: int| 0 <= j < (a + b).len() implies !(#[trigger] (a + b)[j]).is_defense && (a + b)[j].kind < 14
        && (a + b)[j].count <= bound[(a + b)[j].kind as int] by {
        if j < a.len() {
            assert((a + b)[j] == a[j]);
        } else {
            assert((a + b)[j] == b[j - a.len()]);
        }
    }
}

/// The ship counts of mission `m`, indexed by ship type.
pub open spec fn mission_counts(m: MissionState) -> Seq<u32> {
    seq![
        m.small_cargo,
        m.large_cargo,
        m.light_fighter,
        m.heavy_fighter,
        m.cruiser,
        m.battleship,
        m.battlecruiser,
        m.bomber,
        m.destroyer,
        m.deathstar,
        m.recycler,
        m.espionage_probe,
        m.colony_ship,
        0u32,
    ]
}

/// A mission's attacking stacks hold, of each ship type, what the mission carries.
pub proof fn lemma_attacker_stacks_bounded(m: MissionState, src: PlanetState)
    ensures
        ships_bounded(attacker_stacks_spec(m, src), mission_counts(m)),
{
    let b = mission_counts(m);
    let s0 = opt_seq(ship_stack_spec(m.small_cargo, 0, src));
    let s1 = opt_seq(ship_stack_spec(m.large_cargo, 1, src));
    let s2 = opt_seq(ship_stack_spec(m.light_fighter, 2, src));
    let s3 = opt_seq(ship_stack_spec(m.heavy_fighter, 3, src));
    let s4 = opt_seq(ship_stack_spec(m.cruiser, 4, src));
    let s5 = opt_seq(ship_stack_spec(m.battleship, 5, src));
    let s6 = opt_seq(ship_stack_spec(m.battlecruiser, 6, src));
    let s7 = opt_seq(ship_stack_spec(m.bomber, 7, src));
    let s8 = opt_seq(ship_stack_spec(m.destroyer, 8, src));
    let s9 = opt_seq(ship_stack_spec(m.deathstar, 9, src));
    let s10 = opt_seq(ship_stack_spec(m.recycler, 10, src));
    let s11 = opt_seq(ship_stack_spec(m.espionage_probe, 11, src));
    let s12 = opt_seq(ship_stack_spec(m.colony_ship, 12, src));
    assert(ships_bounded(s0, b));
    assert(ships_bounded(s1, b));
    assert(ships_bounded(s2, b));
    assert(ships_bounded(s3, b));
    assert(ships_bounded(s4, b));
    assert(ships_bounded(s5, b));
    assert(ships_bounded(s6, b));
    assert(ships_bounded(s7, b));
    assert(ships_bounded(s8, b));
    assert(ships_bounded(s9, b));
    assert(ships_bounded(s10, b));
    assert(ships_bounded(s11, b));
    assert(ships_bounded(s12, b));
    lemma_ships_bounded_add(s0, s1, b);
    lemma_ships_bounded_add(s0 + s1, s2, b);
    lemma_ships_bounded_add(s0 + s1 + s2, s3, b);
    lemma_ships_bounded_add(s0 + s1 + s2 + s3, s4, b);
    lemma_ships_bounded_add(s0 + s1 + s2 + s3 + s4, s5, b);
    lemma_ships_bounded_add(s0 + s1 + s2 + s3 + s4 + s5, s6, b);
    lemma_ships_bounded_add(s0 + s1 + s2 + s3 + s4 + s5 + s6, s7, b);
    lemma_ships_bounded_add(s0 + s1 + s2 + s3 + s4 + s5 + s6 + s7, s8, b);
    lemma_ships_bounded_add(s0 + s1 + s2 + s3 + s4 + s5 + s6 + s7 + s8, s9, b);
    lemma_ships_bounded_add(s0 + s1 + s2 + s3 + s4 + s5 + s6 + s7 + s8 + s9, s10, b);
    lemma_ships_bounded_add(s0 + s1 + s2 + s3 + s4 + s5 + s6 + s7 + s8 + s9 + s10, s11, b);
    lemma_ships_bounded_add(s0 + s1 + s2 + s3 + s4 + s5 + s6 + s7 + s8 + s9 + s10 + s11, s12, b);
}

/// Whether every stack of `stacks` is a ship stack of a known type holding at most `fb` of its
/// type, or a defense stack of a known type holding at most `gb` of its type.
pub open spec fn stacks_bounded(stacks: Seq<CombatStack>, fb: Seq<u32>, gb: Seq<u32>) -> bool {
    forall|j: int|
        0 <= j < stacks.len() ==> if (#[trigger] stacks[j]).is_defense {
            stacks[j].kind < 10 && stacks[j].count <= gb[stacks[j].kind as int]
        } else {
            stacks[j].kind < 14 && stacks[j].count <= fb[stacks[j].kind as int]
        }
}

/// Joined bounded sides stay bounded.
pub proof fn lemma_stacks_bounded_add(a: Seq<CombatStack>, b: Seq<CombatStack>, fb: Seq<u32>, gb: Seq<u32>)
    requires
        stacks_bounded(a, fb, gb),
        stacks_bounded(b, fb, gb),
    ensures
        stacks_bounded(a + b, fb, gb),
{
    assert forall|j: int| 0 <= j < (a + b).len() implies if (#[trigger] (a + b)[j]).is_defense {
        (a + b)[j].kind < 10 && (a + b)[j].count <= gb[(a + b)[j].kind as int]
    } else {
        (a + b)[j].kind < 14 && (a + b)[j].count <= fb[(a + b)[j].kind as int]
    } by {
        if j < a.len() {
            assert((a + b)[j] == a[j]);
        } else {
            assert((a + b)[j] == b[j - a.len()]);
        }
    }
}

/// Fewer units in the same stacks stay within the bounds.
pub proof fn lemma_stacks_bounded_fewer(a: Seq<CombatStack>, b: Seq<CombatStack>, fb: Seq<u32>, gb: Seq<u32>)
    requires
        stacks_bounded(a, fb, gb),
        same_stacks_fewer_units(a, b),
    ensures
        stacks_bounded(b, fb, gb),
{
    assert forall|j: int| 0 <= j < b.len() implies if (#[trigger] b[j]).is_defense {
        b[j].kind < 10 && b[j].count <= gb[b[j].kind as int]
    } else {
        b[j].kind < 14 && b[j].count <= fb[b[j].kind as int]
    } by {
        assert(b[j] == CombatStack { count: b[j].count, ..a[j] });
        assert(a[j].is_defense ==> a[j].count <= gb[a[j].kind as int]);
    }
}

/// The ship and defense counts of a planet, indexed by type.
pub open spec fn planet_fleet(d: PlanetState) -> Seq<u32> {
    seq![
        d.small_cargo,
        d.large_cargo,
        d.light_fighter,
        d.heavy_fighter,
        d.cruiser,
        d.battleship,
        d.battlecruiser,
        d.bomber,
        d.destroyer,
        d.deathstar,
        d.recycler,
        d.espionage_probe,
        d.colony_ship,
        d.solar_satellite,
    ]
}

pub open spec fn planet_defenses(d: PlanetState) -> Seq<u32> {
    seq![
        d.rocket_launcher,
        d.light_laser,
        d.heavy_laser,
        d.gauss_cannon,
        d.ion_cannon,
        d.plasma_turret,
        d.small_shield_dome,
        d.large_shield_dome,
        0u32,
        0u32,
    ]
}

/// A planet's defending stacks hold, of each type, what the planet has.
pub proof fn lemma_defender_stacks_bounded(d: PlanetState)
    ensures
        stacks_bounded(defender_stacks_spec(d), planet_fleet(d), planet_defenses(d)),
{
    let fb = planet_fleet(d);
    let gb = planet_defenses(d);
    let s0 = opt_seq(ship_stack_spec(d.small_cargo, 0, d));
    assert(stacks_bounded(s0, fb, gb));
    let s1 = opt_seq(ship_stack_spec(d.large_cargo, 1, d));
    assert(stacks_bounded(s1, fb, gb));
    let s2 = opt_seq(ship_stack_spec(d.light_fighter, 2, d));
    assert(stacks_bounded(s2, fb, gb));
    let s3 = opt_seq(ship_stack_spec(d.heavy_fighter, 3, d));
    assert(stacks_bounded(s3, fb, gb));
    let s4 = opt_seq(ship_stack_spec(d.cruiser, 4, d));
    assert(stacks_bounded(s4, fb, gb));
    let s5 = opt_seq(ship_stack_spec(d.battleship, 5, d));
    assert(stacks_bounded(s5, fb, gb));
    let s6 = opt_seq(ship_stack_spec(d.battlecruiser, 6, d));
    assert(stacks_bounded(s6, fb, gb));
    let s7 = opt_seq(ship_stack_spec(d.bomber, 7, d));
    assert(stacks_bounded(s7, fb, gb));
    let s8 = opt_seq(ship_stack_spec(d.destroyer, 8, d));
    assert(stacks_bounded(s8, fb, gb));
    let s9 = opt_seq(ship_stack_spec(d.deathstar, 9, d));
    assert(stacks_bounded(s9, fb, gb));
    let s10 = opt_seq(ship_stack_spec(d.recycler, 10, d));
    assert(stacks_bounded(s10, fb, gb));
    let s11 = opt_seq(ship_stack_spec(d.espionage_probe, 11, d));
    assert(stacks_bounded(s11, fb, gb));
    let s12 = opt_seq(ship_stack_spec(d.colony_ship, 12, d));
    assert(stacks_bounded(s12, fb, gb));
    let s13 = opt_seq(ship_stack_spec(d.solar_satellite, 13, d));
    assert(stacks_bounded(s13, fb, gb));
    let s14 = opt_seq(defense_stack_spec(d.rocket_launcher, 0, d));
    assert(stacks_bounded(s14, fb, gb));
    let s15 = opt_seq(defense_stack_spec(d.light_laser, 1, d));
    assert(stacks_bounded(s15, fb, gb));
    let s16 = opt_seq(defense_stack_spec(d.heavy_laser, 2, d));
    assert(stacks_bounded(s16, fb, gb));
    let s17 = opt_seq(defense_stack_spec(d.gauss_cannon, 3, d));
    assert(stacks_bounded(s17, fb, gb));
    let s18 = opt_seq(defense_stack_spec(d.ion_cannon, 4, d));
    assert(stacks_bounded(s18, fb, gb));
    let s19 = opt_seq(defense_stack_spec(d.plasma_turret, 5, d));
    assert(stacks_bounded(s19, fb, gb));
    let s20 = opt_seq(defense_stack_spec(d.small_shield_dome, 6, d));
    assert(stacks_bounded(s20, fb, gb));
    let s21 = opt_seq(defense_stack_spec(d.large_shield_dome, 7, d));
    assert(stacks_bounded(s21, fb, gb));
    lemma_stacks_bounded_add(s0, s1, fb, gb);
    lemma_stacks_bounded_add(s0 + s1, s2, fb, gb);
    lemma_stacks_bounded_add(s0 + s1 + s2, s3, fb, gb);
    lemma_stacks_bounded_add(s0 + s1 + s2 + s3, s4, fb, gb);
    lemma_stacks_bounded_add(s0 + s1 + s2 + s3 + s4, s5, fb, gb);
    lemma_stacks_bounded_add(s0 + s1 + s2 + s3 + s4 + s5, s6, fb, gb);
    lemma_stacks_bounded_add(s0 + s1 + s2 + s3 + s4 + s5 + s6, s7, fb, gb);
    lemma_stacks_bounded_add(s0 + s1 + s2 + s3 + s4 + s5 + s6 + s7, s8, fb, gb);
    lemma_stacks_bounded_add(s0 + s1 + s2 + s3 + s4 + s5 + s6 + s7 + s8, s9, fb, gb);
    lemma_stacks_bounded_add(s0 + s1 + s2 + s3 + s4 + s5 + s6 + s7 + s8 + s9, s10, fb, gb);
    lemma_stacks_bounded_add(s0 + s1 + s2 + s3 + s4 + s5 + s6 + s7 + s8 + s9 + s10, s11, fb, gb);
    lemma_stacks_bounded_add(s0 + s1 + s2 + s3 + s4 + s5 + s6 + s7 + s8 + s9 + s10 + s11, s12, fb, gb);
    lemma_stacks_bounded_add(s0 + s1 + s2 + s3 + s4 + s5 + s6 + s7 + s8 + s9 + s10 + s11 + s12, s13, fb, gb);
    lemma_stacks_bounded_add(s0 + s1 + s2 + s3 + s4 + s5 + s6 + s7 + s8 + s9 + s10 + s11 + s12 + s13, s14, fb, gb);
    lemma_stacks_bounded_add(s0 + s1 + s2 + s3 + s4 + s5 + s6 + s7 + s8 + s9 + s10 + s11 + s12 + s13 + s14, s15, fb, gb);
    lemma_stacks_bounded_add(s0 + s1 + s2 + s3 + s4 + s5 + s6 + s7 + s8 + s9 + s10 + s11 + s12 + s13 + s14 + s15, s16, fb, gb);
    lemma_stacks_bounded_add(s0 + s1 + s2 + s3 + s4 + s5 + s6 + s7 + s8 + s9 + s10 + s11 + s12 + s13 + s14 + s15 + s16, s17, fb, gb);
    lemma_stacks_bounded_add(s0 + s1 + s2 + s3 + s4 + s5 + s6 + s7 + s8 + s9 + s10 + s11 + s12 + s13 + s14 + s15 + s16 + s17, s18, fb, gb);
    lemma_stacks_bounded_add(s0 + s1 + s2 + s3 + s4 + s5 + s6 + s7 + s8 + s9 + s10 + s11 + s12 + s13 + s14 + s15 + s16 + s17 + s18, s19, fb, gb);
    lemma_stacks_bounded_add(s0 + s1 + s2 + s3 + s4 + s5 + s6 + s7 + s8 + s9 + s10 + s11 + s12 + s13 + s14 + s15 + s16 + s17 + s18 + s19, s20, fb, gb);
    lemma_stacks_bounded_add(s0 + s1 + s2 + s3 + s4 + s5 + s6 + s7 + s8 + s9 + s10 + s11 + s12 + s13 + s14 + s15 + s16 + s17 + s18 + s19 + s20, s21, fb, gb);
    assert(defender_stacks_spec(d) == s0 + s1 + s2 + s3 + s4 + s5 + s6 + s7 + s8 + s9 + s10 + s11 + s12 + s13 + s14 + s15 + s16 + s17 + s18 + s19 + s20 + s21);
}

/// The ship and defense counts of bounded sides never exceed the bounds.
pub proof fn lemma_counts_bounded(stacks: Seq<CombatStack>, fb: Seq<u32>, gb: Seq<u32>)
    requires
        fb.len() == 14,
        gb.len() == 10,
        stacks_bounded(stacks, fb, gb),
    ensures
        forall|k: int| 0 <= k < 14 ==> #[trigger] fleet_counts(stacks)[k] <= fb[k],
        forall|k: int| 0 <= k < 10 ==> #[trigger] defense_counts(stacks)[k] <= gb[k],
    decreases stacks.len(),
{
    lemma_counts_len(stacks);
    if stacks.len() > 0 {
        let rest = stacks.drop_last();
        assert(stacks_bounded(rest, fb, gb)) by {
            assert forall|j: int| 0 <= j < rest.len() implies if (#[trigger] rest[j]).is_defense {
                rest[j].kind < 10 && rest[j].count <= gb[rest[j].kind as int]
            } else {
                rest[j].kind < 14 && rest[j].count <= fb[rest[j].kind as int]
            } by {
                assert(rest[j] == stacks[j]);
            }
        }
        lemma_counts_bounded(rest, fb, gb);
        lemma_counts_len(rest);
        assert(stacks.last() == stacks[stacks.len() - 1]);
    }
}

/// After the battle, the defender's survivors and repaired defenses never exceed the bounds
/// that its stacks held before.
pub proof fn lemma_aftermath_bounded(
    before: Seq<CombatStack>,
    after: Seq<CombatStack>,
    n: nat,
    f0: Seq<u32>,
    g0: Seq<u32>,
    m0: u64,
    c0: u64,
    fb: Seq<u32>,
    gb: Seq<u32>,
)
    requires
        n <= before.len(),
        same_stacks_fewer_units(before, after),
        stacks_bounded(before, fb, gb),
        f0.len() == 14,
        g0.len() == 10,
        fb.len() == 14,
        gb.len() == 10,
        forall|k: int| 0 <= k < 14 ==> #[trigger] f0[k] <= fb[k],
        forall|k: int| 0 <= k < 10 ==> #[trigger] g0[k] <= gb[k],
    ensures
        ({
            let (f, g, _, _) = defender_aftermath(before, after, n, f0, g0, m0, c0);
            &&& forall|k: int| 0 <= k < 14 ==> #[trigger] f[k] <= fb[k]
            &&& forall|k: int| 0 <= k < 10 ==> #[trigger] g[k] <= gb[k]
        }),
    decreases n,
{
    if n > 0 {
        lemma_aftermath_bounded(before, after, (n - 1) as nat, f0, g0, m0, c0, fb, gb);
        lemma_aftermath_len(before, after, (n - 1) as nat, f0, g0, m0, c0);
        let j = n - 1;
        let b = before[j];
        let a = after[j];
        assert(a == CombatStack { count: a.count, ..b } && a.count <= b.count);
        let destroyed = b.count.saturating_sub(a.count);
        assert(repaired_units(destroyed) <= destroyed);
    }
}

} // verus!
