//! What holds of the game rules across calls and for every input: the market's fee split,
//! production, launches, offers, alliances, the store, quests and delegations.
use vstd::prelude::*;

use crate::accounts::{AuthorizedVault, QuestProgressState, QuestState, StoreConfig, StorePurchaseState};
use crate::alliance::refreshed_level;
use crate::economy::settle_spec;
use crate::espionage::probe_losses_spec;
use crate::key::Key;
use crate::launch::{launch_spec, LaunchFleetParams};
use crate::market::{
    market_fee_spec, settlement_spec, MarketConfig, MarketError, MarketOffer, PlanetListing, PlanetListingIndex,
    PlanetMarketObligation, SellerCounter, MAX_OFFERS_PER_WALLET,
};
use crate::listings::{buy_listing_check, PlanetAccounts};
use crate::offers::accept_offer_check;
use crate::accounts::{AllianceMembership, AllianceState, AllianceTreasuryState};
use crate::offers::{counter_after_open, decrement_obligation_spec, obligation_after_open};
use crate::planet::PlanetState;
use crate::planet_bytes::PlanetDepositFields;
use crate::quest_claims::{checkin_spec, reward_claim_spec};
use crate::store::purchase_spec;
use crate::vault::active_vault_check;
use crate::error::GameStateError;
use crate::components::{slot_index, Fleet, FleetMission, Planet, Resources};
use crate::quests::{
    catalog_spec, quest_seed, quest_step_spec, rotating_quest_spec, select_quest, signature_spec, ROTATING_CATALOG_LEN,
};
use crate::system_attack::{atk, battle, defender_down, opening, outcome, plunder, round, sc, Battle, MAX_ROUNDS};
use crate::system_resolve_transport::transport_spec;
use crate::bytes::{lemma_put_u64_frame, lemma_read_put_i64, lemma_read_put_u64, put_i64, put_u64, u64_at};

verus! {

/// When a sale settles, the fee and what the seller receives add up to the price, and the fee
/// never exceeds the price.
pub proof fn law_sale_split(price: u64)
    ensures
        settlement_spec(price).fee + settlement_spec(price).seller_receives == price,
        settlement_spec(price).fee <= price,
{
    let p = crate::num::clamp_u64(price * 25);
    assert(p / 10_000 <= price) by (nonlinear_arith)
        requires
            p <= price * 25,
            0 <= p,
    ;
}

/// The market fee on an amount is never more than the amount.
pub proof fn law_market_fee_at_most_amount(amount: u64)
    ensures
        0 <= market_fee_spec(amount) <= amount,
{
    assert(amount * 25 / 10_000 <= amount) by (nonlinear_arith);
}

/// Settling production never raises a balance above its storage cap, and never lowers a
/// balance that was within its cap.
pub proof fn law_settle_respects_caps(p: PlanetState, now: i64)
    requires
        settle_spec(p, now).1 is Ok,
        p.last_update_ts > 0,
        now > p.last_update_ts,
    ensures
        settle_spec(p, now).0.metal <= p.metal_cap,
        settle_spec(p, now).0.crystal <= p.crystal_cap,
        settle_spec(p, now).0.deuterium <= p.deuterium_cap,
        p.metal <= p.metal_cap ==> settle_spec(p, now).0.metal >= p.metal,
        p.crystal <= p.crystal_cap ==> settle_spec(p, now).0.crystal >= p.crystal,
        p.deuterium <= p.deuterium_cap ==> settle_spec(p, now).0.deuterium >= p.deuterium,
{
}

/// Settling twice at the same moment is the same as settling once.
pub proof fn law_settle_idempotent(p: PlanetState, now: i64)
    requires
        settle_spec(p, now).1 is Ok,
    ensures
        settle_spec(settle_spec(p, now).0, now) == (settle_spec(p, now).0, Ok::<(), GameStateError>(())),
{
}

/// Setting a building's level and reading it back gives the level set; the other buildings keep
/// theirs.
pub proof fn law_building_level_roundtrip(p: PlanetState, idx: u8, other: u8, level: u8)
    requires
        idx < 13,
        other != idx,
    ensures
        p.with_building_level(idx, level).spec_building_level(idx) == level,
        p.with_building_level(idx, level).spec_building_level(other) == p.spec_building_level(other),
{
}

/// A launch moves ships from the hangar into the new mission: of every kind, what stays home
/// and what flies add up to what the hangar held.
pub proof fn law_launch_conserves_ships(p0: PlanetState, pr: LaunchFleetParams, now: i64, name: [u8; 32])
    requires
        launch_spec(p0, pr, now, name).1 is Ok,
    ensures
        ({
            let p = settle_spec(p0, now).0;
            let q = launch_spec(p0, pr, now, name).0;
            let m = q.missions[p.first_free_slot()->0 as int];
            &&& p.first_free_slot() is Some
            &&& q.small_cargo + m.small_cargo == p.small_cargo
            &&& q.large_cargo + m.large_cargo == p.large_cargo
            &&& q.light_fighter + m.light_fighter == p.light_fighter
            &&& q.heavy_fighter + m.heavy_fighter == p.heavy_fighter
            &&& q.cruiser + m.cruiser == p.cruiser
            &&& q.battleship + m.battleship == p.battleship
            &&& q.battlecruiser + m.battlecruiser == p.battlecruiser
            &&& q.bomber + m.bomber == p.bomber
            &&& q.destroyer + m.destroyer == p.destroyer
            &&& q.deathstar + m.deathstar == p.deathstar
            &&& q.recycler + m.recycler == p.recycler
            &&& q.espionage_probe + m.espionage_probe == p.espionage_probe
            &&& q.colony_ship + m.colony_ship == p.colony_ship
        }),
{
    let p = settle_spec(p0, now).0;
    lemma_free_slot_bound(p, 0);
    let slot = p.first_free_slot()->0 as int;
    let q = crate::launch::launched_planet(p, pr, now);
    let m = crate::launch::launched_mission(p, pr, now, name);
    vstd::array::axiom_spec_array_update(q.missions, slot, m);
    assert(launch_spec(p0, pr, now, name).0.missions@[slot] == m);
}

proof fn lemma_free_slot_bound(p: PlanetState, i: nat)
    ensures
        p.first_free_from(i) matches Some(s) ==> i <= s < crate::constants::MAX_MISSIONS,
    decreases crate::constants::MAX_MISSIONS - i,
{
    if i < p.spec_usable_slots() && i < crate::constants::MAX_MISSIONS && p.missions[i as int].mission_type != 0 {
        lemma_free_slot_bound(p, i + 1);
    }
}

/// An espionage mission never loses more probes than it sent.
pub proof fn law_probe_losses_bounded(probes: u32, sensor: u64, counter: u64, reveal_level: u8)
    ensures
        probe_losses_spec(probes, sensor, counter, reveal_level) <= probes,
{
}

/// Opening an offer and withdrawing it again leaves the seller's open count and the planet's
/// obligation count as they were.
pub proof fn law_offer_open_close_restores_counts(
    counter: SellerCounter,
    obligation: PlanetMarketObligation,
    seller: Key,
    planet: Key,
    counter_bump: u8,
    obligation_bump: u8,
)
    requires
        counter.active_offers < MAX_OFFERS_PER_WALLET,
        obligation.active_resource_offers < u32::MAX,
        crate::key::all_zero(obligation.planet@) || obligation.planet@ == planet@,
    ensures
        counter_after_open(counter, seller, counter_bump).active_offers.saturating_sub(1) == counter.active_offers,
        ({
            let (o, r) = decrement_obligation_spec(Some(obligation_after_open(obligation, planet, obligation_bump)), planet@);
            &&& r is Ok
            &&& o->0.active_resource_offers == obligation.active_resource_offers
        }),
{
}

/// An alliance's level never drops when it is refreshed, and more experience never gives a
/// lower level.
pub proof fn law_alliance_level_monotone(level: u16, xp: u64, more_xp: u64)
    requires
        xp <= more_xp,
    ensures
        refreshed_level(level, xp) >= level,
        refreshed_level(level, xp) <= refreshed_level(level, more_xp),
    decreases u16::MAX - level,
{
    if level < u16::MAX {
        law_alliance_level_monotone((level + 1) as u16, xp, more_xp);
    }
}

/// A store pack bought in a period cannot be bought again in the same period: any later
/// purchase of it by the same buyer, at any moment of that day, week or month and whatever the
/// planet, is refused as already purchased. (The all-zero key stands for an unclaimed record,
/// so a buyer with that key is left out.)
pub proof fn law_store_pack_once_per_period(
    config: StoreConfig,
    purchases: StorePurchaseState,
    planet: PlanetDepositFields,
    authority: Key,
    usdc_mint: Seq<u8>,
    treasury_usdc: Seq<u8>,
    period: u8,
    pack_id: u8,
    bump: u8,
    now: i64,
    later_planet: PlanetDepositFields,
    later_bump: u8,
    later: i64,
)
    requires
        purchase_spec(config, purchases, planet, authority, usdc_mint, treasury_usdc, period, pack_id, bump, now).2 is Ok,
        !crate::key::all_zero(authority@),
        crate::alliance::period_epoch(period, later) == crate::alliance::period_epoch(period, now),
    ensures
        ({
            let (p1, planet1, _) = purchase_spec(config, purchases, planet, authority, usdc_mint, treasury_usdc, period, pack_id, bump, now);
            purchase_spec(config, p1, later_planet, authority, usdc_mint, treasury_usdc, period, pack_id, later_bump, later)
                == (p1, later_planet, Err::<u64, GameStateError>(GameStateError::StorePackAlreadyPurchased))
        }),
{
    let bit = 1u64 << pack_id;
    assert(bit & bit != 0) by (bit_vector)
        requires
            bit == 1u64 << pack_id,
            pack_id < 64,
    ;
    assert(forall|m: u64| #![auto] (m | bit) & bit != 0) by (bit_vector)
        requires
            bit & bit != 0,
    ;
    let (p1, planet1, _) = purchase_spec(config, purchases, planet, authority, usdc_mint, treasury_usdc, period, pack_id, bump, now);
    let claimed = crate::store::claimed_purchases(purchases, authority, bump, now);
    let synced = crate::store::synced_purchases(claimed, now);
    assert(p1 == (StorePurchaseState { last_updated_ts: now, ..crate::store::with_purchased(synced, period, bit) }));
    assert(p1.authority@ == authority@);
    assert(!crate::key::all_zero(p1.authority@));
    assert(crate::store::claimed_purchases(p1, authority, later_bump, later) == p1);
    assert(crate::store::purchased_mask(p1, period) & bit != 0);
    assert(crate::store::purchased_mask(crate::store::synced_purchases(p1, later), period) == crate::store::purchased_mask(p1, period));
}

/// Checking in twice on the same day: the second check-in is refused.
pub proof fn law_check_in_once_a_day(q: QuestState, now: i64)
    requires
        checkin_spec(q, now).1 is Ok,
    ensures
        checkin_spec(checkin_spec(q, now).0, now).1 == Err::<(u64, u64, u64), GameStateError>(GameStateError::DailyCheckInAlreadyClaimed),
{
}

/// A quest reward claimed in a period cannot be claimed again in the same period: a second claim
/// at the same moment is refused as already claimed.
pub proof fn law_quest_claimed_once(q: QuestState, g: QuestProgressState, period: u8, quest_id: u8, now: i64, met: bool)
    requires
        reward_claim_spec(q, g, period, quest_id, now, met).2 is Ok,
    ensures
        ({
            let (q1, g1, _) = reward_claim_spec(q, g, period, quest_id, now, met);
            reward_claim_spec(q1, g1, period, quest_id, now, met).2 == Err::<(u64, u64, u64), GameStateError>(GameStateError::QuestAlreadyClaimed)
        }),
{
    let bit = 1u64 << quest_id;
    assert(bit & bit != 0) by (bit_vector)
        requires
            bit == 1u64 << quest_id,
            quest_id < 64,
    ;
    assert(forall|m: u64| #![auto] (m | bit) & bit != 0) by (bit_vector)
        requires
            bit & bit != 0,
    ;
}

/// A revoked delegation lets nobody act.
pub proof fn law_revoked_vault_refused(signer: Seq<u8>, v: AuthorizedVault, authority: Seq<u8>, now: i64)
    requires
        v.revoked,
    ensures
        active_vault_check(signer, v, authority, now) is Err,
{
}

/// Writing a planet record's stock and settlement time and reading the record again gives back
/// what was written, with every other resource field as it was.
pub proof fn law_deposit_fields_write_read(d: Seq<u8>, before: PlanetDepositFields, f: PlanetDepositFields)
    requires
        d.len() >= crate::planet_bytes::PLANET_DEPOSIT_MIN_LEN,
        crate::planet_bytes::deposit_fields_from(before, d),
    ensures
        crate::planet_bytes::deposit_fields_written(d, f).len() == d.len(),
        crate::planet_bytes::deposit_fields_from(
            PlanetDepositFields {
                metal: f.metal,
                crystal: f.crystal,
                deuterium: f.deuterium,
                last_update_ts: f.last_update_ts,
                ..before
            },
            crate::planet_bytes::deposit_fields_written(d, f),
        ),
{
    let d1 = put_u64(d, 166, f.metal);
    let d2 = put_u64(d1, 174, f.crystal);
    let d3 = put_u64(d2, 182, f.deuterium);
    let d4 = put_i64(d3, 254, f.last_update_ts);
    lemma_read_put_u64(d, 166, f.metal);
    lemma_put_u64_frame(d1, 174, f.crystal, 166, 8);
    lemma_put_u64_frame(d2, 182, f.deuterium, 166, 8);
    lemma_put_u64_frame(d3, 254, f.last_update_ts as u64, 166, 8);
    lemma_put_u64_frame(d, 166, f.metal, 174, 8);
    lemma_read_put_u64(d1, 174, f.crystal);
    lemma_put_u64_frame(d2, 182, f.deuterium, 174, 8);
    lemma_put_u64_frame(d3, 254, f.last_update_ts as u64, 174, 8);
    lemma_put_u64_frame(d, 166, f.metal, 182, 8);
    lemma_put_u64_frame(d1, 174, f.crystal, 182, 8);
    lemma_read_put_u64(d2, 182, f.deuterium);
    lemma_put_u64_frame(d3, 254, f.last_update_ts as u64, 182, 8);
    lemma_put_u64_frame(d, 166, f.metal, 254, 8);
    lemma_put_u64_frame(d1, 174, f.crystal, 254, 8);
    lemma_put_u64_frame(d2, 182, f.deuterium, 254, 8);
    lemma_read_put_i64(d3, 254, f.last_update_ts);
    lemma_put_u64_frame(d, 166, f.metal, 8, 32);
    lemma_put_u64_frame(d1, 174, f.crystal, 8, 32);
    lemma_put_u64_frame(d2, 182, f.deuterium, 8, 32);
    lemma_put_u64_frame(d3, 254, f.last_update_ts as u64, 8, 32);
    lemma_put_u64_frame(d, 166, f.metal, 190, 64);
    lemma_put_u64_frame(d1, 174, f.crystal, 190, 64);
    lemma_put_u64_frame(d2, 182, f.deuterium, 190, 64);
    lemma_put_u64_frame(d3, 254, f.last_update_ts as u64, 190, 64);
    assert forall|o: int| 190 <= o && o + 8 <= 254 implies #[trigger] u64_at(d4, o) == u64_at(d, o) by {
        assert(d4.subrange(o, o + 8) =~= d4.subrange(190, 254).subrange(o - 190, o - 190 + 8));
        assert(d.subrange(o, o + 8) =~= d.subrange(190, 254).subrange(o - 190, o - 190 + 8));
    }
    assert(u64_at(d4, 190) == u64_at(d, 190));
    assert(u64_at(d4, 198) == u64_at(d, 198));
    assert(u64_at(d4, 206) == u64_at(d, 206));
    assert(u64_at(d4, 214) == u64_at(d, 214));
    assert(u64_at(d4, 222) == u64_at(d, 222));
    assert(u64_at(d4, 230) == u64_at(d, 230));
    assert(u64_at(d4, 238) == u64_at(d, 238));
    assert(u64_at(d4, 246) == u64_at(d, 246));
}

proof fn lemma_drawn_not_seen(period: u8, offset: u64, step: u64, i: u64, seen: Seq<u64>, selected: u64, slot: u64)
    ensures
        select_quest(period, offset, step, i, seen, selected, slot) matches Some(q) ==> !seen.contains(
            signature_spec(period, q.req),
        ),
    decreases ROTATING_CATALOG_LEN - i,
{
    if i < ROTATING_CATALOG_LEN {
        let idx = ((offset + i * step) % (ROTATING_CATALOG_LEN as int)) as u64;
        let sig = signature_spec(period, catalog_spec(period, idx).req);
        if seen.contains(sig) {
            lemma_drawn_not_seen(period, offset, step, (i + 1) as u64, seen, selected, slot);
        } else if selected != slot && seen.len() < ROTATING_CATALOG_LEN {
            lemma_drawn_not_seen(period, offset, step, (i + 1) as u64, seen.push(sig), (selected + 1) as u64, slot);
            assert forall|x: u64| seen.contains(x) implies seen.push(sig).contains(x) by {
                let k = choose|k: int| 0 <= k < seen.len() && seen[k] == x;
                assert(seen.push(sig)[k] == x);
            }
        }
    }
}

proof fn lemma_drawn_distinct(period: u8, offset: u64, step: u64, i: u64, seen: Seq<u64>, selected: u64, a: u64, b: u64)
    requires
        selected <= a < b,
    ensures
        ({
            let qa = select_quest(period, offset, step, i, seen, selected, a);
            let qb = select_quest(period, offset, step, i, seen, selected, b);
            (qa is Some && qb is Some) ==> signature_spec(period, qa->0.req) != signature_spec(period, qb->0.req)
        }),
    decreases ROTATING_CATALOG_LEN - i,
{
    if i < ROTATING_CATALOG_LEN {
        let idx = ((offset + i * step) % (ROTATING_CATALOG_LEN as int)) as u64;
        let sig = signature_spec(period, catalog_spec(period, idx).req);
        if seen.contains(sig) {
            lemma_drawn_distinct(period, offset, step, (i + 1) as u64, seen, selected, a, b);
        } else if selected == a {
            if seen.len() < ROTATING_CATALOG_LEN {
                lemma_drawn_not_seen(period, offset, step, (i + 1) as u64, seen.push(sig), (selected + 1) as u64, b);
                assert(seen.push(sig).contains(sig)) by {
                    assert(seen.push(sig)[seen.len() as int] == sig);
                }
            }
        } else if seen.len() < ROTATING_CATALOG_LEN {
            lemma_drawn_distinct(period, offset, step, (i + 1) as u64, seen.push(sig), (selected + 1) as u64, a, b);
        }
    }
}

/// Within one period, two different rotating quests never ask for the same thing: their
/// requirement signatures differ.
pub proof fn law_rotating_quests_distinct(period: u8, quest_a: u8, quest_b: u8, epoch: i64)
    requires
        quest_a != quest_b,
        rotating_quest_spec(period, quest_a, epoch) is Some,
        rotating_quest_spec(period, quest_b, epoch) is Some,
    ensures
        signature_spec(period, rotating_quest_spec(period, quest_a, epoch)->0.req) != signature_spec(
            period,
            rotating_quest_spec(period, quest_b, epoch)->0.req,
        ),
{
    let seed = quest_seed(period, epoch);
    let offset = seed % ROTATING_CATALOG_LEN;
    let step = quest_step_spec(seed, ROTATING_CATALOG_LEN);
    let sa: u64 = if period == 1 { (quest_a - 1) as u64 } else { quest_a as u64 };
    let sb: u64 = if period == 1 { (quest_b - 1) as u64 } else { quest_b as u64 };
    if sa < sb {
        lemma_drawn_distinct(period, offset, step, 0, Seq::empty(), 0, sa, sb);
    } else {
        lemma_drawn_distinct(period, offset, step, 0, Seq::empty(), 0, sb, sa);
    }
}

/// Plunder never takes more than half of a stock, nor more than a third of the cargo room.
pub proof fn law_plunder_bounded(stock: u64, cap: u64)
    ensures
        plunder(stock, cap) <= stock / 2,
        plunder(stock, cap) <= cap / 3,
{
}

proof fn lemma_scale_le(n: u32, r: u64)
    requires
        r <= 1_000,
    ensures
        sc(n, r) <= n,
{
    assert(n * r <= n * 1_000) by (nonlinear_arith)
        requires
            r <= 1_000,
    ;
}

proof fn lemma_share_le(x: u64, t: u64)
    requires
        x <= t,
        t > 0,
    ensures
        crate::num::clamp_u64(x * 1_000) / t <= 1_000,
{
    assert(crate::num::clamp_u64(x * 1_000) <= t * 1_000) by (nonlinear_arith)
        requires
            x <= t,
    ;
    assert(crate::num::clamp_u64(x * 1_000) / t <= 1_000) by (nonlinear_arith)
        requires
            crate::num::clamp_u64(x * 1_000) <= t * 1_000,
            t > 0,
    ;
}

/// Whether every ship count of battle `b` is at most that of battle `o`.
pub open spec fn no_more_ships(b: Battle, o: Battle) -> bool {
    &&& b.alf <= o.alf
    &&& b.ahf <= o.ahf
    &&& b.acr <= o.acr
    &&& b.abs <= o.abs
    &&& b.abc <= o.abc
    &&& b.abm <= o.abm
    &&& b.ads <= o.ads
    &&& b.ade <= o.ade
    &&& b.asc <= o.asc
    &&& b.alc <= o.alc
    &&& b.dlf <= o.dlf
    &&& b.dhf <= o.dhf
    &&& b.dcr <= o.dcr
    &&& b.dbs <= o.dbs
    &&& b.dbc <= o.dbc
    &&& b.dbm <= o.dbm
    &&& b.dds <= o.dds
    &&& b.dde <= o.dde
}

proof fn lemma_round_no_more(b: Battle, tah: u64, tas: u64, tdh: u64, tds: u64)
    requires
        b.ah <= tah,
        b.dh <= tdh,
    ensures
        no_more_ships(round(b, tah, tas, tdh, tds), b),
        round(b, tah, tas, tdh, tds).ah <= tah,
        round(b, tah, tas, tdh, tds).dh <= tdh,
{
    let r = round(b, tah, tas, tdh, tds);
    if tdh > 0 {
        let ad = atk(b.alf, b.ahf, b.acr, b.abs, b.abc, b.abm, b.ads, b.ade) + b.asc * 5 + b.alc * 5;
        let dh1: u64 = if b.dsh >= ad { b.dh } else { crate::num::clamp_u64(b.dh - (ad - b.dsh)) };
        lemma_share_le(dh1, tdh);
        let rd = crate::num::clamp_u64(dh1 * 1_000) / tdh;
        lemma_scale_le(b.dlf, rd);
        lemma_scale_le(b.dhf, rd);
        lemma_scale_le(b.dcr, rd);
        lemma_scale_le(b.dbs, rd);
        lemma_scale_le(b.dbc, rd);
        lemma_scale_le(b.dbm, rd);
        lemma_scale_le(b.dds, rd);
        lemma_scale_le(b.dde, rd);
    }
    if tah > 0 {
        lemma_share_le(r.ah, tah);
        let ra = crate::num::clamp_u64(r.ah * 1_000) / tah;
        lemma_scale_le(b.alf, ra);
        lemma_scale_le(b.ahf, ra);
        lemma_scale_le(b.acr, ra);
        lemma_scale_le(b.abs, ra);
        lemma_scale_le(b.abc, ra);
        lemma_scale_le(b.abm, ra);
        lemma_scale_le(b.ads, ra);
        lemma_scale_le(b.ade, ra);
        lemma_scale_le(b.asc, ra);
        lemma_scale_le(b.alc, ra);
    }
}

proof fn lemma_battle_no_more(b: Battle, tah: u64, tas: u64, tdh: u64, tds: u64, n: nat)
    requires
        b.ah <= tah,
        b.dh <= tdh,
    ensures
        no_more_ships(battle(b, tah, tas, tdh, tds, n), b),
    decreases n,
{
    if !(n == 0 || b.ah == 0 || defender_down(b)) {
        let r = round(b, tah, tas, tdh, tds);
        lemma_round_no_more(b, tah, tas, tdh, tds);
        lemma_battle_no_more(r, tah, tas, tdh, tds, (n - 1) as nat);
    }
}

/// A battle never adds ships to either side: after it, each kind counts at most what it counted
/// when the battle began.
pub proof fn law_battle_never_adds_ships(m: FleetMission, d: Fleet)
    ensures
        no_more_ships(outcome(m, d), opening(m, d)),
{
    let o = opening(m, d);
    lemma_battle_no_more(o, o.ah, o.ash, o.dh, o.dsh, MAX_ROUNDS as nat);
}

/// A transport's cargo is delivered once: once a first resolution has delivered it, resolving
/// the same mission again at the same moment leaves the destination's resources as they are.
pub proof fn law_transport_delivers_once(f: Fleet, dest: Planet, res: Resources, slot: usize, now: i64)
    requires
        !f.missions[slot_index(slot)].applied,
        transport_spec(f, dest, res, slot, now).2 is Ok,
    ensures
        ({
            let (f1, res1, _) = transport_spec(f, dest, res, slot, now);
            transport_spec(f1, dest, res1, slot, now).1 == res1
        }),
{
    let (f1, res1, _) = transport_spec(f, dest, res, slot, now);
    vstd::array::axiom_spec_array_update(f.missions, slot_index(slot), FleetMission { applied: true, ..f.missions[slot_index(slot)] });
    assert(f1.missions[slot_index(slot)].applied);
}

/// An offer sells once: once a purchase of it has gone through, every later purchase of it is
/// refused as already filled, whoever buys and whatever they hold.
pub proof fn law_offer_sold_once(
    config: MarketConfig,
    offer: MarketOffer,
    counter: SellerCounter,
    buyer: Seq<u8>,
    balance: u64,
    treasury: Seq<u8>,
    mint: Seq<u8>,
    later_config: MarketConfig,
    later_counter: SellerCounter,
    later_buyer: Seq<u8>,
    later_balance: u64,
)
    requires
        accept_offer_check(config, offer, counter, buyer, balance, treasury, mint) is Ok,
    ensures
        accept_offer_check(
            later_config,
            MarketOffer { filled: true, ..offer },
            later_counter,
            later_buyer,
            later_balance,
            treasury,
            mint,
        ) == Err::<(), MarketError>(MarketError::AlreadyFilled),
{
}

/// A planet listing sells once: once a purchase of it has gone through, every later purchase
/// of it is refused as already filled.
pub proof fn law_listing_sold_once(
    config: MarketConfig,
    listing: PlanetListing,
    listing_key: Seq<u8>,
    counter: SellerCounter,
    index: Option<PlanetListingIndex>,
    buyer: Seq<u8>,
    accounts: PlanetAccounts,
    balance: u64,
    treasury: Seq<u8>,
    mint: Seq<u8>,
    later_counter: SellerCounter,
    later_index: Option<PlanetListingIndex>,
    later_buyer: Seq<u8>,
    later_balance: u64,
)
    requires
        buy_listing_check(config, listing, listing_key, counter, index, buyer, accounts, balance, treasury, mint) is Ok,
    ensures
        buy_listing_check(
            config,
            PlanetListing { filled: true, ..listing },
            listing_key,
            later_counter,
            later_index,
            later_buyer,
            accounts,
            later_balance,
            treasury,
            mint,
        ) == Err::<(), MarketError>(MarketError::AlreadyFilled),
{
}

/// A member completes each alliance deposit mission once per period: after a deposit for it
/// went through, any later deposit for the same mission in the same day, week or month, whose
/// accounts pass their checks and whose amounts meet the mission, is refused as already
/// claimed and changes no record.
pub proof fn law_deposit_mission_once(
    alliance: AllianceState,
    membership: AllianceMembership,
    treasury: AllianceTreasuryState,
    planet: PlanetDepositFields,
    keys: crate::deposit::DepositKeys,
    game_config: crate::accounts::GameConfig,
    store_config: StoreConfig,
    payment: crate::deposit::AntimatterAccounts,
    period: u8,
    mission_id: u8,
    amounts: (u64, u64, u64, u64),
    now: i64,
    later_alliance: AllianceState,
    later_treasury: AllianceTreasuryState,
    later_planet: PlanetDepositFields,
    later_keys: crate::deposit::DepositKeys,
    later_game_config: crate::accounts::GameConfig,
    later_store_config: StoreConfig,
    later_payment: crate::deposit::AntimatterAccounts,
    later_amounts: (u64, u64, u64, u64),
    later: i64,
)
    requires
        crate::deposit::deposit_spec(
            alliance, membership, treasury, planet, keys, game_config, store_config, payment, period, mission_id,
            amounts.0, amounts.1, amounts.2, amounts.3, now,
        ).4 is Ok,
        crate::alliance::period_epoch(period, later) == crate::alliance::period_epoch(period, now),
        crate::deposit::deposit_accounts_check(
            later_keys,
            crate::deposit::deposit_spec(
                alliance, membership, treasury, planet, keys, game_config, store_config, payment, period, mission_id,
                amounts.0, amounts.1, amounts.2, amounts.3, now,
            ).1,
            later_treasury,
            later_planet,
            later_game_config,
        ) is Ok,
        later_amounts.0 > 0 || later_amounts.1 > 0 || later_amounts.2 > 0 || later_amounts.3 > 0,
        crate::deposit::deposit_mission_spec(period, mission_id) matches Some(m) && later_amounts.0 >= m.metal
            && later_amounts.1 >= m.crystal && later_amounts.2 >= m.deuterium && later_amounts.3 >= m.antimatter,
    ensures
        ({
            let m1 = crate::deposit::deposit_spec(
                alliance, membership, treasury, planet, keys, game_config, store_config, payment, period, mission_id,
                amounts.0, amounts.1, amounts.2, amounts.3, now,
            ).1;
            crate::deposit::deposit_spec(
                later_alliance, m1, later_treasury, later_planet, later_keys, later_game_config, later_store_config,
                later_payment, period, mission_id, later_amounts.0, later_amounts.1, later_amounts.2, later_amounts.3, later,
            ) == (later_alliance, m1, later_treasury, later_planet, Err::<(), GameStateError>(GameStateError::AllianceMissionAlreadyClaimed))
        }),
{
    let bit = 1u64 << mission_id;
    assert(mission_id < 4);
    assert(forall|m: u64| #![auto] (m | bit) & bit != 0) by (bit_vector)
        requires
            bit == 1u64 << mission_id,
            mission_id < 4,
    ;
    let synced = crate::alliance::synced_membership(membership, now);
    let m1 = crate::deposit::with_claimed(synced, period, bit);
    assert(crate::deposit::claimed_mask(m1, period) & bit != 0);
    assert(crate::deposit::claimed_mask(crate::alliance::synced_membership(m1, later), period) == crate::deposit::claimed_mask(m1, period));
}

/// A transport's cargo reaches a planet once: after its arrival has been resolved, resolving the
/// same slot again, at any later moment and against any planet, leaves that planet as it is.
pub proof fn law_planet_transport_delivers_once(s0: PlanetState, d0: PlanetState, slot: int, now: i64, d1: PlanetState, later: i64)
    requires
        0 <= slot < crate::constants::MAX_MISSIONS,
        !s0.missions[slot].applied,
        crate::missions::resolve_transport_spec(s0, d0, slot, now).2 is Ok,
    ensures
        crate::missions::resolve_transport_spec(crate::missions::resolve_transport_spec(s0, d0, slot, now).0, d1, slot, later).1 == d1,
{
    broadcast use vstd::array::group_array_axioms;
    let s1 = crate::missions::resolve_transport_spec(s0, d0, slot, now).0;
    let m1 = s1.missions[slot];
    assert(m1.mission_type != crate::constants::MISSION_TRANSPORT || m1.applied);
}

/// Writing a planet record's building, research and shipyard fields and reading the record again
/// gives back what was written; the owner, temperature and field count, which the writer leaves
/// alone, read as they were, and so does every byte outside the fields written.
#[verifier::rlimit(100)]
pub proof fn law_build_fields_write_read(d: Seq<u8>, before: crate::planet_bytes::PlanetBuildFields, f: crate::planet_bytes::PlanetBuildFields)
    requires
        d.len() >= crate::planet_bytes::PLANET_DEPOSIT_MIN_LEN,
        crate::planet_bytes::build_fields_from(before, d),
    ensures
        crate::planet_bytes::build_fields_written(d, f).len() == d.len(),
        crate::planet_bytes::build_fields_from(
            crate::planet_bytes::PlanetBuildFields {
                deposit: PlanetDepositFields { authority: before.deposit.authority, ..f.deposit },
                temperature: before.temperature,
                max_fields: before.max_fields,
                ..f
            },
            crate::planet_bytes::build_fields_written(d, f),
        ),
        forall|i: int|
            0 <= i < d.len() && (i < 121 || 262 <= i < 310 || 366 <= i < 976 || 989 <= i) ==> #[trigger] crate::planet_bytes::build_fields_written(
                d,
                f,
            )[i] == d[i],
{
    broadcast use crate::bytes::group_put_reads;
    vstd::bytes::lemma_auto_spec_u16_to_from_le_bytes();
    vstd::bytes::lemma_auto_spec_u32_to_from_le_bytes();
    vstd::bytes::lemma_auto_spec_u64_to_from_le_bytes();
    let t0: i64 = f.deposit.last_update_ts;
    let t1: i64 = f.research_finish_ts;
    let t2: i64 = f.build_finish_ts;
    let t3: i64 = f.ship_build_finish_ts;
    assert((t0 as u64) as i64 == t0) by (bit_vector);
    assert((t1 as u64) as i64 == t1) by (bit_vector);
    assert((t2 as u64) as i64 == t2) by (bit_vector);
    assert((t3 as u64) as i64 == t3) by (bit_vector);
}

/// The defender's survivors and repaired defenses after a battle against `att0` never exceed
/// what the planet `d2` fielded.
proof fn lemma_defender_survivors_bounded(att0: Seq<crate::combat::CombatStack>, d2: PlanetState)
    ensures
        ({
            let def0 = crate::combat::defender_stacks_spec(d2);
            let (att, def, _) = crate::combat::battle(att0, def0, 0, 0);
            let (f, g, _, _) = crate::combat::defender_aftermath(
                def0,
                def,
                def0.len(),
                crate::combat::fleet_counts(def),
                crate::combat::defense_counts(def),
                crate::combat::attacker_debris(att0, att, att0.len()).0,
                crate::combat::attacker_debris(att0, att, att0.len()).1,
            );
            let fb = crate::combat::planet_fleet(d2);
            let gb = crate::combat::planet_defenses(d2);
            &&& f[0] <= fb[0] && f[1] <= fb[1] && f[2] <= fb[2] && f[3] <= fb[3] && f[4] <= fb[4] && f[5] <= fb[5] && f[6] <= fb[6]
            &&& f[7] <= fb[7] && f[8] <= fb[8] && f[9] <= fb[9] && f[10] <= fb[10] && f[11] <= fb[11] && f[12] <= fb[12] && f[13] <= fb[13]
            &&& g[0] <= gb[0] && g[1] <= gb[1] && g[2] <= gb[2] && g[3] <= gb[3] && g[4] <= gb[4] && g[5] <= gb[5] && g[6] <= gb[6] && g[7] <= gb[7]
        }),
{
    let def0 = crate::combat::defender_stacks_spec(d2);
    let (att, def, rounds) = crate::combat::battle(att0, def0, 0, 0);
    crate::combat::lemma_battle_shape(att0, def0, 0, 0);
    let fb = crate::combat::planet_fleet(d2);
    let gb = crate::combat::planet_defenses(d2);
    crate::combat::lemma_defender_stacks_bounded(d2);
    crate::combat::lemma_stacks_bounded_fewer(def0, def, fb, gb);
    crate::combat::lemma_counts_bounded(def, fb, gb);
    crate::combat::lemma_counts_len(def);
    crate::combat::lemma_aftermath_bounded(
        def0,
        def,
        def0.len(),
        crate::combat::fleet_counts(def),
        crate::combat::defense_counts(def),
        crate::combat::attacker_debris(att0, att, att0.len()).0,
        crate::combat::attacker_debris(att0, att, att0.len()).1,
        fb,
        gb,
    );
    let (f, g, dm, dc) = crate::combat::defender_aftermath(
        def0,
        def,
        def0.len(),
        crate::combat::fleet_counts(def),
        crate::combat::defense_counts(def),
        crate::combat::attacker_debris(att0, att, att0.len()).0,
        crate::combat::attacker_debris(att0, att, att0.len()).1,
    );
    assert(f[0] <= fb[0] && f[1] <= fb[1] && f[2] <= fb[2] && f[3] <= fb[3] && f[4] <= fb[4] && f[5] <= fb[5] && f[6] <= fb[6]);
    assert(f[7] <= fb[7] && f[8] <= fb[8] && f[9] <= fb[9] && f[10] <= fb[10] && f[11] <= fb[11] && f[12] <= fb[12] && f[13] <= fb[13]);
    assert(g[0] <= gb[0] && g[1] <= gb[1] && g[2] <= gb[2] && g[3] <= gb[3] && g[4] <= gb[4] && g[5] <= gb[5] && g[6] <= gb[6] && g[7] <= gb[7]);
}

/// An attack whose fleet survives the battle turns home with no more ships of any type than it
/// sent; the target is marked attacked at that moment and loses only resources, and no more in
/// all than the surviving fleet's cargo room left over from what it carried out.
#[verifier::rlimit(100)]
pub proof fn law_attack_within_fleet_and_cargo(s0: PlanetState, d0: PlanetState, c0: crate::planet::PlanetCoordinates, slot: int, now: i64)
    requires
        0 <= slot < crate::constants::MAX_MISSIONS,
        s0.missions[slot].mission_type == crate::constants::MISSION_ATTACK,
        !s0.missions[slot].applied,
        crate::attack::resolve_attack_spec(s0, d0, c0, slot, now).3 is Ok,
        crate::attack::resolve_attack_spec(s0, d0, c0, slot, now).0.missions[slot].mission_type == crate::constants::MISSION_ATTACK,
    ensures
        ({
            let (s, d, _, _) = crate::attack::resolve_attack_spec(s0, d0, c0, slot, now);
            let m = s0.missions[slot];
            let m2 = s.missions[slot];
            let d1 = settle_spec(d0, now).0;
            let launched = m.cargo_metal.saturating_add(m.cargo_crystal).saturating_add(m.cargo_deuterium);
            let room = (crate::formulas::cargo_capacity_spec(m2.small_cargo, m2.large_cargo, m2.recycler, m2.cruiser, m2.battleship) as u64)
                .saturating_sub(launched);
            &&& m2.applied
            &&& d.last_attacked_ts == now
            &&& m2.small_cargo <= m.small_cargo && m2.large_cargo <= m.large_cargo
            &&& m2.light_fighter <= m.light_fighter && m2.heavy_fighter <= m.heavy_fighter
            &&& m2.cruiser <= m.cruiser && m2.battleship <= m.battleship
            &&& m2.battlecruiser <= m.battlecruiser && m2.bomber <= m.bomber
            &&& m2.destroyer <= m.destroyer && m2.deathstar <= m.deathstar
            &&& m2.recycler <= m.recycler && m2.espionage_probe <= m.espionage_probe
            &&& m2.colony_ship <= m.colony_ship
            &&& d.metal <= d1.metal && d.crystal <= d1.crystal && d.deuterium <= d1.deuterium
            &&& (d1.metal - d.metal) + (d1.crystal - d.crystal) + (d1.deuterium - d.deuterium) <= room
        }),
{
    broadcast use vstd::array::group_array_axioms;
    let m = s0.missions[slot];
    let s1 = settle_spec(s0, now).0;
    let d1 = settle_spec(d0, now).0;
    let d2 = PlanetState { last_attacked_ts: now, ..d1 };
    let att0 = crate::combat::attacker_stacks_spec(m, s1);
    let def0 = crate::combat::defender_stacks_spec(d2);
    let (att, def, rounds) = crate::combat::battle(att0, def0, 0, 0);
    let b = crate::combat::mission_counts(m);
    crate::combat::lemma_attacker_stacks_bounded(m, s1);
    crate::combat::lemma_battle_shape(att0, def0, 0, 0);
    crate::combat::lemma_ships_bounded_fewer(att0, att, b);
    crate::combat::lemma_fleet_counts_bounded(att, b);
    crate::combat::lemma_counts_len(att);
    let surv = crate::combat::fleet_counts(att);
    assert(surv[0] <= b[0] && surv[1] <= b[1] && surv[2] <= b[2] && surv[3] <= b[3] && surv[4] <= b[4]);
    assert(surv[5] <= b[5] && surv[6] <= b[6] && surv[7] <= b[7] && surv[8] <= b[8] && surv[9] <= b[9]);
    assert(surv[10] <= b[10] && surv[11] <= b[11] && surv[12] <= b[12]);
}

/// Sending a surviving fleet home leaves the target's ships and defenses as the battle left
/// them and records whether the attacker won.
proof fn lemma_homeward_keeps_defender(
    s1: PlanetState,
    d3: PlanetState,
    c1: crate::planet::PlanetCoordinates,
    m: crate::planet::MissionState,
    slot: int,
    now: i64,
    surv: Seq<u32>,
    rounds: u8,
    won: bool,
    defender_survived: bool,
    dm: u64,
    dc: u64,
)
    requires
        0 <= slot < crate::constants::MAX_MISSIONS,
        crate::attack::attack_homeward(s1, d3, c1, m, slot, now, surv, rounds, won, defender_survived, dm, dc).3 is Ok,
    ensures
        ({
            let out = crate::attack::attack_homeward(s1, d3, c1, m, slot, now, surv, rounds, won, defender_survived, dm, dc);
            let m2 = out.0.missions[slot];
            &&& m2.attacker_won == won
            &&& crate::combat::planet_fleet(out.1) == crate::combat::planet_fleet(d3)
            &&& crate::combat::planet_defenses(out.1) == crate::combat::planet_defenses(d3)
            &&& (won && m.cargo_metal + d3.metal <= u64::MAX && m.cargo_crystal + d3.crystal <= u64::MAX
                && m.cargo_deuterium + d3.deuterium <= u64::MAX) ==> {
                &&& d3.metal - out.1.metal <= m2.cargo_metal - m.cargo_metal
                &&& d3.crystal - out.1.crystal <= m2.cargo_crystal - m.cargo_crystal
                &&& d3.deuterium - out.1.deuterium <= m2.cargo_deuterium - m.cargo_deuterium
            }
        }),
{
    broadcast use vstd::array::group_array_axioms;
}

/// What the battle of an arrived attack hands to the trip home: the settled source, the target
/// with its survivors, the coordinates with the new debris, the attacker's survivors, the rounds
/// fought, whether any defender survived, and the debris created.
#[verifier::opaque]
spec fn attack_battle_outcome(s0: PlanetState, d0: PlanetState, c0: crate::planet::PlanetCoordinates, slot: int, now: i64) -> (
    PlanetState,
    PlanetState,
    crate::planet::PlanetCoordinates,
    Seq<u32>,
    u8,
    bool,
    u64,
    u64,
) {
    let m = s0.missions[slot];
    let s1 = settle_spec(s0, now).0;
    let d2 = PlanetState { last_attacked_ts: now, ..settle_spec(d0, now).0 };
    let att0 = crate::combat::attacker_stacks_spec(m, s1);
    let def0 = crate::combat::defender_stacks_spec(d2);
    let (att, def, rounds) = crate::combat::battle(att0, def0, 0, 0);
    let (am, ac) = crate::combat::attacker_debris(att0, att, att0.len());
    let (f, g, dm, dc) = crate::combat::defender_aftermath(
        def0,
        def,
        def0.len(),
        crate::combat::fleet_counts(def),
        crate::combat::defense_counts(def),
        am,
        ac,
    );
    let c1 = crate::planet::PlanetCoordinates {
        debris_metal: c0.debris_metal.saturating_add(dm),
        debris_crystal: c0.debris_crystal.saturating_add(dc),
        ..c0
    };
    (s1, crate::combat::with_survivors(d2, f, g), c1, crate::combat::fleet_counts(att), rounds as u8, crate::combat::units(def) > 0, dm, dc)
}

/// An arrived attack whose fleet survives the battle resolves as the survivors' trip home, and
/// the target comes out of the battle with no more ships or defenses of any type than it had.
#[verifier::rlimit(100)]
#[verifier::spinoff_prover]
proof fn lemma_attack_resolves_homeward(s0: PlanetState, d0: PlanetState, c0: crate::planet::PlanetCoordinates, slot: int, now: i64)
    requires
        0 <= slot < crate::constants::MAX_MISSIONS,
        s0.missions[slot].mission_type == crate::constants::MISSION_ATTACK,
        !s0.missions[slot].applied,
        crate::attack::resolve_attack_spec(s0, d0, c0, slot, now).3 is Ok,
        crate::attack::resolve_attack_spec(s0, d0, c0, slot, now).0.missions[slot].mission_type == crate::constants::MISSION_ATTACK,
    ensures
        ({
            let o = attack_battle_outcome(s0, d0, c0, slot, now);
            &&& crate::attack::resolve_attack_spec(s0, d0, c0, slot, now) == crate::attack::attack_homeward(
                o.0,
                o.1,
                o.2,
                s0.missions[slot],
                slot,
                now,
                o.3,
                o.4,
                !o.5,
                o.5,
                o.6,
                o.7,
            )
            &&& o.5 == (crate::combat::units(
                crate::combat::battle(
                    crate::combat::attacker_stacks_spec(s0.missions[slot], settle_spec(s0, now).0),
                    crate::combat::defender_stacks_spec(PlanetState { last_attacked_ts: now, ..settle_spec(d0, now).0 }),
                    0,
                    0,
                ).1,
            ) > 0)
            &&& crate::combat::units(
                crate::combat::battle(
                    crate::combat::attacker_stacks_spec(s0.missions[slot], settle_spec(s0, now).0),
                    crate::combat::defender_stacks_spec(PlanetState { last_attacked_ts: now, ..settle_spec(d0, now).0 }),
                    0,
                    0,
                ).1,
            ) >= 0
            &&& o.1.metal == settle_spec(d0, now).0.metal && o.1.crystal == settle_spec(d0, now).0.crystal
            &&& o.1.deuterium == settle_spec(d0, now).0.deuterium
            &&& forall|i: int| 0 <= i < 14 ==> #[trigger] crate::combat::planet_fleet(o.1)[i] <= crate::combat::planet_fleet(settle_spec(d0, now).0)[i]
            &&& forall|i: int| 0 <= i < 10 ==> #[trigger] crate::combat::planet_defenses(o.1)[i] <= crate::combat::planet_defenses(settle_spec(d0, now).0)[i]
        }),
{
    broadcast use vstd::array::group_array_axioms;
    reveal(attack_battle_outcome);
    let m = s0.missions[slot];
    let s1 = settle_spec(s0, now).0;
    let d1 = settle_spec(d0, now).0;
    let d2 = PlanetState { last_attacked_ts: now, ..d1 };
    let att0 = crate::combat::attacker_stacks_spec(m, s1);
    let def0 = crate::combat::defender_stacks_spec(d2);
    let (att, def, rounds) = crate::combat::battle(att0, def0, 0, 0);
    let surv = crate::combat::fleet_counts(att);
    let (am, ac) = crate::combat::attacker_debris(att0, att, att0.len());
    let (f, g, dm, dc) = crate::combat::defender_aftermath(
        def0,
        def,
        def0.len(),
        crate::combat::fleet_counts(def),
        crate::combat::defense_counts(def),
        am,
        ac,
    );
    assert(crate::attack::attack_precheck(s0, d0, c0, m, now) is Ok);
    assert(settle_spec(s0, now).1 is Ok);
    assert(settle_spec(d0, now).1 is Ok);
    assert(crate::attack::seq_sum(surv) != 0);
    crate::combat::lemma_units_bound(def);
    lemma_defender_survivors_bounded(att0, d2);
    let o1 = crate::combat::with_survivors(d2, f, g);
    let pf = crate::combat::planet_fleet(o1);
    let pg = crate::combat::planet_defenses(o1);
    let bf = crate::combat::planet_fleet(d1);
    let bg = crate::combat::planet_defenses(d1);
    assert(bf == crate::combat::planet_fleet(d2));
    assert(bg == crate::combat::planet_defenses(d2));
    assert forall|i: int| 0 <= i < 14 implies #[trigger] pf[i] <= bf[i] by {
        assert(pf[i] == f[i]);
    }
    assert forall|i: int| 0 <= i < 10 implies #[trigger] pg[i] <= bg[i] by {
        if i < 8 {
            assert(pg[i] == g[i]);
        }
    }
}

/// Bounds on a planet's ship and defense counts, read field by field.
proof fn lemma_counts_bound_fields(d: PlanetState, b: PlanetState)
    requires
        forall|i: int| 0 <= i < 14 ==> #[trigger] crate::combat::planet_fleet(d)[i] <= crate::combat::planet_fleet(b)[i],
        forall|i: int| 0 <= i < 10 ==> #[trigger] crate::combat::planet_defenses(d)[i] <= crate::combat::planet_defenses(b)[i],
    ensures
        d.small_cargo <= b.small_cargo && d.large_cargo <= b.large_cargo,
        d.light_fighter <= b.light_fighter && d.heavy_fighter <= b.heavy_fighter,
        d.cruiser <= b.cruiser && d.battleship <= b.battleship,
        d.battlecruiser <= b.battlecruiser && d.bomber <= b.bomber,
        d.destroyer <= b.destroyer && d.deathstar <= b.deathstar,
        d.recycler <= b.recycler && d.espionage_probe <= b.espionage_probe,
        d.colony_ship <= b.colony_ship && d.solar_satellite <= b.solar_satellite,
        d.rocket_launcher <= b.rocket_launcher && d.light_laser <= b.light_laser,
        d.heavy_laser <= b.heavy_laser && d.gauss_cannon <= b.gauss_cannon,
        d.ion_cannon <= b.ion_cannon && d.plasma_turret <= b.plasma_turret,
        d.small_shield_dome <= b.small_shield_dome && d.large_shield_dome <= b.large_shield_dome,
{
    let pf = crate::combat::planet_fleet(d);
    let pg = crate::combat::planet_defenses(d);
    let bf = crate::combat::planet_fleet(b);
    let bg = crate::combat::planet_defenses(b);
    assert(pf[0] <= bf[0] && pf[1] <= bf[1] && pf[2] <= bf[2] && pf[3] <= bf[3] && pf[4] <= bf[4] && pf[5] <= bf[5] && pf[6] <= bf[6]);
    assert(pf[7] <= bf[7] && pf[8] <= bf[8] && pf[9] <= bf[9] && pf[10] <= bf[10] && pf[11] <= bf[11] && pf[12] <= bf[12] && pf[13] <= bf[13]);
    assert(pg[0] <= bg[0] && pg[1] <= bg[1] && pg[2] <= bg[2] && pg[3] <= bg[3] && pg[4] <= bg[4] && pg[5] <= bg[5] && pg[6] <= bg[6] && pg[7] <= bg[7]);
}

/// In an attack whose fleet survives the battle, the target keeps no more ships or defenses of
/// any type than it had, and the attack is marked as won exactly when no defending unit
/// survived the battle. When it is won, each resource the target lost is in the fleet's cargo
/// on top of what it carried out, as long as those sums fit in a `u64`.
#[verifier::rlimit(100)]
#[verifier::spinoff_prover]
pub proof fn law_attack_defender_never_grows(s0: PlanetState, d0: PlanetState, c0: crate::planet::PlanetCoordinates, slot: int, now: i64)
    requires
        0 <= slot < crate::constants::MAX_MISSIONS,
        s0.missions[slot].mission_type == crate::constants::MISSION_ATTACK,
        !s0.missions[slot].applied,
        crate::attack::resolve_attack_spec(s0, d0, c0, slot, now).3 is Ok,
        crate::attack::resolve_attack_spec(s0, d0, c0, slot, now).0.missions[slot].mission_type == crate::constants::MISSION_ATTACK,
    ensures
        ({
            let (s, d, _, _) = crate::attack::resolve_attack_spec(s0, d0, c0, slot, now);
            let m = s0.missions[slot];
            let m2 = s.missions[slot];
            let d1 = settle_spec(d0, now).0;
            &&& m2.attacker_won == (crate::combat::units(
                crate::combat::battle(
                    crate::combat::attacker_stacks_spec(m, settle_spec(s0, now).0),
                    crate::combat::defender_stacks_spec(PlanetState { last_attacked_ts: now, ..d1 }),
                    0,
                    0,
                ).1,
            ) == 0)
            &&& d.small_cargo <= d1.small_cargo && d.large_cargo <= d1.large_cargo
            &&& d.light_fighter <= d1.light_fighter && d.heavy_fighter <= d1.heavy_fighter
            &&& d.cruiser <= d1.cruiser && d.battleship <= d1.battleship
            &&& d.battlecruiser <= d1.battlecruiser && d.bomber <= d1.bomber
            &&& d.destroyer <= d1.destroyer && d.deathstar <= d1.deathstar
            &&& d.recycler <= d1.recycler && d.espionage_probe <= d1.espionage_probe
            &&& d.colony_ship <= d1.colony_ship && d.solar_satellite <= d1.solar_satellite
            &&& d.rocket_launcher <= d1.rocket_launcher && d.light_laser <= d1.light_laser
            &&& d.heavy_laser <= d1.heavy_laser && d.gauss_cannon <= d1.gauss_cannon
            &&& d.ion_cannon <= d1.ion_cannon && d.plasma_turret <= d1.plasma_turret
            &&& d.small_shield_dome <= d1.small_shield_dome && d.large_shield_dome <= d1.large_shield_dome
            &&& (m2.attacker_won && m.cargo_metal + d1.metal <= u64::MAX && m.cargo_crystal + d1.crystal <= u64::MAX
                && m.cargo_deuterium + d1.deuterium <= u64::MAX) ==> {
                &&& d1.metal - d.metal <= m2.cargo_metal - m.cargo_metal
                &&& d1.crystal - d.crystal <= m2.cargo_crystal - m.cargo_crystal
                &&& d1.deuterium - d.deuterium <= m2.cargo_deuterium - m.cargo_deuterium
            }
        }),
{
    let o = attack_battle_outcome(s0, d0, c0, slot, now);
    lemma_attack_resolves_homeward(s0, d0, c0, slot, now);
    lemma_homeward_keeps_defender(o.0, o.1, o.2, s0.missions[slot], slot, now, o.3, o.4, !o.5, o.5, o.6, o.7);
    lemma_counts_bound_fields(crate::attack::resolve_attack_spec(s0, d0, c0, slot, now).1, settle_spec(d0, now).0);
}

/// A returning attack that is back home unloads exactly once: every ship it brought back joins
/// the hangar, its cargo is added to the stock in full, its slot is freed, the target and its
/// coordinates are untouched, and resolving the same slot again is refused.
pub proof fn law_attack_return_unloads_once(s0: PlanetState, d0: PlanetState, c0: crate::planet::PlanetCoordinates, slot: int, now: i64, later: i64)
    requires
        0 <= slot < crate::constants::MAX_MISSIONS,
        s0.missions[slot].mission_type == crate::constants::MISSION_ATTACK,
        s0.missions[slot].applied,
        crate::attack::resolve_attack_spec(s0, d0, c0, slot, now).3 is Ok,
    ensures
        ({
            let (s, d, c, r) = crate::attack::resolve_attack_spec(s0, d0, c0, slot, now);
            let m = s0.missions[slot];
            let s1 = settle_spec(s0, now).0;
            &&& r == Ok::<crate::attack::AttackResolution, GameStateError>(crate::attack::AttackResolution::Returned)
            &&& d == d0 && c == c0
            &&& s.metal == s1.metal + m.cargo_metal && s.crystal == s1.crystal + m.cargo_crystal
            &&& s.deuterium == s1.deuterium + m.cargo_deuterium
            &&& s.small_cargo == s1.small_cargo.saturating_add(m.small_cargo)
            &&& s.large_cargo == s1.large_cargo.saturating_add(m.large_cargo)
            &&& s.light_fighter == s1.light_fighter.saturating_add(m.light_fighter)
            &&& s.heavy_fighter == s1.heavy_fighter.saturating_add(m.heavy_fighter)
            &&& s.cruiser == s1.cruiser.saturating_add(m.cruiser)
            &&& s.battleship == s1.battleship.saturating_add(m.battleship)
            &&& s.battlecruiser == s1.battlecruiser.saturating_add(m.battlecruiser)
            &&& s.bomber == s1.bomber.saturating_add(m.bomber)
            &&& s.destroyer == s1.destroyer.saturating_add(m.destroyer)
            &&& s.deathstar == s1.deathstar.saturating_add(m.deathstar)
            &&& s.recycler == s1.recycler.saturating_add(m.recycler)
            &&& s.espionage_probe == s1.espionage_probe.saturating_add(m.espionage_probe)
            &&& s.colony_ship == s1.colony_ship.saturating_add(m.colony_ship)
            &&& s.missions[slot] == crate::planet::empty_mission()
            &&& s.active_missions == s1.active_missions.saturating_sub(1)
            &&& crate::attack::resolve_attack_spec(s, d, c, slot, later).3 == Err::<crate::attack::AttackResolution, GameStateError>(
                GameStateError::InvalidMission,
            )
        }),
{
    broadcast use vstd::array::group_array_axioms;
}

/// A store purchase that goes through charges the pack's USDC price and adds exactly the pack's
/// metal, crystal and deuterium to the buyer's planet as settled at that moment.
pub proof fn law_store_pack_delivers(
    config: StoreConfig,
    purchases: StorePurchaseState,
    planet: PlanetDepositFields,
    authority: Key,
    usdc_mint: Seq<u8>,
    treasury_usdc: Seq<u8>,
    period: u8,
    pack_id: u8,
    bump: u8,
    now: i64,
)
    requires
        purchase_spec(config, purchases, planet, authority, usdc_mint, treasury_usdc, period, pack_id, bump, now).2 is Ok,
    ensures
        ({
            let (_, planet1, r) = purchase_spec(config, purchases, planet, authority, usdc_mint, treasury_usdc, period, pack_id, bump, now);
            let settled = crate::deposit::settle_deposit_spec(planet, now).0;
            let pack = crate::store::store_pack_spec(period, pack_id)->Some_0;
            &&& crate::store::store_pack_spec(period, pack_id) is Some
            &&& r == Ok::<u64, GameStateError>(pack.price_usdc)
            &&& planet1.metal == settled.metal + pack.metal
            &&& planet1.crystal == settled.crystal + pack.crystal
            &&& planet1.deuterium == settled.deuterium + pack.deuterium
        }),
{
}

/// An alliance deposit that is accepted with ANTIMATTER in it takes that ANTIMATTER from an
/// account of the depositor holding at least that much and pays it into the store admin's
/// associated ANTIMATTER account, the protocol treasury; the alliance treasury records it.
pub proof fn law_deposit_antimatter_to_protocol_treasury(
    alliance: AllianceState,
    membership: AllianceMembership,
    treasury: AllianceTreasuryState,
    planet: PlanetDepositFields,
    keys: crate::deposit::DepositKeys,
    game_config: crate::accounts::GameConfig,
    store_config: StoreConfig,
    payment: crate::deposit::AntimatterAccounts,
    period: u8,
    mission_id: u8,
    metal: u64,
    crystal: u64,
    deuterium: u64,
    antimatter: u64,
    now: i64,
)
    requires
        antimatter > 0,
        crate::deposit::deposit_spec(
            alliance, membership, treasury, planet, keys, game_config, store_config, payment,
            period, mission_id, metal, crystal, deuterium, antimatter, now,
        ).4 is Ok,
    ensures
        crate::address::is_associated_token_address(payment.treasury_account@, store_config.admin@, keys.antimatter_mint@),
        payment.treasury_owner@ == store_config.admin@ && payment.treasury_mint@ == keys.antimatter_mint@,
        payment.user_owner@ == keys.authority@ && payment.user_mint@ == keys.antimatter_mint@,
        payment.user_amount >= antimatter,
        crate::deposit::deposit_spec(
            alliance, membership, treasury, planet, keys, game_config, store_config, payment,
            period, mission_id, metal, crystal, deuterium, antimatter, now,
        ).2.antimatter == treasury.antimatter.saturating_add(antimatter),
{
}

} // verus!
