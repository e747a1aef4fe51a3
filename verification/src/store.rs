//! The store: packs of resources sold for USDC once per day, week or month.
use vstd::prelude::*;

use crate::accounts::{StoreConfig, StorePurchaseState};
use crate::alliance::{SECONDS_PER_DAY, SECONDS_PER_MONTH, SECONDS_PER_WEEK};
use crate::deposit::{deposit_settle_fits, settle_deposit_spec, settle_planet_deposit_fields};
use crate::error::GameStateError;
use crate::key::{all_zero, Key};
use crate::num::div_trunc;
use crate::planet_bytes::PlanetDepositFields;
use crate::accounts::QuestProgressState;
use crate::quest_claims::QuestProgressMetric;
use crate::resolution::{count_quest_progress, progress_update, ProgressRecord};

verus! {

/// The protection a daily shield pack would grant.
pub const DAILY_SHIELD_SECONDS: i64 = 86_400;
/// The protection a weekly shield pack would grant.
pub const WEEKLY_SHIELD_SECONDS: i64 = 604_800;
/// The protection a monthly shield pack would grant.
pub const MONTHLY_SHIELD_SECONDS: i64 = 2_592_000;
/// Store pack ids are bits of a 64-bit mask.
pub const MAX_STORE_PACK_ID: u8 = 63;

/// A store pack: its USDC price (in base units), the resources it grants and the protection it
/// would grant.
#[derive(Clone, Copy, Debug)]
pub struct StorePack {
    pub price_usdc: u64,
    pub metal: u64,
    pub crystal: u64,
    pub deuterium: u64,
    pub shield_seconds: i64,
}

/// The packs of the day (`period` 1), week (2) and month (3).
pub open spec fn store_pack_spec(period: u8, pack_id: u8) -> Option<StorePack> {
    match (period, pack_id) {
        (1, 0) => Some(StorePack { price_usdc: 1_000_000, metal: 3_000, crystal: 0, deuterium: 0, shield_seconds: 0 }),
        (1, 1) => Some(StorePack { price_usdc: 1_000_000, metal: 0, crystal: 2_000, deuterium: 0, shield_seconds: 0 }),
        (1, 2) => Some(StorePack { price_usdc: 1_000_000, metal: 0, crystal: 0, deuterium: 750, shield_seconds: 0 }),
        (1, 3) => Some(StorePack { price_usdc: 3_000_000, metal: 3_000, crystal: 2_000, deuterium: 750, shield_seconds: 0 }),
        (1, 4) => Some(StorePack { price_usdc: 5_000_000, metal: 8_000, crystal: 5_000, deuterium: 2_000, shield_seconds: 0 }),
        (1, 5) => Some(StorePack { price_usdc: 7_500_000, metal: 14_000, crystal: 9_000, deuterium: 3_500, shield_seconds: 0 }),
        (1, 16) => Some(StorePack { price_usdc: 1_000_000, metal: 0, crystal: 0, deuterium: 0, shield_seconds: DAILY_SHIELD_SECONDS }),
        (2, 0) => Some(StorePack { price_usdc: 5_000_000, metal: 35_000, crystal: 0, deuterium: 0, shield_seconds: 0 }),
        (2, 1) => Some(StorePack { price_usdc: 5_000_000, metal: 0, crystal: 24_000, deuterium: 0, shield_seconds: 0 }),
        (2, 2) => Some(StorePack { price_usdc: 5_000_000, metal: 0, crystal: 0, deuterium: 10_000, shield_seconds: 0 }),
        (2, 3) => Some(StorePack { price_usdc: 15_000_000, metal: 35_000, crystal: 24_000, deuterium: 10_000, shield_seconds: 0 }),
        (2, 4) => Some(StorePack { price_usdc: 30_000_000, metal: 80_000, crystal: 55_000, deuterium: 25_000, shield_seconds: 0 }),
        (2, 5) => Some(StorePack { price_usdc: 45_000_000, metal: 140_000, crystal: 90_000, deuterium: 40_000, shield_seconds: 0 }),
        (2, 16) => Some(StorePack { price_usdc: 5_000_000, metal: 0, crystal: 0, deuterium: 0, shield_seconds: WEEKLY_SHIELD_SECONDS }),
        (3, 0) => Some(StorePack { price_usdc: 20_000_000, metal: 180_000, crystal: 0, deuterium: 0, shield_seconds: 0 }),
        (3, 1) => Some(StorePack { price_usdc: 20_000_000, metal: 0, crystal: 125_000, deuterium: 0, shield_seconds: 0 }),
        (3, 2) => Some(StorePack { price_usdc: 20_000_000, metal: 0, crystal: 0, deuterium: 60_000, shield_seconds: 0 }),
        (3, 3) => Some(StorePack { price_usdc: 60_000_000, metal: 180_000, crystal: 125_000, deuterium: 60_000, shield_seconds: 0 }),
        (3, 4) => Some(StorePack { price_usdc: 100_000_000, metal: 400_000, crystal: 275_000, deuterium: 140_000, shield_seconds: 0 }),
        (3, 5) => Some(StorePack { price_usdc: 150_000_000, metal: 700_000, crystal: 450_000, deuterium: 220_000, shield_seconds: 0 }),
        (3, 6) => Some(StorePack { price_usdc: 200_000_000, metal: 1_000_000, crystal: 650_000, deuterium: 320_000, shield_seconds: 0 }),
        (3, 7) => Some(StorePack { price_usdc: 250_000_000, metal: 1_350_000, crystal: 900_000, deuterium: 450_000, shield_seconds: 0 }),
        (3, 8) => Some(StorePack { price_usdc: 300_000_000, metal: 1_750_000, crystal: 1_150_000, deuterium: 600_000, shield_seconds: 0 }),
        (3, 9) => Some(StorePack { price_usdc: 400_000_000, metal: 2_500_000, crystal: 1_700_000, deuterium: 850_000, shield_seconds: 0 }),
        (3, 16) => Some(StorePack { price_usdc: 12_500_000, metal: 0, crystal: 0, deuterium: 0, shield_seconds: MONTHLY_SHIELD_SECONDS }),
        _ => None,
    }
}

/// Store pack `pack_id` of `period`; refused for an unknown one.
pub fn store_pack(period: u8, pack_id: u8) -> (r: Result<StorePack, GameStateError>)
    ensures
        match store_pack_spec(period, pack_id) {
            Some(p) => r == Ok::<StorePack, GameStateError>(p),
            None => r == Err::<StorePack, GameStateError>(GameStateError::InvalidStorePack),
        },
{
    let (price_usdc, metal, crystal, deuterium, shield_seconds): (u64, u64, u64, u64, i64) = match (period, pack_id) {
        (1, 0) => (1_000_000, 3_000, 0, 0, 0),
        (1, 1) => (1_000_000, 0, 2_000, 0, 0),
        (1, 2) => (1_000_000, 0, 0, 750, 0),
        (1, 3) => (3_000_000, 3_000, 2_000, 750, 0),
        (1, 4) => (5_000_000, 8_000, 5_000, 2_000, 0),
        (1, 5) => (7_500_000, 14_000, 9_000, 3_500, 0),
        (1, 16) => (1_000_000, 0, 0, 0, DAILY_SHIELD_SECONDS),
        (2, 0) => (5_000_000, 35_000, 0, 0, 0),
        (2, 1) => (5_000_000, 0, 24_000, 0, 0),
        (2, 2) => (5_000_000, 0, 0, 10_000, 0),
        (2, 3) => (15_000_000, 35_000, 24_000, 10_000, 0),
        (2, 4) => (30_000_000, 80_000, 55_000, 25_000, 0),
        (2, 5) => (45_000_000, 140_000, 90_000, 40_000, 0),
        (2, 16) => (5_000_000, 0, 0, 0, WEEKLY_SHIELD_SECONDS),
        (3, 0) => (20_000_000, 180_000, 0, 0, 0),
        (3, 1) => (20_000_000, 0, 125_000, 0, 0),
        (3, 2) => (20_000_000, 0, 0, 60_000, 0),
        (3, 3) => (60_000_000, 180_000, 125_000, 60_000, 0),
        (3, 4) => (100_000_000, 400_000, 275_000, 140_000, 0),
        (3, 5) => (150_000_000, 700_000, 450_000, 220_000, 0),
        (3, 6) => (200_000_000, 1_000_000, 650_000, 320_000, 0),
        (3, 7) => (250_000_000, 1_350_000, 900_000, 450_000, 0),
        (3, 8) => (300_000_000, 1_750_000, 1_150_000, 600_000, 0),
        (3, 9) => (400_000_000, 2_500_000, 1_700_000, 850_000, 0),
        (3, 16) => (12_500_000, 0, 0, 0, MONTHLY_SHIELD_SECONDS),
        _ => {
            return Err(GameStateError::InvalidStorePack);
        },
    };
    Ok(StorePack { price_usdc, metal, crystal, deuterium, shield_seconds })
}

/// The purchase record moved to the day, week and month of `now`, each changed period's mask
/// cleared.
pub open spec fn synced_purchases(s: StorePurchaseState, now: i64) -> StorePurchaseState {
    let d = div_trunc(now as int, SECONDS_PER_DAY as int) as i64;
    let w = div_trunc(now as int, SECONDS_PER_WEEK as int) as i64;
    let mo = div_trunc(now as int, SECONDS_PER_MONTH as int) as i64;
    StorePurchaseState {
        daily_epoch: d,
        daily_purchased_mask: if s.daily_epoch != d { 0 } else { s.daily_purchased_mask },
        weekly_epoch: w,
        weekly_purchased_mask: if s.weekly_epoch != w { 0 } else { s.weekly_purchased_mask },
        monthly_epoch: mo,
        monthly_purchased_mask: if s.monthly_epoch != mo { 0 } else { s.monthly_purchased_mask },
        ..s
    }
}

/// Moves the purchase record to the day, week and month of `now`.
pub fn sync_store_periods(store: &mut StorePurchaseState, now: i64)
    ensures
        *final(store) == synced_purchases(*old(store), now),
{
    let daily = now / SECONDS_PER_DAY;
    let weekly = now / SECONDS_PER_WEEK;
    let monthly = now / SECONDS_PER_MONTH;
    if store.daily_epoch != daily {
        store.daily_epoch = daily;
        store.daily_purchased_mask = 0;
    }
    if store.weekly_epoch != weekly {
        store.weekly_epoch = weekly;
        store.weekly_purchased_mask = 0;
    }
    if store.monthly_epoch != monthly {
        store.monthly_epoch = monthly;
        store.monthly_purchased_mask = 0;
    }
}

/// Whether `value` more of a resource at `current` stays within `cap` and the `u64` range.
pub open spec fn room_for(current: u64, value: u64, cap: u64) -> bool {
    current + value <= u64::MAX && current + value <= cap
}

/// What the storage check answers for adding the amounts to the planet's stock.
pub open spec fn resource_room_check(p: PlanetDepositFields, metal: u64, crystal: u64, deuterium: u64) -> Result<(), GameStateError> {
    if room_for(p.metal, metal, p.metal_cap) && room_for(p.crystal, crystal, p.crystal_cap) && room_for(p.deuterium, deuterium, p.deuterium_cap) {
        Ok(())
    } else {
        Err(GameStateError::ResourceCapExceeded)
    }
}

/// Checks that the amounts fit under the planet's storage caps.
pub fn ensure_resource_room_live(planet: &PlanetDepositFields, metal: u64, crystal: u64, deuterium: u64) -> (r: Result<(), GameStateError>)
    ensures
        r == resource_room_check(*planet, metal, crystal, deuterium),
{
    match planet.metal.checked_add(metal) {
        Some(v) => {
            if v > planet.metal_cap {
                return Err(GameStateError::ResourceCapExceeded);
            }
        },
        None => {
            return Err(GameStateError::ResourceCapExceeded);
        },
    }
    match planet.crystal.checked_add(crystal) {
        Some(v) => {
            if v > planet.crystal_cap {
                return Err(GameStateError::ResourceCapExceeded);
            }
        },
        None => {
            return Err(GameStateError::ResourceCapExceeded);
        },
    }
    match planet.deuterium.checked_add(deuterium) {
        Some(v) => {
            if v > planet.deuterium_cap {
                return Err(GameStateError::ResourceCapExceeded);
            }
        },
        None => {
            return Err(GameStateError::ResourceCapExceeded);
        },
    }
    Ok(())
}

/// What awarding the amounts at `now` does to the planet's resource fields: it settles, then
/// adds metal, crystal and deuterium in turn, stopping at the first that would pass its cap
/// (the ones already added stay added).
pub open spec fn award_spec(p0: PlanetDepositFields, now: i64, metal: u64, crystal: u64, deuterium: u64) -> (PlanetDepositFields, Result<(), GameStateError>) {
    let (p, r) = settle_deposit_spec(p0, now);
    if r is Err {
        (p, r)
    } else if !room_for(p.metal, metal, p.metal_cap) {
        (p, Err(GameStateError::ResourceCapExceeded))
    } else {
        let p1 = PlanetDepositFields { metal: (p.metal + metal) as u64, ..p };
        if !room_for(p1.crystal, crystal, p1.crystal_cap) {
            (p1, Err(GameStateError::ResourceCapExceeded))
        } else {
            let p2 = PlanetDepositFields { crystal: (p1.crystal + crystal) as u64, ..p1 };
            if !room_for(p2.deuterium, deuterium, p2.deuterium_cap) {
                (p2, Err(GameStateError::ResourceCapExceeded))
            } else {
                (PlanetDepositFields { deuterium: (p2.deuterium + deuterium) as u64, ..p2 }, Ok(()))
            }
        }
    }
}

/// Settles the planet at `now` and adds the amounts under the storage caps.
pub fn award_resources_live(planet: &mut PlanetDepositFields, now: i64, metal: u64, crystal: u64, deuterium: u64) -> (r: Result<(), GameStateError>)
    requires
        deposit_settle_fits(*old(planet), now),
    ensures
        (*final(planet), r) == award_spec(*old(planet), now, metal, crystal, deuterium),
{
    match settle_planet_deposit_fields(planet, now) {
        Err(e) => {
            return Err(e);
        },
        Ok(()) => {},
    }
    match planet.metal.checked_add(metal) {
        Some(v) => {
            if v > planet.metal_cap {
                return Err(GameStateError::ResourceCapExceeded);
            }
            planet.metal = v;
        },
        None => {
            return Err(GameStateError::ResourceCapExceeded);
        },
    }
    match planet.crystal.checked_add(crystal) {
        Some(v) => {
            if v > planet.crystal_cap {
                return Err(GameStateError::ResourceCapExceeded);
            }
            planet.crystal = v;
        },
        None => {
            return Err(GameStateError::ResourceCapExceeded);
        },
    }
    match planet.deuterium.checked_add(deuterium) {
        Some(v) => {
            if v > planet.deuterium_cap {
                return Err(GameStateError::ResourceCapExceeded);
            }
            planet.deuterium = v;
        },
        None => {
            return Err(GameStateError::ResourceCapExceeded);
        },
    }
    Ok(())
}

/// The purchase mask of `period` (1 day, 2 week, 3 month).
pub open spec fn purchased_mask(s: StorePurchaseState, period: u8) -> u64 {
    if period == 1 {
        s.daily_purchased_mask
    } else if period == 2 {
        s.weekly_purchased_mask
    } else {
        s.monthly_purchased_mask
    }
}

/// The purchase record with `bit` added to the mask of `period`.
pub open spec fn with_purchased(s: StorePurchaseState, period: u8, bit: u64) -> StorePurchaseState {
    if period == 1 {
        StorePurchaseState { daily_purchased_mask: s.daily_purchased_mask | bit, ..s }
    } else if period == 2 {
        StorePurchaseState { weekly_purchased_mask: s.weekly_purchased_mask | bit, ..s }
    } else {
        StorePurchaseState { monthly_purchased_mask: s.monthly_purchased_mask | bit, ..s }
    }
}

/// The purchase record a buyer starts with: claimed by `authority`, in the periods of `now`,
/// nothing bought.
pub open spec fn claimed_purchases(s: StorePurchaseState, authority: Key, bump: u8, now: i64) -> StorePurchaseState {
    if all_zero(s.authority@) {
        StorePurchaseState {
            authority,
            daily_epoch: div_trunc(now as int, SECONDS_PER_DAY as int) as i64,
            weekly_epoch: div_trunc(now as int, SECONDS_PER_WEEK as int) as i64,
            monthly_epoch: div_trunc(now as int, SECONDS_PER_MONTH as int) as i64,
            daily_purchased_mask: 0,
            weekly_purchased_mask: 0,
            monthly_purchased_mask: 0,
            bump,
            ..s
        }
    } else {
        s
    }
}

/// What buying pack `pack_id` of `period` at `now` does to the purchase record and the planet,
/// with the outcome; on success the outcome is the USDC price to transfer.
pub open spec fn purchase_spec(
    config: StoreConfig,
    purchases: StorePurchaseState,
    planet: PlanetDepositFields,
    authority: Key,
    usdc_mint: Seq<u8>,
    treasury_usdc: Seq<u8>,
    period: u8,
    pack_id: u8,
    bump: u8,
    now: i64,
) -> (StorePurchaseState, PlanetDepositFields, Result<u64, GameStateError>) {
    let fail = |e: GameStateError| (purchases, planet, Err::<u64, GameStateError>(e));
    if !config.enabled {
        fail(GameStateError::StoreDisabled)
    } else if pack_id > MAX_STORE_PACK_ID {
        fail(GameStateError::InvalidStorePack)
    } else if config.usdc_mint@ != usdc_mint {
        fail(GameStateError::InvalidUsdcMint)
    } else if config.treasury_usdc_account@ != treasury_usdc {
        fail(GameStateError::InvalidUsdcAccount)
    } else {
        let claimed = claimed_purchases(purchases, authority, bump, now);
        let synced = synced_purchases(claimed, now);
        let bit = 1u64 << pack_id;
        if claimed.authority@ != authority@ {
            fail(GameStateError::Unauthorized)
        } else if period < 1 || period > 3 {
            fail(GameStateError::InvalidStorePack)
        } else if purchased_mask(synced, period) & bit != 0 {
            fail(GameStateError::StorePackAlreadyPurchased)
        } else {
            match store_pack_spec(period, pack_id) {
                None => fail(GameStateError::InvalidStorePack),
                Some(pack) => {
                    let (settled, sr) = settle_deposit_spec(planet, now);
                    if pack.shield_seconds != 0 {
                        fail(GameStateError::InvalidStorePack)
                    } else if planet.authority@ != authority@ {
                        fail(GameStateError::Unauthorized)
                    } else if sr is Err {
                        fail(sr->Err_0)
                    } else if resource_room_check(settled, pack.metal, pack.crystal, pack.deuterium) is Err {
                        fail(GameStateError::ResourceCapExceeded)
                    } else {
                        (
                            StorePurchaseState { last_updated_ts: now, ..with_purchased(synced, period, bit) },
                            award_spec(settled, now, pack.metal, pack.crystal, pack.deuterium).0,
                            Ok(pack.price_usdc),
                        )
                    }
                },
            }
        }
    }
}

/// Whether buying pack `pack_id` of `period` gets as far as settling the planet: the store,
/// mint, treasury, buyer and period checks pass, the pack is not yet bought in the period, it
/// exists without a shield, and the planet is the buyer's.
pub open spec fn purchase_reaches_settlement(
    config: StoreConfig,
    purchases: StorePurchaseState,
    planet: PlanetDepositFields,
    authority: Key,
    usdc_mint: Seq<u8>,
    treasury_usdc: Seq<u8>,
    period: u8,
    pack_id: u8,
    bump: u8,
    now: i64,
) -> bool {
    let claimed = claimed_purchases(purchases, authority, bump, now);
    let synced = synced_purchases(claimed, now);
    &&& config.enabled && pack_id <= MAX_STORE_PACK_ID
    &&& config.usdc_mint@ == usdc_mint && config.treasury_usdc_account@ == treasury_usdc
    &&& claimed.authority@ == authority@ && 1 <= period <= 3
    &&& purchased_mask(synced, period) & (1u64 << pack_id) == 0
    &&& store_pack_spec(period, pack_id) matches Some(pack) && pack.shield_seconds == 0
    &&& planet.authority@ == authority@
}

/// `authority` buys store pack `pack_id` of `period` at `now`, paying in `usdc_mint` to
/// `treasury_usdc`: the pack is marked bought for the period and its resources are added to the
/// planet, and `authority`'s progress record (when one is given) counts one more pack bought.
/// Returns the USDC price for the transfer and the progress record to store; on an error
/// nothing changes.
pub fn purchase_store_pack(
    config: &StoreConfig,
    purchases: &mut StorePurchaseState,
    planet: &mut PlanetDepositFields,
    authority: Key,
    usdc_mint: Key,
    treasury_usdc: Key,
    period: u8,
    pack_id: u8,
    bump: u8,
    program_id: &Key,
    progress: &Option<ProgressRecord>,
    now: i64,
) -> (r: Result<(u64, Option<QuestProgressState>), GameStateError>)
    requires
        purchase_reaches_settlement(
            *config, *old(purchases), *old(planet), authority, usdc_mint@, treasury_usdc@, period, pack_id, bump, now,
        ) ==> deposit_settle_fits(*old(planet), now),
    ensures
        ({
            let (bought, credited, answer) = purchase_spec(
                *config, *old(purchases), *old(planet), authority, usdc_mint@, treasury_usdc@, period, pack_id, bump, now,
            );
            match answer {
                Err(e) => r == Err::<(u64, Option<QuestProgressState>), GameStateError>(e) && *final(purchases) == bought
                    && *final(planet) == credited,
                Ok(price) => match progress_update(*progress, authority, *program_id, now, QuestProgressMetric::StorePacksBought, 1) {
                    Err(e) => r == Err::<(u64, Option<QuestProgressState>), GameStateError>(e) && *final(purchases) == *old(purchases)
                        && *final(planet) == *old(planet),
                    Ok(g) => r == Ok::<(u64, Option<QuestProgressState>), GameStateError>((price, g)) && *final(purchases) == bought
                        && *final(planet) == credited,
                },
            }
        }),
{
    if !config.enabled {
        return Err(GameStateError::StoreDisabled);
    }
    if pack_id > MAX_STORE_PACK_ID {
        return Err(GameStateError::InvalidStorePack);
    }
    if !config.usdc_mint.same_as(&usdc_mint) {
        return Err(GameStateError::InvalidUsdcMint);
    }
    if !config.treasury_usdc_account.same_as(&treasury_usdc) {
        return Err(GameStateError::InvalidUsdcAccount);
    }
    let mut state = *purchases;
    if state.authority.is_zero() {
        state.authority = authority;
        state.daily_epoch = now / SECONDS_PER_DAY;
        state.weekly_epoch = now / SECONDS_PER_WEEK;
        state.monthly_epoch = now / SECONDS_PER_MONTH;
        state.daily_purchased_mask = 0;
        state.weekly_purchased_mask = 0;
        state.monthly_purchased_mask = 0;
        state.bump = bump;
    }
    if !state.authority.same_as(&authority) {
        return Err(GameStateError::Unauthorized);
    }
    sync_store_periods(&mut state, now);
    let bit: u64 = 1u64 << pack_id;
    let mask = if period == 1 {
        state.daily_purchased_mask
    } else if period == 2 {
        state.weekly_purchased_mask
    } else if period == 3 {
        state.monthly_purchased_mask
    } else {
        return Err(GameStateError::InvalidStorePack);
    };
    if mask & bit != 0 {
        return Err(GameStateError::StorePackAlreadyPurchased);
    }
    let pack = match store_pack(period, pack_id) {
        Ok(p) => p,
        Err(e) => {
            return Err(e);
        },
    };
    if pack.shield_seconds != 0 {
        return Err(GameStateError::InvalidStorePack);
    }
    if !planet.authority.same_as(&authority) {
        return Err(GameStateError::Unauthorized);
    }
    let mut settled = *planet;
    match settle_planet_deposit_fields(&mut settled, now) {
        Err(e) => {
            return Err(e);
        },
        Ok(()) => {},
    }
    match ensure_resource_room_live(&settled, pack.metal, pack.crystal, pack.deuterium) {
        Err(e) => {
            return Err(e);
        },
        Ok(()) => {},
    }
    if period == 1 {
        state.daily_purchased_mask = state.daily_purchased_mask | bit;
    } else if period == 2 {
        state.weekly_purchased_mask = state.weekly_purchased_mask | bit;
    } else {
        state.monthly_purchased_mask = state.monthly_purchased_mask | bit;
    }
    state.last_updated_ts = now;
    let _ = award_resources_live(&mut settled, now, pack.metal, pack.crystal, pack.deuterium);
    let counted = match count_quest_progress(progress, &authority, program_id, now, QuestProgressMetric::StorePacksBought, 1) {
        Err(e) => {
            return Err(e);
        },
        Ok(g) => g,
    };
    *purchases = state;
    *planet = settled;
    Ok((pack.price_usdc, counted))
}

/// The store's settings when `admin`, who must be `protocol_authority`, opens it with
/// `usdc_mint`, which must be `store_usdc_mint`.
pub fn initialize_store_config(
    admin: Key,
    usdc_mint: Key,
    treasury_usdc_account: Key,
    enabled: bool,
    bump: u8,
    protocol_authority: Key,
    store_usdc_mint: Key,
) -> (r: Result<StoreConfig, GameStateError>)
    ensures
        admin@ != protocol_authority@ ==> r == Err::<StoreConfig, GameStateError>(GameStateError::Unauthorized),
        admin@ == protocol_authority@ && usdc_mint@ != store_usdc_mint@ ==> r == Err::<StoreConfig, GameStateError>(GameStateError::InvalidUsdcMint),
        admin@ == protocol_authority@ && usdc_mint@ == store_usdc_mint@ ==> r == Ok::<StoreConfig, GameStateError>(
            StoreConfig { admin, usdc_mint, treasury_usdc_account, enabled, bump },
        ),
{
    if !admin.same_as(&protocol_authority) {
        return Err(GameStateError::Unauthorized);
    }
    if !usdc_mint.same_as(&store_usdc_mint) {
        return Err(GameStateError::InvalidUsdcMint);
    }
    Ok(StoreConfig { admin, usdc_mint, treasury_usdc_account, enabled, bump })
}

/// Changes the store's USDC accounts and whether it is open; the mint must be `store_usdc_mint`.
pub fn update_store_config(
    config: &mut StoreConfig,
    usdc_mint: Key,
    treasury_usdc_account: Key,
    enabled: bool,
    store_usdc_mint: Key,
) -> (r: Result<(), GameStateError>)
    ensures
        usdc_mint@ != store_usdc_mint@ ==> r == Err::<(), GameStateError>(GameStateError::InvalidUsdcMint) && *final(config) == *old(config),
        usdc_mint@ == store_usdc_mint@ ==> r == Ok::<(), GameStateError>(())
            && *final(config) == (StoreConfig { usdc_mint, treasury_usdc_account, enabled, ..*old(config) }),
{
    if !usdc_mint.same_as(&store_usdc_mint) {
        return Err(GameStateError::InvalidUsdcMint);
    }
    config.usdc_mint = usdc_mint;
    config.treasury_usdc_account = treasury_usdc_account;
    config.enabled = enabled;
    Ok(())
}

} // verus!
