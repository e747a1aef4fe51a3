//! Deposit missions: a member moves resources and ANTIMATTER from a planet into the alliance
//! treasury, once per mission and period, and the alliance gains experience.
use vstd::prelude::*;

use crate::accounts::{AllianceMembership, AllianceState, AllianceTreasuryState, AuthorizedVault, GameConfig, StoreConfig};
use crate::address::{is_associated_token_account, is_associated_token_address, is_derived, is_tagged_address, is_tagged_key_address};
use crate::alliance::{
    alliance_logistics_xp_bonus_bps, apply_bps_bonus, bps_bonus, refresh_alliance_level, refreshed_level,
    alliance_max_members_spec, sync_alliance_periods, synced_membership, ALLIANCE_DEPOSIT_XP_PER_ANTIMATTER_UNIT,
    ALLIANCE_DEPOSIT_XP_PER_RESOURCE_UNIT,
};
use crate::constants::{ANTIMATTER_DECIMALS, ANTIMATTER_SCALE, MAX_RESOURCE_SETTLEMENT_SECONDS};
use crate::economy::produced_balance;
use crate::error::GameStateError;
use crate::key::Key;
use crate::num::sat_mul;
use crate::planet_bytes::PlanetDepositFields;
use crate::vault::{active_vault_check, authorized_vault_tag, require_active_vault};

verus! {

/// What a deposit mission asks for and the experience it grants.
#[derive(Clone, Copy, Debug)]
pub struct AllianceDepositMission {
    pub metal: u64,
    pub crystal: u64,
    pub deuterium: u64,
    pub antimatter: u64,
    pub xp: u64,
}

/// The deposit missions of the day (`period` 1), week (2) and month (3), four each.
pub open spec fn deposit_mission_spec(period: u8, mission_id: u8) -> Option<AllianceDepositMission> {
    let m = |metal: u64, crystal: u64, deuterium: u64, antimatter: u64, xp: u64| Some(AllianceDepositMission { metal, crystal, deuterium, antimatter, xp });
    match (period, mission_id) {
        (1, 0) => m(1_000, 0, 0, 0, 80),
        (1, 1) => m(0, 1_000, 0, 0, 80),
        (1, 2) => m(0, 0, 500, 0, 90),
        (1, 3) => m(0, 0, 0, 100_000_000, 150),
        (2, 0) => m(10_000, 6_000, 0, 0, 420),
        (2, 1) => m(0, 8_000, 3_000, 0, 440),
        (2, 2) => m(6_000, 0, 5_000, 0, 450),
        (2, 3) => m(0, 0, 0, 1_000_000_000, 900),
        (3, 0) => m(60_000, 40_000, 20_000, 0, 1_800),
        (3, 1) => m(120_000, 0, 0, 0, 1_400),
        (3, 2) => m(0, 90_000, 35_000, 0, 1_650),
        (3, 3) => m(0, 0, 0, 5_000_000_000, 3_500),
        _ => None,
    }
}

/// The deposit mission `mission_id` of `period`; refused for an unknown one.
pub fn alliance_deposit_mission(period: u8, mission_id: u8) -> (r: Result<AllianceDepositMission, GameStateError>)
    ensures
        match deposit_mission_spec(period, mission_id) {
            Some(m) => r == Ok::<AllianceDepositMission, GameStateError>(m),
            None => r == Err::<AllianceDepositMission, GameStateError>(GameStateError::InvalidAllianceMission),
        },
{
    let (metal, crystal, deuterium, antimatter, xp): (u64, u64, u64, u64, u64) = match (period, mission_id) {
        (1, 0) => (1_000, 0, 0, 0, 80),
        (1, 1) => (0, 1_000, 0, 0, 80),
        (1, 2) => (0, 0, 500, 0, 90),
        (1, 3) => (0, 0, 0, 100 * ANTIMATTER_SCALE, 150),
        (2, 0) => (10_000, 6_000, 0, 0, 420),
        (2, 1) => (0, 8_000, 3_000, 0, 440),
        (2, 2) => (6_000, 0, 5_000, 0, 450),
        (2, 3) => (0, 0, 0, 1_000 * ANTIMATTER_SCALE, 900),
        (3, 0) => (60_000, 40_000, 20_000, 0, 1_800),
        (3, 1) => (120_000, 0, 0, 0, 1_400),
        (3, 2) => (0, 90_000, 35_000, 0, 1_650),
        (3, 3) => (0, 0, 0, 5_000 * ANTIMATTER_SCALE, 3_500),
        _ => {
            return Err(GameStateError::InvalidAllianceMission);
        },
    };
    Ok(AllianceDepositMission { metal, crystal, deuterium, antimatter, xp })
}

/// The efficiency, in ten-thousandths, with which the planet's mines run.
pub open spec fn deposit_efficiency(p: PlanetDepositFields) -> int {
    if p.energy_consumption == 0 {
        10_000
    } else {
        let e = p.energy_production * 10_000 / p.energy_consumption as int;
        if e < 10_000 { e } else { 10_000 }
    }
}

/// The resource fields and the outcome after crediting production up to `now`.
pub open spec fn settle_deposit_spec(p: PlanetDepositFields, now: i64) -> (PlanetDepositFields, Result<(), GameStateError>) {
    if now < 0 {
        (p, Err(GameStateError::InvalidTimestamp))
    } else if p.last_update_ts <= 0 {
        (PlanetDepositFields { last_update_ts: now, ..p }, Ok(()))
    } else if now < p.last_update_ts {
        (p, Err(GameStateError::InvalidTimestamp))
    } else if now == p.last_update_ts {
        (p, Ok(()))
    } else {
        let d = now - p.last_update_ts;
        let dt = if d < MAX_RESOURCE_SETTLEMENT_SECONDS { d } else { MAX_RESOURCE_SETTLEMENT_SECONDS as int };
        let eff = deposit_efficiency(p);
        (
            PlanetDepositFields {
                metal: produced_balance(p.metal, p.metal_hour, dt, eff, p.metal_cap),
                crystal: produced_balance(p.crystal, p.crystal_hour, dt, eff, p.crystal_cap),
                deuterium: produced_balance(p.deuterium, p.deuterium_hour, dt, eff, p.deuterium_cap),
                last_update_ts: now,
                ..p
            },
            Ok(()),
        )
    }
}

/// Whether settling at `now` runs without leaving the `u64` range.
pub open spec fn deposit_settle_fits(p: PlanetDepositFields, now: i64) -> bool {
    (now > p.last_update_ts && p.last_update_ts > 0 && p.energy_consumption != 0) ==> p.energy_production * 10_000 <= u64::MAX
}

fn produce_into(current: u64, rate: u64, dt: u64, eff: u64, cap: u64) -> (r: u64)
    ensures
        r == produced_balance(current, rate, dt as int, eff as int, cap),
{
    let produced = sat_mul(sat_mul(rate, dt), eff) / 3600 / 10_000;
    let total = current.saturating_add(produced);
    if total <= cap { total } else { cap }
}

/// Credits the production accumulated since the last settlement, capped by storage.
pub fn settle_planet_deposit_fields(planet: &mut PlanetDepositFields, now: i64) -> (r: Result<(), GameStateError>)
    requires
        deposit_settle_fits(*old(planet), now),
    ensures
        (*final(planet), r) == settle_deposit_spec(*old(planet), now),
{
    if now < 0 {
        return Err(GameStateError::InvalidTimestamp);
    }
    if planet.last_update_ts <= 0 {
        planet.last_update_ts = now;
        return Ok(());
    }
    if now < planet.last_update_ts {
        return Err(GameStateError::InvalidTimestamp);
    }
    if now == planet.last_update_ts {
        return Ok(());
    }
    let d: i64 = now - planet.last_update_ts;
    let dt: u64 = if d < MAX_RESOURCE_SETTLEMENT_SECONDS { d as u64 } else { MAX_RESOURCE_SETTLEMENT_SECONDS as u64 };
    let eff: u64 = if planet.energy_consumption == 0 {
        10_000
    } else {
        let e = planet.energy_production * 10_000 / planet.energy_consumption;
        if e < 10_000 { e } else { 10_000 }
    };
    planet.metal = produce_into(planet.metal, planet.metal_hour, dt, eff, planet.metal_cap);
    planet.crystal = produce_into(planet.crystal, planet.crystal_hour, dt, eff, planet.crystal_cap);
    planet.deuterium = produce_into(planet.deuterium, planet.deuterium_hour, dt, eff, planet.deuterium_cap);
    planet.last_update_ts = now;
    Ok(())
}

/// The ANTIMATTER accounts a deposit pays from, as the values the checks read: the mint and
/// its decimals, the member's token account (mint, owner, balance) and the treasury's token
/// account (address, mint, owner).
#[derive(Clone, Copy, Debug)]
pub struct AntimatterAccounts {
    pub mint_decimals: u8,
    pub user_mint: Key,
    pub user_owner: Key,
    pub user_amount: u64,
    pub treasury_account: Key,
    pub treasury_mint: Key,
    pub treasury_owner: Key,
}

/// What the checks of the ANTIMATTER accounts answer for a payment of `amount` by `authority`
/// in `mint` to the store admin `admin`.
pub open spec fn antimatter_accounts_check(a: AntimatterAccounts, authority: Seq<u8>, admin: Seq<u8>, mint: Seq<u8>, amount: u64) -> Result<(), GameStateError> {
    if a.mint_decimals != ANTIMATTER_DECIMALS {
        Err(GameStateError::InvalidAntimatterMint)
    } else if a.user_mint@ != mint {
        Err(GameStateError::InvalidAntimatterMint)
    } else if a.user_owner@ != authority {
        Err(GameStateError::InvalidAntimatterAccount)
    } else if a.treasury_mint@ != mint {
        Err(GameStateError::InvalidAntimatterMint)
    } else if a.treasury_owner@ != admin {
        Err(GameStateError::InvalidAntimatterAccount)
    } else if !is_associated_token_address(a.treasury_account@, admin, mint) {
        Err(GameStateError::InvalidAntimatterAccount)
    } else if a.user_amount < amount {
        Err(GameStateError::InsufficientAntimatter)
    } else {
        Ok(())
    }
}

fn check_antimatter_accounts(a: &AntimatterAccounts, authority: Key, admin: Key, mint: Key, amount: u64) -> (r: Result<(), GameStateError>)
    ensures
        r == antimatter_accounts_check(*a, authority@, admin@, mint@, amount),
{
    if a.mint_decimals != ANTIMATTER_DECIMALS {
        return Err(GameStateError::InvalidAntimatterMint);
    }
    if !a.user_mint.same_as(&mint) {
        return Err(GameStateError::InvalidAntimatterMint);
    }
    if !a.user_owner.same_as(&authority) {
        return Err(GameStateError::InvalidAntimatterAccount);
    }
    if !a.treasury_mint.same_as(&mint) {
        return Err(GameStateError::InvalidAntimatterMint);
    }
    if !a.treasury_owner.same_as(&admin) {
        return Err(GameStateError::InvalidAntimatterAccount);
    }
    if !is_associated_token_account(&a.treasury_account, &admin, &mint) {
        return Err(GameStateError::InvalidAntimatterAccount);
    }
    if a.user_amount < amount {
        return Err(GameStateError::InsufficientAntimatter);
    }
    Ok(())
}

/// The addresses of the accounts a deposit touches.
#[derive(Clone, Copy, Debug)]
pub struct DepositKeys {
    pub program_id: Key,
    pub authority: Key,
    pub alliance: Key,
    pub membership: Key,
    pub treasury: Key,
    pub game_config: Key,
    pub store_config: Key,
    pub antimatter_mint: Key,
}

/// The seed tag of a membership's address.
pub open spec fn membership_tag() -> Seq<u8> {
    seq![97u8, 108, 108, 105, 97, 110, 99, 101, 95, 109, 101, 109, 98, 101, 114, 115, 104, 105, 112]
}

/// The seed tag of a treasury's address.
pub open spec fn treasury_tag() -> Seq<u8> {
    seq![97u8, 108, 108, 105, 97, 110, 99, 101, 95, 116, 114, 101, 97, 115, 117, 114, 121]
}

/// The seed tag of the game settings' address.
pub open spec fn game_config_tag() -> Seq<u8> {
    seq![103u8, 97, 109, 101, 95, 99, 111, 110, 102, 105, 103]
}

/// The seed tag of the store settings' address.
pub open spec fn store_config_tag() -> Seq<u8> {
    seq![115u8, 116, 111, 114, 101, 95, 99, 111, 110, 102, 105, 103]
}

/// What the checks of the accounts' addresses and links answer.
pub open spec fn deposit_accounts_check(
    k: DepositKeys,
    membership: AllianceMembership,
    treasury: AllianceTreasuryState,
    planet: PlanetDepositFields,
    game_config: GameConfig,
) -> Result<(), GameStateError> {
    if !is_derived(k.membership@, seq![membership_tag(), k.authority@], k.program_id@) {
        Err(GameStateError::InvalidAllianceMember)
    } else if !is_derived(k.treasury@, seq![treasury_tag(), k.alliance@], k.program_id@) {
        Err(GameStateError::InvalidAllianceMember)
    } else if !is_derived(k.game_config@, seq![game_config_tag()], k.program_id@) {
        Err(GameStateError::Unauthorized)
    } else if !is_derived(k.store_config@, seq![store_config_tag()], k.program_id@) {
        Err(GameStateError::Unauthorized)
    } else if membership.authority@ != k.authority@ {
        Err(GameStateError::Unauthorized)
    } else if membership.alliance@ != k.alliance@ {
        Err(GameStateError::InvalidAllianceMember)
    } else if treasury.alliance@ != k.alliance@ {
        Err(GameStateError::InvalidAllianceMember)
    } else if planet.authority@ != k.authority@ {
        Err(GameStateError::Unauthorized)
    } else if game_config.antimatter_mint@ != k.antimatter_mint@ {
        Err(GameStateError::InvalidAntimatterMint)
    } else {
        Ok(())
    }
}

fn check_deposit_accounts(
    k: &DepositKeys,
    membership: &AllianceMembership,
    treasury: &AllianceTreasuryState,
    planet: &PlanetDepositFields,
    game_config: &GameConfig,
) -> (r: Result<(), GameStateError>)
    ensures
        r == deposit_accounts_check(*k, *membership, *treasury, *planet, *game_config),
{
    let membership_tag_bytes: Vec<u8> = vec![97u8, 108, 108, 105, 97, 110, 99, 101, 95, 109, 101, 109, 98, 101, 114, 115, 104, 105, 112];
    assert(membership_tag_bytes@ =~= membership_tag());
    if !is_tagged_key_address(&k.membership, membership_tag_bytes, &k.authority, &k.program_id) {
        return Err(GameStateError::InvalidAllianceMember);
    }
    let treasury_tag_bytes: Vec<u8> = vec![97u8, 108, 108, 105, 97, 110, 99, 101, 95, 116, 114, 101, 97, 115, 117, 114, 121];
    assert(treasury_tag_bytes@ =~= treasury_tag());
    if !is_tagged_key_address(&k.treasury, treasury_tag_bytes, &k.alliance, &k.program_id) {
        return Err(GameStateError::InvalidAllianceMember);
    }
    let game_tag: Vec<u8> = vec![103u8, 97, 109, 101, 95, 99, 111, 110, 102, 105, 103];
    assert(game_tag@ =~= game_config_tag());
    if !is_tagged_address(&k.game_config, game_tag, &k.program_id) {
        return Err(GameStateError::Unauthorized);
    }
    let store_tag: Vec<u8> = vec![115u8, 116, 111, 114, 101, 95, 99, 111, 110, 102, 105, 103];
    assert(store_tag@ =~= store_config_tag());
    if !is_tagged_address(&k.store_config, store_tag, &k.program_id) {
        return Err(GameStateError::Unauthorized);
    }
    if !membership.authority.same_as(&k.authority) {
        return Err(GameStateError::Unauthorized);
    }
    if !membership.alliance.same_as(&k.alliance) {
        return Err(GameStateError::InvalidAllianceMember);
    }
    if !treasury.alliance.same_as(&k.alliance) {
        return Err(GameStateError::InvalidAllianceMember);
    }
    if !planet.authority.same_as(&k.authority) {
        return Err(GameStateError::Unauthorized);
    }
    if !game_config.antimatter_mint.same_as(&k.antimatter_mint) {
        return Err(GameStateError::InvalidAntimatterMint);
    }
    Ok(())
}

/// The claim mask of `period` (1 day, 2 week, 3 month) of a membership.
pub open spec fn claimed_mask(m: AllianceMembership, period: u8) -> u64 {
    if period == 1 {
        m.daily_claimed_mask
    } else if period == 2 {
        m.weekly_claimed_mask
    } else {
        m.monthly_claimed_mask
    }
}

/// The membership with `bit` added to the claim mask of `period`.
pub open spec fn with_claimed(m: AllianceMembership, period: u8, bit: u64) -> AllianceMembership {
    if period == 1 {
        AllianceMembership { daily_claimed_mask: m.daily_claimed_mask | bit, ..m }
    } else if period == 2 {
        AllianceMembership { weekly_claimed_mask: m.weekly_claimed_mask | bit, ..m }
    } else {
        AllianceMembership { monthly_claimed_mask: m.monthly_claimed_mask | bit, ..m }
    }
}

/// The experience a deposit of the given amounts grants for `mission`, before the logistics
/// bonus: the mission's experience, a point per thousand resource units and one per ANTIMATTER
/// token, all saturated.
pub open spec fn deposit_base_xp(mission: AllianceDepositMission, metal: u64, crystal: u64, deuterium: u64, antimatter: u64) -> u64 {
    let resources = metal.saturating_add(crystal).saturating_add(deuterium);
    let resource_xp = resources / ALLIANCE_DEPOSIT_XP_PER_RESOURCE_UNIT;
    let antimatter_xp = antimatter / ALLIANCE_DEPOSIT_XP_PER_ANTIMATTER_UNIT;
    mission.xp.saturating_add(resource_xp as u64).saturating_add(antimatter_xp as u64)
}

/// The treasury once the amounts are deposited into it.
pub open spec fn treasury_after_deposit(t: AllianceTreasuryState, metal: u64, crystal: u64, deuterium: u64, antimatter: u64) -> AllianceTreasuryState {
    AllianceTreasuryState {
        metal: t.metal.saturating_add(metal),
        crystal: t.crystal.saturating_add(crystal),
        deuterium: t.deuterium.saturating_add(deuterium),
        antimatter: t.antimatter.saturating_add(antimatter),
        total_metal_deposited: t.total_metal_deposited.saturating_add(metal),
        total_crystal_deposited: t.total_crystal_deposited.saturating_add(crystal),
        total_deuterium_deposited: t.total_deuterium_deposited.saturating_add(deuterium),
        total_antimatter_deposited: t.total_antimatter_deposited.saturating_add(antimatter),
        ..t
    }
}

/// The alliance once it gains `xp` and one completed mission, at the level that reaches.
pub open spec fn alliance_after_mission(a: AllianceState, xp: u64) -> AllianceState {
    let gained = AllianceState {
        xp: a.xp.saturating_add(xp),
        total_missions_completed: a.total_missions_completed.saturating_add(1),
        ..a
    };
    AllianceState {
        level: refreshed_level(gained.level, gained.xp),
        max_members: alliance_max_members_spec(refreshed_level(gained.level, gained.xp)),
        ..gained
    }
}

/// The records after a deposit mission whose accounts passed their checks, and the outcome.
/// `payment_check` is the answer of the ANTIMATTER accounts' checks, consulted only where
/// ANTIMATTER is deposited.
pub open spec fn deposit_mission_outcome(
    alliance: AllianceState,
    membership: AllianceMembership,
    treasury: AllianceTreasuryState,
    planet: PlanetDepositFields,
    payment_check: Result<(), GameStateError>,
    period: u8,
    mission_id: u8,
    metal: u64,
    crystal: u64,
    deuterium: u64,
    antimatter: u64,
    now: i64,
) -> (AllianceState, AllianceMembership, AllianceTreasuryState, PlanetDepositFields, Result<(), GameStateError>) {
    let synced = synced_membership(membership, now);
    match deposit_mission_spec(period, mission_id) {
        None => (alliance, membership, treasury, planet, Err(GameStateError::InvalidAllianceMission)),
        Some(mission) => {
            let bit = 1u64 << mission_id;
            let (settled, sr) = settle_deposit_spec(planet, now);
            if !(metal >= mission.metal && crystal >= mission.crystal && deuterium >= mission.deuterium && antimatter >= mission.antimatter) {
                (alliance, membership, treasury, planet, Err(GameStateError::AllianceMissionRequirementsNotMet))
            } else if claimed_mask(synced, period) & bit != 0 {
                (alliance, membership, treasury, planet, Err(GameStateError::AllianceMissionAlreadyClaimed))
            } else if sr is Err {
                (alliance, membership, treasury, planet, sr)
            } else if settled.metal < metal {
                (alliance, membership, treasury, planet, Err(GameStateError::InsufficientMetal))
            } else if settled.crystal < crystal {
                (alliance, membership, treasury, planet, Err(GameStateError::InsufficientCrystal))
            } else if settled.deuterium < deuterium {
                (alliance, membership, treasury, planet, Err(GameStateError::InsufficientDeuterium))
            } else if antimatter > 0 && payment_check is Err {
                (alliance, membership, treasury, planet, payment_check)
            } else {
                let t2 = treasury_after_deposit(treasury, metal, crystal, deuterium, antimatter);
                let xp = bps_bonus(deposit_base_xp(mission, metal, crystal, deuterium, antimatter), (t2.logistics_hub * 500) as u64);
                (
                    alliance_after_mission(alliance, xp),
                    with_claimed(synced, period, bit),
                    t2,
                    PlanetDepositFields {
                        metal: (settled.metal - metal) as u64,
                        crystal: (settled.crystal - crystal) as u64,
                        deuterium: (settled.deuterium - deuterium) as u64,
                        ..settled
                    },
                    Ok(()),
                )
            }
        },
    }
}

/// The answer of the ANTIMATTER accounts' checks, where there are accounts to check.
pub open spec fn payment_answer(payment: Option<AntimatterAccounts>, authority: Seq<u8>, admin: Seq<u8>, mint: Seq<u8>, amount: u64) -> Result<(), GameStateError> {
    match payment {
        Some(a) => antimatter_accounts_check(a, authority, admin, mint, amount),
        None => Ok(()),
    }
}

/// Whether a deposit mission gets as far as settling the planet: the mission exists, the
/// amounts meet it, and it is not yet claimed in the period of `now`.
pub open spec fn mission_reaches_settlement(
    membership: AllianceMembership,
    period: u8,
    mission_id: u8,
    metal: u64,
    crystal: u64,
    deuterium: u64,
    antimatter: u64,
    now: i64,
) -> bool {
    match deposit_mission_spec(period, mission_id) {
        None => false,
        Some(m) => {
            &&& metal >= m.metal && crystal >= m.crystal && deuterium >= m.deuterium && antimatter >= m.antimatter
            &&& claimed_mask(synced_membership(membership, now), period) & (1u64 << mission_id) == 0
        },
    }
}

/// Runs a deposit mission whose accounts passed their checks; on an error nothing changes.
fn run_deposit_mission(
    alliance: &mut AllianceState,
    membership: &mut AllianceMembership,
    treasury: &mut AllianceTreasuryState,
    planet: &mut PlanetDepositFields,
    authority: Key,
    store_admin: Key,
    mint: Key,
    payment: Option<AntimatterAccounts>,
    period: u8,
    mission_id: u8,
    metal: u64,
    crystal: u64,
    deuterium: u64,
    antimatter: u64,
    now: i64,
) -> (r: Result<(), GameStateError>)
    requires
        mission_reaches_settlement(*old(membership), period, mission_id, metal, crystal, deuterium, antimatter, now)
            ==> deposit_settle_fits(*old(planet), now),
        payment is None ==> antimatter == 0,
    ensures
        (*final(alliance), *final(membership), *final(treasury), *final(planet), r) == deposit_mission_outcome(
            *old(alliance), *old(membership), *old(treasury), *old(planet),
            payment_answer(payment, authority@, store_admin@, mint@, antimatter),
            period, mission_id, metal, crystal, deuterium, antimatter, now,
        ),
{
    let mut synced = *membership;
    sync_alliance_periods(&mut synced, now);
    let mission = match alliance_deposit_mission(period, mission_id) {
        Ok(m) => m,
        Err(e) => {
            return Err(e);
        },
    };
    if !(metal >= mission.metal && crystal >= mission.crystal && deuterium >= mission.deuterium && antimatter >= mission.antimatter) {
        return Err(GameStateError::AllianceMissionRequirementsNotMet);
    }
    let bit: u64 = 1u64 << mission_id;
    let mask = if period == 1 {
        synced.daily_claimed_mask
    } else if period == 2 {
        synced.weekly_claimed_mask
    } else {
        synced.monthly_claimed_mask
    };
    if mask & bit != 0 {
        return Err(GameStateError::AllianceMissionAlreadyClaimed);
    }
    let mut settled = *planet;
    match settle_planet_deposit_fields(&mut settled, now) {
        Err(e) => {
            return Err(e);
        },
        Ok(()) => {},
    }
    if settled.metal < metal {
        return Err(GameStateError::InsufficientMetal);
    }
    if settled.crystal < crystal {
        return Err(GameStateError::InsufficientCrystal);
    }
    if settled.deuterium < deuterium {
        return Err(GameStateError::InsufficientDeuterium);
    }
    if antimatter > 0 {
        match payment {
            Some(accounts) => {
                match check_antimatter_accounts(&accounts, authority, store_admin, mint, antimatter) {
                    Err(e) => {
                        return Err(e);
                    },
                    Ok(()) => {},
                }
            },
            None => {},
        }
    }
    settled.metal = settled.metal - metal;
    settled.crystal = settled.crystal - crystal;
    settled.deuterium = settled.deuterium - deuterium;
    treasury.metal = treasury.metal.saturating_add(metal);
    treasury.crystal = treasury.crystal.saturating_add(crystal);
    treasury.deuterium = treasury.deuterium.saturating_add(deuterium);
    treasury.antimatter = treasury.antimatter.saturating_add(antimatter);
    treasury.total_metal_deposited = treasury.total_metal_deposited.saturating_add(metal);
    treasury.total_crystal_deposited = treasury.total_crystal_deposited.saturating_add(crystal);
    treasury.total_deuterium_deposited = treasury.total_deuterium_deposited.saturating_add(deuterium);
    treasury.total_antimatter_deposited = treasury.total_antimatter_deposited.saturating_add(antimatter);
    if period == 1 {
        synced.daily_claimed_mask = synced.daily_claimed_mask | bit;
    } else if period == 2 {
        synced.weekly_claimed_mask = synced.weekly_claimed_mask | bit;
    } else {
        synced.monthly_claimed_mask = synced.monthly_claimed_mask | bit;
    }
    let resources = metal.saturating_add(crystal).saturating_add(deuterium);
    let resource_xp = resources / ALLIANCE_DEPOSIT_XP_PER_RESOURCE_UNIT;
    let antimatter_xp = antimatter / ALLIANCE_DEPOSIT_XP_PER_ANTIMATTER_UNIT;
    let base_xp = mission.xp.saturating_add(resource_xp).saturating_add(antimatter_xp);
    let xp = apply_bps_bonus(base_xp, alliance_logistics_xp_bonus_bps(treasury));
    alliance.xp = alliance.xp.saturating_add(xp);
    alliance.total_missions_completed = alliance.total_missions_completed.saturating_add(1);
    refresh_alliance_level(alliance);
    *membership = synced;
    *planet = settled;
    Ok(())
}

/// What a member's deposit does to the alliance, membership, treasury and planet records at
/// `now`, with the outcome: the accounts' addresses and links are checked, something must be
/// deposited, and then the mission runs.
pub open spec fn deposit_spec(
    alliance: AllianceState,
    membership: AllianceMembership,
    treasury: AllianceTreasuryState,
    planet: PlanetDepositFields,
    keys: DepositKeys,
    game_config: GameConfig,
    store_config: StoreConfig,
    payment: AntimatterAccounts,
    period: u8,
    mission_id: u8,
    metal: u64,
    crystal: u64,
    deuterium: u64,
    antimatter: u64,
    now: i64,
) -> (AllianceState, AllianceMembership, AllianceTreasuryState, PlanetDepositFields, Result<(), GameStateError>) {
    if deposit_accounts_check(keys, membership, treasury, planet, game_config) is Err {
        (alliance, membership, treasury, planet, deposit_accounts_check(keys, membership, treasury, planet, game_config))
    } else if !(metal > 0 || crystal > 0 || deuterium > 0 || antimatter > 0) {
        (alliance, membership, treasury, planet, Err(GameStateError::InvalidArgs))
    } else {
        deposit_mission_outcome(
            alliance, membership, treasury, planet,
            antimatter_accounts_check(payment, keys.authority@, store_config.admin@, keys.antimatter_mint@, antimatter),
            period, mission_id, metal, crystal, deuterium, antimatter, now,
        )
    }
}

/// A member deposits resources, and possibly ANTIMATTER, from its planet into the alliance
/// treasury to complete deposit mission `mission_id` of `period` at `now`. On success the
/// planet's stock drops by the amounts, the treasury and its running totals grow by them, the
/// mission is marked claimed for the period, and the alliance gains experience (raised by the
/// logistics hub) and levels; the ANTIMATTER, if any, is then transferred to the store admin's
/// treasury account. On an error nothing changes.
pub fn deposit_alliance_resources(
    alliance: &mut AllianceState,
    membership: &mut AllianceMembership,
    treasury: &mut AllianceTreasuryState,
    planet: &mut PlanetDepositFields,
    keys: &DepositKeys,
    game_config: &GameConfig,
    store_config: &StoreConfig,
    payment: &AntimatterAccounts,
    period: u8,
    mission_id: u8,
    metal: u64,
    crystal: u64,
    deuterium: u64,
    antimatter: u64,
    now: i64,
) -> (r: Result<(), GameStateError>)
    requires
        deposit_accounts_check(*keys, *old(membership), *old(treasury), *old(planet), *game_config) is Ok
            && (metal > 0 || crystal > 0 || deuterium > 0 || antimatter > 0)
            && mission_reaches_settlement(*old(membership), period, mission_id, metal, crystal, deuterium, antimatter, now)
            ==> deposit_settle_fits(*old(planet), now),
    ensures
        (*final(alliance), *final(membership), *final(treasury), *final(planet), r) == deposit_spec(
            *old(alliance), *old(membership), *old(treasury), *old(planet), *keys, *game_config, *store_config, *payment,
            period, mission_id, metal, crystal, deuterium, antimatter, now,
        ),
{
    match check_deposit_accounts(keys, membership, treasury, planet, game_config) {
        Err(e) => {
            return Err(e);
        },
        Ok(()) => {},
    }
    if !(metal > 0 || crystal > 0 || deuterium > 0 || antimatter > 0) {
        return Err(GameStateError::InvalidArgs);
    }
    run_deposit_mission(
        alliance, membership, treasury, planet, keys.authority, store_config.admin, keys.antimatter_mint, Some(*payment),
        period, mission_id, metal, crystal, deuterium, antimatter, now,
    )
}

/// What a deposit made through a vault does: the delegation's address and activity are checked
/// with the accounts, and a vault may not deposit ANTIMATTER.
pub open spec fn deposit_vault_spec(
    alliance: AllianceState,
    membership: AllianceMembership,
    treasury: AllianceTreasuryState,
    planet: PlanetDepositFields,
    keys: DepositKeys,
    game_config: GameConfig,
    store_config: StoreConfig,
    vault_signer: Seq<u8>,
    authorized_vault: AuthorizedVault,
    authorized_vault_key: Seq<u8>,
    period: u8,
    mission_id: u8,
    metal: u64,
    crystal: u64,
    deuterium: u64,
    antimatter: u64,
    now: i64,
) -> (AllianceState, AllianceMembership, AllianceTreasuryState, PlanetDepositFields, Result<(), GameStateError>) {
    if !is_derived(authorized_vault_key, seq![authorized_vault_tag(), keys.authority@], keys.program_id@) {
        (alliance, membership, treasury, planet, Err(GameStateError::InvalidVaultAuthorization))
    } else if deposit_accounts_check(keys, membership, treasury, planet, game_config) is Err {
        (alliance, membership, treasury, planet, deposit_accounts_check(keys, membership, treasury, planet, game_config))
    } else if active_vault_check(vault_signer, authorized_vault, keys.authority@, now) is Err {
        (alliance, membership, treasury, planet, active_vault_check(vault_signer, authorized_vault, keys.authority@, now))
    } else if !(metal > 0 || crystal > 0 || deuterium > 0 || antimatter > 0) || antimatter != 0 {
        (alliance, membership, treasury, planet, Err(GameStateError::InvalidArgs))
    } else {
        deposit_mission_outcome(
            alliance, membership, treasury, planet, Ok(()), period, mission_id, metal, crystal, deuterium, antimatter, now,
        )
    }
}

/// A deposit made by `vault_signer` for the member through its delegation; as
/// `deposit_alliance_resources`, without ANTIMATTER. On an error nothing changes.
pub fn deposit_alliance_resources_vault(
    alliance: &mut AllianceState,
    membership: &mut AllianceMembership,
    treasury: &mut AllianceTreasuryState,
    planet: &mut PlanetDepositFields,
    keys: &DepositKeys,
    game_config: &GameConfig,
    store_config: &StoreConfig,
    vault_signer: Key,
    authorized_vault: &AuthorizedVault,
    authorized_vault_key: Key,
    period: u8,
    mission_id: u8,
    metal: u64,
    crystal: u64,
    deuterium: u64,
    antimatter: u64,
    now: i64,
) -> (r: Result<(), GameStateError>)
    requires
        is_derived(authorized_vault_key@, seq![authorized_vault_tag(), keys.authority@], keys.program_id@)
            && deposit_accounts_check(*keys, *old(membership), *old(treasury), *old(planet), *game_config) is Ok
            && active_vault_check(vault_signer@, *authorized_vault, keys.authority@, now) is Ok
            && (metal > 0 || crystal > 0 || deuterium > 0) && antimatter == 0
            && mission_reaches_settlement(*old(membership), period, mission_id, metal, crystal, deuterium, antimatter, now)
            ==> deposit_settle_fits(*old(planet), now),
    ensures
        (*final(alliance), *final(membership), *final(treasury), *final(planet), r) == deposit_vault_spec(
            *old(alliance), *old(membership), *old(treasury), *old(planet), *keys, *game_config, *store_config,
            vault_signer@, *authorized_vault, authorized_vault_key@, period, mission_id, metal, crystal, deuterium,
            antimatter, now,
        ),
{
    let tag: Vec<u8> = vec![97u8, 117, 116, 104, 111, 114, 105, 122, 101, 100, 95, 118, 97, 117, 108, 116];
    assert(tag@ =~= authorized_vault_tag());
    if !is_tagged_key_address(&authorized_vault_key, tag, &keys.authority, &keys.program_id) {
        return Err(GameStateError::InvalidVaultAuthorization);
    }
    match check_deposit_accounts(keys, membership, treasury, planet, game_config) {
        Err(e) => {
            return Err(e);
        },
        Ok(()) => {},
    }
    match require_active_vault(vault_signer, authorized_vault, keys.authority, now) {
        Err(e) => {
            return Err(e);
        },
        Ok(()) => {},
    }
    if !(metal > 0 || crystal > 0 || deuterium > 0 || antimatter > 0) || antimatter != 0 {
        return Err(GameStateError::InvalidArgs);
    }
    run_deposit_mission(
        alliance, membership, treasury, planet, keys.authority, store_config.admin, keys.antimatter_mint, None,
        period, mission_id, metal, crystal, deuterium, antimatter, now,
    )
}

} // verus!
