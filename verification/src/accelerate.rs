//! Token payments and ANTIMATTER acceleration: the checks a burn or a transfer must pass, and
//! the queues and missions that burning ANTIMATTER finishes at once (one token per second left).
use vstd::prelude::*;

use crate::constants::{ANTIMATTER_DECIMALS, ANTIMATTER_SCALE, MAX_MISSIONS};
use crate::economy::{
    finish_build_now, finish_build_now_spec, finish_defense_build_planet, finish_defense_build_spec,
    finish_research_now, finish_research_now_spec, finish_ship_build_now, finish_ship_build_now_spec,
    rates_fit, settle_fits,
};
use crate::error::GameStateError;
use crate::key::Key;
use crate::planet::{MissionState, PlanetState};
use crate::accounts::QuestProgressState;
use crate::quest_claims::QuestProgressMetric;
use crate::resolution::{count_quest_progress, progress_update, ProgressRecord};

verus! {

/// What the checks of a token payment read of a token account: its mint, its owner and its
/// balance.
#[derive(Clone, Copy, Debug)]
pub struct TokenAccountView {
    pub mint: Key,
    pub owner: Key,
    pub amount: u64,
}

/// The decimals of a USDC mint.
pub const USDC_DECIMALS: u8 = 6;

/// What the checks of a burn of `amount` ANTIMATTER from `user` by `authority` answer.
pub open spec fn burn_check(mint_decimals: u8, mint: Key, user: TokenAccountView, authority: Key, amount: u64) -> Result<(), GameStateError> {
    if amount == 0 {
        Err(GameStateError::NoAccelerationNeeded)
    } else if mint_decimals != ANTIMATTER_DECIMALS {
        Err(GameStateError::InvalidAntimatterMintDecimals)
    } else if user.owner@ != authority@ {
        Err(GameStateError::InvalidAntimatterAccount)
    } else if user.mint@ != mint@ {
        Err(GameStateError::InvalidAntimatterMint)
    } else if user.amount < amount {
        Err(GameStateError::InsufficientAntimatter)
    } else {
        Ok(())
    }
}

/// Checks a burn of `amount` ANTIMATTER from `user` by `authority` and hands back the amount the
/// token program is to burn.
pub fn burn_antimatter(mint_decimals: u8, mint: Key, user: &TokenAccountView, authority: Key, amount: u64) -> (r: Result<u64, GameStateError>)
    ensures
        match burn_check(mint_decimals, mint, *user, authority, amount) {
            Ok(()) => r == Ok::<u64, GameStateError>(amount),
            Err(e) => r == Err::<u64, GameStateError>(e),
        },
{
    if amount == 0 {
        return Err(GameStateError::NoAccelerationNeeded);
    }
    if mint_decimals != ANTIMATTER_DECIMALS {
        return Err(GameStateError::InvalidAntimatterMintDecimals);
    }
    if !user.owner.same_as(&authority) {
        return Err(GameStateError::InvalidAntimatterAccount);
    }
    if !user.mint.same_as(&mint) {
        return Err(GameStateError::InvalidAntimatterMint);
    }
    if user.amount < amount {
        return Err(GameStateError::InsufficientAntimatter);
    }
    Ok(amount)
}

/// What the checks of a transfer of `amount` ANTIMATTER from `user` to `treasury` answer.
pub open spec fn antimatter_transfer_check(mint_decimals: u8, mint: Key, user: TokenAccountView, treasury: TokenAccountView, authority: Key, amount: u64) -> Result<(), GameStateError> {
    if amount == 0 {
        Err(GameStateError::InvalidArgs)
    } else if mint_decimals != ANTIMATTER_DECIMALS {
        Err(GameStateError::InvalidAntimatterMint)
    } else if user.owner@ != authority@ {
        Err(GameStateError::InvalidAntimatterAccount)
    } else if user.mint@ != mint@ {
        Err(GameStateError::InvalidAntimatterMint)
    } else if treasury.mint@ != mint@ {
        Err(GameStateError::InvalidAntimatterMint)
    } else if user.amount < amount {
        Err(GameStateError::InsufficientAntimatter)
    } else {
        Ok(())
    }
}

/// Checks a transfer of `amount` ANTIMATTER from `user` to `treasury` and hands back the amount
/// the token program is to move.
pub fn transfer_antimatter(
    mint_decimals: u8,
    mint: Key,
    user: &TokenAccountView,
    treasury: &TokenAccountView,
    authority: Key,
    amount: u64,
) -> (r: Result<u64, GameStateError>)
    ensures
        match antimatter_transfer_check(mint_decimals, mint, *user, *treasury, authority, amount) {
            Ok(()) => r == Ok::<u64, GameStateError>(amount),
            Err(e) => r == Err::<u64, GameStateError>(e),
        },
{
    if amount == 0 {
        return Err(GameStateError::InvalidArgs);
    }
    if mint_decimals != ANTIMATTER_DECIMALS {
        return Err(GameStateError::InvalidAntimatterMint);
    }
    if !user.owner.same_as(&authority) {
        return Err(GameStateError::InvalidAntimatterAccount);
    }
    if !user.mint.same_as(&mint) {
        return Err(GameStateError::InvalidAntimatterMint);
    }
    if !treasury.mint.same_as(&mint) {
        return Err(GameStateError::InvalidAntimatterMint);
    }
    if user.amount < amount {
        return Err(GameStateError::InsufficientAntimatter);
    }
    Ok(amount)
}

/// What the checks of a USDC payment of `amount` from `user` to `treasury` answer.
pub open spec fn usdc_transfer_check(mint_decimals: u8, mint: Key, user: TokenAccountView, treasury: TokenAccountView, authority: Key, amount: u64) -> Result<(), GameStateError> {
    if amount == 0 {
        Err(GameStateError::InvalidStorePack)
    } else if mint_decimals != USDC_DECIMALS {
        Err(GameStateError::InvalidUsdcMint)
    } else if user.owner@ != authority@ {
        Err(GameStateError::InvalidUsdcAccount)
    } else if user.mint@ != mint@ {
        Err(GameStateError::InvalidUsdcMint)
    } else if treasury.mint@ != mint@ {
        Err(GameStateError::InvalidUsdcMint)
    } else if user.amount < amount {
        Err(GameStateError::InsufficientUsdc)
    } else {
        Ok(())
    }
}

/// Checks a USDC payment of `amount` from `user` to `treasury` and hands back the amount the
/// token program is to move.
pub fn transfer_usdc(
    mint_decimals: u8,
    mint: Key,
    user: &TokenAccountView,
    treasury: &TokenAccountView,
    authority: Key,
    amount: u64,
) -> (r: Result<u64, GameStateError>)
    ensures
        match usdc_transfer_check(mint_decimals, mint, *user, *treasury, authority, amount) {
            Ok(()) => r == Ok::<u64, GameStateError>(amount),
            Err(e) => r == Err::<u64, GameStateError>(e),
        },
{
    if amount == 0 {
        return Err(GameStateError::InvalidStorePack);
    }
    if mint_decimals != USDC_DECIMALS {
        return Err(GameStateError::InvalidUsdcMint);
    }
    if !user.owner.same_as(&authority) {
        return Err(GameStateError::InvalidUsdcAccount);
    }
    if !user.mint.same_as(&mint) {
        return Err(GameStateError::InvalidUsdcMint);
    }
    if !treasury.mint.same_as(&mint) {
        return Err(GameStateError::InvalidUsdcMint);
    }
    if user.amount < amount {
        return Err(GameStateError::InsufficientUsdc);
    }
    Ok(amount)
}

/// The seconds from `now` until `target`, saturating.
pub open spec fn seconds_left(target: i64, now: i64) -> i64 {
    crate::num::clamp_i64(target - now)
}

/// The ANTIMATTER (base units) it costs to skip to `target` from `now`: one token per second
/// left; refused when nothing is left or the amount does not fit.
pub open spec fn skip_cost(target: i64, now: i64) -> Result<u64, GameStateError> {
    let s = seconds_left(target, now);
    if s <= 0 {
        Err(GameStateError::NoAccelerationNeeded)
    } else if s * ANTIMATTER_SCALE > u64::MAX {
        Err(GameStateError::AntimatterAmountOverflow)
    } else {
        Ok((s * ANTIMATTER_SCALE) as u64)
    }
}

/// The cost of skipping to `target` from `now`.
pub fn acceleration_cost(target: i64, now: i64) -> (r: Result<u64, GameStateError>)
    ensures
        r == skip_cost(target, now),
{
    let s = crate::num::sat_sub_i64(target, now);
    if s <= 0 {
        return Err(GameStateError::NoAccelerationNeeded);
    }
    match (s as u64).checked_mul(ANTIMATTER_SCALE) {
        Some(a) => Ok(a),
        None => Err(GameStateError::AntimatterAmountOverflow),
    }
}

/// The cost of skipping to `target`, once the queue check `queue` has passed, and checked as a
/// burn.
pub open spec fn paid_skip(queue: Result<(), GameStateError>, target: i64, now: i64, mint_decimals: u8, mint: Key, user: TokenAccountView, authority: Key) -> Result<u64, GameStateError> {
    if queue is Err {
        Err(queue->Err_0)
    } else {
        match skip_cost(target, now) {
            Err(e) => Err(e),
            Ok(a) => match burn_check(mint_decimals, mint, user, authority, a) {
                Err(e) => Err(e),
                Ok(()) => Ok(a),
            },
        }
    }
}

/// What an acceleration answers and leaves, given the paid skip and what finishing the queue
/// leaves.
pub open spec fn accelerated(p: PlanetState, paid: Result<u64, GameStateError>, finished: (PlanetState, Result<(), GameStateError>)) -> (PlanetState, Result<u64, GameStateError>) {
    match paid {
        Err(e) => (p, Err(e)),
        Ok(a) => match finished.1 {
            Err(e) => (finished.0, Err(e)),
            Ok(()) => (finished.0, Ok(a)),
        },
    }
}

fn pay_skip(target: i64, now: i64, mint_decimals: u8, mint: Key, user: &TokenAccountView, authority: Key) -> (r: Result<u64, GameStateError>)
    ensures
        r == paid_skip(Ok(()), target, now, mint_decimals, mint, *user, authority),
{
    let amount = match acceleration_cost(target, now) {
        Err(e) => {
            return Err(e);
        },
        Ok(a) => a,
    };
    burn_antimatter(mint_decimals, mint, user, authority, amount)
}

/// The building queue's check before an acceleration.
pub open spec fn build_queue_check(p: PlanetState) -> Result<(), GameStateError> {
    if p.build_finish_ts <= 0 || p.build_queue_item == 255 {
        Err(GameStateError::NoBuild)
    } else {
        Ok(())
    }
}

/// Burns ANTIMATTER for the seconds left on the building queue and completes it at `now`;
/// hands back the amount burnt.
pub fn accelerate_build_with_antimatter_inner(
    planet: &mut PlanetState,
    mint_decimals: u8,
    mint: Key,
    user: &TokenAccountView,
    authority: Key,
    now: i64,
) -> (r: Result<u64, GameStateError>)
    requires
        paid_skip(build_queue_check(*old(planet)), old(planet).build_finish_ts, now, mint_decimals, mint, *user, authority) is Ok ==> {
            &&& settle_fits(*old(planet), now)
            &&& old(planet).build_finish_ts > 0 ==> rates_fit(old(planet).with_building_level(old(planet).build_queue_item, old(planet).build_queue_target))
        },
    ensures
        (*final(planet), r) == accelerated(
            *old(planet),
            paid_skip(build_queue_check(*old(planet)), old(planet).build_finish_ts, now, mint_decimals, mint, *user, authority),
            finish_build_now_spec(*old(planet), now),
        ),
{
    if planet.build_finish_ts <= 0 || planet.build_queue_item == 255 {
        return Err(GameStateError::NoBuild);
    }
    let amount = match pay_skip(planet.build_finish_ts, now, mint_decimals, mint, user, authority) {
        Err(e) => {
            return Err(e);
        },
        Ok(a) => a,
    };
    match finish_build_now(planet, now) {
        Err(e) => Err(e),
        Ok(()) => Ok(amount),
    }
}

/// The research queue's check before an acceleration.
pub open spec fn research_queue_check(p: PlanetState) -> Result<(), GameStateError> {
    if p.research_queue_item == 255 || p.research_finish_ts <= 0 {
        Err(GameStateError::NoResearch)
    } else {
        Ok(())
    }
}

/// Burns ANTIMATTER for the seconds left on the research queue and completes it at `now`.
pub fn accelerate_research_with_antimatter_inner(
    planet: &mut PlanetState,
    mint_decimals: u8,
    mint: Key,
    user: &TokenAccountView,
    authority: Key,
    now: i64,
) -> (r: Result<u64, GameStateError>)
    requires
        paid_skip(research_queue_check(*old(planet)), old(planet).research_finish_ts, now, mint_decimals, mint, *user, authority) is Ok ==> {
            &&& settle_fits(*old(planet), now)
            &&& old(planet).research_queue_item != 255 ==> rates_fit(old(planet).with_research_level(old(planet).research_queue_item, old(planet).research_queue_target))
        },
    ensures
        (*final(planet), r) == accelerated(
            *old(planet),
            paid_skip(research_queue_check(*old(planet)), old(planet).research_finish_ts, now, mint_decimals, mint, *user, authority),
            finish_research_now_spec(*old(planet), now),
        ),
{
    if planet.research_queue_item == 255 || planet.research_finish_ts <= 0 {
        return Err(GameStateError::NoResearch);
    }
    let amount = match pay_skip(planet.research_finish_ts, now, mint_decimals, mint, user, authority) {
        Err(e) => {
            return Err(e);
        },
        Ok(a) => a,
    };
    match finish_research_now(planet, now) {
        Err(e) => Err(e),
        Ok(()) => Ok(amount),
    }
}

/// The shipyard queue's check before an acceleration.
pub open spec fn ship_queue_check(p: PlanetState) -> Result<(), GameStateError> {
    if p.ship_build_item == 255 || p.ship_build_finish_ts <= 0 {
        Err(GameStateError::NoShipBuild)
    } else {
        Ok(())
    }
}

/// Burns ANTIMATTER for the seconds left on the ship queue and delivers the ships at `now`.
pub fn accelerate_ship_build_with_antimatter_inner(
    planet: &mut PlanetState,
    mint_decimals: u8,
    mint: Key,
    user: &TokenAccountView,
    authority: Key,
    now: i64,
) -> (r: Result<u64, GameStateError>)
    requires
        paid_skip(ship_queue_check(*old(planet)), old(planet).ship_build_finish_ts, now, mint_decimals, mint, *user, authority) is Ok ==> {
            &&& settle_fits(*old(planet), now)
            &&& old(planet).ship_build_item == 13 ==> rates_fit(old(planet).with_ship_added(13, old(planet).ship_build_qty))
        },
    ensures
        (*final(planet), r) == accelerated(
            *old(planet),
            paid_skip(ship_queue_check(*old(planet)), old(planet).ship_build_finish_ts, now, mint_decimals, mint, *user, authority),
            finish_ship_build_now_spec(*old(planet), now),
        ),
{
    if planet.ship_build_item == 255 || planet.ship_build_finish_ts <= 0 {
        return Err(GameStateError::NoShipBuild);
    }
    let amount = match pay_skip(planet.ship_build_finish_ts, now, mint_decimals, mint, user, authority) {
        Err(e) => {
            return Err(e);
        },
        Ok(a) => a,
    };
    match finish_ship_build_now(planet, now) {
        Err(e) => Err(e),
        Ok(()) => Ok(amount),
    }
}

/// The defense queue's check before an acceleration.
pub open spec fn defense_queue_check(p: PlanetState) -> Result<(), GameStateError> {
    if p.defense_build_item == 255 || p.defense_build_finish_ts <= 0 {
        Err(GameStateError::NoDefenseBuild)
    } else {
        Ok(())
    }
}

/// Burns ANTIMATTER for the seconds left on the defense queue and delivers the defenses at
/// `now`.
pub fn accelerate_defense_build_with_antimatter_inner(
    planet: &mut PlanetState,
    mint_decimals: u8,
    mint: Key,
    user: &TokenAccountView,
    authority: Key,
    now: i64,
) -> (r: Result<u64, GameStateError>)
    requires
        paid_skip(defense_queue_check(*old(planet)), old(planet).defense_build_finish_ts, now, mint_decimals, mint, *user, authority) is Ok ==> {
            &&& settle_fits(*old(planet), now)
        },
    ensures
        (*final(planet), r) == accelerated(
            *old(planet),
            paid_skip(defense_queue_check(*old(planet)), old(planet).defense_build_finish_ts, now, mint_decimals, mint, *user, authority),
            finish_defense_build_spec(PlanetState { defense_build_finish_ts: now, ..*old(planet) }, now),
        ),
{
    if planet.defense_build_item == 255 || planet.defense_build_finish_ts <= 0 {
        return Err(GameStateError::NoDefenseBuild);
    }
    let amount = match pay_skip(planet.defense_build_finish_ts, now, mint_decimals, mint, user, authority) {
        Err(e) => {
            return Err(e);
        },
        Ok(a) => a,
    };
    planet.defense_build_finish_ts = now;
    match finish_defense_build_planet(planet, now) {
        Err(e) => Err(e),
        Ok(()) => Ok(amount),
    }
}

/// The mission leg's check before an acceleration: leg 0 is the outbound flight (before the
/// mission is resolved), leg 1 the return (after it).
pub open spec fn leg_check(p: PlanetState, slot: u8, leg: u8) -> Result<i64, GameStateError> {
    if slot as usize >= MAX_MISSIONS {
        Err(GameStateError::InvalidMissionSlot)
    } else {
        let m = p.missions[slot as int];
        if m.mission_type == 0 {
            Err(GameStateError::InvalidMission)
        } else if leg == 0 {
            if m.applied {
                Err(GameStateError::AlreadyResolved)
            } else {
                Ok(m.arrive_ts)
            }
        } else if leg == 1 {
            if !m.applied || m.return_ts <= 0 {
                Err(GameStateError::ReturnInFlight)
            } else {
                Ok(m.return_ts)
            }
        } else {
            Err(GameStateError::InvalidArgs)
        }
    }
}

/// The mission with leg `leg` brought to `now`.
pub open spec fn leg_skipped(m: MissionState, leg: u8, now: i64) -> MissionState {
    if leg == 0 {
        MissionState { arrive_ts: now, ..m }
    } else {
        MissionState { return_ts: now, ..m }
    }
}

/// What a mission acceleration answers and leaves.
pub open spec fn mission_skip_spec(p: PlanetState, slot: u8, leg: u8, now: i64, mint_decimals: u8, mint: Key, user: TokenAccountView, authority: Key) -> (PlanetState, Result<u64, GameStateError>) {
    match leg_check(p, slot, leg) {
        Err(e) => (p, Err(e)),
        Ok(target) => match paid_skip(Ok(()), target, now, mint_decimals, mint, user, authority) {
            Err(e) => (p, Err(e)),
            Ok(a) => (p.with_slot(slot as int, leg_skipped(p.missions[slot as int], leg, now)), Ok(a)),
        },
    }
}

/// Burns ANTIMATTER for the seconds left on a mission leg and brings the leg to `now`.
pub fn accelerate_mission_with_antimatter_inner(
    planet: &mut PlanetState,
    mint_decimals: u8,
    mint: Key,
    user: &TokenAccountView,
    authority: Key,
    slot: u8,
    leg: u8,
    now: i64,
) -> (r: Result<u64, GameStateError>)
    ensures
        (*final(planet), r) == mission_skip_spec(*old(planet), slot, leg, now, mint_decimals, mint, *user, authority),
{
    let slot_idx = slot as usize;
    if slot_idx >= MAX_MISSIONS {
        return Err(GameStateError::InvalidMissionSlot);
    }
    let mut mission = planet.mission(slot_idx);
    if mission.mission_type == 0 {
        return Err(GameStateError::InvalidMission);
    }
    let target: i64 = if leg == 0 {
        if mission.applied {
            return Err(GameStateError::AlreadyResolved);
        }
        mission.arrive_ts
    } else if leg == 1 {
        if !mission.applied || mission.return_ts <= 0 {
            return Err(GameStateError::ReturnInFlight);
        }
        mission.return_ts
    } else {
        return Err(GameStateError::InvalidArgs);
    };
    let amount = match pay_skip(target, now, mint_decimals, mint, user, authority) {
        Err(e) => {
            return Err(e);
        },
        Ok(a) => a,
    };
    if leg == 0 {
        mission.arrive_ts = now;
    } else {
        mission.return_ts = now;
    }
    planet.set_mission(slot_idx, mission);
    Ok(amount)
}

/// An acceleration's outcome once the ANTIMATTER it burnt is counted as spent in `authority`'s
/// progress record (when one was given): the amount and the record to store, or the error; a
/// refused record leaves the planet as it was.
pub open spec fn spent_outcome(
    p0: PlanetState,
    out: (PlanetState, Result<u64, GameStateError>),
    record: Option<ProgressRecord>,
    authority: Key,
    program_id: Key,
    now: i64,
) -> (PlanetState, Result<(u64, Option<QuestProgressState>), GameStateError>) {
    match out.1 {
        Err(e) => (out.0, Err(e)),
        Ok(a) => match progress_update(record, authority, program_id, now, QuestProgressMetric::AntimatterSpent, a) {
            Err(e) => (p0, Err(e)),
            Ok(g) => (out.0, Ok((a, g))),
        },
    }
}

fn count_spent(
    planet: &mut PlanetState,
    saved: PlanetState,
    burnt: Result<u64, GameStateError>,
    record: &Option<ProgressRecord>,
    authority: Key,
    program_id: &Key,
    now: i64,
) -> (r: Result<(u64, Option<QuestProgressState>), GameStateError>)
    ensures
        (*final(planet), r) == spent_outcome(saved, (*old(planet), burnt), *record, authority, *program_id, now),
{
    match burnt {
        Err(e) => Err(e),
        Ok(a) => match count_quest_progress(record, &authority, program_id, now, QuestProgressMetric::AntimatterSpent, a) {
            Err(e) => {
                *planet = saved;
                Err(e)
            },
            Ok(g) => Ok((a, g)),
        },
    }
}

/// Finishes the building queue at once with ANTIMATTER of the configured mint `config_mint`; hands back
/// the amount burnt.
pub fn accelerate_build_with_antimatter(
    planet: &mut PlanetState,
    config_mint: Key,
    mint_decimals: u8,
    mint: Key,
    user: &TokenAccountView,
    authority: Key,
    program_id: &Key,
    progress: &Option<ProgressRecord>,
    now: i64,
) -> (r: Result<(u64, Option<QuestProgressState>), GameStateError>)
    requires
        config_mint@ == mint@ && paid_skip(build_queue_check(*old(planet)), old(planet).build_finish_ts, now, mint_decimals, mint, *user, authority) is Ok ==> {
            &&& settle_fits(*old(planet), now)
            &&& old(planet).build_finish_ts > 0 ==> rates_fit(old(planet).with_building_level(old(planet).build_queue_item, old(planet).build_queue_target))
        },
    ensures
        config_mint@ != mint@ ==> r == Err::<(u64, Option<QuestProgressState>), GameStateError>(GameStateError::InvalidAntimatterMint) && *final(planet) == *old(planet),
        config_mint@ == mint@ ==> (*final(planet), r) == spent_outcome(
            *old(planet),
            accelerated(
                *old(planet),
                paid_skip(build_queue_check(*old(planet)), old(planet).build_finish_ts, now, mint_decimals, mint, *user, authority),
                finish_build_now_spec(*old(planet), now),
            ),
            *progress,
            authority,
            *program_id,
            now,
        ),
{
    if !config_mint.same_as(&mint) {
        return Err(GameStateError::InvalidAntimatterMint);
    }
    let saved = *planet;
    let burnt = accelerate_build_with_antimatter_inner(planet, mint_decimals, mint, user, authority, now);
    count_spent(planet, saved, burnt, progress, authority, program_id, now)
}

/// Finishes the research queue at once with ANTIMATTER of the configured mint `config_mint`; hands back
/// the amount burnt.
pub fn accelerate_research_with_antimatter(
    planet: &mut PlanetState,
    config_mint: Key,
    mint_decimals: u8,
    mint: Key,
    user: &TokenAccountView,
    authority: Key,
    program_id: &Key,
    progress: &Option<ProgressRecord>,
    now: i64,
) -> (r: Result<(u64, Option<QuestProgressState>), GameStateError>)
    requires
        config_mint@ == mint@ && paid_skip(research_queue_check(*old(planet)), old(planet).research_finish_ts, now, mint_decimals, mint, *user, authority) is Ok ==> {
            &&& settle_fits(*old(planet), now)
            &&& old(planet).research_queue_item != 255 ==> rates_fit(old(planet).with_research_level(old(planet).research_queue_item, old(planet).research_queue_target))
        },
    ensures
        config_mint@ != mint@ ==> r == Err::<(u64, Option<QuestProgressState>), GameStateError>(GameStateError::InvalidAntimatterMint) && *final(planet) == *old(planet),
        config_mint@ == mint@ ==> (*final(planet), r) == spent_outcome(
            *old(planet),
            accelerated(
                *old(planet),
                paid_skip(research_queue_check(*old(planet)), old(planet).research_finish_ts, now, mint_decimals, mint, *user, authority),
                finish_research_now_spec(*old(planet), now),
            ),
            *progress,
            authority,
            *program_id,
            now,
        ),
{
    if !config_mint.same_as(&mint) {
        return Err(GameStateError::InvalidAntimatterMint);
    }
    let saved = *planet;
    let burnt = accelerate_research_with_antimatter_inner(planet, mint_decimals, mint, user, authority, now);
    count_spent(planet, saved, burnt, progress, authority, program_id, now)
}

/// Finishes the ship queue at once with ANTIMATTER of the configured mint `config_mint`; hands back
/// the amount burnt.
pub fn accelerate_ship_build_with_antimatter(
    planet: &mut PlanetState,
    config_mint: Key,
    mint_decimals: u8,
    mint: Key,
    user: &TokenAccountView,
    authority: Key,
    program_id: &Key,
    progress: &Option<ProgressRecord>,
    now: i64,
) -> (r: Result<(u64, Option<QuestProgressState>), GameStateError>)
    requires
        config_mint@ == mint@ && paid_skip(ship_queue_check(*old(planet)), old(planet).ship_build_finish_ts, now, mint_decimals, mint, *user, authority) is Ok ==> {
            &&& settle_fits(*old(planet), now)
            &&& old(planet).ship_build_item == 13 ==> rates_fit(old(planet).with_ship_added(13, old(planet).ship_build_qty))
        },
    ensures
        config_mint@ != mint@ ==> r == Err::<(u64, Option<QuestProgressState>), GameStateError>(GameStateError::InvalidAntimatterMint) && *final(planet) == *old(planet),
        config_mint@ == mint@ ==> (*final(planet), r) == spent_outcome(
            *old(planet),
            accelerated(
                *old(planet),
                paid_skip(ship_queue_check(*old(planet)), old(planet).ship_build_finish_ts, now, mint_decimals, mint, *user, authority),
                finish_ship_build_now_spec(*old(planet), now),
            ),
            *progress,
            authority,
            *program_id,
            now,
        ),
{
    if !config_mint.same_as(&mint) {
        return Err(GameStateError::InvalidAntimatterMint);
    }
    let saved = *planet;
    let burnt = accelerate_ship_build_with_antimatter_inner(planet, mint_decimals, mint, user, authority, now);
    count_spent(planet, saved, burnt, progress, authority, program_id, now)
}

/// Finishes the defense queue at once with ANTIMATTER of the configured mint `config_mint`; hands back
/// the amount burnt.
pub fn accelerate_defense_build_with_antimatter(
    planet: &mut PlanetState,
    config_mint: Key,
    mint_decimals: u8,
    mint: Key,
    user: &TokenAccountView,
    authority: Key,
    program_id: &Key,
    progress: &Option<ProgressRecord>,
    now: i64,
) -> (r: Result<(u64, Option<QuestProgressState>), GameStateError>)
    requires
        config_mint@ == mint@ && paid_skip(defense_queue_check(*old(planet)), old(planet).defense_build_finish_ts, now, mint_decimals, mint, *user, authority) is Ok ==> {
            &&& settle_fits(*old(planet), now)
        },
    ensures
        config_mint@ != mint@ ==> r == Err::<(u64, Option<QuestProgressState>), GameStateError>(GameStateError::InvalidAntimatterMint) && *final(planet) == *old(planet),
        config_mint@ == mint@ ==> (*final(planet), r) == spent_outcome(
            *old(planet),
            accelerated(
                *old(planet),
                paid_skip(defense_queue_check(*old(planet)), old(planet).defense_build_finish_ts, now, mint_decimals, mint, *user, authority),
                finish_defense_build_spec(PlanetState { defense_build_finish_ts: now, ..*old(planet) }, now),
            ),
            *progress,
            authority,
            *program_id,
            now,
        ),
{
    if !config_mint.same_as(&mint) {
        return Err(GameStateError::InvalidAntimatterMint);
    }
    let saved = *planet;
    let burnt = accelerate_defense_build_with_antimatter_inner(planet, mint_decimals, mint, user, authority, now);
    count_spent(planet, saved, burnt, progress, authority, program_id, now)
}

/// Brings a mission leg to `now` with ANTIMATTER of the configured mint `config_mint`; hands
/// back the amount burnt.
pub fn accelerate_mission_with_antimatter(
    planet: &mut PlanetState,
    config_mint: Key,
    mint_decimals: u8,
    mint: Key,
    user: &TokenAccountView,
    authority: Key,
    program_id: &Key,
    progress: &Option<ProgressRecord>,
    slot: u8,
    leg: u8,
    now: i64,
) -> (r: Result<(u64, Option<QuestProgressState>), GameStateError>)
    ensures
        config_mint@ != mint@ ==> r == Err::<(u64, Option<QuestProgressState>), GameStateError>(GameStateError::InvalidAntimatterMint) && *final(planet) == *old(planet),
        config_mint@ == mint@ ==> (*final(planet), r) == spent_outcome(
            *old(planet),
            mission_skip_spec(*old(planet), slot, leg, now, mint_decimals, mint, *user, authority),
            *progress,
            authority,
            *program_id,
            now,
        ),
{
    if !config_mint.same_as(&mint) {
        return Err(GameStateError::InvalidAntimatterMint);
    }
    let saved = *planet;
    let burnt = accelerate_mission_with_antimatter_inner(planet, mint_decimals, mint, user, authority, slot, leg, now);
    count_spent(planet, saved, burnt, progress, authority, program_id, now)
}

} // verus!
