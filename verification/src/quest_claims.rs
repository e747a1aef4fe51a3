//! Quest bookkeeping: the claim record and the progress counters of a player, the daily
//! check-in and the claiming of quest rewards.
use vstd::prelude::*;

use crate::accounts::{QuestProgressState, QuestState};
use crate::address::{is_derived, is_tagged_key_address, program_address, tagged_key_address};
use crate::alliance::{SECONDS_PER_DAY, SECONDS_PER_MONTH, SECONDS_PER_WEEK};
use crate::deposit::deposit_settle_fits;
use crate::economy::{settle_fits, settle_resources, settle_spec};
use crate::error::GameStateError;
use crate::key::Key;
use crate::num::div_trunc;
use crate::planet::PlanetState;
use crate::planet_bytes::PlanetDepositFields;
use crate::quests::{
    quest_requirement_met, quest_requirement_met_live, quest_requirement_met_live_spec,
    quest_requirement_met_spec, quest_reward, quest_reward_spec, recurring_met_spec,
    recurring_quest_requirement_met, PlanetQuestFields,
};
use crate::store::{award_resources_live, award_spec};

verus! {

/// The size of a stored progress record.
pub const QUEST_PROGRESS_STATE_SPACE: usize = 157;
/// The size of a stored claim record.
pub const QUEST_STATE_SPACE: usize = 119;

/// The day, week and month numbers of `now`.
pub open spec fn day_of(now: i64) -> i64 {
    div_trunc(now as int, SECONDS_PER_DAY as int) as i64
}

pub open spec fn week_of(now: i64) -> i64 {
    div_trunc(now as int, SECONDS_PER_WEEK as int) as i64
}

pub open spec fn month_of(now: i64) -> i64 {
    div_trunc(now as int, SECONDS_PER_MONTH as int) as i64
}

/// The claim record moved to the day, week and month of `now`: a period that changed starts
/// with nothing claimed.
pub open spec fn synced_quest(q: QuestState, now: i64) -> QuestState {
    QuestState {
        daily_epoch: day_of(now),
        daily_claimed_mask: if q.daily_epoch != day_of(now) { 0 } else { q.daily_claimed_mask },
        weekly_epoch: week_of(now),
        weekly_claimed_mask: if q.weekly_epoch != week_of(now) { 0 } else { q.weekly_claimed_mask },
        monthly_epoch: month_of(now),
        monthly_claimed_mask: if q.monthly_epoch != month_of(now) { 0 } else { q.monthly_claimed_mask },
        ..q
    }
}

/// Moves the claim record to the day, week and month of `now`.
pub fn sync_quest_periods(quest: &mut QuestState, now: i64)
    ensures
        *final(quest) == synced_quest(*old(quest), now),
{
    let daily = now / SECONDS_PER_DAY;
    let weekly = now / SECONDS_PER_WEEK;
    let monthly = now / SECONDS_PER_MONTH;
    if quest.daily_epoch != daily {
        quest.daily_epoch = daily;
        quest.daily_claimed_mask = 0;
    }
    if quest.weekly_epoch != weekly {
        quest.weekly_epoch = weekly;
        quest.weekly_claimed_mask = 0;
    }
    if quest.monthly_epoch != monthly {
        quest.monthly_epoch = monthly;
        quest.monthly_claimed_mask = 0;
    }
}

/// The progress record moved to the day, week and month of `now`: the counters of a period that
/// changed start again from zero.
pub open spec fn synced_progress(g: QuestProgressState, now: i64) -> QuestProgressState {
    let g1 = if g.daily_epoch != day_of(now) {
        QuestProgressState {
            daily_epoch: day_of(now),
            daily_store_packs_bought: 0,
            daily_antimatter_spent: 0,
            daily_planets_colonized: 0,
            daily_attacks_resolved: 0,
            daily_transports_resolved: 0,
            daily_spy_missions_resolved: 0,
            ..g
        }
    } else {
        g
    };
    let g2 = if g1.weekly_epoch != week_of(now) {
        QuestProgressState {
            weekly_epoch: week_of(now),
            weekly_store_packs_bought: 0,
            weekly_antimatter_spent: 0,
            weekly_planets_colonized: 0,
            weekly_attacks_resolved: 0,
            weekly_transports_resolved: 0,
            weekly_spy_missions_resolved: 0,
            ..g1
        }
    } else {
        g1
    };
    if g2.monthly_epoch != month_of(now) {
        QuestProgressState {
            monthly_epoch: month_of(now),
            monthly_store_packs_bought: 0,
            monthly_antimatter_spent: 0,
            monthly_planets_colonized: 0,
            monthly_attacks_resolved: 0,
            monthly_transports_resolved: 0,
            monthly_spy_missions_resolved: 0,
            ..g2
        }
    } else {
        g2
    }
}

/// Moves the progress record to the day, week and month of `now`.
pub fn sync_quest_progress_periods(progress: &mut QuestProgressState, now: i64)
    ensures
        *final(progress) == synced_progress(*old(progress), now),
{
    let daily = now / SECONDS_PER_DAY;
    let weekly = now / SECONDS_PER_WEEK;
    let monthly = now / SECONDS_PER_MONTH;
    if progress.daily_epoch != daily {
        progress.daily_epoch = daily;
        progress.daily_store_packs_bought = 0;
        progress.daily_antimatter_spent = 0;
        progress.daily_planets_colonized = 0;
        progress.daily_attacks_resolved = 0;
        progress.daily_transports_resolved = 0;
        progress.daily_spy_missions_resolved = 0;
    }
    if progress.weekly_epoch != weekly {
        progress.weekly_epoch = weekly;
        progress.weekly_store_packs_bought = 0;
        progress.weekly_antimatter_spent = 0;
        progress.weekly_planets_colonized = 0;
        progress.weekly_attacks_resolved = 0;
        progress.weekly_transports_resolved = 0;
        progress.weekly_spy_missions_resolved = 0;
    }
    if progress.monthly_epoch != monthly {
        progress.monthly_epoch = monthly;
        progress.monthly_store_packs_bought = 0;
        progress.monthly_antimatter_spent = 0;
        progress.monthly_planets_colonized = 0;
        progress.monthly_attacks_resolved = 0;
        progress.monthly_transports_resolved = 0;
        progress.monthly_spy_missions_resolved = 0;
    }
}

/// A progress record of `authority` with every counter at zero, in the periods of `now`.
pub open spec fn fresh_progress(authority: Key, now: i64) -> QuestProgressState {
    QuestProgressState {
        authority,
        daily_epoch: day_of(now),
        weekly_epoch: week_of(now),
        monthly_epoch: month_of(now),
        daily_store_packs_bought: 0,
        weekly_store_packs_bought: 0,
        monthly_store_packs_bought: 0,
        daily_antimatter_spent: 0,
        weekly_antimatter_spent: 0,
        monthly_antimatter_spent: 0,
        daily_planets_colonized: 0,
        weekly_planets_colonized: 0,
        monthly_planets_colonized: 0,
        daily_attacks_resolved: 0,
        weekly_attacks_resolved: 0,
        monthly_attacks_resolved: 0,
        daily_transports_resolved: 0,
        weekly_transports_resolved: 0,
        monthly_transports_resolved: 0,
        daily_spy_missions_resolved: 0,
        weekly_spy_missions_resolved: 0,
        monthly_spy_missions_resolved: 0,
        last_updated_ts: now,
        bump: 0,
    }
}

/// A progress record of `authority` with every counter at zero.
pub fn empty_quest_progress(authority: Key, now: i64) -> (g: QuestProgressState)
    ensures
        g == fresh_progress(authority, now),
{
    QuestProgressState {
        authority,
        daily_epoch: now / SECONDS_PER_DAY,
        weekly_epoch: now / SECONDS_PER_WEEK,
        monthly_epoch: now / SECONDS_PER_MONTH,
        daily_store_packs_bought: 0,
        weekly_store_packs_bought: 0,
        monthly_store_packs_bought: 0,
        daily_antimatter_spent: 0,
        weekly_antimatter_spent: 0,
        monthly_antimatter_spent: 0,
        daily_planets_colonized: 0,
        weekly_planets_colonized: 0,
        monthly_planets_colonized: 0,
        daily_attacks_resolved: 0,
        weekly_attacks_resolved: 0,
        monthly_attacks_resolved: 0,
        daily_transports_resolved: 0,
        weekly_transports_resolved: 0,
        monthly_transports_resolved: 0,
        daily_spy_missions_resolved: 0,
        weekly_spy_missions_resolved: 0,
        monthly_spy_missions_resolved: 0,
        last_updated_ts: now,
        bump: 0,
    }
}

/// A fresh claim record of `authority`: nothing claimed, no check-in yet.
pub open spec fn fresh_quest_state(authority: Key, now: i64, bump: u8) -> QuestState {
    QuestState {
        authority,
        tutorial_claimed_mask: 0,
        daily_epoch: day_of(now),
        weekly_epoch: week_of(now),
        monthly_epoch: month_of(now),
        daily_claimed_mask: 0,
        weekly_claimed_mask: 0,
        monthly_claimed_mask: 0,
        daily_checkin_day: -1i64,
        daily_checkin_streak: 0,
        total_checkins: 0,
        last_updated_ts: now,
        bump,
    }
}

/// The claim record a player starts with.
pub fn initialize_quest_state(authority: Key, now: i64, bump: u8) -> (q: QuestState)
    ensures
        q == fresh_quest_state(authority, now, bump),
{
    QuestState {
        authority,
        tutorial_claimed_mask: 0,
        daily_epoch: now / SECONDS_PER_DAY,
        weekly_epoch: now / SECONDS_PER_WEEK,
        monthly_epoch: now / SECONDS_PER_MONTH,
        daily_claimed_mask: 0,
        weekly_claimed_mask: 0,
        monthly_claimed_mask: 0,
        daily_checkin_day: -1,
        daily_checkin_streak: 0,
        total_checkins: 0,
        last_updated_ts: now,
        bump,
    }
}

/// The progress record a player starts with.
pub fn initialize_quest_progress(authority: Key, now: i64, bump: u8) -> (g: QuestProgressState)
    ensures
        g == (QuestProgressState { bump, ..fresh_progress(authority, now) }),
{
    let mut g = empty_quest_progress(authority, now);
    g.bump = bump;
    g
}

/// The seed tag of a progress record's address: the bytes of `quest_progress`.
pub open spec fn quest_progress_tag() -> Seq<u8> {
    seq![113u8, 117, 101, 115, 116, 95, 112, 114, 111, 103, 114, 101, 115, 115]
}

/// What the check of a progress record answers: the record must sit at `authority`'s derived
/// address, be large enough, and belong to `authority`.
pub open spec fn progress_record_check(progress_key: Key, data_len: usize, progress: QuestProgressState, authority: Key, program_id: Key) -> Result<QuestProgressState, GameStateError> {
    if !is_derived(progress_key@, seq![quest_progress_tag(), authority@], program_id@) {
        Err(GameStateError::Unauthorized)
    } else if data_len < QUEST_PROGRESS_STATE_SPACE {
        Err(GameStateError::InvalidArgs)
    } else if progress.authority@ != authority@ {
        Err(GameStateError::Unauthorized)
    } else {
        Ok(progress)
    }
}

/// Checks the progress record stored at `progress_key` (`data_len` bytes, holding `progress`)
/// against `authority` and hands it back.
pub fn validate_quest_progress_pda(progress_key: &Key, data_len: usize, progress: &QuestProgressState, authority: &Key, program_id: &Key) -> (r: Result<QuestProgressState, GameStateError>)
    ensures
        r == progress_record_check(*progress_key, data_len, *progress, *authority, *program_id),
{
    let tag: Vec<u8> = vec![113u8, 117, 101, 115, 116, 95, 112, 114, 111, 103, 114, 101, 115, 115];
    assert(tag@ =~= quest_progress_tag());
    if !is_tagged_key_address(progress_key, tag, authority, program_id) {
        return Err(GameStateError::Unauthorized);
    }
    if data_len < QUEST_PROGRESS_STATE_SPACE {
        return Err(GameStateError::InvalidArgs);
    }
    if !progress.authority.same_as(authority) {
        return Err(GameStateError::Unauthorized);
    }
    Ok(*progress)
}

/// The kinds of action that rotating quests count.
#[derive(Clone, Copy, Debug, PartialEq, Eq, Structural)]
pub enum QuestProgressMetric {
    StorePacksBought,
    AntimatterSpent,
    PlanetsColonized,
    AttacksResolved,
    TransportsResolved,
    SpyMissionsResolved,
}

/// `amount` as a 32-bit count, capped at the largest one.
pub open spec fn count_of(amount: u64) -> u32 {
    if amount > u32::MAX as u64 { u32::MAX } else { amount as u32 }
}

/// The counters after `amount` more of `metric` in each of the three periods, saturating.
pub open spec fn counted(g: QuestProgressState, metric: QuestProgressMetric, amount: u64) -> QuestProgressState {
    let n = count_of(amount);
    match metric {
        QuestProgressMetric::StorePacksBought => QuestProgressState {
            daily_store_packs_bought: g.daily_store_packs_bought.saturating_add(n),
            weekly_store_packs_bought: g.weekly_store_packs_bought.saturating_add(n),
            monthly_store_packs_bought: g.monthly_store_packs_bought.saturating_add(n),
            ..g
        },
        QuestProgressMetric::AntimatterSpent => QuestProgressState {
            daily_antimatter_spent: g.daily_antimatter_spent.saturating_add(amount),
            weekly_antimatter_spent: g.weekly_antimatter_spent.saturating_add(amount),
            monthly_antimatter_spent: g.monthly_antimatter_spent.saturating_add(amount),
            ..g
        },
        QuestProgressMetric::PlanetsColonized => QuestProgressState {
            daily_planets_colonized: g.daily_planets_colonized.saturating_add(n),
            weekly_planets_colonized: g.weekly_planets_colonized.saturating_add(n),
            monthly_planets_colonized: g.monthly_planets_colonized.saturating_add(n),
            ..g
        },
        QuestProgressMetric::AttacksResolved => QuestProgressState {
            daily_attacks_resolved: g.daily_attacks_resolved.saturating_add(n),
            weekly_attacks_resolved: g.weekly_attacks_resolved.saturating_add(n),
            monthly_attacks_resolved: g.monthly_attacks_resolved.saturating_add(n),
            ..g
        },
        QuestProgressMetric::TransportsResolved => QuestProgressState {
            daily_transports_resolved: g.daily_transports_resolved.saturating_add(n),
            weekly_transports_resolved: g.weekly_transports_resolved.saturating_add(n),
            monthly_transports_resolved: g.monthly_transports_resolved.saturating_add(n),
            ..g
        },
        QuestProgressMetric::SpyMissionsResolved => QuestProgressState {
            daily_spy_missions_resolved: g.daily_spy_missions_resolved.saturating_add(n),
            weekly_spy_missions_resolved: g.weekly_spy_missions_resolved.saturating_add(n),
            monthly_spy_missions_resolved: g.monthly_spy_missions_resolved.saturating_add(n),
            ..g
        },
    }
}

/// Counts `amount` more of `metric` at `now`, in a record already moved to the periods of `now`.
pub fn record_quest_progress(progress: &mut QuestProgressState, now: i64, metric: QuestProgressMetric, amount: u64)
    ensures
        *final(progress) == (QuestProgressState {
            last_updated_ts: now,
            ..counted(synced_progress(*old(progress), now), metric, amount)
        }),
{
    sync_quest_progress_periods(progress, now);
    let n: u32 = if amount > 0xFFFF_FFFFu64 { 0xFFFF_FFFFu32 } else { amount as u32 };
    match metric {
        QuestProgressMetric::StorePacksBought => {
            progress.daily_store_packs_bought = progress.daily_store_packs_bought.saturating_add(n);
            progress.weekly_store_packs_bought = progress.weekly_store_packs_bought.saturating_add(n);
            progress.monthly_store_packs_bought = progress.monthly_store_packs_bought.saturating_add(n);
        },
        QuestProgressMetric::AntimatterSpent => {
            progress.daily_antimatter_spent = progress.daily_antimatter_spent.saturating_add(amount);
            progress.weekly_antimatter_spent = progress.weekly_antimatter_spent.saturating_add(amount);
            progress.monthly_antimatter_spent = progress.monthly_antimatter_spent.saturating_add(amount);
        },
        QuestProgressMetric::PlanetsColonized => {
            progress.daily_planets_colonized = progress.daily_planets_colonized.saturating_add(n);
            progress.weekly_planets_colonized = progress.weekly_planets_colonized.saturating_add(n);
            progress.monthly_planets_colonized = progress.monthly_planets_colonized.saturating_add(n);
        },
        QuestProgressMetric::AttacksResolved => {
            progress.daily_attacks_resolved = progress.daily_attacks_resolved.saturating_add(n);
            progress.weekly_attacks_resolved = progress.weekly_attacks_resolved.saturating_add(n);
            progress.monthly_attacks_resolved = progress.monthly_attacks_resolved.saturating_add(n);
        },
        QuestProgressMetric::TransportsResolved => {
            progress.daily_transports_resolved = progress.daily_transports_resolved.saturating_add(n);
            progress.weekly_transports_resolved = progress.weekly_transports_resolved.saturating_add(n);
            progress.monthly_transports_resolved = progress.monthly_transports_resolved.saturating_add(n);
        },
        QuestProgressMetric::SpyMissionsResolved => {
            progress.daily_spy_missions_resolved = progress.daily_spy_missions_resolved.saturating_add(n);
            progress.weekly_spy_missions_resolved = progress.weekly_spy_missions_resolved.saturating_add(n);
            progress.monthly_spy_missions_resolved = progress.monthly_spy_missions_resolved.saturating_add(n);
        },
    }
    progress.last_updated_ts = now;
}

/// Checks the progress record of `authority` and counts `amount` more of `metric` at `now`;
/// hands back the record to store.
pub fn increment_quest_progress(
    progress_key: &Key,
    data_len: usize,
    progress: &QuestProgressState,
    authority: &Key,
    program_id: &Key,
    now: i64,
    metric: QuestProgressMetric,
    amount: u64,
) -> (r: Result<QuestProgressState, GameStateError>)
    ensures
        match progress_record_check(*progress_key, data_len, *progress, *authority, *program_id) {
            Ok(g) => r == Ok::<QuestProgressState, GameStateError>(QuestProgressState {
                last_updated_ts: now,
                ..counted(synced_progress(g, now), metric, amount)
            }),
            Err(e) => r == Err::<QuestProgressState, GameStateError>(e),
        },
{
    let mut g = match validate_quest_progress_pda(progress_key, data_len, progress, authority, program_id) {
        Ok(g) => g,
        Err(e) => {
            return Err(e);
        },
    };
    record_quest_progress(&mut g, now, metric, amount);
    Ok(g)
}

/// What settling the planet at `now` and crediting the amounts leaves, and the answer.
pub open spec fn award_planet_spec(p0: PlanetState, now: i64, metal: u64, crystal: u64, deuterium: u64) -> (PlanetState, Result<(), GameStateError>) {
    let (p, r) = settle_spec(p0, now);
    if r is Err {
        (p, r)
    } else if p.has_resource_room(metal, crystal, deuterium) {
        (
            PlanetState {
                metal: (p.metal + metal) as u64,
                crystal: (p.crystal + crystal) as u64,
                deuterium: (p.deuterium + deuterium) as u64,
                ..p
            },
            Ok(()),
        )
    } else {
        (p, Err(GameStateError::ResourceCapExceeded))
    }
}

/// Settles the planet at `now` and credits the amounts, all three or none.
pub fn award_resources(planet: &mut PlanetState, now: i64, metal: u64, crystal: u64, deuterium: u64) -> (r: Result<(), GameStateError>)
    requires
        settle_fits(*old(planet), now),
    ensures
        (*final(planet), r) == award_planet_spec(*old(planet), now, metal, crystal, deuterium),
{
    match settle_resources(planet, now) {
        Err(e) => {
            return Err(e);
        },
        Ok(()) => {},
    }
    planet.credit_resources(metal, crystal, deuterium)
}

/// The claim record after a check-in at `now`, from a record already moved to the periods of
/// `now` that has not checked in today: the streak grows on consecutive days and starts again
/// at one otherwise.
pub open spec fn checked_in(q: QuestState, now: i64) -> QuestState {
    let day = day_of(now);
    QuestState {
        daily_checkin_streak: if q.daily_checkin_day == day - 1 { q.daily_checkin_streak.saturating_add(1) } else { 1 },
        daily_checkin_day: day,
        total_checkins: q.total_checkins.saturating_add(1),
        daily_claimed_mask: q.daily_claimed_mask | 1,
        last_updated_ts: now,
        ..q
    }
}

/// The streak bonus: fifty per day of streak, counting at most thirty days.
pub open spec fn checkin_bonus(streak: u16) -> u64 {
    ((if streak > 30 { 30u64 } else { streak as u64 }) * 50) as u64
}

/// The metal, crystal and deuterium of a check-in with `streak`.
pub open spec fn checkin_reward(streak: u16) -> (u64, u64, u64) {
    let b = checkin_bonus(streak);
    ((500 + b) as u64, (300 + b / 2) as u64, (100 + b / 5) as u64)
}

/// What a check-in at `now` leaves of the claim record, and the resources it grants; refused
/// when the player has already checked in today.
pub open spec fn checkin_spec(q0: QuestState, now: i64) -> (QuestState, Result<(u64, u64, u64), GameStateError>) {
    let q = synced_quest(q0, now);
    if q.daily_checkin_day == day_of(now) {
        (q, Err(GameStateError::DailyCheckInAlreadyClaimed))
    } else {
        let q1 = checked_in(q, now);
        (q1, Ok(checkin_reward(q1.daily_checkin_streak)))
    }
}

proof fn lemma_day_bounds(now: i64)
    ensures
        i64::MIN < day_of(now) - 1,
        day_of(now) <= i64::MAX,
{
}

/// Records the check-in of `now` and hands back the resources it grants.
fn record_check_in(quest: &mut QuestState, now: i64) -> (r: Result<(u64, u64, u64), GameStateError>)
    ensures
        (*final(quest), r) == checkin_spec(*old(quest), now),
{
    sync_quest_periods(quest, now);
    let day = now / SECONDS_PER_DAY;
    if quest.daily_checkin_day == day {
        return Err(GameStateError::DailyCheckInAlreadyClaimed);
    }
    proof {
        lemma_day_bounds(now);
    }
    if quest.daily_checkin_day == day - 1 {
        quest.daily_checkin_streak = quest.daily_checkin_streak.saturating_add(1);
    } else {
        quest.daily_checkin_streak = 1;
    }
    quest.daily_checkin_day = day;
    quest.total_checkins = quest.total_checkins.saturating_add(1);
    quest.daily_claimed_mask = quest.daily_claimed_mask | 1;
    quest.last_updated_ts = now;
    let streak = quest.daily_checkin_streak as u64;
    let bonus: u64 = (if streak > 30 { 30 } else { streak }) * 50;
    Ok((500 + bonus, 300 + bonus / 2, 100 + bonus / 5))
}

/// The daily check-in: records it and credits the planet with its reward.
pub fn claim_daily_check_in(quest: &mut QuestState, planet: &mut PlanetState, now: i64) -> (r: Result<(), GameStateError>)
    requires
        checkin_spec(*old(quest), now).1 is Ok ==> settle_fits(*old(planet), now),
    ensures
        *final(quest) == checkin_spec(*old(quest), now).0,
        match checkin_spec(*old(quest), now).1 {
            Err(e) => r == Err::<(), GameStateError>(e) && *final(planet) == *old(planet),
            Ok((m, c, d)) => (*final(planet), r) == award_planet_spec(*old(planet), now, m, c, d),
        },
{
    match record_check_in(quest, now) {
        Err(e) => Err(e),
        Ok((m, c, d)) => award_resources(planet, now, m, c, d),
    }
}

/// The daily check-in on the fields of a planet record: records it and credits the planet.
pub fn claim_daily_check_in_live(quest: &mut QuestState, planet: &mut PlanetDepositFields, now: i64) -> (r: Result<(), GameStateError>)
    requires
        checkin_spec(*old(quest), now).1 is Ok ==> deposit_settle_fits(*old(planet), now),
    ensures
        *final(quest) == checkin_spec(*old(quest), now).0,
        match checkin_spec(*old(quest), now).1 {
            Err(e) => r == Err::<(), GameStateError>(e) && *final(planet) == *old(planet),
            Ok((m, c, d)) => (*final(planet), r) == award_spec(*old(planet), now, m, c, d),
        },
{
    match record_check_in(quest, now) {
        Err(e) => Err(e),
        Ok((m, c, d)) => award_resources_live(planet, now, m, c, d),
    }
}

/// The claimed mask of `period` (0 tutorial, 1 daily, 2 weekly, 3 monthly).
pub open spec fn period_mask(q: QuestState, period: u8) -> u64 {
    if period == 0 {
        q.tutorial_claimed_mask
    } else if period == 1 {
        q.daily_claimed_mask
    } else if period == 2 {
        q.weekly_claimed_mask
    } else {
        q.monthly_claimed_mask
    }
}

/// The epoch in which quests of `period` are drawn (zero for the tutorial).
pub open spec fn period_epoch(q: QuestState, period: u8) -> i64 {
    if period == 0 {
        0
    } else if period == 1 {
        q.daily_epoch
    } else if period == 2 {
        q.weekly_epoch
    } else {
        q.monthly_epoch
    }
}

/// The record with `bit` set in the claimed mask of `period`.
pub open spec fn with_claimed_bit(q: QuestState, period: u8, bit: u64) -> QuestState {
    if period == 0 {
        QuestState { tutorial_claimed_mask: q.tutorial_claimed_mask | bit, ..q }
    } else if period == 1 {
        QuestState { daily_claimed_mask: q.daily_claimed_mask | bit, ..q }
    } else if period == 2 {
        QuestState { weekly_claimed_mask: q.weekly_claimed_mask | bit, ..q }
    } else {
        QuestState { monthly_claimed_mask: q.monthly_claimed_mask | bit, ..q }
    }
}

/// What claiming quest `quest_id` of `period` at `now` leaves of the claim and progress records,
/// and the reward, for a quest other than the daily check-in. `tutorial_met` is whether the
/// planet meets the tutorial quest; rotating quests are judged by the progress counters.
pub open spec fn reward_claim_spec(q0: QuestState, g0: QuestProgressState, period: u8, quest_id: u8, now: i64, tutorial_met: bool) -> (QuestState, QuestProgressState, Result<(u64, u64, u64), GameStateError>) {
    if quest_id >= 64 {
        (q0, g0, Err(GameStateError::InvalidQuest))
    } else {
        let q = synced_quest(q0, now);
        let bit = 1u64 << quest_id;
        let epoch = period_epoch(q, period);
        if period > 3 {
            (q, g0, Err(GameStateError::InvalidQuest))
        } else if period_mask(q, period) & bit != 0 {
            (q, g0, Err(GameStateError::QuestAlreadyClaimed))
        } else {
            let g = if period == 0 { g0 } else { synced_progress(g0, now) };
            let met: Result<bool, GameStateError> = if period == 0 { Ok(tutorial_met) } else { recurring_met_spec(period, quest_id, epoch, g) };
            match met {
                Err(e) => (q, g, Err(e)),
                Ok(false) => (q, g, Err(GameStateError::QuestRequirementsNotMet)),
                Ok(true) => match quest_reward_spec(period, quest_id, epoch) {
                    None => (q, g, Err(GameStateError::InvalidQuest)),
                    Some(x) => (QuestState { last_updated_ts: now, ..with_claimed_bit(q, period, bit) }, g, Ok(x)),
                },
            }
        }
    }
}

/// Checks a claim of quest `quest_id` of `period` (not the daily check-in), records it and hands
/// back the reward.
fn record_quest_claim(quest: &mut QuestState, progress: &mut QuestProgressState, period: u8, quest_id: u8, now: i64, tutorial_met: bool) -> (r: Result<(u64, u64, u64), GameStateError>)
    ensures
        (*final(quest), *final(progress), r) == reward_claim_spec(*old(quest), *old(progress), period, quest_id, now, tutorial_met),
{
    if quest_id >= 64 {
        return Err(GameStateError::InvalidQuest);
    }
    sync_quest_periods(quest, now);
    let bit = 1u64 << quest_id;
    if period > 3 {
        return Err(GameStateError::InvalidQuest);
    }
    let mask = if period == 0 {
        quest.tutorial_claimed_mask
    } else if period == 1 {
        quest.daily_claimed_mask
    } else if period == 2 {
        quest.weekly_claimed_mask
    } else {
        quest.monthly_claimed_mask
    };
    if mask & bit != 0 {
        return Err(GameStateError::QuestAlreadyClaimed);
    }
    let epoch: i64 = if period == 0 {
        0
    } else if period == 1 {
        quest.daily_epoch
    } else if period == 2 {
        quest.weekly_epoch
    } else {
        quest.monthly_epoch
    };
    if period == 0 {
        if !tutorial_met {
            return Err(GameStateError::QuestRequirementsNotMet);
        }
    } else {
        sync_quest_progress_periods(progress, now);
        match recurring_quest_requirement_met(period, quest_id, epoch, progress) {
            Err(e) => {
                return Err(e);
            },
            Ok(false) => {
                return Err(GameStateError::QuestRequirementsNotMet);
            },
            Ok(true) => {},
        }
    }
    let reward = match quest_reward(period, quest_id, epoch) {
        Err(e) => {
            return Err(e);
        },
        Ok(x) => x,
    };
    if period == 0 {
        quest.tutorial_claimed_mask = quest.tutorial_claimed_mask | bit;
    } else if period == 1 {
        quest.daily_claimed_mask = quest.daily_claimed_mask | bit;
    } else if period == 2 {
        quest.weekly_claimed_mask = quest.weekly_claimed_mask | bit;
    } else {
        quest.monthly_claimed_mask = quest.monthly_claimed_mask | bit;
    }
    quest.last_updated_ts = now;
    Ok(reward)
}

/// Whether claiming quest `quest_id` of `period` gets as far as crediting the planet (and so
/// settling it): the check-in or the claim is accepted.
pub open spec fn claim_reaches_award(q: QuestState, g: QuestProgressState, period: u8, quest_id: u8, now: i64, met: bool) -> bool {
    if period == 1 && quest_id == 0 {
        checkin_spec(q, now).1 is Ok
    } else {
        reward_claim_spec(q, g, period, quest_id, now, met).2 is Ok
    }
}

/// Claims quest `quest_id` of `period` at `now` and credits the planet with its reward; quest 0
/// of the day is the daily check-in.
pub fn claim_quest_reward(quest: &mut QuestState, planet: &mut PlanetState, progress: &mut QuestProgressState, period: u8, quest_id: u8, now: i64) -> (r: Result<(), GameStateError>)
    requires
        claim_reaches_award(*old(quest), *old(progress), period, quest_id, now, quest_requirement_met_spec(0, quest_id, 0, *old(planet)))
            ==> settle_fits(*old(planet), now),
    ensures
        period == 1 && quest_id == 0 ==> {
            &&& *final(quest) == checkin_spec(*old(quest), now).0
            &&& *final(progress) == *old(progress)
            &&& match checkin_spec(*old(quest), now).1 {
                Err(e) => r == Err::<(), GameStateError>(e) && *final(planet) == *old(planet),
                Ok((m, c, d)) => (*final(planet), r) == award_planet_spec(*old(planet), now, m, c, d),
            }
        },
        !(period == 1 && quest_id == 0) ==> {
            let met = quest_requirement_met_spec(0, quest_id, 0, *old(planet));
            let (q, g, x) = reward_claim_spec(*old(quest), *old(progress), period, quest_id, now, met);
            &&& *final(quest) == q
            &&& *final(progress) == g
            &&& match x {
                Err(e) => r == Err::<(), GameStateError>(e) && *final(planet) == *old(planet),
                Ok((m, c, d)) => (*final(planet), r) == award_planet_spec(*old(planet), now, m, c, d),
            }
        },
{
    if period == 1 && quest_id == 0 {
        return claim_daily_check_in(quest, planet, now);
    }
    let met = quest_requirement_met(0, quest_id, 0, planet);
    match record_quest_claim(quest, progress, period, quest_id, now, met) {
        Err(e) => Err(e),
        Ok((m, c, d)) => award_resources(planet, now, m, c, d),
    }
}

/// Claims quest `quest_id` of `period` at `now` on the fields of a planet record and credits it
/// with the reward; quest 0 of the day is the daily check-in.
pub fn claim_quest_reward_live(quest: &mut QuestState, planet: &mut PlanetQuestFields, progress: &mut QuestProgressState, period: u8, quest_id: u8, now: i64) -> (r: Result<(), GameStateError>)
    requires
        claim_reaches_award(*old(quest), *old(progress), period, quest_id, now, quest_requirement_met_live_spec(0, quest_id, 0, *old(planet)))
            ==> deposit_settle_fits(old(planet).deposit, now),
    ensures
        period == 1 && quest_id == 0 ==> {
            &&& *final(quest) == checkin_spec(*old(quest), now).0
            &&& *final(progress) == *old(progress)
            &&& match checkin_spec(*old(quest), now).1 {
                Err(e) => r == Err::<(), GameStateError>(e) && *final(planet) == *old(planet),
                Ok((m, c, d)) => (final(planet).deposit, r) == award_spec(old(planet).deposit, now, m, c, d)
                    && *final(planet) == (PlanetQuestFields { deposit: final(planet).deposit, ..*old(planet) }),
            }
        },
        !(period == 1 && quest_id == 0) ==> {
            let met = quest_requirement_met_live_spec(0, quest_id, 0, *old(planet));
            let (q, g, x) = reward_claim_spec(*old(quest), *old(progress), period, quest_id, now, met);
            &&& *final(quest) == q
            &&& *final(progress) == g
            &&& match x {
                Err(e) => r == Err::<(), GameStateError>(e) && *final(planet) == *old(planet),
                Ok((m, c, d)) => (final(planet).deposit, r) == award_spec(old(planet).deposit, now, m, c, d)
                    && *final(planet) == (PlanetQuestFields { deposit: final(planet).deposit, ..*old(planet) }),
            }
        },
{
    if period == 1 && quest_id == 0 {
        return claim_daily_check_in_live(quest, &mut planet.deposit, now);
    }
    let met = quest_requirement_met_live(0, quest_id, 0, planet);
    match record_quest_claim(quest, progress, period, quest_id, now, met) {
        Err(e) => Err(e),
        Ok((m, c, d)) => award_resources_live(&mut planet.deposit, now, m, c, d),
    }
}

/// The seed tag of a claim record's address: the bytes of `quest_state`.
pub open spec fn quest_state_tag() -> Seq<u8> {
    seq![113u8, 117, 101, 115, 116, 95, 115, 116, 97, 116, 101]
}

/// What to do with a player's quest account: create it with the given record, or read the
/// stored record and check it.
#[derive(Clone, Copy, Debug)]
pub enum QuestAccountStep<T> {
    Create(T),
    Check,
}

/// What the plan for the account at `key`, owned by `owner`, answers for `authority`'s records
/// seeded by `tag`: it must sit at the derived address; an account still held by the system
/// program is created with `fresh` of the derived bump; any other must be `program_id`'s.
pub open spec fn account_step<T>(key: Key, owner: Key, tag: Seq<u8>, authority: Key, program_id: Key, fresh: spec_fn(u8) -> T) -> Result<QuestAccountStep<T>, GameStateError> {
    match program_address(seq![tag, authority@], program_id@) {
        None => Err(GameStateError::Unauthorized),
        Some((addr, bump)) => if key@ != addr {
            Err(GameStateError::Unauthorized)
        } else if crate::key::all_zero(owner@) {
            Ok(QuestAccountStep::Create(fresh(bump)))
        } else if owner@ != program_id@ {
            Err(GameStateError::Unauthorized)
        } else {
            Ok(QuestAccountStep::Check)
        },
    }
}

/// Plans `authority`'s claim record at `key` (owned by `owner`; the system program is the
/// all-zero key) for `now`.
pub fn plan_quest_state_account(key: &Key, owner: &Key, authority: &Key, program_id: &Key, now: i64) -> (r: Result<QuestAccountStep<QuestState>, GameStateError>)
    ensures
        r == account_step(*key, *owner, quest_state_tag(), *authority, *program_id, |b: u8| fresh_quest_state(*authority, now, b)),
{
    let tag: Vec<u8> = vec![113u8, 117, 101, 115, 116, 95, 115, 116, 97, 116, 101];
    assert(tag@ =~= quest_state_tag());
    let (expected, bump) = match tagged_key_address(tag, authority, program_id) {
        None => {
            return Err(GameStateError::Unauthorized);
        },
        Some(x) => x,
    };
    if !key.same_as(&expected) {
        return Err(GameStateError::Unauthorized);
    }
    if owner.is_zero() {
        return Ok(QuestAccountStep::Create(initialize_quest_state(*authority, now, bump)));
    }
    if !owner.same_as(program_id) {
        return Err(GameStateError::Unauthorized);
    }
    Ok(QuestAccountStep::Check)
}

/// Plans `authority`'s progress record at `key` (owned by `owner`) for `now`.
pub fn plan_quest_progress_account(key: &Key, owner: &Key, authority: &Key, program_id: &Key, now: i64) -> (r: Result<QuestAccountStep<QuestProgressState>, GameStateError>)
    ensures
        r == account_step(*key, *owner, quest_progress_tag(), *authority, *program_id, |b: u8| QuestProgressState { bump: b, ..fresh_progress(*authority, now) }),
{
    let tag: Vec<u8> = vec![113u8, 117, 101, 115, 116, 95, 112, 114, 111, 103, 114, 101, 115, 115];
    assert(tag@ =~= quest_progress_tag());
    let (expected, bump) = match tagged_key_address(tag, authority, program_id) {
        None => {
            return Err(GameStateError::Unauthorized);
        },
        Some(x) => x,
    };
    if !key.same_as(&expected) {
        return Err(GameStateError::Unauthorized);
    }
    if owner.is_zero() {
        return Ok(QuestAccountStep::Create(initialize_quest_progress(*authority, now, bump)));
    }
    if !owner.same_as(program_id) {
        return Err(GameStateError::Unauthorized);
    }
    Ok(QuestAccountStep::Check)
}

/// Checks that a stored quest record belongs to `authority`.
pub fn require_record_authority(record_authority: &Key, authority: &Key) -> (r: Result<(), GameStateError>)
    ensures
        r is Ok <==> record_authority@ == authority@,
        r is Err ==> r == Err::<(), GameStateError>(GameStateError::Unauthorized),
{
    if record_authority.same_as(authority) {
        Ok(())
    } else {
        Err(GameStateError::Unauthorized)
    }
}

} // verus!
