//! Alliances: levels and member limits, membership periods, the treasury's buildings, and the
//! deposit missions that fill the treasury.
use vstd::prelude::*;

use crate::accounts::{AllianceJoinRequest, AllianceMembership, AllianceState, AllianceTreasuryState, AuthorizedVault};
use crate::constants::ANTIMATTER_SCALE;
use crate::error::GameStateError;
use crate::key::Key;
use crate::num::{clamp_u64, div_trunc, sat_mul};
use crate::quests::QuestRequirement;
use crate::vault::{active_vault_check, require_active_vault};

verus! {

/// Members an alliance of level one may have.
pub const BASE_ALLIANCE_MAX_MEMBERS: u16 = 10;
/// Members an alliance may add per level.
pub const ALLIANCE_MEMBERS_PER_LEVEL: u16 = 2;
/// The experience scale of alliance levels.
pub const ALLIANCE_XP_UNIT: u64 = 1_000;
/// The highest level of an alliance building.
pub const ALLIANCE_BUILDING_MAX_LEVEL: u8 = 10;
/// Deposited resource units per point of experience.
pub const ALLIANCE_DEPOSIT_XP_PER_RESOURCE_UNIT: u64 = 1_000;
/// Deposited ANTIMATTER base units per point of experience.
pub const ALLIANCE_DEPOSIT_XP_PER_ANTIMATTER_UNIT: u64 = 1_000_000;
/// Seconds in a day.
pub const SECONDS_PER_DAY: i64 = 86_400;
/// Seconds in a week.
pub const SECONDS_PER_WEEK: i64 = 604_800;
/// Seconds in a thirty-day month.
pub const SECONDS_PER_MONTH: i64 = 2_592_000;

/// The number of the period of kind `period` (1 day, 2 week, otherwise month) that `now` falls in.
pub open spec fn period_epoch(period: u8, now: i64) -> int {
    if period == 1 {
        div_trunc(now as int, SECONDS_PER_DAY as int)
    } else if period == 2 {
        div_trunc(now as int, SECONDS_PER_WEEK as int)
    } else {
        div_trunc(now as int, SECONDS_PER_MONTH as int)
    }
}
/// The role of an alliance's leader.
pub const ALLIANCE_ROLE_LEADER: u8 = 2;
/// The role of an ordinary member.
pub const ALLIANCE_ROLE_MEMBER: u8 = 1;

/// A `u16` product saturated at the largest `u16`.
pub open spec fn sat_mul_u16(a: u16, b: u16) -> u16 {
    if a * b > u16::MAX {
        u16::MAX
    } else {
        (a * b) as u16
    }
}

fn mul_u16_saturating(a: u16, b: u16) -> (r: u16)
    ensures
        r == sat_mul_u16(a, b),
{
    match a.checked_mul(b) {
        Some(v) => v,
        None => u16::MAX,
    }
}

/// How many members an alliance of `level` may have.
pub open spec fn alliance_max_members_spec(level: u16) -> u16 {
    BASE_ALLIANCE_MAX_MEMBERS.saturating_add(sat_mul_u16(level.saturating_sub(1), ALLIANCE_MEMBERS_PER_LEVEL))
}

/// How many members an alliance of `level` may have.
pub fn alliance_max_members(level: u16) -> (r: u16)
    ensures
        r == alliance_max_members_spec(level),
{
    BASE_ALLIANCE_MAX_MEMBERS.saturating_add(mul_u16_saturating(level.saturating_sub(1), ALLIANCE_MEMBERS_PER_LEVEL))
}

/// The experience an alliance needs to reach `level`: `(level - 1) * level * unit / 2`, with
/// the products saturated.
pub open spec fn alliance_level_threshold_spec(level: u16) -> u64 {
    let previous = level.saturating_sub(1) as u64;
    (clamp_u64(clamp_u64(previous * level) * ALLIANCE_XP_UNIT) / 2) as u64
}

/// The experience an alliance needs to reach `level`.
pub fn alliance_level_threshold(level: u16) -> (r: u64)
    ensures
        r == alliance_level_threshold_spec(level),
{
    let previous = level.saturating_sub(1) as u64;
    sat_mul(sat_mul(previous, level as u64), ALLIANCE_XP_UNIT) / 2
}

/// The level an alliance at `level` with `xp` climbs to: one level at a time while the
/// experience reaches the next threshold.
pub open spec fn refreshed_level(level: u16, xp: u64) -> u16
    decreases u16::MAX - level,
{
    if level >= u16::MAX {
        level
    } else if xp < alliance_level_threshold_spec((level + 1) as u16) {
        level
    } else {
        refreshed_level((level + 1) as u16, xp)
    }
}

/// Raises the alliance's level as far as its experience reaches and sets its member limit.
pub fn refresh_alliance_level(alliance: &mut AllianceState)
    ensures
        *final(alliance) == (AllianceState {
            level: refreshed_level(old(alliance).level, old(alliance).xp),
            max_members: alliance_max_members_spec(refreshed_level(old(alliance).level, old(alliance).xp)),
            ..*old(alliance)
        }),
{
    let ghost target = refreshed_level(alliance.level, alliance.xp);
    let mut done = false;
    while !done && alliance.level < u16::MAX
        invariant
            refreshed_level(alliance.level, alliance.xp) == target,
            done ==> alliance.level == target,
            alliance.xp == old(alliance).xp,
            *alliance == (AllianceState { level: alliance.level, ..*old(alliance) }),
        decreases u16::MAX - alliance.level + (if done { 0int } else { 1int }),
    {
        let next = alliance.level + 1;
        if alliance.xp < alliance_level_threshold(next) {
            done = true;
        } else {
            alliance.level = next;
        }
    }
    alliance.max_members = alliance_max_members(alliance.level);
}

/// A membership's claim masks once the day, week and month of `now` are the current ones:
/// the mask of each period that changed is cleared.
pub open spec fn synced_membership(m: AllianceMembership, now: i64) -> AllianceMembership {
    let d = div_trunc(now as int, SECONDS_PER_DAY as int) as i64;
    let w = div_trunc(now as int, SECONDS_PER_WEEK as int) as i64;
    let mo = div_trunc(now as int, SECONDS_PER_MONTH as int) as i64;
    AllianceMembership {
        daily_epoch: d,
        daily_claimed_mask: if m.daily_epoch != d { 0 } else { m.daily_claimed_mask },
        weekly_epoch: w,
        weekly_claimed_mask: if m.weekly_epoch != w { 0 } else { m.weekly_claimed_mask },
        monthly_epoch: mo,
        monthly_claimed_mask: if m.monthly_epoch != mo { 0 } else { m.monthly_claimed_mask },
        ..m
    }
}

/// Moves the membership to the day, week and month of `now`, clearing the claims of each period
/// that changed.
pub fn sync_alliance_periods(membership: &mut AllianceMembership, now: i64)
    ensures
        *final(membership) == synced_membership(*old(membership), now),
{
    let daily = now / SECONDS_PER_DAY;
    let weekly = now / SECONDS_PER_WEEK;
    let monthly = now / SECONDS_PER_MONTH;
    if membership.daily_epoch != daily {
        membership.daily_epoch = daily;
        membership.daily_claimed_mask = 0;
    }
    if membership.weekly_epoch != weekly {
        membership.weekly_epoch = weekly;
        membership.weekly_claimed_mask = 0;
    }
    if membership.monthly_epoch != monthly {
        membership.monthly_epoch = monthly;
        membership.monthly_claimed_mask = 0;
    }
}

/// A new membership of `alliance` for `authority` in `role`, joined at `now`.
pub open spec fn new_membership(authority: Key, alliance: Key, role: u8, now: i64, bump: u8) -> AllianceMembership {
    AllianceMembership {
        authority,
        alliance,
        role,
        joined_at: now,
        daily_epoch: div_trunc(now as int, SECONDS_PER_DAY as int) as i64,
        weekly_epoch: div_trunc(now as int, SECONDS_PER_WEEK as int) as i64,
        monthly_epoch: div_trunc(now as int, SECONDS_PER_MONTH as int) as i64,
        daily_claimed_mask: 0,
        weekly_claimed_mask: 0,
        monthly_claimed_mask: 0,
        bump,
    }
}

/// A new membership of `alliance` for `authority` in `role`, joined at `now`.
pub fn init_alliance_membership(authority: Key, alliance: Key, role: u8, now: i64, bump: u8) -> (m: AllianceMembership)
    ensures
        m == new_membership(authority, alliance, role, now, bump),
{
    AllianceMembership {
        authority,
        alliance,
        role,
        joined_at: now,
        daily_epoch: now / SECONDS_PER_DAY,
        weekly_epoch: now / SECONDS_PER_WEEK,
        monthly_epoch: now / SECONDS_PER_MONTH,
        daily_claimed_mask: 0,
        weekly_claimed_mask: 0,
        monthly_claimed_mask: 0,
        bump,
    }
}

/// An empty treasury of `alliance`.
pub open spec fn empty_treasury(alliance: Key, bump: u8) -> AllianceTreasuryState {
    AllianceTreasuryState {
        alliance,
        metal: 0,
        crystal: 0,
        deuterium: 0,
        antimatter: 0,
        logistics_hub: 0,
        research_grid: 0,
        defense_coordination: 0,
        trade_network: 0,
        total_metal_deposited: 0,
        total_crystal_deposited: 0,
        total_deuterium_deposited: 0,
        total_antimatter_deposited: 0,
        bump,
    }
}

/// An empty treasury of `alliance`.
pub fn initialize_alliance_treasury(alliance: Key, bump: u8) -> (t: AllianceTreasuryState)
    ensures
        t == empty_treasury(alliance, bump),
{
    AllianceTreasuryState {
        alliance,
        metal: 0,
        crystal: 0,
        deuterium: 0,
        antimatter: 0,
        logistics_hub: 0,
        research_grid: 0,
        defense_coordination: 0,
        trade_network: 0,
        total_metal_deposited: 0,
        total_crystal_deposited: 0,
        total_deuterium_deposited: 0,
        total_antimatter_deposited: 0,
        bump,
    }
}

/// Records `authority`'s request to join `alliance` at `now`; refused where the alliance is full.
pub fn request_join_alliance(alliance: &AllianceState, alliance_key: Key, authority: Key, now: i64, bump: u8) -> (r: Result<AllianceJoinRequest, GameStateError>)
    ensures
        alliance.member_count >= alliance.max_members ==> r == Err::<AllianceJoinRequest, GameStateError>(GameStateError::AllianceFull),
        alliance.member_count < alliance.max_members ==> r == Ok::<AllianceJoinRequest, GameStateError>(
            AllianceJoinRequest { applicant: authority, alliance: alliance_key, created_at: now, bump },
        ),
{
    if alliance.member_count >= alliance.max_members {
        return Err(GameStateError::AllianceFull);
    }
    Ok(AllianceJoinRequest { applicant: authority, alliance: alliance_key, created_at: now, bump })
}

/// `request_join_alliance` by a vault acting for `authority`: the delegation is checked first.
pub fn request_join_alliance_vault(
    alliance: &AllianceState,
    alliance_key: Key,
    authority: Key,
    vault_signer: Key,
    authorized_vault: &AuthorizedVault,
    now: i64,
    bump: u8,
) -> (r: Result<AllianceJoinRequest, GameStateError>)
    ensures
        match active_vault_check(vault_signer@, *authorized_vault, authority@, now) {
            Err(e) => r == Err::<AllianceJoinRequest, GameStateError>(e),
            Ok(_) => {
                &&& alliance.member_count >= alliance.max_members ==> r == Err::<AllianceJoinRequest, GameStateError>(
                    GameStateError::AllianceFull,
                )
                &&& alliance.member_count < alliance.max_members ==> r == Ok::<AllianceJoinRequest, GameStateError>(
                    AllianceJoinRequest { applicant: authority, alliance: alliance_key, created_at: now, bump },
                )
            },
        },
{
    if let Err(e) = require_active_vault(vault_signer, authorized_vault, authority, now) {
        return Err(e);
    }
    request_join_alliance(alliance, alliance_key, authority, now, bump)
}

/// `initialize_alliance_treasury` by a vault acting for `authority`: the delegation is checked
/// first.
pub fn initialize_alliance_treasury_vault(
    alliance: Key,
    authority: Key,
    vault_signer: Key,
    authorized_vault: &AuthorizedVault,
    now: i64,
    bump: u8,
) -> (r: Result<AllianceTreasuryState, GameStateError>)
    ensures
        match active_vault_check(vault_signer@, *authorized_vault, authority@, now) {
            Err(e) => r == Err::<AllianceTreasuryState, GameStateError>(e),
            Ok(_) => r == Ok::<AllianceTreasuryState, GameStateError>(empty_treasury(alliance, bump)),
        },
{
    if let Err(e) = require_active_vault(vault_signer, authorized_vault, authority, now) {
        return Err(e);
    }
    Ok(initialize_alliance_treasury(alliance, bump))
}

/// Admits `applicant`: the alliance gains a member and the applicant a membership; refused
/// where the alliance is full.
pub fn approve_join_request(
    alliance: &mut AllianceState,
    alliance_key: Key,
    applicant: Key,
    now: i64,
    bump: u8,
) -> (r: Result<AllianceMembership, GameStateError>)
    ensures
        old(alliance).member_count >= old(alliance).max_members ==> r == Err::<AllianceMembership, GameStateError>(GameStateError::AllianceFull)
            && *final(alliance) == *old(alliance),
        old(alliance).member_count < old(alliance).max_members ==> r == Ok::<AllianceMembership, GameStateError>(
            new_membership(applicant, alliance_key, ALLIANCE_ROLE_MEMBER, now, bump),
        ) && *final(alliance) == (AllianceState { member_count: (old(alliance).member_count + 1) as u16, ..*old(alliance) }),
{
    if alliance.member_count >= alliance.max_members {
        return Err(GameStateError::AllianceFull);
    }
    alliance.member_count = alliance.member_count + 1;
    Ok(init_alliance_membership(applicant, alliance_key, ALLIANCE_ROLE_MEMBER, now, bump))
}

/// Removes `target` from the alliance at its leader's request; the leader cannot remove itself.
pub fn expel_alliance_member(alliance: &mut AllianceState, leader: Key, target: Key) -> (r: Result<(), GameStateError>)
    ensures
        leader@ == target@ ==> r == Err::<(), GameStateError>(GameStateError::CannotExpelAllianceLeader) && *final(alliance) == *old(alliance),
        leader@ != target@ ==> r == Ok::<(), GameStateError>(()) && *final(alliance) == (AllianceState {
            member_count: old(alliance).member_count.saturating_sub(1),
            ..*old(alliance)
        }),
{
    if leader.same_as(&target) {
        return Err(GameStateError::CannotExpelAllianceLeader);
    }
    alliance.member_count = alliance.member_count.saturating_sub(1);
    Ok(())
}

/// Hands the lead of the alliance from `leader` to `new_leader`.
pub fn transfer_alliance_leadership(
    alliance: &mut AllianceState,
    leader_membership: &mut AllianceMembership,
    new_leader_membership: &mut AllianceMembership,
    leader: Key,
    new_leader: Key,
) -> (r: Result<(), GameStateError>)
    ensures
        leader@ == new_leader@ ==> r == Err::<(), GameStateError>(GameStateError::InvalidAllianceMember)
            && *final(alliance) == *old(alliance) && *final(leader_membership) == *old(leader_membership)
            && *final(new_leader_membership) == *old(new_leader_membership),
        leader@ != new_leader@ ==> r == Ok::<(), GameStateError>(())
            && *final(alliance) == (AllianceState { founder: new_leader, ..*old(alliance) })
            && *final(leader_membership) == (AllianceMembership { role: ALLIANCE_ROLE_MEMBER, ..*old(leader_membership) })
            && *final(new_leader_membership) == (AllianceMembership { role: ALLIANCE_ROLE_LEADER, ..*old(new_leader_membership) }),
{
    if leader.same_as(&new_leader) {
        return Err(GameStateError::InvalidAllianceMember);
    }
    leader_membership.role = ALLIANCE_ROLE_MEMBER;
    new_leader_membership.role = ALLIANCE_ROLE_LEADER;
    alliance.founder = new_leader;
    Ok(())
}

/// Leaves the alliance; its leader cannot leave.
pub fn leave_alliance(alliance: &mut AllianceState, membership: &AllianceMembership) -> (r: Result<(), GameStateError>)
    ensures
        membership.role == ALLIANCE_ROLE_LEADER ==> r == Err::<(), GameStateError>(GameStateError::AllianceFounderCannotLeave)
            && *final(alliance) == *old(alliance),
        membership.role != ALLIANCE_ROLE_LEADER ==> r == Ok::<(), GameStateError>(()) && *final(alliance) == (AllianceState {
            member_count: old(alliance).member_count.saturating_sub(1),
            ..*old(alliance)
        }),
{
    if membership.role == ALLIANCE_ROLE_LEADER {
        return Err(GameStateError::AllianceFounderCannotLeave);
    }
    alliance.member_count = alliance.member_count.saturating_sub(1);
    Ok(())
}

/// `value` raised by `bps` basis points, saturated.
pub open spec fn bps_bonus(value: u64, bps: u64) -> u64 {
    value.saturating_add((clamp_u64(value * bps) / 10_000) as u64)
}

/// `value` raised by `bps` basis points, saturated.
pub fn apply_bps_bonus(value: u64, bps: u64) -> (r: u64)
    ensures
        r == bps_bonus(value, bps),
{
    value.saturating_add(sat_mul(value, bps) / 10_000)
}

/// `value` lowered by `bps` basis points (at most ninety percent), but never below one unless
/// it was zero.
pub open spec fn bps_discount(value: u64, bps: u64) -> u64 {
    if value == 0 || bps == 0 {
        value
    } else {
        let capped: u64 = if bps < 9_000 { bps } else { 9_000 };
        let discount = clamp_u64(value * capped) / 10_000;
        let reduced = value.saturating_sub(discount as u64);
        if reduced > 1 { reduced } else { 1 }
    }
}

/// `value` lowered by `bps` basis points, at most ninety percent, never below one.
pub fn apply_bps_discount(value: u64, bps: u64) -> (r: u64)
    ensures
        r == bps_discount(value, bps),
{
    if value == 0 || bps == 0 {
        return value;
    }
    let capped: u64 = if bps < 9_000 { bps } else { 9_000 };
    let discount = sat_mul(value, capped) / 10_000;
    let reduced = value.saturating_sub(discount);
    if reduced > 1 { reduced } else { 1 }
}

/// The level of treasury building `building_id` (logistics hub, research grid, defense
/// coordination, trade network), if there is one.
pub open spec fn building_level_spec(t: AllianceTreasuryState, building_id: u8) -> Option<u8> {
    match building_id {
        0 => Some(t.logistics_hub),
        1 => Some(t.research_grid),
        2 => Some(t.defense_coordination),
        3 => Some(t.trade_network),
        _ => None,
    }
}

/// The level of treasury building `building_id`; refused for an unknown building.
pub fn alliance_building_level(treasury: &AllianceTreasuryState, building_id: u8) -> (r: Result<u8, GameStateError>)
    ensures
        match building_level_spec(*treasury, building_id) {
            Some(l) => r == Ok::<u8, GameStateError>(l),
            None => r == Err::<u8, GameStateError>(GameStateError::InvalidAllianceBuilding),
        },
{
    match building_id {
        0 => Ok(treasury.logistics_hub),
        1 => Ok(treasury.research_grid),
        2 => Ok(treasury.defense_coordination),
        3 => Ok(treasury.trade_network),
        _ => Err(GameStateError::InvalidAllianceBuilding),
    }
}

/// The treasury with building `building_id` at `level`.
pub open spec fn with_building_level(t: AllianceTreasuryState, building_id: u8, level: u8) -> AllianceTreasuryState {
    match building_id {
        0 => AllianceTreasuryState { logistics_hub: level, ..t },
        1 => AllianceTreasuryState { research_grid: level, ..t },
        2 => AllianceTreasuryState { defense_coordination: level, ..t },
        _ => AllianceTreasuryState { trade_network: level, ..t },
    }
}

/// Sets treasury building `building_id` to `level`; refused for an unknown building.
pub fn set_alliance_building_level(treasury: &mut AllianceTreasuryState, building_id: u8, level: u8) -> (r: Result<(), GameStateError>)
    ensures
        building_id <= 3 ==> r == Ok::<(), GameStateError>(()) && *final(treasury) == with_building_level(*old(treasury), building_id, level),
        building_id > 3 ==> r == Err::<(), GameStateError>(GameStateError::InvalidAllianceBuilding) && *final(treasury) == *old(treasury),
{
    match building_id {
        0 => treasury.logistics_hub = level,
        1 => treasury.research_grid = level,
        2 => treasury.defense_coordination = level,
        3 => treasury.trade_network = level,
        _ => {
            return Err(GameStateError::InvalidAllianceBuilding);
        },
    }
    Ok(())
}

/// The experience bonus, in basis points, of the logistics hub.
pub fn alliance_logistics_xp_bonus_bps(treasury: &AllianceTreasuryState) -> (r: u64)
    ensures
        r == treasury.logistics_hub * 500,
{
    treasury.logistics_hub as u64 * 500
}

/// The experience bonus, in basis points, of the research grid.
pub fn alliance_research_grid_xp_bonus_bps(treasury: &AllianceTreasuryState) -> (r: u64)
    ensures
        r == treasury.research_grid * 500,
{
    treasury.research_grid as u64 * 500
}

/// The cost discount, in basis points, of the trade network.
pub fn alliance_trade_cost_discount_bps(treasury: &AllianceTreasuryState) -> (r: u64)
    ensures
        r == treasury.trade_network * 300,
{
    treasury.trade_network as u64 * 300
}

/// The deuterium discount, in basis points, of the defense coordination.
pub fn alliance_defense_deuterium_discount_bps(treasury: &AllianceTreasuryState) -> (r: u64)
    ensures
        r == treasury.defense_coordination * 400,
{
    treasury.defense_coordination as u64 * 400
}

/// An upgrade's cost after the treasury's discounts: the trade network lowers metal, crystal and
/// ANTIMATTER, the defense coordination lowers deuterium.
pub open spec fn discounted_cost(metal: u64, crystal: u64, deuterium: u64, antimatter: u64, t: AllianceTreasuryState) -> (u64, u64, u64, u64) {
    let trade = (t.trade_network * 300) as u64;
    let defense = (t.defense_coordination * 400) as u64;
    (
        bps_discount(metal, trade),
        bps_discount(crystal, trade),
        bps_discount(deuterium, defense),
        bps_discount(antimatter, trade),
    )
}

/// An upgrade's cost after the treasury's discounts.
pub fn apply_alliance_upgrade_discounts(
    metal: u64,
    crystal: u64,
    deuterium: u64,
    antimatter: u64,
    treasury: &AllianceTreasuryState,
) -> (r: (u64, u64, u64, u64))
    ensures
        r == discounted_cost(metal, crystal, deuterium, antimatter, *treasury),
{
    let trade = alliance_trade_cost_discount_bps(treasury);
    let defense = alliance_defense_deuterium_discount_bps(treasury);
    (
        apply_bps_discount(metal, trade),
        apply_bps_discount(crystal, trade),
        apply_bps_discount(deuterium, defense),
        apply_bps_discount(antimatter, trade),
    )
}

/// The metal, crystal, deuterium, ANTIMATTER and experience of raising treasury building
/// `building_id` to `next_level`: resources grow with the square of the level, ANTIMATTER and
/// experience with the level.
pub open spec fn building_cost_spec(building_id: u8, next_level: u8) -> Option<(u64, u64, u64, u64, u64)> {
    let level = next_level as u64;
    let scale = (level * level) as u64;
    let (m, c, d, a, x): (int, int, int, int, int) = match building_id {
        0 => (5_000, 2_000, 1_000, 50, 250),
        1 => (2_000, 5_000, 2_000, 75, 300),
        2 => (4_000, 4_000, 1_500, 60, 275),
        _ => (3_000, 3_000, 3_000, 100, 350),
    };
    if building_id > 3 {
        None
    } else {
        Some((
            clamp_u64(m * scale),
            clamp_u64(c * scale),
            clamp_u64(d * scale),
            clamp_u64(clamp_u64(a * level) * ANTIMATTER_SCALE),
            clamp_u64(x * level),
        ))
    }
}

/// The cost and experience of raising treasury building `building_id` to `next_level`;
/// refused for an unknown building.
pub fn alliance_building_cost(building_id: u8, next_level: u8) -> (r: Result<(u64, u64, u64, u64, u64), GameStateError>)
    ensures
        match building_cost_spec(building_id, next_level) {
            Some(c) => r == Ok::<(u64, u64, u64, u64, u64), GameStateError>(c),
            None => r == Err::<(u64, u64, u64, u64, u64), GameStateError>(GameStateError::InvalidAllianceBuilding),
        },
{
    let level = next_level as u64;
    assert(level * level <= 255 * 255) by (nonlinear_arith)
        requires
            level <= 255,
    ;
    let scale = level * level;
    let (m, c, d, a, x): (u64, u64, u64, u64, u64) = match building_id {
        0 => (5_000, 2_000, 1_000, 50, 250),
        1 => (2_000, 5_000, 2_000, 75, 300),
        2 => (4_000, 4_000, 1_500, 60, 275),
        3 => (3_000, 3_000, 3_000, 100, 350),
        _ => {
            return Err(GameStateError::InvalidAllianceBuilding);
        },
    };
    Ok((sat_mul(m, scale), sat_mul(c, scale), sat_mul(d, scale), sat_mul(sat_mul(a, level), ANTIMATTER_SCALE), sat_mul(x, level)))
}

/// What raising treasury building `building_id` by one level does to the treasury and the
/// alliance, with the outcome: only the leader may, the building must be below the top level,
/// and the treasury must hold the discounted cost; the alliance gains the building's experience,
/// raised by the research grid.
pub open spec fn upgrade_building_spec(
    alliance: AllianceState,
    treasury: AllianceTreasuryState,
    role: u8,
    building_id: u8,
) -> (AllianceState, AllianceTreasuryState, Result<(), GameStateError>) {
    if role != ALLIANCE_ROLE_LEADER {
        (alliance, treasury, Err(GameStateError::AllianceLeaderRequired))
    } else {
        match building_level_spec(treasury, building_id) {
            None => (alliance, treasury, Err(GameStateError::InvalidAllianceBuilding)),
            Some(current) => if current >= ALLIANCE_BUILDING_MAX_LEVEL {
                (alliance, treasury, Err(GameStateError::InvalidAllianceBuilding))
            } else {
                let next = (current + 1) as u8;
                let (m0, c0, d0, a0, base_xp) = building_cost_spec(building_id, next)->Some_0;
                let (m, c, d, a) = discounted_cost(m0, c0, d0, a0, treasury);
                let xp = bps_bonus(base_xp, (treasury.research_grid * 500) as u64);
                if !(treasury.metal >= m && treasury.crystal >= c && treasury.deuterium >= d && treasury.antimatter >= a) {
                    (alliance, treasury, Err(GameStateError::AllianceTreasuryNotEnoughResources))
                } else {
                    let paid = AllianceTreasuryState {
                        metal: (treasury.metal - m) as u64,
                        crystal: (treasury.crystal - c) as u64,
                        deuterium: (treasury.deuterium - d) as u64,
                        antimatter: (treasury.antimatter - a) as u64,
                        ..treasury
                    };
                    let gained = AllianceState { xp: alliance.xp.saturating_add(xp), ..alliance };
                    (
                        AllianceState {
                            level: refreshed_level(gained.level, gained.xp),
                            max_members: alliance_max_members_spec(refreshed_level(gained.level, gained.xp)),
                            ..gained
                        },
                        with_building_level(paid, building_id, next),
                        Ok(()),
                    )
                }
            },
        }
    }
}

/// The leader raises treasury building `building_id` by one level, paying from the treasury.
/// On an error nothing changes.
pub fn upgrade_alliance_building(
    alliance: &mut AllianceState,
    treasury: &mut AllianceTreasuryState,
    membership: &AllianceMembership,
    building_id: u8,
) -> (r: Result<(), GameStateError>)
    ensures
        (*final(alliance), *final(treasury), r) == upgrade_building_spec(*old(alliance), *old(treasury), membership.role, building_id),
{
    if membership.role != ALLIANCE_ROLE_LEADER {
        return Err(GameStateError::AllianceLeaderRequired);
    }
    let current = match alliance_building_level(treasury, building_id) {
        Ok(l) => l,
        Err(e) => {
            return Err(e);
        },
    };
    if current >= ALLIANCE_BUILDING_MAX_LEVEL {
        return Err(GameStateError::InvalidAllianceBuilding);
    }
    let next = current + 1;
    let (m0, c0, d0, a0, base_xp) = match alliance_building_cost(building_id, next) {
        Ok(c) => c,
        Err(e) => {
            return Err(e);
        },
    };
    let (m, c, d, a) = apply_alliance_upgrade_discounts(m0, c0, d0, a0, treasury);
    let xp = apply_bps_bonus(base_xp, alliance_research_grid_xp_bonus_bps(treasury));
    if !(treasury.metal >= m && treasury.crystal >= c && treasury.deuterium >= d && treasury.antimatter >= a) {
        return Err(GameStateError::AllianceTreasuryNotEnoughResources);
    }
    treasury.metal = treasury.metal - m;
    treasury.crystal = treasury.crystal - c;
    treasury.deuterium = treasury.deuterium - d;
    treasury.antimatter = treasury.antimatter - a;
    let _ = set_alliance_building_level(treasury, building_id, next);
    alliance.xp = alliance.xp.saturating_add(xp);
    refresh_alliance_level(alliance);
    Ok(())
}

/// A mission of the alliance's requirement catalog: what it asks of a member planet and the
/// experience it grants.
#[derive(Clone, Copy, Debug)]
pub struct AllianceMissionEntry {
    pub req: QuestRequirement,
    pub xp: u64,
}

/// The requirement missions of the day (`period` 1), week (2) and month (3), twelve each.
pub open spec fn alliance_mission_spec(period: u8, mission_id: u8) -> Option<AllianceMissionEntry> {
    match (period, mission_id) {
        (1, 0) => Some(AllianceMissionEntry { req: QuestRequirement::MetalMine(3), xp: 80 }),
        (1, 1) => Some(AllianceMissionEntry { req: QuestRequirement::CrystalMine(3), xp: 80 }),
        (1, 2) => Some(AllianceMissionEntry { req: QuestRequirement::DeuteriumSynthesizer(2), xp: 90 }),
        (1, 3) => Some(AllianceMissionEntry { req: QuestRequirement::SolarPlant(4), xp: 80 }),
        (1, 4) => Some(AllianceMissionEntry { req: QuestRequirement::RoboticsFactory(1), xp: 90 }),
        (1, 5) => Some(AllianceMissionEntry { req: QuestRequirement::Shipyard(2), xp: 110 }),
        (1, 6) => Some(AllianceMissionEntry { req: QuestRequirement::ResearchLab(1), xp: 100 }),
        (1, 7) => Some(AllianceMissionEntry { req: QuestRequirement::Ships(3), xp: 120 }),
        (1, 8) => Some(AllianceMissionEntry { req: QuestRequirement::Defenses(3), xp: 110 }),
        (1, 9) => Some(AllianceMissionEntry { req: QuestRequirement::SmallCargo(1), xp: 110 }),
        (1, 10) => Some(AllianceMissionEntry { req: QuestRequirement::EnergyTech(1), xp: 100 }),
        (1, 11) => Some(AllianceMissionEntry { req: QuestRequirement::ComputerTech(1), xp: 120 }),
        (2, 0) => Some(AllianceMissionEntry { req: QuestRequirement::MetalMine(6), xp: 350 }),
        (2, 1) => Some(AllianceMissionEntry { req: QuestRequirement::CrystalMine(6), xp: 350 }),
        (2, 2) => Some(AllianceMissionEntry { req: QuestRequirement::DeuteriumSynthesizer(5), xp: 380 }),
        (2, 3) => Some(AllianceMissionEntry { req: QuestRequirement::MetalStorage(2), xp: 320 }),
        (2, 4) => Some(AllianceMissionEntry { req: QuestRequirement::CrystalStorage(2), xp: 320 }),
        (2, 5) => Some(AllianceMissionEntry { req: QuestRequirement::DeuteriumTank(2), xp: 340 }),
        (2, 6) => Some(AllianceMissionEntry { req: QuestRequirement::CombustionDrive(2), xp: 380 }),
        (2, 7) => Some(AllianceMissionEntry { req: QuestRequirement::ImpulseDrive(1), xp: 450 }),
        (2, 8) => Some(AllianceMissionEntry { req: QuestRequirement::Ships(10), xp: 430 }),
        (2, 9) => Some(AllianceMissionEntry { req: QuestRequirement::Defenses(10), xp: 420 }),
        (2, 10) => Some(AllianceMissionEntry { req: QuestRequirement::EspionageProbe(3), xp: 360 }),
        (2, 11) => Some(AllianceMissionEntry { req: QuestRequirement::Recycler(1), xp: 420 }),
        (3, 0) => Some(AllianceMissionEntry { req: QuestRequirement::MetalMine(12), xp: 1_200 }),
        (3, 1) => Some(AllianceMissionEntry { req: QuestRequirement::CrystalMine(12), xp: 1_200 }),
        (3, 2) => Some(AllianceMissionEntry { req: QuestRequirement::DeuteriumSynthesizer(10), xp: 1_300 }),
        (3, 3) => Some(AllianceMissionEntry { req: QuestRequirement::SolarPlant(14), xp: 1_100 }),
        (3, 4) => Some(AllianceMissionEntry { req: QuestRequirement::ResearchLab(5), xp: 1_400 }),
        (3, 5) => Some(AllianceMissionEntry { req: QuestRequirement::Shipyard(5), xp: 1_350 }),
        (3, 6) => Some(AllianceMissionEntry { req: QuestRequirement::ComputerTech(5), xp: 1_500 }),
        (3, 7) => Some(AllianceMissionEntry { req: QuestRequirement::Astrophysics(1), xp: 1_500 }),
        (3, 8) => Some(AllianceMissionEntry { req: QuestRequirement::ColonyShip(1), xp: 1_600 }),
        (3, 9) => Some(AllianceMissionEntry { req: QuestRequirement::Battleship(1), xp: 1_700 }),
        (3, 10) => Some(AllianceMissionEntry { req: QuestRequirement::Ships(50), xp: 1_650 }),
        (3, 11) => Some(AllianceMissionEntry { req: QuestRequirement::Defenses(50), xp: 1_550 }),
        _ => None,
    }
}

/// Mission `mission_id` of `period` in the requirement catalog; refused for an unknown one.
pub fn alliance_mission(period: u8, mission_id: u8) -> (r: Result<AllianceMissionEntry, GameStateError>)
    ensures
        match alliance_mission_spec(period, mission_id) {
            Some(m) => r == Ok::<AllianceMissionEntry, GameStateError>(m),
            None => r == Err::<AllianceMissionEntry, GameStateError>(GameStateError::InvalidAllianceMission),
        },
{
    match (period, mission_id) {
        (1, 0) => Ok(AllianceMissionEntry { req: QuestRequirement::MetalMine(3), xp: 80 }),
        (1, 1) => Ok(AllianceMissionEntry { req: QuestRequirement::CrystalMine(3), xp: 80 }),
        (1, 2) => Ok(AllianceMissionEntry { req: QuestRequirement::DeuteriumSynthesizer(2), xp: 90 }),
        (1, 3) => Ok(AllianceMissionEntry { req: QuestRequirement::SolarPlant(4), xp: 80 }),
        (1, 4) => Ok(AllianceMissionEntry { req: QuestRequirement::RoboticsFactory(1), xp: 90 }),
        (1, 5) => Ok(AllianceMissionEntry { req: QuestRequirement::Shipyard(2), xp: 110 }),
        (1, 6) => Ok(AllianceMissionEntry { req: QuestRequirement::ResearchLab(1), xp: 100 }),
        (1, 7) => Ok(AllianceMissionEntry { req: QuestRequirement::Ships(3), xp: 120 }),
        (1, 8) => Ok(AllianceMissionEntry { req: QuestRequirement::Defenses(3), xp: 110 }),
        (1, 9) => Ok(AllianceMissionEntry { req: QuestRequirement::SmallCargo(1), xp: 110 }),
        (1, 10) => Ok(AllianceMissionEntry { req: QuestRequirement::EnergyTech(1), xp: 100 }),
        (1, 11) => Ok(AllianceMissionEntry { req: QuestRequirement::ComputerTech(1), xp: 120 }),
        (2, 0) => Ok(AllianceMissionEntry { req: QuestRequirement::MetalMine(6), xp: 350 }),
        (2, 1) => Ok(AllianceMissionEntry { req: QuestRequirement::CrystalMine(6), xp: 350 }),
        (2, 2) => Ok(AllianceMissionEntry { req: QuestRequirement::DeuteriumSynthesizer(5), xp: 380 }),
        (2, 3) => Ok(AllianceMissionEntry { req: QuestRequirement::MetalStorage(2), xp: 320 }),
        (2, 4) => Ok(AllianceMissionEntry { req: QuestRequirement::CrystalStorage(2), xp: 320 }),
        (2, 5) => Ok(AllianceMissionEntry { req: QuestRequirement::DeuteriumTank(2), xp: 340 }),
        (2, 6) => Ok(AllianceMissionEntry { req: QuestRequirement::CombustionDrive(2), xp: 380 }),
        (2, 7) => Ok(AllianceMissionEntry { req: QuestRequirement::ImpulseDrive(1), xp: 450 }),
        (2, 8) => Ok(AllianceMissionEntry { req: QuestRequirement::Ships(10), xp: 430 }),
        (2, 9) => Ok(AllianceMissionEntry { req: QuestRequirement::Defenses(10), xp: 420 }),
        (2, 10) => Ok(AllianceMissionEntry { req: QuestRequirement::EspionageProbe(3), xp: 360 }),
        (2, 11) => Ok(AllianceMissionEntry { req: QuestRequirement::Recycler(1), xp: 420 }),
        (3, 0) => Ok(AllianceMissionEntry { req: QuestRequirement::MetalMine(12), xp: 1_200 }),
        (3, 1) => Ok(AllianceMissionEntry { req: QuestRequirement::CrystalMine(12), xp: 1_200 }),
        (3, 2) => Ok(AllianceMissionEntry { req: QuestRequirement::DeuteriumSynthesizer(10), xp: 1_300 }),
        (3, 3) => Ok(AllianceMissionEntry { req: QuestRequirement::SolarPlant(14), xp: 1_100 }),
        (3, 4) => Ok(AllianceMissionEntry { req: QuestRequirement::ResearchLab(5), xp: 1_400 }),
        (3, 5) => Ok(AllianceMissionEntry { req: QuestRequirement::Shipyard(5), xp: 1_350 }),
        (3, 6) => Ok(AllianceMissionEntry { req: QuestRequirement::ComputerTech(5), xp: 1_500 }),
        (3, 7) => Ok(AllianceMissionEntry { req: QuestRequirement::Astrophysics(1), xp: 1_500 }),
        (3, 8) => Ok(AllianceMissionEntry { req: QuestRequirement::ColonyShip(1), xp: 1_600 }),
        (3, 9) => Ok(AllianceMissionEntry { req: QuestRequirement::Battleship(1), xp: 1_700 }),
        (3, 10) => Ok(AllianceMissionEntry { req: QuestRequirement::Ships(50), xp: 1_650 }),
        (3, 11) => Ok(AllianceMissionEntry { req: QuestRequirement::Defenses(50), xp: 1_550 }),
        _ => Err(GameStateError::InvalidAllianceMission),
    }
}

/// Alliance missions cannot be claimed directly; the deposit missions replace them.
pub fn claim_alliance_mission(period: u8, mission_id: u8) -> (r: Result<(), GameStateError>)
    ensures
        r == Err::<(), GameStateError>(GameStateError::InvalidAllianceMission),
{
    Err(GameStateError::InvalidAllianceMission)
}

/// Joining an alliance directly is disabled; a player asks to join and the leader admits.
pub fn join_alliance() -> (r: Result<(), GameStateError>)
    ensures
        r == Err::<(), GameStateError>(GameStateError::DirectAllianceJoinDisabled),
{
    Err(GameStateError::DirectAllianceJoinDisabled)
}

} // verus!
