//! The game's per-player, per-alliance and global records.
use vstd::prelude::*;

use crate::key::Key;

verus! {

/// A player's profile: who owns it and how many planets were created for it.
#[derive(Clone, Copy, Debug)]
pub struct PlayerProfile {
    pub authority: Key,
    pub planet_count: u32,
    pub bump: u8,
}

/// A delegation that lets a vault key act for a player.
#[derive(Clone, Copy, Debug)]
pub struct AuthorizedVault {
    pub authority: Key,
    pub vault: Key,
    pub expires_at: i64,
    pub revoked: bool,
    pub bump: u8,
}

/// The game's global settings.
#[derive(Clone, Copy, Debug)]
pub struct GameConfig {
    pub admin: Key,
    pub antimatter_mint: Key,
    pub bump: u8,
}

/// The store's settings.
#[derive(Clone, Copy, Debug)]
pub struct StoreConfig {
    pub admin: Key,
    pub usdc_mint: Key,
    pub treasury_usdc_account: Key,
    pub enabled: bool,
    pub bump: u8,
}

/// Which store packs a player bought in the current day, week and month.
#[derive(Clone, Copy, Debug)]
pub struct StorePurchaseState {
    pub authority: Key,
    pub daily_epoch: i64,
    pub weekly_epoch: i64,
    pub monthly_epoch: i64,
    pub daily_purchased_mask: u64,
    pub weekly_purchased_mask: u64,
    pub monthly_purchased_mask: u64,
    pub last_updated_ts: i64,
    pub bump: u8,
}

/// An alliance: its founder, name, level and members.
#[derive(Clone, Copy, Debug)]
pub struct AllianceState {
    pub founder: Key,
    pub name: [u8; 32],
    pub level: u16,
    pub xp: u64,
    pub member_count: u16,
    pub max_members: u16,
    pub total_missions_completed: u64,
    pub created_at: i64,
    pub bump: u8,
}

/// An alliance's shared stock and the levels of its buildings.
#[derive(Clone, Copy, Debug)]
pub struct AllianceTreasuryState {
    pub alliance: Key,
    pub metal: u64,
    pub crystal: u64,
    pub deuterium: u64,
    pub antimatter: u64,
    pub logistics_hub: u8,
    pub research_grid: u8,
    pub defense_coordination: u8,
    pub trade_network: u8,
    pub total_metal_deposited: u64,
    pub total_crystal_deposited: u64,
    pub total_deuterium_deposited: u64,
    pub total_antimatter_deposited: u64,
    pub bump: u8,
}

/// A player's membership of an alliance, with the alliance missions claimed this period.
#[derive(Clone, Copy, Debug)]
pub struct AllianceMembership {
    pub authority: Key,
    pub alliance: Key,
    pub role: u8,
    pub joined_at: i64,
    pub daily_epoch: i64,
    pub weekly_epoch: i64,
    pub monthly_epoch: i64,
    pub daily_claimed_mask: u64,
    pub weekly_claimed_mask: u64,
    pub monthly_claimed_mask: u64,
    pub bump: u8,
}

/// A player's request to join an alliance.
#[derive(Clone, Copy, Debug)]
pub struct AllianceJoinRequest {
    pub applicant: Key,
    pub alliance: Key,
    pub created_at: i64,
    pub bump: u8,
}

/// A player's quest claims and daily check-ins.
#[derive(Clone, Copy, Debug)]
pub struct QuestState {
    pub authority: Key,
    pub tutorial_claimed_mask: u64,
    pub daily_epoch: i64,
    pub weekly_epoch: i64,
    pub monthly_epoch: i64,
    pub daily_claimed_mask: u64,
    pub weekly_claimed_mask: u64,
    pub monthly_claimed_mask: u64,
    pub daily_checkin_day: i64,
    pub daily_checkin_streak: u16,
    pub total_checkins: u32,
    pub last_updated_ts: i64,
    pub bump: u8,
}

/// A player's counts of quest-relevant actions in the current day, week and month.
#[derive(Clone, Copy, Debug)]
pub struct QuestProgressState {
    pub authority: Key,
    pub daily_epoch: i64,
    pub weekly_epoch: i64,
    pub monthly_epoch: i64,
    pub daily_store_packs_bought: u32,
    pub weekly_store_packs_bought: u32,
    pub monthly_store_packs_bought: u32,
    pub daily_antimatter_spent: u64,
    pub weekly_antimatter_spent: u64,
    pub monthly_antimatter_spent: u64,
    pub daily_planets_colonized: u32,
    pub weekly_planets_colonized: u32,
    pub monthly_planets_colonized: u32,
    pub daily_attacks_resolved: u32,
    pub weekly_attacks_resolved: u32,
    pub monthly_attacks_resolved: u32,
    pub daily_transports_resolved: u32,
    pub weekly_transports_resolved: u32,
    pub monthly_transports_resolved: u32,
    pub daily_spy_missions_resolved: u32,
    pub weekly_spy_missions_resolved: u32,
    pub monthly_spy_missions_resolved: u32,
    pub last_updated_ts: i64,
    pub bump: u8,
}

} // verus!
