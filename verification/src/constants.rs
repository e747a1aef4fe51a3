//! Numeric rules of the game shared by every module.
use vstd::prelude::*;

verus! {

pub const MAX_PLANET_NAME_LEN: usize = 32;
pub const MAX_MISSION_COLONY_NAME_LEN: usize = 32;
pub const MAX_MISSIONS: usize = 4;

pub const MISSION_ATTACK: u8 = 1;
pub const MISSION_TRANSPORT: u8 = 2;
pub const MISSION_COLONIZE: u8 = 5;
pub const MISSION_ESPIONAGE: u8 = 6;

pub const ANTIMATTER_DECIMALS: u8 = 6;
pub const ANTIMATTER_SCALE: u64 = 1_000_000;

/// Capacity of a storage building at level zero.
pub const BASE_STORAGE_CAP: u64 = 10_000;
/// Longest stretch of production that one settlement credits.
pub const MAX_RESOURCE_SETTLEMENT_SECONDS: i64 = 604_800;
/// Protection that a newly created planet enjoys against attacks.
pub const NEW_PLAYER_PROTECTION_SECONDS: i64 = 604_800;
/// Minimal spacing between two attack launches from one planet.
pub const ATTACK_LAUNCH_COOLDOWN_SECONDS: i64 = 3_600;
/// Minimal spacing between two attacks landing on one planet.
pub const TARGET_ATTACK_COOLDOWN_SECONDS: i64 = 3_600;
/// Combat points an attacking fleet must reach.
pub const MIN_ATTACK_COMBAT_POINTS: u64 = 500;
/// Number of volley exchanges a battle lasts at most.
pub const MAX_COMBAT_ROUNDS: u8 = 6;

/// Queue sentinel meaning that no item is queued.
pub const QUEUE_IDLE: u8 = 255;

} // verus!
