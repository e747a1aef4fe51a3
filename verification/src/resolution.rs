//! Resolving a fleet mission on behalf of a player: the slot is checked, the mission is
//! resolved, and an arrival (not a homecoming) is counted in the player's quest progress.
//!
//! Every function here mutates the planets it is handed; when it answers `Err`, nothing it
//! changed is meant to be stored.
use vstd::prelude::*;

use crate::accounts::{AuthorizedVault, QuestProgressState};
use crate::attack::{resolve_attack_planets, resolve_attack_spec};
use crate::constants::MAX_MISSIONS;
use crate::economy::settle_fits;
use crate::error::GameStateError;
use crate::espionage::{resolve_espionage_planets, resolve_espionage_spec};
use crate::key::Key;
use crate::missions::{
    resolve_transport_empty_slot, resolve_transport_empty_spec, resolve_transport_planets,
    resolve_transport_spec, transport_empty_settles, transport_settles_destination, transport_settles_source,
};
use crate::planet::{PlanetCoordinates, PlanetState};
use crate::quest_claims::{
    counted, progress_record_check, record_quest_progress, synced_progress,
    validate_quest_progress_pda, QuestProgressMetric,
};
use crate::vault::{active_vault_check, require_active_vault};

verus! {

/// A progress record as the caller found it: its address, its size and what it holds.
#[derive(Clone, Copy, Debug)]
pub struct ProgressRecord {
    pub key: Key,
    pub data_len: usize,
    pub state: QuestProgressState,
}

/// What counting `amount` of `metric` for `authority` at `now` yields: nothing to store when
/// no record was given, else the checked record, moved to the periods of `now` and counted.
pub open spec fn progress_update(
    record: Option<ProgressRecord>,
    authority: Key,
    program_id: Key,
    now: i64,
    metric: QuestProgressMetric,
    amount: u64,
) -> Result<Option<QuestProgressState>, GameStateError> {
    match record {
        None => Ok(None),
        Some(p) => match progress_record_check(p.key, p.data_len, p.state, authority, program_id) {
            Ok(g) => Ok(Some(QuestProgressState { last_updated_ts: now, ..counted(synced_progress(g, now), metric, amount) })),
            Err(e) => Err(e),
        },
    }
}

/// Counts `amount` of `metric` in `authority`'s progress record, when one was given; hands
/// back the record to store.
pub fn count_quest_progress(
    record: &Option<ProgressRecord>,
    authority: &Key,
    program_id: &Key,
    now: i64,
    metric: QuestProgressMetric,
    amount: u64,
) -> (r: Result<Option<QuestProgressState>, GameStateError>)
    ensures
        r == progress_update(*record, *authority, *program_id, now, metric, amount),
{
    match record {
        None => Ok(None),
        Some(p) => {
            let mut g = match validate_quest_progress_pda(&p.key, p.data_len, &p.state, authority, program_id) {
                Ok(g) => g,
                Err(e) => {
                    return Err(e);
                },
            };
            record_quest_progress(&mut g, now, metric, amount);
            Ok(Some(g))
        },
    }
}

/// The answer of a resolution: its error, or, when it succeeded, the progress record to store
/// (none when the resolution does not count or no record was given).
pub open spec fn counted_outcome<T>(
    resolved: Result<T, GameStateError>,
    counts: bool,
    update: Result<Option<QuestProgressState>, GameStateError>,
) -> Result<Option<QuestProgressState>, GameStateError> {
    match resolved {
        Err(e) => Err(e),
        Ok(_) => if counts {
            update
        } else {
            Ok(None)
        },
    }
}

/// The answer to a request refused by a check: the check's error.
pub open spec fn refused(check: Result<(), GameStateError>) -> Result<Option<QuestProgressState>, GameStateError> {
    match check {
        Err(e) => Err(e),
        Ok(_) => Ok(None),
    }
}

/// Whether resolving slot `slot` of `source` counts toward quests: an arrival does, a
/// homecoming does not.
pub open spec fn counts_arrival(source: PlanetState, slot: u8) -> bool {
    slot < MAX_MISSIONS && !source.missions[slot as int].applied
}

fn is_arrival(source: &PlanetState, slot: u8) -> (b: bool)
    ensures
        b == counts_arrival(*source, slot),
{
    if (slot as usize) < MAX_MISSIONS {
        !source.mission(slot as usize).applied
    } else {
        false
    }
}

/// Resolves the transport in slot `slot` of `source` toward `destination` at `now`, and counts
/// an arrival as one transport in `authority`'s progress record.
pub fn resolve_transport(
    source: &mut PlanetState,
    destination: &mut PlanetState,
    slot: u8,
    now: i64,
    authority: &Key,
    program_id: &Key,
    progress: &Option<ProgressRecord>,
) -> (r: Result<Option<QuestProgressState>, GameStateError>)
    requires
        transport_settles_source(*old(source), *old(destination), slot as int, now) ==> settle_fits(*old(source), now),
        transport_settles_destination(*old(source), *old(destination), slot as int, now) ==> settle_fits(*old(destination), now),
    ensures
        ({
            let (s, d, rr) = resolve_transport_spec(*old(source), *old(destination), slot as int, now);
            &&& *final(source) == s
            &&& *final(destination) == d
            &&& r == counted_outcome(
                rr,
                counts_arrival(*old(source), slot),
                progress_update(*progress, *authority, *program_id, now, QuestProgressMetric::TransportsResolved, 1),
            )
        }),
{
    let counts = is_arrival(source, slot);
    match resolve_transport_planets(source, destination, slot as usize, now) {
        Err(e) => Err(e),
        Ok(()) => if counts {
            count_quest_progress(progress, authority, program_id, now, QuestProgressMetric::TransportsResolved, 1)
        } else {
            Ok(None)
        },
    }
}

/// `resolve_transport` by a vault acting for the source planet's owner: the delegation is
/// checked first, and the owner's progress record is the one counted.
pub fn resolve_transport_vault(
    source: &mut PlanetState,
    destination: &mut PlanetState,
    slot: u8,
    now: i64,
    vault_signer: Key,
    authorized_vault: &AuthorizedVault,
    program_id: &Key,
    progress: &Option<ProgressRecord>,
) -> (r: Result<Option<QuestProgressState>, GameStateError>)
    requires
        active_vault_check(vault_signer@, *authorized_vault, old(source).authority@, now) is Ok && transport_settles_source(*old(source), *old(destination), slot as int, now) ==> settle_fits(*old(source), now),
        active_vault_check(vault_signer@, *authorized_vault, old(source).authority@, now) is Ok && transport_settles_destination(*old(source), *old(destination), slot as int, now) ==> settle_fits(*old(destination), now),
    ensures
        active_vault_check(vault_signer@, *authorized_vault, old(source).authority@, now) is Err ==> {
            &&& r == refused(active_vault_check(vault_signer@, *authorized_vault, old(source).authority@, now))
            &&& *final(source) == *old(source)
            &&& *final(destination) == *old(destination)
        },
        active_vault_check(vault_signer@, *authorized_vault, old(source).authority@, now) is Ok ==> {
            let (s, d, rr) = resolve_transport_spec(*old(source), *old(destination), slot as int, now);
            &&& *final(source) == s
            &&& *final(destination) == d
            &&& r == counted_outcome(
                rr,
                counts_arrival(*old(source), slot),
                progress_update(*progress, old(source).authority, *program_id, now, QuestProgressMetric::TransportsResolved, 1),
            )
        },
{
    let owner = source.authority;
    if let Err(e) = require_active_vault(vault_signer, authorized_vault, owner, now) {
        return Err(e);
    }
    resolve_transport(source, destination, slot, now, &owner, program_id, progress)
}

/// Resolves the transport in slot `slot` of `source` whose destination is gone (the cargo comes
/// back undelivered), and counts an arrival as one transport.
pub fn resolve_transport_empty(
    source: &mut PlanetState,
    slot: u8,
    now: i64,
    authority: &Key,
    program_id: &Key,
    progress: &Option<ProgressRecord>,
) -> (r: Result<Option<QuestProgressState>, GameStateError>)
    requires
        transport_empty_settles(*old(source), slot as int, now) ==> settle_fits(*old(source), now),
    ensures
        ({
            let (s, rr) = resolve_transport_empty_spec(*old(source), slot as int, now);
            &&& *final(source) == s
            &&& r == counted_outcome(
                rr,
                counts_arrival(*old(source), slot),
                progress_update(*progress, *authority, *program_id, now, QuestProgressMetric::TransportsResolved, 1),
            )
        }),
{
    let counts = is_arrival(source, slot);
    match resolve_transport_empty_slot(source, slot as usize, now) {
        Err(e) => Err(e),
        Ok(()) => if counts {
            count_quest_progress(progress, authority, program_id, now, QuestProgressMetric::TransportsResolved, 1)
        } else {
            Ok(None)
        },
    }
}

/// `resolve_transport_empty` by a vault acting for the planet's owner.
pub fn resolve_transport_empty_vault(
    source: &mut PlanetState,
    slot: u8,
    now: i64,
    vault_signer: Key,
    authorized_vault: &AuthorizedVault,
    program_id: &Key,
    progress: &Option<ProgressRecord>,
) -> (r: Result<Option<QuestProgressState>, GameStateError>)
    requires
        active_vault_check(vault_signer@, *authorized_vault, old(source).authority@, now) is Ok && transport_empty_settles(*old(source), slot as int, now) ==> settle_fits(*old(source), now),
    ensures
        active_vault_check(vault_signer@, *authorized_vault, old(source).authority@, now) is Err ==> {
            &&& r == refused(active_vault_check(vault_signer@, *authorized_vault, old(source).authority@, now))
            &&& *final(source) == *old(source)
        },
        active_vault_check(vault_signer@, *authorized_vault, old(source).authority@, now) is Ok ==> {
            let (s, rr) = resolve_transport_empty_spec(*old(source), slot as int, now);
            &&& *final(source) == s
            &&& r == counted_outcome(
                rr,
                counts_arrival(*old(source), slot),
                progress_update(*progress, old(source).authority, *program_id, now, QuestProgressMetric::TransportsResolved, 1),
            )
        },
{
    let owner = source.authority;
    if let Err(e) = require_active_vault(vault_signer, authorized_vault, owner, now) {
        return Err(e);
    }
    resolve_transport_empty(source, slot, now, &owner, program_id, progress)
}

/// Resolves the attack in slot `slot` of `source` against `destination` at `now`, and counts an
/// arrival as one attack in `authority`'s progress record.
pub fn resolve_attack(
    source: &mut PlanetState,
    destination: &mut PlanetState,
    destination_coords: &mut PlanetCoordinates,
    slot: u8,
    now: i64,
    authority: &Key,
    program_id: &Key,
    progress: &Option<ProgressRecord>,
) -> (r: Result<Option<QuestProgressState>, GameStateError>)
    requires
        crate::attack::attack_settles_source(*old(source), *old(destination), *old(destination_coords), slot as int, now) ==> settle_fits(*old(source), now),
        crate::attack::attack_settles_destination(*old(source), *old(destination), *old(destination_coords), slot as int, now) ==> settle_fits(*old(destination), now),
    ensures
        ({
            let (s, d, c, rr) = resolve_attack_spec(*old(source), *old(destination), *old(destination_coords), slot as int, now);
            &&& *final(source) == s
            &&& *final(destination) == d
            &&& *final(destination_coords) == c
            &&& r == counted_outcome(
                rr,
                counts_arrival(*old(source), slot),
                progress_update(*progress, *authority, *program_id, now, QuestProgressMetric::AttacksResolved, 1),
            )
        }),
{
    let counts = is_arrival(source, slot);
    match resolve_attack_planets(source, destination, destination_coords, slot as usize, now) {
        Err(e) => Err(e),
        Ok(_) => if counts {
            count_quest_progress(progress, authority, program_id, now, QuestProgressMetric::AttacksResolved, 1)
        } else {
            Ok(None)
        },
    }
}

/// `resolve_attack` by a vault acting for the source planet's owner.
pub fn resolve_attack_vault(
    source: &mut PlanetState,
    destination: &mut PlanetState,
    destination_coords: &mut PlanetCoordinates,
    slot: u8,
    now: i64,
    vault_signer: Key,
    authorized_vault: &AuthorizedVault,
    program_id: &Key,
    progress: &Option<ProgressRecord>,
) -> (r: Result<Option<QuestProgressState>, GameStateError>)
    requires
        active_vault_check(vault_signer@, *authorized_vault, old(source).authority@, now) is Ok && crate::attack::attack_settles_source(*old(source), *old(destination), *old(destination_coords), slot as int, now) ==> settle_fits(*old(source), now),
        active_vault_check(vault_signer@, *authorized_vault, old(source).authority@, now) is Ok && crate::attack::attack_settles_destination(*old(source), *old(destination), *old(destination_coords), slot as int, now) ==> settle_fits(*old(destination), now),
    ensures
        active_vault_check(vault_signer@, *authorized_vault, old(source).authority@, now) is Err ==> {
            &&& r == refused(active_vault_check(vault_signer@, *authorized_vault, old(source).authority@, now))
            &&& *final(source) == *old(source)
            &&& *final(destination) == *old(destination)
            &&& *final(destination_coords) == *old(destination_coords)
        },
        active_vault_check(vault_signer@, *authorized_vault, old(source).authority@, now) is Ok ==> {
            let (s, d, c, rr) = resolve_attack_spec(*old(source), *old(destination), *old(destination_coords), slot as int, now);
            &&& *final(source) == s
            &&& *final(destination) == d
            &&& *final(destination_coords) == c
            &&& r == counted_outcome(
                rr,
                counts_arrival(*old(source), slot),
                progress_update(*progress, old(source).authority, *program_id, now, QuestProgressMetric::AttacksResolved, 1),
            )
        },
{
    let owner = source.authority;
    if let Err(e) = require_active_vault(vault_signer, authorized_vault, owner, now) {
        return Err(e);
    }
    resolve_attack(source, destination, destination_coords, slot, now, &owner, program_id, progress)
}

/// Resolves the espionage mission in slot `slot` of `source` against `destination` at `now`,
/// and counts an arrival as one spy mission in `authority`'s progress record.
pub fn resolve_espionage(
    source: &mut PlanetState,
    destination: &mut PlanetState,
    slot: u8,
    now: i64,
    authority: &Key,
    program_id: &Key,
    progress: &Option<ProgressRecord>,
) -> (r: Result<Option<QuestProgressState>, GameStateError>)
    requires
        crate::espionage::espionage_settles_source(*old(source), *old(destination), slot as int, now) ==> settle_fits(*old(source), now),
        crate::espionage::espionage_settles_destination(*old(source), *old(destination), slot as int, now) ==> settle_fits(*old(destination), now),
    ensures
        ({
            let (s, d, rr) = resolve_espionage_spec(*old(source), *old(destination), slot as int, now);
            &&& *final(source) == s
            &&& *final(destination) == d
            &&& r == counted_outcome(
                rr,
                counts_arrival(*old(source), slot),
                progress_update(*progress, *authority, *program_id, now, QuestProgressMetric::SpyMissionsResolved, 1),
            )
        }),
{
    let counts = is_arrival(source, slot);
    match resolve_espionage_planets(source, destination, slot as usize, now) {
        Err(e) => Err(e),
        Ok(_) => if counts {
            count_quest_progress(progress, authority, program_id, now, QuestProgressMetric::SpyMissionsResolved, 1)
        } else {
            Ok(None)
        },
    }
}

/// `resolve_espionage` by a vault acting for the source planet's owner.
pub fn resolve_espionage_vault(
    source: &mut PlanetState,
    destination: &mut PlanetState,
    slot: u8,
    now: i64,
    vault_signer: Key,
    authorized_vault: &AuthorizedVault,
    program_id: &Key,
    progress: &Option<ProgressRecord>,
) -> (r: Result<Option<QuestProgressState>, GameStateError>)
    requires
        active_vault_check(vault_signer@, *authorized_vault, old(source).authority@, now) is Ok && crate::espionage::espionage_settles_source(*old(source), *old(destination), slot as int, now) ==> settle_fits(*old(source), now),
        active_vault_check(vault_signer@, *authorized_vault, old(source).authority@, now) is Ok && crate::espionage::espionage_settles_destination(*old(source), *old(destination), slot as int, now) ==> settle_fits(*old(destination), now),
    ensures
        active_vault_check(vault_signer@, *authorized_vault, old(source).authority@, now) is Err ==> {
            &&& r == refused(active_vault_check(vault_signer@, *authorized_vault, old(source).authority@, now))
            &&& *final(source) == *old(source)
            &&& *final(destination) == *old(destination)
        },
        active_vault_check(vault_signer@, *authorized_vault, old(source).authority@, now) is Ok ==> {
            let (s, d, rr) = resolve_espionage_spec(*old(source), *old(destination), slot as int, now);
            &&& *final(source) == s
            &&& *final(destination) == d
            &&& r == counted_outcome(
                rr,
                counts_arrival(*old(source), slot),
                progress_update(*progress, old(source).authority, *program_id, now, QuestProgressMetric::SpyMissionsResolved, 1),
            )
        },
{
    let owner = source.authority;
    if let Err(e) = require_active_vault(vault_signer, authorized_vault, owner, now) {
        return Err(e);
    }
    resolve_espionage(source, destination, slot, now, &owner, program_id, progress)
}

/// Colonization is no longer resolved on its own: a colony claims its mission slot when it is
/// created, so this request is always refused.
pub fn resolve_colonize(_slot: u8, _now: i64) -> (r: Result<(), GameStateError>)
    ensures
        r == Err::<(), GameStateError>(GameStateError::InvalidMission),
{
    Err(GameStateError::InvalidMission)
}

/// The vault form of `resolve_colonize`, refused the same way.
pub fn resolve_colonize_vault(_slot: u8, _now: i64) -> (r: Result<(), GameStateError>)
    ensures
        r == Err::<(), GameStateError>(GameStateError::InvalidMission),
{
    Err(GameStateError::InvalidMission)
}

} // verus!
