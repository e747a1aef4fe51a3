//! Claiming the daily check-in and quest rewards on behalf of a player, by the player or by a
//! vault acting for it: the progress record that a claim reads is chosen and checked, and the
//! claim is applied.
use vstd::prelude::*;

use crate::accounts::{AuthorizedVault, QuestProgressState, QuestState};
use crate::deposit::deposit_settle_fits;
use crate::economy::settle_fits;
use crate::error::GameStateError;
use crate::key::Key;
use crate::planet::PlanetState;
use crate::planet_bytes::PlanetDepositFields;
use crate::quest_claims::{
    award_planet_spec, checkin_spec, claim_daily_check_in_live, claim_quest_reward,
    claim_quest_reward_live, empty_quest_progress, fresh_progress, progress_record_check,
    claim_reaches_award, reward_claim_spec, validate_quest_progress_pda,
};
use crate::quests::{quest_requirement_met_live_spec, quest_requirement_met_spec, PlanetQuestFields};
use crate::resolution::{refused, ProgressRecord};
use crate::store::award_spec;
use crate::vault::{active_vault_check, require_active_vault};

verus! {

/// The progress record a claim of `period` reads: a fresh one for the tutorial (which keeps
/// none), else the given record once checked.
pub open spec fn progress_choice(
    period: u8,
    record: ProgressRecord,
    authority: Key,
    program_id: Key,
    now: i64,
) -> Result<QuestProgressState, GameStateError> {
    if period == 0 {
        Ok(fresh_progress(authority, now))
    } else {
        progress_record_check(record.key, record.data_len, record.state, authority, program_id)
    }
}

fn choose_progress(
    period: u8,
    record: &ProgressRecord,
    authority: &Key,
    program_id: &Key,
    now: i64,
) -> (r: Result<QuestProgressState, GameStateError>)
    ensures
        r == progress_choice(period, *record, *authority, *program_id, now),
{
    if period == 0 {
        Ok(empty_quest_progress(*authority, now))
    } else {
        validate_quest_progress_pda(&record.key, record.data_len, &record.state, authority, program_id)
    }
}

/// What claiming quest `quest_id` of `period` at `now` does to the claim record, the planet
/// and the progress record, and the answer; quest 0 of the day is the daily check-in.
pub open spec fn quest_claim_spec(
    q0: QuestState,
    p0: PlanetState,
    g0: QuestProgressState,
    period: u8,
    quest_id: u8,
    now: i64,
) -> (QuestState, PlanetState, QuestProgressState, Result<(), GameStateError>) {
    if period == 1 && quest_id == 0 {
        let (q, c) = checkin_spec(q0, now);
        match c {
            Err(e) => (q, p0, g0, Err(e)),
            Ok((m, cr, d)) => {
                let (p, r) = award_planet_spec(p0, now, m, cr, d);
                (q, p, g0, r)
            },
        }
    } else {
        let met = quest_requirement_met_spec(0, quest_id, 0, p0);
        let (q, g, x) = reward_claim_spec(q0, g0, period, quest_id, now, met);
        match x {
            Err(e) => (q, p0, g, Err(e)),
            Ok((m, cr, d)) => {
                let (p, r) = award_planet_spec(p0, now, m, cr, d);
                (q, p, g, r)
            },
        }
    }
}

/// The same claim on the fields of a planet record.
pub open spec fn quest_claim_live_spec(
    q0: QuestState,
    p0: PlanetQuestFields,
    g0: QuestProgressState,
    period: u8,
    quest_id: u8,
    now: i64,
) -> (QuestState, PlanetQuestFields, QuestProgressState, Result<(), GameStateError>) {
    if period == 1 && quest_id == 0 {
        let (q, c) = checkin_spec(q0, now);
        match c {
            Err(e) => (q, p0, g0, Err(e)),
            Ok((m, cr, d)) => {
                let (dp, r) = award_spec(p0.deposit, now, m, cr, d);
                (q, PlanetQuestFields { deposit: dp, ..p0 }, g0, r)
            },
        }
    } else {
        let met = quest_requirement_met_live_spec(0, quest_id, 0, p0);
        let (q, g, x) = reward_claim_spec(q0, g0, period, quest_id, now, met);
        match x {
            Err(e) => (q, p0, g, Err(e)),
            Ok((m, cr, d)) => {
                let (dp, r) = award_spec(p0.deposit, now, m, cr, d);
                (q, PlanetQuestFields { deposit: dp, ..p0 }, g, r)
            },
        }
    }
}

/// The answer of a claim: its error, or the progress record to store (none for the tutorial).
pub open spec fn claim_answer(
    period: u8,
    g: QuestProgressState,
    r: Result<(), GameStateError>,
) -> Result<Option<QuestProgressState>, GameStateError> {
    match r {
        Err(e) => Err(e),
        Ok(_) => if period == 0 {
            Ok(None)
        } else {
            Ok(Some(g))
        },
    }
}

/// Claims quest `quest_id` of `period` for `authority` at `now`, reading the progress record
/// `record` (unused for the tutorial); hands back the progress record to store.
pub fn claim_quest(
    quest: &mut QuestState,
    planet: &mut PlanetState,
    record: &ProgressRecord,
    authority: &Key,
    program_id: &Key,
    period: u8,
    quest_id: u8,
    now: i64,
) -> (r: Result<Option<QuestProgressState>, GameStateError>)
    requires
        progress_choice(period, *record, *authority, *program_id, now) matches Ok(g0) && claim_reaches_award(
            *old(quest),
            g0,
            period,
            quest_id,
            now,
            quest_requirement_met_spec(0, quest_id, 0, *old(planet)),
        ) ==> settle_fits(*old(planet), now),
    ensures
        match progress_choice(period, *record, *authority, *program_id, now) {
            Err(e) => r == Err::<Option<QuestProgressState>, GameStateError>(e) && *final(quest) == *old(quest)
                && *final(planet) == *old(planet),
            Ok(g0) => {
                let (q, p, g, x) = quest_claim_spec(*old(quest), *old(planet), g0, period, quest_id, now);
                &&& *final(quest) == q
                &&& *final(planet) == p
                &&& r == claim_answer(period, g, x)
            },
        },
{
    let mut progress = choose_progress(period, record, authority, program_id, now)?;
    match claim_quest_reward(quest, planet, &mut progress, period, quest_id, now) {
        Err(e) => Err(e),
        Ok(()) => if period == 0 {
            Ok(None)
        } else {
            Ok(Some(progress))
        },
    }
}

/// What the check of a vault claiming for `authority` on a planet owned by `owner` answers: the
/// delegation must let the signer act for `authority`, and the planet must be `authority`'s.
pub open spec fn claimant_check(signer: Key, v: AuthorizedVault, authority: Key, owner: Key, now: i64) -> Result<(), GameStateError> {
    match active_vault_check(signer@, v, authority@, now) {
        Err(e) => Err(e),
        Ok(_) => if owner@ != authority@ {
            Err(GameStateError::Unauthorized)
        } else {
            Ok(())
        },
    }
}

fn check_claimant(signer: Key, v: &AuthorizedVault, authority: Key, owner: Key, now: i64) -> (r: Result<(), GameStateError>)
    ensures
        r == claimant_check(signer, *v, authority, owner, now),
{
    require_active_vault(signer, v, authority, now)?;
    if !owner.same_as(&authority) {
        return Err(GameStateError::Unauthorized);
    }
    Ok(())
}

/// The daily check-in by a vault acting for `authority`, on the resource fields of the planet
/// record.
pub fn daily_check_in_vault(
    quest: &mut QuestState,
    planet: &mut PlanetDepositFields,
    authority: Key,
    vault_signer: Key,
    authorized_vault: &AuthorizedVault,
    now: i64,
) -> (r: Result<(), GameStateError>)
    requires
        claimant_check(vault_signer, *authorized_vault, authority, old(planet).authority, now) is Ok && checkin_spec(*old(quest), now).1 is Ok
            ==> deposit_settle_fits(*old(planet), now),
    ensures
        ({
            let c = claimant_check(vault_signer, *authorized_vault, authority, old(planet).authority, now);
            &&& c is Err ==> r == c && *final(quest) == *old(quest) && *final(planet) == *old(planet)
            &&& c is Ok ==> {
                &&& *final(quest) == checkin_spec(*old(quest), now).0
                &&& match checkin_spec(*old(quest), now).1 {
                    Err(e) => r == Err::<(), GameStateError>(e) && *final(planet) == *old(planet),
                    Ok((m, cr, d)) => (*final(planet), r) == award_spec(*old(planet), now, m, cr, d),
                }
            }
        }),
{
    check_claimant(vault_signer, authorized_vault, authority, planet.authority, now)?;
    claim_daily_check_in_live(quest, planet, now)
}

/// `claim_quest` by a vault acting for `authority`, on the fields of the planet record.
pub fn claim_quest_vault(
    quest: &mut QuestState,
    planet: &mut PlanetQuestFields,
    record: &ProgressRecord,
    authority: Key,
    vault_signer: Key,
    authorized_vault: &AuthorizedVault,
    program_id: &Key,
    period: u8,
    quest_id: u8,
    now: i64,
) -> (r: Result<Option<QuestProgressState>, GameStateError>)
    requires
        claimant_check(vault_signer, *authorized_vault, authority, old(planet).deposit.authority, now) is Ok ==> ((
        progress_choice(period, *record, authority, *program_id, now) matches Ok(g0) && claim_reaches_award(
            *old(quest),
            g0,
            period,
            quest_id,
            now,
            quest_requirement_met_live_spec(0, quest_id, 0, *old(planet)),
        )) ==> deposit_settle_fits(old(planet).deposit, now)),
    ensures
        ({
            let c = claimant_check(vault_signer, *authorized_vault, authority, old(planet).deposit.authority, now);
            &&& c is Err ==> r == refused(c) && *final(quest) == *old(quest)
                && *final(planet) == *old(planet)
            &&& c is Ok ==> match progress_choice(period, *record, authority, *program_id, now) {
                Err(e) => r == Err::<Option<QuestProgressState>, GameStateError>(e) && *final(quest) == *old(quest)
                    && *final(planet) == *old(planet),
                Ok(g0) => {
                    let (q, p, g, x) = quest_claim_live_spec(*old(quest), *old(planet), g0, period, quest_id, now);
                    &&& *final(quest) == q
                    &&& *final(planet) == p
                    &&& r == claim_answer(period, g, x)
                },
            }
        }),
{
    if let Err(e) = check_claimant(vault_signer, authorized_vault, authority, planet.deposit.authority, now) {
        return Err(e);
    }
    let mut progress = choose_progress(period, record, &authority, program_id, now)?;
    match claim_quest_reward_live(quest, planet, &mut progress, period, quest_id, now) {
        Err(e) => Err(e),
        Ok(()) => if period == 0 {
            Ok(None)
        } else {
            Ok(Some(progress))
        },
    }
}

} // verus!
