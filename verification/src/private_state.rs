//! Private planet state: sealed commitments to a planet's hidden state, their rotation, and
//! spy reports on them.
use vstd::prelude::*;

use crate::key::{all_zero, bytes_all_zero, Key};

verus! {

/// Error kinds that private planet state reports.
#[derive(Debug, Clone, Copy, PartialEq, Eq, Structural)]
pub enum PrivateStateError {
    Unauthorized,
    InvalidCoordinates,
    InvalidPublicPlanet,
    PublicPlanetAuthorityMismatch,
    PublicPlanetCoordinatesMismatch,
    InvalidRevealLevel,
    InvalidTransitionHash,
    InvalidReportHash,
    InvalidResolver,
    InvalidStateDigest,
    InvalidActionKind,
    InvalidPrivacyEngine,
    InvalidCiphertextSchema,
    InvalidDecryptPolicy,
    InvalidEncryptionKey,
    InvalidCiphertext,
    InvalidSpyRequest,
    StaleSpyRequest,
    EpochOverflow,
    NonceOverflow,
}

/// The longest name of a private planet.
pub const MAX_PRIVATE_PLANET_NAME_LEN: usize = 32;
/// The longest sealed planet state.
pub const MAX_ENCRYPTED_PRIVATE_STATE_LEN: usize = 1536;
/// The longest sealed spy report.
pub const MAX_ENCRYPTED_SPY_REPORT_LEN: usize = 1024;
/// The deepest level of detail a spy report may reveal.
pub const MAX_REVEAL_LEVEL: u8 = 4;
/// The layout version of private planet records.
pub const PRIVATE_STATE_SCHEMA_V1: u8 = 1;
/// A seal that only commits to the state.
pub const PRIVACY_ENGINE_COMMITMENT_ONLY: u8 = 0;
/// A seal whose state the client encrypts with AES-GCM.
pub const PRIVACY_ENGINE_CLIENT_AES_GCM: u8 = 1;
/// The layout version of sealed state.
pub const PRIVATE_CIPHERTEXT_SCHEMA_V1: u16 = 1;
/// The layout version of public planet records that private planets attach to.
pub const GAME_PUBLIC_PLANET_V2: u8 = 2;
/// The bytes a private planet record takes: the discriminator and the widest record.
pub const PRIVATE_PLANET_STATE_SPACE: usize = 2051;
/// The bytes a spy-report request takes.
pub const SPY_REPORT_REQUEST_SPACE: usize = 227;
/// The bytes a spy report takes.
pub const SPY_REPORT_SPACE: usize = 1266;
/// How long a new private planet stays protected: seven days, in seconds.
pub const PRIVATE_PLANET_PROTECTION_SECONDS: i64 = 604_800;

/// Commitments to the five parts of a planet's hidden state.
#[derive(Clone, Copy, Debug)]
pub struct PrivateCommitments {
    pub resources: [u8; 32],
    pub buildings: [u8; 32],
    pub research: [u8; 32],
    pub fleet: [u8; 32],
    pub defense: [u8; 32],
}

/// How a hidden state is sealed.
#[derive(Clone, Copy, Debug)]
pub struct PrivateStateSeal {
    pub privacy_engine: u8,
    pub ciphertext_schema: u16,
    pub encryption_key_hash: [u8; 32],
    pub decrypt_policy_hash: [u8; 32],
}

/// The hashes, seal and commitments that describe a hidden state.
#[derive(Clone, Copy, Debug)]
pub struct PrivateStateDigest {
    pub state_hash: [u8; 32],
    pub encrypted_state_hash: [u8; 32],
    pub seal: PrivateStateSeal,
    pub commitments: PrivateCommitments,
}

/// A sealed planet state with its nonce and salts.
#[derive(Clone, Debug)]
pub struct EncryptedPrivateStateBlob {
    pub nonce: [u8; 12],
    pub recovery_salt: [u8; 16],
    pub kdf_salt: [u8; 16],
    pub ciphertext: Vec<u8>,
}

/// A sealed spy report with its nonce.
#[derive(Clone, Debug)]
pub struct EncryptedSpyReportBlob {
    pub nonce: [u8; 12],
    pub ciphertext: Vec<u8>,
}

/// The private record of a planet: where it is, and the current seal of its hidden state.
#[derive(Clone, Debug)]
pub struct PrivatePlanetState {
    pub authority: Key,
    pub public_planet: Key,
    pub galaxy: u16,
    pub system: u16,
    pub position: u8,
    pub name: [u8; 32],
    pub created_at: i64,
    pub public_protection_until_ts: i64,
    pub schema_version: u8,
    pub state_epoch: u64,
    pub state_hash: [u8; 32],
    pub encrypted_state_hash: [u8; 32],
    pub privacy_engine: u8,
    pub ciphertext_schema: u16,
    pub encryption_key_hash: [u8; 32],
    pub decrypt_policy_hash: [u8; 32],
    pub encrypted_state_ciphertext: Vec<u8>,
    pub ciphertext_nonce: [u8; 12],
    pub ciphertext_recovery_salt: [u8; 16],
    pub ciphertext_kdf_salt: [u8; 16],
    pub resources_commitment: [u8; 32],
    pub buildings_commitment: [u8; 32],
    pub research_commitment: [u8; 32],
    pub fleet_commitment: [u8; 32],
    pub defense_commitment: [u8; 32],
    pub last_transition_hash: [u8; 32],
    pub last_action_kind: u8,
    pub report_nonce: u64,
    pub bump: u8,
}

/// A published spy report on a private planet.
#[derive(Clone, Debug)]
pub struct SpyReport {
    pub target_planet: Key,
    pub target_authority: Key,
    pub spy_authority: Key,
    pub resolver: Key,
    pub target_epoch: u64,
    pub report_nonce: u64,
    pub reveal_level: u8,
    pub report_ciphertext_hash: [u8; 32],
    pub report_ciphertext: Vec<u8>,
    pub report_nonce_bytes: [u8; 12],
    pub report_commitment: [u8; 32],
    pub created_at: i64,
    pub bump: u8,
}

/// A spy's request for a report on a private planet.
#[derive(Clone, Copy, Debug)]
pub struct SpyReportRequest {
    pub target_planet: Key,
    pub target_authority: Key,
    pub spy_authority: Key,
    pub resolver: Key,
    pub target_epoch: u64,
    pub report_nonce: u64,
    pub reveal_level_cap: u8,
    pub encrypted_input_hash: [u8; 32],
    pub request_commitment: [u8; 32],
    pub created_at: i64,
    pub resolved: bool,
    pub bump: u8,
}

/// The record that a planet's commitments were rotated.
#[derive(Clone, Copy, Debug)]
pub struct PrivateStateRotatedEvent {
    pub private_planet: Key,
    pub authority: Key,
    pub state_epoch: u64,
    pub transition_hash: [u8; 32],
    pub action_kind: u8,
}

/// The record that a spy report was published.
#[derive(Clone, Copy, Debug)]
pub struct SpyReportPublishedEvent {
    pub target_planet: Key,
    pub spy_authority: Key,
    pub resolver: Key,
    pub target_epoch: u64,
    pub report_nonce: u64,
    pub reveal_level: u8,
    pub report_ciphertext_hash: [u8; 32],
    pub report_commitment: [u8; 32],
}

/// The record that a spy report was requested.
#[derive(Clone, Copy, Debug)]
pub struct SpyReportRequestedEvent {
    pub target_planet: Key,
    pub spy_authority: Key,
    pub resolver: Key,
    pub target_epoch: u64,
    pub report_nonce: u64,
    pub reveal_level_cap: u8,
    pub encrypted_input_hash: [u8; 32],
    pub request_commitment: [u8; 32],
}

/// Whether every byte of the array is zero.
fn zero_32(a: &[u8; 32]) -> (r: bool)
    ensures
        r == all_zero(a@),
{
    bytes_all_zero(vstd::array::array_as_slice(a))
}

/// Whether every byte of the array is zero.
fn zero_16(a: &[u8; 16]) -> (r: bool)
    ensures
        r == all_zero(a@),
{
    bytes_all_zero(vstd::array::array_as_slice(a))
}

/// Whether every byte of the array is zero.
fn zero_12(a: &[u8; 12]) -> (r: bool)
    ensures
        r == all_zero(a@),
{
    bytes_all_zero(vstd::array::array_as_slice(a))
}

/// What the check of a seal answers: a known engine, the current schema, a decryption policy,
/// and a key hash where the client encrypts.
pub open spec fn seal_check(seal: PrivateStateSeal) -> Result<(), PrivateStateError> {
    if seal.privacy_engine != PRIVACY_ENGINE_COMMITMENT_ONLY && seal.privacy_engine != PRIVACY_ENGINE_CLIENT_AES_GCM {
        Err(PrivateStateError::InvalidPrivacyEngine)
    } else if seal.ciphertext_schema != PRIVATE_CIPHERTEXT_SCHEMA_V1 {
        Err(PrivateStateError::InvalidCiphertextSchema)
    } else if all_zero(seal.decrypt_policy_hash@) {
        Err(PrivateStateError::InvalidDecryptPolicy)
    } else if seal.privacy_engine == PRIVACY_ENGINE_CLIENT_AES_GCM && all_zero(seal.encryption_key_hash@) {
        Err(PrivateStateError::InvalidEncryptionKey)
    } else {
        Ok(())
    }
}

/// Checks a seal.
pub fn validate_private_state_seal(seal: &PrivateStateSeal) -> (r: Result<(), PrivateStateError>)
    ensures
        r == seal_check(*seal),
{
    if seal.privacy_engine != PRIVACY_ENGINE_COMMITMENT_ONLY && seal.privacy_engine != PRIVACY_ENGINE_CLIENT_AES_GCM {
        return Err(PrivateStateError::InvalidPrivacyEngine);
    }
    if seal.ciphertext_schema != PRIVATE_CIPHERTEXT_SCHEMA_V1 {
        return Err(PrivateStateError::InvalidCiphertextSchema);
    }
    if zero_32(&seal.decrypt_policy_hash) {
        return Err(PrivateStateError::InvalidDecryptPolicy);
    }
    if seal.privacy_engine == PRIVACY_ENGINE_CLIENT_AES_GCM && zero_32(&seal.encryption_key_hash) {
        return Err(PrivateStateError::InvalidEncryptionKey);
    }
    Ok(())
}

/// What the check of a digest answers: no hash and no commitment may be all zero, and the seal
/// must pass its own check.
pub open spec fn digest_check(d: PrivateStateDigest) -> Result<(), PrivateStateError> {
    if all_zero(d.state_hash@) || all_zero(d.encrypted_state_hash@) {
        Err(PrivateStateError::InvalidStateDigest)
    } else if seal_check(d.seal) is Err {
        seal_check(d.seal)
    } else if all_zero(d.commitments.resources@) || all_zero(d.commitments.buildings@)
        || all_zero(d.commitments.research@) || all_zero(d.commitments.fleet@)
        || all_zero(d.commitments.defense@) {
        Err(PrivateStateError::InvalidStateDigest)
    } else {
        Ok(())
    }
}

/// Checks a digest.
pub fn validate_private_state_digest(digest: &PrivateStateDigest) -> (r: Result<(), PrivateStateError>)
    ensures
        r == digest_check(*digest),
{
    if zero_32(&digest.state_hash) || zero_32(&digest.encrypted_state_hash) {
        return Err(PrivateStateError::InvalidStateDigest);
    }
    match validate_private_state_seal(&digest.seal) {
        Err(e) => {
            return Err(e);
        },
        Ok(()) => {},
    }
    let c = &digest.commitments;
    if zero_32(&c.resources) || zero_32(&c.buildings) || zero_32(&c.research) || zero_32(&c.fleet)
        || zero_32(&c.defense) {
        return Err(PrivateStateError::InvalidStateDigest);
    }
    Ok(())
}

/// What the check of a sealed state answers: some ciphertext, not too long, and a nonce and
/// salts that are not all zero.
pub open spec fn encrypted_state_check(blob: EncryptedPrivateStateBlob) -> Result<(), PrivateStateError> {
    if blob.ciphertext@.len() == 0 || blob.ciphertext@.len() > MAX_ENCRYPTED_PRIVATE_STATE_LEN {
        Err(PrivateStateError::InvalidCiphertext)
    } else if all_zero(blob.nonce@) || all_zero(blob.recovery_salt@) || all_zero(blob.kdf_salt@) {
        Err(PrivateStateError::InvalidCiphertext)
    } else {
        Ok(())
    }
}

/// Checks a sealed state; the digest it belongs to takes no part in the check.
pub fn validate_encrypted_private_state(
    digest: &PrivateStateDigest,
    encrypted_state: &EncryptedPrivateStateBlob,
) -> (r: Result<(), PrivateStateError>)
    ensures
        r == encrypted_state_check(*encrypted_state),
{
    let len = encrypted_state.ciphertext.len();
    if len == 0 || len > MAX_ENCRYPTED_PRIVATE_STATE_LEN {
        return Err(PrivateStateError::InvalidCiphertext);
    }
    if zero_12(&encrypted_state.nonce) || zero_16(&encrypted_state.recovery_salt) || zero_16(
        &encrypted_state.kdf_salt,
    ) {
        return Err(PrivateStateError::InvalidCiphertext);
    }
    Ok(())
}

/// What the check of a sealed spy report answers.
pub open spec fn encrypted_report_check(blob: EncryptedSpyReportBlob) -> Result<(), PrivateStateError> {
    if blob.ciphertext@.len() == 0 || blob.ciphertext@.len() > MAX_ENCRYPTED_SPY_REPORT_LEN {
        Err(PrivateStateError::InvalidReportHash)
    } else if all_zero(blob.nonce@) {
        Err(PrivateStateError::InvalidReportHash)
    } else {
        Ok(())
    }
}

/// Checks a sealed spy report.
pub fn validate_encrypted_spy_report(encrypted_report: &EncryptedSpyReportBlob) -> (r: Result<(), PrivateStateError>)
    ensures
        r == encrypted_report_check(*encrypted_report),
{
    let len = encrypted_report.ciphertext.len();
    if len == 0 || len > MAX_ENCRYPTED_SPY_REPORT_LEN {
        return Err(PrivateStateError::InvalidReportHash);
    }
    if zero_12(&encrypted_report.nonce) {
        return Err(PrivateStateError::InvalidReportHash);
    }
    Ok(())
}

/// The bytes of the game program's address, which owns public planet records.
pub open spec fn public_game_program_bytes() -> Seq<u8> {
    seq![
        212u8, 112, 137, 119, 7, 42, 110, 211, 40, 214, 58, 138, 217, 212, 16, 233, 143, 250, 118,
        186, 107, 69, 190, 51, 16, 94, 153, 90, 66, 250, 28, 110,
    ]
}

/// The address of the game program, which owns public planet records.
pub fn public_game_program_id() -> (k: Key)
    ensures
        k@ == public_game_program_bytes(),
{
    let k = Key {
        bytes: [
            212u8, 112, 137, 119, 7, 42, 110, 211, 40, 214, 58, 138, 217, 212, 16, 233, 143, 250,
            118, 186, 107, 69, 190, 51, 16, 94, 153, 90, 66, 250, 28, 110,
        ],
    };
    assert(k@ =~= public_game_program_bytes());
    k
}

/// The first eight bytes of every public planet record.
pub open spec fn public_planet_discriminator() -> Seq<u8> {
    seq![61u8, 168, 213, 170, 12, 18, 66, 158]
}

/// What the check of a public planet record answers: it must be the game program's, carry the
/// public planet discriminator, name `authority`, sit at the given place and be of version 2.
pub open spec fn public_planet_check(
    owner: Seq<u8>,
    data: Seq<u8>,
    authority: Seq<u8>,
    galaxy: u16,
    system: u16,
    position: u8,
) -> Result<(), PrivateStateError> {
    if owner != public_game_program_bytes() {
        Err(PrivateStateError::InvalidPublicPlanet)
    } else if data.len() < 82 {
        Err(PrivateStateError::InvalidPublicPlanet)
    } else if data.subrange(0, 8) != public_planet_discriminator() {
        Err(PrivateStateError::InvalidPublicPlanet)
    } else if data.subrange(8, 40) != authority {
        Err(PrivateStateError::PublicPlanetAuthorityMismatch)
    } else if vstd::bytes::spec_u16_from_le_bytes(data.subrange(76, 78)) != galaxy
        || vstd::bytes::spec_u16_from_le_bytes(data.subrange(78, 80)) != system
        || data[80] != position {
        Err(PrivateStateError::PublicPlanetCoordinatesMismatch)
    } else if data[81] != GAME_PUBLIC_PLANET_V2 {
        Err(PrivateStateError::InvalidPublicPlanet)
    } else {
        Ok(())
    }
}

/// Checks the public planet record (owned by `owner`, holding `data`) that a private planet
/// attaches to.
pub fn assert_public_game_planet(
    owner: Key,
    data: &[u8],
    authority: Key,
    galaxy: u16,
    system: u16,
    position: u8,
) -> (r: Result<(), PrivateStateError>)
    ensures
        r == public_planet_check(owner@, data@, authority@, galaxy, system, position),
{
    let game_program = public_game_program_id();
    if !owner.same_as(&game_program) {
        return Err(PrivateStateError::InvalidPublicPlanet);
    }
    if data.len() < 82 {
        return Err(PrivateStateError::InvalidPublicPlanet);
    }
    let disc: [u8; 8] = [61u8, 168, 213, 170, 12, 18, 66, 158];
    assert(disc@ =~= public_planet_discriminator());
    if !crate::key::bytes_equal(vstd::slice::slice_subrange(data, 0, 8), vstd::array::array_as_slice(&disc)) {
        return Err(PrivateStateError::InvalidPublicPlanet);
    }
    if !crate::key::bytes_equal(vstd::slice::slice_subrange(data, 8, 40), vstd::array::array_as_slice(&authority.bytes)) {
        return Err(PrivateStateError::PublicPlanetAuthorityMismatch);
    }
    let stored_galaxy = vstd::bytes::u16_from_le_bytes(vstd::slice::slice_subrange(data, 76, 78));
    let stored_system = vstd::bytes::u16_from_le_bytes(vstd::slice::slice_subrange(data, 78, 80));
    let stored_position = data[80];
    let stored_version = data[81];
    if !(stored_galaxy == galaxy && stored_system == system && stored_position == position) {
        return Err(PrivateStateError::PublicPlanetCoordinatesMismatch);
    }
    if stored_version != GAME_PUBLIC_PLANET_V2 {
        return Err(PrivateStateError::InvalidPublicPlanet);
    }
    Ok(())
}


/// The private record a new planet gets, sealed as `digest` and `blob` describe.
pub open spec fn initial_private_planet(
    authority: Key,
    public_planet: Key,
    galaxy: u16,
    system: u16,
    position: u8,
    name: [u8; 32],
    digest: PrivateStateDigest,
    blob: EncryptedPrivateStateBlob,
    bump: u8,
    now: i64,
) -> PrivatePlanetState {
    PrivatePlanetState {
        authority,
        public_planet,
        galaxy,
        system,
        position,
        name,
        created_at: now,
        public_protection_until_ts: crate::num::clamp_i64(now + PRIVATE_PLANET_PROTECTION_SECONDS),
        schema_version: PRIVATE_STATE_SCHEMA_V1,
        state_epoch: 0,
        state_hash: digest.state_hash,
        encrypted_state_hash: digest.encrypted_state_hash,
        privacy_engine: digest.seal.privacy_engine,
        ciphertext_schema: digest.seal.ciphertext_schema,
        encryption_key_hash: digest.seal.encryption_key_hash,
        decrypt_policy_hash: digest.seal.decrypt_policy_hash,
        encrypted_state_ciphertext: blob.ciphertext,
        ciphertext_nonce: blob.nonce,
        ciphertext_recovery_salt: blob.recovery_salt,
        ciphertext_kdf_salt: blob.kdf_salt,
        resources_commitment: digest.commitments.resources,
        buildings_commitment: digest.commitments.buildings,
        research_commitment: digest.commitments.research,
        fleet_commitment: digest.commitments.fleet,
        defense_commitment: digest.commitments.defense,
        last_transition_hash: vstd::array::spec_array_fill_for_copy_type(0u8),
        last_action_kind: 0,
        report_nonce: 0,
        bump,
    }
}

/// Why a new private planet is refused, if it is.
pub open spec fn initialize_check(
    public_owner: Seq<u8>,
    public_data: Seq<u8>,
    authority: Seq<u8>,
    galaxy: u16,
    system: u16,
    position: u8,
    digest: PrivateStateDigest,
    blob: EncryptedPrivateStateBlob,
) -> Result<(), PrivateStateError> {
    if galaxy == 0 || system == 0 || position == 0 {
        Err(PrivateStateError::InvalidCoordinates)
    } else if digest_check(digest) is Err {
        digest_check(digest)
    } else if encrypted_state_check(blob) is Err {
        encrypted_state_check(blob)
    } else {
        public_planet_check(public_owner, public_data, authority, galaxy, system, position)
    }
}

/// Creates the private record of `authority`'s public planet (at `public_planet`, owned by
/// `public_owner`, holding `public_data`), sealed as `digest` and `encrypted_state` describe.
pub fn initialize_private_planet(
    authority: Key,
    public_planet: Key,
    public_owner: Key,
    public_data: &[u8],
    galaxy: u16,
    system: u16,
    position: u8,
    name: [u8; 32],
    digest: PrivateStateDigest,
    encrypted_state: EncryptedPrivateStateBlob,
    bump: u8,
    now: i64,
) -> (r: Result<PrivatePlanetState, PrivateStateError>)
    ensures
        match initialize_check(public_owner@, public_data@, authority@, galaxy, system, position, digest, encrypted_state) {
            Err(e) => r == Err::<PrivatePlanetState, PrivateStateError>(e),
            Ok(()) => r == Ok::<PrivatePlanetState, PrivateStateError>(
                initial_private_planet(authority, public_planet, galaxy, system, position, name, digest, encrypted_state, bump, now),
            ),
        },
{
    if !(galaxy > 0 && system > 0 && position > 0) {
        return Err(PrivateStateError::InvalidCoordinates);
    }
    match validate_private_state_digest(&digest) {
        Err(e) => {
            return Err(e);
        },
        Ok(()) => {},
    }
    match validate_encrypted_private_state(&digest, &encrypted_state) {
        Err(e) => {
            return Err(e);
        },
        Ok(()) => {},
    }
    match assert_public_game_planet(public_owner, public_data, authority, galaxy, system, position) {
        Err(e) => {
            return Err(e);
        },
        Ok(()) => {},
    }
    let protection = crate::num::sat_add_i64(now, PRIVATE_PLANET_PROTECTION_SECONDS);
    let zero_hash = [0u8; 32];
    assert(zero_hash =~= vstd::array::spec_array_fill_for_copy_type::<u8, 32>(0u8));
    Ok(PrivatePlanetState {
        authority,
        public_planet,
        galaxy,
        system,
        position,
        name,
        created_at: now,
        public_protection_until_ts: protection,
        schema_version: PRIVATE_STATE_SCHEMA_V1,
        state_epoch: 0,
        state_hash: digest.state_hash,
        encrypted_state_hash: digest.encrypted_state_hash,
        privacy_engine: digest.seal.privacy_engine,
        ciphertext_schema: digest.seal.ciphertext_schema,
        encryption_key_hash: digest.seal.encryption_key_hash,
        decrypt_policy_hash: digest.seal.decrypt_policy_hash,
        encrypted_state_ciphertext: encrypted_state.ciphertext,
        ciphertext_nonce: encrypted_state.nonce,
        ciphertext_recovery_salt: encrypted_state.recovery_salt,
        ciphertext_kdf_salt: encrypted_state.kdf_salt,
        resources_commitment: digest.commitments.resources,
        buildings_commitment: digest.commitments.buildings,
        research_commitment: digest.commitments.research,
        fleet_commitment: digest.commitments.fleet,
        defense_commitment: digest.commitments.defense,
        last_transition_hash: zero_hash,
        last_action_kind: 0,
        report_nonce: 0,
        bump,
    })
}

/// The private record once its seal is replaced by `digest` and `blob` after the action
/// `action_kind` whose transition hashes to `transition_hash`.
pub open spec fn rotated_private_planet(
    p: PrivatePlanetState,
    digest: PrivateStateDigest,
    blob: EncryptedPrivateStateBlob,
    transition_hash: [u8; 32],
    action_kind: u8,
) -> PrivatePlanetState {
    PrivatePlanetState {
        state_epoch: (p.state_epoch + 1) as u64,
        schema_version: PRIVATE_STATE_SCHEMA_V1,
        state_hash: digest.state_hash,
        encrypted_state_hash: digest.encrypted_state_hash,
        privacy_engine: digest.seal.privacy_engine,
        ciphertext_schema: digest.seal.ciphertext_schema,
        encryption_key_hash: digest.seal.encryption_key_hash,
        decrypt_policy_hash: digest.seal.decrypt_policy_hash,
        encrypted_state_ciphertext: blob.ciphertext,
        ciphertext_nonce: blob.nonce,
        ciphertext_recovery_salt: blob.recovery_salt,
        ciphertext_kdf_salt: blob.kdf_salt,
        resources_commitment: digest.commitments.resources,
        buildings_commitment: digest.commitments.buildings,
        research_commitment: digest.commitments.research,
        fleet_commitment: digest.commitments.fleet,
        defense_commitment: digest.commitments.defense,
        last_transition_hash: transition_hash,
        last_action_kind: action_kind,
        ..p
    }
}

/// Why a rotation of the seal is refused, if it is.
pub open spec fn rotate_check(
    p: PrivatePlanetState,
    authority: Seq<u8>,
    digest: PrivateStateDigest,
    blob: EncryptedPrivateStateBlob,
    transition_hash: [u8; 32],
    action_kind: u8,
) -> Result<(), PrivateStateError> {
    if p.authority@ != authority {
        Err(PrivateStateError::Unauthorized)
    } else if all_zero(transition_hash@) {
        Err(PrivateStateError::InvalidTransitionHash)
    } else if action_kind == 0 {
        Err(PrivateStateError::InvalidActionKind)
    } else if digest_check(digest) is Err {
        digest_check(digest)
    } else if encrypted_state_check(blob) is Err {
        encrypted_state_check(blob)
    } else if p.state_epoch == u64::MAX {
        Err(PrivateStateError::EpochOverflow)
    } else {
        Ok(())
    }
}

/// Replaces the seal of the owner's private planet (at `planet_key`) and moves it to the next
/// epoch; returns the record of the rotation. On an error nothing changes.
pub fn rotate_private_commitments(
    planet: &mut PrivatePlanetState,
    planet_key: Key,
    authority: Key,
    new_digest: PrivateStateDigest,
    encrypted_state: EncryptedPrivateStateBlob,
    transition_hash: [u8; 32],
    action_kind: u8,
) -> (r: Result<PrivateStateRotatedEvent, PrivateStateError>)
    ensures
        match rotate_check(*old(planet), authority@, new_digest, encrypted_state, transition_hash, action_kind) {
            Err(e) => r == Err::<PrivateStateRotatedEvent, PrivateStateError>(e) && *final(planet) == *old(planet),
            Ok(()) => {
                &&& *final(planet) == rotated_private_planet(*old(planet), new_digest, encrypted_state, transition_hash, action_kind)
                &&& r == Ok::<PrivateStateRotatedEvent, PrivateStateError>(PrivateStateRotatedEvent {
                    private_planet: planet_key,
                    authority: old(planet).authority,
                    state_epoch: (old(planet).state_epoch + 1) as u64,
                    transition_hash,
                    action_kind,
                })
            },
        },
{
    if !planet.authority.same_as(&authority) {
        return Err(PrivateStateError::Unauthorized);
    }
    if zero_32(&transition_hash) {
        return Err(PrivateStateError::InvalidTransitionHash);
    }
    if action_kind == 0 {
        return Err(PrivateStateError::InvalidActionKind);
    }
    match validate_private_state_digest(&new_digest) {
        Err(e) => {
            return Err(e);
        },
        Ok(()) => {},
    }
    match validate_encrypted_private_state(&new_digest, &encrypted_state) {
        Err(e) => {
            return Err(e);
        },
        Ok(()) => {},
    }
    if planet.state_epoch == u64::MAX {
        return Err(PrivateStateError::EpochOverflow);
    }
    planet.state_epoch = planet.state_epoch + 1;
    planet.schema_version = PRIVATE_STATE_SCHEMA_V1;
    planet.state_hash = new_digest.state_hash;
    planet.encrypted_state_hash = new_digest.encrypted_state_hash;
    planet.privacy_engine = new_digest.seal.privacy_engine;
    planet.ciphertext_schema = new_digest.seal.ciphertext_schema;
    planet.encryption_key_hash = new_digest.seal.encryption_key_hash;
    planet.decrypt_policy_hash = new_digest.seal.decrypt_policy_hash;
    planet.encrypted_state_ciphertext = encrypted_state.ciphertext;
    planet.ciphertext_nonce = encrypted_state.nonce;
    planet.ciphertext_recovery_salt = encrypted_state.recovery_salt;
    planet.ciphertext_kdf_salt = encrypted_state.kdf_salt;
    planet.resources_commitment = new_digest.commitments.resources;
    planet.buildings_commitment = new_digest.commitments.buildings;
    planet.research_commitment = new_digest.commitments.research;
    planet.fleet_commitment = new_digest.commitments.fleet;
    planet.defense_commitment = new_digest.commitments.defense;
    planet.last_transition_hash = transition_hash;
    planet.last_action_kind = action_kind;
    Ok(PrivateStateRotatedEvent {
        private_planet: planet_key,
        authority: planet.authority,
        state_epoch: planet.state_epoch,
        transition_hash,
        action_kind,
    })
}

/// Why publishing a report for `request` is refused, if it is.
pub open spec fn publish_check(
    p: PrivatePlanetState,
    planet_key: Seq<u8>,
    request: SpyReportRequest,
    resolver: Seq<u8>,
    spy_authority: Seq<u8>,
    report: EncryptedSpyReportBlob,
    report_commitment: [u8; 32],
) -> Result<(), PrivateStateError> {
    if request.spy_authority@ != spy_authority {
        Err(PrivateStateError::Unauthorized)
    } else if request.resolver@ != resolver {
        Err(PrivateStateError::InvalidResolver)
    } else if request.target_planet@ != planet_key {
        Err(PrivateStateError::InvalidSpyRequest)
    } else if encrypted_report_check(report) is Err {
        encrypted_report_check(report)
    } else if all_zero(report_commitment@) {
        Err(PrivateStateError::InvalidReportHash)
    } else if request.target_epoch != p.state_epoch {
        Err(PrivateStateError::StaleSpyRequest)
    } else {
        Ok(())
    }
}

/// Publishes the resolver's sealed report for a spy's request on the private planet at
/// `planet_key`; returns the report and the record of its publication.
pub fn publish_spy_report(
    planet: &PrivatePlanetState,
    planet_key: Key,
    request: &SpyReportRequest,
    resolver: Key,
    spy_authority: Key,
    encrypted_report: EncryptedSpyReportBlob,
    report_commitment: [u8; 32],
    bump: u8,
    now: i64,
) -> (r: Result<(SpyReport, SpyReportPublishedEvent), PrivateStateError>)
    ensures
        match publish_check(*planet, planet_key@, *request, resolver@, spy_authority@, encrypted_report, report_commitment) {
            Err(e) => r == Err::<(SpyReport, SpyReportPublishedEvent), PrivateStateError>(e),
            Ok(()) => r == Ok::<(SpyReport, SpyReportPublishedEvent), PrivateStateError>((
                SpyReport {
                    target_planet: planet_key,
                    target_authority: planet.authority,
                    spy_authority,
                    resolver,
                    target_epoch: planet.state_epoch,
                    report_nonce: request.report_nonce,
                    reveal_level: request.reveal_level_cap,
                    report_ciphertext_hash: report_commitment,
                    report_ciphertext: encrypted_report.ciphertext,
                    report_nonce_bytes: encrypted_report.nonce,
                    report_commitment,
                    created_at: now,
                    bump,
                },
                SpyReportPublishedEvent {
                    target_planet: planet_key,
                    spy_authority,
                    resolver,
                    target_epoch: planet.state_epoch,
                    report_nonce: request.report_nonce,
                    reveal_level: request.reveal_level_cap,
                    report_ciphertext_hash: report_commitment,
                    report_commitment,
                },
            )),
        },
{
    if !request.spy_authority.same_as(&spy_authority) {
        return Err(PrivateStateError::Unauthorized);
    }
    if !request.resolver.same_as(&resolver) {
        return Err(PrivateStateError::InvalidResolver);
    }
    if !request.target_planet.same_as(&planet_key) {
        return Err(PrivateStateError::InvalidSpyRequest);
    }
    match validate_encrypted_spy_report(&encrypted_report) {
        Err(e) => {
            return Err(e);
        },
        Ok(()) => {},
    }
    if zero_32(&report_commitment) {
        return Err(PrivateStateError::InvalidReportHash);
    }
    if request.target_epoch != planet.state_epoch {
        return Err(PrivateStateError::StaleSpyRequest);
    }
    let event = SpyReportPublishedEvent {
        target_planet: planet_key,
        spy_authority,
        resolver,
        target_epoch: planet.state_epoch,
        report_nonce: request.report_nonce,
        reveal_level: request.reveal_level_cap,
        report_ciphertext_hash: report_commitment,
        report_commitment,
    };
    let report = SpyReport {
        target_planet: planet_key,
        target_authority: planet.authority,
        spy_authority,
        resolver,
        target_epoch: planet.state_epoch,
        report_nonce: request.report_nonce,
        reveal_level: request.reveal_level_cap,
        report_ciphertext_hash: report_commitment,
        report_ciphertext: encrypted_report.ciphertext,
        report_nonce_bytes: encrypted_report.nonce,
        report_commitment,
        created_at: now,
        bump,
    };
    Ok((report, event))
}

/// Why a spy's request for a report is refused, if it is.
pub open spec fn request_check(
    target: PrivatePlanetState,
    resolver: Seq<u8>,
    reveal_level_cap: u8,
    encrypted_input_hash: [u8; 32],
    request_commitment: [u8; 32],
) -> Result<(), PrivateStateError> {
    if reveal_level_cap > MAX_REVEAL_LEVEL {
        Err(PrivateStateError::InvalidRevealLevel)
    } else if all_zero(encrypted_input_hash@) || all_zero(request_commitment@) {
        Err(PrivateStateError::InvalidSpyRequest)
    } else if all_zero(resolver) {
        Err(PrivateStateError::InvalidResolver)
    } else if target.report_nonce == u64::MAX {
        Err(PrivateStateError::NonceOverflow)
    } else {
        Ok(())
    }
}

/// Records a spy's request for a report on the private planet at `target_key`: the request
/// takes the planet's next report number, which goes up by one. Returns the request and the
/// record of it; on an error nothing changes.
pub fn request_spy_report(
    target: &mut PrivatePlanetState,
    target_key: Key,
    spy_authority: Key,
    resolver: Key,
    reveal_level_cap: u8,
    encrypted_input_hash: [u8; 32],
    request_commitment: [u8; 32],
    bump: u8,
    now: i64,
) -> (r: Result<(SpyReportRequest, SpyReportRequestedEvent), PrivateStateError>)
    ensures
        match request_check(*old(target), resolver@, reveal_level_cap, encrypted_input_hash, request_commitment) {
            Err(e) => r == Err::<(SpyReportRequest, SpyReportRequestedEvent), PrivateStateError>(e) && *final(target) == *old(target),
            Ok(()) => {
                &&& *final(target) == (PrivatePlanetState { report_nonce: (old(target).report_nonce + 1) as u64, ..*old(target) })
                &&& r == Ok::<(SpyReportRequest, SpyReportRequestedEvent), PrivateStateError>((
                    SpyReportRequest {
                        target_planet: target_key,
                        target_authority: old(target).authority,
                        spy_authority,
                        resolver,
                        target_epoch: old(target).state_epoch,
                        report_nonce: old(target).report_nonce,
                        reveal_level_cap,
                        encrypted_input_hash,
                        request_commitment,
                        created_at: now,
                        resolved: false,
                        bump,
                    },
                    SpyReportRequestedEvent {
                        target_planet: target_key,
                        spy_authority,
                        resolver,
                        target_epoch: old(target).state_epoch,
                        report_nonce: old(target).report_nonce,
                        reveal_level_cap,
                        encrypted_input_hash,
                        request_commitment,
                    },
                ))
            },
        },
{
    if reveal_level_cap > MAX_REVEAL_LEVEL {
        return Err(PrivateStateError::InvalidRevealLevel);
    }
    if zero_32(&encrypted_input_hash) || zero_32(&request_commitment) {
        return Err(PrivateStateError::InvalidSpyRequest);
    }
    if resolver.is_zero() {
        return Err(PrivateStateError::InvalidResolver);
    }
    if target.report_nonce == u64::MAX {
        return Err(PrivateStateError::NonceOverflow);
    }
    let nonce = target.report_nonce;
    target.report_nonce = nonce + 1;
    let request = SpyReportRequest {
        target_planet: target_key,
        target_authority: target.authority,
        spy_authority,
        resolver,
        target_epoch: target.state_epoch,
        report_nonce: nonce,
        reveal_level_cap,
        encrypted_input_hash,
        request_commitment,
        created_at: now,
        resolved: false,
        bump,
    };
    let event = SpyReportRequestedEvent {
        target_planet: target_key,
        spy_authority,
        resolver,
        target_epoch: target.state_epoch,
        report_nonce: nonce,
        reveal_level_cap,
        encrypted_input_hash,
        request_commitment,
    };
    Ok((request, event))
}

} // verus!
