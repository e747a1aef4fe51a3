//! Vault delegation: a player lets a vault key act for it until an expiry, and may rotate,
//! extend or revoke that delegation.
use vstd::prelude::*;

use crate::accounts::{AuthorizedVault, PlayerProfile};
use crate::address::{find_program_address, program_address, seeds_view};
use crate::error::GameStateError;
use crate::key::Key;

verus! {

/// The longest encrypted vault backup.
pub const MAX_VAULT_BACKUP_LEN: usize = 512;

/// An encrypted backup of a player's vault key.
#[derive(Clone, Debug)]
pub struct VaultBackup {
    pub authority: Key,
    pub vault: Key,
    pub version: u8,
    pub ciphertext: Vec<u8>,
    pub iv: [u8; 12],
    pub salt: [u8; 16],
    pub kdf_salt: [u8; 16],
    pub updated_at: i64,
    pub bump: u8,
}

/// What the check of a delegation answers when `vault_signer` acts for `planet_authority` at
/// `now`: the delegation must name both, must not be revoked, and must not have expired
/// (an expiry of zero never expires).
pub open spec fn active_vault_check(vault_signer: Seq<u8>, v: AuthorizedVault, planet_authority: Seq<u8>, now: i64) -> Result<(), GameStateError> {
    if v.vault@ != vault_signer {
        Err(GameStateError::InvalidVaultAuthorization)
    } else if v.authority@ != planet_authority {
        Err(GameStateError::InvalidVaultAuthorization)
    } else if v.revoked {
        Err(GameStateError::VaultAuthorizationRevoked)
    } else if v.expires_at > 0 && now > v.expires_at {
        Err(GameStateError::VaultAuthorizationExpired)
    } else {
        Ok(())
    }
}

/// Checks that `vault_signer` may act for `planet_authority` at `now`.
pub fn require_active_vault(
    vault_signer: Key,
    authorized_vault: &AuthorizedVault,
    planet_authority: Key,
    now: i64,
) -> (r: Result<(), GameStateError>)
    ensures
        r == active_vault_check(vault_signer@, *authorized_vault, planet_authority@, now),
{
    if !authorized_vault.vault.same_as(&vault_signer) {
        return Err(GameStateError::InvalidVaultAuthorization);
    }
    if !authorized_vault.authority.same_as(&planet_authority) {
        return Err(GameStateError::InvalidVaultAuthorization);
    }
    if authorized_vault.revoked {
        return Err(GameStateError::VaultAuthorizationRevoked);
    }
    if authorized_vault.expires_at > 0 && now > authorized_vault.expires_at {
        return Err(GameStateError::VaultAuthorizationExpired);
    }
    Ok(())
}

/// The seed tag of a delegation's address: the bytes of `authorized_vault`.
pub open spec fn authorized_vault_tag() -> Seq<u8> {
    seq![97u8, 117, 116, 104, 111, 114, 105, 122, 101, 100, 95, 118, 97, 117, 108, 116]
}

/// Whether `key` is the address of `authority`'s delegation under `program_id`.
pub open spec fn is_vault_address(key: Seq<u8>, authority: Seq<u8>, program_id: Seq<u8>) -> bool {
    match program_address(seq![authorized_vault_tag(), authority], program_id) {
        Some((addr, _)) => key == addr,
        None => false,
    }
}

/// Checks that the delegation at `authorized_vault_key` is `planet_authority`'s own and lets
/// `vault_signer` act at `now`.
pub fn require_active_vault_for_live_planet(
    program_id: Key,
    vault_signer: Key,
    authorized_vault: &AuthorizedVault,
    authorized_vault_key: Key,
    planet_authority: Key,
    now: i64,
) -> (r: Result<(), GameStateError>)
    ensures
        !is_vault_address(authorized_vault_key@, planet_authority@, program_id@) ==> r == Err::<(), GameStateError>(
            GameStateError::InvalidVaultAuthorization,
        ),
        is_vault_address(authorized_vault_key@, planet_authority@, program_id@) ==> r == active_vault_check(
            vault_signer@,
            *authorized_vault,
            planet_authority@,
            now,
        ),
{
    let tag: Vec<u8> = vec![97u8, 117, 116, 104, 111, 114, 105, 122, 101, 100, 95, 118, 97, 117, 108, 116];
    let mut owner: Vec<u8> = Vec::new();
    let mut i: usize = 0;
    while i < 32
        invariant
            i <= 32,
            owner@ == planet_authority@.subrange(0, i as int),
        decreases 32 - i,
    {
        owner.push(planet_authority.bytes[i]);
        i = i + 1;
        assert(owner@ =~= planet_authority@.subrange(0, i as int));
    }
    assert(planet_authority@.subrange(0, 32) =~= planet_authority@);
    assert(tag@ =~= authorized_vault_tag());
    let ghost views = seq![tag@, owner@];
    let seeds: Vec<Vec<u8>> = vec![tag, owner];
    assert(seeds_view(seeds@) =~= views);
    match find_program_address(&seeds, &program_id) {
        Some((expected, _)) => {
            if !authorized_vault_key.same_as(&expected) {
                return Err(GameStateError::InvalidVaultAuthorization);
            }
        },
        None => {
            return Err(GameStateError::InvalidVaultAuthorization);
        },
    }
    require_active_vault(vault_signer, authorized_vault, planet_authority, now)
}

/// Why a new or rotated backup is refused, if it is: it must hold some ciphertext, at most the
/// backup limit, and the expiry must be zero (never) or after `now`.
pub open spec fn backup_check(ciphertext_len: nat, expires_at: i64, now: i64) -> Result<(), GameStateError> {
    if ciphertext_len == 0 {
        Err(GameStateError::InvalidArgs)
    } else if ciphertext_len > MAX_VAULT_BACKUP_LEN {
        Err(GameStateError::BackupTooLarge)
    } else if !(expires_at == 0 || expires_at > now) {
        Err(GameStateError::InvalidArgs)
    } else {
        Ok(())
    }
}

/// The records a new player starts with: a profile with no planets, a delegation to `vault`
/// and the vault backup.
pub fn initialize_player(
    authority: Key,
    vault: Key,
    expires_at: i64,
    backup_version: u8,
    backup_ciphertext: Vec<u8>,
    backup_iv: [u8; 12],
    backup_salt: [u8; 16],
    backup_kdf_salt: [u8; 16],
    profile_bump: u8,
    vault_bump: u8,
    backup_bump: u8,
    now: i64,
) -> (r: Result<(PlayerProfile, AuthorizedVault, VaultBackup), GameStateError>)
    ensures
        backup_check(backup_ciphertext@.len(), expires_at, now) is Err ==> r == Err::<(PlayerProfile, AuthorizedVault, VaultBackup), GameStateError>(
            backup_check(backup_ciphertext@.len(), expires_at, now)->Err_0,
        ),
        backup_check(backup_ciphertext@.len(), expires_at, now) is Ok ==> r == Ok::<(PlayerProfile, AuthorizedVault, VaultBackup), GameStateError>((
            PlayerProfile { authority, planet_count: 0, bump: profile_bump },
            AuthorizedVault { authority, vault, expires_at, revoked: false, bump: vault_bump },
            VaultBackup {
                authority,
                vault,
                version: backup_version,
                ciphertext: backup_ciphertext,
                iv: backup_iv,
                salt: backup_salt,
                kdf_salt: backup_kdf_salt,
                updated_at: now,
                bump: backup_bump,
            },
        )),
{
    if backup_ciphertext.len() == 0 {
        return Err(GameStateError::InvalidArgs);
    }
    if backup_ciphertext.len() > MAX_VAULT_BACKUP_LEN {
        return Err(GameStateError::BackupTooLarge);
    }
    if !(expires_at == 0 || expires_at > now) {
        return Err(GameStateError::InvalidArgs);
    }
    Ok((
        PlayerProfile { authority, planet_count: 0, bump: profile_bump },
        AuthorizedVault { authority, vault, expires_at, revoked: false, bump: vault_bump },
        VaultBackup {
            authority,
            vault,
            version: backup_version,
            ciphertext: backup_ciphertext,
            iv: backup_iv,
            salt: backup_salt,
            kdf_salt: backup_kdf_salt,
            updated_at: now,
            bump: backup_bump,
        },
    ))
}

/// Points the delegation and its backup at `new_vault`, active until `expires_at`. On an error
/// nothing changes.
pub fn rotate_vault(
    authorized_vault: &mut AuthorizedVault,
    backup: &mut VaultBackup,
    new_vault: Key,
    expires_at: i64,
    backup_version: u8,
    backup_ciphertext: Vec<u8>,
    backup_iv: [u8; 12],
    backup_salt: [u8; 16],
    backup_kdf_salt: [u8; 16],
    now: i64,
) -> (r: Result<(), GameStateError>)
    ensures
        r == backup_check(backup_ciphertext@.len(), expires_at, now),
        r is Err ==> *final(authorized_vault) == *old(authorized_vault) && *final(backup) == *old(backup),
        r is Ok ==> *final(authorized_vault) == (AuthorizedVault { vault: new_vault, expires_at, revoked: false, ..*old(authorized_vault) })
            && *final(backup) == (VaultBackup {
                vault: new_vault,
                version: backup_version,
                ciphertext: backup_ciphertext,
                iv: backup_iv,
                salt: backup_salt,
                kdf_salt: backup_kdf_salt,
                updated_at: now,
                ..*old(backup)
            }),
{
    if backup_ciphertext.len() == 0 {
        return Err(GameStateError::InvalidArgs);
    }
    if backup_ciphertext.len() > MAX_VAULT_BACKUP_LEN {
        return Err(GameStateError::BackupTooLarge);
    }
    if !(expires_at == 0 || expires_at > now) {
        return Err(GameStateError::InvalidArgs);
    }
    authorized_vault.vault = new_vault;
    authorized_vault.expires_at = expires_at;
    authorized_vault.revoked = false;
    backup.vault = new_vault;
    backup.version = backup_version;
    backup.ciphertext = backup_ciphertext;
    backup.iv = backup_iv;
    backup.salt = backup_salt;
    backup.kdf_salt = backup_kdf_salt;
    backup.updated_at = now;
    Ok(())
}

/// Revokes the delegation at once.
pub fn revoke_vault(authorized_vault: &mut AuthorizedVault)
    ensures
        *final(authorized_vault) == (AuthorizedVault { revoked: true, ..*old(authorized_vault) }),
{
    authorized_vault.revoked = true;
}

/// Sets a new expiry (zero for none, else after `now`) and lifts any revocation.
pub fn extend_vault(authorized_vault: &mut AuthorizedVault, expires_at: i64, now: i64) -> (r: Result<(), GameStateError>)
    ensures
        !(expires_at == 0 || expires_at > now) ==> r == Err::<(), GameStateError>(GameStateError::InvalidArgs)
            && *final(authorized_vault) == *old(authorized_vault),
        (expires_at == 0 || expires_at > now) ==> r == Ok::<(), GameStateError>(())
            && *final(authorized_vault) == (AuthorizedVault { expires_at, revoked: false, ..*old(authorized_vault) }),
{
    if !(expires_at == 0 || expires_at > now) {
        return Err(GameStateError::InvalidArgs);
    }
    authorized_vault.expires_at = expires_at;
    authorized_vault.revoked = false;
    Ok(())
}

} // verus!
