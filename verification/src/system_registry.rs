//! The planet registry: a wallet's planet count, and for each registered planet an entry under
//! the wallet and a claim on its coordinates.
use vstd::prelude::*;

use crate::key::{all_zero, Key};

verus! {

/// A wallet's registry record: whose it is and how many planets it registered.
#[derive(Clone, Copy, Debug)]
pub struct WalletMeta {
    pub wallet: Key,
    pub planet_count: u32,
}

/// One registered planet of a wallet.
#[derive(Clone, Copy, Debug)]
pub struct PlanetRegistryEntry {
    pub wallet: Key,
    pub planet_index: u32,
    pub entity_pda: Key,
    pub planet_pda: Key,
    pub created_at: i64,
}

/// The claim of a wallet's planet on its coordinates.
#[derive(Clone, Copy, Debug)]
pub struct CoordinateRegistry {
    pub galaxy: u16,
    pub system: u16,
    pub position: u8,
    pub owner_wallet: Key,
    pub entity_pda: Key,
    pub planet_pda: Key,
}

/// Why the registry refuses.
#[derive(Clone, Copy, Debug, PartialEq, Eq, Structural)]
pub enum RegistryError {
    WalletMismatch,
    InvalidGalaxy,
    InvalidSystem,
    InvalidPosition,
    PlanetLimitReached,
}

/// Claims a fresh registry record for `wallet`, or checks that an existing one is its own.
pub fn init_wallet_meta(meta: &mut WalletMeta, wallet: Key) -> (r: Result<(), RegistryError>)
    ensures
        all_zero(old(meta).wallet@) ==> r == Ok::<(), RegistryError>(()) && *final(meta) == (WalletMeta { wallet, planet_count: 0 }),
        !all_zero(old(meta).wallet@) ==> *final(meta) == *old(meta) && (r is Ok <==> old(meta).wallet@ == wallet@)
            && (r is Err ==> r == Err::<(), RegistryError>(RegistryError::WalletMismatch)),
{
    if meta.wallet.is_zero() {
        meta.wallet = wallet;
        meta.planet_count = 0;
        Ok(())
    } else if meta.wallet.same_as(&wallet) {
        Ok(())
    } else {
        Err(RegistryError::WalletMismatch)
    }
}

/// Why registering a planet at the place is refused, if it is.
pub open spec fn register_check(meta: WalletMeta, wallet: Key, galaxy: u16, system: u16, position: u8) -> Result<(), RegistryError> {
    if meta.wallet@ != wallet@ {
        Err(RegistryError::WalletMismatch)
    } else if !(1 <= galaxy <= 9) {
        Err(RegistryError::InvalidGalaxy)
    } else if !(1 <= system <= 499) {
        Err(RegistryError::InvalidSystem)
    } else if !(1 <= position <= 15) {
        Err(RegistryError::InvalidPosition)
    } else if meta.planet_count == u32::MAX {
        Err(RegistryError::PlanetLimitReached)
    } else {
        Ok(())
    }
}

/// Registers `wallet`'s next planet at the place at `now`: hands back its entry and its
/// coordinate claim, and counts it in the wallet's record.
pub fn register_planet(
    wallet: Key,
    wallet_meta: &mut WalletMeta,
    entity_pda: Key,
    planet_pda: Key,
    galaxy: u16,
    system: u16,
    position: u8,
    now: i64,
) -> (r: Result<(PlanetRegistryEntry, CoordinateRegistry), RegistryError>)
    ensures
        match register_check(*old(wallet_meta), wallet, galaxy, system, position) {
            Err(e) => r == Err::<(PlanetRegistryEntry, CoordinateRegistry), RegistryError>(e) && *final(wallet_meta) == *old(wallet_meta),
            Ok(()) => {
                &&& r == Ok::<(PlanetRegistryEntry, CoordinateRegistry), RegistryError>((
                    PlanetRegistryEntry { wallet, planet_index: old(wallet_meta).planet_count, entity_pda, planet_pda, created_at: now },
                    CoordinateRegistry { galaxy, system, position, owner_wallet: wallet, entity_pda, planet_pda },
                ))
                &&& *final(wallet_meta) == (WalletMeta { planet_count: (old(wallet_meta).planet_count + 1) as u32, ..*old(wallet_meta) })
            },
        },
{
    if !wallet_meta.wallet.same_as(&wallet) {
        return Err(RegistryError::WalletMismatch);
    }
    if !(1 <= galaxy && galaxy <= 9) {
        return Err(RegistryError::InvalidGalaxy);
    }
    if !(1 <= system && system <= 499) {
        return Err(RegistryError::InvalidSystem);
    }
    if !(1 <= position && position <= 15) {
        return Err(RegistryError::InvalidPosition);
    }
    let index = wallet_meta.planet_count;
    let entry = PlanetRegistryEntry { wallet, planet_index: index, entity_pda, planet_pda, created_at: now };
    let coord = CoordinateRegistry { galaxy, system, position, owner_wallet: wallet, entity_pda, planet_pda };
    match wallet_meta.planet_count.checked_add(1) {
        None => Err(RegistryError::PlanetLimitReached),
        Some(n) => {
            wallet_meta.planet_count = n;
            Ok((entry, coord))
        },
    }
}

} // verus!
