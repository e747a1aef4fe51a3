//! The game's global settings: who administers them and which mint ANTIMATTER is.
use vstd::prelude::*;

use crate::accounts::GameConfig;
use crate::error::GameStateError;
use crate::key::Key;

verus! {

/// Creates the global settings; only the protocol authority may, and only with the protocol's
/// ANTIMATTER mint.
pub fn initialize_game_config(
    admin: Key,
    antimatter_mint: Key,
    protocol_authority: Key,
    protocol_antimatter_mint: Key,
    bump: u8,
) -> (r: Result<GameConfig, GameStateError>)
    ensures
        admin@ != protocol_authority@ ==> r == Err::<GameConfig, GameStateError>(GameStateError::Unauthorized),
        admin@ == protocol_authority@ && antimatter_mint@ != protocol_antimatter_mint@ ==> r == Err::<GameConfig, GameStateError>(
            GameStateError::InvalidAntimatterMint,
        ),
        admin@ == protocol_authority@ && antimatter_mint@ == protocol_antimatter_mint@ ==> r == Ok::<GameConfig, GameStateError>(
            GameConfig { admin, antimatter_mint, bump },
        ),
{
    if !admin.same_as(&protocol_authority) {
        return Err(GameStateError::Unauthorized);
    }
    if !antimatter_mint.same_as(&protocol_antimatter_mint) {
        return Err(GameStateError::InvalidAntimatterMint);
    }
    Ok(GameConfig { admin, antimatter_mint, bump })
}

/// Points the settings at `antimatter_mint`, which must be the protocol's ANTIMATTER mint.
pub fn update_antimatter_mint(config: &mut GameConfig, antimatter_mint: Key, protocol_antimatter_mint: Key) -> (r: Result<
    (),
    GameStateError,
>)
    ensures
        antimatter_mint@ != protocol_antimatter_mint@ ==> r == Err::<(), GameStateError>(GameStateError::InvalidAntimatterMint)
            && *final(config) == *old(config),
        antimatter_mint@ == protocol_antimatter_mint@ ==> r == Ok::<(), GameStateError>(()) && *final(config) == (GameConfig {
            antimatter_mint,
            ..*old(config)
        }),
{
    if !antimatter_mint.same_as(&protocol_antimatter_mint) {
        return Err(GameStateError::InvalidAntimatterMint);
    }
    config.antimatter_mint = antimatter_mint;
    Ok(())
}

} // verus!
