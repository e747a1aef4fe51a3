//! Error kinds that the game rules report.
use vstd::prelude::*;

verus! {

#[derive(Debug, Clone, Copy, PartialEq, Eq, Structural)]
pub enum GameStateError {
    Unauthorized,
    InvalidCoordinates,
    PlanetCountOverflow,
    QueueBusy,
    NoFields,
    InsufficientMetal,
    InsufficientCrystal,
    InsufficientDeuterium,
    NoBuild,
    BuildNotFinished,
    InvalidTech,
    LabTooLow,
    ResearchQueueBusy,
    NoResearch,
    ResearchNotFinished,
    InvalidMission,
    InvalidArgs,
    InvalidShipType,
    TechLocked,
    ShipyardTooLow,
    ShipyardQueueBusy,
    NoShipBuild,
    ShipBuildNotFinished,
    EmptyFleet,
    NoMissionSlot,
    InsufficientShips,
    ExceedsCargo,
    InsufficientResources,
    InvalidMissionSlot,
    InvalidDestination,
    MissionInFlight,
    ReturnInFlight,
    AlreadyResolved,
    MissingColonyShip,
    InvalidVaultAuthorization,
    VaultAuthorizationExpired,
    VaultAuthorizationRevoked,
    BackupTooLarge,
    InvalidAntimatterMint,
    InvalidAntimatterMintDecimals,
    InvalidAntimatterAccount,
    InsufficientAntimatter,
    NoAccelerationNeeded,
    AntimatterAmountOverflow,
    UnauthorizedMarket,
    ResourceCapExceeded,
    InvalidDefenseType,
    InvalidTimestamp,
    DefenseBuildNotFinished,
    NoDefenseBuild,
    GameplayLocked,
    AttackCooldown,
    AttackPowerTooLow,
    CannotAttackOwnPlanet,
    NewPlayerProtected,
    TargetCooldown,
    InvalidQuest,
    QuestAlreadyClaimed,
    QuestRequirementsNotMet,
    DailyCheckInAlreadyClaimed,
    InvalidStorePack,
    StoreDisabled,
    StorePackAlreadyPurchased,
    InvalidUsdcMint,
    InvalidUsdcAccount,
    InsufficientUsdc,
    InvalidAllianceMember,
    InvalidAllianceMission,
    InvalidAllianceBuilding,
    AllianceMissionAlreadyClaimed,
    AllianceMissionRequirementsNotMet,
    AllianceTreasuryNotEnoughResources,
    AllianceFull,
    AllianceLeaderRequired,
    AllianceFounderCannotLeave,
    CannotExpelAllianceLeader,
    DirectAllianceJoinDisabled,
}

} // verus!
