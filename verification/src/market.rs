//! The resource and planet market: its records, its fee, and the byte layout of the requests it
//! sends to the game program.
use vstd::prelude::*;

use crate::address::{is_associated_token_account, is_associated_token_address};
use crate::key::Key;

verus! {

/// Error kinds that the market reports.
#[derive(Debug, Clone, Copy, PartialEq, Eq, Structural)]
pub enum MarketError {
    Unauthorized,
    AmountTooSmall,
    PriceTooLow,
    TooManyOffers,
    AlreadyFilled,
    InsufficientAntimatter,
    InvalidSeller,
    InvalidSellerPlanet,
    InvalidMint,
    InvalidTokenAccount,
    InsufficientResources,
    PlanetAlreadyListed,
    HomeworldNotSellable,
    PlanetHasActiveMissions,
    PlanetHasActiveMarketOffers,
}

/// The resource an offer sells.
#[derive(Debug, Clone, Copy, PartialEq, Eq, Structural)]
pub enum ResourceType {
    Metal,
    Crystal,
    Deuterium,
}

/// The byte that encodes a resource in requests to the game program.
pub open spec fn resource_code_spec(r: ResourceType) -> u8 {
    match r {
        ResourceType::Metal => 0,
        ResourceType::Crystal => 1,
        ResourceType::Deuterium => 2,
    }
}

/// The name of a resource: `metal`, `crystal` or `deuterium`.
pub open spec fn resource_name_spec(r: ResourceType) -> Seq<char> {
    match r {
        ResourceType::Metal => "metal"@,
        ResourceType::Crystal => "crystal"@,
        ResourceType::Deuterium => "deuterium"@,
    }
}

impl ResourceType {
    /// The byte that encodes this resource.
    pub fn code(&self) -> (c: u8)
        ensures
            c == resource_code_spec(*self),
    {
        match self {
            ResourceType::Metal => 0,
            ResourceType::Crystal => 1,
            ResourceType::Deuterium => 2,
        }
    }

    /// The resource a byte encodes, if any.
    pub fn from_code(code: u8) -> (r: Option<ResourceType>)
        ensures
            code <= 2 <==> r is Some,
            r matches Some(t) ==> resource_code_spec(t) == code,
    {
        if code == 0 {
            Some(ResourceType::Metal)
        } else if code == 1 {
            Some(ResourceType::Crystal)
        } else if code == 2 {
            Some(ResourceType::Deuterium)
        } else {
            None
        }
    }

    /// The resource's name.
    pub fn as_str(&self) -> (s: &'static str)
        ensures
            s@ == resource_name_spec(*self),
    {
        match self {
            ResourceType::Metal => "metal",
            ResourceType::Crystal => "crystal",
            ResourceType::Deuterium => "deuterium",
        }
    }
}

/// The market's settings and running totals.
#[derive(Clone, Copy, Debug)]
pub struct MarketConfig {
    pub admin: Key,
    pub antimatter_mint: Key,
    pub total_volume: u128,
    pub total_offers: u64,
    pub bump: u8,
}

/// A seller's offer of resources for ANTIMATTER.
#[derive(Clone, Copy, Debug)]
pub struct MarketOffer {
    pub seller: Key,
    pub seller_planet: Key,
    pub resource_type: ResourceType,
    pub resource_amount: u64,
    pub price_antimatter: u64,
    pub created_at: i64,
    pub offer_id: u32,
    pub filled: bool,
    pub bump: u8,
}

/// A seller's offer of a whole planet for ANTIMATTER.
#[derive(Clone, Copy, Debug)]
pub struct PlanetListing {
    pub seller: Key,
    pub planet: Key,
    pub planet_coords: Key,
    pub price_antimatter: u64,
    pub created_at: i64,
    pub listing_id: u32,
    pub filled: bool,
    pub bump: u8,
}

/// Which listing, if any, currently offers a planet.
#[derive(Clone, Copy, Debug)]
pub struct PlanetListingIndex {
    pub planet: Key,
    pub listing: Key,
    pub seller: Key,
    pub active: bool,
    pub bump: u8,
}

/// How many resource offers currently draw on a planet's stock.
#[derive(Clone, Copy, Debug)]
pub struct PlanetMarketObligation {
    pub planet: Key,
    pub active_resource_offers: u32,
    pub bump: u8,
}

/// A seller's offer numbering and count of open offers and listings.
#[derive(Clone, Copy, Debug)]
pub struct SellerCounter {
    pub seller: Key,
    pub next_offer_id: u32,
    pub active_offers: u32,
    pub bump: u8,
}

/// The bytes of the game program's address.
pub open spec fn game_state_program_bytes() -> Seq<u8> {
    seq![
        103u8, 148, 27, 1, 200, 217, 76, 87, 92, 42, 194, 80, 114, 230, 121, 192, 54, 239, 209, 103,
        217, 18, 202, 213, 138, 22, 161, 194, 40, 24, 140, 181,
    ]
}

/// The address of the game program that owns planets and their coordinate accounts.
pub fn game_state_program_id() -> (k: Key)
    ensures
        k@ == game_state_program_bytes(),
{
    let k = Key {
        bytes: [
            103u8, 148, 27, 1, 200, 217, 76, 87, 92, 42, 194, 80, 114, 230, 121, 192, 54, 239, 209,
            103, 217, 18, 202, 213, 138, 22, 161, 194, 40, 24, 140, 181,
        ],
    };
    assert(k@ =~= game_state_program_bytes());
    k
}

/// One ANTIMATTER token in base units.
pub const ANTIMATTER_SCALE: u64 = 1_000_000;
/// The most offers and listings a wallet may have open at once.
pub const MAX_OFFERS_PER_WALLET: u32 = 20;
/// The smallest amount of a resource an offer may sell.
pub const MIN_RESOURCE_AMOUNT: u64 = 1_000;
/// The market's fee in basis points of the price.
pub const MARKET_FEE_BPS: u64 = 25;

/// The fee on `amount`, rounded down, computed without overflow.
pub open spec fn market_fee_spec(amount: u64) -> int {
    amount * MARKET_FEE_BPS / 10_000
}

/// The market fee on `amount`: `amount * 25 / 10000`, rounded down.
pub fn market_fee(amount: u64) -> (fee: u64)
    ensures
        fee == market_fee_spec(amount),
{
    let wide: u128 = (amount as u128) * (MARKET_FEE_BPS as u128) / 10_000;
    assert(wide <= amount) by (nonlinear_arith)
        requires
            wide == (amount as u128) * 25 / 10_000,
    ;
    wide as u64
}

/// The fee charged when a sale at `price` settles: the price times the fee rate, saturated at
/// the largest `u64`, divided by ten thousand.
pub open spec fn sale_fee_spec(price: u64) -> int {
    (crate::num::clamp_u64(price * MARKET_FEE_BPS) / 10_000) as int
}

/// How the buyer's payment is split when a sale settles.
#[derive(Clone, Copy, Debug)]
pub struct Settlement {
    pub price: u64,
    pub fee: u64,
    pub seller_receives: u64,
}

/// The split of a payment of `price`.
pub open spec fn settlement_spec(price: u64) -> Settlement {
    Settlement {
        price,
        fee: sale_fee_spec(price) as u64,
        seller_receives: (price - sale_fee_spec(price)) as u64,
    }
}

/// Splits a payment of `price` into the fee and what the seller receives.
pub fn settle_sale(price: u64) -> (s: Settlement)
    ensures
        s == settlement_spec(price),
        s.fee + s.seller_receives == price,
{
    let product: u64 = crate::num::sat_mul(price, MARKET_FEE_BPS);
    let fee: u64 = product / 10_000;
    assert(fee <= price) by (nonlinear_arith)
        requires
            product <= price * 25,
            fee == product / 10_000,
    ;
    Settlement { price, fee, seller_receives: price - fee }
}

/// One account that a request to another program names.
#[derive(Clone, Copy, Debug)]
pub struct InstructionAccount {
    pub pubkey: Key,
    pub is_signer: bool,
    pub is_writable: bool,
}

/// A request to another program: which program, which accounts, and the data bytes.
pub struct ProgramInstruction {
    pub program_id: Key,
    pub accounts: Vec<InstructionAccount>,
    pub data: Vec<u8>,
}

/// The data bytes of a resource request: the discriminator, the resource's byte, then the
/// amount in little-endian order.
pub open spec fn market_resource_data(discriminator: Seq<u8>, resource_type: ResourceType, amount: u64) -> Seq<u8> {
    discriminator + seq![resource_code_spec(resource_type)] + vstd::bytes::spec_u64_to_le_bytes(amount)
}

/// Builds a request to the game program that locks, releases or transfers resources.
pub fn build_market_resource_ix(
    discriminator: [u8; 8],
    program_id: Key,
    accounts: Vec<InstructionAccount>,
    resource_type: ResourceType,
    resource_amount: u64,
) -> (ix: ProgramInstruction)
    ensures
        ix.program_id == program_id,
        ix.accounts@ == accounts@,
        ix.data@ == market_resource_data(discriminator@, resource_type, resource_amount),
        ix.data@.len() == 17,
{
    let mut data: Vec<u8> = Vec::new();
    let mut i: usize = 0;
    while i < 8
        invariant
            i <= 8,
            data@ == discriminator@.subrange(0, i as int),
        decreases 8 - i,
    {
        data.push(discriminator[i]);
        i = i + 1;
        assert(data@ =~= discriminator@.subrange(0, i as int));
    }
    assert(discriminator@.subrange(0, 8) =~= discriminator@);
    data.push(resource_type.code());
    let amount_bytes = vstd::bytes::u64_to_le_bytes(resource_amount);
    proof {
        vstd::bytes::lemma_auto_spec_u64_to_from_le_bytes();
    }
    let ghost prefix = data@;
    let mut j: usize = 0;
    while j < amount_bytes.len()
        invariant
            j <= amount_bytes@.len(),
            amount_bytes@ == vstd::bytes::spec_u64_to_le_bytes(resource_amount),
            data@ == prefix + amount_bytes@.subrange(0, j as int),
        decreases amount_bytes@.len() - j,
    {
        data.push(amount_bytes[j]);
        j = j + 1;
        assert(data@ =~= prefix + amount_bytes@.subrange(0, j as int));
    }
    assert(amount_bytes@.subrange(0, amount_bytes@.len() as int) =~= amount_bytes@);
    ProgramInstruction { program_id, accounts, data }
}

/// The market's settings when `admin` sets it up with `antimatter_mint`.
pub fn initialize_market(admin: Key, antimatter_mint: Key, bump: u8) -> (c: MarketConfig)
    ensures
        c == (MarketConfig { admin, antimatter_mint, total_volume: 0, total_offers: 0, bump }),
{
    MarketConfig { admin, antimatter_mint, total_volume: 0, total_offers: 0, bump }
}

/// Checks that the escrow may be set up: `admin` must be the market's admin and `mint` its
/// ANTIMATTER mint.
pub fn initialize_escrow(config: &MarketConfig, admin: Key, mint: Key) -> (r: Result<(), MarketError>)
    ensures
        r == (if config.admin@ != admin@ {
            Err(MarketError::Unauthorized)
        } else if config.antimatter_mint@ != mint@ {
            Err(MarketError::InvalidMint)
        } else {
            Ok(())
        }),
{
    if !config.admin.same_as(&admin) {
        Err(MarketError::Unauthorized)
    } else if !config.antimatter_mint.same_as(&mint) {
        Err(MarketError::InvalidMint)
    } else {
        Ok(())
    }
}

/// Points the market at another ANTIMATTER mint; only its admin may.
pub fn update_market_config(config: &mut MarketConfig, admin: Key, antimatter_mint: Key) -> (r: Result<(), MarketError>)
    ensures
        r is Ok <==> old(config).admin@ == admin@,
        r is Ok ==> *final(config) == (MarketConfig { antimatter_mint, ..*old(config) }),
        r is Err ==> *final(config) == *old(config) && r == Err::<(), MarketError>(MarketError::Unauthorized),
{
    if !config.admin.same_as(&admin) {
        return Err(MarketError::Unauthorized);
    }
    config.antimatter_mint = antimatter_mint;
    Ok(())
}

/// Checks that `treasury` is the admin's associated ANTIMATTER account for `mint`.
pub fn require_protocol_antimatter_treasury(treasury: Key, admin: Key, mint: Key) -> (r: Result<(), MarketError>)
    ensures
        r is Ok <==> is_associated_token_address(treasury@, admin@, mint@),
        r is Err ==> r == Err::<(), MarketError>(MarketError::InvalidTokenAccount),
{
    if is_associated_token_account(&treasury, &admin, &mint) {
        Ok(())
    } else {
        Err(MarketError::InvalidTokenAccount)
    }
}

} // verus!
