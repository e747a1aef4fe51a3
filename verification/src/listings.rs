//! Planet listings: checking a planet's raw account bytes, and opening, withdrawing and buying
//! a listing.
use vstd::prelude::*;

use crate::address::{planet_coords_address, planet_coords_seeds, program_address};
use crate::key::{all_zero, Key};
use crate::market::{
    game_state_program_bytes, game_state_program_id, require_protocol_antimatter_treasury,
    settle_sale, settlement_spec, MarketConfig, MarketError, PlanetListing, PlanetListingIndex,
    PlanetMarketObligation, SellerCounter, Settlement, ANTIMATTER_SCALE, MAX_OFFERS_PER_WALLET,
};
use crate::address::is_associated_token_address;
use crate::offers::counter_after_open;

verus! {

/// Where a planet account stores its owner's key.
pub const PLANET_STATE_AUTHORITY_OFFSET: usize = 8;
/// Where a planet account stores its index among its owner's planets.
pub const PLANET_STATE_INDEX_OFFSET: usize = 72;
/// Where a planet account stores its count of missions in flight.
pub const PLANET_STATE_ACTIVE_MISSIONS_OFFSET: usize = 414;
/// Where a coordinate account stores its galaxy.
pub const PLANET_COORDS_GALAXY_OFFSET: usize = 8;
/// Where a coordinate account stores its system.
pub const PLANET_COORDS_SYSTEM_OFFSET: usize = 10;
/// Where a coordinate account stores its position.
pub const PLANET_COORDS_POSITION_OFFSET: usize = 12;
/// Where a coordinate account stores its planet's key.
pub const PLANET_COORDS_PLANET_OFFSET: usize = 13;
/// Where a coordinate account stores its owner's key.
pub const PLANET_COORDS_AUTHORITY_OFFSET: usize = 45;

/// Reads the 32-byte key that starts at `offset`; refused where the data is too short.
pub fn read_pubkey_at(data: &[u8], offset: usize) -> (r: Result<Key, MarketError>)
    ensures
        r is Ok <==> offset + 32 <= data@.len(),
        r matches Ok(k) ==> k@ == data@.subrange(offset as int, offset + 32),
        r is Err ==> r == Err::<Key, MarketError>(MarketError::InvalidSellerPlanet),
{
    if data.len() < 32 || offset > data.len() - 32 {
        return Err(MarketError::InvalidSellerPlanet);
    }
    let mut bytes = [0u8; 32];
    let mut i: usize = 0;
    while i < 32
        invariant
            i <= 32,
            offset + 32 <= data.len(),
            forall|j: int| 0 <= j < i ==> bytes@[j] == data@[offset + j],
        decreases 32 - i,
    {
        bytes[i] = data[offset + i];
        i = i + 1;
    }
    let k = Key { bytes };
    assert(k@ =~= data@.subrange(offset as int, offset + 32));
    Ok(k)
}

/// What the check of a planet's raw account bytes answers: the planet must belong to
/// `expected_authority`, must not be its owner's homeworld (index zero) and must have no
/// mission in flight.
pub open spec fn planet_authority_check(data: Seq<u8>, expected_authority: Seq<u8>) -> Result<(), MarketError> {
    if data.len() < 40 {
        Err(MarketError::InvalidSellerPlanet)
    } else if data.subrange(8, 40) != expected_authority {
        Err(MarketError::InvalidSellerPlanet)
    } else if data.len() < 76 {
        Err(MarketError::InvalidSellerPlanet)
    } else if vstd::bytes::spec_u32_from_le_bytes(data.subrange(72, 76)) == 0 {
        Err(MarketError::HomeworldNotSellable)
    } else if data.len() <= 414 {
        Err(MarketError::InvalidSellerPlanet)
    } else if data[414] != 0 {
        Err(MarketError::PlanetHasActiveMissions)
    } else {
        Ok(())
    }
}

/// Checks that the planet whose account bytes are `data` may be sold by `expected_authority`.
pub fn validate_planet_authority(data: &[u8], expected_authority: Key) -> (r: Result<(), MarketError>)
    ensures
        r == planet_authority_check(data@, expected_authority@),
{
    let authority = match read_pubkey_at(data, PLANET_STATE_AUTHORITY_OFFSET) {
        Ok(k) => k,
        Err(e) => {
            return Err(e);
        },
    };
    if !authority.same_as(&expected_authority) {
        return Err(MarketError::InvalidSellerPlanet);
    }
    if data.len() < PLANET_STATE_INDEX_OFFSET + 4 {
        return Err(MarketError::InvalidSellerPlanet);
    }
    let index_bytes = vstd::slice::slice_subrange(data, PLANET_STATE_INDEX_OFFSET, PLANET_STATE_INDEX_OFFSET + 4);
    let planet_index = vstd::bytes::u32_from_le_bytes(index_bytes);
    if planet_index == 0 {
        return Err(MarketError::HomeworldNotSellable);
    }
    if data.len() <= PLANET_STATE_ACTIVE_MISSIONS_OFFSET {
        return Err(MarketError::InvalidSellerPlanet);
    }
    if data[PLANET_STATE_ACTIVE_MISSIONS_OFFSET] != 0 {
        return Err(MarketError::PlanetHasActiveMissions);
    }
    Ok(())
}

/// The galaxy, system and position that a coordinate account's bytes hold.
pub open spec fn coords_place(data: Seq<u8>) -> (u16, u16, u8) {
    (
        vstd::bytes::spec_u16_from_le_bytes(data.subrange(8, 10)),
        vstd::bytes::spec_u16_from_le_bytes(data.subrange(10, 12)),
        data[12],
    )
}

/// What the check of a planet's coordinate account answers: it must be the game program's,
/// name `expected_planet` and `expected_authority`, and sit at the address the game program
/// derives from the place it records.
pub open spec fn planet_coords_check(
    owner: Seq<u8>,
    coords_key: Seq<u8>,
    data: Seq<u8>,
    expected_planet: Seq<u8>,
    expected_authority: Seq<u8>,
) -> Result<(), MarketError> {
    if owner != game_state_program_bytes() {
        Err(MarketError::InvalidSellerPlanet)
    } else if data.len() < 77 {
        Err(MarketError::InvalidSellerPlanet)
    } else if data.subrange(13, 45) != expected_planet {
        Err(MarketError::InvalidSellerPlanet)
    } else if data.subrange(45, 77) != expected_authority {
        Err(MarketError::InvalidSellerPlanet)
    } else {
        let (g, s, p) = coords_place(data);
        match program_address(planet_coords_seeds(g, s, p), game_state_program_bytes()) {
            Some((addr, _)) => if coords_key == addr {
                Ok(())
            } else {
                Err(MarketError::InvalidSellerPlanet)
            },
            None => Err(MarketError::InvalidSellerPlanet),
        }
    }
}

/// Checks a planet's coordinate account, owned by `owner`, at `coords_key`, holding `data`.
pub fn validate_planet_coords(
    owner: Key,
    coords_key: Key,
    data: &[u8],
    expected_planet: Key,
    expected_authority: Key,
) -> (r: Result<(), MarketError>)
    ensures
        r == planet_coords_check(owner@, coords_key@, data@, expected_planet@, expected_authority@),
{
    let game_program = game_state_program_id();
    if !owner.same_as(&game_program) {
        return Err(MarketError::InvalidSellerPlanet);
    }
    if data.len() < PLANET_COORDS_AUTHORITY_OFFSET + 32 {
        return Err(MarketError::InvalidSellerPlanet);
    }
    let planet = match read_pubkey_at(data, PLANET_COORDS_PLANET_OFFSET) {
        Ok(k) => k,
        Err(e) => {
            return Err(e);
        },
    };
    let authority = match read_pubkey_at(data, PLANET_COORDS_AUTHORITY_OFFSET) {
        Ok(k) => k,
        Err(e) => {
            return Err(e);
        },
    };
    if !planet.same_as(&expected_planet) {
        return Err(MarketError::InvalidSellerPlanet);
    }
    if !authority.same_as(&expected_authority) {
        return Err(MarketError::InvalidSellerPlanet);
    }
    let galaxy = vstd::bytes::u16_from_le_bytes(
        vstd::slice::slice_subrange(data, PLANET_COORDS_GALAXY_OFFSET, PLANET_COORDS_GALAXY_OFFSET + 2),
    );
    let system = vstd::bytes::u16_from_le_bytes(
        vstd::slice::slice_subrange(data, PLANET_COORDS_SYSTEM_OFFSET, PLANET_COORDS_SYSTEM_OFFSET + 2),
    );
    let position = data[PLANET_COORDS_POSITION_OFFSET];
    match planet_coords_address(galaxy, system, position, &game_program) {
        Some((expected, _)) => {
            if coords_key.same_as(&expected) {
                Ok(())
            } else {
                Err(MarketError::InvalidSellerPlanet)
            }
        },
        None => Err(MarketError::InvalidSellerPlanet),
    }
}

/// The listing index once `listing` stops offering `planet`, with the answer; `None` stands for
/// an index account that is not the market's, which nothing updates.
pub open spec fn deactivate_index_spec(index: Option<PlanetListingIndex>, listing: Seq<u8>, planet: Seq<u8>) -> (Option<PlanetListingIndex>, Result<(), MarketError>) {
    match index {
        None => (None, Ok(())),
        Some(i) => if i.listing@ != listing || i.planet@ != planet {
            (index, Err(MarketError::InvalidSellerPlanet))
        } else {
            (Some(PlanetListingIndex { active: false, ..i }), Ok(()))
        },
    }
}

/// Marks the planet's listing index inactive.
pub fn deactivate_listing_index(
    listing_index: &mut Option<PlanetListingIndex>,
    expected_listing: Key,
    expected_planet: Key,
) -> (r: Result<(), MarketError>)
    ensures
        (*final(listing_index), r) == deactivate_index_spec(*old(listing_index), expected_listing@, expected_planet@),
{
    match listing_index {
        None => Ok(()),
        Some(i) => {
            if !i.listing.same_as(&expected_listing) || !i.planet.same_as(&expected_planet) {
                Err(MarketError::InvalidSellerPlanet)
            } else {
                i.active = false;
                Ok(())
            }
        },
    }
}

/// What the obligation check answers: a planet with open resource offers cannot be listed.
pub open spec fn no_obligations_check(obligation: Option<PlanetMarketObligation>, planet: Seq<u8>) -> Result<(), MarketError> {
    match obligation {
        None => Ok(()),
        Some(o) => if o.planet@ != planet {
            Err(MarketError::InvalidSellerPlanet)
        } else if o.active_resource_offers != 0 {
            Err(MarketError::PlanetHasActiveMarketOffers)
        } else {
            Ok(())
        },
    }
}

/// Refuses a planet that open resource offers draw on.
pub fn require_no_market_obligations(obligation: Option<PlanetMarketObligation>, expected_planet: Key) -> (r: Result<(), MarketError>)
    ensures
        r == no_obligations_check(obligation, expected_planet@),
{
    match obligation {
        None => Ok(()),
        Some(o) => {
            if !o.planet.same_as(&expected_planet) {
                Err(MarketError::InvalidSellerPlanet)
            } else if o.active_resource_offers != 0 {
                Err(MarketError::PlanetHasActiveMarketOffers)
            } else {
                Ok(())
            }
        },
    }
}

/// The raw accounts of a planet offered for sale: the planet's bytes, and its coordinate
/// account's key, owner and bytes.
pub struct PlanetAccounts<'a> {
    pub planet_data: &'a [u8],
    pub coords_key: Key,
    pub coords_owner: Key,
    pub coords_data: &'a [u8],
}

/// Why a new planet listing is refused, if it is.
pub open spec fn create_listing_check(
    counter: SellerCounter,
    index: PlanetListingIndex,
    obligation: Option<PlanetMarketObligation>,
    seller: Seq<u8>,
    planet: Seq<u8>,
    accounts: PlanetAccounts,
    price_antimatter: u64,
) -> Result<(), MarketError> {
    if price_antimatter < ANTIMATTER_SCALE {
        Err(MarketError::PriceTooLow)
    } else if counter.active_offers >= MAX_OFFERS_PER_WALLET {
        Err(MarketError::TooManyOffers)
    } else if planet_authority_check(accounts.planet_data@, seller) is Err {
        planet_authority_check(accounts.planet_data@, seller)
    } else if planet_coords_check(accounts.coords_owner@, accounts.coords_key@, accounts.coords_data@, planet, seller) is Err {
        planet_coords_check(accounts.coords_owner@, accounts.coords_key@, accounts.coords_data@, planet, seller)
    } else if index.active {
        Err(MarketError::PlanetAlreadyListed)
    } else if no_obligations_check(obligation, planet) is Err {
        no_obligations_check(obligation, planet)
    } else if !all_zero(counter.seller@) && counter.seller@ != seller {
        Err(MarketError::Unauthorized)
    } else {
        Ok(())
    }
}

/// Lists the seller's `planet` for sale at a price in ANTIMATTER base units. On success the
/// seller's counter and the market's offer total go up, the planet's index points at the new
/// listing (at `listing_key`), and the listing is returned; on an error nothing changes.
pub fn create_planet_listing(
    config: &mut MarketConfig,
    counter: &mut SellerCounter,
    listing_index: &mut PlanetListingIndex,
    obligation: Option<PlanetMarketObligation>,
    seller: Key,
    planet: Key,
    accounts: &PlanetAccounts,
    listing_key: Key,
    counter_bump: u8,
    listing_bump: u8,
    index_bump: u8,
    price_antimatter: u64,
    now: i64,
) -> (r: Result<PlanetListing, MarketError>)
    ensures
        match create_listing_check(*old(counter), *old(listing_index), obligation, seller@, planet@, *accounts, price_antimatter) {
            Err(e) => {
                &&& r == Err::<PlanetListing, MarketError>(e)
                &&& *final(config) == *old(config)
                &&& *final(counter) == *old(counter)
                &&& *final(listing_index) == *old(listing_index)
            },
            Ok(()) => {
                &&& r == Ok::<PlanetListing, MarketError>(PlanetListing {
                    seller,
                    planet,
                    planet_coords: accounts.coords_key,
                    price_antimatter,
                    created_at: now,
                    listing_id: old(counter).next_offer_id,
                    filled: false,
                    bump: listing_bump,
                })
                &&& *final(counter) == counter_after_open(*old(counter), seller, counter_bump)
                &&& *final(listing_index) == (PlanetListingIndex { planet, listing: listing_key, seller, active: true, bump: index_bump })
                &&& *final(config) == (MarketConfig { total_offers: old(config).total_offers.saturating_add(1), ..*old(config) })
            },
        },
{
    if price_antimatter < ANTIMATTER_SCALE {
        return Err(MarketError::PriceTooLow);
    }
    if counter.active_offers >= MAX_OFFERS_PER_WALLET {
        return Err(MarketError::TooManyOffers);
    }
    match validate_planet_authority(accounts.planet_data, seller) {
        Err(e) => {
            return Err(e);
        },
        Ok(()) => {},
    }
    match validate_planet_coords(accounts.coords_owner, accounts.coords_key, accounts.coords_data, planet, seller) {
        Err(e) => {
            return Err(e);
        },
        Ok(()) => {},
    }
    if listing_index.active {
        return Err(MarketError::PlanetAlreadyListed);
    }
    match require_no_market_obligations(obligation, planet) {
        Err(e) => {
            return Err(e);
        },
        Ok(()) => {},
    }
    if !counter.seller.is_zero() && !counter.seller.same_as(&seller) {
        return Err(MarketError::Unauthorized);
    }
    let listing_id = counter.next_offer_id;
    if counter.seller.is_zero() {
        counter.seller = seller;
        counter.bump = counter_bump;
    }
    counter.next_offer_id = counter.next_offer_id.saturating_add(1);
    counter.active_offers = counter.active_offers.saturating_add(1);
    *listing_index = PlanetListingIndex { planet, listing: listing_key, seller, active: true, bump: index_bump };
    config.total_offers = config.total_offers.saturating_add(1);
    Ok(PlanetListing {
        seller,
        planet,
        planet_coords: accounts.coords_key,
        price_antimatter,
        created_at: now,
        listing_id,
        filled: false,
        bump: listing_bump,
    })
}

/// Why withdrawing `listing` is refused, if it is.
pub open spec fn cancel_listing_check(listing: PlanetListing, counter: SellerCounter, seller: Seq<u8>) -> Result<(), MarketError> {
    if listing.seller@ != seller {
        Err(MarketError::Unauthorized)
    } else if listing.filled {
        Err(MarketError::AlreadyFilled)
    } else if counter.seller@ != seller {
        Err(MarketError::Unauthorized)
    } else {
        Ok(())
    }
}

/// Withdraws the seller's open planet listing (at `listing_key`): the seller's open count goes
/// down by one (never below zero) and the planet's index stops pointing at the listing. On an
/// error nothing changes.
pub fn cancel_planet_listing(
    listing: &PlanetListing,
    listing_key: Key,
    counter: &mut SellerCounter,
    listing_index: &mut Option<PlanetListingIndex>,
    seller: Key,
) -> (r: Result<(), MarketError>)
    ensures
        match cancel_listing_check(*listing, *old(counter), seller@) {
            Err(e) => r == Err::<(), MarketError>(e) && *final(counter) == *old(counter) && *final(listing_index) == *old(listing_index),
            Ok(()) => {
                let (i, res) = deactivate_index_spec(*old(listing_index), listing_key@, listing.planet@);
                &&& r == res
                &&& res is Ok ==> *final(listing_index) == i && *final(counter) == (SellerCounter {
                    active_offers: old(counter).active_offers.saturating_sub(1),
                    ..*old(counter)
                })
                &&& res is Err ==> *final(listing_index) == *old(listing_index) && *final(counter) == *old(counter)
            },
        },
{
    if !listing.seller.same_as(&seller) {
        return Err(MarketError::Unauthorized);
    }
    if listing.filled {
        return Err(MarketError::AlreadyFilled);
    }
    if !counter.seller.same_as(&seller) {
        return Err(MarketError::Unauthorized);
    }
    let r = deactivate_listing_index(listing_index, listing_key, listing.planet);
    if r.is_ok() {
        counter.active_offers = counter.active_offers.saturating_sub(1);
    }
    r
}

/// What the listing index answers to a purchase of the listing at `listing_key`.
pub open spec fn index_for_purchase_check(index: Option<PlanetListingIndex>, listing_key: Seq<u8>, planet: Seq<u8>) -> Result<(), MarketError> {
    match index {
        None => Ok(()),
        Some(i) => if !i.active {
            Err(MarketError::AlreadyFilled)
        } else if i.listing@ != listing_key || i.planet@ != planet {
            Err(MarketError::InvalidSellerPlanet)
        } else {
            Ok(())
        },
    }
}

/// Why buying `listing` for `buyer` is refused, if it is.
pub open spec fn buy_listing_check(
    config: MarketConfig,
    listing: PlanetListing,
    listing_key: Seq<u8>,
    counter: SellerCounter,
    index: Option<PlanetListingIndex>,
    buyer: Seq<u8>,
    accounts: PlanetAccounts,
    buyer_balance: u64,
    treasury: Seq<u8>,
    mint: Seq<u8>,
) -> Result<(), MarketError> {
    if listing.filled {
        Err(MarketError::AlreadyFilled)
    } else if counter.seller@ != listing.seller@ {
        Err(MarketError::Unauthorized)
    } else if buyer == listing.seller@ {
        Err(MarketError::Unauthorized)
    } else if index_for_purchase_check(index, listing_key, listing.planet@) is Err {
        index_for_purchase_check(index, listing_key, listing.planet@)
    } else if planet_authority_check(accounts.planet_data@, listing.seller@) is Err {
        planet_authority_check(accounts.planet_data@, listing.seller@)
    } else if planet_coords_check(accounts.coords_owner@, accounts.coords_key@, accounts.coords_data@, listing.planet@, listing.seller@) is Err {
        planet_coords_check(accounts.coords_owner@, accounts.coords_key@, accounts.coords_data@, listing.planet@, listing.seller@)
    } else if buyer_balance < listing.price_antimatter {
        Err(MarketError::InsufficientAntimatter)
    } else if settlement_spec(listing.price_antimatter).fee > 0 && !is_associated_token_address(treasury, config.admin@, mint) {
        Err(MarketError::InvalidTokenAccount)
    } else {
        Ok(())
    }
}

/// Buys the planet that `listing` (at `listing_key`) offers, for `buyer` whose ANTIMATTER
/// balance is `buyer_balance`. On success the listing is marked filled, the seller's open count
/// goes down by one, the planet's index stops pointing at the listing, the market's volume grows
/// by the price, and the split of the payment is returned; on an error nothing changes.
pub fn buy_planet_listing(
    config: &mut MarketConfig,
    listing: &mut PlanetListing,
    listing_key: Key,
    counter: &mut SellerCounter,
    listing_index: &mut Option<PlanetListingIndex>,
    buyer: Key,
    accounts: &PlanetAccounts,
    buyer_balance: u64,
    treasury: Key,
    mint: Key,
) -> (r: Result<Settlement, MarketError>)
    ensures
        match buy_listing_check(*old(config), *old(listing), listing_key@, *old(counter), *old(listing_index), buyer@, *accounts, buyer_balance, treasury@, mint@) {
            Err(e) => {
                &&& r == Err::<Settlement, MarketError>(e)
                &&& *final(config) == *old(config)
                &&& *final(listing) == *old(listing)
                &&& *final(counter) == *old(counter)
                &&& *final(listing_index) == *old(listing_index)
            },
            Ok(()) => {
                &&& r == Ok::<Settlement, MarketError>(settlement_spec(old(listing).price_antimatter))
                &&& *final(listing) == (PlanetListing { filled: true, ..*old(listing) })
                &&& *final(counter) == (SellerCounter { active_offers: old(counter).active_offers.saturating_sub(1), ..*old(counter) })
                &&& *final(listing_index) == deactivate_index_spec(*old(listing_index), listing_key@, old(listing).planet@).0
                &&& *final(config) == (MarketConfig {
                    total_volume: old(config).total_volume.saturating_add(old(listing).price_antimatter as u128),
                    ..*old(config)
                })
            },
        },
{
    if listing.filled {
        return Err(MarketError::AlreadyFilled);
    }
    if !counter.seller.same_as(&listing.seller) {
        return Err(MarketError::Unauthorized);
    }
    if buyer.same_as(&listing.seller) {
        return Err(MarketError::Unauthorized);
    }
    match listing_index {
        None => {},
        Some(i) => {
            if !i.active {
                return Err(MarketError::AlreadyFilled);
            }
            if !i.listing.same_as(&listing_key) || !i.planet.same_as(&listing.planet) {
                return Err(MarketError::InvalidSellerPlanet);
            }
        },
    }
    match validate_planet_authority(accounts.planet_data, listing.seller) {
        Err(e) => {
            return Err(e);
        },
        Ok(()) => {},
    }
    match validate_planet_coords(accounts.coords_owner, accounts.coords_key, accounts.coords_data, listing.planet, listing.seller) {
        Err(e) => {
            return Err(e);
        },
        Ok(()) => {},
    }
    let price = listing.price_antimatter;
    let split = settle_sale(price);
    if buyer_balance < price {
        return Err(MarketError::InsufficientAntimatter);
    }
    if split.fee > 0 {
        match require_protocol_antimatter_treasury(treasury, config.admin, mint) {
            Err(e) => {
                return Err(e);
            },
            Ok(()) => {},
        }
    }
    listing.filled = true;
    counter.active_offers = counter.active_offers.saturating_sub(1);
    let planet = listing.planet;
    let _ = deactivate_listing_index(listing_index, listing_key, planet);
    config.total_volume = config.total_volume.saturating_add(price as u128);
    Ok(split)
}

} // verus!
