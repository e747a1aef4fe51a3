//! Resource offers: opening, withdrawing and filling them, and the counters they keep.
use vstd::prelude::*;

use crate::address::is_associated_token_address;
use crate::key::{all_zero, Key};
use crate::market::{
    require_protocol_antimatter_treasury, settle_sale, settlement_spec, MarketConfig, MarketError,
    MarketOffer, PlanetListingIndex, PlanetMarketObligation, ResourceType, SellerCounter,
    Settlement, ANTIMATTER_SCALE, MAX_OFFERS_PER_WALLET, MIN_RESOURCE_AMOUNT,
};

verus! {

/// What the listing-index check answers: `index` is `None` where the index account is not the
/// market's, which means that no listing is tracked for the planet.
pub open spec fn planet_not_listed_check(index: Option<PlanetListingIndex>, planet: Seq<u8>) -> Result<(), MarketError> {
    match index {
        None => Ok(()),
        Some(i) => if i.planet@ != planet {
            Err(MarketError::InvalidSellerPlanet)
        } else if i.active {
            Err(MarketError::PlanetAlreadyListed)
        } else {
            Ok(())
        },
    }
}

/// Refuses a planet that an active listing offers.
pub fn require_planet_not_listed(listing_index: Option<PlanetListingIndex>, expected_planet: Key) -> (r: Result<(), MarketError>)
    ensures
        r == planet_not_listed_check(listing_index, expected_planet@),
{
    match listing_index {
        None => Ok(()),
        Some(index) => {
            if !index.planet.same_as(&expected_planet) {
                Err(MarketError::InvalidSellerPlanet)
            } else if index.active {
                Err(MarketError::PlanetAlreadyListed)
            } else {
                Ok(())
            }
        },
    }
}

/// The obligation counter after one offer on `planet` closes, with the answer; `None` stands for
/// an obligation account that is not the market's, which nothing updates.
pub open spec fn decrement_obligation_spec(o: Option<PlanetMarketObligation>, planet: Seq<u8>) -> (Option<PlanetMarketObligation>, Result<(), MarketError>) {
    match o {
        None => (None, Ok(())),
        Some(x) => if x.planet@ != planet {
            (o, Err(MarketError::InvalidSellerPlanet))
        } else {
            (Some(PlanetMarketObligation { active_resource_offers: x.active_resource_offers.saturating_sub(1), ..x }), Ok(()))
        },
    }
}

/// Counts one offer on `expected_planet` as closed.
pub fn decrement_market_obligation(obligation: &mut Option<PlanetMarketObligation>, expected_planet: Key) -> (r: Result<(), MarketError>)
    ensures
        (*final(obligation), r) == decrement_obligation_spec(*old(obligation), expected_planet@),
{
    match obligation {
        None => Ok(()),
        Some(x) => {
            if !x.planet.same_as(&expected_planet) {
                Err(MarketError::InvalidSellerPlanet)
            } else {
                x.active_resource_offers = x.active_resource_offers.saturating_sub(1);
                Ok(())
            }
        },
    }
}

/// Why a new offer is refused, if it is.
pub open spec fn create_offer_check(
    counter: SellerCounter,
    obligation: PlanetMarketObligation,
    listing_index: Option<PlanetListingIndex>,
    seller: Seq<u8>,
    seller_planet: Seq<u8>,
    resource_amount: u64,
    price_antimatter: u64,
) -> Result<(), MarketError> {
    if resource_amount < MIN_RESOURCE_AMOUNT {
        Err(MarketError::AmountTooSmall)
    } else if price_antimatter < ANTIMATTER_SCALE {
        Err(MarketError::PriceTooLow)
    } else if counter.active_offers >= MAX_OFFERS_PER_WALLET {
        Err(MarketError::TooManyOffers)
    } else if planet_not_listed_check(listing_index, seller_planet) is Err {
        planet_not_listed_check(listing_index, seller_planet)
    } else if !all_zero(counter.seller@) && counter.seller@ != seller {
        Err(MarketError::Unauthorized)
    } else if !all_zero(obligation.planet@) && obligation.planet@ != seller_planet {
        Err(MarketError::InvalidSellerPlanet)
    } else {
        Ok(())
    }
}

/// The seller's counter once an offer or listing opens: a fresh counter is claimed for the
/// seller, and both the next id and the open count go up by one.
pub open spec fn counter_after_open(counter: SellerCounter, seller: Key, bump: u8) -> SellerCounter {
    let claimed = if all_zero(counter.seller@) {
        SellerCounter { seller, bump, ..counter }
    } else {
        counter
    };
    SellerCounter {
        next_offer_id: counter.next_offer_id.saturating_add(1),
        active_offers: counter.active_offers.saturating_add(1),
        ..claimed
    }
}

/// The planet's obligation counter once an offer on it opens.
pub open spec fn obligation_after_open(o: PlanetMarketObligation, planet: Key, bump: u8) -> PlanetMarketObligation {
    let claimed = if all_zero(o.planet@) {
        PlanetMarketObligation { planet, bump, ..o }
    } else {
        o
    };
    PlanetMarketObligation { active_resource_offers: o.active_resource_offers.saturating_add(1), ..claimed }
}

/// Opens the seller's counter for a new offer or listing and returns the id it gets.
fn open_counter(counter: &mut SellerCounter, seller: Key, bump: u8) -> (id: u32)
    requires
        all_zero(old(counter).seller@) || old(counter).seller@ == seller@,
    ensures
        id == old(counter).next_offer_id,
        *final(counter) == counter_after_open(*old(counter), seller, bump),
{
    let id = counter.next_offer_id;
    if counter.seller.is_zero() {
        counter.seller = seller;
        counter.bump = bump;
    }
    counter.next_offer_id = counter.next_offer_id.saturating_add(1);
    counter.active_offers = counter.active_offers.saturating_add(1);
    id
}

/// Opens an offer of `resource_amount` of a resource from `seller_planet` at a price in
/// ANTIMATTER base units. On success the seller's counter, the planet's obligation counter and
/// the market's offer total go up, and the new offer is returned; on an error nothing changes.
/// `listing_index` is `None` where the planet's index account is not the market's.
pub fn create_offer(
    config: &mut MarketConfig,
    counter: &mut SellerCounter,
    obligation: &mut PlanetMarketObligation,
    listing_index: Option<PlanetListingIndex>,
    seller: Key,
    seller_planet: Key,
    counter_bump: u8,
    offer_bump: u8,
    obligation_bump: u8,
    resource_type: ResourceType,
    resource_amount: u64,
    price_antimatter: u64,
    now: i64,
) -> (r: Result<MarketOffer, MarketError>)
    ensures
        match create_offer_check(*old(counter), *old(obligation), listing_index, seller@, seller_planet@, resource_amount, price_antimatter) {
            Err(e) => {
                &&& r == Err::<MarketOffer, MarketError>(e)
                &&& *final(config) == *old(config)
                &&& *final(counter) == *old(counter)
                &&& *final(obligation) == *old(obligation)
            },
            Ok(()) => {
                &&& r == Ok::<MarketOffer, MarketError>(MarketOffer {
                    seller,
                    seller_planet,
                    resource_type,
                    resource_amount,
                    price_antimatter,
                    created_at: now,
                    offer_id: old(counter).next_offer_id,
                    filled: false,
                    bump: offer_bump,
                })
                &&& *final(counter) == counter_after_open(*old(counter), seller, counter_bump)
                &&& *final(obligation) == obligation_after_open(*old(obligation), seller_planet, obligation_bump)
                &&& *final(config) == (MarketConfig { total_offers: old(config).total_offers.saturating_add(1), ..*old(config) })
            },
        },
{
    if resource_amount < MIN_RESOURCE_AMOUNT {
        return Err(MarketError::AmountTooSmall);
    }
    if price_antimatter < ANTIMATTER_SCALE {
        return Err(MarketError::PriceTooLow);
    }
    if counter.active_offers >= MAX_OFFERS_PER_WALLET {
        return Err(MarketError::TooManyOffers);
    }
    match require_planet_not_listed(listing_index, seller_planet) {
        Err(e) => {
            return Err(e);
        },
        Ok(()) => {},
    }
    if !counter.seller.is_zero() && !counter.seller.same_as(&seller) {
        return Err(MarketError::Unauthorized);
    }
    if !obligation.planet.is_zero() && !obligation.planet.same_as(&seller_planet) {
        return Err(MarketError::InvalidSellerPlanet);
    }
    let offer_id = open_counter(counter, seller, counter_bump);
    if obligation.planet.is_zero() {
        obligation.planet = seller_planet;
        obligation.bump = obligation_bump;
    }
    obligation.active_resource_offers = obligation.active_resource_offers.saturating_add(1);
    config.total_offers = config.total_offers.saturating_add(1);
    Ok(MarketOffer {
        seller,
        seller_planet,
        resource_type,
        resource_amount,
        price_antimatter,
        created_at: now,
        offer_id,
        filled: false,
        bump: offer_bump,
    })
}

/// Why withdrawing `offer` is refused, if it is.
pub open spec fn cancel_offer_check(offer: MarketOffer, counter: SellerCounter, seller: Seq<u8>) -> Result<(), MarketError> {
    if offer.seller@ != seller {
        Err(MarketError::Unauthorized)
    } else if offer.filled {
        Err(MarketError::AlreadyFilled)
    } else if counter.seller@ != seller {
        Err(MarketError::Unauthorized)
    } else {
        Ok(())
    }
}

/// Withdraws the seller's open offer: the seller's open count and the planet's obligation
/// counter go down by one (never below zero). On an error nothing changes.
pub fn cancel_offer(
    offer: &MarketOffer,
    counter: &mut SellerCounter,
    obligation: &mut Option<PlanetMarketObligation>,
    seller: Key,
) -> (r: Result<(), MarketError>)
    ensures
        match cancel_offer_check(*offer, *old(counter), seller@) {
            Err(e) => r == Err::<(), MarketError>(e) && *final(counter) == *old(counter) && *final(obligation) == *old(obligation),
            Ok(()) => {
                let (o, res) = decrement_obligation_spec(*old(obligation), offer.seller_planet@);
                &&& r == res
                &&& res is Ok ==> *final(obligation) == o && *final(counter) == (SellerCounter {
                    active_offers: old(counter).active_offers.saturating_sub(1),
                    ..*old(counter)
                })
                &&& res is Err ==> *final(obligation) == *old(obligation) && *final(counter) == *old(counter)
            },
        },
{
    if !offer.seller.same_as(&seller) {
        return Err(MarketError::Unauthorized);
    }
    if offer.filled {
        return Err(MarketError::AlreadyFilled);
    }
    if !counter.seller.same_as(&seller) {
        return Err(MarketError::Unauthorized);
    }
    let r = decrement_market_obligation(obligation, offer.seller_planet);
    if r.is_ok() {
        counter.active_offers = counter.active_offers.saturating_sub(1);
    }
    r
}

/// Why filling `offer` for `buyer` is refused before the obligation counter is read, if it is.
pub open spec fn accept_offer_check(
    config: MarketConfig,
    offer: MarketOffer,
    counter: SellerCounter,
    buyer: Seq<u8>,
    buyer_balance: u64,
    treasury: Seq<u8>,
    mint: Seq<u8>,
) -> Result<(), MarketError> {
    if offer.filled {
        Err(MarketError::AlreadyFilled)
    } else if counter.seller@ != offer.seller@ {
        Err(MarketError::Unauthorized)
    } else if buyer == offer.seller@ {
        Err(MarketError::Unauthorized)
    } else if buyer_balance < offer.price_antimatter {
        Err(MarketError::InsufficientAntimatter)
    } else if settlement_spec(offer.price_antimatter).fee > 0 && !is_associated_token_address(treasury, config.admin@, mint) {
        Err(MarketError::InvalidTokenAccount)
    } else {
        Ok(())
    }
}

/// Fills `offer` for `buyer`, whose ANTIMATTER balance is `buyer_balance`; `treasury` is the
/// account meant to receive the fee and `mint` the ANTIMATTER mint. On success the offer is
/// marked filled, the seller's open count and the planet's obligation counter go down by one,
/// the market's volume grows by the price, and the split of the payment is returned for the
/// token transfers. On an error nothing changes.
pub fn accept_offer(
    config: &mut MarketConfig,
    offer: &mut MarketOffer,
    counter: &mut SellerCounter,
    obligation: &mut Option<PlanetMarketObligation>,
    buyer: Key,
    buyer_balance: u64,
    treasury: Key,
    mint: Key,
) -> (r: Result<Settlement, MarketError>)
    ensures
        match accept_offer_check(*old(config), *old(offer), *old(counter), buyer@, buyer_balance, treasury@, mint@) {
            Err(e) => {
                &&& r == Err::<Settlement, MarketError>(e)
                &&& *final(config) == *old(config)
                &&& *final(offer) == *old(offer)
                &&& *final(counter) == *old(counter)
                &&& *final(obligation) == *old(obligation)
            },
            Ok(()) => {
                let (o, res) = decrement_obligation_spec(*old(obligation), old(offer).seller_planet@);
                &&& res is Err ==> {
                    &&& r == Err::<Settlement, MarketError>(MarketError::InvalidSellerPlanet)
                    &&& *final(config) == *old(config)
                    &&& *final(offer) == *old(offer)
                    &&& *final(counter) == *old(counter)
                    &&& *final(obligation) == *old(obligation)
                }
                &&& res is Ok ==> {
                    &&& r == Ok::<Settlement, MarketError>(settlement_spec(old(offer).price_antimatter))
                    &&& *final(offer) == (MarketOffer { filled: true, ..*old(offer) })
                    &&& *final(counter) == (SellerCounter { active_offers: old(counter).active_offers.saturating_sub(1), ..*old(counter) })
                    &&& *final(obligation) == o
                    &&& *final(config) == (MarketConfig {
                        total_volume: old(config).total_volume.saturating_add(old(offer).price_antimatter as u128),
                        ..*old(config)
                    })
                }
            },
        },
{
    if offer.filled {
        return Err(MarketError::AlreadyFilled);
    }
    if !counter.seller.same_as(&offer.seller) {
        return Err(MarketError::Unauthorized);
    }
    if buyer.same_as(&offer.seller) {
        return Err(MarketError::Unauthorized);
    }
    let price = offer.price_antimatter;
    let split = settle_sale(price);
    if buyer_balance < price {
        return Err(MarketError::InsufficientAntimatter);
    }
    if split.fee > 0 {
        match require_protocol_antimatter_treasury(treasury, config.admin, mint) {
            Err(e) => {
                return Err(e);
            },
            Ok(()) => {},
        }
    }
    let planet = offer.seller_planet;
    match decrement_market_obligation(obligation, planet) {
        Err(e) => {
            return Err(e);
        },
        Ok(()) => {},
    }
    offer.filled = true;
    counter.active_offers = counter.active_offers.saturating_sub(1);
    config.total_volume = config.total_volume.saturating_add(price as u128);
    Ok(split)
}

} // verus!
