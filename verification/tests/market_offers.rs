use anchor_lang::prelude::Pubkey;
use chained_universe::key::Key;
use chained_universe::market::{
    MarketConfig, MarketError, PlanetListingIndex, PlanetMarketObligation, ResourceType, SellerCounter,
    ANTIMATTER_SCALE,
};
use chained_universe::offers::{accept_offer, cancel_offer, create_offer};

fn key(n: u8) -> Key {
    let mut bytes = [0u8; 32];
    bytes[0] = n;
    bytes[31] = 0x3C;
    Key::new(bytes)
}

fn config(admin: Key, mint: Key) -> MarketConfig {
    MarketConfig { admin, antimatter_mint: mint, total_volume: 0, total_offers: 0, bump: 1 }
}

fn fresh_counter() -> SellerCounter {
    SellerCounter { seller: Key::zero(), next_offer_id: 0, active_offers: 0, bump: 0 }
}

fn fresh_obligation() -> PlanetMarketObligation {
    PlanetMarketObligation { planet: Key::zero(), active_resource_offers: 0, bump: 0 }
}

fn treasury_of(admin: Key, mint: Key) -> Key {
    let ata = anchor_spl::associated_token::get_associated_token_address(
        &Pubkey::new_from_array(admin.bytes),
        &Pubkey::new_from_array(mint.bytes),
    );
    Key::new(ata.to_bytes())
}

#[test]
fn opening_and_withdrawing_an_offer_restores_the_counts() {
    let (seller, planet) = (key(1), key(2));
    let mut market = config(key(9), key(8));
    let mut counter = fresh_counter();
    let mut obligation = fresh_obligation();
    let offer = create_offer(
        &mut market, &mut counter, &mut obligation, None, seller, planet, 4, 5, 6,
        ResourceType::Crystal, 5_000, 2 * ANTIMATTER_SCALE, 77,
    )
    .unwrap();
    assert_eq!(offer.offer_id, 0);
    assert_eq!(offer.created_at, 77);
    assert_eq!(offer.resource_type, ResourceType::Crystal);
    assert_eq!((counter.next_offer_id, counter.active_offers, counter.bump), (1, 1, 4));
    assert_eq!(counter.seller.bytes, seller.bytes);
    assert_eq!((obligation.active_resource_offers, obligation.bump), (1, 6));
    assert_eq!(market.total_offers, 1);

    let mut held = Some(obligation);
    cancel_offer(&offer, &mut counter, &mut held, seller).unwrap();
    assert_eq!(counter.active_offers, 0);
    assert_eq!(counter.next_offer_id, 1);
    assert_eq!(held.unwrap().active_resource_offers, 0);
    assert_eq!(cancel_offer(&offer, &mut counter, &mut held, key(3)), Err(MarketError::Unauthorized));
}

#[test]
fn offers_below_the_minimums_or_on_listed_planets_are_refused() {
    let (seller, planet) = (key(1), key(2));
    let mut market = config(key(9), key(8));
    let mut counter = fresh_counter();
    let mut obligation = fresh_obligation();
    let small = create_offer(
        &mut market, &mut counter, &mut obligation, None, seller, planet, 0, 0, 0,
        ResourceType::Metal, 999, ANTIMATTER_SCALE, 0,
    );
    assert_eq!(small.err(), Some(MarketError::AmountTooSmall));
    let cheap = create_offer(
        &mut market, &mut counter, &mut obligation, None, seller, planet, 0, 0, 0,
        ResourceType::Metal, 1_000, ANTIMATTER_SCALE - 1, 0,
    );
    assert_eq!(cheap.err(), Some(MarketError::PriceTooLow));
    let listed = PlanetListingIndex { planet, listing: key(4), seller, active: true, bump: 0 };
    let on_listed = create_offer(
        &mut market, &mut counter, &mut obligation, Some(listed), seller, planet, 0, 0, 0,
        ResourceType::Metal, 1_000, ANTIMATTER_SCALE, 0,
    );
    assert_eq!(on_listed.err(), Some(MarketError::PlanetAlreadyListed));
    let mut full = SellerCounter { seller, next_offer_id: 20, active_offers: 20, bump: 0 };
    let too_many = create_offer(
        &mut market, &mut full, &mut obligation, None, seller, planet, 0, 0, 0,
        ResourceType::Metal, 1_000, ANTIMATTER_SCALE, 0,
    );
    assert_eq!(too_many.err(), Some(MarketError::TooManyOffers));
    assert_eq!(market.total_offers, 0);
    assert_eq!(counter.active_offers, 0);
}

#[test]
fn filling_an_offer_pays_the_fee_to_the_protocol_treasury() {
    let (seller, planet, buyer) = (key(1), key(2), key(3));
    let (admin, mint) = (key(9), key(8));
    let mut market = config(admin, mint);
    let mut counter = fresh_counter();
    let mut obligation = fresh_obligation();
    let mut offer = create_offer(
        &mut market, &mut counter, &mut obligation, None, seller, planet, 0, 0, 0,
        ResourceType::Deuterium, 10_000, 4 * ANTIMATTER_SCALE, 0,
    )
    .unwrap();
    let mut held = Some(obligation);
    let treasury = treasury_of(admin, mint);

    let own = accept_offer(&mut market, &mut offer, &mut counter, &mut held, seller, u64::MAX, treasury, mint);
    assert_eq!(own.err(), Some(MarketError::Unauthorized));
    let poor = accept_offer(&mut market, &mut offer, &mut counter, &mut held, buyer, 4 * ANTIMATTER_SCALE - 1, treasury, mint);
    assert_eq!(poor.err(), Some(MarketError::InsufficientAntimatter));
    let elsewhere = accept_offer(&mut market, &mut offer, &mut counter, &mut held, buyer, u64::MAX, key(7), mint);
    assert_eq!(elsewhere.err(), Some(MarketError::InvalidTokenAccount));
    assert!(!offer.filled);

    let split = accept_offer(&mut market, &mut offer, &mut counter, &mut held, buyer, 4 * ANTIMATTER_SCALE, treasury, mint)
        .unwrap();
    assert_eq!(split.price, 4_000_000);
    assert_eq!(split.fee, 10_000);
    assert_eq!(split.seller_receives, 3_990_000);
    assert!(offer.filled);
    assert_eq!(counter.active_offers, 0);
    assert_eq!(held.unwrap().active_resource_offers, 0);
    assert_eq!(market.total_volume, 4_000_000);

    let again = accept_offer(&mut market, &mut offer, &mut counter, &mut held, buyer, u64::MAX, treasury, mint);
    assert_eq!(again.err(), Some(MarketError::AlreadyFilled));
}
