use anchor_lang::prelude::Pubkey;
use chained_universe::address::planet_coords_address;
use chained_universe::key::Key;
use chained_universe::listings::{buy_planet_listing, cancel_planet_listing, create_planet_listing, PlanetAccounts};
use chained_universe::market::{
    game_state_program_id, MarketConfig, MarketError, PlanetListingIndex, PlanetMarketObligation, SellerCounter,
    ANTIMATTER_SCALE,
};

fn key(n: u8) -> Key {
    let mut bytes = [0u8; 32];
    bytes[0] = n;
    bytes[31] = 0x5A;
    Key::new(bytes)
}

fn planet_bytes(authority: Key, planet_index: u32, active_missions: u8) -> Vec<u8> {
    let mut data = vec![0u8; 500];
    data[8..40].copy_from_slice(&authority.bytes);
    data[72..76].copy_from_slice(&planet_index.to_le_bytes());
    data[414] = active_missions;
    data
}

fn coords_bytes(planet: Key, authority: Key) -> Vec<u8> {
    let mut data = vec![0u8; 80];
    data[8..10].copy_from_slice(&3u16.to_le_bytes());
    data[10..12].copy_from_slice(&40u16.to_le_bytes());
    data[12] = 7;
    data[13..45].copy_from_slice(&planet.bytes);
    data[45..77].copy_from_slice(&authority.bytes);
    data
}

fn coords_key() -> Key {
    planet_coords_address(3, 40, 7, &game_state_program_id()).unwrap().0
}

fn closed_index() -> PlanetListingIndex {
    PlanetListingIndex { planet: Key::zero(), listing: Key::zero(), seller: Key::zero(), active: false, bump: 0 }
}

fn market(admin: Key, mint: Key) -> MarketConfig {
    MarketConfig { admin, antimatter_mint: mint, total_volume: 0, total_offers: 0, bump: 0 }
}

#[test]
fn a_listed_planet_is_sold_once_and_its_index_closes() {
    let (seller, planet, buyer, listing_key) = (key(1), key(2), key(3), key(4));
    let (admin, mint) = (key(9), key(8));
    let planet_data = planet_bytes(seller, 1, 0);
    let coords_data = coords_bytes(planet, seller);
    let accounts = PlanetAccounts {
        planet_data: &planet_data,
        coords_key: coords_key(),
        coords_owner: game_state_program_id(),
        coords_data: &coords_data,
    };
    let mut config = market(admin, mint);
    let mut counter = SellerCounter { seller: Key::zero(), next_offer_id: 3, active_offers: 0, bump: 0 };
    let mut index = closed_index();
    let mut listing = create_planet_listing(
        &mut config, &mut counter, &mut index, None, seller, planet, &accounts, listing_key, 1, 2, 3,
        10 * ANTIMATTER_SCALE, 500,
    )
    .unwrap();
    assert_eq!(listing.listing_id, 3);
    assert_eq!(listing.planet_coords.bytes, coords_key().bytes);
    assert!(index.active);
    assert_eq!(index.listing.bytes, listing_key.bytes);
    assert_eq!((counter.next_offer_id, counter.active_offers), (4, 1));

    let twice = create_planet_listing(
        &mut config, &mut counter, &mut index, None, seller, planet, &accounts, key(5), 1, 2, 3,
        10 * ANTIMATTER_SCALE, 500,
    );
    assert_eq!(twice.err(), Some(MarketError::PlanetAlreadyListed));

    let treasury = Key::new(
        anchor_spl::associated_token::get_associated_token_address(
            &Pubkey::new_from_array(admin.bytes),
            &Pubkey::new_from_array(mint.bytes),
        )
        .to_bytes(),
    );
    let mut held = Some(index);
    let split = buy_planet_listing(
        &mut config, &mut listing, listing_key, &mut counter, &mut held, buyer, &accounts, 10 * ANTIMATTER_SCALE,
        treasury, mint,
    )
    .unwrap();
    assert_eq!((split.fee, split.seller_receives), (25_000, 9_975_000));
    assert!(listing.filled);
    assert!(!held.unwrap().active);
    assert_eq!(counter.active_offers, 0);
    assert_eq!(config.total_volume, 10_000_000);

    let again = buy_planet_listing(
        &mut config, &mut listing, listing_key, &mut counter, &mut held, buyer, &accounts, u64::MAX, treasury, mint,
    );
    assert_eq!(again.err(), Some(MarketError::AlreadyFilled));
}

#[test]
fn homeworlds_busy_planets_and_offered_planets_cannot_be_listed() {
    let (seller, planet) = (key(1), key(2));
    let coords_data = coords_bytes(planet, seller);
    let mut config = market(key(9), key(8));
    let mut counter = SellerCounter { seller: Key::zero(), next_offer_id: 0, active_offers: 0, bump: 0 };
    let mut index = closed_index();

    let homeworld = planet_bytes(seller, 0, 0);
    let accounts = PlanetAccounts {
        planet_data: &homeworld,
        coords_key: coords_key(),
        coords_owner: game_state_program_id(),
        coords_data: &coords_data,
    };
    let r = create_planet_listing(
        &mut config, &mut counter, &mut index, None, seller, planet, &accounts, key(4), 0, 0, 0, ANTIMATTER_SCALE, 0,
    );
    assert_eq!(r.err(), Some(MarketError::HomeworldNotSellable));

    let busy = planet_bytes(seller, 2, 1);
    let accounts = PlanetAccounts { planet_data: &busy, ..accounts };
    let r = create_planet_listing(
        &mut config, &mut counter, &mut index, None, seller, planet, &accounts, key(4), 0, 0, 0, ANTIMATTER_SCALE, 0,
    );
    assert_eq!(r.err(), Some(MarketError::PlanetHasActiveMissions));

    let idle = planet_bytes(seller, 2, 0);
    let accounts = PlanetAccounts { planet_data: &idle, ..accounts };
    let offered = Some(PlanetMarketObligation { planet, active_resource_offers: 1, bump: 0 });
    let r = create_planet_listing(
        &mut config, &mut counter, &mut index, offered, seller, planet, &accounts, key(4), 0, 0, 0, ANTIMATTER_SCALE, 0,
    );
    assert_eq!(r.err(), Some(MarketError::PlanetHasActiveMarketOffers));

    let elsewhere = PlanetAccounts { coords_key: key(6), ..accounts };
    let r = create_planet_listing(
        &mut config, &mut counter, &mut index, None, seller, planet, &elsewhere, key(4), 0, 0, 0, ANTIMATTER_SCALE, 0,
    );
    assert_eq!(r.err(), Some(MarketError::InvalidSellerPlanet));
    assert_eq!(config.total_offers, 0);

    let listing = create_planet_listing(
        &mut config, &mut counter, &mut index, None, seller, planet, &accounts, key(4), 0, 0, 0, ANTIMATTER_SCALE, 0,
    )
    .unwrap();
    let mut held = Some(index);
    assert_eq!(cancel_planet_listing(&listing, key(4), &mut counter, &mut held, key(7)), Err(MarketError::Unauthorized));
    cancel_planet_listing(&listing, key(4), &mut counter, &mut held, seller).unwrap();
    assert!(!held.unwrap().active);
    assert_eq!(counter.active_offers, 0);
}
