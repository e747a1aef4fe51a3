use chained_universe::resolution::ProgressRecord;
use chained_universe::alliance::alliance_mission;
use chained_universe::vault_actions::build_ship_vault;
use chained_universe::address::planet_coords_address;
use chained_universe::accounts::PlayerProfile;
use chained_universe::creation::{initialize_homeworld, InitializeHomeworldParams};
use chained_universe::accounts::GameConfig;
use chained_universe::alliance::{init_alliance_membership, initialize_alliance_treasury};
use chained_universe::deposit::{deposit_alliance_resources, AntimatterAccounts, DepositKeys};
use chained_universe::planet_bytes::{read_planet_deposit_fields, write_planet_deposit_fields};
use anchor_lang::prelude::Pubkey;
use chained_universe::accelerate::{burn_antimatter, transfer_antimatter, transfer_usdc, TokenAccountView};
use chained_universe::accounts::{AllianceState, AuthorizedVault, StoreConfig, StorePurchaseState};
use chained_universe::alliance::refresh_alliance_level;
use chained_universe::alliance_create::{create_alliance, FoundingAccounts, ALLIANCE_CREATE_USDC_COST};
use chained_universe::error::GameStateError;
use chained_universe::key::Key;
use chained_universe::planet_bytes::PlanetDepositFields;
use chained_universe::quest_claims::{
    empty_quest_progress, increment_quest_progress, plan_quest_state_account, validate_quest_progress_pda,
    QuestAccountStep, QuestProgressMetric, QUEST_PROGRESS_STATE_SPACE,
};
use chained_universe::quests::{coprime_quest_step, QuestRequirement, gcd_u64, quest_reward, recurring_requirement_signature, rotating_quest};
use chained_universe::store::purchase_store_pack;
use chained_universe::vault::{require_active_vault, revoke_vault};

fn key(n: u8) -> Key {
    let mut b = [0u8; 32];
    b[0] = n;
    b[9] = 0x3C;
    Key::new(b)
}

fn pk(k: &Key) -> Pubkey {
    Pubkey::new_from_array(k.bytes)
}

fn view(mint: Key, owner: Key, amount: u64) -> TokenAccountView {
    TokenAccountView { mint, owner, amount }
}

#[test]
fn burn_checks_each_refusal() {
    let mint = key(1);
    let me = key(2);
    assert_eq!(burn_antimatter(6, mint, &view(mint, me, 10), me, 0), Err(GameStateError::NoAccelerationNeeded));
    assert_eq!(burn_antimatter(9, mint, &view(mint, me, 10), me, 5), Err(GameStateError::InvalidAntimatterMintDecimals));
    assert_eq!(burn_antimatter(6, mint, &view(mint, key(3), 10), me, 5), Err(GameStateError::InvalidAntimatterAccount));
    assert_eq!(burn_antimatter(6, mint, &view(key(4), me, 10), me, 5), Err(GameStateError::InvalidAntimatterMint));
    assert_eq!(burn_antimatter(6, mint, &view(mint, me, 4), me, 5), Err(GameStateError::InsufficientAntimatter));
    assert_eq!(burn_antimatter(6, mint, &view(mint, me, 5), me, 5), Ok(5));
}

#[test]
fn transfers_check_mints_owners_and_balances() {
    let mint = key(1);
    let me = key(2);
    let treasury = view(mint, key(7), 0);
    assert_eq!(transfer_antimatter(6, mint, &view(mint, me, 10), &treasury, me, 0), Err(GameStateError::InvalidArgs));
    assert_eq!(
        transfer_antimatter(6, mint, &view(mint, me, 10), &view(key(5), key(7), 0), me, 3),
        Err(GameStateError::InvalidAntimatterMint)
    );
    assert_eq!(transfer_antimatter(6, mint, &view(mint, me, 10), &treasury, me, 10), Ok(10));
    assert_eq!(transfer_usdc(6, mint, &view(mint, me, 10), &treasury, me, 0), Err(GameStateError::InvalidStorePack));
    assert_eq!(transfer_usdc(2, mint, &view(mint, me, 10), &treasury, me, 1), Err(GameStateError::InvalidUsdcMint));
    assert_eq!(transfer_usdc(6, mint, &view(mint, key(9), 10), &treasury, me, 1), Err(GameStateError::InvalidUsdcAccount));
    assert_eq!(transfer_usdc(6, mint, &view(mint, me, 10), &treasury, me, 11), Err(GameStateError::InsufficientUsdc));
}

fn founding(admin: Key, mint: Key, user: Key) -> FoundingAccounts {
    let treasury_am = anchor_spl::associated_token::get_associated_token_address(&pk(&admin), &pk(&mint));
    FoundingAccounts {
        store_config: StoreConfig { admin, usdc_mint: key(30), treasury_usdc_account: key(31), enabled: true, bump: 0 },
        treasury_usdc_account: key(31),
        treasury_usdc: view(key(30), admin, 0),
        treasury_antimatter_account: Key::new(treasury_am.to_bytes()),
        treasury_antimatter: view(mint, admin, 0),
        antimatter_mint: mint,
        antimatter_mint_decimals: 6,
        user_antimatter: view(mint, user, 500_000_000),
        usdc_mint: key(30),
        usdc_mint_decimals: 6,
        user_usdc: view(key(30), user, 50_000_000),
    }
}

#[test]
fn founding_an_alliance_trims_its_text_and_takes_the_fees() {
    let admin = key(10);
    let mint = key(11);
    let user = key(12);
    let accounts = founding(admin, mint, user);
    let f = create_alliance("  Orion  ", " ORN ", " https://img.example/o.png ", &accounts, user, key(13), 86_400 * 3, 1, 2, 3)
        .unwrap();
    assert_eq!(&f.metadata.tag[..3], b"ORN");
    assert_eq!(f.metadata.tag.len(), 8);
    assert_eq!(f.metadata.tag[3], 0);
    assert_eq!(&f.metadata.image_url[..25], b"https://img.example/o.png");
    assert_eq!(f.metadata.image_url.len(), 128);
    assert_eq!(&f.alliance.name[..9], b"  Orion  ");
    assert_eq!(f.alliance.level, 1);
    assert_eq!(f.alliance.member_count, 1);
    assert_eq!(f.membership.role, 2);
    assert_eq!(f.membership.daily_epoch, 3);
    assert_eq!(f.usdc_to_treasury, ALLIANCE_CREATE_USDC_COST);

    let blank = create_alliance("   ", "ORN", "", &accounts, user, key(13), 0, 1, 2, 3);
    assert_eq!(blank.err(), Some(GameStateError::InvalidArgs));
    let long_tag = create_alliance("Orion", "ORIONCORP", "", &accounts, user, key(13), 0, 1, 2, 3);
    assert_eq!(long_tag.err(), Some(GameStateError::InvalidArgs));
    let ftp = create_alliance("Orion", "ORN", "ftp://x", &accounts, user, key(13), 0, 1, 2, 3);
    assert_eq!(ftp.err(), Some(GameStateError::InvalidArgs));
    let mut wrong_treasury = accounts;
    wrong_treasury.treasury_antimatter_account = key(99);
    let refused = create_alliance("Orion", "ORN", "", &wrong_treasury, user, key(13), 0, 1, 2, 3);
    assert_eq!(refused.err(), Some(GameStateError::InvalidAntimatterAccount));
    let mut closed = accounts;
    closed.store_config.enabled = false;
    assert_eq!(create_alliance("Orion", "ORN", "", &closed, user, key(13), 0, 1, 2, 3).err(), Some(GameStateError::StoreDisabled));
}

#[test]
fn quest_accounts_sit_at_their_derived_addresses() {
    let program = key(40);
    let authority = key(41);
    let (state_addr, state_bump) = Pubkey::find_program_address(&[b"quest_state", &authority.bytes], &pk(&program));
    let state_key = Key::new(state_addr.to_bytes());
    let planned = plan_quest_state_account(&state_key, &Key::zero(), &authority, &program, 2 * 86_400).unwrap();
    match planned {
        QuestAccountStep::Create(q) => {
            assert_eq!(q.bump, state_bump);
            assert_eq!(q.daily_epoch, 2);
            assert_eq!(q.daily_checkin_day, -1);
        },
        QuestAccountStep::Check => panic!("a fresh account is created"),
    }
    assert!(matches!(plan_quest_state_account(&state_key, &program, &authority, &program, 0), Ok(QuestAccountStep::Check)));
    assert!(matches!(
        plan_quest_state_account(&key(1), &Key::zero(), &authority, &program, 0),
        Err(GameStateError::Unauthorized)
    ));
    assert!(matches!(
        plan_quest_state_account(&state_key, &key(2), &authority, &program, 0),
        Err(GameStateError::Unauthorized)
    ));

    let (progress_addr, _) = Pubkey::find_program_address(&[b"quest_progress", &authority.bytes], &pk(&program));
    let progress_key = Key::new(progress_addr.to_bytes());
    let progress = empty_quest_progress(authority, 0);
    assert!(validate_quest_progress_pda(&progress_key, QUEST_PROGRESS_STATE_SPACE, &progress, &authority, &program).is_ok());
    assert_eq!(
        validate_quest_progress_pda(&key(3), QUEST_PROGRESS_STATE_SPACE, &progress, &authority, &program).err(),
        Some(GameStateError::Unauthorized)
    );
    assert_eq!(
        validate_quest_progress_pda(&progress_key, 10, &progress, &authority, &program).err(),
        Some(GameStateError::InvalidArgs)
    );
    let counted = increment_quest_progress(
        &progress_key,
        QUEST_PROGRESS_STATE_SPACE,
        &progress,
        &authority,
        &program,
        86_400 * 8,
        QuestProgressMetric::AttacksResolved,
        u64::MAX,
    )
    .unwrap();
    assert_eq!(counted.daily_attacks_resolved, u32::MAX);
    assert_eq!(counted.weekly_attacks_resolved, u32::MAX);
    assert_eq!(counted.daily_epoch, 8);
    assert_eq!(counted.weekly_epoch, 1);
    assert_eq!(counted.last_updated_ts, 86_400 * 8);
}

#[test]
fn rotating_quests_are_drawn_without_repeats() {
    assert_eq!(gcd_u64(12, 18), 6);
    assert_eq!(gcd_u64(7, 0), 7);
    for seed in [0u64, 1, 99, u64::MAX] {
        let s = coprime_quest_step(seed, 23);
        assert!(1 <= s && s < 23);
    }
    assert_eq!(rotating_quest(1, 0, 5).err(), Some(GameStateError::InvalidQuest));
    assert_eq!(rotating_quest(2, 12, 5).err(), Some(GameStateError::InvalidQuest));
    assert_eq!(rotating_quest(4, 1, 5).err(), Some(GameStateError::InvalidQuest));
    for period in 1u8..=3 {
        let first: u8 = if period == 1 { 1 } else { 0 };
        let available: u8 = if period == 1 { 10 } else { 12 };
        let mut signatures = Vec::new();
        for id in first..first + available {
            let q = rotating_quest(period, id, 19_000).unwrap();
            let sig = recurring_requirement_signature(period, q.req);
            assert!(!signatures.contains(&sig));
            signatures.push(sig);
            assert_eq!(quest_reward(period, id, 19_000), Ok((q.metal, q.crystal, q.deuterium)));
        }
        for id in first + available..first + 12 {
            assert_eq!(rotating_quest(period, id, 19_000).err(), Some(GameStateError::InvalidQuest));
        }
    }
    assert_eq!(rotating_quest(2, 0, 19_000).unwrap().req, QuestRequirement::Ships(5));
    assert_eq!(rotating_quest(3, 11, 19_000).unwrap().req, QuestRequirement::PlasmaTurret(1));
    assert_eq!(rotating_quest(1, 1, 19_000).unwrap().req, QuestRequirement::LightFighter(2));
    assert_eq!(quest_reward(0, 20, 0), Ok((5_000, 5_000, 2_000)));
    assert_eq!(quest_reward(0, 21, 0).err(), Some(GameStateError::InvalidQuest));
}

#[test]
fn a_store_pack_sells_once_per_period() {
    let buyer = key(50);
    let config = StoreConfig { admin: key(51), usdc_mint: key(52), treasury_usdc_account: key(53), enabled: true, bump: 0 };
    let mut purchases = StorePurchaseState {
        authority: Key::zero(),
        daily_epoch: 0,
        weekly_epoch: 0,
        monthly_epoch: 0,
        daily_purchased_mask: 0,
        weekly_purchased_mask: 0,
        monthly_purchased_mask: 0,
        last_updated_ts: 0,
        bump: 0,
    };
    let mut planet = PlanetDepositFields {
        authority: buyer,
        metal: 0,
        crystal: 0,
        deuterium: 0,
        metal_hour: 0,
        crystal_hour: 0,
        deuterium_hour: 0,
        energy_production: 0,
        energy_consumption: 0,
        metal_cap: 1_000_000,
        crystal_cap: 1_000_000,
        deuterium_cap: 1_000_000,
        last_update_ts: 0,
    };
    let now = 86_400 * 4 + 10;
    let program = key(59);
    let record = Some(ProgressRecord {
        key: pda(&[b"quest_progress", &buyer.bytes], &program),
        data_len: QUEST_PROGRESS_STATE_SPACE,
        state: empty_quest_progress(buyer, 0),
    });
    let (price, counted) =
        purchase_store_pack(&config, &mut purchases, &mut planet, buyer, key(52), key(53), 1, 0, 1, &program, &record, now).unwrap();
    assert_eq!(price, 1_000_000);
    let counted = counted.expect("the pack is counted");
    assert_eq!((counted.daily_store_packs_bought, counted.weekly_store_packs_bought), (1, 1));
    assert_eq!(planet.metal, 3_000);
    let again = purchase_store_pack(&config, &mut purchases, &mut planet, buyer, key(52), key(53), 1, 0, 1, &program, &None, now + 60);
    assert_eq!(again.err(), Some(GameStateError::StorePackAlreadyPurchased));
    assert_eq!(planet.metal, 3_000);
    let stranger = Some(ProgressRecord { key: key(58), data_len: QUEST_PROGRESS_STATE_SPACE, state: empty_quest_progress(buyer, 0) });
    let refused = purchase_store_pack(&config, &mut purchases, &mut planet, buyer, key(52), key(53), 1, 0, 1, &program, &stranger, now + 86_400);
    assert_eq!(refused.err(), Some(GameStateError::Unauthorized));
    assert_eq!(planet.metal, 3_000);
    let next_day = purchase_store_pack(&config, &mut purchases, &mut planet, buyer, key(52), key(53), 1, 0, 1, &program, &None, now + 86_400);
    assert_eq!(next_day.unwrap().0, 1_000_000);
    let wrong_mint = purchase_store_pack(&config, &mut purchases, &mut planet, buyer, key(9), key(53), 1, 1, 1, &program, &None, now);
    assert_eq!(wrong_mint.err(), Some(GameStateError::InvalidUsdcMint));
}

#[test]
fn a_revoked_vault_lets_nobody_act() {
    let owner = key(60);
    let signer = key(61);
    let mut v = AuthorizedVault { authority: owner, vault: signer, expires_at: 0, revoked: false, bump: 0 };
    assert_eq!(require_active_vault(signer, &v, owner, 100), Ok(()));
    assert_eq!(require_active_vault(key(62), &v, owner, 100), Err(GameStateError::InvalidVaultAuthorization));
    revoke_vault(&mut v);
    assert_eq!(require_active_vault(signer, &v, owner, 100), Err(GameStateError::VaultAuthorizationRevoked));
    v.revoked = false;
    v.expires_at = 50;
    assert_eq!(require_active_vault(signer, &v, owner, 100), Err(GameStateError::VaultAuthorizationExpired));
}

#[test]
fn alliance_level_follows_experience() {
    let mut a = AllianceState {
        founder: key(70),
        name: [0u8; 32],
        level: 1,
        xp: 0,
        member_count: 1,
        max_members: 10,
        total_missions_completed: 0,
        created_at: 0,
        bump: 0,
    };
    refresh_alliance_level(&mut a);
    assert_eq!(a.level, 1);
    a.xp = 1_000;
    refresh_alliance_level(&mut a);
    assert_eq!(a.level, 2);
    assert_eq!(a.max_members, 12);
    a.xp = 3_000;
    refresh_alliance_level(&mut a);
    assert_eq!(a.level, 3);
    a.xp = 0;
    refresh_alliance_level(&mut a);
    assert_eq!(a.level, 3);
}

#[test]
fn deposit_fields_read_back_what_was_written() {
    let program = key(5);
    let mut data = vec![0u8; 1_002];
    data[8] = 0xAB;
    let mut fields = read_planet_deposit_fields(program, program, &data).unwrap();
    assert_eq!(fields.authority.bytes[0], 0xAB);
    fields.metal = 1_234;
    fields.crystal = 56;
    fields.deuterium = 7;
    fields.last_update_ts = 99;
    write_planet_deposit_fields(&mut data, &fields).unwrap();
    assert_eq!(data.len(), 1_002);
    let back = read_planet_deposit_fields(program, program, &data).unwrap();
    assert_eq!((back.metal, back.crystal, back.deuterium, back.last_update_ts), (1_234, 56, 7, 99));
    assert_eq!(back.authority.bytes, fields.authority.bytes);
    assert_eq!(read_planet_deposit_fields(key(6), program, &data).err(), Some(GameStateError::Unauthorized));
    assert_eq!(read_planet_deposit_fields(program, program, &data[..100]).err(), Some(GameStateError::InvalidArgs));
}

fn pda(seeds: &[&[u8]], program: &Key) -> Key {
    Key::new(Pubkey::find_program_address(seeds, &pk(program)).0.to_bytes())
}

#[test]
fn a_deposit_mission_fills_the_treasury_once_a_day() {
    let (program, member, alliance_key, mint) = (key(90), key(91), key(92), key(93));
    let keys = DepositKeys {
        program_id: program,
        authority: member,
        alliance: alliance_key,
        membership: pda(&[b"alliance_membership", &member.bytes], &program),
        treasury: pda(&[b"alliance_treasury", &alliance_key.bytes], &program),
        game_config: pda(&[b"game_config"], &program),
        store_config: pda(&[b"store_config"], &program),
        antimatter_mint: mint,
    };
    let game_config = GameConfig { admin: key(94), antimatter_mint: mint, bump: 0 };
    let store_config = StoreConfig { admin: key(94), usdc_mint: key(95), treasury_usdc_account: key(96), enabled: true, bump: 0 };
    let payment = AntimatterAccounts {
        mint_decimals: 6,
        user_mint: mint,
        user_owner: member,
        user_amount: 0,
        treasury_account: key(97),
        treasury_mint: mint,
        treasury_owner: key(94),
    };
    let mut alliance = AllianceState {
        founder: member,
        name: [0u8; 32],
        level: 1,
        xp: 0,
        member_count: 1,
        max_members: 10,
        total_missions_completed: 0,
        created_at: 0,
        bump: 0,
    };
    let mut membership = init_alliance_membership(member, alliance_key, 0, 0, 0);
    let mut treasury = initialize_alliance_treasury(alliance_key, 0);
    let mut planet = PlanetDepositFields {
        authority: member,
        metal: 5_000,
        crystal: 0,
        deuterium: 0,
        metal_hour: 0,
        crystal_hour: 0,
        deuterium_hour: 0,
        energy_production: 0,
        energy_consumption: 0,
        metal_cap: 1_000_000,
        crystal_cap: 1_000_000,
        deuterium_cap: 1_000_000,
        last_update_ts: 0,
    };
    let now = 86_400 * 3 + 5;
    deposit_alliance_resources(
        &mut alliance, &mut membership, &mut treasury, &mut planet, &keys, &game_config, &store_config, &payment,
        1, 0, 2_000, 0, 0, 0, now,
    )
    .unwrap();
    assert_eq!(planet.metal, 3_000);
    assert_eq!((treasury.metal, treasury.total_metal_deposited), (2_000, 2_000));
    assert_eq!(alliance.xp, 82);
    assert_eq!(alliance.total_missions_completed, 1);
    assert_eq!(membership.daily_claimed_mask, 1);

    let again = deposit_alliance_resources(
        &mut alliance, &mut membership, &mut treasury, &mut planet, &keys, &game_config, &store_config, &payment,
        1, 0, 2_000, 0, 0, 0, now + 60,
    );
    assert_eq!(again, Err(GameStateError::AllianceMissionAlreadyClaimed));
    let short = deposit_alliance_resources(
        &mut alliance, &mut membership, &mut treasury, &mut planet, &keys, &game_config, &store_config, &payment,
        1, 1, 0, 999, 0, 0, now,
    );
    assert_eq!(short, Err(GameStateError::AllianceMissionRequirementsNotMet));
    let unknown = deposit_alliance_resources(
        &mut alliance, &mut membership, &mut treasury, &mut planet, &keys, &game_config, &store_config, &payment,
        4, 0, 2_000, 0, 0, 0, now,
    );
    assert_eq!(unknown, Err(GameStateError::InvalidAllianceMission));
    let stranger = DepositKeys { authority: key(99), ..keys };
    let refused = deposit_alliance_resources(
        &mut alliance, &mut membership, &mut treasury, &mut planet, &stranger, &game_config, &store_config, &payment,
        1, 1, 0, 1_000, 0, 0, now,
    );
    assert_eq!(refused, Err(GameStateError::InvalidAllianceMember));
    assert_eq!(treasury.metal, 2_000);
}

fn shipyard_record(owner: Key) -> Vec<u8> {
    let mut data = vec![0u8; 1_002];
    data[8..40].copy_from_slice(&owner.bytes);
    data[130] = 1;
    data[156] = 255;
    data[166..174].copy_from_slice(&100_000u64.to_le_bytes());
    data[174..182].copy_from_slice(&100_000u64.to_le_bytes());
    data[182..190].copy_from_slice(&100_000u64.to_le_bytes());
    data[976] = 255;
    data[989] = 255;
    data
}

#[test]
fn a_vault_queues_ships_in_the_raw_record() {
    let (program, owner, signer) = (key(80), key(81), key(82));
    let vault = AuthorizedVault { authority: owner, vault: signer, expires_at: 0, revoked: false, bump: 0 };
    let mut data = shipyard_record(owner);
    build_ship_vault(&mut data, program, program, signer, &vault, 2, 3, 10).unwrap();
    assert_eq!(data[976], 2);
    assert_eq!(u32::from_le_bytes(data[977..981].try_into().unwrap()), 3);
    assert!(i64::from_le_bytes(data[981..989].try_into().unwrap()) > 10);
    assert_eq!(u64::from_le_bytes(data[166..174].try_into().unwrap()), 100_000 - 9_000);
    assert_eq!(u64::from_le_bytes(data[174..182].try_into().unwrap()), 100_000 - 3_000);
    assert_eq!(i64::from_le_bytes(data[254..262].try_into().unwrap()), 10);

    let busy = build_ship_vault(&mut data, program, program, signer, &vault, 2, 1, 20);
    assert_eq!(busy, Err(GameStateError::ShipyardQueueBusy));

    let mut fresh = shipyard_record(owner);
    let before = fresh.clone();
    assert_eq!(build_ship_vault(&mut fresh, key(83), program, signer, &vault, 2, 1, 10), Err(GameStateError::Unauthorized));
    assert_eq!(build_ship_vault(&mut fresh, program, program, key(84), &vault, 2, 1, 10), Err(GameStateError::InvalidVaultAuthorization));
    assert_eq!(build_ship_vault(&mut fresh, program, program, signer, &vault, 0, 1, 10), Err(GameStateError::TechLocked));
    assert_eq!(build_ship_vault(&mut fresh, program, program, signer, &vault, 14, 1, 10), Err(GameStateError::InvalidShipType));
    assert_eq!(fresh, before);
}

#[test]
fn a_new_player_founds_one_homeworld_where_it_asked() {
    let (program, owner, signer) = (key(60), key(61), key(62));
    let vault = AuthorizedVault { authority: owner, vault: signer, expires_at: 0, revoked: false, bump: 0 };
    let vault_key = pda(&[b"authorized_vault", &owner.bytes], &program);
    let coords_key = planet_coords_address(3, 40, 7, &program).unwrap().0;
    let mut profile = PlayerProfile { authority: owner, planet_count: 0, bump: 0 };
    let now = 1_000;
    let asked = || InitializeHomeworldParams { now, name: "Terra".to_string(), galaxy: 3, system: 40, position: 7 };
    let (planet, coords) = initialize_homeworld(
        &mut profile, key(63), key(64), coords_key, program, signer, &vault, vault_key, asked(), 5, now,
    )
    .unwrap();
    assert_eq!(profile.planet_count, 1);
    assert_eq!((planet.galaxy, planet.system, planet.position), (3, 40, 7));
    assert_eq!((coords.galaxy, coords.system, coords.position), (3, 40, 7));
    assert_eq!(coords.planet.bytes, key(64).bytes);
    assert_eq!(&planet.name[..5], b"Terra");
    assert_eq!((planet.metal_mine, planet.crystal_mine, planet.solar_plant), (1, 1, 1));
    assert_eq!(planet.protection_until_ts, now + 604_800);
    assert_eq!(planet.planet_index, 0);

    let second = initialize_homeworld(
        &mut profile, key(63), key(64), coords_key, program, signer, &vault, vault_key, asked(), 5, now,
    );
    assert_eq!(second.err(), Some(GameStateError::InvalidArgs));
    let mut newcomer = PlayerProfile { authority: owner, planet_count: 0, bump: 0 };
    let misplaced = initialize_homeworld(
        &mut newcomer, key(63), key(64), coords_key, program, signer, &vault, key(65), asked(), 5, now,
    );
    assert_eq!(misplaced.err(), Some(GameStateError::InvalidVaultAuthorization));
    let elsewhere = initialize_homeworld(
        &mut newcomer, key(63), key(64), key(66), program, signer, &vault, vault_key, asked(), 5, now,
    );
    assert_eq!(elsewhere.err(), Some(GameStateError::InvalidCoordinates));
    assert_eq!(newcomer.planet_count, 0);
}

#[test]
fn alliance_requirement_missions_are_looked_up_by_period() {
    let m = alliance_mission(3, 9).unwrap();
    assert_eq!(m.req, QuestRequirement::Battleship(1));
    assert_eq!(m.xp, 1_700);
    assert_eq!(alliance_mission(1, 0).unwrap().req, QuestRequirement::MetalMine(3));
    assert_eq!(alliance_mission(2, 12).err(), Some(GameStateError::InvalidAllianceMission));
    assert_eq!(alliance_mission(0, 0).err(), Some(GameStateError::InvalidAllianceMission));
}

#[test]
fn an_antimatter_deposit_pays_the_protocol_treasury() {
    let (program, member, alliance_key, mint, admin) = (key(80), key(81), key(82), key(83), key(84));
    let keys = DepositKeys {
        program_id: program,
        authority: member,
        alliance: alliance_key,
        membership: pda(&[b"alliance_membership", &member.bytes], &program),
        treasury: pda(&[b"alliance_treasury", &alliance_key.bytes], &program),
        game_config: pda(&[b"game_config"], &program),
        store_config: pda(&[b"store_config"], &program),
        antimatter_mint: mint,
    };
    let game_config = GameConfig { admin, antimatter_mint: mint, bump: 0 };
    let store_config = StoreConfig { admin, usdc_mint: key(85), treasury_usdc_account: key(86), enabled: true, bump: 0 };
    let protocol_treasury = chained_universe::address::find_associated_token_address(&admin, &mint).unwrap();
    let amount: u64 = 100_000_000;
    let stray = AntimatterAccounts {
        mint_decimals: 6,
        user_mint: mint,
        user_owner: member,
        user_amount: amount,
        treasury_account: key(87),
        treasury_mint: mint,
        treasury_owner: admin,
    };
    let payment = AntimatterAccounts { treasury_account: protocol_treasury, ..stray };
    let mut alliance = AllianceState {
        founder: member,
        name: [0u8; 32],
        level: 1,
        xp: 0,
        member_count: 1,
        max_members: 10,
        total_missions_completed: 0,
        created_at: 0,
        bump: 0,
    };
    let mut membership = init_alliance_membership(member, alliance_key, 0, 0, 0);
    let mut treasury = initialize_alliance_treasury(alliance_key, 0);
    let mut planet = PlanetDepositFields {
        authority: member,
        metal: 0,
        crystal: 0,
        deuterium: 0,
        metal_hour: 0,
        crystal_hour: 0,
        deuterium_hour: 0,
        energy_production: 0,
        energy_consumption: 0,
        metal_cap: 1_000_000,
        crystal_cap: 1_000_000,
        deuterium_cap: 1_000_000,
        last_update_ts: 0,
    };
    let now = 86_400 * 3 + 5;
    let misrouted = deposit_alliance_resources(
        &mut alliance, &mut membership, &mut treasury, &mut planet, &keys, &game_config, &store_config, &stray,
        1, 3, 0, 0, 0, amount, now,
    );
    assert_eq!(misrouted, Err(GameStateError::InvalidAntimatterAccount));
    assert_eq!(treasury.antimatter, 0);
    let poor = AntimatterAccounts { user_amount: amount - 1, ..payment };
    let short = deposit_alliance_resources(
        &mut alliance, &mut membership, &mut treasury, &mut planet, &keys, &game_config, &store_config, &poor,
        1, 3, 0, 0, 0, amount, now,
    );
    assert_eq!(short, Err(GameStateError::InsufficientAntimatter));
    deposit_alliance_resources(
        &mut alliance, &mut membership, &mut treasury, &mut planet, &keys, &game_config, &store_config, &payment,
        1, 3, 0, 0, 0, amount, now,
    )
    .unwrap();
    assert_eq!((treasury.antimatter, treasury.total_antimatter_deposited), (amount, amount));
    assert_eq!(membership.daily_claimed_mask, 1 << 3);
}

#[test]
fn alliance_fields_are_trimmed_of_unicode_whitespace() {
    let admin = key(20);
    let mint = key(21);
    let user = key(22);
    let accounts = founding(admin, mint, user);
    let f = create_alliance("Orion", "\u{3000}\tÖRN\u{2003}\n", "\u{a0}https://img.example/o.png\u{2029}", &accounts, user, key(23), 0, 1, 2, 3)
        .unwrap();
    assert_eq!(&f.metadata.tag[..4], "ÖRN".as_bytes());
    assert_eq!(f.metadata.tag[4], 0);
    assert_eq!(&f.metadata.image_url[..25], b"https://img.example/o.png");
    assert_eq!(f.metadata.image_url[25], 0);
    let blank = create_alliance("\u{2003}\u{85} \u{3000}", "ORN", "", &accounts, user, key(23), 0, 1, 2, 3);
    assert_eq!(blank.err(), Some(GameStateError::InvalidArgs));
}
