use sol_parser_sdk::accounts::raydium_clmm::discriminators;
use sol_parser_sdk::accounts::raydium_clmm::{
    is_amm_config_account, is_pool_state_account, is_tick_array_state_account, parse_account,
    parse_amm_config, parse_pool_state, parse_tick_array_state, AMM_CONFIG_SIZE, POOL_STATE_SIZE,
    TICK_ARRAY_LEN, TICK_ARRAY_STATE_SIZE,
};
use sol_parser_sdk::events::DexEvent;
use sol_parser_sdk::types::{AccountData, EventMetadata, Pubkey};

fn account(data: Vec<u8>) -> AccountData {
    AccountData {
        pubkey: Pubkey::new_from_array([200; 32]),
        owner: Pubkey::new_from_array([201; 32]),
        data,
        executable: false,
        lamports: 1,
        rent_epoch: 0,
    }
}

fn amm_config_data(owner: Pubkey, fund_owner: Pubkey) -> Vec<u8> {
    let mut data = Vec::with_capacity(8 + AMM_CONFIG_SIZE);
    data.extend_from_slice(&discriminators::AMM_CONFIG);
    data.push(9);
    data.extend_from_slice(&7u16.to_le_bytes());
    data.extend_from_slice(&owner.0);
    data.extend_from_slice(&111u32.to_le_bytes());
    data.extend_from_slice(&222u32.to_le_bytes());
    data.extend_from_slice(&64u16.to_le_bytes());
    data.extend_from_slice(&333u32.to_le_bytes());
    data.extend_from_slice(&444u32.to_le_bytes());
    data.extend_from_slice(&fund_owner.0);
    for value in [1u64, 2, 3] {
        data.extend_from_slice(&value.to_le_bytes());
    }
    data
}

#[test]
fn parses_amm_config_account() {
    let owner = Pubkey::new_from_array([1; 32]);
    let fund_owner = Pubkey::new_from_array([2; 32]);
    let data = amm_config_data(owner, fund_owner);

    let event = parse_amm_config(&account(data), EventMetadata::default()).expect("event");
    let DexEvent::RaydiumClmmAmmConfigAccount(event) = event else {
        panic!("wrong event type");
    };
    assert_eq!(event.amm_config.bump, 9);
    assert_eq!(event.amm_config.index, 7);
    assert_eq!(event.amm_config.owner, owner);
    assert_eq!(event.amm_config.tick_spacing, 64);
    assert_eq!(event.amm_config.fund_owner, fund_owner);
    assert_eq!(event.amm_config.padding, [1, 2, 3]);
}

fn tick_array_data(pool_id: Pubkey) -> Vec<u8> {
    let mut data = Vec::with_capacity(8 + TICK_ARRAY_STATE_SIZE);
    data.extend_from_slice(&discriminators::TICK_ARRAY_STATE);
    data.extend_from_slice(&pool_id.0);
    data.extend_from_slice(&(-128i32).to_le_bytes());
    for i in 0..TICK_ARRAY_LEN {
        data.extend_from_slice(&(i as i32).to_le_bytes());
        data.extend_from_slice(&(i as i128 - 30).to_le_bytes());
        data.extend_from_slice(&(1000u128 + i as u128).to_le_bytes());
        data.extend_from_slice(&(2000u128 + i as u128).to_le_bytes());
        data.extend_from_slice(&(3000u128 + i as u128).to_le_bytes());
        for j in 0..3 {
            data.extend_from_slice(&(4000u128 + i as u128 + j).to_le_bytes());
        }
        data.extend_from_slice(&(5000u64 + i as u64).to_le_bytes());
        data.extend_from_slice(&(6000u64 + i as u64).to_le_bytes());
        data.extend_from_slice(&(7000u64 + i as u64).to_le_bytes());
        data.extend_from_slice(&(8000u128 + i as u128).to_le_bytes());
        for j in 0..3 {
            data.extend_from_slice(&(9000u32 + i as u32 + j).to_le_bytes());
        }
    }
    data.push(12);
    data.extend_from_slice(&88u64.to_le_bytes());
    data.extend_from_slice(&[0u8; 107]);
    data
}

#[test]
fn parses_tick_array_tail_limit_order_fields() {
    let pool_id = Pubkey::new_from_array([3; 32]);
    let data = tick_array_data(pool_id);

    let event =
        parse_tick_array_state(&account(data), EventMetadata::default()).expect("event");
    let DexEvent::RaydiumClmmTickArrayStateAccount(event) = event else {
        panic!("wrong event type");
    };
    let tick = &event.tick_array_state.ticks[59];
    assert_eq!(event.tick_array_state.pool_id, pool_id);
    assert_eq!(event.tick_array_state.initialized_tick_count, 12);
    assert_eq!(tick.order_phase, 5059);
    assert_eq!(tick.orders_amount, 6059);
    assert_eq!(tick.part_filled_orders_remaining, 7059);
    assert_eq!(tick.unfilled_ratio_x64, 8059);
    assert_eq!(tick.padding, [9059, 9060, 9061]);
}

#[test]
fn tick_array_first_tick_and_header() {
    let pool_id = Pubkey::new_from_array([3; 32]);
    let event = parse_tick_array_state(&account(tick_array_data(pool_id)), EventMetadata::default())
        .unwrap();
    let DexEvent::RaydiumClmmTickArrayStateAccount(event) = event else { panic!() };
    let state = &event.tick_array_state;
    assert_eq!(state.start_tick_index, -128);
    assert_eq!(state.ticks.len(), TICK_ARRAY_LEN);
    assert_eq!(state.ticks[0].liquidity_net, -30);
    assert_eq!(state.ticks[0].reward_growths_outside_x64, [4000, 4001, 4002]);
    assert_eq!(state.ticks[31].liquidity_net, 1);
    assert_eq!(state.recent_epoch, 88);
    assert_eq!(event.pubkey, Pubkey::new_from_array([200; 32]));
}

fn pool_state_data() -> Vec<u8> {
    let mut d = discriminators::POOL_STATE.to_vec();
    d.push(254); // bump
    for seed in 1..=7u8 {
        d.extend_from_slice(&[seed; 32]);
    }
    d.push(6);
    d.push(9);
    d.extend_from_slice(&60u16.to_le_bytes());
    d.extend_from_slice(&1_000_000u128.to_le_bytes());
    d.extend_from_slice(&(1u128 << 64).to_le_bytes());
    d.extend_from_slice(&(-500i32).to_le_bytes());
    d.resize(8 + POOL_STATE_SIZE, 0);
    // status and fee_on
    d[8 + 381] = 1;
    d[8 + 382] = 1;
    // reward_infos[1].reward_state
    d[8 + 389 + 169] = 2;
    // recent_epoch
    d[8 + 1080..8 + 1088].copy_from_slice(&777u64.to_le_bytes());
    // dynamic_fee_info.filter_period
    d[8 + 1088..8 + 1090].copy_from_slice(&30u16.to_le_bytes());
    // last padding2 word
    d[8 + 1528..8 + 1536].copy_from_slice(&u64::MAX.to_le_bytes());
    d
}

#[test]
fn parses_pool_state_account() {
    let event = parse_pool_state(&account(pool_state_data()), EventMetadata::default())
        .expect("pool state");
    let DexEvent::RaydiumClmmPoolStateAccount(event) = event else { panic!("wrong event type") };
    let p = event.pool_state;
    assert_eq!(p.bump, [254]);
    assert_eq!(p.amm_config, Pubkey::new_from_array([1; 32]));
    assert_eq!(p.observation_key, Pubkey::new_from_array([7; 32]));
    assert_eq!(p.mint_decimals_0, 6);
    assert_eq!(p.mint_decimals_1, 9);
    assert_eq!(p.tick_spacing, 60);
    assert_eq!(p.liquidity, 1_000_000);
    assert_eq!(p.sqrt_price_x64, 1u128 << 64);
    assert_eq!(p.tick_current, -500);
    assert_eq!(p.status, 1);
    assert_eq!(p.fee_on, 1);
    assert_eq!(p.reward_infos[1].reward_state, 2);
    assert_eq!(p.recent_epoch, 777);
    assert_eq!(p.dynamic_fee_info.filter_period, 30);
    assert_eq!(p.padding2[31], u64::MAX);
}

#[test]
fn short_or_mislabelled_accounts_are_rejected() {
    let mut data = amm_config_data(Pubkey::default(), Pubkey::default());
    data.pop();
    assert!(parse_amm_config(&account(data), EventMetadata::default()).is_none());

    let mut data = amm_config_data(Pubkey::default(), Pubkey::default());
    data[0] ^= 1;
    assert!(parse_amm_config(&account(data.clone()), EventMetadata::default()).is_none());
    assert!(parse_account(&account(data), EventMetadata::default()).is_none());

    let mut data = pool_state_data();
    data.pop();
    assert!(parse_pool_state(&account(data), EventMetadata::default()).is_none());

    let mut data = tick_array_data(Pubkey::default());
    data.pop();
    assert!(parse_tick_array_state(&account(data), EventMetadata::default()).is_none());
}

#[test]
fn parse_account_dispatches_on_discriminator() {
    let amm = parse_account(&account(amm_config_data(Pubkey::default(), Pubkey::default())), EventMetadata::default());
    assert!(matches!(amm, Some(DexEvent::RaydiumClmmAmmConfigAccount(_))));
    let pool = parse_account(&account(pool_state_data()), EventMetadata::default());
    assert!(matches!(pool, Some(DexEvent::RaydiumClmmPoolStateAccount(_))));
    let ticks = parse_account(&account(tick_array_data(Pubkey::default())), EventMetadata::default());
    assert!(matches!(ticks, Some(DexEvent::RaydiumClmmTickArrayStateAccount(_))));
    assert!(parse_account(&account(vec![]), EventMetadata::default()).is_none());
}

#[test]
fn discriminator_predicates() {
    assert!(is_amm_config_account(&discriminators::AMM_CONFIG));
    assert!(is_pool_state_account(&pool_state_data()));
    assert!(is_tick_array_state_account(&discriminators::TICK_ARRAY_STATE));
    assert!(!is_amm_config_account(&discriminators::AMM_CONFIG[..7]));
    assert!(!is_pool_state_account(&discriminators::AMM_CONFIG));
}

#[test]
fn parse_account_gives_what_its_branch_gives() {
    let m = EventMetadata::default();
    let a = account(amm_config_data(Pubkey::new_from_array([5; 32]), Pubkey::new_from_array([6; 32])));
    assert_eq!(parse_account(&a, m), parse_amm_config(&a, m));
    let p = account(pool_state_data());
    assert_eq!(parse_account(&p, m), parse_pool_state(&p, m));
    let t = account(tick_array_data(Pubkey::new_from_array([7; 32])));
    assert_eq!(parse_account(&t, m), parse_tick_array_state(&t, m));
}
