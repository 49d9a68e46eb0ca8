use base64::engine::general_purpose;
use base64::Engine as _;
use sol_parser_sdk::events::DexEvent;
use sol_parser_sdk::logs::raydium_clmm::discriminators;
use sol_parser_sdk::logs::raydium_clmm::{
    is_raydium_clmm_log, parse_collect_fee_from_data, parse_collect_personal_fee_from_data,
    parse_collect_protocol_fee_from_data, parse_config_change_from_data,
    parse_create_personal_position_from_data, parse_create_pool_from_data,
    parse_decrease_limit_order_from_data, parse_decrease_liquidity_from_data,
    parse_increase_limit_order_from_data, parse_increase_liquidity_from_data,
    parse_liquidity_calculate_from_data, parse_liquidity_change_from_data, parse_log,
    parse_open_limit_order_from_data, parse_program_data, parse_settle_limit_order_from_data,
    parse_swap_from_data, parse_update_reward_infos_from_data, SWAP_EVENT_LEN,
};
use sol_parser_sdk::logs::program_data::extract_program_data;
use sol_parser_sdk::types::{EventMetadata, Pubkey, Signature};

fn metadata() -> EventMetadata {
    EventMetadata {
        signature: Signature::default(),
        slot: 1,
        tx_index: 0,
        block_time_us: 0,
        grpc_recv_us: 0,
        recent_blockhash: None,
    }
}

fn pk(seed: u8) -> Pubkey {
    Pubkey::new_from_array([seed; 32])
}

fn push_pk(out: &mut Vec<u8>, key: Pubkey) {
    out.extend_from_slice(&key.0);
}

fn program_data_log(raw: &[u8]) -> String {
    format!("Program data: {}", general_purpose::STANDARD.encode(raw))
}

fn swap_body() -> Vec<u8> {
    let mut raw = Vec::new();
    push_pk(&mut raw, pk(1));
    push_pk(&mut raw, pk(2));
    push_pk(&mut raw, pk(3));
    push_pk(&mut raw, pk(4));
    raw.extend_from_slice(&10u64.to_le_bytes());
    raw.extend_from_slice(&1u64.to_le_bytes());
    raw.extend_from_slice(&20u64.to_le_bytes());
    raw.extend_from_slice(&2u64.to_le_bytes());
    raw.push(1);
    raw.extend_from_slice(&123u128.to_le_bytes());
    raw.extend_from_slice(&456u128.to_le_bytes());
    raw.extend_from_slice(&(-77i32).to_le_bytes());
    raw
}

#[test]
fn official_swap_event_discriminator_and_body_parse() {
    let pool = pk(1);
    let sender = pk(2);
    let token_account_0 = pk(3);
    let token_account_1 = pk(4);
    let mut raw = Vec::new();
    raw.extend_from_slice(&discriminators::SWAP);
    push_pk(&mut raw, pool);
    push_pk(&mut raw, sender);
    push_pk(&mut raw, token_account_0);
    push_pk(&mut raw, token_account_1);
    raw.extend_from_slice(&10u64.to_le_bytes());
    raw.extend_from_slice(&1u64.to_le_bytes());
    raw.extend_from_slice(&20u64.to_le_bytes());
    raw.extend_from_slice(&2u64.to_le_bytes());
    raw.push(1);
    raw.extend_from_slice(&123u128.to_le_bytes());
    raw.extend_from_slice(&456u128.to_le_bytes());
    raw.extend_from_slice(&(-77i32).to_le_bytes());

    let event = parse_log(&program_data_log(&raw), Signature::default(), 1, 0, None, 0)
        .expect("swap event");

    let DexEvent::RaydiumClmmSwap(swap) = event else {
        panic!("expected swap");
    };
    assert_eq!(swap.pool_state, pool);
    assert_eq!(swap.sender, sender);
    assert_eq!(swap.token_account_0, token_account_0);
    assert_eq!(swap.token_account_1, token_account_1);
    assert_eq!(swap.amount_0, 10);
    assert_eq!(swap.transfer_fee_0, 1);
    assert_eq!(swap.amount_1, 20);
    assert_eq!(swap.transfer_fee_1, 2);
    assert!(swap.zero_for_one);
    assert_eq!(swap.sqrt_price_x64, 123);
    assert_eq!(swap.liquidity, 456);
    assert_eq!(swap.tick, -77);
}

#[test]
fn instruction_swap_discriminator_is_not_treated_as_log_event() {
    let mut raw = Vec::new();
    raw.extend_from_slice(&[248, 198, 158, 145, 225, 117, 135, 200]);
    raw.resize(8 + 32 + 32 + 32 + 32 + 8 + 8 + 8 + 8 + 1 + 16 + 16 + 4, 0);

    assert!(parse_log(&program_data_log(&raw), Signature::default(), 1, 0, None, 0).is_none());
}

#[test]
fn official_liquidity_and_create_events_parse() {
    let mut inc = Vec::new();
    push_pk(&mut inc, pk(5));
    inc.extend_from_slice(&100u128.to_le_bytes());
    inc.extend_from_slice(&11u64.to_le_bytes());
    inc.extend_from_slice(&22u64.to_le_bytes());
    inc.extend_from_slice(&3u64.to_le_bytes());
    inc.extend_from_slice(&4u64.to_le_bytes());

    let DexEvent::RaydiumClmmIncreaseLiquidity(inc_event) =
        parse_increase_liquidity_from_data(&inc, metadata()).expect("increase")
    else {
        panic!("expected increase");
    };
    assert_eq!(inc_event.position_nft_mint, pk(5));
    assert_eq!(inc_event.liquidity, 100);
    assert_eq!(inc_event.amount_0, 11);
    assert_eq!(inc_event.amount_1, 22);
    assert_eq!(inc_event.amount_0_transfer_fee, 3);
    assert_eq!(inc_event.amount_1_transfer_fee, 4);

    let mut dec = Vec::new();
    push_pk(&mut dec, pk(6));
    dec.extend_from_slice(&200u128.to_le_bytes());
    dec.extend_from_slice(&31u64.to_le_bytes());
    dec.extend_from_slice(&32u64.to_le_bytes());
    dec.extend_from_slice(&5u64.to_le_bytes());
    dec.extend_from_slice(&6u64.to_le_bytes());
    dec.extend_from_slice(&[7u64.to_le_bytes(), 8u64.to_le_bytes(), 9u64.to_le_bytes()].concat());
    dec.extend_from_slice(&10u64.to_le_bytes());
    dec.extend_from_slice(&11u64.to_le_bytes());

    let DexEvent::RaydiumClmmDecreaseLiquidity(dec_event) =
        parse_decrease_liquidity_from_data(&dec, metadata()).expect("decrease")
    else {
        panic!("expected decrease");
    };
    assert_eq!(dec_event.position_nft_mint, pk(6));
    assert_eq!(dec_event.liquidity, 200);
    assert_eq!(dec_event.decrease_amount_0, 31);
    assert_eq!(dec_event.decrease_amount_1, 32);
    assert_eq!(dec_event.fee_amount_0, 5);
    assert_eq!(dec_event.fee_amount_1, 6);
    assert_eq!(dec_event.reward_amounts, [7, 8, 9]);
    assert_eq!(dec_event.transfer_fee_0, 10);
    assert_eq!(dec_event.transfer_fee_1, 11);

    let mut create = Vec::new();
    push_pk(&mut create, pk(7));
    push_pk(&mut create, pk(8));
    create.extend_from_slice(&64u16.to_le_bytes());
    push_pk(&mut create, pk(9));
    create.extend_from_slice(&333u128.to_le_bytes());
    create.extend_from_slice(&(-12i32).to_le_bytes());
    push_pk(&mut create, pk(10));
    push_pk(&mut create, pk(11));

    let DexEvent::RaydiumClmmCreatePool(create_event) =
        parse_create_pool_from_data(&create, metadata()).expect("create")
    else {
        panic!("expected create");
    };
    assert_eq!(create_event.token_0_mint, pk(7));
    assert_eq!(create_event.token_1_mint, pk(8));
    assert_eq!(create_event.tick_spacing, 64);
    assert_eq!(create_event.pool, pk(9));
    assert_eq!(create_event.sqrt_price_x64, 333);
    assert_eq!(create_event.tick, -12);
    assert_eq!(create_event.token_vault_0, pk(10));
    assert_eq!(create_event.token_vault_1, pk(11));
}

#[test]
fn official_collect_and_liquidity_change_events_parse() {
    let mut personal = Vec::new();
    push_pk(&mut personal, pk(12));
    push_pk(&mut personal, pk(13));
    push_pk(&mut personal, pk(14));
    personal.extend_from_slice(&70u64.to_le_bytes());
    personal.extend_from_slice(&80u64.to_le_bytes());

    let DexEvent::RaydiumClmmCollectFee(personal_event) =
        parse_collect_personal_fee_from_data(&personal, metadata()).expect("personal")
    else {
        panic!("expected personal collect");
    };
    assert_eq!(personal_event.position_nft_mint, pk(12));
    assert_eq!(personal_event.recipient_token_account_0, pk(13));
    assert_eq!(personal_event.recipient_token_account_1, pk(14));

    let mut protocol = Vec::new();
    push_pk(&mut protocol, pk(15));
    push_pk(&mut protocol, pk(16));
    push_pk(&mut protocol, pk(17));
    protocol.extend_from_slice(&90u64.to_le_bytes());
    protocol.extend_from_slice(&100u64.to_le_bytes());

    let DexEvent::RaydiumClmmCollectFee(protocol_event) =
        parse_collect_protocol_fee_from_data(&protocol, metadata()).expect("protocol")
    else {
        panic!("expected protocol collect");
    };
    assert_eq!(protocol_event.pool_state, pk(15));
    assert_eq!(protocol_event.recipient_token_account_0, pk(16));
    assert_eq!(protocol_event.recipient_token_account_1, pk(17));

    let mut change = Vec::new();
    push_pk(&mut change, pk(18));
    change.extend_from_slice(&1i32.to_le_bytes());
    change.extend_from_slice(&(-10i32).to_le_bytes());
    change.extend_from_slice(&10i32.to_le_bytes());
    change.extend_from_slice(&1234u128.to_le_bytes());
    change.extend_from_slice(&5678u128.to_le_bytes());

    let DexEvent::RaydiumClmmLiquidityChange(change_event) =
        parse_liquidity_change_from_data(&change, metadata()).expect("liquidity change")
    else {
        panic!("expected liquidity change");
    };
    assert_eq!(change_event.pool_state, pk(18));
    assert_eq!(change_event.tick, 1);
    assert_eq!(change_event.tick_lower, -10);
    assert_eq!(change_event.tick_upper, 10);
    assert_eq!(change_event.liquidity_before, 1234);
    assert_eq!(change_event.liquidity_after, 5678);
}

#[test]
fn official_dynamic_fee_and_limit_order_events_parse() {
    let mut config = Vec::new();
    config.extend_from_slice(&3u16.to_le_bytes());
    push_pk(&mut config, pk(21));
    config.extend_from_slice(&100u32.to_le_bytes());
    config.extend_from_slice(&200u32.to_le_bytes());
    config.extend_from_slice(&64u16.to_le_bytes());
    config.extend_from_slice(&300u32.to_le_bytes());
    push_pk(&mut config, pk(22));

    let DexEvent::RaydiumClmmConfigChange(config_event) =
        parse_config_change_from_data(&config, metadata()).expect("config")
    else {
        panic!("expected config change");
    };
    assert_eq!(config_event.index, 3);
    assert_eq!(config_event.owner, pk(21));
    assert_eq!(config_event.fund_owner, pk(22));

    let mut personal_position = Vec::new();
    push_pk(&mut personal_position, pk(23));
    push_pk(&mut personal_position, pk(24));
    push_pk(&mut personal_position, pk(25));
    personal_position.extend_from_slice(&(-4i32).to_le_bytes());
    personal_position.extend_from_slice(&8i32.to_le_bytes());
    personal_position.extend_from_slice(&900u128.to_le_bytes());
    personal_position.extend_from_slice(&31u64.to_le_bytes());
    personal_position.extend_from_slice(&32u64.to_le_bytes());
    personal_position.extend_from_slice(&1u64.to_le_bytes());
    personal_position.extend_from_slice(&2u64.to_le_bytes());

    let DexEvent::RaydiumClmmCreatePersonalPosition(position_event) =
        parse_create_personal_position_from_data(&personal_position, metadata())
            .expect("personal position")
    else {
        panic!("expected personal position");
    };
    assert_eq!(position_event.pool_state, pk(23));
    assert_eq!(position_event.minter, pk(24));
    assert_eq!(position_event.nft_owner, pk(25));
    assert_eq!(position_event.liquidity, 900);

    let mut open_order = Vec::new();
    push_pk(&mut open_order, pk(26));
    push_pk(&mut open_order, pk(27));
    open_order.push(1);
    open_order.extend_from_slice(&(-40i32).to_le_bytes());
    open_order.extend_from_slice(&1_000u64.to_le_bytes());
    open_order.extend_from_slice(&5u64.to_le_bytes());

    let DexEvent::RaydiumClmmOpenLimitOrder(open_event) =
        parse_open_limit_order_from_data(&open_order, metadata()).expect("open order")
    else {
        panic!("expected open limit order");
    };
    assert_eq!(open_event.pool_id, pk(26));
    assert_eq!(open_event.limit_order, pk(27));
    assert!(open_event.zero_for_one);
    assert_eq!(open_event.tick_index, -40);
    assert_eq!(open_event.total_amount, 1_000);
    assert_eq!(open_event.transfer_fee, 5);

    let mut settle_order = Vec::new();
    push_pk(&mut settle_order, pk(28));
    push_pk(&mut settle_order, pk(29));
    settle_order.push(0);
    settle_order.extend_from_slice(&41i32.to_le_bytes());
    settle_order.extend_from_slice(&2_000u64.to_le_bytes());
    settle_order.extend_from_slice(&1_500u64.to_le_bytes());
    settle_order.extend_from_slice(&3_000u64.to_le_bytes());

    let DexEvent::RaydiumClmmSettleLimitOrder(settle_event) =
        parse_settle_limit_order_from_data(&settle_order, metadata()).expect("settle order")
    else {
        panic!("expected settle limit order");
    };
    assert_eq!(settle_event.pool_id, pk(28));
    assert!(!settle_event.zero_for_one);
    assert_eq!(settle_event.settled_amount_out, 3_000);

    let mut reward = Vec::new();
    reward.extend_from_slice(&10u128.to_le_bytes());
    reward.extend_from_slice(&20u128.to_le_bytes());
    reward.extend_from_slice(&30u128.to_le_bytes());

    let DexEvent::RaydiumClmmUpdateRewardInfos(reward_event) =
        parse_update_reward_infos_from_data(&reward, metadata()).expect("reward")
    else {
        panic!("expected reward infos");
    };
    assert_eq!(reward_event.reward_growth_global_x64, [10, 20, 30]);
}

#[test]
fn swap_body_one_byte_short_is_rejected_and_trailing_bytes_are_ignored() {
    let body = swap_body();
    assert_eq!(body.len(), SWAP_EVENT_LEN);
    assert!(parse_swap_from_data(&body[..SWAP_EVENT_LEN - 1], metadata()).is_none());
    let mut longer = body.clone();
    longer.extend_from_slice(&[0xAA; 9]);
    let a = parse_swap_from_data(&body, metadata()).expect("exact");
    let b = parse_swap_from_data(&longer, metadata()).expect("longer");
    assert_eq!(a, b);
}

#[test]
fn zero_for_one_is_true_only_for_byte_one() {
    let mut body = swap_body();
    body[160] = 2;
    let DexEvent::RaydiumClmmSwap(swap) = parse_swap_from_data(&body, metadata()).unwrap() else {
        panic!("expected swap");
    };
    assert!(!swap.zero_for_one);
}

#[test]
fn extreme_values_decode_little_endian() {
    let mut change = Vec::new();
    push_pk(&mut change, pk(0));
    change.extend_from_slice(&i32::MIN.to_le_bytes());
    change.extend_from_slice(&i32::MAX.to_le_bytes());
    change.extend_from_slice(&(-1i32).to_le_bytes());
    change.extend_from_slice(&u128::MAX.to_le_bytes());
    change.extend_from_slice(&0x0102_0304_0506_0708_090A_0B0C_0D0E_0F10u128.to_le_bytes());
    let DexEvent::RaydiumClmmLiquidityChange(e) =
        parse_liquidity_change_from_data(&change, metadata()).unwrap()
    else {
        panic!("expected liquidity change");
    };
    assert_eq!(e.tick, i32::MIN);
    assert_eq!(e.tick_lower, i32::MAX);
    assert_eq!(e.tick_upper, -1);
    assert_eq!(e.liquidity_before, u128::MAX);
    assert_eq!(e.liquidity_after, 0x0102_0304_0506_0708_090A_0B0C_0D0E_0F10);
}

#[test]
fn defaults_of_fields_not_on_the_wire() {
    let mut inc = Vec::new();
    push_pk(&mut inc, pk(5));
    inc.extend_from_slice(&[9u8; 48]);
    let DexEvent::RaydiumClmmIncreaseLiquidity(e) =
        parse_increase_liquidity_from_data(&inc, metadata()).unwrap()
    else {
        panic!("expected increase");
    };
    assert_eq!(e.pool, Pubkey::default());
    assert_eq!(e.user, Pubkey::default());
    assert_eq!(e.amount0_max, 0);
    assert_eq!(e.amount1_max, 0);

    let mut personal = Vec::new();
    push_pk(&mut personal, pk(12));
    push_pk(&mut personal, pk(13));
    push_pk(&mut personal, pk(14));
    personal.extend_from_slice(&70u64.to_le_bytes());
    personal.extend_from_slice(&80u64.to_le_bytes());
    let alias = parse_collect_fee_from_data(&personal, metadata()).unwrap();
    let direct = parse_collect_personal_fee_from_data(&personal, metadata()).unwrap();
    assert_eq!(alias, direct);
    let DexEvent::RaydiumClmmCollectFee(e) = alias else { panic!("expected collect") };
    assert_eq!(e.pool_state, Pubkey::default());
    assert_eq!(e.amount_0, 70);
    assert_eq!(e.amount_1, 80);
}

#[test]
fn limit_order_bodies() {
    let mut inc = Vec::new();
    push_pk(&mut inc, pk(1));
    push_pk(&mut inc, pk(2));
    inc.push(1);
    inc.extend_from_slice(&5i32.to_le_bytes());
    inc.extend_from_slice(&100u64.to_le_bytes());
    inc.extend_from_slice(&7u64.to_le_bytes());
    inc.extend_from_slice(&3u64.to_le_bytes());
    let DexEvent::RaydiumClmmIncreaseLimitOrder(e) =
        parse_increase_limit_order_from_data(&inc, metadata()).unwrap()
    else {
        panic!("expected increase limit order");
    };
    assert_eq!(e.tick_index, 5);
    assert_eq!(e.total_amount, 100);
    assert_eq!(e.increased_amount, 7);
    assert_eq!(e.transfer_fee, 3);

    let mut dec = Vec::new();
    push_pk(&mut dec, pk(1));
    push_pk(&mut dec, pk(2));
    dec.push(0);
    dec.extend_from_slice(&(-5i32).to_le_bytes());
    for v in [100u64, 60, 30, 40] {
        dec.extend_from_slice(&v.to_le_bytes());
    }
    let DexEvent::RaydiumClmmDecreaseLimitOrder(e) =
        parse_decrease_limit_order_from_data(&dec, metadata()).unwrap()
    else {
        panic!("expected decrease limit order");
    };
    assert_eq!(e.filled_amount, 60);
    assert_eq!(e.settled_output_amount, 30);
    assert_eq!(e.decreased_amount, 40);
    assert!(parse_decrease_limit_order_from_data(&dec[..100], metadata()).is_none());
}

#[test]
fn liquidity_calculate_body() {
    let mut b = Vec::new();
    b.extend_from_slice(&1u128.to_le_bytes());
    b.extend_from_slice(&2u128.to_le_bytes());
    b.extend_from_slice(&(-3i32).to_le_bytes());
    for v in 4u64..10 {
        b.extend_from_slice(&v.to_le_bytes());
    }
    let DexEvent::RaydiumClmmLiquidityCalculate(e) =
        parse_liquidity_calculate_from_data(&b, metadata()).unwrap()
    else {
        panic!("expected liquidity calculate");
    };
    assert_eq!(e.pool_liquidity, 1);
    assert_eq!(e.pool_sqrt_price_x64, 2);
    assert_eq!(e.pool_tick, -3);
    assert_eq!(e.calc_amount_0, 4);
    assert_eq!(e.transfer_fee_1, 9);
}

#[test]
fn program_data_needs_eight_bytes_and_a_known_discriminator() {
    assert!(parse_program_data(&[64, 198, 205, 232, 38, 8, 113], metadata()).is_none());
    let mut raw = discriminators::SWAP.to_vec();
    raw.extend_from_slice(&swap_body());
    assert!(parse_program_data(&raw, metadata()).is_some());
    raw[0] ^= 1;
    assert!(parse_program_data(&raw, metadata()).is_none());
}

#[test]
fn parse_log_fills_metadata_and_needs_valid_base64() {
    let mut raw = discriminators::SWAP.to_vec();
    raw.extend_from_slice(&swap_body());
    let sig = Signature([7u8; 64]);
    let ev = parse_log(&program_data_log(&raw), sig, 42, 3, Some(99), 5).unwrap();
    let DexEvent::RaydiumClmmSwap(swap) = ev else { panic!("expected swap") };
    assert_eq!(swap.metadata.signature, sig);
    assert_eq!(swap.metadata.slot, 42);
    assert_eq!(swap.metadata.tx_index, 3);
    assert_eq!(swap.metadata.block_time_us, 99);
    assert_eq!(swap.metadata.grpc_recv_us, 5);
    assert_eq!(swap.metadata.recent_blockhash, None);

    let ev = parse_log(&program_data_log(&raw), sig, 42, 3, None, 5).unwrap();
    let DexEvent::RaydiumClmmSwap(swap) = ev else { panic!("expected swap") };
    assert_eq!(swap.metadata.block_time_us, 0);

    assert!(parse_log("Program data: !!!not base64", sig, 1, 0, None, 0).is_none());
    assert!(parse_log("Program log: hello", sig, 1, 0, None, 0).is_none());
}

#[test]
fn extract_program_data_takes_text_after_first_marker() {
    assert_eq!(extract_program_data("Program data: AQID"), Some(vec![1, 2, 3]));
    assert_eq!(extract_program_data("xx Program data: AQID"), Some(vec![1, 2, 3]));
    assert_eq!(extract_program_data("Program data AQID"), None);
    assert_eq!(extract_program_data("Program data: "), Some(vec![]));
}

#[test]
fn recognises_raydium_logs() {
    assert!(is_raydium_clmm_log(
        "Program CAMMCzo5YL8w4VFF8KVHrK22GGUsp5VTaW7grrKgrWqK invoke [1]"
    ));
    assert!(is_raydium_clmm_log(
        "Program CAMMCzo5YL8w4VFF8KVHrK22GGUsp5VTaW7grrKgrWqK success"
    ));
    assert!(is_raydium_clmm_log("a raydium thing"));
    assert!(is_raydium_clmm_log("Raydium"));
    assert!(!is_raydium_clmm_log("Program 11111111111111111111111111111111 invoke [1]"));
    assert!(!is_raydium_clmm_log("RAYDIUM"));
    assert!(!is_raydium_clmm_log(""));
}
