use sol_parser_sdk::events::{DexEvent, EventKind};
use sol_parser_sdk::instr::all_inner::{meteora_amm, orca, pump_fees, raydium_amm, raydium_cpmm};
use sol_parser_sdk::instr::raydium_clmm_inner::{
    discriminators, parse_raydium_clmm_inner_instruction,
};
use sol_parser_sdk::instr::all_inner::pump_fees::{
    event_discriminator, EVENT_CPI_PREFIX, EVENT_CPI_SUFFIX, UPDATE_ADMIN_EVENT_DISC,
};
use sol_parser_sdk::logs::discriminator_lut::{lookup_discriminator, parse_with_discriminator, Protocol};
use sol_parser_sdk::logs::pump_fees::{parse_update_admin_from_data, UPDATE_ADMIN_EVENT_LEN};
use sol_parser_sdk::logs::raydium_clmm::discriminators as log_disc;
use sol_parser_sdk::types::{EventMetadata, Pubkey};

fn update_admin_data(old_admin: Pubkey, new_admin: Pubkey) -> Vec<u8> {
    let mut data = Vec::new();
    data.extend_from_slice(&123i64.to_le_bytes());
    data.extend_from_slice(&old_admin.0);
    data.extend_from_slice(&new_admin.0);
    data
}

#[test]
fn parses_prefix_and_suffix_event_cpi_layouts() {
    let old_admin = Pubkey::new_from_array([1; 32]);
    let new_admin = Pubkey::new_from_array([2; 32]);
    let data = update_admin_data(old_admin, new_admin);

    let mut prefix_disc = [0u8; 16];
    prefix_disc[..8].copy_from_slice(&EVENT_CPI_PREFIX);
    prefix_disc[8..].copy_from_slice(&UPDATE_ADMIN_EVENT_DISC);

    let mut suffix_disc = [0u8; 16];
    suffix_disc[..8].copy_from_slice(&UPDATE_ADMIN_EVENT_DISC);
    suffix_disc[8..].copy_from_slice(&EVENT_CPI_SUFFIX);

    for disc in [prefix_disc, suffix_disc] {
        let event = pump_fees::parse(&disc, &data, EventMetadata::default())
            .expect("pump-fees update-admin CPI event should parse");
        match event {
            DexEvent::PumpFeesUpdateAdmin(event) => {
                assert_eq!(event.timestamp, 123);
                assert_eq!(event.old_admin, old_admin);
                assert_eq!(event.new_admin, new_admin);
            }
            other => panic!("expected PumpFeesUpdateAdmin, got {other:?}"),
        }
    }
}

#[test]
fn event_discriminator_layouts() {
    let mut d = [0u8; 16];
    d[..8].copy_from_slice(&EVENT_CPI_PREFIX);
    d[8..].copy_from_slice(&[1, 2, 3, 4, 5, 6, 7, 8]);
    assert_eq!(event_discriminator(&d), Some([1, 2, 3, 4, 5, 6, 7, 8]));
    let mut d = [0u8; 16];
    d[..8].copy_from_slice(&[1, 2, 3, 4, 5, 6, 7, 8]);
    d[8..].copy_from_slice(&EVENT_CPI_SUFFIX);
    assert_eq!(event_discriminator(&d), Some([1, 2, 3, 4, 5, 6, 7, 8]));
    assert_eq!(event_discriminator(&[9u8; 16]), None);
    // The prefix wins when both layouts match.
    let mut d = [0u8; 16];
    d[..8].copy_from_slice(&EVENT_CPI_PREFIX);
    d[8..].copy_from_slice(&EVENT_CPI_SUFFIX);
    assert_eq!(event_discriminator(&d), Some(EVENT_CPI_SUFFIX));
    // An unknown event discriminator parses to nothing.
    let mut d = [0u8; 16];
    d[..8].copy_from_slice(&EVENT_CPI_PREFIX);
    assert!(pump_fees::parse(&d, &[], EventMetadata::default()).is_none());
}

#[test]
fn raydium_clmm_inner_instruction_decodes_bodies() {
    let mut body = Vec::new();
    body.extend_from_slice(&[5u8; 32]);
    body.extend_from_slice(&100u128.to_le_bytes());
    for v in [11u64, 22, 3, 4] {
        body.extend_from_slice(&v.to_le_bytes());
    }
    let ev = parse_raydium_clmm_inner_instruction(
        &discriminators::INCREASE_LIQUIDITY,
        &body,
        EventMetadata::default(),
    )
    .expect("increase");
    let DexEvent::RaydiumClmmIncreaseLiquidity(e) = ev else { panic!("expected increase") };
    assert_eq!(e.liquidity, 100);
    assert_eq!(e.amount_1, 22);
    assert!(parse_raydium_clmm_inner_instruction(
        &discriminators::INCREASE_LIQUIDITY,
        &body[..79],
        EventMetadata::default()
    )
    .is_none());
    let mut unknown = discriminators::INCREASE_LIQUIDITY;
    unknown[15] ^= 1;
    assert!(parse_raydium_clmm_inner_instruction(&unknown, &body, EventMetadata::default())
        .is_none());
}

fn routed(ev: Option<DexEvent>) -> EventKind {
    match ev {
        Some(DexEvent::Undecoded(u)) => u.kind,
        other => panic!("expected a routed event, got {other:?}"),
    }
}

#[test]
fn other_protocols_route_by_discriminator() {
    let m = EventMetadata::default();
    assert_eq!(routed(meteora_amm::parse(&meteora_amm::discriminators::SET_POOL_FEES, &[], m)), EventKind::MeteoraAmmSetPoolFees);
    assert_eq!(routed(orca::parse(&orca::discriminators::TRADED, &[1], m)), EventKind::OrcaTraded);
    assert_eq!(routed(raydium_amm::parse(&raydium_amm::discriminators::WITHDRAW_PNL, &[], m)), EventKind::RaydiumAmmWithdrawPnl);
    assert_eq!(routed(raydium_cpmm::parse(&raydium_cpmm::discriminators::DEPOSIT, &[], m)), EventKind::RaydiumCpmmDeposit);
    assert!(orca::parse(&[0u8; 16], &[], m).is_none());
    assert!(raydium_amm::parse(&[0u8; 16], &[], m).is_none());
    assert!(raydium_cpmm::parse(&[0u8; 16], &[], m).is_none());
    assert!(meteora_amm::parse(&[0u8; 16], &[], m).is_none());
}

#[test]
fn clmm_tables_agree_on_concrete_discriminators() {
    let pairs: [([u8; 8], [u8; 16]); 3] = [
        (log_disc::SWAP, discriminators::SWAP),
        (log_disc::CREATE_POOL, discriminators::CREATE_POOL),
        (log_disc::COLLECT_PROTOCOL_FEE, discriminators::COLLECT_PROTOCOL_FEE),
    ];
    for (short, long) in pairs {
        assert_eq!(&long[..8], &short[..]);
        assert_eq!(&long[8..], &EVENT_CPI_SUFFIX[..]);
        let info = lookup_discriminator(u64::from_le_bytes(short)).expect("row");
        assert_eq!(info.protocol, Protocol::RaydiumClmm);
    }
    let info = lookup_discriminator(u64::from_le_bytes(UPDATE_ADMIN_EVENT_DISC)).expect("row");
    assert_eq!(info.kind, EventKind::PumpFeesUpdateAdmin);
}

#[test]
fn update_admin_body_decoding() {
    let old_admin = Pubkey::new_from_array([3; 32]);
    let new_admin = Pubkey::new_from_array([4; 32]);
    let mut data = Vec::new();
    data.extend_from_slice(&(-5i64).to_le_bytes());
    data.extend_from_slice(&old_admin.0);
    data.extend_from_slice(&new_admin.0);
    assert_eq!(data.len(), UPDATE_ADMIN_EVENT_LEN);
    match parse_update_admin_from_data(&data, EventMetadata::default()) {
        Some(DexEvent::PumpFeesUpdateAdmin(e)) => {
            assert_eq!(e.timestamp, -5);
            assert_eq!(e.old_admin, old_admin);
            assert_eq!(e.new_admin, new_admin);
        }
        other => panic!("unexpected {other:?}"),
    }
    assert!(parse_update_admin_from_data(&data[..71], EventMetadata::default()).is_none());
    // The lookup table routes the same body to the same decoder.
    let via_table = parse_with_discriminator(
        u64::from_le_bytes(UPDATE_ADMIN_EVENT_DISC),
        &data,
        EventMetadata::default(),
    );
    assert_eq!(via_table, parse_update_admin_from_data(&data, EventMetadata::default()));
    // Other pump-fees events are routed, not decoded.
    let mut disc = [0u8; 16];
    disc[..8].copy_from_slice(&EVENT_CPI_PREFIX);
    disc[8..].copy_from_slice(&pump_fees::UPSERT_FEE_TIERS_EVENT_DISC);
    assert_eq!(routed(pump_fees::parse(&disc, &data, EventMetadata::default())), EventKind::PumpFeesUpsertFeeTiers);
}

#[test]
fn routers_agree_with_the_lookup_table() {
    let m = EventMetadata::default();
    let body = [9u8; 40];
    let key = |d: &[u8; 16]| u64::from_le_bytes(d[..8].try_into().unwrap());
    let d = meteora_amm::discriminators::ADD_LIQUIDITY;
    assert_eq!(meteora_amm::parse(&d, &body, m), parse_with_discriminator(key(&d), &body, m));
    let d = orca::discriminators::POOL_INITIALIZED;
    assert_eq!(orca::parse(&d, &body, m), parse_with_discriminator(key(&d), &body, m));
    let d = raydium_amm::discriminators::SWAP_BASE_IN;
    assert_eq!(raydium_amm::parse(&d, &body, m), parse_with_discriminator(key(&d), &body, m));
    let d = raydium_cpmm::discriminators::WITHDRAW;
    assert_eq!(raydium_cpmm::parse(&d, &body, m), parse_with_discriminator(key(&d), &body, m));
    // The Raydium CLMM inner route and the table agree on a swap body.
    let swap_body = [1u8; 197];
    let d = discriminators::SWAP;
    assert_eq!(
        parse_raydium_clmm_inner_instruction(&d, &swap_body, m),
        parse_with_discriminator(key(&d), &swap_body, m)
    );
    assert!(parse_raydium_clmm_inner_instruction(&d, &swap_body, m).is_some());
}

#[test]
fn pump_fees_layouts_decode_alike() {
    let data = update_admin_data(Pubkey::new_from_array([8; 32]), Pubkey::new_from_array([9; 32]));
    let mut prefix_disc = [0u8; 16];
    prefix_disc[..8].copy_from_slice(&EVENT_CPI_PREFIX);
    prefix_disc[8..].copy_from_slice(&UPDATE_ADMIN_EVENT_DISC);
    let mut suffix_disc = [0u8; 16];
    suffix_disc[..8].copy_from_slice(&UPDATE_ADMIN_EVENT_DISC);
    suffix_disc[8..].copy_from_slice(&EVENT_CPI_SUFFIX);
    let m = EventMetadata::default();
    assert_eq!(pump_fees::parse(&prefix_disc, &data, m), pump_fees::parse(&suffix_disc, &data, m));
    let mut neither = [1u8; 16];
    neither[8..].copy_from_slice(&UPDATE_ADMIN_EVENT_DISC);
    assert!(pump_fees::parse(&neither, &data, m).is_none());
}
