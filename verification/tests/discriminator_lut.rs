use sol_parser_sdk::events::EventKind;
use sol_parser_sdk::logs::discriminator_lut::{
    discriminator_to_name, discriminator_to_protocol, lookup_discriminator, lut_entry,
    parse_with_discriminator, Protocol, LUT_LEN,
};
use sol_parser_sdk::events::DexEvent;
use sol_parser_sdk::types::EventMetadata;

#[test]
fn test_lut_is_sorted() {
    // Verify the LUT is sorted (required for binary search)
    for i in 1..LUT_LEN {
        assert!(
            lut_entry(i - 1).discriminator < lut_entry(i).discriminator,
            "LUT not sorted at index {}: {:x} >= {:x}",
            i,
            lut_entry(i - 1).discriminator,
            lut_entry(i).discriminator
        );
    }
}

#[test]
fn test_discriminator_lookup() {
    // PumpFun Create
    let disc = 0x7663EBDE4DA91B1B;
    let info = lookup_discriminator(disc).unwrap();
    assert_eq!(info.name, "PumpFun Create");
    assert_eq!(info.protocol, Protocol::PumpFun);

    // Raydium CLMM Swap
    let disc = 0xE2710826E8CDC640;
    let info = lookup_discriminator(disc).unwrap();
    assert_eq!(info.name, "Raydium CLMM Swap");
    assert_eq!(info.protocol, Protocol::RaydiumClmm);

    // Unknown discriminator
    let disc = 0xFFFFFFFFFFFFFFFF;
    assert!(lookup_discriminator(disc).is_none());
}

#[test]
fn test_event_name_lookup() {
    // PumpSwap Buy
    let disc = 0x7777F52C1F52F467;
    assert_eq!(discriminator_to_name(disc), Some("PumpSwap Buy"));

    // Raydium AMM Swap Base In
    let disc = 0x0900000000000000;
    assert_eq!(discriminator_to_name(disc), Some("Raydium AMM Swap Base In"));
}

#[test]
fn test_protocol_lookup() {
    assert_eq!(discriminator_to_protocol(0x7663EBDE4DA91B1B), Some(Protocol::PumpFun));
    assert_eq!(discriminator_to_protocol(0xE2710826E8CDC640), Some(Protocol::RaydiumClmm));
    assert_eq!(discriminator_to_protocol(0x96A02B93AF49CAE1), Some(Protocol::OrcaWhirlpool));
}

#[test]
fn every_row_is_found_by_its_discriminator() {
    for i in 0..LUT_LEN {
        let row = lut_entry(i);
        let found = lookup_discriminator(row.discriminator).expect("row must be found");
        assert_eq!(found.discriminator, row.discriminator);
        assert_eq!(found.kind, row.kind);
        assert_eq!(found.name, row.name);
    }
}

#[test]
fn first_and_last_rows_and_gaps() {
    assert_eq!(discriminator_to_name(0x0100000000000000), Some("Raydium AMM Initialize2"));
    assert_eq!(discriminator_to_name(0xF70E375C88267F79), Some("Meteora AMM Bootstrap Liquidity"));
    assert_eq!(discriminator_to_name(0), None);
    assert_eq!(discriminator_to_name(0x0100000000000001), None);
    assert_eq!(discriminator_to_protocol(0xF70E375C88267F7A), None);
}

#[test]
fn lookup_of_orca_liquidity_decreased_row_uses_its_table_value() {
    // The row is stored under 0x0ABB5CA7047241A6.
    assert_eq!(
        discriminator_to_name(0x0ABB5CA7047241A6),
        Some("Orca Whirlpool Liquidity Decreased")
    );
    // The inner-instruction discriminator of that event reads as another value.
    let inner = u64::from_le_bytes([166, 1, 36, 71, 112, 202, 181, 171]);
    assert_eq!(inner, 0xABB5CA70472401A6);
    assert_eq!(discriminator_to_name(inner), None);
}

#[test]
fn parse_with_discriminator_decodes_clmm_and_routes_others() {
    let mut body = Vec::new();
    for v in [10u128, 20, 30] {
        body.extend_from_slice(&v.to_le_bytes());
    }
    let ev = parse_with_discriminator(0xEC2541724EBA7F6D, &body, EventMetadata::default())
        .expect("reward infos");
    match ev {
        DexEvent::RaydiumClmmUpdateRewardInfos(e) => {
            assert_eq!(e.reward_growth_global_x64, [10, 20, 30]);
        }
        other => panic!("unexpected {other:?}"),
    }
    assert!(parse_with_discriminator(0xEC2541724EBA7F6D, &body[..47], EventMetadata::default())
        .is_none());

    let ev = parse_with_discriminator(0x7777F52C1F52F467, &[1, 2, 3], EventMetadata::default())
        .expect("routed");
    match ev {
        DexEvent::Undecoded(u) => {
            assert_eq!(u.kind, EventKind::PumpSwapBuy);
            assert_eq!(u.data, vec![1, 2, 3]);
        }
        other => panic!("unexpected {other:?}"),
    }
    assert!(parse_with_discriminator(0x1234, &body, EventMetadata::default()).is_none());
}
