//! Properties that tie the library's tables and decoders together.

use crate::accounts::raydium_clmm::discriminators as acct_disc;
use crate::accounts::raydium_clmm::{
    account_body, account_result, amm_config_account_result, amm_config_decoded,
    has_discriminator_spec, pool_state_account_result, pool_state_decoded, reward_info_decoded,
    tick_array_account_result, tick_array_decoded, tick_decoded, TICK_ARRAY_LEN, TICK_SIZE,
};
use crate::bytes::{
    le_run_at, le_value, lemma_le_value_bound, lemma_pow256_values, u128s, u32s, u64s,
};
use crate::events::{
    same_result, same_tick_array, DexEvent, EventKind, RaydiumClmmAmmConfig,
    RaydiumClmmPoolState, RaydiumClmmRewardInfo, RaydiumClmmTickArrayState, Tick,
};
use crate::instr::all_inner::pump_fees::EVENT_CPI_SUFFIX;
use crate::instr::all_inner::{meteora_amm, orca, pump_fees, raydium_amm, raydium_cpmm};
use crate::instr::raydium_clmm_inner::clmm_inner_kind_of;
use crate::instr::raydium_clmm_inner::discriminators as inner_disc;
use crate::logs::discriminator_lut::{
    lemma_lut_strictly_sorted, lut_info, lut_kind, spec_lookup, Protocol, DISCRIMINATOR_KEYS,
    DISCRIMINATOR_KINDS, DISCRIMINATOR_PROTOCOLS, LUT_LEN,
};
use crate::logs::event_body::{event_body_result, routed_result};
use crate::logs::raydium_clmm::{
    clmm_body_len, clmm_decoded, clmm_kind_of, clmm_parse_result, program_data_result,
};
use crate::types::{AccountData, EventMetadata, Pubkey};
use crate::logs::raydium_clmm::discriminators as log_disc;
use vstd::prelude::*;

verus! {

/// Looking up the discriminator of row `i` finds row `i`.
pub proof fn lemma_lookup_row(i: int)
    requires
        0 <= i < LUT_LEN,
    ensures
        spec_lookup(DISCRIMINATOR_KEYS@[i]) == Some(lut_info(i)),
{
    lemma_lut_strictly_sorted();
    let d = DISCRIMINATOR_KEYS@[i];
    let k = choose|k: int| 0 <= k < LUT_LEN && DISCRIMINATOR_KEYS@[k] == d;
    assert(k == i) by {
        if k < i {
            assert(DISCRIMINATOR_KEYS@[k] < DISCRIMINATOR_KEYS@[i]);
        } else if k > i {
            assert(DISCRIMINATOR_KEYS@[i] < DISCRIMINATOR_KEYS@[k]);
        }
    }
}

/// An 8-byte little-endian value, spelled out.
pub proof fn lemma_le_value_8(s: Seq<u8>)
    requires
        s.len() == 8,
    ensures
        le_value(s) == s[0] + 256 * (s[1] + 256 * (s[2] + 256 * (s[3] + 256 * (s[4] + 256 * (s[5]
            + 256 * (s[6] + 256 * s[7])))))),
{
    let s1 = s.drop_first();
    let s2 = s1.drop_first();
    let s3 = s2.drop_first();
    let s4 = s3.drop_first();
    let s5 = s4.drop_first();
    let s6 = s5.drop_first();
    let s7 = s6.drop_first();
    let s8 = s7.drop_first();
    assert(le_value(s8) == 0);
    assert(le_value(s7) == s[7] + 256 * le_value(s8));
    assert(le_value(s6) == s[6] + 256 * le_value(s7));
    assert(le_value(s5) == s[5] + 256 * le_value(s6));
    assert(le_value(s4) == s[4] + 256 * le_value(s5));
    assert(le_value(s3) == s[3] + 256 * le_value(s4));
    assert(le_value(s2) == s[2] + 256 * le_value(s3));
    assert(le_value(s1) == s[1] + 256 * le_value(s2));
}

/// A Raydium CLMM inner-instruction discriminator is the 8-byte event
/// discriminator followed by the event-CPI suffix; any other 16 bytes name
/// no event.
pub proof fn law_clmm_inner_discriminator_is_event_discriminator(disc: Seq<u8>)
    requires
        disc.len() == 16,
    ensures
        clmm_inner_kind_of(disc) == (if disc.subrange(8, 16) == EVENT_CPI_SUFFIX@ {
            clmm_kind_of(disc.subrange(0, 8))
        } else {
            None
        }),
{
    lemma_split_match(disc, inner_disc::SWAP@, log_disc::SWAP@);
    lemma_split_match(disc, inner_disc::INCREASE_LIQUIDITY@, log_disc::INCREASE_LIQUIDITY@);
    lemma_split_match(disc, inner_disc::DECREASE_LIQUIDITY@, log_disc::DECREASE_LIQUIDITY@);
    lemma_split_match(disc, inner_disc::LIQUIDITY_CHANGE@, log_disc::LIQUIDITY_CHANGE@);
    lemma_split_match(disc, inner_disc::CONFIG_CHANGE@, log_disc::CONFIG_CHANGE@);
    lemma_split_match(disc, inner_disc::CREATE_PERSONAL_POSITION@, log_disc::CREATE_PERSONAL_POSITION@);
    lemma_split_match(disc, inner_disc::LIQUIDITY_CALCULATE@, log_disc::LIQUIDITY_CALCULATE@);
    lemma_split_match(disc, inner_disc::OPEN_LIMIT_ORDER@, log_disc::OPEN_LIMIT_ORDER@);
    lemma_split_match(disc, inner_disc::INCREASE_LIMIT_ORDER@, log_disc::INCREASE_LIMIT_ORDER@);
    lemma_split_match(disc, inner_disc::DECREASE_LIMIT_ORDER@, log_disc::DECREASE_LIMIT_ORDER@);
    lemma_split_match(disc, inner_disc::SETTLE_LIMIT_ORDER@, log_disc::SETTLE_LIMIT_ORDER@);
    lemma_split_match(disc, inner_disc::UPDATE_REWARD_INFOS@, log_disc::UPDATE_REWARD_INFOS@);
    lemma_split_match(disc, inner_disc::CREATE_POOL@, log_disc::CREATE_POOL@);
    lemma_split_match(disc, inner_disc::COLLECT_PERSONAL_FEE@, log_disc::COLLECT_PERSONAL_FEE@);
    lemma_split_match(disc, inner_disc::COLLECT_PROTOCOL_FEE@, log_disc::COLLECT_PROTOCOL_FEE@);
}

/// `disc` equals `whole`, which is `part` followed by the event-CPI suffix,
/// exactly when its first 8 bytes are `part` and its last 8 are the suffix.
proof fn lemma_split_match(disc: Seq<u8>, whole: Seq<u8>, part: Seq<u8>)
    requires
        disc.len() == 16,
        part.len() == 8,
        whole =~= part + EVENT_CPI_SUFFIX@,
    ensures
        (disc == whole) == (disc.subrange(8, 16) == EVENT_CPI_SUFFIX@ && disc.subrange(0, 8) == part),
{
    if disc == whole {
        assert(disc.subrange(8, 16) =~= EVENT_CPI_SUFFIX@);
        assert(disc.subrange(0, 8) =~= part);
    }
    if disc.subrange(8, 16) == EVENT_CPI_SUFFIX@ && disc.subrange(0, 8) == part {
        assert(disc =~= whole);
    }
}

/// The lookup table agrees with the Raydium CLMM event discriminators: the
/// discriminator read as a little-endian `u64` finds a Raydium CLMM row of the
/// same event kind.
pub proof fn law_clmm_lookup_agrees(disc: Seq<u8>)
    requires
        disc.len() == 8,
        clmm_kind_of(disc) is Some,
    ensures
        spec_lookup(le_value(disc) as u64) matches Some(info) && Some(info.kind) == clmm_kind_of(disc)
            && info.protocol == Protocol::RaydiumClmm,
{
    if disc == log_disc::SWAP@ {
        lemma_le_value_8(disc);
        lemma_lookup_row(43);
    } else if disc == log_disc::INCREASE_LIQUIDITY@ {
        lemma_le_value_8(disc);
        lemma_lookup_row(15);
    } else if disc == log_disc::DECREASE_LIQUIDITY@ {
        lemma_le_value_8(disc);
        lemma_lookup_row(9);
    } else if disc == log_disc::LIQUIDITY_CHANGE@ {
        lemma_le_value_8(disc);
        lemma_lookup_row(18);
    } else if disc == log_disc::CONFIG_CHANGE@ {
        lemma_le_value_8(disc);
        lemma_lookup_row(26);
    } else if disc == log_disc::CREATE_PERSONAL_POSITION@ {
        lemma_le_value_8(disc);
        lemma_lookup_row(39);
    } else if disc == log_disc::LIQUIDITY_CALCULATE@ {
        lemma_le_value_8(disc);
        lemma_lookup_row(28);
    } else if disc == log_disc::OPEN_LIMIT_ORDER@ {
        lemma_le_value_8(disc);
        lemma_lookup_row(41);
    } else if disc == log_disc::INCREASE_LIMIT_ORDER@ {
        lemma_le_value_8(disc);
        lemma_lookup_row(36);
    } else if disc == log_disc::DECREASE_LIMIT_ORDER@ {
        lemma_le_value_8(disc);
        lemma_lookup_row(29);
    } else if disc == log_disc::SETTLE_LIMIT_ORDER@ {
        lemma_le_value_8(disc);
        lemma_lookup_row(34);
    } else if disc == log_disc::UPDATE_REWARD_INFOS@ {
        lemma_le_value_8(disc);
        lemma_lookup_row(47);
    } else if disc == log_disc::CREATE_POOL@ {
        lemma_le_value_8(disc);
        lemma_lookup_row(13);
    } else if disc == log_disc::COLLECT_PERSONAL_FEE@ {
        lemma_le_value_8(disc);
        lemma_lookup_row(17);
    } else if disc == log_disc::COLLECT_PROTOCOL_FEE@ {
        lemma_le_value_8(disc);
        lemma_lookup_row(11);
    }
}

/// The lookup table agrees with the Meteora AMM inner discriminators: the
/// first 8 bytes, read as a little-endian `u64`, find a row of the same event
/// kind. The kinds left out have no row of their own in the table, or a row
/// under a different value.
pub proof fn law_meteora_amm_lookup_agrees(disc: Seq<u8>)
    requires
        disc.len() == 16,
        meteora_amm::inner_kind_of(disc) matches Some(k) && k != EventKind::MeteoraAmmSwap && k != EventKind::MeteoraAmmSetPoolFees,
    ensures
        spec_lookup(le_value(disc.subrange(0, 8)) as u64) matches Some(info)
            && Some(info.kind) == meteora_amm::inner_kind_of(disc),
{
    if disc == meteora_amm::discriminators::ADD_LIQUIDITY@ {
        lemma_le_value_8(disc.subrange(0, 8));
        lemma_lookup_row(32);
    }
    if disc == meteora_amm::discriminators::REMOVE_LIQUIDITY@ {
        lemma_le_value_8(disc.subrange(0, 8));
        lemma_lookup_row(10);
    }
    if disc == meteora_amm::discriminators::BOOTSTRAP_LIQUIDITY@ {
        lemma_le_value_8(disc.subrange(0, 8));
        lemma_lookup_row(50);
    }
    if disc == meteora_amm::discriminators::POOL_CREATED@ {
        lemma_le_value_8(disc.subrange(0, 8));
        lemma_lookup_row(14);
    }
}

/// The lookup table agrees with the Orca Whirlpool inner discriminators: the
/// first 8 bytes, read as a little-endian `u64`, find a row of the same event
/// kind. The kinds left out have no row of their own in the table, or a row
/// under a different value.
pub proof fn law_orca_lookup_agrees(disc: Seq<u8>)
    requires
        disc.len() == 16,
        orca::inner_kind_of(disc) matches Some(k) && k != EventKind::OrcaLiquidityIncreased && k != EventKind::OrcaLiquidityDecreased,
    ensures
        spec_lookup(le_value(disc.subrange(0, 8)) as u64) matches Some(info)
            && Some(info.kind) == orca::inner_kind_of(disc),
{
    if disc == orca::discriminators::TRADED@ {
        lemma_le_value_8(disc.subrange(0, 8));
        lemma_lookup_row(25);
    }
    if disc == orca::discriminators::POOL_INITIALIZED@ {
        lemma_le_value_8(disc.subrange(0, 8));
        lemma_lookup_row(44);
    }
}

/// The lookup table agrees with the Raydium AMM V4 inner discriminators: the
/// first 8 bytes, read as a little-endian `u64`, find a row of the same event
/// kind. The kinds left out have no row of their own in the table, or a row
/// under a different value.
pub proof fn law_raydium_amm_lookup_agrees(disc: Seq<u8>)
    requires
        disc.len() == 16,
        raydium_amm::inner_kind_of(disc) matches Some(k) && k != EventKind::RaydiumAmmWithdrawPnl,
    ensures
        spec_lookup(le_value(disc.subrange(0, 8)) as u64) matches Some(info)
            && Some(info.kind) == raydium_amm::inner_kind_of(disc),
{
    if disc == raydium_amm::discriminators::SWAP_BASE_IN@ {
        lemma_le_value_8(disc.subrange(0, 8));
        lemma_lookup_row(4);
    }
    if disc == raydium_amm::discriminators::SWAP_BASE_OUT@ {
        lemma_le_value_8(disc.subrange(0, 8));
        lemma_lookup_row(6);
    }
    if disc == raydium_amm::discriminators::DEPOSIT@ {
        lemma_le_value_8(disc.subrange(0, 8));
        lemma_lookup_row(1);
    }
    if disc == raydium_amm::discriminators::WITHDRAW@ {
        lemma_le_value_8(disc.subrange(0, 8));
        lemma_lookup_row(3);
    }
    if disc == raydium_amm::discriminators::INITIALIZE2@ {
        lemma_le_value_8(disc.subrange(0, 8));
        lemma_lookup_row(0);
    }
}

/// The lookup table agrees with the Raydium CPMM inner discriminators: the
/// first 8 bytes, read as a little-endian `u64`, find a row of the same event
/// kind. The kinds left out have no row of their own in the table, or a row
/// under a different value.
pub proof fn law_raydium_cpmm_lookup_agrees(disc: Seq<u8>)
    requires
        disc.len() == 16,
        raydium_cpmm::inner_kind_of(disc) matches Some(k) && k != EventKind::RaydiumCpmmCreatePool,
    ensures
        spec_lookup(le_value(disc.subrange(0, 8)) as u64) matches Some(info)
            && Some(info.kind) == raydium_cpmm::inner_kind_of(disc),
{
    if disc == raydium_cpmm::discriminators::SWAP_BASE_IN@ {
        lemma_le_value_8(disc.subrange(0, 8));
        lemma_lookup_row(42);
    }
    if disc == raydium_cpmm::discriminators::SWAP_BASE_OUT@ {
        lemma_le_value_8(disc.subrange(0, 8));
        lemma_lookup_row(30);
    }
    if disc == raydium_cpmm::discriminators::DEPOSIT@ {
        lemma_le_value_8(disc.subrange(0, 8));
        lemma_lookup_row(31);
    }
    if disc == raydium_cpmm::discriminators::WITHDRAW@ {
        lemma_le_value_8(disc.subrange(0, 8));
        lemma_lookup_row(7);
    }
}

/// The lookup table agrees with the pump-fees event discriminators.
pub proof fn law_pump_fees_lookup_agrees(disc: Seq<u8>)
    requires
        disc.len() == 8,
        pump_fees::pump_fees_kind_of(disc) is Some,
    ensures
        spec_lookup(le_value(disc) as u64) matches Some(info)
            && Some(info.kind) == pump_fees::pump_fees_kind_of(disc)
            && info.protocol == Protocol::PumpFees,
{
    if disc == pump_fees::CREATE_FEE_SHARING_CONFIG_EVENT_DISC@ {
        lemma_le_value_8(disc);
        lemma_lookup_row(16);
    }
    if disc == pump_fees::INITIALIZE_FEE_CONFIG_EVENT_DISC@ {
        lemma_le_value_8(disc);
        lemma_lookup_row(22);
    }
    if disc == pump_fees::RESET_FEE_SHARING_CONFIG_EVENT_DISC@ {
        lemma_le_value_8(disc);
        lemma_lookup_row(49);
    }
    if disc == pump_fees::REVOKE_FEE_SHARING_AUTHORITY_EVENT_DISC@ {
        lemma_le_value_8(disc);
        lemma_lookup_row(12);
    }
    if disc == pump_fees::TRANSFER_FEE_SHARING_AUTHORITY_EVENT_DISC@ {
        lemma_le_value_8(disc);
        lemma_lookup_row(46);
    }
    if disc == pump_fees::UPDATE_ADMIN_EVENT_DISC@ {
        lemma_le_value_8(disc);
        lemma_lookup_row(45);
    }
    if disc == pump_fees::UPDATE_FEE_CONFIG_EVENT_DISC@ {
        lemma_le_value_8(disc);
        lemma_lookup_row(40);
    }
    if disc == pump_fees::UPDATE_FEE_SHARES_EVENT_DISC@ {
        lemma_le_value_8(disc);
        lemma_lookup_row(37);
    }
    if disc == pump_fees::UPSERT_FEE_TIERS_EVENT_DISC@ {
        lemma_le_value_8(disc);
        lemma_lookup_row(38);
    }
}

/// A pump-fees event discriminator names the same event in both event-CPI
/// layouts: after the event-CPI tag, and before the event suffix. (An event
/// discriminator equal to the tag itself is read the other way in the
/// suffix layout, and is left out.)
pub proof fn law_pump_fees_layouts_agree(disc: Seq<u8>)
    requires
        disc.len() == 8,
        disc != pump_fees::EVENT_CPI_PREFIX@,
    ensures
        pump_fees::inner_kind_of(pump_fees::EVENT_CPI_PREFIX@ + disc) == pump_fees::pump_fees_kind_of(disc),
        pump_fees::inner_kind_of(disc + EVENT_CPI_SUFFIX@) == pump_fees::pump_fees_kind_of(disc),
{
    let p = pump_fees::EVENT_CPI_PREFIX@ + disc;
    let q = disc + EVENT_CPI_SUFFIX@;
    assert(p.subrange(0, 8) =~= pump_fees::EVENT_CPI_PREFIX@);
    assert(p.subrange(8, 16) =~= disc);
    assert(q.subrange(0, 8) =~= disc);
    assert(q.subrange(8, 16) =~= EVENT_CPI_SUFFIX@);
}

/// Equal bytes make equal keys.
pub proof fn lemma_pubkey_view_eq(a: Pubkey, b: Pubkey)
    requires
        a@ == b@,
    ensures
        a == b,
{
    assert(a.0 =~= b.0);
}

/// A decoded Raydium CLMM event is determined by its kind, body and
/// metadata: two events decoded from the same body are equal.
pub proof fn law_clmm_decoding_unique(kind: EventKind, data: Seq<u8>, metadata: EventMetadata, e1: DexEvent, e2: DexEvent)
    requires
        clmm_decoded(kind, data, metadata, e1),
        clmm_decoded(kind, data, metadata, e2),
    ensures
        e1 == e2,
{
    match kind {
        EventKind::RaydiumClmmSwap => {
            if let DexEvent::RaydiumClmmSwap(a) = e1 {
                if let DexEvent::RaydiumClmmSwap(b) = e2 {
                lemma_pubkey_view_eq(a.pool_state, b.pool_state);
                lemma_pubkey_view_eq(a.sender, b.sender);
                lemma_pubkey_view_eq(a.token_account_0, b.token_account_0);
                lemma_pubkey_view_eq(a.token_account_1, b.token_account_1);
                }
            }
        },
        EventKind::RaydiumClmmIncreaseLiquidity => {
            if let DexEvent::RaydiumClmmIncreaseLiquidity(a) = e1 {
                if let DexEvent::RaydiumClmmIncreaseLiquidity(b) = e2 {
                lemma_pubkey_view_eq(a.position_nft_mint, b.position_nft_mint);
                lemma_pubkey_view_eq(a.pool, b.pool);
                lemma_pubkey_view_eq(a.user, b.user);
                }
            }
        },
        EventKind::RaydiumClmmDecreaseLiquidity => {
            if let DexEvent::RaydiumClmmDecreaseLiquidity(a) = e1 {
                if let DexEvent::RaydiumClmmDecreaseLiquidity(b) = e2 {
                lemma_pubkey_view_eq(a.position_nft_mint, b.position_nft_mint);
                lemma_pubkey_view_eq(a.pool, b.pool);
                lemma_pubkey_view_eq(a.user, b.user);
                assert(a.reward_amounts =~= b.reward_amounts) by { assert forall|i: int| 0 <= i < 3 implies a.reward_amounts[i] == b.reward_amounts[i] by { assert(u64s(a.reward_amounts@)[i] == u64s(b.reward_amounts@)[i]); } }
                }
            }
        },
        EventKind::RaydiumClmmLiquidityChange => {
            if let DexEvent::RaydiumClmmLiquidityChange(a) = e1 {
                if let DexEvent::RaydiumClmmLiquidityChange(b) = e2 {
                lemma_pubkey_view_eq(a.pool_state, b.pool_state);
                }
            }
        },
        EventKind::RaydiumClmmConfigChange => {
            if let DexEvent::RaydiumClmmConfigChange(a) = e1 {
                if let DexEvent::RaydiumClmmConfigChange(b) = e2 {
                lemma_pubkey_view_eq(a.owner, b.owner);
                lemma_pubkey_view_eq(a.fund_owner, b.fund_owner);
                }
            }
        },
        EventKind::RaydiumClmmCreatePersonalPosition => {
            if let DexEvent::RaydiumClmmCreatePersonalPosition(a) = e1 {
                if let DexEvent::RaydiumClmmCreatePersonalPosition(b) = e2 {
                lemma_pubkey_view_eq(a.pool_state, b.pool_state);
                lemma_pubkey_view_eq(a.minter, b.minter);
                lemma_pubkey_view_eq(a.nft_owner, b.nft_owner);
                }
            }
        },
        EventKind::RaydiumClmmLiquidityCalculate => {
            if let DexEvent::RaydiumClmmLiquidityCalculate(a) = e1 {
                if let DexEvent::RaydiumClmmLiquidityCalculate(b) = e2 {

                }
            }
        },
        EventKind::RaydiumClmmOpenLimitOrder => {
            if let DexEvent::RaydiumClmmOpenLimitOrder(a) = e1 {
                if let DexEvent::RaydiumClmmOpenLimitOrder(b) = e2 {
                lemma_pubkey_view_eq(a.pool_id, b.pool_id);
                lemma_pubkey_view_eq(a.limit_order, b.limit_order);
                }
            }
        },
        EventKind::RaydiumClmmIncreaseLimitOrder => {
            if let DexEvent::RaydiumClmmIncreaseLimitOrder(a) = e1 {
                if let DexEvent::RaydiumClmmIncreaseLimitOrder(b) = e2 {
                lemma_pubkey_view_eq(a.pool_id, b.pool_id);
                lemma_pubkey_view_eq(a.limit_order, b.limit_order);
                }
            }
        },
        EventKind::RaydiumClmmDecreaseLimitOrder => {
            if let DexEvent::RaydiumClmmDecreaseLimitOrder(a) = e1 {
                if let DexEvent::RaydiumClmmDecreaseLimitOrder(b) = e2 {
                lemma_pubkey_view_eq(a.pool_id, b.pool_id);
                lemma_pubkey_view_eq(a.limit_order, b.limit_order);
                }
            }
        },
        EventKind::RaydiumClmmSettleLimitOrder => {
            if let DexEvent::RaydiumClmmSettleLimitOrder(a) = e1 {
                if let DexEvent::RaydiumClmmSettleLimitOrder(b) = e2 {
                lemma_pubkey_view_eq(a.pool_id, b.pool_id);
                lemma_pubkey_view_eq(a.limit_order, b.limit_order);
                }
            }
        },
        EventKind::RaydiumClmmUpdateRewardInfos => {
            if let DexEvent::RaydiumClmmUpdateRewardInfos(a) = e1 {
                if let DexEvent::RaydiumClmmUpdateRewardInfos(b) = e2 {
                assert(a.reward_growth_global_x64 =~= b.reward_growth_global_x64) by { assert forall|i: int| 0 <= i < 3 implies a.reward_growth_global_x64[i] == b.reward_growth_global_x64[i] by { assert(u128s(a.reward_growth_global_x64@)[i] == u128s(b.reward_growth_global_x64@)[i]); } }
                }
            }
        },
        EventKind::RaydiumClmmCreatePool => {
            if let DexEvent::RaydiumClmmCreatePool(a) = e1 {
                if let DexEvent::RaydiumClmmCreatePool(b) = e2 {
                lemma_pubkey_view_eq(a.token_0_mint, b.token_0_mint);
                lemma_pubkey_view_eq(a.token_1_mint, b.token_1_mint);
                lemma_pubkey_view_eq(a.pool, b.pool);
                lemma_pubkey_view_eq(a.token_vault_0, b.token_vault_0);
                lemma_pubkey_view_eq(a.token_vault_1, b.token_vault_1);
                lemma_pubkey_view_eq(a.creator, b.creator);
                }
            }
        },
        EventKind::RaydiumClmmCollectPersonalFee => {
            if let DexEvent::RaydiumClmmCollectFee(a) = e1 {
                if let DexEvent::RaydiumClmmCollectFee(b) = e2 {
                lemma_pubkey_view_eq(a.position_nft_mint, b.position_nft_mint);
                lemma_pubkey_view_eq(a.recipient_token_account_0, b.recipient_token_account_0);
                lemma_pubkey_view_eq(a.recipient_token_account_1, b.recipient_token_account_1);
                lemma_pubkey_view_eq(a.pool_state, b.pool_state);
                }
            }
        },
        EventKind::RaydiumClmmCollectProtocolFee => {
            if let DexEvent::RaydiumClmmCollectFee(a) = e1 {
                if let DexEvent::RaydiumClmmCollectFee(b) = e2 {
                lemma_pubkey_view_eq(a.pool_state, b.pool_state);
                lemma_pubkey_view_eq(a.recipient_token_account_0, b.recipient_token_account_0);
                lemma_pubkey_view_eq(a.recipient_token_account_1, b.recipient_token_account_1);
                lemma_pubkey_view_eq(a.position_nft_mint, b.position_nft_mint);
                }
            }
        },
        _ => {},
    }
}

/// Bytes after the end of a Raydium CLMM event body do not change what is
/// decoded from it.
pub proof fn law_clmm_trailing_bytes_ignored(kind: EventKind, data: Seq<u8>, extra: Seq<u8>, metadata: EventMetadata, ev: DexEvent)
    requires
        clmm_body_len(kind) matches Some(n) && data.len() >= n,
        clmm_decoded(kind, data, metadata, ev),
    ensures
        clmm_decoded(kind, data + extra, metadata, ev),
{
    assert forall|a: int, b: int| 0 <= a <= b <= data.len() implies #[trigger] (data + extra).subrange(a, b) == data.subrange(a, b) by {
        assert((data + extra).subrange(a, b) =~= data.subrange(a, b));
    }
}

/// Decoding program data is decoding its body with the decoder that its
/// first 8 bytes select.
pub proof fn law_program_data_splits(disc: Seq<u8>, body: Seq<u8>, metadata: EventMetadata, r: Option<DexEvent>)
    requires
        disc.len() == 8,
    ensures
        program_data_result(disc + body, metadata, r) == match clmm_kind_of(disc) {
            Some(kind) => clmm_parse_result(kind, body, metadata, r),
            None => r is None,
        },
{
    assert((disc + body).subrange(0, 8) =~= disc);
    assert((disc + body).subrange(8, (disc + body).len() as int) =~= body);
}

/// At most one Raydium CLMM account type matches an account's
/// discriminator, so the order in which `parse_account` tries them does not
/// matter.
pub proof fn law_account_types_exclusive(data: Seq<u8>)
    ensures
        !(has_discriminator_spec(data, acct_disc::AMM_CONFIG@) && has_discriminator_spec(data, acct_disc::POOL_STATE@)),
        !(has_discriminator_spec(data, acct_disc::AMM_CONFIG@) && has_discriminator_spec(data, acct_disc::TICK_ARRAY_STATE@)),
        !(has_discriminator_spec(data, acct_disc::POOL_STATE@) && has_discriminator_spec(data, acct_disc::TICK_ARRAY_STATE@)),
{
    if data.len() >= 8 {
        assert(data.subrange(0, 8)[0] == data[0]);
    }
}

/// Equal little-endian values of equally long byte strings come from equal
/// bytes.
pub proof fn lemma_le_value_injective(a: Seq<u8>, b: Seq<u8>)
    requires
        a.len() == b.len(),
        le_value(a) == le_value(b),
    ensures
        a == b,
    decreases a.len(),
{
    if a.len() == 0 {
        assert(a =~= b);
    } else {
        let x = le_value(a.drop_first());
        let y = le_value(b.drop_first());
        assert(a[0] == b[0] && x == y) by (nonlinear_arith)
            requires
                a[0] + 256 * x == b[0] + 256 * y,
                0 <= a[0] < 256,
                0 <= b[0] < 256,
                0 <= x,
                0 <= y,
        ;
        lemma_le_value_injective(a.drop_first(), b.drop_first());
        assert forall|i: int| 0 <= i < a.len() implies a[i] == b[i] by {
            if i > 0 {
                assert(a[i] == a.drop_first()[i - 1]);
                assert(b[i] == b.drop_first()[i - 1]);
            }
        }
        assert(a =~= b);
    }
}

/// Bytes whose little-endian value is the key of a Raydium CLMM row of the
/// lookup table are a Raydium CLMM event discriminator.
proof fn lemma_clmm_row_bytes(i: int, d: Seq<u8>)
    requires
        0 <= i < LUT_LEN,
        DISCRIMINATOR_PROTOCOLS@[i] == Protocol::RaydiumClmm,
        d.len() == 8,
        le_value(d) == DISCRIMINATOR_KEYS@[i],
    ensures
        clmm_kind_of(d) is Some,
{
    // Only the Raydium CLMM rows meet the precondition; for each, the bytes
    // are that row's event discriminator.
    if i == 9 {
        lemma_le_value_8(log_disc::DECREASE_LIQUIDITY@);
        lemma_le_value_injective(d, log_disc::DECREASE_LIQUIDITY@);
    } else if i == 11 {
        lemma_le_value_8(log_disc::COLLECT_PROTOCOL_FEE@);
        lemma_le_value_injective(d, log_disc::COLLECT_PROTOCOL_FEE@);
    } else if i == 13 {
        lemma_le_value_8(log_disc::CREATE_POOL@);
        lemma_le_value_injective(d, log_disc::CREATE_POOL@);
    } else if i == 15 {
        lemma_le_value_8(log_disc::INCREASE_LIQUIDITY@);
        lemma_le_value_injective(d, log_disc::INCREASE_LIQUIDITY@);
    } else if i == 17 {
        lemma_le_value_8(log_disc::COLLECT_PERSONAL_FEE@);
        lemma_le_value_injective(d, log_disc::COLLECT_PERSONAL_FEE@);
    } else if i == 18 {
        lemma_le_value_8(log_disc::LIQUIDITY_CHANGE@);
        lemma_le_value_injective(d, log_disc::LIQUIDITY_CHANGE@);
    } else if i == 26 {
        lemma_le_value_8(log_disc::CONFIG_CHANGE@);
        lemma_le_value_injective(d, log_disc::CONFIG_CHANGE@);
    } else if i == 28 {
        lemma_le_value_8(log_disc::LIQUIDITY_CALCULATE@);
        lemma_le_value_injective(d, log_disc::LIQUIDITY_CALCULATE@);
    } else if i == 29 {
        lemma_le_value_8(log_disc::DECREASE_LIMIT_ORDER@);
        lemma_le_value_injective(d, log_disc::DECREASE_LIMIT_ORDER@);
    } else if i == 34 {
        lemma_le_value_8(log_disc::SETTLE_LIMIT_ORDER@);
        lemma_le_value_injective(d, log_disc::SETTLE_LIMIT_ORDER@);
    } else if i == 36 {
        lemma_le_value_8(log_disc::INCREASE_LIMIT_ORDER@);
        lemma_le_value_injective(d, log_disc::INCREASE_LIMIT_ORDER@);
    } else if i == 39 {
        lemma_le_value_8(log_disc::CREATE_PERSONAL_POSITION@);
        lemma_le_value_injective(d, log_disc::CREATE_PERSONAL_POSITION@);
    } else if i == 41 {
        lemma_le_value_8(log_disc::OPEN_LIMIT_ORDER@);
        lemma_le_value_injective(d, log_disc::OPEN_LIMIT_ORDER@);
    } else if i == 43 {
        lemma_le_value_8(log_disc::SWAP@);
        lemma_le_value_injective(d, log_disc::SWAP@);
    } else if i == 47 {
        lemma_le_value_8(log_disc::UPDATE_REWARD_INFOS@);
        lemma_le_value_injective(d, log_disc::UPDATE_REWARD_INFOS@);
    }
}

/// Two results of decoding one body as one event kind agree: a body is
/// decoded in one way only.
pub proof fn law_event_body_unique(kind: EventKind, data: Seq<u8>, metadata: EventMetadata, r1: Option<DexEvent>, r2: Option<DexEvent>)
    requires
        event_body_result(kind, data, metadata, r1),
        event_body_result(kind, data, metadata, r2),
    ensures
        same_result(r1, r2),
{
    if clmm_body_len(kind) is Some {
        if r1 is Some && r2 is Some {
            law_clmm_decoding_unique(kind, data, metadata, r1->0, r2->0);
        }
    } else if kind == EventKind::PumpFeesUpdateAdmin {
        if let Some(DexEvent::PumpFeesUpdateAdmin(a)) = r1 {
            if let Some(DexEvent::PumpFeesUpdateAdmin(b)) = r2 {
                lemma_pubkey_view_eq(a.old_admin, b.old_admin);
                lemma_pubkey_view_eq(a.new_admin, b.new_admin);
            }
        }
    }
}

/// Routing by equal kinds gives agreeing results.
proof fn lemma_routed_unique(kind: Option<EventKind>, data: Seq<u8>, metadata: EventMetadata, r1: Option<DexEvent>, r2: Option<DexEvent>)
    requires
        routed_result(kind, data, metadata, r1),
        routed_result(kind, data, metadata, r2),
    ensures
        same_result(r1, r2),
{
    if let Some(k) = kind {
        law_event_body_unique(k, data, metadata, r1, r2);
    }
}

/// The Meteora AMM inner-instruction router decodes an event as the lookup
/// table does for the first 8 bytes of its discriminator read as a
/// little-endian `u64`. The kinds left out have no row of their own in the
/// table, or a row under a different value.
pub proof fn law_meteora_amm_routes_like_lut(disc: Seq<u8>, data: Seq<u8>, metadata: EventMetadata, r1: Option<DexEvent>, r2: Option<DexEvent>)
    requires
        disc.len() == 16,
        meteora_amm::inner_kind_of(disc) matches Some(k) && k != EventKind::MeteoraAmmSwap && k != EventKind::MeteoraAmmSetPoolFees,
        routed_result(meteora_amm::inner_kind_of(disc), data, metadata, r1),
        routed_result(lut_kind(le_value(disc.subrange(0, 8)) as u64), data, metadata, r2),
    ensures
        same_result(r1, r2),
{
    law_meteora_amm_lookup_agrees(disc);
    lemma_routed_unique(meteora_amm::inner_kind_of(disc), data, metadata, r1, r2);
}

/// The Orca Whirlpool inner-instruction router decodes an event as the
/// lookup table does for the first 8 bytes of its discriminator read as a
/// little-endian `u64`. The kinds left out have no row of their own in the
/// table, or a row under a different value.
pub proof fn law_orca_routes_like_lut(disc: Seq<u8>, data: Seq<u8>, metadata: EventMetadata, r1: Option<DexEvent>, r2: Option<DexEvent>)
    requires
        disc.len() == 16,
        orca::inner_kind_of(disc) matches Some(k) && k != EventKind::OrcaLiquidityIncreased && k != EventKind::OrcaLiquidityDecreased,
        routed_result(orca::inner_kind_of(disc), data, metadata, r1),
        routed_result(lut_kind(le_value(disc.subrange(0, 8)) as u64), data, metadata, r2),
    ensures
        same_result(r1, r2),
{
    law_orca_lookup_agrees(disc);
    lemma_routed_unique(orca::inner_kind_of(disc), data, metadata, r1, r2);
}

/// The Raydium AMM V4 inner-instruction router decodes an event as the
/// lookup table does for the first 8 bytes of its discriminator read as a
/// little-endian `u64`. The kind left out has no row of its own in the table.
pub proof fn law_raydium_amm_routes_like_lut(disc: Seq<u8>, data: Seq<u8>, metadata: EventMetadata, r1: Option<DexEvent>, r2: Option<DexEvent>)
    requires
        disc.len() == 16,
        raydium_amm::inner_kind_of(disc) matches Some(k) && k != EventKind::RaydiumAmmWithdrawPnl,
        routed_result(raydium_amm::inner_kind_of(disc), data, metadata, r1),
        routed_result(lut_kind(le_value(disc.subrange(0, 8)) as u64), data, metadata, r2),
    ensures
        same_result(r1, r2),
{
    law_raydium_amm_lookup_agrees(disc);
    lemma_routed_unique(raydium_amm::inner_kind_of(disc), data, metadata, r1, r2);
}

/// The Raydium CPMM inner-instruction router decodes an event as the lookup
/// table does for the first 8 bytes of its discriminator read as a
/// little-endian `u64`. The kind left out has no row of its own in the table.
pub proof fn law_raydium_cpmm_routes_like_lut(disc: Seq<u8>, data: Seq<u8>, metadata: EventMetadata, r1: Option<DexEvent>, r2: Option<DexEvent>)
    requires
        disc.len() == 16,
        raydium_cpmm::inner_kind_of(disc) matches Some(k) && k != EventKind::RaydiumCpmmCreatePool,
        routed_result(raydium_cpmm::inner_kind_of(disc), data, metadata, r1),
        routed_result(lut_kind(le_value(disc.subrange(0, 8)) as u64), data, metadata, r2),
    ensures
        same_result(r1, r2),
{
    law_raydium_cpmm_lookup_agrees(disc);
    lemma_routed_unique(raydium_cpmm::inner_kind_of(disc), data, metadata, r1, r2);
}

/// The pump-fees inner-instruction router decodes an event as the lookup
/// table does for its 8-byte event discriminator read as a little-endian
/// `u64`.
pub proof fn law_pump_fees_routes_like_lut(disc: Seq<u8>, data: Seq<u8>, metadata: EventMetadata, r1: Option<DexEvent>, r2: Option<DexEvent>)
    requires
        disc.len() == 16,
        pump_fees::event_discriminator_of(disc) matches Some(e) && pump_fees::pump_fees_kind_of(e) is Some
            && routed_result(lut_kind(le_value(e) as u64), data, metadata, r2),
        routed_result(pump_fees::inner_kind_of(disc), data, metadata, r1),
    ensures
        same_result(r1, r2),
{
    let e = pump_fees::event_discriminator_of(disc)->0;
    law_pump_fees_lookup_agrees(e);
    lemma_routed_unique(pump_fees::inner_kind_of(disc), data, metadata, r1, r2);
}

/// A pump-fees event is decoded alike in both event-CPI layouts: after the
/// event-CPI tag, and before the event suffix. (An event discriminator equal
/// to the tag itself is read the other way in the suffix layout, and is left
/// out.)
pub proof fn law_pump_fees_layouts_decode_alike(event_disc: Seq<u8>, data: Seq<u8>, metadata: EventMetadata, r1: Option<DexEvent>, r2: Option<DexEvent>)
    requires
        event_disc.len() == 8,
        event_disc != pump_fees::EVENT_CPI_PREFIX@,
        routed_result(pump_fees::inner_kind_of(pump_fees::EVENT_CPI_PREFIX@ + event_disc), data, metadata, r1),
        routed_result(pump_fees::inner_kind_of(event_disc + EVENT_CPI_SUFFIX@), data, metadata, r2),
    ensures
        same_result(r1, r2),
{
    law_pump_fees_layouts_agree(event_disc);
    lemma_routed_unique(pump_fees::pump_fees_kind_of(event_disc), data, metadata, r1, r2);
}

/// A pump-fees inner discriminator in neither event-CPI layout names no
/// event, and nothing is decoded from it.
pub proof fn law_pump_fees_needs_a_layout(disc: Seq<u8>, data: Seq<u8>, metadata: EventMetadata, r: Option<DexEvent>)
    requires
        disc.len() == 16,
        disc.subrange(0, 8) != pump_fees::EVENT_CPI_PREFIX@,
        disc.subrange(8, 16) != EVENT_CPI_SUFFIX@,
        routed_result(pump_fees::inner_kind_of(disc), data, metadata, r),
    ensures
        r is None,
{
}

/// The event kind that the lookup table gives a 16-byte Raydium CLMM inner
/// discriminator: the kind of the Raydium CLMM row for its first 8 bytes,
/// read as a little-endian `u64`, when its last 8 bytes are the event-CPI
/// suffix.
pub open spec fn clmm_lut_route(disc: Seq<u8>) -> Option<EventKind> {
    if disc.subrange(8, 16) == EVENT_CPI_SUFFIX@ {
        match spec_lookup(le_value(disc.subrange(0, 8)) as u64) {
            Some(info) => if info.protocol == Protocol::RaydiumClmm {
                Some(info.kind)
            } else {
                None
            },
            None => None,
        }
    } else {
        None
    }
}

/// The Raydium CLMM inner-instruction router and the lookup table agree: a
/// 16-byte discriminator names a Raydium CLMM event exactly when it is a
/// Raydium CLMM row's discriminator followed by the event-CPI suffix, the
/// two name the same kind, and they decode the body alike.
pub proof fn law_clmm_inner_routes_like_lut(disc: Seq<u8>, data: Seq<u8>, metadata: EventMetadata, r1: Option<DexEvent>, r2: Option<DexEvent>)
    requires
        disc.len() == 16,
        match clmm_inner_kind_of(disc) {
            Some(kind) => clmm_parse_result(kind, data, metadata, r1),
            None => r1 is None,
        },
        routed_result(clmm_lut_route(disc), data, metadata, r2),
    ensures
        clmm_inner_kind_of(disc) == clmm_lut_route(disc),
        same_result(r1, r2),
{
    let d = disc.subrange(0, 8);
    law_clmm_inner_discriminator_is_event_discriminator(disc);
    if clmm_inner_kind_of(disc) is Some {
        law_clmm_lookup_agrees(d);
    } else if clmm_lut_route(disc) is Some {
        lemma_le_value_bound(d);
        lemma_pow256_values();
        let k = le_value(d) as u64;
        let i = choose|i: int| 0 <= i < LUT_LEN && DISCRIMINATOR_KEYS@[i] == k;
        lemma_clmm_row_bytes(i, d);
        assert(false);
    }
    lemma_routed_unique(clmm_inner_kind_of(disc), data, metadata, r1, r2);
}

/// Arrays of bytes with equal views are equal.
proof fn lemma_u8_array_unique<const N: usize>(a: [u8; N], b: [u8; N])
    requires
        a@ == b@,
    ensures
        a == b,
{
    assert(a =~= b) by {
        assert forall|i: int| 0 <= i < N implies a[i] == b[i] by {
            assert(a@[i] == b@[i]);
        }
    }
}

/// Two runs of `u32`s read from the same place are equal.
proof fn lemma_u32_run_unique<const N: usize>(a: [u32; N], b: [u32; N], d: Seq<u8>, o: int)
    requires
        le_run_at(u32s(a@), d, o, 4),
        le_run_at(u32s(b@), d, o, 4),
    ensures
        a == b,
{
    assert(a =~= b) by {
        assert forall|i: int| 0 <= i < N implies a[i] == b[i] by {
            assert(u32s(a@)[i] == u32s(b@)[i]);
        }
    }
}

/// Two runs of `u64`s read from the same place are equal.
proof fn lemma_u64_run_unique<const N: usize>(a: [u64; N], b: [u64; N], d: Seq<u8>, o: int)
    requires
        le_run_at(u64s(a@), d, o, 8),
        le_run_at(u64s(b@), d, o, 8),
    ensures
        a == b,
{
    assert(a =~= b) by {
        assert forall|i: int| 0 <= i < N implies a[i] == b[i] by {
            assert(u64s(a@)[i] == u64s(b@)[i]);
        }
    }
}

/// Two runs of `u128`s read from the same place are equal.
proof fn lemma_u128_run_unique<const N: usize>(a: [u128; N], b: [u128; N], d: Seq<u8>, o: int)
    requires
        le_run_at(u128s(a@), d, o, 16),
        le_run_at(u128s(b@), d, o, 16),
    ensures
        a == b,
{
    assert(a =~= b) by {
        assert forall|i: int| 0 <= i < N implies a[i] == b[i] by {
            assert(u128s(a@)[i] == u128s(b@)[i]);
        }
    }
}

proof fn lemma_amm_config_unique(a: RaydiumClmmAmmConfig, b: RaydiumClmmAmmConfig, d: Seq<u8>, o: int)
    requires
        amm_config_decoded(a, d, o),
        amm_config_decoded(b, d, o),
    ensures
        a == b,
{
    lemma_pubkey_view_eq(a.owner, b.owner);
    lemma_pubkey_view_eq(a.fund_owner, b.fund_owner);
    lemma_u64_run_unique(a.padding, b.padding, d, o + 85);
}

proof fn lemma_reward_info_unique(a: RaydiumClmmRewardInfo, b: RaydiumClmmRewardInfo, d: Seq<u8>, o: int)
    requires
        reward_info_decoded(a, d, o),
        reward_info_decoded(b, d, o),
    ensures
        a == b,
{
    lemma_pubkey_view_eq(a.token_mint, b.token_mint);
    lemma_pubkey_view_eq(a.token_vault, b.token_vault);
    lemma_pubkey_view_eq(a.authority, b.authority);
}

proof fn lemma_tick_unique(a: Tick, b: Tick, d: Seq<u8>, o: int)
    requires
        tick_decoded(a, d, o),
        tick_decoded(b, d, o),
    ensures
        a == b,
{
    lemma_u128_run_unique(a.reward_growths_outside_x64, b.reward_growths_outside_x64, d, o + 68);
    lemma_u32_run_unique(a.padding, b.padding, d, o + 156);
}

proof fn lemma_pool_state_unique(a: RaydiumClmmPoolState, b: RaydiumClmmPoolState, d: Seq<u8>)
    requires
        pool_state_decoded(a, d),
        pool_state_decoded(b, d),
    ensures
        a == b,
{
    lemma_u8_array_unique(a.bump, b.bump);
    lemma_pubkey_view_eq(a.amm_config, b.amm_config);
    lemma_pubkey_view_eq(a.owner, b.owner);
    lemma_pubkey_view_eq(a.token_mint_0, b.token_mint_0);
    lemma_pubkey_view_eq(a.token_mint_1, b.token_mint_1);
    lemma_pubkey_view_eq(a.token_vault_0, b.token_vault_0);
    lemma_pubkey_view_eq(a.token_vault_1, b.token_vault_1);
    lemma_pubkey_view_eq(a.observation_key, b.observation_key);
    lemma_u128_run_unique(a.padding5, b.padding5, d, 317);
    lemma_u8_array_unique(a.padding, b.padding);
    lemma_reward_info_unique(a.reward_infos[0], b.reward_infos[0], d, 389);
    lemma_reward_info_unique(a.reward_infos[1], b.reward_infos[1], d, 558);
    lemma_reward_info_unique(a.reward_infos[2], b.reward_infos[2], d, 727);
    assert(a.reward_infos =~= b.reward_infos);
    lemma_u64_run_unique(a.tick_array_bitmap, b.tick_array_bitmap, d, 896);
    lemma_u64_run_unique(a.padding6, b.padding6, d, 1024);
    lemma_u8_array_unique(a.dynamic_fee_info.padding, b.dynamic_fee_info.padding);
    lemma_u64_run_unique(a.padding1, b.padding1, d, 1168);
    lemma_u64_run_unique(a.padding2, b.padding2, d, 1280);
}

proof fn lemma_tick_array_unique(a: RaydiumClmmTickArrayState, b: RaydiumClmmTickArrayState, d: Seq<u8>)
    requires
        tick_array_decoded(a, d),
        tick_array_decoded(b, d),
    ensures
        same_tick_array(a, b),
{
    lemma_pubkey_view_eq(a.pool_id, b.pool_id);
    assert forall|i: int| 0 <= i < TICK_ARRAY_LEN implies a.ticks@[i] == b.ticks@[i] by {
        lemma_tick_unique(a.ticks@[i], b.ticks@[i], d, 36 + TICK_SIZE * i);
    }
    assert(a.ticks@ =~= b.ticks@);
    lemma_u8_array_unique(a.padding, b.padding);
}

/// Decoding one account as an `AmmConfig` gives one result.
pub proof fn law_amm_config_account_unique(account: AccountData, metadata: EventMetadata, r1: Option<DexEvent>, r2: Option<DexEvent>)
    requires
        amm_config_account_result(account, metadata, r1),
        amm_config_account_result(account, metadata, r2),
    ensures
        same_result(r1, r2),
{
    if let Some(DexEvent::RaydiumClmmAmmConfigAccount(a)) = r1 {
        if let Some(DexEvent::RaydiumClmmAmmConfigAccount(b)) = r2 {
            lemma_amm_config_unique(a.amm_config, b.amm_config, account_body(account.data@), 0);
        }
    }
}

/// Decoding one account as a `PoolState` gives one result.
pub proof fn law_pool_state_account_unique(account: AccountData, metadata: EventMetadata, r1: Option<DexEvent>, r2: Option<DexEvent>)
    requires
        pool_state_account_result(account, metadata, r1),
        pool_state_account_result(account, metadata, r2),
    ensures
        same_result(r1, r2),
{
    if let Some(DexEvent::RaydiumClmmPoolStateAccount(a)) = r1 {
        if let Some(DexEvent::RaydiumClmmPoolStateAccount(b)) = r2 {
            lemma_pool_state_unique(a.pool_state, b.pool_state, account_body(account.data@));
        }
    }
}

/// Decoding one account as a `TickArrayState` gives one result.
pub proof fn law_tick_array_account_unique(account: AccountData, metadata: EventMetadata, r1: Option<DexEvent>, r2: Option<DexEvent>)
    requires
        tick_array_account_result(account, metadata, r1),
        tick_array_account_result(account, metadata, r2),
    ensures
        same_result(r1, r2),
{
    if let Some(DexEvent::RaydiumClmmTickArrayStateAccount(a)) = r1 {
        if let Some(DexEvent::RaydiumClmmTickArrayStateAccount(b)) = r2 {
            lemma_tick_array_unique(a.tick_array_state, b.tick_array_state, account_body(account.data@));
        }
    }
}

/// `parse_account` gives what the decoder of the account type that the
/// discriminator names gives (`parse_amm_config`, `parse_pool_state` or
/// `parse_tick_array_state`), and nothing for any other discriminator.
pub proof fn law_parse_account_is_its_branch(
    account: AccountData,
    metadata: EventMetadata,
    r: Option<DexEvent>,
    r_amm_config: Option<DexEvent>,
    r_pool_state: Option<DexEvent>,
    r_tick_array: Option<DexEvent>,
)
    requires
        account_result(account, metadata, r),
        amm_config_account_result(account, metadata, r_amm_config),
        pool_state_account_result(account, metadata, r_pool_state),
        tick_array_account_result(account, metadata, r_tick_array),
    ensures
        same_result(r, if has_discriminator_spec(account.data@, acct_disc::AMM_CONFIG@) {
            r_amm_config
        } else if has_discriminator_spec(account.data@, acct_disc::POOL_STATE@) {
            r_pool_state
        } else if has_discriminator_spec(account.data@, acct_disc::TICK_ARRAY_STATE@) {
            r_tick_array
        } else {
            None
        }),
{
    if has_discriminator_spec(account.data@, acct_disc::AMM_CONFIG@) {
        law_amm_config_account_unique(account, metadata, r, r_amm_config);
    } else if has_discriminator_spec(account.data@, acct_disc::POOL_STATE@) {
        law_pool_state_account_unique(account, metadata, r, r_pool_state);
    } else if has_discriminator_spec(account.data@, acct_disc::TICK_ARRAY_STATE@) {
        law_tick_array_account_unique(account, metadata, r, r_tick_array);
    }
}

/// Each Meteora AMM inner discriminator names the event kind whose constant
/// it is, and every other 16 bytes name no event: the router's table is the
/// inverse of the kind-to-discriminator table.
pub proof fn law_meteora_amm_kinds_match_discriminators(disc: Seq<u8>, kind: EventKind)
    ensures
        meteora_amm::inner_kind_of(disc) == Some(kind) <==> meteora_amm::kind_discriminator(kind) == Some(disc),
{
}

/// Each Orca Whirlpool inner discriminator names the event kind whose constant
/// it is, and every other 16 bytes name no event: the router's table is the
/// inverse of the kind-to-discriminator table.
pub proof fn law_orca_kinds_match_discriminators(disc: Seq<u8>, kind: EventKind)
    ensures
        orca::inner_kind_of(disc) == Some(kind) <==> orca::kind_discriminator(kind) == Some(disc),
{
}

/// Each Raydium AMM V4 inner discriminator names the event kind whose constant
/// it is, and every other 16 bytes name no event: the router's table is the
/// inverse of the kind-to-discriminator table.
pub proof fn law_raydium_amm_kinds_match_discriminators(disc: Seq<u8>, kind: EventKind)
    ensures
        raydium_amm::inner_kind_of(disc) == Some(kind) <==> raydium_amm::kind_discriminator(kind) == Some(disc),
{
}

/// Each Raydium CPMM inner discriminator names the event kind whose constant
/// it is, and every other 16 bytes name no event: the router's table is the
/// inverse of the kind-to-discriminator table.
pub proof fn law_raydium_cpmm_kinds_match_discriminators(disc: Seq<u8>, kind: EventKind)
    ensures
        raydium_cpmm::inner_kind_of(disc) == Some(kind) <==> raydium_cpmm::kind_discriminator(kind) == Some(disc),
{
}

/// Bytes whose little-endian value is the key of a pump-fees row of the
/// lookup table are that row's event discriminator.
proof fn lemma_pump_fees_row_bytes(i: int, d: Seq<u8>)
    requires
        0 <= i < LUT_LEN,
        DISCRIMINATOR_PROTOCOLS@[i] == Protocol::PumpFees,
        d.len() == 8,
        le_value(d) == DISCRIMINATOR_KEYS@[i],
    ensures
        pump_fees::pump_fees_kind_of(d) == Some(DISCRIMINATOR_KINDS@[i]),
{
    // Only the pump-fees rows meet the precondition.
    if i == 12 {
        lemma_le_value_8(pump_fees::REVOKE_FEE_SHARING_AUTHORITY_EVENT_DISC@);
        lemma_le_value_injective(d, pump_fees::REVOKE_FEE_SHARING_AUTHORITY_EVENT_DISC@);
    } else if i == 16 {
        lemma_le_value_8(pump_fees::CREATE_FEE_SHARING_CONFIG_EVENT_DISC@);
        lemma_le_value_injective(d, pump_fees::CREATE_FEE_SHARING_CONFIG_EVENT_DISC@);
    } else if i == 22 {
        lemma_le_value_8(pump_fees::INITIALIZE_FEE_CONFIG_EVENT_DISC@);
        lemma_le_value_injective(d, pump_fees::INITIALIZE_FEE_CONFIG_EVENT_DISC@);
    } else if i == 37 {
        lemma_le_value_8(pump_fees::UPDATE_FEE_SHARES_EVENT_DISC@);
        lemma_le_value_injective(d, pump_fees::UPDATE_FEE_SHARES_EVENT_DISC@);
    } else if i == 38 {
        lemma_le_value_8(pump_fees::UPSERT_FEE_TIERS_EVENT_DISC@);
        lemma_le_value_injective(d, pump_fees::UPSERT_FEE_TIERS_EVENT_DISC@);
    } else if i == 40 {
        lemma_le_value_8(pump_fees::UPDATE_FEE_CONFIG_EVENT_DISC@);
        lemma_le_value_injective(d, pump_fees::UPDATE_FEE_CONFIG_EVENT_DISC@);
    } else if i == 45 {
        lemma_le_value_8(pump_fees::UPDATE_ADMIN_EVENT_DISC@);
        lemma_le_value_injective(d, pump_fees::UPDATE_ADMIN_EVENT_DISC@);
    } else if i == 46 {
        lemma_le_value_8(pump_fees::TRANSFER_FEE_SHARING_AUTHORITY_EVENT_DISC@);
        lemma_le_value_injective(d, pump_fees::TRANSFER_FEE_SHARING_AUTHORITY_EVENT_DISC@);
    } else if i == 49 {
        lemma_le_value_8(pump_fees::RESET_FEE_SHARING_CONFIG_EVENT_DISC@);
        lemma_le_value_injective(d, pump_fees::RESET_FEE_SHARING_CONFIG_EVENT_DISC@);
    }
}

/// Every pump-fees row of the lookup table is recognised by the pump-fees
/// router, as that row's kind and in both event-CPI layouts: no pump-fees
/// event of the table is dropped.
pub proof fn law_pump_fees_lut_complete(disc: Seq<u8>)
    requires
        disc.len() == 8,
        spec_lookup(le_value(disc) as u64) matches Some(info) && info.protocol == Protocol::PumpFees,
    ensures
        pump_fees::pump_fees_kind_of(disc) == Some(spec_lookup(le_value(disc) as u64)->0.kind),
        pump_fees::inner_kind_of(pump_fees::EVENT_CPI_PREFIX@ + disc) == pump_fees::pump_fees_kind_of(disc),
        pump_fees::inner_kind_of(disc + EVENT_CPI_SUFFIX@) == pump_fees::pump_fees_kind_of(disc),
{
    lemma_le_value_bound(disc);
    lemma_pow256_values();
    let k = le_value(disc) as u64;
    let i = choose|i: int| 0 <= i < LUT_LEN && DISCRIMINATOR_KEYS@[i] == k;
    lemma_pump_fees_row_bytes(i, disc);
    assert(pump_fees::pump_fees_kind_of(pump_fees::EVENT_CPI_PREFIX@) is None);
    law_pump_fees_layouts_agree(disc);
}

/// Every Raydium CLMM row of the lookup table is a Raydium CLMM event
/// discriminator of that row's kind: no Raydium CLMM event of the table is
/// dropped by the log and inner-instruction decoders.
pub proof fn law_clmm_lut_complete(disc: Seq<u8>)
    requires
        disc.len() == 8,
        spec_lookup(le_value(disc) as u64) matches Some(info) && info.protocol == Protocol::RaydiumClmm,
    ensures
        clmm_kind_of(disc) == Some(spec_lookup(le_value(disc) as u64)->0.kind),
{
    lemma_le_value_bound(disc);
    lemma_pow256_values();
    let k = le_value(disc) as u64;
    let i = choose|i: int| 0 <= i < LUT_LEN && DISCRIMINATOR_KEYS@[i] == k;
    lemma_clmm_row_bytes(i, disc);
    law_clmm_lookup_agrees(disc);
}

/// A body of a kind that this crate has no decoder for comes back as an
/// undecoded event that carries that kind, the metadata and exactly the body
/// bytes.
pub proof fn law_undecoded_body_is_kept(kind: EventKind, data: Seq<u8>, metadata: EventMetadata, r: Option<DexEvent>)
    requires
        clmm_body_len(kind) is None,
        kind != EventKind::PumpFeesUpdateAdmin,
        event_body_result(kind, data, metadata, r),
    ensures
        r matches Some(DexEvent::Undecoded(u)) && u.kind == kind && u.metadata == metadata && u.data@ == data,
{
}

} // verus!
