//! The on-chain byte layouts of the decoded account bodies and event bodies,
//! written as encoders in the field order of the programs' own structs, and
//! the laws that decoding an encoded value gives that value back.

use crate::accounts::raydium_clmm::discriminators as acct_disc;
use crate::accounts::raydium_clmm::{
    account_body, account_result, amm_config_decoded, dynamic_fee_info_decoded,
    pool_state_decoded, reward_info_decoded, tick_array_decoded, tick_decoded,
};
use crate::bytes::{
    le_at, le_byte, le_run_at, lemma_le_value_of_le_bytes, lemma_pow256_values,
    lemma_to_unsigned, pow256, to_unsigned, u128s, u32s, u64s,
};
use crate::events::{
    same_tick_array, DexEvent, EventKind, PumpFeesUpdateAdminEvent, RaydiumClmmAmmConfig,
    RaydiumClmmAmmConfigAccountEvent, RaydiumClmmCollectFeeEvent, RaydiumClmmConfigChangeEvent,
    RaydiumClmmCreatePersonalPositionEvent, RaydiumClmmCreatePoolEvent,
    RaydiumClmmDecreaseLimitOrderEvent, RaydiumClmmDecreaseLiquidityEvent,
    RaydiumClmmDynamicFeeInfo, RaydiumClmmIncreaseLimitOrderEvent,
    RaydiumClmmIncreaseLiquidityEvent, RaydiumClmmLiquidityCalculateEvent,
    RaydiumClmmLiquidityChangeEvent, RaydiumClmmOpenLimitOrderEvent, RaydiumClmmPoolState,
    RaydiumClmmPoolStateAccountEvent, RaydiumClmmRewardInfo, RaydiumClmmSettleLimitOrderEvent,
    RaydiumClmmSwapEvent, RaydiumClmmTickArrayState, RaydiumClmmUpdateRewardInfosEvent, Tick,
};
use crate::instr::all_inner::pump_fees;
use crate::laws::{
    law_account_types_exclusive, law_program_data_splits, law_pump_fees_layouts_agree,
    lemma_pubkey_view_eq,
};
use crate::logs::event_body::routed_result;
use crate::logs::pump_fees::update_admin_decoded;
use crate::logs::raydium_clmm::discriminators as log_disc;
use crate::logs::raydium_clmm::{
    clmm_kind_of, collect_personal_fee_decoded, collect_protocol_fee_decoded,
    config_change_decoded, create_personal_position_decoded, create_pool_decoded,
    decrease_limit_order_decoded, decrease_liquidity_decoded, increase_limit_order_decoded,
    increase_liquidity_decoded, liquidity_calculate_decoded, liquidity_change_decoded,
    open_limit_order_decoded, program_data_result, settle_limit_order_decoded, swap_decoded,
    update_reward_infos_decoded,
};
use crate::types::{zero_key, AccountData, EventMetadata};
use vstd::arithmetic::div_mod::lemma_fundamental_div_mod_converse;
use vstd::prelude::*;

verus! {

/// The bytes `t` stand at `fo` in `s`, which stands at `o` in `e`: so they
/// stand at `o + fo` in `e`.
proof fn lemma_bytes_field(e: Seq<u8>, o: int, s: Seq<u8>, fo: int, t: Seq<u8>)
    requires
        0 <= o,
        0 <= fo,
        fo + t.len() <= s.len(),
        o + s.len() <= e.len(),
        e.subrange(o, o + s.len()) == s,
        forall|j: int| 0 <= j < t.len() ==> s[fo + j] == t[j],
    ensures
        e.subrange(o + fo, o + fo + t.len()) == t,
{
    assert forall|j: int| 0 <= j < t.len() implies e.subrange(o + fo, o + fo + t.len())[j] == t[j] by {
        assert(e.subrange(o, o + s.len())[fo + j] == e[o + fo + j]);
        assert(s[fo + j] == t[j]);
    }
    assert(e.subrange(o + fo, o + fo + t.len()) =~= t);
}

/// One byte of `s`, which stands at `o` in `e`.
proof fn lemma_byte_field(e: Seq<u8>, o: int, s: Seq<u8>, fo: int, b: u8)
    requires
        0 <= o,
        0 <= fo < s.len(),
        o + s.len() <= e.len(),
        e.subrange(o, o + s.len()) == s,
        s[fo] == b,
    ensures
        e[o + fo] == b,
{
    assert(e.subrange(o, o + s.len())[fo] == e[o + fo]);
}

/// The little-endian encoding of `x` at `fo` in `s` reads back as `x` at
/// `o + fo` in `e`.
proof fn lemma_num_field(e: Seq<u8>, o: int, s: Seq<u8>, fo: int, w: nat, x: nat)
    requires
        0 <= o,
        0 <= fo,
        fo + w <= s.len(),
        o + s.len() <= e.len(),
        e.subrange(o, o + s.len()) == s,
        x < pow256(w),
        forall|j: int| 0 <= j < w ==> s[fo + j] == #[trigger] le_byte(x, j as nat),
    ensures
        le_at(e, o + fo, w as int) == x,
{
    let t = Seq::new(w, |j: int| le_byte(x, j as nat));
    lemma_bytes_field(e, o, s, fo, t);
    lemma_le_value_of_le_bytes(t, x);
}

/// A run of little-endian `w`-byte numbers encoded at `fo` in `s` reads back
/// at `o + fo` in `e`.
proof fn lemma_run_field(e: Seq<u8>, o: int, s: Seq<u8>, fo: int, w: nat, vals: Seq<int>)
    requires
        0 <= o,
        0 <= fo,
        0 < w,
        fo + w * vals.len() <= s.len(),
        o + s.len() <= e.len(),
        e.subrange(o, o + s.len()) == s,
        forall|i: int| 0 <= i < vals.len() ==> 0 <= #[trigger] vals[i] < pow256(w),
        forall|k: int|
            0 <= k < w * vals.len() ==> #[trigger] s[fo + k] == le_byte(vals[k / w as int] as nat, (k % w as int) as nat),
    ensures
        le_run_at(vals, e, o + fo, w as int),
{
    assert forall|i: int| 0 <= i < vals.len() implies #[trigger] vals[i] == le_at(e, o + fo + w * i, w as int) by {
        assert(w * i + w <= w * vals.len()) by (nonlinear_arith)
            requires
                0 <= i < vals.len(),
                0 < w,
        ;
        assert(0 <= w * i && w * i == i * w) by (nonlinear_arith)
            requires
                0 <= i,
                0 < w,
        ;
        assert forall|j: int| 0 <= j < w implies s[(fo + w * i) + j] == #[trigger] le_byte(vals[i] as nat, j as nat) by {
            lemma_fundamental_div_mod_converse(w * i + j, w as int, i, j);
            assert(fo + w * i + j == fo + (w * i + j));
            assert(s[fo + (w * i + j)] == le_byte(vals[(w * i + j) / w as int] as nat, ((w * i + j) % w as int) as nat));
        }
        lemma_num_field(e, o, s, fo + w * i, w, vals[i] as nat);
    }
}

proof fn lemma_u8_array_eq<const N: usize>(a: [u8; N], b: [u8; N])
    requires
        a@ == b@,
    ensures
        a == b,
{
    assert(a =~= b) by {
        assert forall|i: int| 0 <= i < N implies a[i] == b[i] by {
            assert(a@[i] == b@[i]);
        }
    }
}

proof fn lemma_u32_array_eq<const N: usize>(a: [u32; N], b: [u32; N], d: Seq<u8>, off: int)
    requires
        le_run_at(u32s(a@), d, off, 4),
        le_run_at(u32s(b@), d, off, 4),
    ensures
        a == b,
{
    assert(a =~= b) by {
        assert forall|i: int| 0 <= i < N implies a[i] == b[i] by {
            assert(u32s(a@)[i] == u32s(b@)[i]);
        }
    }
}

proof fn lemma_u64_array_eq<const N: usize>(a: [u64; N], b: [u64; N], d: Seq<u8>, off: int)
    requires
        le_run_at(u64s(a@), d, off, 8),
        le_run_at(u64s(b@), d, off, 8),
    ensures
        a == b,
{
    assert(a =~= b) by {
        assert forall|i: int| 0 <= i < N implies a[i] == b[i] by {
            assert(u64s(a@)[i] == u64s(b@)[i]);
        }
    }
}

proof fn lemma_u128_array_eq<const N: usize>(a: [u128; N], b: [u128; N], d: Seq<u8>, off: int)
    requires
        le_run_at(u128s(a@), d, off, 16),
        le_run_at(u128s(b@), d, off, 16),
    ensures
        a == b,
{
    assert(a =~= b) by {
        assert forall|i: int| 0 <= i < N implies a[i] == b[i] by {
            assert(u128s(a@)[i] == u128s(b@)[i]);
        }
    }
}

/// The on-chain encoding of an `AmmConfig` account body.
pub open spec fn amm_config_bytes(v: RaydiumClmmAmmConfig) -> Seq<u8> {
    Seq::new(109nat, |i: int|
        if i < 1 {
            v.bump
        } else if i < 3 {
            le_byte(v.index as nat, (i - 1) as nat)
        } else if i < 35 {
            v.owner@[i - 3]
        } else if i < 39 {
            le_byte(v.protocol_fee_rate as nat, (i - 35) as nat)
        } else if i < 43 {
            le_byte(v.trade_fee_rate as nat, (i - 39) as nat)
        } else if i < 45 {
            le_byte(v.tick_spacing as nat, (i - 43) as nat)
        } else if i < 49 {
            le_byte(v.fund_fee_rate as nat, (i - 45) as nat)
        } else if i < 53 {
            le_byte(v.padding_u32 as nat, (i - 49) as nat)
        } else if i < 85 {
            v.fund_owner@[i - 53]
        } else if i < 109 {
            le_byte(u64s(v.padding@)[(i - 85) / 8] as nat, ((i - 85) % 8) as nat)
        } else {
            0u8
        })
}

proof fn lemma_amm_config_decodes(e: Seq<u8>, o: int, v: RaydiumClmmAmmConfig, w: RaydiumClmmAmmConfig)
    requires
        0 <= o,
        o + 109 <= e.len(),
        e.subrange(o, o + 109) == amm_config_bytes(v),
        amm_config_decoded(w, e, o),
    ensures
        w == v,
{
    let s = amm_config_bytes(v);
    lemma_pow256_values();
    lemma_byte_field(e, o, s, 0, v.bump);
    lemma_num_field(e, o, s, 1, 2, v.index as nat);
    lemma_bytes_field(e, o, s, 3, v.owner@);
    lemma_pubkey_view_eq(w.owner, v.owner);
    lemma_num_field(e, o, s, 35, 4, v.protocol_fee_rate as nat);
    lemma_num_field(e, o, s, 39, 4, v.trade_fee_rate as nat);
    lemma_num_field(e, o, s, 43, 2, v.tick_spacing as nat);
    lemma_num_field(e, o, s, 45, 4, v.fund_fee_rate as nat);
    lemma_num_field(e, o, s, 49, 4, v.padding_u32 as nat);
    lemma_bytes_field(e, o, s, 53, v.fund_owner@);
    lemma_pubkey_view_eq(w.fund_owner, v.fund_owner);
    lemma_run_field(e, o, s, 85, 8, u64s(v.padding@));
    lemma_u64_array_eq(w.padding, v.padding, e, o + 85);

}

/// The on-chain encoding of a pool reward info.
pub open spec fn reward_info_bytes(v: RaydiumClmmRewardInfo) -> Seq<u8> {
    Seq::new(169nat, |i: int|
        if i < 1 {
            v.reward_state
        } else if i < 9 {
            le_byte(v.open_time as nat, (i - 1) as nat)
        } else if i < 17 {
            le_byte(v.end_time as nat, (i - 9) as nat)
        } else if i < 25 {
            le_byte(v.last_update_time as nat, (i - 17) as nat)
        } else if i < 41 {
            le_byte(v.emissions_per_second_x64 as nat, (i - 25) as nat)
        } else if i < 49 {
            le_byte(v.reward_total_emitted as nat, (i - 41) as nat)
        } else if i < 57 {
            le_byte(v.reward_claimed as nat, (i - 49) as nat)
        } else if i < 89 {
            v.token_mint@[i - 57]
        } else if i < 121 {
            v.token_vault@[i - 89]
        } else if i < 153 {
            v.authority@[i - 121]
        } else if i < 169 {
            le_byte(v.reward_growth_global_x64 as nat, (i - 153) as nat)
        } else {
            0u8
        })
}

proof fn lemma_reward_info_decodes(e: Seq<u8>, o: int, v: RaydiumClmmRewardInfo, w: RaydiumClmmRewardInfo)
    requires
        0 <= o,
        o + 169 <= e.len(),
        e.subrange(o, o + 169) == reward_info_bytes(v),
        reward_info_decoded(w, e, o),
    ensures
        w == v,
{
    let s = reward_info_bytes(v);
    lemma_pow256_values();
    lemma_byte_field(e, o, s, 0, v.reward_state);
    lemma_num_field(e, o, s, 1, 8, v.open_time as nat);
    lemma_num_field(e, o, s, 9, 8, v.end_time as nat);
    lemma_num_field(e, o, s, 17, 8, v.last_update_time as nat);
    lemma_num_field(e, o, s, 25, 16, v.emissions_per_second_x64 as nat);
    lemma_num_field(e, o, s, 41, 8, v.reward_total_emitted as nat);
    lemma_num_field(e, o, s, 49, 8, v.reward_claimed as nat);
    lemma_bytes_field(e, o, s, 57, v.token_mint@);
    lemma_pubkey_view_eq(w.token_mint, v.token_mint);
    lemma_bytes_field(e, o, s, 89, v.token_vault@);
    lemma_pubkey_view_eq(w.token_vault, v.token_vault);
    lemma_bytes_field(e, o, s, 121, v.authority@);
    lemma_pubkey_view_eq(w.authority, v.authority);
    lemma_num_field(e, o, s, 153, 16, v.reward_growth_global_x64 as nat);

}

/// The on-chain encoding of a pool's dynamic-fee info.
pub open spec fn dynamic_fee_info_bytes(v: RaydiumClmmDynamicFeeInfo) -> Seq<u8> {
    Seq::new(80nat, |i: int|
        if i < 2 {
            le_byte(v.filter_period as nat, (i - 0) as nat)
        } else if i < 4 {
            le_byte(v.decay_period as nat, (i - 2) as nat)
        } else if i < 6 {
            le_byte(v.reduction_factor as nat, (i - 4) as nat)
        } else if i < 10 {
            le_byte(v.dynamic_fee_control as nat, (i - 6) as nat)
        } else if i < 14 {
            le_byte(v.max_volatility_accumulator as nat, (i - 10) as nat)
        } else if i < 18 {
            le_byte(to_unsigned(v.tick_spacing_index_reference as int, 4), (i - 14) as nat)
        } else if i < 22 {
            le_byte(v.volatility_reference as nat, (i - 18) as nat)
        } else if i < 26 {
            le_byte(v.volatility_accumulator as nat, (i - 22) as nat)
        } else if i < 34 {
            le_byte(v.last_update_timestamp as nat, (i - 26) as nat)
        } else if i < 80 {
            v.padding@[i - 34]
        } else {
            0u8
        })
}

proof fn lemma_dynamic_fee_info_decodes(e: Seq<u8>, o: int, v: RaydiumClmmDynamicFeeInfo, w: RaydiumClmmDynamicFeeInfo)
    requires
        0 <= o,
        o + 80 <= e.len(),
        e.subrange(o, o + 80) == dynamic_fee_info_bytes(v),
        dynamic_fee_info_decoded(w, e, o),
    ensures
        w == v,
{
    let s = dynamic_fee_info_bytes(v);
    lemma_pow256_values();
    lemma_num_field(e, o, s, 0, 2, v.filter_period as nat);
    lemma_num_field(e, o, s, 2, 2, v.decay_period as nat);
    lemma_num_field(e, o, s, 4, 2, v.reduction_factor as nat);
    lemma_num_field(e, o, s, 6, 4, v.dynamic_fee_control as nat);
    lemma_num_field(e, o, s, 10, 4, v.max_volatility_accumulator as nat);
    lemma_to_unsigned(v.tick_spacing_index_reference as int, 4);
    lemma_num_field(e, o, s, 14, 4, to_unsigned(v.tick_spacing_index_reference as int, 4));
    lemma_num_field(e, o, s, 18, 4, v.volatility_reference as nat);
    lemma_num_field(e, o, s, 22, 4, v.volatility_accumulator as nat);
    lemma_num_field(e, o, s, 26, 8, v.last_update_timestamp as nat);
    lemma_bytes_field(e, o, s, 34, v.padding@);
    lemma_u8_array_eq(w.padding, v.padding);

}

/// The on-chain encoding of one tick of a tick array.
pub open spec fn tick_bytes(v: Tick) -> Seq<u8> {
    Seq::new(168nat, |i: int|
        if i < 4 {
            le_byte(to_unsigned(v.tick as int, 4), (i - 0) as nat)
        } else if i < 20 {
            le_byte(to_unsigned(v.liquidity_net as int, 16), (i - 4) as nat)
        } else if i < 36 {
            le_byte(v.liquidity_gross as nat, (i - 20) as nat)
        } else if i < 52 {
            le_byte(v.fee_growth_outside_0_x64 as nat, (i - 36) as nat)
        } else if i < 68 {
            le_byte(v.fee_growth_outside_1_x64 as nat, (i - 52) as nat)
        } else if i < 116 {
            le_byte(u128s(v.reward_growths_outside_x64@)[(i - 68) / 16] as nat, ((i - 68) % 16) as nat)
        } else if i < 124 {
            le_byte(v.order_phase as nat, (i - 116) as nat)
        } else if i < 132 {
            le_byte(v.orders_amount as nat, (i - 124) as nat)
        } else if i < 140 {
            le_byte(v.part_filled_orders_remaining as nat, (i - 132) as nat)
        } else if i < 156 {
            le_byte(v.unfilled_ratio_x64 as nat, (i - 140) as nat)
        } else if i < 168 {
            le_byte(u32s(v.padding@)[(i - 156) / 4] as nat, ((i - 156) % 4) as nat)
        } else {
            0u8
        })
}

proof fn lemma_tick_decodes(e: Seq<u8>, o: int, v: Tick, w: Tick)
    requires
        0 <= o,
        o + 168 <= e.len(),
        e.subrange(o, o + 168) == tick_bytes(v),
        tick_decoded(w, e, o),
    ensures
        w == v,
{
    let s = tick_bytes(v);
    lemma_pow256_values();
    lemma_to_unsigned(v.tick as int, 4);
    lemma_num_field(e, o, s, 0, 4, to_unsigned(v.tick as int, 4));
    lemma_to_unsigned(v.liquidity_net as int, 16);
    lemma_num_field(e, o, s, 4, 16, to_unsigned(v.liquidity_net as int, 16));
    lemma_num_field(e, o, s, 20, 16, v.liquidity_gross as nat);
    lemma_num_field(e, o, s, 36, 16, v.fee_growth_outside_0_x64 as nat);
    lemma_num_field(e, o, s, 52, 16, v.fee_growth_outside_1_x64 as nat);
    lemma_run_field(e, o, s, 68, 16, u128s(v.reward_growths_outside_x64@));
    lemma_u128_array_eq(w.reward_growths_outside_x64, v.reward_growths_outside_x64, e, o + 68);
    lemma_num_field(e, o, s, 116, 8, v.order_phase as nat);
    lemma_num_field(e, o, s, 124, 8, v.orders_amount as nat);
    lemma_num_field(e, o, s, 132, 8, v.part_filled_orders_remaining as nat);
    lemma_num_field(e, o, s, 140, 16, v.unfilled_ratio_x64 as nat);
    lemma_run_field(e, o, s, 156, 4, u32s(v.padding@));
    lemma_u32_array_eq(w.padding, v.padding, e, o + 156);

}

/// The on-chain encoding of a `PoolState` account body, its fields in the order of the program's account struct.
pub open spec fn pool_state_bytes(v: RaydiumClmmPoolState) -> Seq<u8> {
    Seq::new(1536nat, |i: int|
        if i < 1 {
            v.bump@[i - 0]
        } else if i < 33 {
            v.amm_config@[i - 1]
        } else if i < 65 {
            v.owner@[i - 33]
        } else if i < 97 {
            v.token_mint_0@[i - 65]
        } else if i < 129 {
            v.token_mint_1@[i - 97]
        } else if i < 161 {
            v.token_vault_0@[i - 129]
        } else if i < 193 {
            v.token_vault_1@[i - 161]
        } else if i < 225 {
            v.observation_key@[i - 193]
        } else if i < 226 {
            v.mint_decimals_0
        } else if i < 227 {
            v.mint_decimals_1
        } else if i < 229 {
            le_byte(v.tick_spacing as nat, (i - 227) as nat)
        } else if i < 245 {
            le_byte(v.liquidity as nat, (i - 229) as nat)
        } else if i < 261 {
            le_byte(v.sqrt_price_x64 as nat, (i - 245) as nat)
        } else if i < 265 {
            le_byte(to_unsigned(v.tick_current as int, 4), (i - 261) as nat)
        } else if i < 267 {
            le_byte(v.padding3 as nat, (i - 265) as nat)
        } else if i < 269 {
            le_byte(v.padding4 as nat, (i - 267) as nat)
        } else if i < 285 {
            le_byte(v.fee_growth_global_0_x64 as nat, (i - 269) as nat)
        } else if i < 301 {
            le_byte(v.fee_growth_global_1_x64 as nat, (i - 285) as nat)
        } else if i < 309 {
            le_byte(v.protocol_fees_token_0 as nat, (i - 301) as nat)
        } else if i < 317 {
            le_byte(v.protocol_fees_token_1 as nat, (i - 309) as nat)
        } else if i < 381 {
            le_byte(u128s(v.padding5@)[(i - 317) / 16] as nat, ((i - 317) % 16) as nat)
        } else if i < 382 {
            v.status
        } else if i < 383 {
            v.fee_on
        } else if i < 389 {
            v.padding@[i - 383]
        } else if i < 558 {
            reward_info_bytes(v.reward_infos[0])[i - 389]
        } else if i < 727 {
            reward_info_bytes(v.reward_infos[1])[i - 558]
        } else if i < 896 {
            reward_info_bytes(v.reward_infos[2])[i - 727]
        } else if i < 1024 {
            le_byte(u64s(v.tick_array_bitmap@)[(i - 896) / 8] as nat, ((i - 896) % 8) as nat)
        } else if i < 1056 {
            le_byte(u64s(v.padding6@)[(i - 1024) / 8] as nat, ((i - 1024) % 8) as nat)
        } else if i < 1064 {
            le_byte(v.fund_fees_token_0 as nat, (i - 1056) as nat)
        } else if i < 1072 {
            le_byte(v.fund_fees_token_1 as nat, (i - 1064) as nat)
        } else if i < 1080 {
            le_byte(v.open_time as nat, (i - 1072) as nat)
        } else if i < 1088 {
            le_byte(v.recent_epoch as nat, (i - 1080) as nat)
        } else if i < 1168 {
            dynamic_fee_info_bytes(v.dynamic_fee_info)[i - 1088]
        } else if i < 1280 {
            le_byte(u64s(v.padding1@)[(i - 1168) / 8] as nat, ((i - 1168) % 8) as nat)
        } else if i < 1536 {
            le_byte(u64s(v.padding2@)[(i - 1280) / 8] as nat, ((i - 1280) % 8) as nat)
        } else {
            0u8
        })
}

proof fn lemma_pool_state_decodes(e: Seq<u8>, v: RaydiumClmmPoolState, w: RaydiumClmmPoolState)
    requires
        1536 <= e.len(),
        e.subrange(0, 1536) == pool_state_bytes(v),
        pool_state_decoded(w, e),
    ensures
        w == v,
{
    let s = pool_state_bytes(v);
    lemma_pow256_values();
    lemma_bytes_field(e, 0, s, 0, v.bump@);
    lemma_u8_array_eq(w.bump, v.bump);
    lemma_bytes_field(e, 0, s, 1, v.amm_config@);
    lemma_pubkey_view_eq(w.amm_config, v.amm_config);
    lemma_bytes_field(e, 0, s, 33, v.owner@);
    lemma_pubkey_view_eq(w.owner, v.owner);
    lemma_bytes_field(e, 0, s, 65, v.token_mint_0@);
    lemma_pubkey_view_eq(w.token_mint_0, v.token_mint_0);
    lemma_bytes_field(e, 0, s, 97, v.token_mint_1@);
    lemma_pubkey_view_eq(w.token_mint_1, v.token_mint_1);
    lemma_bytes_field(e, 0, s, 129, v.token_vault_0@);
    lemma_pubkey_view_eq(w.token_vault_0, v.token_vault_0);
    lemma_bytes_field(e, 0, s, 161, v.token_vault_1@);
    lemma_pubkey_view_eq(w.token_vault_1, v.token_vault_1);
    lemma_bytes_field(e, 0, s, 193, v.observation_key@);
    lemma_pubkey_view_eq(w.observation_key, v.observation_key);
    lemma_byte_field(e, 0, s, 225, v.mint_decimals_0);
    lemma_byte_field(e, 0, s, 226, v.mint_decimals_1);
    lemma_num_field(e, 0, s, 227, 2, v.tick_spacing as nat);
    lemma_num_field(e, 0, s, 229, 16, v.liquidity as nat);
    lemma_num_field(e, 0, s, 245, 16, v.sqrt_price_x64 as nat);
    lemma_to_unsigned(v.tick_current as int, 4);
    lemma_num_field(e, 0, s, 261, 4, to_unsigned(v.tick_current as int, 4));
    lemma_num_field(e, 0, s, 265, 2, v.padding3 as nat);
    lemma_num_field(e, 0, s, 267, 2, v.padding4 as nat);
    lemma_num_field(e, 0, s, 269, 16, v.fee_growth_global_0_x64 as nat);
    lemma_num_field(e, 0, s, 285, 16, v.fee_growth_global_1_x64 as nat);
    lemma_num_field(e, 0, s, 301, 8, v.protocol_fees_token_0 as nat);
    lemma_num_field(e, 0, s, 309, 8, v.protocol_fees_token_1 as nat);
    lemma_run_field(e, 0, s, 317, 16, u128s(v.padding5@));
    lemma_u128_array_eq(w.padding5, v.padding5, e, 317);
    lemma_byte_field(e, 0, s, 381, v.status);
    lemma_byte_field(e, 0, s, 382, v.fee_on);
    lemma_bytes_field(e, 0, s, 383, v.padding@);
    lemma_u8_array_eq(w.padding, v.padding);
    lemma_bytes_field(e, 0, s, 389, reward_info_bytes(v.reward_infos[0]));
    lemma_reward_info_decodes(e, 389, v.reward_infos[0], w.reward_infos[0]);
    lemma_bytes_field(e, 0, s, 558, reward_info_bytes(v.reward_infos[1]));
    lemma_reward_info_decodes(e, 558, v.reward_infos[1], w.reward_infos[1]);
    lemma_bytes_field(e, 0, s, 727, reward_info_bytes(v.reward_infos[2]));
    lemma_reward_info_decodes(e, 727, v.reward_infos[2], w.reward_infos[2]);
    lemma_run_field(e, 0, s, 896, 8, u64s(v.tick_array_bitmap@));
    lemma_u64_array_eq(w.tick_array_bitmap, v.tick_array_bitmap, e, 896);
    lemma_run_field(e, 0, s, 1024, 8, u64s(v.padding6@));
    lemma_u64_array_eq(w.padding6, v.padding6, e, 1024);
    lemma_num_field(e, 0, s, 1056, 8, v.fund_fees_token_0 as nat);
    lemma_num_field(e, 0, s, 1064, 8, v.fund_fees_token_1 as nat);
    lemma_num_field(e, 0, s, 1072, 8, v.open_time as nat);
    lemma_num_field(e, 0, s, 1080, 8, v.recent_epoch as nat);
    lemma_bytes_field(e, 0, s, 1088, dynamic_fee_info_bytes(v.dynamic_fee_info));
    lemma_dynamic_fee_info_decodes(e, 1088, v.dynamic_fee_info, w.dynamic_fee_info);
    lemma_run_field(e, 0, s, 1168, 8, u64s(v.padding1@));
    lemma_u64_array_eq(w.padding1, v.padding1, e, 1168);
    lemma_run_field(e, 0, s, 1280, 8, u64s(v.padding2@));
    lemma_u64_array_eq(w.padding2, v.padding2, e, 1280);
    assert(w.reward_infos =~= v.reward_infos);
}

/// The on-chain encoding of a `TickArrayState` account body, with its ticks one after another.
pub open spec fn tick_array_bytes(v: RaydiumClmmTickArrayState) -> Seq<u8> {
    Seq::new(10232nat, |i: int|
        if i < 32 {
            v.pool_id@[i - 0]
        } else if i < 36 {
            le_byte(to_unsigned(v.start_tick_index as int, 4), (i - 32) as nat)
        } else if i < 10116 {
            tick_bytes(v.ticks@[(i - 36) / 168])[(i - 36) % 168]
        } else if i < 10117 {
            v.initialized_tick_count
        } else if i < 10125 {
            le_byte(v.recent_epoch as nat, (i - 10117) as nat)
        } else if i < 10232 {
            v.padding@[i - 10125]
        } else {
            0u8
        })
}

proof fn lemma_tick_array_decodes(e: Seq<u8>, v: RaydiumClmmTickArrayState, w: RaydiumClmmTickArrayState)
    requires
        10232 <= e.len(),
        e.subrange(0, 10232) == tick_array_bytes(v),
        tick_array_decoded(w, e),
        v.ticks@.len() == 60,
    ensures
        same_tick_array(w, v),
{
    let s = tick_array_bytes(v);
    lemma_pow256_values();
    lemma_bytes_field(e, 0, s, 0, v.pool_id@);
    lemma_pubkey_view_eq(w.pool_id, v.pool_id);
    lemma_to_unsigned(v.start_tick_index as int, 4);
    lemma_num_field(e, 0, s, 32, 4, to_unsigned(v.start_tick_index as int, 4));
    assert forall|k: int| 0 <= k < 60 implies #[trigger] w.ticks@[k] == v.ticks@[k] by {
        let base: int = 36 + 168 * k;
        assert forall|j: int| 0 <= j < 168 implies s[base + j] == tick_bytes(v.ticks@[k])[j] by {
            lemma_fundamental_div_mod_converse(168 * k + j, 168, k, j);
        }
        lemma_bytes_field(e, 0, s, base, tick_bytes(v.ticks@[k]));
        lemma_tick_decodes(e, base, v.ticks@[k], w.ticks@[k]);
    }
    assert(w.ticks@ =~= v.ticks@);
    lemma_byte_field(e, 0, s, 10116, v.initialized_tick_count);
    lemma_num_field(e, 0, s, 10117, 8, v.recent_epoch as nat);
    lemma_bytes_field(e, 0, s, 10125, v.padding@);
    lemma_u8_array_eq(w.padding, v.padding);

}

/// The on-chain encoding of a Raydium CLMM `Swap` event body.
pub open spec fn swap_event_bytes(v: RaydiumClmmSwapEvent) -> Seq<u8> {
    Seq::new(197nat, |i: int|
        if i < 32 {
            v.pool_state@[i - 0]
        } else if i < 64 {
            v.sender@[i - 32]
        } else if i < 96 {
            v.token_account_0@[i - 64]
        } else if i < 128 {
            v.token_account_1@[i - 96]
        } else if i < 136 {
            le_byte(v.amount_0 as nat, (i - 128) as nat)
        } else if i < 144 {
            le_byte(v.transfer_fee_0 as nat, (i - 136) as nat)
        } else if i < 152 {
            le_byte(v.amount_1 as nat, (i - 144) as nat)
        } else if i < 160 {
            le_byte(v.transfer_fee_1 as nat, (i - 152) as nat)
        } else if i < 161 {
            if v.zero_for_one { 1u8 } else { 0u8 }
        } else if i < 177 {
            le_byte(v.sqrt_price_x64 as nat, (i - 161) as nat)
        } else if i < 193 {
            le_byte(v.liquidity as nat, (i - 177) as nat)
        } else if i < 197 {
            le_byte(to_unsigned(v.tick as int, 4), (i - 193) as nat)
        } else {
            0u8
        })
}

proof fn lemma_swap_event_decodes(e: Seq<u8>, v: RaydiumClmmSwapEvent, w: RaydiumClmmSwapEvent)
    requires
        197 <= e.len(),
        e.subrange(0, 197) == swap_event_bytes(v),
        swap_decoded(w, e, v.metadata),
    ensures
        w == v,
{
    let s = swap_event_bytes(v);
    lemma_pow256_values();
    lemma_bytes_field(e, 0, s, 0, v.pool_state@);
    lemma_pubkey_view_eq(w.pool_state, v.pool_state);
    lemma_bytes_field(e, 0, s, 32, v.sender@);
    lemma_pubkey_view_eq(w.sender, v.sender);
    lemma_bytes_field(e, 0, s, 64, v.token_account_0@);
    lemma_pubkey_view_eq(w.token_account_0, v.token_account_0);
    lemma_bytes_field(e, 0, s, 96, v.token_account_1@);
    lemma_pubkey_view_eq(w.token_account_1, v.token_account_1);
    lemma_num_field(e, 0, s, 128, 8, v.amount_0 as nat);
    lemma_num_field(e, 0, s, 136, 8, v.transfer_fee_0 as nat);
    lemma_num_field(e, 0, s, 144, 8, v.amount_1 as nat);
    lemma_num_field(e, 0, s, 152, 8, v.transfer_fee_1 as nat);
    lemma_byte_field(e, 0, s, 160, if v.zero_for_one { 1u8 } else { 0u8 });
    lemma_num_field(e, 0, s, 161, 16, v.sqrt_price_x64 as nat);
    lemma_num_field(e, 0, s, 177, 16, v.liquidity as nat);
    lemma_to_unsigned(v.tick as int, 4);
    lemma_num_field(e, 0, s, 193, 4, to_unsigned(v.tick as int, 4));

}

/// The on-chain encoding of a Raydium CLMM `IncreaseLiquidity` event body.
pub open spec fn increase_liquidity_event_bytes(v: RaydiumClmmIncreaseLiquidityEvent) -> Seq<u8> {
    Seq::new(80nat, |i: int|
        if i < 32 {
            v.position_nft_mint@[i - 0]
        } else if i < 48 {
            le_byte(v.liquidity as nat, (i - 32) as nat)
        } else if i < 56 {
            le_byte(v.amount_0 as nat, (i - 48) as nat)
        } else if i < 64 {
            le_byte(v.amount_1 as nat, (i - 56) as nat)
        } else if i < 72 {
            le_byte(v.amount_0_transfer_fee as nat, (i - 64) as nat)
        } else if i < 80 {
            le_byte(v.amount_1_transfer_fee as nat, (i - 72) as nat)
        } else {
            0u8
        })
}

proof fn lemma_increase_liquidity_event_decodes(e: Seq<u8>, v: RaydiumClmmIncreaseLiquidityEvent, w: RaydiumClmmIncreaseLiquidityEvent)
    requires
        80 <= e.len(),
        e.subrange(0, 80) == increase_liquidity_event_bytes(v),
        increase_liquidity_decoded(w, e, v.metadata),
        v.pool@ == zero_key(),
        v.user@ == zero_key(),
        v.amount0_max == 0,
        v.amount1_max == 0,
    ensures
        w == v,
{
    let s = increase_liquidity_event_bytes(v);
    lemma_pow256_values();
    lemma_bytes_field(e, 0, s, 0, v.position_nft_mint@);
    lemma_pubkey_view_eq(w.position_nft_mint, v.position_nft_mint);
    lemma_num_field(e, 0, s, 32, 16, v.liquidity as nat);
    lemma_num_field(e, 0, s, 48, 8, v.amount_0 as nat);
    lemma_num_field(e, 0, s, 56, 8, v.amount_1 as nat);
    lemma_num_field(e, 0, s, 64, 8, v.amount_0_transfer_fee as nat);
    lemma_num_field(e, 0, s, 72, 8, v.amount_1_transfer_fee as nat);
    lemma_pubkey_view_eq(w.pool, v.pool);
    lemma_pubkey_view_eq(w.user, v.user);
}

/// The on-chain encoding of a Raydium CLMM `DecreaseLiquidity` event body.
pub open spec fn decrease_liquidity_event_bytes(v: RaydiumClmmDecreaseLiquidityEvent) -> Seq<u8> {
    Seq::new(120nat, |i: int|
        if i < 32 {
            v.position_nft_mint@[i - 0]
        } else if i < 48 {
            le_byte(v.liquidity as nat, (i - 32) as nat)
        } else if i < 56 {
            le_byte(v.decrease_amount_0 as nat, (i - 48) as nat)
        } else if i < 64 {
            le_byte(v.decrease_amount_1 as nat, (i - 56) as nat)
        } else if i < 72 {
            le_byte(v.fee_amount_0 as nat, (i - 64) as nat)
        } else if i < 80 {
            le_byte(v.fee_amount_1 as nat, (i - 72) as nat)
        } else if i < 104 {
            le_byte(u64s(v.reward_amounts@)[(i - 80) / 8] as nat, ((i - 80) % 8) as nat)
        } else if i < 112 {
            le_byte(v.transfer_fee_0 as nat, (i - 104) as nat)
        } else if i < 120 {
            le_byte(v.transfer_fee_1 as nat, (i - 112) as nat)
        } else {
            0u8
        })
}

proof fn lemma_decrease_liquidity_event_decodes(e: Seq<u8>, v: RaydiumClmmDecreaseLiquidityEvent, w: RaydiumClmmDecreaseLiquidityEvent)
    requires
        120 <= e.len(),
        e.subrange(0, 120) == decrease_liquidity_event_bytes(v),
        decrease_liquidity_decoded(w, e, v.metadata),
        v.pool@ == zero_key(),
        v.user@ == zero_key(),
        v.amount0_min == 0,
        v.amount1_min == 0,
    ensures
        w == v,
{
    let s = decrease_liquidity_event_bytes(v);
    lemma_pow256_values();
    lemma_bytes_field(e, 0, s, 0, v.position_nft_mint@);
    lemma_pubkey_view_eq(w.position_nft_mint, v.position_nft_mint);
    lemma_num_field(e, 0, s, 32, 16, v.liquidity as nat);
    lemma_num_field(e, 0, s, 48, 8, v.decrease_amount_0 as nat);
    lemma_num_field(e, 0, s, 56, 8, v.decrease_amount_1 as nat);
    lemma_num_field(e, 0, s, 64, 8, v.fee_amount_0 as nat);
    lemma_num_field(e, 0, s, 72, 8, v.fee_amount_1 as nat);
    lemma_run_field(e, 0, s, 80, 8, u64s(v.reward_amounts@));
    lemma_u64_array_eq(w.reward_amounts, v.reward_amounts, e, 80);
    lemma_num_field(e, 0, s, 104, 8, v.transfer_fee_0 as nat);
    lemma_num_field(e, 0, s, 112, 8, v.transfer_fee_1 as nat);
    lemma_pubkey_view_eq(w.pool, v.pool);
    lemma_pubkey_view_eq(w.user, v.user);
}

/// The on-chain encoding of a Raydium CLMM `LiquidityChange` event body.
pub open spec fn liquidity_change_event_bytes(v: RaydiumClmmLiquidityChangeEvent) -> Seq<u8> {
    Seq::new(76nat, |i: int|
        if i < 32 {
            v.pool_state@[i - 0]
        } else if i < 36 {
            le_byte(to_unsigned(v.tick as int, 4), (i - 32) as nat)
        } else if i < 40 {
            le_byte(to_unsigned(v.tick_lower as int, 4), (i - 36) as nat)
        } else if i < 44 {
            le_byte(to_unsigned(v.tick_upper as int, 4), (i - 40) as nat)
        } else if i < 60 {
            le_byte(v.liquidity_before as nat, (i - 44) as nat)
        } else if i < 76 {
            le_byte(v.liquidity_after as nat, (i - 60) as nat)
        } else {
            0u8
        })
}

proof fn lemma_liquidity_change_event_decodes(e: Seq<u8>, v: RaydiumClmmLiquidityChangeEvent, w: RaydiumClmmLiquidityChangeEvent)
    requires
        76 <= e.len(),
        e.subrange(0, 76) == liquidity_change_event_bytes(v),
        liquidity_change_decoded(w, e, v.metadata),
    ensures
        w == v,
{
    let s = liquidity_change_event_bytes(v);
    lemma_pow256_values();
    lemma_bytes_field(e, 0, s, 0, v.pool_state@);
    lemma_pubkey_view_eq(w.pool_state, v.pool_state);
    lemma_to_unsigned(v.tick as int, 4);
    lemma_num_field(e, 0, s, 32, 4, to_unsigned(v.tick as int, 4));
    lemma_to_unsigned(v.tick_lower as int, 4);
    lemma_num_field(e, 0, s, 36, 4, to_unsigned(v.tick_lower as int, 4));
    lemma_to_unsigned(v.tick_upper as int, 4);
    lemma_num_field(e, 0, s, 40, 4, to_unsigned(v.tick_upper as int, 4));
    lemma_num_field(e, 0, s, 44, 16, v.liquidity_before as nat);
    lemma_num_field(e, 0, s, 60, 16, v.liquidity_after as nat);

}

/// The on-chain encoding of a Raydium CLMM `ConfigChange` event body.
pub open spec fn config_change_event_bytes(v: RaydiumClmmConfigChangeEvent) -> Seq<u8> {
    Seq::new(80nat, |i: int|
        if i < 2 {
            le_byte(v.index as nat, (i - 0) as nat)
        } else if i < 34 {
            v.owner@[i - 2]
        } else if i < 38 {
            le_byte(v.protocol_fee_rate as nat, (i - 34) as nat)
        } else if i < 42 {
            le_byte(v.trade_fee_rate as nat, (i - 38) as nat)
        } else if i < 44 {
            le_byte(v.tick_spacing as nat, (i - 42) as nat)
        } else if i < 48 {
            le_byte(v.fund_fee_rate as nat, (i - 44) as nat)
        } else if i < 80 {
            v.fund_owner@[i - 48]
        } else {
            0u8
        })
}

proof fn lemma_config_change_event_decodes(e: Seq<u8>, v: RaydiumClmmConfigChangeEvent, w: RaydiumClmmConfigChangeEvent)
    requires
        80 <= e.len(),
        e.subrange(0, 80) == config_change_event_bytes(v),
        config_change_decoded(w, e, v.metadata),
    ensures
        w == v,
{
    let s = config_change_event_bytes(v);
    lemma_pow256_values();
    lemma_num_field(e, 0, s, 0, 2, v.index as nat);
    lemma_bytes_field(e, 0, s, 2, v.owner@);
    lemma_pubkey_view_eq(w.owner, v.owner);
    lemma_num_field(e, 0, s, 34, 4, v.protocol_fee_rate as nat);
    lemma_num_field(e, 0, s, 38, 4, v.trade_fee_rate as nat);
    lemma_num_field(e, 0, s, 42, 2, v.tick_spacing as nat);
    lemma_num_field(e, 0, s, 44, 4, v.fund_fee_rate as nat);
    lemma_bytes_field(e, 0, s, 48, v.fund_owner@);
    lemma_pubkey_view_eq(w.fund_owner, v.fund_owner);

}

/// The on-chain encoding of a Raydium CLMM `CreatePersonalPosition` event body.
pub open spec fn create_personal_position_event_bytes(v: RaydiumClmmCreatePersonalPositionEvent) -> Seq<u8> {
    Seq::new(152nat, |i: int|
        if i < 32 {
            v.pool_state@[i - 0]
        } else if i < 64 {
            v.minter@[i - 32]
        } else if i < 96 {
            v.nft_owner@[i - 64]
        } else if i < 100 {
            le_byte(to_unsigned(v.tick_lower_index as int, 4), (i - 96) as nat)
        } else if i < 104 {
            le_byte(to_unsigned(v.tick_upper_index as int, 4), (i - 100) as nat)
        } else if i < 120 {
            le_byte(v.liquidity as nat, (i - 104) as nat)
        } else if i < 128 {
            le_byte(v.deposit_amount_0 as nat, (i - 120) as nat)
        } else if i < 136 {
            le_byte(v.deposit_amount_1 as nat, (i - 128) as nat)
        } else if i < 144 {
            le_byte(v.deposit_amount_0_transfer_fee as nat, (i - 136) as nat)
        } else if i < 152 {
            le_byte(v.deposit_amount_1_transfer_fee as nat, (i - 144) as nat)
        } else {
            0u8
        })
}

proof fn lemma_create_personal_position_event_decodes(e: Seq<u8>, v: RaydiumClmmCreatePersonalPositionEvent, w: RaydiumClmmCreatePersonalPositionEvent)
    requires
        152 <= e.len(),
        e.subrange(0, 152) == create_personal_position_event_bytes(v),
        create_personal_position_decoded(w, e, v.metadata),
    ensures
        w == v,
{
    let s = create_personal_position_event_bytes(v);
    lemma_pow256_values();
    lemma_bytes_field(e, 0, s, 0, v.pool_state@);
    lemma_pubkey_view_eq(w.pool_state, v.pool_state);
    lemma_bytes_field(e, 0, s, 32, v.minter@);
    lemma_pubkey_view_eq(w.minter, v.minter);
    lemma_bytes_field(e, 0, s, 64, v.nft_owner@);
    lemma_pubkey_view_eq(w.nft_owner, v.nft_owner);
    lemma_to_unsigned(v.tick_lower_index as int, 4);
    lemma_num_field(e, 0, s, 96, 4, to_unsigned(v.tick_lower_index as int, 4));
    lemma_to_unsigned(v.tick_upper_index as int, 4);
    lemma_num_field(e, 0, s, 100, 4, to_unsigned(v.tick_upper_index as int, 4));
    lemma_num_field(e, 0, s, 104, 16, v.liquidity as nat);
    lemma_num_field(e, 0, s, 120, 8, v.deposit_amount_0 as nat);
    lemma_num_field(e, 0, s, 128, 8, v.deposit_amount_1 as nat);
    lemma_num_field(e, 0, s, 136, 8, v.deposit_amount_0_transfer_fee as nat);
    lemma_num_field(e, 0, s, 144, 8, v.deposit_amount_1_transfer_fee as nat);

}

/// The on-chain encoding of a Raydium CLMM `LiquidityCalculate` event body.
pub open spec fn liquidity_calculate_event_bytes(v: RaydiumClmmLiquidityCalculateEvent) -> Seq<u8> {
    Seq::new(84nat, |i: int|
        if i < 16 {
            le_byte(v.pool_liquidity as nat, (i - 0) as nat)
        } else if i < 32 {
            le_byte(v.pool_sqrt_price_x64 as nat, (i - 16) as nat)
        } else if i < 36 {
            le_byte(to_unsigned(v.pool_tick as int, 4), (i - 32) as nat)
        } else if i < 44 {
            le_byte(v.calc_amount_0 as nat, (i - 36) as nat)
        } else if i < 52 {
            le_byte(v.calc_amount_1 as nat, (i - 44) as nat)
        } else if i < 60 {
            le_byte(v.trade_fee_owed_0 as nat, (i - 52) as nat)
        } else if i < 68 {
            le_byte(v.trade_fee_owed_1 as nat, (i - 60) as nat)
        } else if i < 76 {
            le_byte(v.transfer_fee_0 as nat, (i - 68) as nat)
        } else if i < 84 {
            le_byte(v.transfer_fee_1 as nat, (i - 76) as nat)
        } else {
            0u8
        })
}

proof fn lemma_liquidity_calculate_event_decodes(e: Seq<u8>, v: RaydiumClmmLiquidityCalculateEvent, w: RaydiumClmmLiquidityCalculateEvent)
    requires
        84 <= e.len(),
        e.subrange(0, 84) == liquidity_calculate_event_bytes(v),
        liquidity_calculate_decoded(w, e, v.metadata),
    ensures
        w == v,
{
    let s = liquidity_calculate_event_bytes(v);
    lemma_pow256_values();
    lemma_num_field(e, 0, s, 0, 16, v.pool_liquidity as nat);
    lemma_num_field(e, 0, s, 16, 16, v.pool_sqrt_price_x64 as nat);
    lemma_to_unsigned(v.pool_tick as int, 4);
    lemma_num_field(e, 0, s, 32, 4, to_unsigned(v.pool_tick as int, 4));
    lemma_num_field(e, 0, s, 36, 8, v.calc_amount_0 as nat);
    lemma_num_field(e, 0, s, 44, 8, v.calc_amount_1 as nat);
    lemma_num_field(e, 0, s, 52, 8, v.trade_fee_owed_0 as nat);
    lemma_num_field(e, 0, s, 60, 8, v.trade_fee_owed_1 as nat);
    lemma_num_field(e, 0, s, 68, 8, v.transfer_fee_0 as nat);
    lemma_num_field(e, 0, s, 76, 8, v.transfer_fee_1 as nat);

}

/// The on-chain encoding of a Raydium CLMM `OpenLimitOrder` event body.
pub open spec fn open_limit_order_event_bytes(v: RaydiumClmmOpenLimitOrderEvent) -> Seq<u8> {
    Seq::new(85nat, |i: int|
        if i < 32 {
            v.pool_id@[i - 0]
        } else if i < 64 {
            v.limit_order@[i - 32]
        } else if i < 65 {
            if v.zero_for_one { 1u8 } else { 0u8 }
        } else if i < 69 {
            le_byte(to_unsigned(v.tick_index as int, 4), (i - 65) as nat)
        } else if i < 77 {
            le_byte(v.total_amount as nat, (i - 69) as nat)
        } else if i < 85 {
            le_byte(v.transfer_fee as nat, (i - 77) as nat)
        } else {
            0u8
        })
}

proof fn lemma_open_limit_order_event_decodes(e: Seq<u8>, v: RaydiumClmmOpenLimitOrderEvent, w: RaydiumClmmOpenLimitOrderEvent)
    requires
        85 <= e.len(),
        e.subrange(0, 85) == open_limit_order_event_bytes(v),
        open_limit_order_decoded(w, e, v.metadata),
    ensures
        w == v,
{
    let s = open_limit_order_event_bytes(v);
    lemma_pow256_values();
    lemma_bytes_field(e, 0, s, 0, v.pool_id@);
    lemma_pubkey_view_eq(w.pool_id, v.pool_id);
    lemma_bytes_field(e, 0, s, 32, v.limit_order@);
    lemma_pubkey_view_eq(w.limit_order, v.limit_order);
    lemma_byte_field(e, 0, s, 64, if v.zero_for_one { 1u8 } else { 0u8 });
    lemma_to_unsigned(v.tick_index as int, 4);
    lemma_num_field(e, 0, s, 65, 4, to_unsigned(v.tick_index as int, 4));
    lemma_num_field(e, 0, s, 69, 8, v.total_amount as nat);
    lemma_num_field(e, 0, s, 77, 8, v.transfer_fee as nat);

}

/// The on-chain encoding of a Raydium CLMM `IncreaseLimitOrder` event body.
pub open spec fn increase_limit_order_event_bytes(v: RaydiumClmmIncreaseLimitOrderEvent) -> Seq<u8> {
    Seq::new(93nat, |i: int|
        if i < 32 {
            v.pool_id@[i - 0]
        } else if i < 64 {
            v.limit_order@[i - 32]
        } else if i < 65 {
            if v.zero_for_one { 1u8 } else { 0u8 }
        } else if i < 69 {
            le_byte(to_unsigned(v.tick_index as int, 4), (i - 65) as nat)
        } else if i < 77 {
            le_byte(v.total_amount as nat, (i - 69) as nat)
        } else if i < 85 {
            le_byte(v.increased_amount as nat, (i - 77) as nat)
        } else if i < 93 {
            le_byte(v.transfer_fee as nat, (i - 85) as nat)
        } else {
            0u8
        })
}

proof fn lemma_increase_limit_order_event_decodes(e: Seq<u8>, v: RaydiumClmmIncreaseLimitOrderEvent, w: RaydiumClmmIncreaseLimitOrderEvent)
    requires
        93 <= e.len(),
        e.subrange(0, 93) == increase_limit_order_event_bytes(v),
        increase_limit_order_decoded(w, e, v.metadata),
    ensures
        w == v,
{
    let s = increase_limit_order_event_bytes(v);
    lemma_pow256_values();
    lemma_bytes_field(e, 0, s, 0, v.pool_id@);
    lemma_pubkey_view_eq(w.pool_id, v.pool_id);
    lemma_bytes_field(e, 0, s, 32, v.limit_order@);
    lemma_pubkey_view_eq(w.limit_order, v.limit_order);
    lemma_byte_field(e, 0, s, 64, if v.zero_for_one { 1u8 } else { 0u8 });
    lemma_to_unsigned(v.tick_index as int, 4);
    lemma_num_field(e, 0, s, 65, 4, to_unsigned(v.tick_index as int, 4));
    lemma_num_field(e, 0, s, 69, 8, v.total_amount as nat);
    lemma_num_field(e, 0, s, 77, 8, v.increased_amount as nat);
    lemma_num_field(e, 0, s, 85, 8, v.transfer_fee as nat);

}

/// The on-chain encoding of a Raydium CLMM `DecreaseLimitOrder` event body.
pub open spec fn decrease_limit_order_event_bytes(v: RaydiumClmmDecreaseLimitOrderEvent) -> Seq<u8> {
    Seq::new(101nat, |i: int|
        if i < 32 {
            v.pool_id@[i - 0]
        } else if i < 64 {
            v.limit_order@[i - 32]
        } else if i < 65 {
            if v.zero_for_one { 1u8 } else { 0u8 }
        } else if i < 69 {
            le_byte(to_unsigned(v.tick_index as int, 4), (i - 65) as nat)
        } else if i < 77 {
            le_byte(v.total_amount as nat, (i - 69) as nat)
        } else if i < 85 {
            le_byte(v.filled_amount as nat, (i - 77) as nat)
        } else if i < 93 {
            le_byte(v.settled_output_amount as nat, (i - 85) as nat)
        } else if i < 101 {
            le_byte(v.decreased_amount as nat, (i - 93) as nat)
        } else {
            0u8
        })
}

proof fn lemma_decrease_limit_order_event_decodes(e: Seq<u8>, v: RaydiumClmmDecreaseLimitOrderEvent, w: RaydiumClmmDecreaseLimitOrderEvent)
    requires
        101 <= e.len(),
        e.subrange(0, 101) == decrease_limit_order_event_bytes(v),
        decrease_limit_order_decoded(w, e, v.metadata),
    ensures
        w == v,
{
    let s = decrease_limit_order_event_bytes(v);
    lemma_pow256_values();
    lemma_bytes_field(e, 0, s, 0, v.pool_id@);
    lemma_pubkey_view_eq(w.pool_id, v.pool_id);
    lemma_bytes_field(e, 0, s, 32, v.limit_order@);
    lemma_pubkey_view_eq(w.limit_order, v.limit_order);
    lemma_byte_field(e, 0, s, 64, if v.zero_for_one { 1u8 } else { 0u8 });
    lemma_to_unsigned(v.tick_index as int, 4);
    lemma_num_field(e, 0, s, 65, 4, to_unsigned(v.tick_index as int, 4));
    lemma_num_field(e, 0, s, 69, 8, v.total_amount as nat);
    lemma_num_field(e, 0, s, 77, 8, v.filled_amount as nat);
    lemma_num_field(e, 0, s, 85, 8, v.settled_output_amount as nat);
    lemma_num_field(e, 0, s, 93, 8, v.decreased_amount as nat);

}

/// The on-chain encoding of a Raydium CLMM `SettleLimitOrder` event body.
pub open spec fn settle_limit_order_event_bytes(v: RaydiumClmmSettleLimitOrderEvent) -> Seq<u8> {
    Seq::new(93nat, |i: int|
        if i < 32 {
            v.pool_id@[i - 0]
        } else if i < 64 {
            v.limit_order@[i - 32]
        } else if i < 65 {
            if v.zero_for_one { 1u8 } else { 0u8 }
        } else if i < 69 {
            le_byte(to_unsigned(v.tick_index as int, 4), (i - 65) as nat)
        } else if i < 77 {
            le_byte(v.total_amount as nat, (i - 69) as nat)
        } else if i < 85 {
            le_byte(v.filled_amount as nat, (i - 77) as nat)
        } else if i < 93 {
            le_byte(v.settled_amount_out as nat, (i - 85) as nat)
        } else {
            0u8
        })
}

proof fn lemma_settle_limit_order_event_decodes(e: Seq<u8>, v: RaydiumClmmSettleLimitOrderEvent, w: RaydiumClmmSettleLimitOrderEvent)
    requires
        93 <= e.len(),
        e.subrange(0, 93) == settle_limit_order_event_bytes(v),
        settle_limit_order_decoded(w, e, v.metadata),
    ensures
        w == v,
{
    let s = settle_limit_order_event_bytes(v);
    lemma_pow256_values();
    lemma_bytes_field(e, 0, s, 0, v.pool_id@);
    lemma_pubkey_view_eq(w.pool_id, v.pool_id);
    lemma_bytes_field(e, 0, s, 32, v.limit_order@);
    lemma_pubkey_view_eq(w.limit_order, v.limit_order);
    lemma_byte_field(e, 0, s, 64, if v.zero_for_one { 1u8 } else { 0u8 });
    lemma_to_unsigned(v.tick_index as int, 4);
    lemma_num_field(e, 0, s, 65, 4, to_unsigned(v.tick_index as int, 4));
    lemma_num_field(e, 0, s, 69, 8, v.total_amount as nat);
    lemma_num_field(e, 0, s, 77, 8, v.filled_amount as nat);
    lemma_num_field(e, 0, s, 85, 8, v.settled_amount_out as nat);

}

/// The on-chain encoding of a Raydium CLMM `UpdateRewardInfos` event body.
pub open spec fn update_reward_infos_event_bytes(v: RaydiumClmmUpdateRewardInfosEvent) -> Seq<u8> {
    Seq::new(48nat, |i: int|
        if i < 48 {
            le_byte(u128s(v.reward_growth_global_x64@)[(i - 0) / 16] as nat, ((i - 0) % 16) as nat)
        } else {
            0u8
        })
}

proof fn lemma_update_reward_infos_event_decodes(e: Seq<u8>, v: RaydiumClmmUpdateRewardInfosEvent, w: RaydiumClmmUpdateRewardInfosEvent)
    requires
        48 <= e.len(),
        e.subrange(0, 48) == update_reward_infos_event_bytes(v),
        update_reward_infos_decoded(w, e, v.metadata),
    ensures
        w == v,
{
    let s = update_reward_infos_event_bytes(v);
    lemma_pow256_values();
    lemma_run_field(e, 0, s, 0, 16, u128s(v.reward_growth_global_x64@));
    lemma_u128_array_eq(w.reward_growth_global_x64, v.reward_growth_global_x64, e, 0);

}

/// The on-chain encoding of a Raydium CLMM `CreatePool` event body.
pub open spec fn create_pool_event_bytes(v: RaydiumClmmCreatePoolEvent) -> Seq<u8> {
    Seq::new(182nat, |i: int|
        if i < 32 {
            v.token_0_mint@[i - 0]
        } else if i < 64 {
            v.token_1_mint@[i - 32]
        } else if i < 66 {
            le_byte(v.tick_spacing as nat, (i - 64) as nat)
        } else if i < 98 {
            v.pool@[i - 66]
        } else if i < 114 {
            le_byte(v.sqrt_price_x64 as nat, (i - 98) as nat)
        } else if i < 118 {
            le_byte(to_unsigned(v.tick as int, 4), (i - 114) as nat)
        } else if i < 150 {
            v.token_vault_0@[i - 118]
        } else if i < 182 {
            v.token_vault_1@[i - 150]
        } else {
            0u8
        })
}

proof fn lemma_create_pool_event_decodes(e: Seq<u8>, v: RaydiumClmmCreatePoolEvent, w: RaydiumClmmCreatePoolEvent)
    requires
        182 <= e.len(),
        e.subrange(0, 182) == create_pool_event_bytes(v),
        create_pool_decoded(w, e, v.metadata),
        v.fee_rate == 0,
        v.creator@ == zero_key(),
        v.open_time == 0,
    ensures
        w == v,
{
    let s = create_pool_event_bytes(v);
    lemma_pow256_values();
    lemma_bytes_field(e, 0, s, 0, v.token_0_mint@);
    lemma_pubkey_view_eq(w.token_0_mint, v.token_0_mint);
    lemma_bytes_field(e, 0, s, 32, v.token_1_mint@);
    lemma_pubkey_view_eq(w.token_1_mint, v.token_1_mint);
    lemma_num_field(e, 0, s, 64, 2, v.tick_spacing as nat);
    lemma_bytes_field(e, 0, s, 66, v.pool@);
    lemma_pubkey_view_eq(w.pool, v.pool);
    lemma_num_field(e, 0, s, 98, 16, v.sqrt_price_x64 as nat);
    lemma_to_unsigned(v.tick as int, 4);
    lemma_num_field(e, 0, s, 114, 4, to_unsigned(v.tick as int, 4));
    lemma_bytes_field(e, 0, s, 118, v.token_vault_0@);
    lemma_pubkey_view_eq(w.token_vault_0, v.token_vault_0);
    lemma_bytes_field(e, 0, s, 150, v.token_vault_1@);
    lemma_pubkey_view_eq(w.token_vault_1, v.token_vault_1);
    lemma_pubkey_view_eq(w.creator, v.creator);
}

/// The on-chain encoding of a Raydium CLMM `CollectPersonalFee` event body.
pub open spec fn collect_personal_fee_event_bytes(v: RaydiumClmmCollectFeeEvent) -> Seq<u8> {
    Seq::new(112nat, |i: int|
        if i < 32 {
            v.position_nft_mint@[i - 0]
        } else if i < 64 {
            v.recipient_token_account_0@[i - 32]
        } else if i < 96 {
            v.recipient_token_account_1@[i - 64]
        } else if i < 104 {
            le_byte(v.amount_0 as nat, (i - 96) as nat)
        } else if i < 112 {
            le_byte(v.amount_1 as nat, (i - 104) as nat)
        } else {
            0u8
        })
}

proof fn lemma_collect_personal_fee_event_decodes(e: Seq<u8>, v: RaydiumClmmCollectFeeEvent, w: RaydiumClmmCollectFeeEvent)
    requires
        112 <= e.len(),
        e.subrange(0, 112) == collect_personal_fee_event_bytes(v),
        collect_personal_fee_decoded(w, e, v.metadata),
        v.pool_state@ == zero_key(),
    ensures
        w == v,
{
    let s = collect_personal_fee_event_bytes(v);
    lemma_pow256_values();
    lemma_bytes_field(e, 0, s, 0, v.position_nft_mint@);
    lemma_pubkey_view_eq(w.position_nft_mint, v.position_nft_mint);
    lemma_bytes_field(e, 0, s, 32, v.recipient_token_account_0@);
    lemma_pubkey_view_eq(w.recipient_token_account_0, v.recipient_token_account_0);
    lemma_bytes_field(e, 0, s, 64, v.recipient_token_account_1@);
    lemma_pubkey_view_eq(w.recipient_token_account_1, v.recipient_token_account_1);
    lemma_num_field(e, 0, s, 96, 8, v.amount_0 as nat);
    lemma_num_field(e, 0, s, 104, 8, v.amount_1 as nat);
    lemma_pubkey_view_eq(w.pool_state, v.pool_state);
}

/// The on-chain encoding of a Raydium CLMM `CollectProtocolFee` event body.
pub open spec fn collect_protocol_fee_event_bytes(v: RaydiumClmmCollectFeeEvent) -> Seq<u8> {
    Seq::new(112nat, |i: int|
        if i < 32 {
            v.pool_state@[i - 0]
        } else if i < 64 {
            v.recipient_token_account_0@[i - 32]
        } else if i < 96 {
            v.recipient_token_account_1@[i - 64]
        } else if i < 104 {
            le_byte(v.amount_0 as nat, (i - 96) as nat)
        } else if i < 112 {
            le_byte(v.amount_1 as nat, (i - 104) as nat)
        } else {
            0u8
        })
}

proof fn lemma_collect_protocol_fee_event_decodes(e: Seq<u8>, v: RaydiumClmmCollectFeeEvent, w: RaydiumClmmCollectFeeEvent)
    requires
        112 <= e.len(),
        e.subrange(0, 112) == collect_protocol_fee_event_bytes(v),
        collect_protocol_fee_decoded(w, e, v.metadata),
        v.position_nft_mint@ == zero_key(),
    ensures
        w == v,
{
    let s = collect_protocol_fee_event_bytes(v);
    lemma_pow256_values();
    lemma_bytes_field(e, 0, s, 0, v.pool_state@);
    lemma_pubkey_view_eq(w.pool_state, v.pool_state);
    lemma_bytes_field(e, 0, s, 32, v.recipient_token_account_0@);
    lemma_pubkey_view_eq(w.recipient_token_account_0, v.recipient_token_account_0);
    lemma_bytes_field(e, 0, s, 64, v.recipient_token_account_1@);
    lemma_pubkey_view_eq(w.recipient_token_account_1, v.recipient_token_account_1);
    lemma_num_field(e, 0, s, 96, 8, v.amount_0 as nat);
    lemma_num_field(e, 0, s, 104, 8, v.amount_1 as nat);
    lemma_pubkey_view_eq(w.position_nft_mint, v.position_nft_mint);
}

/// The on-chain encoding of a pump-fees `UpdateAdmin` event body.
pub open spec fn update_admin_event_bytes(v: PumpFeesUpdateAdminEvent) -> Seq<u8> {
    Seq::new(72nat, |i: int|
        if i < 8 {
            le_byte(to_unsigned(v.timestamp as int, 8), (i - 0) as nat)
        } else if i < 40 {
            v.old_admin@[i - 8]
        } else if i < 72 {
            v.new_admin@[i - 40]
        } else {
            0u8
        })
}

proof fn lemma_update_admin_event_decodes(e: Seq<u8>, v: PumpFeesUpdateAdminEvent, w: PumpFeesUpdateAdminEvent)
    requires
        72 <= e.len(),
        e.subrange(0, 72) == update_admin_event_bytes(v),
        update_admin_decoded(w, e, v.metadata),
    ensures
        w == v,
{
    let s = update_admin_event_bytes(v);
    lemma_pow256_values();
    lemma_to_unsigned(v.timestamp as int, 8);
    lemma_num_field(e, 0, s, 0, 8, to_unsigned(v.timestamp as int, 8));
    lemma_bytes_field(e, 0, s, 8, v.old_admin@);
    lemma_pubkey_view_eq(w.old_admin, v.old_admin);
    lemma_bytes_field(e, 0, s, 40, v.new_admin@);
    lemma_pubkey_view_eq(w.new_admin, v.new_admin);

}

/// A Raydium CLMM `Swap` event, encoded in its on-chain layout behind its
/// discriminator as the program data of a log line, decodes to itself,
/// whatever bytes follow the body.
pub proof fn law_swap_event_roundtrip(ev: RaydiumClmmSwapEvent, extra: Seq<u8>, r: Option<DexEvent>)
    requires
        program_data_result(log_disc::SWAP@ + swap_event_bytes(ev) + extra, ev.metadata, r),
    ensures
        r == Some(DexEvent::RaydiumClmmSwap(ev)),
{
    let body = swap_event_bytes(ev) + extra;
    assert(log_disc::SWAP@ + swap_event_bytes(ev) + extra =~= log_disc::SWAP@ + body);
    assert(body.subrange(0, swap_event_bytes(ev).len() as int) =~= swap_event_bytes(ev));
    law_program_data_splits(log_disc::SWAP@, body, ev.metadata, r);
    assert(clmm_kind_of(log_disc::SWAP@) == Some(EventKind::RaydiumClmmSwap));
    if let Some(DexEvent::RaydiumClmmSwap(w)) = r {
        lemma_swap_event_decodes(body, ev, w);
    }
}

/// A Raydium CLMM `IncreaseLiquidity` event, encoded in its on-chain layout behind its
/// discriminator as the program data of a log line, decodes to itself,
/// whatever bytes follow the body.
pub proof fn law_increase_liquidity_event_roundtrip(ev: RaydiumClmmIncreaseLiquidityEvent, extra: Seq<u8>, r: Option<DexEvent>)
    requires
        program_data_result(log_disc::INCREASE_LIQUIDITY@ + increase_liquidity_event_bytes(ev) + extra, ev.metadata, r),
        ev.pool@ == zero_key(),
        ev.user@ == zero_key(),
        ev.amount0_max == 0,
        ev.amount1_max == 0,
    ensures
        r == Some(DexEvent::RaydiumClmmIncreaseLiquidity(ev)),
{
    let body = increase_liquidity_event_bytes(ev) + extra;
    assert(log_disc::INCREASE_LIQUIDITY@ + increase_liquidity_event_bytes(ev) + extra =~= log_disc::INCREASE_LIQUIDITY@ + body);
    assert(body.subrange(0, increase_liquidity_event_bytes(ev).len() as int) =~= increase_liquidity_event_bytes(ev));
    law_program_data_splits(log_disc::INCREASE_LIQUIDITY@, body, ev.metadata, r);
    assert(clmm_kind_of(log_disc::INCREASE_LIQUIDITY@) == Some(EventKind::RaydiumClmmIncreaseLiquidity));
    if let Some(DexEvent::RaydiumClmmIncreaseLiquidity(w)) = r {
        lemma_increase_liquidity_event_decodes(body, ev, w);
    }
}

/// A Raydium CLMM `DecreaseLiquidity` event, encoded in its on-chain layout behind its
/// discriminator as the program data of a log line, decodes to itself,
/// whatever bytes follow the body.
pub proof fn law_decrease_liquidity_event_roundtrip(ev: RaydiumClmmDecreaseLiquidityEvent, extra: Seq<u8>, r: Option<DexEvent>)
    requires
        program_data_result(log_disc::DECREASE_LIQUIDITY@ + decrease_liquidity_event_bytes(ev) + extra, ev.metadata, r),
        ev.pool@ == zero_key(),
        ev.user@ == zero_key(),
        ev.amount0_min == 0,
        ev.amount1_min == 0,
    ensures
        r == Some(DexEvent::RaydiumClmmDecreaseLiquidity(ev)),
{
    let body = decrease_liquidity_event_bytes(ev) + extra;
    assert(log_disc::DECREASE_LIQUIDITY@ + decrease_liquidity_event_bytes(ev) + extra =~= log_disc::DECREASE_LIQUIDITY@ + body);
    assert(body.subrange(0, decrease_liquidity_event_bytes(ev).len() as int) =~= decrease_liquidity_event_bytes(ev));
    law_program_data_splits(log_disc::DECREASE_LIQUIDITY@, body, ev.metadata, r);
    assert(clmm_kind_of(log_disc::DECREASE_LIQUIDITY@) == Some(EventKind::RaydiumClmmDecreaseLiquidity));
    if let Some(DexEvent::RaydiumClmmDecreaseLiquidity(w)) = r {
        lemma_decrease_liquidity_event_decodes(body, ev, w);
    }
}

/// A Raydium CLMM `LiquidityChange` event, encoded in its on-chain layout behind its
/// discriminator as the program data of a log line, decodes to itself,
/// whatever bytes follow the body.
pub proof fn law_liquidity_change_event_roundtrip(ev: RaydiumClmmLiquidityChangeEvent, extra: Seq<u8>, r: Option<DexEvent>)
    requires
        program_data_result(log_disc::LIQUIDITY_CHANGE@ + liquidity_change_event_bytes(ev) + extra, ev.metadata, r),
    ensures
        r == Some(DexEvent::RaydiumClmmLiquidityChange(ev)),
{
    let body = liquidity_change_event_bytes(ev) + extra;
    assert(log_disc::LIQUIDITY_CHANGE@ + liquidity_change_event_bytes(ev) + extra =~= log_disc::LIQUIDITY_CHANGE@ + body);
    assert(body.subrange(0, liquidity_change_event_bytes(ev).len() as int) =~= liquidity_change_event_bytes(ev));
    law_program_data_splits(log_disc::LIQUIDITY_CHANGE@, body, ev.metadata, r);
    assert(clmm_kind_of(log_disc::LIQUIDITY_CHANGE@) == Some(EventKind::RaydiumClmmLiquidityChange));
    if let Some(DexEvent::RaydiumClmmLiquidityChange(w)) = r {
        lemma_liquidity_change_event_decodes(body, ev, w);
    }
}

/// A Raydium CLMM `ConfigChange` event, encoded in its on-chain layout behind its
/// discriminator as the program data of a log line, decodes to itself,
/// whatever bytes follow the body.
pub proof fn law_config_change_event_roundtrip(ev: RaydiumClmmConfigChangeEvent, extra: Seq<u8>, r: Option<DexEvent>)
    requires
        program_data_result(log_disc::CONFIG_CHANGE@ + config_change_event_bytes(ev) + extra, ev.metadata, r),
    ensures
        r == Some(DexEvent::RaydiumClmmConfigChange(ev)),
{
    let body = config_change_event_bytes(ev) + extra;
    assert(log_disc::CONFIG_CHANGE@ + config_change_event_bytes(ev) + extra =~= log_disc::CONFIG_CHANGE@ + body);
    assert(body.subrange(0, config_change_event_bytes(ev).len() as int) =~= config_change_event_bytes(ev));
    law_program_data_splits(log_disc::CONFIG_CHANGE@, body, ev.metadata, r);
    assert(clmm_kind_of(log_disc::CONFIG_CHANGE@) == Some(EventKind::RaydiumClmmConfigChange));
    if let Some(DexEvent::RaydiumClmmConfigChange(w)) = r {
        lemma_config_change_event_decodes(body, ev, w);
    }
}

/// A Raydium CLMM `CreatePersonalPosition` event, encoded in its on-chain layout behind its
/// discriminator as the program data of a log line, decodes to itself,
/// whatever bytes follow the body.
pub proof fn law_create_personal_position_event_roundtrip(ev: RaydiumClmmCreatePersonalPositionEvent, extra: Seq<u8>, r: Option<DexEvent>)
    requires
        program_data_result(log_disc::CREATE_PERSONAL_POSITION@ + create_personal_position_event_bytes(ev) + extra, ev.metadata, r),
    ensures
        r == Some(DexEvent::RaydiumClmmCreatePersonalPosition(ev)),
{
    let body = create_personal_position_event_bytes(ev) + extra;
    assert(log_disc::CREATE_PERSONAL_POSITION@ + create_personal_position_event_bytes(ev) + extra =~= log_disc::CREATE_PERSONAL_POSITION@ + body);
    assert(body.subrange(0, create_personal_position_event_bytes(ev).len() as int) =~= create_personal_position_event_bytes(ev));
    law_program_data_splits(log_disc::CREATE_PERSONAL_POSITION@, body, ev.metadata, r);
    assert(clmm_kind_of(log_disc::CREATE_PERSONAL_POSITION@) == Some(EventKind::RaydiumClmmCreatePersonalPosition));
    if let Some(DexEvent::RaydiumClmmCreatePersonalPosition(w)) = r {
        lemma_create_personal_position_event_decodes(body, ev, w);
    }
}

/// A Raydium CLMM `LiquidityCalculate` event, encoded in its on-chain layout behind its
/// discriminator as the program data of a log line, decodes to itself,
/// whatever bytes follow the body.
pub proof fn law_liquidity_calculate_event_roundtrip(ev: RaydiumClmmLiquidityCalculateEvent, extra: Seq<u8>, r: Option<DexEvent>)
    requires
        program_data_result(log_disc::LIQUIDITY_CALCULATE@ + liquidity_calculate_event_bytes(ev) + extra, ev.metadata, r),
    ensures
        r == Some(DexEvent::RaydiumClmmLiquidityCalculate(ev)),
{
    let body = liquidity_calculate_event_bytes(ev) + extra;
    assert(log_disc::LIQUIDITY_CALCULATE@ + liquidity_calculate_event_bytes(ev) + extra =~= log_disc::LIQUIDITY_CALCULATE@ + body);
    assert(body.subrange(0, liquidity_calculate_event_bytes(ev).len() as int) =~= liquidity_calculate_event_bytes(ev));
    law_program_data_splits(log_disc::LIQUIDITY_CALCULATE@, body, ev.metadata, r);
    assert(clmm_kind_of(log_disc::LIQUIDITY_CALCULATE@) == Some(EventKind::RaydiumClmmLiquidityCalculate));
    if let Some(DexEvent::RaydiumClmmLiquidityCalculate(w)) = r {
        lemma_liquidity_calculate_event_decodes(body, ev, w);
    }
}

/// A Raydium CLMM `OpenLimitOrder` event, encoded in its on-chain layout behind its
/// discriminator as the program data of a log line, decodes to itself,
/// whatever bytes follow the body.
pub proof fn law_open_limit_order_event_roundtrip(ev: RaydiumClmmOpenLimitOrderEvent, extra: Seq<u8>, r: Option<DexEvent>)
    requires
        program_data_result(log_disc::OPEN_LIMIT_ORDER@ + open_limit_order_event_bytes(ev) + extra, ev.metadata, r),
    ensures
        r == Some(DexEvent::RaydiumClmmOpenLimitOrder(ev)),
{
    let body = open_limit_order_event_bytes(ev) + extra;
    assert(log_disc::OPEN_LIMIT_ORDER@ + open_limit_order_event_bytes(ev) + extra =~= log_disc::OPEN_LIMIT_ORDER@ + body);
    assert(body.subrange(0, open_limit_order_event_bytes(ev).len() as int) =~= open_limit_order_event_bytes(ev));
    law_program_data_splits(log_disc::OPEN_LIMIT_ORDER@, body, ev.metadata, r);
    assert(clmm_kind_of(log_disc::OPEN_LIMIT_ORDER@) == Some(EventKind::RaydiumClmmOpenLimitOrder));
    if let Some(DexEvent::RaydiumClmmOpenLimitOrder(w)) = r {
        lemma_open_limit_order_event_decodes(body, ev, w);
    }
}

/// A Raydium CLMM `IncreaseLimitOrder` event, encoded in its on-chain layout behind its
/// discriminator as the program data of a log line, decodes to itself,
/// whatever bytes follow the body.
pub proof fn law_increase_limit_order_event_roundtrip(ev: RaydiumClmmIncreaseLimitOrderEvent, extra: Seq<u8>, r: Option<DexEvent>)
    requires
        program_data_result(log_disc::INCREASE_LIMIT_ORDER@ + increase_limit_order_event_bytes(ev) + extra, ev.metadata, r),
    ensures
        r == Some(DexEvent::RaydiumClmmIncreaseLimitOrder(ev)),
{
    let body = increase_limit_order_event_bytes(ev) + extra;
    assert(log_disc::INCREASE_LIMIT_ORDER@ + increase_limit_order_event_bytes(ev) + extra =~= log_disc::INCREASE_LIMIT_ORDER@ + body);
    assert(body.subrange(0, increase_limit_order_event_bytes(ev).len() as int) =~= increase_limit_order_event_bytes(ev));
    law_program_data_splits(log_disc::INCREASE_LIMIT_ORDER@, body, ev.metadata, r);
    assert(clmm_kind_of(log_disc::INCREASE_LIMIT_ORDER@) == Some(EventKind::RaydiumClmmIncreaseLimitOrder));
    if let Some(DexEvent::RaydiumClmmIncreaseLimitOrder(w)) = r {
        lemma_increase_limit_order_event_decodes(body, ev, w);
    }
}

/// A Raydium CLMM `DecreaseLimitOrder` event, encoded in its on-chain layout behind its
/// discriminator as the program data of a log line, decodes to itself,
/// whatever bytes follow the body.
pub proof fn law_decrease_limit_order_event_roundtrip(ev: RaydiumClmmDecreaseLimitOrderEvent, extra: Seq<u8>, r: Option<DexEvent>)
    requires
        program_data_result(log_disc::DECREASE_LIMIT_ORDER@ + decrease_limit_order_event_bytes(ev) + extra, ev.metadata, r),
    ensures
        r == Some(DexEvent::RaydiumClmmDecreaseLimitOrder(ev)),
{
    let body = decrease_limit_order_event_bytes(ev) + extra;
    assert(log_disc::DECREASE_LIMIT_ORDER@ + decrease_limit_order_event_bytes(ev) + extra =~= log_disc::DECREASE_LIMIT_ORDER@ + body);
    assert(body.subrange(0, decrease_limit_order_event_bytes(ev).len() as int) =~= decrease_limit_order_event_bytes(ev));
    law_program_data_splits(log_disc::DECREASE_LIMIT_ORDER@, body, ev.metadata, r);
    assert(clmm_kind_of(log_disc::DECREASE_LIMIT_ORDER@) == Some(EventKind::RaydiumClmmDecreaseLimitOrder));
    if let Some(DexEvent::RaydiumClmmDecreaseLimitOrder(w)) = r {
        lemma_decrease_limit_order_event_decodes(body, ev, w);
    }
}

/// A Raydium CLMM `SettleLimitOrder` event, encoded in its on-chain layout behind its
/// discriminator as the program data of a log line, decodes to itself,
/// whatever bytes follow the body.
pub proof fn law_settle_limit_order_event_roundtrip(ev: RaydiumClmmSettleLimitOrderEvent, extra: Seq<u8>, r: Option<DexEvent>)
    requires
        program_data_result(log_disc::SETTLE_LIMIT_ORDER@ + settle_limit_order_event_bytes(ev) + extra, ev.metadata, r),
    ensures
        r == Some(DexEvent::RaydiumClmmSettleLimitOrder(ev)),
{
    let body = settle_limit_order_event_bytes(ev) + extra;
    assert(log_disc::SETTLE_LIMIT_ORDER@ + settle_limit_order_event_bytes(ev) + extra =~= log_disc::SETTLE_LIMIT_ORDER@ + body);
    assert(body.subrange(0, settle_limit_order_event_bytes(ev).len() as int) =~= settle_limit_order_event_bytes(ev));
    law_program_data_splits(log_disc::SETTLE_LIMIT_ORDER@, body, ev.metadata, r);
    assert(clmm_kind_of(log_disc::SETTLE_LIMIT_ORDER@) == Some(EventKind::RaydiumClmmSettleLimitOrder));
    if let Some(DexEvent::RaydiumClmmSettleLimitOrder(w)) = r {
        lemma_settle_limit_order_event_decodes(body, ev, w);
    }
}

/// A Raydium CLMM `UpdateRewardInfos` event, encoded in its on-chain layout behind its
/// discriminator as the program data of a log line, decodes to itself,
/// whatever bytes follow the body.
pub proof fn law_update_reward_infos_event_roundtrip(ev: RaydiumClmmUpdateRewardInfosEvent, extra: Seq<u8>, r: Option<DexEvent>)
    requires
        program_data_result(log_disc::UPDATE_REWARD_INFOS@ + update_reward_infos_event_bytes(ev) + extra, ev.metadata, r),
    ensures
        r == Some(DexEvent::RaydiumClmmUpdateRewardInfos(ev)),
{
    let body = update_reward_infos_event_bytes(ev) + extra;
    assert(log_disc::UPDATE_REWARD_INFOS@ + update_reward_infos_event_bytes(ev) + extra =~= log_disc::UPDATE_REWARD_INFOS@ + body);
    assert(body.subrange(0, update_reward_infos_event_bytes(ev).len() as int) =~= update_reward_infos_event_bytes(ev));
    law_program_data_splits(log_disc::UPDATE_REWARD_INFOS@, body, ev.metadata, r);
    assert(clmm_kind_of(log_disc::UPDATE_REWARD_INFOS@) == Some(EventKind::RaydiumClmmUpdateRewardInfos));
    if let Some(DexEvent::RaydiumClmmUpdateRewardInfos(w)) = r {
        lemma_update_reward_infos_event_decodes(body, ev, w);
    }
}

/// A Raydium CLMM `CreatePool` event, encoded in its on-chain layout behind its
/// discriminator as the program data of a log line, decodes to itself,
/// whatever bytes follow the body.
pub proof fn law_create_pool_event_roundtrip(ev: RaydiumClmmCreatePoolEvent, extra: Seq<u8>, r: Option<DexEvent>)
    requires
        program_data_result(log_disc::CREATE_POOL@ + create_pool_event_bytes(ev) + extra, ev.metadata, r),
        ev.fee_rate == 0,
        ev.creator@ == zero_key(),
        ev.open_time == 0,
    ensures
        r == Some(DexEvent::RaydiumClmmCreatePool(ev)),
{
    let body = create_pool_event_bytes(ev) + extra;
    assert(log_disc::CREATE_POOL@ + create_pool_event_bytes(ev) + extra =~= log_disc::CREATE_POOL@ + body);
    assert(body.subrange(0, create_pool_event_bytes(ev).len() as int) =~= create_pool_event_bytes(ev));
    law_program_data_splits(log_disc::CREATE_POOL@, body, ev.metadata, r);
    assert(clmm_kind_of(log_disc::CREATE_POOL@) == Some(EventKind::RaydiumClmmCreatePool));
    if let Some(DexEvent::RaydiumClmmCreatePool(w)) = r {
        lemma_create_pool_event_decodes(body, ev, w);
    }
}

/// A Raydium CLMM `CollectPersonalFee` event, encoded in its on-chain layout behind its
/// discriminator as the program data of a log line, decodes to itself,
/// whatever bytes follow the body.
pub proof fn law_collect_personal_fee_event_roundtrip(ev: RaydiumClmmCollectFeeEvent, extra: Seq<u8>, r: Option<DexEvent>)
    requires
        program_data_result(log_disc::COLLECT_PERSONAL_FEE@ + collect_personal_fee_event_bytes(ev) + extra, ev.metadata, r),
        ev.pool_state@ == zero_key(),
    ensures
        r == Some(DexEvent::RaydiumClmmCollectFee(ev)),
{
    let body = collect_personal_fee_event_bytes(ev) + extra;
    assert(log_disc::COLLECT_PERSONAL_FEE@ + collect_personal_fee_event_bytes(ev) + extra =~= log_disc::COLLECT_PERSONAL_FEE@ + body);
    assert(body.subrange(0, collect_personal_fee_event_bytes(ev).len() as int) =~= collect_personal_fee_event_bytes(ev));
    law_program_data_splits(log_disc::COLLECT_PERSONAL_FEE@, body, ev.metadata, r);
    assert(clmm_kind_of(log_disc::COLLECT_PERSONAL_FEE@) == Some(EventKind::RaydiumClmmCollectPersonalFee));
    if let Some(DexEvent::RaydiumClmmCollectFee(w)) = r {
        lemma_collect_personal_fee_event_decodes(body, ev, w);
    }
}

/// A Raydium CLMM `CollectProtocolFee` event, encoded in its on-chain layout behind its
/// discriminator as the program data of a log line, decodes to itself,
/// whatever bytes follow the body.
pub proof fn law_collect_protocol_fee_event_roundtrip(ev: RaydiumClmmCollectFeeEvent, extra: Seq<u8>, r: Option<DexEvent>)
    requires
        program_data_result(log_disc::COLLECT_PROTOCOL_FEE@ + collect_protocol_fee_event_bytes(ev) + extra, ev.metadata, r),
        ev.position_nft_mint@ == zero_key(),
    ensures
        r == Some(DexEvent::RaydiumClmmCollectFee(ev)),
{
    let body = collect_protocol_fee_event_bytes(ev) + extra;
    assert(log_disc::COLLECT_PROTOCOL_FEE@ + collect_protocol_fee_event_bytes(ev) + extra =~= log_disc::COLLECT_PROTOCOL_FEE@ + body);
    assert(body.subrange(0, collect_protocol_fee_event_bytes(ev).len() as int) =~= collect_protocol_fee_event_bytes(ev));
    law_program_data_splits(log_disc::COLLECT_PROTOCOL_FEE@, body, ev.metadata, r);
    assert(clmm_kind_of(log_disc::COLLECT_PROTOCOL_FEE@) == Some(EventKind::RaydiumClmmCollectProtocolFee));
    if let Some(DexEvent::RaydiumClmmCollectFee(w)) = r {
        lemma_collect_protocol_fee_event_decodes(body, ev, w);
    }
}

/// A pump-fees `UpdateAdmin` event, encoded in its on-chain layout as the
/// body of an event-CPI inner instruction, decodes to itself, whatever bytes
/// follow the body.
pub proof fn law_update_admin_event_roundtrip(ev: PumpFeesUpdateAdminEvent, extra: Seq<u8>, r: Option<DexEvent>)
    requires
        routed_result(
            pump_fees::inner_kind_of(pump_fees::EVENT_CPI_PREFIX@ + pump_fees::UPDATE_ADMIN_EVENT_DISC@),
            update_admin_event_bytes(ev) + extra,
            ev.metadata,
            r,
        ),
    ensures
        r == Some(DexEvent::PumpFeesUpdateAdmin(ev)),
{
    let body = update_admin_event_bytes(ev) + extra;
    assert(body.subrange(0, 72) =~= update_admin_event_bytes(ev));
    law_pump_fees_layouts_agree(pump_fees::UPDATE_ADMIN_EVENT_DISC@);
    assert(pump_fees::pump_fees_kind_of(pump_fees::UPDATE_ADMIN_EVENT_DISC@) == Some(EventKind::PumpFeesUpdateAdmin));
    if let Some(DexEvent::PumpFeesUpdateAdmin(w)) = r {
        lemma_update_admin_event_decodes(body, ev, w);
    }
}

/// An account whose data is the `AmmConfig` discriminator followed by the
/// on-chain encoding of `v` decodes, through `parse_account`, to `v`, whatever
/// bytes follow the body.
pub proof fn law_amm_config_account_roundtrip(account: AccountData, metadata: EventMetadata, v: RaydiumClmmAmmConfig, extra: Seq<u8>, r: Option<DexEvent>)
    requires
        account.data@ == acct_disc::AMM_CONFIG@ + amm_config_bytes(v) + extra,
        account_result(account, metadata, r),
    ensures
        r == Some(DexEvent::RaydiumClmmAmmConfigAccount((RaydiumClmmAmmConfigAccountEvent { metadata, pubkey: account.pubkey, amm_config: v }))),
{
    let d = account.data@;
    assert(d.subrange(0, 8) =~= acct_disc::AMM_CONFIG@);
    assert(account_body(d) =~= amm_config_bytes(v) + extra);
    assert(account_body(d).subrange(0, amm_config_bytes(v).len() as int) =~= amm_config_bytes(v));
    law_account_types_exclusive(d);
    if let Some(DexEvent::RaydiumClmmAmmConfigAccount(ev)) = r {
        lemma_amm_config_decodes(account_body(d), 0, v, ev.amm_config);
    }
}

/// An account whose data is the `PoolState` discriminator followed by the
/// on-chain encoding of `v` decodes, through `parse_account`, to `v`, whatever
/// bytes follow the body.
pub proof fn law_pool_state_account_roundtrip(account: AccountData, metadata: EventMetadata, v: RaydiumClmmPoolState, extra: Seq<u8>, r: Option<DexEvent>)
    requires
        account.data@ == acct_disc::POOL_STATE@ + pool_state_bytes(v) + extra,
        account_result(account, metadata, r),
    ensures
        r == Some(DexEvent::RaydiumClmmPoolStateAccount((RaydiumClmmPoolStateAccountEvent { metadata, pubkey: account.pubkey, pool_state: v }))),
{
    let d = account.data@;
    assert(d.subrange(0, 8) =~= acct_disc::POOL_STATE@);
    assert(account_body(d) =~= pool_state_bytes(v) + extra);
    assert(account_body(d).subrange(0, pool_state_bytes(v).len() as int) =~= pool_state_bytes(v));
    law_account_types_exclusive(d);
    if let Some(DexEvent::RaydiumClmmPoolStateAccount(ev)) = r {
        lemma_pool_state_decodes(account_body(d), v, ev.pool_state);
    }
}

/// An account whose data is the `TickArrayState` discriminator followed by the
/// on-chain encoding of `v` decodes, through `parse_account`, to `v`, whatever
/// bytes follow the body.
pub proof fn law_tick_array_account_roundtrip(account: AccountData, metadata: EventMetadata, v: RaydiumClmmTickArrayState, extra: Seq<u8>, r: Option<DexEvent>)
    requires
        account.data@ == acct_disc::TICK_ARRAY_STATE@ + tick_array_bytes(v) + extra,
        v.ticks@.len() == 60,
        account_result(account, metadata, r),
    ensures
        r matches Some(DexEvent::RaydiumClmmTickArrayStateAccount(ev)) && ev.metadata == metadata && ev.pubkey == account.pubkey
            && same_tick_array(ev.tick_array_state, v),
{
    let d = account.data@;
    assert(d.subrange(0, 8) =~= acct_disc::TICK_ARRAY_STATE@);
    assert(account_body(d) =~= tick_array_bytes(v) + extra);
    assert(account_body(d).subrange(0, tick_array_bytes(v).len() as int) =~= tick_array_bytes(v));
    law_account_types_exclusive(d);
    if let Some(DexEvent::RaydiumClmmTickArrayStateAccount(ev)) = r {
        lemma_tick_array_decodes(account_body(d), v, ev.tick_array_state);
    }
}

} // verus!
