//! Raydium CLMM account decoding: `AmmConfig`, `PoolState` and
//! `TickArrayState`. Each account starts with an 8-byte discriminator that
//! names its type; the body follows.

use crate::bytes::{
    le_at, le_run_at, read_i128_at, read_i32_at, read_pubkey_at, read_u128_array, read_u128_at,
    read_u16_at, read_u32_array, read_u32_at, read_u64_array, read_u64_at, read_u8_array,
    read_u8_at, starts_with, to_signed, u128s, u32s, u64s,
};
use crate::events::{
    DexEvent, RaydiumClmmAmmConfig, RaydiumClmmAmmConfigAccountEvent, RaydiumClmmDynamicFeeInfo,
    RaydiumClmmPoolState, RaydiumClmmPoolStateAccountEvent, RaydiumClmmRewardInfo,
    RaydiumClmmTickArrayState, RaydiumClmmTickArrayStateAccountEvent, Tick,
};
use crate::types::{AccountData, EventMetadata};
use vstd::prelude::*;

pub mod discriminators;

verus! {

/// Body size of an `AmmConfig` account.
pub const AMM_CONFIG_SIZE: usize = 109;

/// Body size of a `PoolState` account.
pub const POOL_STATE_SIZE: usize = 1536;

/// Body size of a `TickArrayState` account.
pub const TICK_ARRAY_STATE_SIZE: usize = 10232;

/// Ticks in a tick array.
pub const TICK_ARRAY_LEN: usize = 60;

/// Encoded size of one tick.
pub const TICK_SIZE: usize = 168;

/// `data` starts with the discriminator `disc`.
pub open spec fn has_discriminator_spec(data: Seq<u8>, disc: Seq<u8>) -> bool {
    disc.len() <= data.len() && data.subrange(0, disc.len() as int) == disc
}

/// Whether `data` starts with the discriminator `disc`.
pub fn has_discriminator(data: &[u8], disc: &[u8]) -> (r: bool)
    ensures
        r == has_discriminator_spec(data@, disc@),
{
    starts_with(data, disc)
}

pub fn is_amm_config_account(data: &[u8]) -> (r: bool)
    ensures
        r == has_discriminator_spec(data@, discriminators::AMM_CONFIG@),
{
    has_discriminator(data, &discriminators::AMM_CONFIG)
}

pub fn is_pool_state_account(data: &[u8]) -> (r: bool)
    ensures
        r == has_discriminator_spec(data@, discriminators::POOL_STATE@),
{
    has_discriminator(data, &discriminators::POOL_STATE)
}

pub fn is_tick_array_state_account(data: &[u8]) -> (r: bool)
    ensures
        r == has_discriminator_spec(data@, discriminators::TICK_ARRAY_STATE@),
{
    has_discriminator(data, &discriminators::TICK_ARRAY_STATE)
}

/// The account body: the bytes after the discriminator.
pub open spec fn account_body(data: Seq<u8>) -> Seq<u8> {
    data.subrange(8, data.len() as int)
}

/// `v` is the `AmmConfig` body laid out in `d` at `o`.
pub open spec fn amm_config_decoded(v: RaydiumClmmAmmConfig, d: Seq<u8>, o: int) -> bool {
    &&& v.bump == d[o]
    &&& v.index == le_at(d, o + 1, 2)
    &&& v.owner@ == d.subrange(o + 3, o + 35)
    &&& v.protocol_fee_rate == le_at(d, o + 35, 4)
    &&& v.trade_fee_rate == le_at(d, o + 39, 4)
    &&& v.tick_spacing == le_at(d, o + 43, 2)
    &&& v.fund_fee_rate == le_at(d, o + 45, 4)
    &&& v.padding_u32 == le_at(d, o + 49, 4)
    &&& v.fund_owner@ == d.subrange(o + 53, o + 85)
    &&& le_run_at(u64s(v.padding@), d, o + 85, 8)
}

/// `v` is the reward info laid out in `d` at `o`.
pub open spec fn reward_info_decoded(v: RaydiumClmmRewardInfo, d: Seq<u8>, o: int) -> bool {
    &&& v.reward_state == d[o]
    &&& v.open_time == le_at(d, o + 1, 8)
    &&& v.end_time == le_at(d, o + 9, 8)
    &&& v.last_update_time == le_at(d, o + 17, 8)
    &&& v.emissions_per_second_x64 == le_at(d, o + 25, 16)
    &&& v.reward_total_emitted == le_at(d, o + 41, 8)
    &&& v.reward_claimed == le_at(d, o + 49, 8)
    &&& v.token_mint@ == d.subrange(o + 57, o + 89)
    &&& v.token_vault@ == d.subrange(o + 89, o + 121)
    &&& v.authority@ == d.subrange(o + 121, o + 153)
    &&& v.reward_growth_global_x64 == le_at(d, o + 153, 16)
}

/// `v` is the dynamic-fee info laid out in `d` at `o`.
pub open spec fn dynamic_fee_info_decoded(v: RaydiumClmmDynamicFeeInfo, d: Seq<u8>, o: int) -> bool {
    &&& v.filter_period == le_at(d, o, 2)
    &&& v.decay_period == le_at(d, o + 2, 2)
    &&& v.reduction_factor == le_at(d, o + 4, 2)
    &&& v.dynamic_fee_control == le_at(d, o + 6, 4)
    &&& v.max_volatility_accumulator == le_at(d, o + 10, 4)
    &&& v.tick_spacing_index_reference == to_signed(le_at(d, o + 14, 4), 4)
    &&& v.volatility_reference == le_at(d, o + 18, 4)
    &&& v.volatility_accumulator == le_at(d, o + 22, 4)
    &&& v.last_update_timestamp == le_at(d, o + 26, 8)
    &&& v.padding@ == d.subrange(o + 34, o + 80)
}

/// `v` is the tick laid out in `d` at `o`.
pub open spec fn tick_decoded(v: Tick, d: Seq<u8>, o: int) -> bool {
    &&& v.tick == to_signed(le_at(d, o, 4), 4)
    &&& v.liquidity_net == to_signed(le_at(d, o + 4, 16), 16)
    &&& v.liquidity_gross == le_at(d, o + 20, 16)
    &&& v.fee_growth_outside_0_x64 == le_at(d, o + 36, 16)
    &&& v.fee_growth_outside_1_x64 == le_at(d, o + 52, 16)
    &&& le_run_at(u128s(v.reward_growths_outside_x64@), d, o + 68, 16)
    &&& v.order_phase == le_at(d, o + 116, 8)
    &&& v.orders_amount == le_at(d, o + 124, 8)
    &&& v.part_filled_orders_remaining == le_at(d, o + 132, 8)
    &&& v.unfilled_ratio_x64 == le_at(d, o + 140, 16)
    &&& le_run_at(u32s(v.padding@), d, o + 156, 4)
}

/// `v` is the `PoolState` body laid out at the start of `d`.
pub open spec fn pool_state_decoded(v: RaydiumClmmPoolState, d: Seq<u8>) -> bool {
    &&& v.bump@ == d.subrange(0, 1)
    &&& v.amm_config@ == d.subrange(1, 33)
    &&& v.owner@ == d.subrange(33, 65)
    &&& v.token_mint_0@ == d.subrange(65, 97)
    &&& v.token_mint_1@ == d.subrange(97, 129)
    &&& v.token_vault_0@ == d.subrange(129, 161)
    &&& v.token_vault_1@ == d.subrange(161, 193)
    &&& v.observation_key@ == d.subrange(193, 225)
    &&& v.mint_decimals_0 == d[225]
    &&& v.mint_decimals_1 == d[226]
    &&& v.tick_spacing == le_at(d, 227, 2)
    &&& v.liquidity == le_at(d, 229, 16)
    &&& v.sqrt_price_x64 == le_at(d, 245, 16)
    &&& v.tick_current == to_signed(le_at(d, 261, 4), 4)
    &&& v.padding3 == le_at(d, 265, 2)
    &&& v.padding4 == le_at(d, 267, 2)
    &&& v.fee_growth_global_0_x64 == le_at(d, 269, 16)
    &&& v.fee_growth_global_1_x64 == le_at(d, 285, 16)
    &&& v.protocol_fees_token_0 == le_at(d, 301, 8)
    &&& v.protocol_fees_token_1 == le_at(d, 309, 8)
    &&& le_run_at(u128s(v.padding5@), d, 317, 16)
    &&& v.status == d[381]
    &&& v.fee_on == d[382]
    &&& v.padding@ == d.subrange(383, 389)
    &&& reward_info_decoded(v.reward_infos[0], d, 389)
    &&& reward_info_decoded(v.reward_infos[1], d, 558)
    &&& reward_info_decoded(v.reward_infos[2], d, 727)
    &&& le_run_at(u64s(v.tick_array_bitmap@), d, 896, 8)
    &&& le_run_at(u64s(v.padding6@), d, 1024, 8)
    &&& v.fund_fees_token_0 == le_at(d, 1056, 8)
    &&& v.fund_fees_token_1 == le_at(d, 1064, 8)
    &&& v.open_time == le_at(d, 1072, 8)
    &&& v.recent_epoch == le_at(d, 1080, 8)
    &&& dynamic_fee_info_decoded(v.dynamic_fee_info, d, 1088)
    &&& le_run_at(u64s(v.padding1@), d, 1168, 8)
    &&& le_run_at(u64s(v.padding2@), d, 1280, 8)
}

/// Reads one reward info at the cursor.
fn parse_reward_info(data: &[u8], offset: &mut usize) -> (r: Option<RaydiumClmmRewardInfo>)
    ensures
        r is Some <==> *old(offset) + 169 <= data.len(),
        r matches Some(v) ==> reward_info_decoded(v, data@, *old(offset) as int) && *final(offset) == *old(offset) + 169,
        r is None ==> *final(offset) == *old(offset),
{
    if *offset > data.len() || data.len() - *offset < 169 {
        return None;
    }
    let reward_state = read_u8_at(data, offset)?;
    let open_time = read_u64_at(data, offset)?;
    let end_time = read_u64_at(data, offset)?;
    let last_update_time = read_u64_at(data, offset)?;
    let emissions_per_second_x64 = read_u128_at(data, offset)?;
    let reward_total_emitted = read_u64_at(data, offset)?;
    let reward_claimed = read_u64_at(data, offset)?;
    let token_mint = read_pubkey_at(data, offset)?;
    let token_vault = read_pubkey_at(data, offset)?;
    let authority = read_pubkey_at(data, offset)?;
    let reward_growth_global_x64 = read_u128_at(data, offset)?;
    Some(RaydiumClmmRewardInfo {
        reward_state,
        open_time,
        end_time,
        last_update_time,
        emissions_per_second_x64,
        reward_total_emitted,
        reward_claimed,
        token_mint,
        token_vault,
        authority,
        reward_growth_global_x64,
    })
}

/// Reads the dynamic-fee info at the cursor.
fn parse_dynamic_fee_info(data: &[u8], offset: &mut usize) -> (r: Option<RaydiumClmmDynamicFeeInfo>)
    ensures
        r is Some <==> *old(offset) + 80 <= data.len(),
        r matches Some(v) ==> dynamic_fee_info_decoded(v, data@, *old(offset) as int) && *final(offset) == *old(offset) + 80,
        r is None ==> *final(offset) == *old(offset),
{
    if *offset > data.len() || data.len() - *offset < 80 {
        return None;
    }
    let filter_period = read_u16_at(data, offset)?;
    let decay_period = read_u16_at(data, offset)?;
    let reduction_factor = read_u16_at(data, offset)?;
    let dynamic_fee_control = read_u32_at(data, offset)?;
    let max_volatility_accumulator = read_u32_at(data, offset)?;
    let tick_spacing_index_reference = read_i32_at(data, offset)?;
    let volatility_reference = read_u32_at(data, offset)?;
    let volatility_accumulator = read_u32_at(data, offset)?;
    let last_update_timestamp = read_u64_at(data, offset)?;
    let padding = read_u8_array::<46>(data, offset)?;
    Some(RaydiumClmmDynamicFeeInfo {
        filter_period,
        decay_period,
        reduction_factor,
        dynamic_fee_control,
        max_volatility_accumulator,
        tick_spacing_index_reference,
        volatility_reference,
        volatility_accumulator,
        last_update_timestamp,
        padding,
    })
}

/// Reads one tick at the cursor.
fn parse_tick(data: &[u8], offset: &mut usize) -> (r: Option<Tick>)
    ensures
        r is Some <==> *old(offset) + 168 <= data.len(),
        r matches Some(v) ==> tick_decoded(v, data@, *old(offset) as int) && *final(offset) == *old(offset) + 168,
        r is None ==> *final(offset) == *old(offset),
{
    if *offset > data.len() || data.len() - *offset < 168 {
        return None;
    }
    let tick = read_i32_at(data, offset)?;
    let liquidity_net = read_i128_at(data, offset)?;
    let liquidity_gross = read_u128_at(data, offset)?;
    let fee_growth_outside_0_x64 = read_u128_at(data, offset)?;
    let fee_growth_outside_1_x64 = read_u128_at(data, offset)?;
    let reward_growths_outside_x64 = read_u128_array::<3>(data, offset)?;
    let order_phase = read_u64_at(data, offset)?;
    let orders_amount = read_u64_at(data, offset)?;
    let part_filled_orders_remaining = read_u64_at(data, offset)?;
    let unfilled_ratio_x64 = read_u128_at(data, offset)?;
    let padding = read_u32_array::<3>(data, offset)?;
    Some(Tick {
        tick,
        liquidity_net,
        liquidity_gross,
        fee_growth_outside_0_x64,
        fee_growth_outside_1_x64,
        reward_growths_outside_x64,
        order_phase,
        orders_amount,
        part_filled_orders_remaining,
        unfilled_ratio_x64,
        padding,
    })
}

/// Reads an `AmmConfig` body at the cursor.
fn parse_amm_config_body(data: &[u8], offset: &mut usize) -> (r: Option<RaydiumClmmAmmConfig>)
    ensures
        r is Some <==> *old(offset) + AMM_CONFIG_SIZE <= data.len(),
        r matches Some(v) ==> amm_config_decoded(v, data@, *old(offset) as int) && *final(offset) == *old(offset) + AMM_CONFIG_SIZE,
        r is None ==> *final(offset) == *old(offset),
{
    if *offset > data.len() || data.len() - *offset < AMM_CONFIG_SIZE {
        return None;
    }
    let bump = read_u8_at(data, offset)?;
    let index = read_u16_at(data, offset)?;
    let owner = read_pubkey_at(data, offset)?;
    let protocol_fee_rate = read_u32_at(data, offset)?;
    let trade_fee_rate = read_u32_at(data, offset)?;
    let tick_spacing = read_u16_at(data, offset)?;
    let fund_fee_rate = read_u32_at(data, offset)?;
    let padding_u32 = read_u32_at(data, offset)?;
    let fund_owner = read_pubkey_at(data, offset)?;
    let padding = read_u64_array::<3>(data, offset)?;
    Some(RaydiumClmmAmmConfig {
        bump,
        index,
        owner,
        protocol_fee_rate,
        trade_fee_rate,
        tick_spacing,
        fund_fee_rate,
        padding_u32,
        fund_owner,
        padding,
    })
}

/// Reads a `PoolState` body at the cursor.
#[verifier::rlimit(50)]
fn parse_pool_state_body(data: &[u8], offset: &mut usize) -> (r: Option<RaydiumClmmPoolState>)
    requires
        *old(offset) == 0,
    ensures
        r is Some <==> POOL_STATE_SIZE <= data.len(),
        r matches Some(v) ==> pool_state_decoded(v, data@) && *final(offset) == POOL_STATE_SIZE,
        r is None ==> *final(offset) == 0,
{
    if data.len() < POOL_STATE_SIZE {
        return None;
    }
    let bump = read_u8_array::<1>(data, offset)?;
    let amm_config = read_pubkey_at(data, offset)?;
    let owner = read_pubkey_at(data, offset)?;
    let token_mint_0 = read_pubkey_at(data, offset)?;
    let token_mint_1 = read_pubkey_at(data, offset)?;
    let token_vault_0 = read_pubkey_at(data, offset)?;
    let token_vault_1 = read_pubkey_at(data, offset)?;
    let observation_key = read_pubkey_at(data, offset)?;
    let mint_decimals_0 = read_u8_at(data, offset)?;
    let mint_decimals_1 = read_u8_at(data, offset)?;
    let tick_spacing = read_u16_at(data, offset)?;
    let liquidity = read_u128_at(data, offset)?;
    let sqrt_price_x64 = read_u128_at(data, offset)?;
    let tick_current = read_i32_at(data, offset)?;
    let padding3 = read_u16_at(data, offset)?;
    let padding4 = read_u16_at(data, offset)?;
    let fee_growth_global_0_x64 = read_u128_at(data, offset)?;
    let fee_growth_global_1_x64 = read_u128_at(data, offset)?;
    let protocol_fees_token_0 = read_u64_at(data, offset)?;
    let protocol_fees_token_1 = read_u64_at(data, offset)?;
    let padding5 = read_u128_array::<4>(data, offset)?;
    let status = read_u8_at(data, offset)?;
    let fee_on = read_u8_at(data, offset)?;
    let padding = read_u8_array::<6>(data, offset)?;
    let reward_infos_0 = parse_reward_info(data, offset)?;
    let reward_infos_1 = parse_reward_info(data, offset)?;
    let reward_infos_2 = parse_reward_info(data, offset)?;
    let tick_array_bitmap = read_u64_array::<16>(data, offset)?;
    let padding6 = read_u64_array::<4>(data, offset)?;
    let fund_fees_token_0 = read_u64_at(data, offset)?;
    let fund_fees_token_1 = read_u64_at(data, offset)?;
    let open_time = read_u64_at(data, offset)?;
    let recent_epoch = read_u64_at(data, offset)?;
    let dynamic_fee_info = parse_dynamic_fee_info(data, offset)?;
    let padding1 = read_u64_array::<14>(data, offset)?;
    let padding2 = read_u64_array::<32>(data, offset)?;
    Some(RaydiumClmmPoolState {
        bump,
        amm_config,
        owner,
        token_mint_0,
        token_mint_1,
        token_vault_0,
        token_vault_1,
        observation_key,
        mint_decimals_0,
        mint_decimals_1,
        tick_spacing,
        liquidity,
        sqrt_price_x64,
        tick_current,
        padding3,
        padding4,
        fee_growth_global_0_x64,
        fee_growth_global_1_x64,
        protocol_fees_token_0,
        protocol_fees_token_1,
        padding5,
        status,
        fee_on,
        padding,
        reward_infos: [reward_infos_0, reward_infos_1, reward_infos_2],
        tick_array_bitmap,
        padding6,
        fund_fees_token_0,
        fund_fees_token_1,
        open_time,
        recent_epoch,
        dynamic_fee_info,
        padding1,
        padding2,
    })
}

/// What decoding `account` as an `AmmConfig` yields: an event exactly when
/// the data holds the discriminator and a full body.
pub open spec fn amm_config_account_result(account: AccountData, metadata: EventMetadata, r: Option<DexEvent>) -> bool {
    &&& (r is Some <==> account.data@.len() >= 8 + AMM_CONFIG_SIZE
        && has_discriminator_spec(account.data@, discriminators::AMM_CONFIG@))
    &&& (r matches Some(ev) ==> ev matches DexEvent::RaydiumClmmAmmConfigAccount(e)
        && e.metadata == metadata && e.pubkey == account.pubkey
        && amm_config_decoded(e.amm_config, account_body(account.data@), 0))
}

/// What decoding `account` as a `PoolState` yields.
pub open spec fn pool_state_account_result(account: AccountData, metadata: EventMetadata, r: Option<DexEvent>) -> bool {
    &&& (r is Some <==> account.data@.len() >= 8 + POOL_STATE_SIZE
        && has_discriminator_spec(account.data@, discriminators::POOL_STATE@))
    &&& (r matches Some(ev) ==> ev matches DexEvent::RaydiumClmmPoolStateAccount(e)
        && e.metadata == metadata && e.pubkey == account.pubkey
        && pool_state_decoded(e.pool_state, account_body(account.data@)))
}

/// `v` is the `TickArrayState` body laid out at the start of `d`.
pub open spec fn tick_array_decoded(v: RaydiumClmmTickArrayState, d: Seq<u8>) -> bool {
    &&& v.pool_id@ == d.subrange(0, 32)
    &&& v.start_tick_index == to_signed(le_at(d, 32, 4), 4)
    &&& v.ticks@.len() == TICK_ARRAY_LEN
    &&& forall|i: int| 0 <= i < TICK_ARRAY_LEN ==> tick_decoded(#[trigger] v.ticks@[i], d, 36 + TICK_SIZE * i)
    &&& v.initialized_tick_count == d[10116]
    &&& v.recent_epoch == le_at(d, 10117, 8)
    &&& v.padding@ == d.subrange(10125, 10232)
}

/// What decoding `account` as a `TickArrayState` yields.
pub open spec fn tick_array_account_result(account: AccountData, metadata: EventMetadata, r: Option<DexEvent>) -> bool {
    &&& (r is Some <==> account.data@.len() >= 8 + TICK_ARRAY_STATE_SIZE
        && has_discriminator_spec(account.data@, discriminators::TICK_ARRAY_STATE@))
    &&& (r matches Some(ev) ==> ev matches DexEvent::RaydiumClmmTickArrayStateAccount(e)
        && e.metadata == metadata && e.pubkey == account.pubkey
        && tick_array_decoded(e.tick_array_state, account_body(account.data@)))
}

pub fn parse_amm_config(account: &AccountData, metadata: EventMetadata) -> (r: Option<DexEvent>)
    ensures
        amm_config_account_result(*account, metadata, r),
{
    if account.data.len() < 8 + AMM_CONFIG_SIZE || !has_discriminator(account.data.as_slice(), &discriminators::AMM_CONFIG) {
        return None;
    }
    let data = vstd::slice::slice_subrange(account.data.as_slice(), 8, account.data.len());
    let mut offset: usize = 0;
    let amm_config = parse_amm_config_body(data, &mut offset)?;
    Some(DexEvent::RaydiumClmmAmmConfigAccount(RaydiumClmmAmmConfigAccountEvent {
        metadata,
        pubkey: account.pubkey,
        amm_config,
    }))
}

pub fn parse_pool_state(account: &AccountData, metadata: EventMetadata) -> (r: Option<DexEvent>)
    ensures
        pool_state_account_result(*account, metadata, r),
{
    if account.data.len() < 8 + POOL_STATE_SIZE || !has_discriminator(account.data.as_slice(), &discriminators::POOL_STATE) {
        return None;
    }
    let data = vstd::slice::slice_subrange(account.data.as_slice(), 8, account.data.len());
    let mut offset: usize = 0;
    let pool_state = parse_pool_state_body(data, &mut offset)?;
    Some(DexEvent::RaydiumClmmPoolStateAccount(RaydiumClmmPoolStateAccountEvent {
        metadata,
        pubkey: account.pubkey,
        pool_state,
    }))
}

pub fn parse_tick_array_state(account: &AccountData, metadata: EventMetadata) -> (r: Option<DexEvent>)
    ensures
        tick_array_account_result(*account, metadata, r),
{
    if account.data.len() < 8 + TICK_ARRAY_STATE_SIZE || !has_discriminator(account.data.as_slice(), &discriminators::TICK_ARRAY_STATE) {
        return None;
    }
    let data = vstd::slice::slice_subrange(account.data.as_slice(), 8, account.data.len());
    let mut offset: usize = 0;
    let pool_id = read_pubkey_at(data, &mut offset)?;
    let start_tick_index = read_i32_at(data, &mut offset)?;
    let mut ticks: Vec<Tick> = Vec::with_capacity(TICK_ARRAY_LEN);
    let mut i: usize = 0;
    while i < TICK_ARRAY_LEN
        invariant
            i <= TICK_ARRAY_LEN,
            data@.len() >= TICK_ARRAY_STATE_SIZE,
            offset == 36 + TICK_SIZE * i,
            ticks@.len() == i,
            forall|j: int| 0 <= j < i ==> tick_decoded(#[trigger] ticks@[j], data@, 36 + TICK_SIZE * j),
        decreases TICK_ARRAY_LEN - i,
    {
        let tick = parse_tick(data, &mut offset)?;
        ticks.push(tick);
        i += 1;
    }
    let initialized_tick_count = read_u8_at(data, &mut offset)?;
    let recent_epoch = read_u64_at(data, &mut offset)?;
    let padding = read_u8_array::<107>(data, &mut offset)?;
    let tick_array_state = RaydiumClmmTickArrayState {
        pool_id,
        start_tick_index,
        ticks,
        initialized_tick_count,
        recent_epoch,
        padding,
    };
    Some(DexEvent::RaydiumClmmTickArrayStateAccount(RaydiumClmmTickArrayStateAccountEvent {
        metadata,
        pubkey: account.pubkey,
        tick_array_state,
    }))
}

/// What decoding `account` as whichever Raydium CLMM account type its
/// discriminator names yields; nothing for other discriminators.
pub open spec fn account_result(account: AccountData, metadata: EventMetadata, r: Option<DexEvent>) -> bool {
    if has_discriminator_spec(account.data@, discriminators::AMM_CONFIG@) {
        amm_config_account_result(account, metadata, r)
    } else if has_discriminator_spec(account.data@, discriminators::POOL_STATE@) {
        pool_state_account_result(account, metadata, r)
    } else if has_discriminator_spec(account.data@, discriminators::TICK_ARRAY_STATE@) {
        tick_array_account_result(account, metadata, r)
    } else {
        r is None
    }
}

/// Decodes a Raydium CLMM account of whichever type its discriminator names;
/// `None` for other discriminators.
pub fn parse_account(account: &AccountData, metadata: EventMetadata) -> (r: Option<DexEvent>)
    ensures
        account_result(*account, metadata, r),
{
    if is_amm_config_account(account.data.as_slice()) {
        return parse_amm_config(account, metadata);
    }
    if is_pool_state_account(account.data.as_slice()) {
        return parse_pool_state(account, metadata);
    }
    if is_tick_array_state_account(account.data.as_slice()) {
        return parse_tick_array_state(account, metadata);
    }
    None
}

} // verus!
