//! Raydium CLMM event decoding, from program logs and from pre-decoded
//! event bodies.

use crate::bytes::{
    bytes_eq, le_at, le_run_at, read_bool, read_i32_le, read_pubkey, read_u128_array,
    read_u128_le, read_u16_le, read_u32_le, read_u64_array, read_u64_le, to_signed, u128s, u64s,
};
use crate::events::{
    DexEvent, EventKind, RaydiumClmmCollectFeeEvent, RaydiumClmmConfigChangeEvent,
    RaydiumClmmCreatePersonalPositionEvent, RaydiumClmmCreatePoolEvent,
    RaydiumClmmDecreaseLimitOrderEvent, RaydiumClmmDecreaseLiquidityEvent,
    RaydiumClmmIncreaseLimitOrderEvent, RaydiumClmmIncreaseLiquidityEvent,
    RaydiumClmmLiquidityCalculateEvent, RaydiumClmmLiquidityChangeEvent,
    RaydiumClmmOpenLimitOrderEvent, RaydiumClmmSettleLimitOrderEvent, RaydiumClmmSwapEvent,
    RaydiumClmmUpdateRewardInfosEvent,
};
use crate::logs::program_data::{
    contains_bytes, extract_program_data, log_contains, program_data_of,
};
use crate::types::{
    create_metadata_simple, simple_metadata, zero_key, EventMetadata, Pubkey, Signature,
};
use vstd::prelude::*;
use vstd::string::StringSliceAdditionalSpecFns;

pub mod discriminators;

verus! {

/// Raydium CLMM program id.
pub const PROGRAM_ID: &'static str = "CAMMCzo5YL8w4VFF8KVHrK22GGUsp5VTaW7grrKgrWqK";

/// `Program <PROGRAM_ID> invoke`, as bytes.
pub const PROGRAM_INVOKE_LOG: [u8; 59] = [80, 114, 111, 103, 114, 97, 109, 32, 67, 65, 77, 77, 67, 122, 111, 53, 89, 76, 56, 119, 52, 86, 70, 70, 56, 75, 86, 72, 114, 75, 50, 50, 71, 71, 85, 115, 112, 53, 86, 84, 97, 87, 55, 103, 114, 114, 75, 103, 114, 87, 113, 75, 32, 105, 110, 118, 111, 107, 101];

/// `Program <PROGRAM_ID> success`, as bytes.
pub const PROGRAM_SUCCESS_LOG: [u8; 60] = [80, 114, 111, 103, 114, 97, 109, 32, 67, 65, 77, 77, 67, 122, 111, 53, 89, 76, 56, 119, 52, 86, 70, 70, 56, 75, 86, 72, 114, 75, 50, 50, 71, 71, 85, 115, 112, 53, 86, 84, 97, 87, 55, 103, 114, 114, 75, 103, 114, 87, 113, 75, 32, 115, 117, 99, 99, 101, 115, 115];

/// `raydium`, as bytes.
pub const RAYDIUM_LOWER: [u8; 7] = [114, 97, 121, 100, 105, 117, 109];

/// `Raydium`, as bytes.
pub const RAYDIUM_CAPITAL: [u8; 7] = [82, 97, 121, 100, 105, 117, 109];

/// Whether a log line mentions the Raydium CLMM program: it holds the
/// program's invoke or success line, or the word `raydium` or `Raydium`.
pub fn is_raydium_clmm_log(log: &str) -> (r: bool)
    ensures
        r == (log_contains(log, PROGRAM_INVOKE_LOG@) || log_contains(log, PROGRAM_SUCCESS_LOG@)
            || log_contains(log, RAYDIUM_LOWER@) || log_contains(log, RAYDIUM_CAPITAL@)),
{
    let bytes = log.as_bytes();
    contains_bytes(bytes, &PROGRAM_INVOKE_LOG) || contains_bytes(bytes, &PROGRAM_SUCCESS_LOG)
        || contains_bytes(bytes, &RAYDIUM_LOWER) || contains_bytes(bytes, &RAYDIUM_CAPITAL)
}

/// The event kind that an 8-byte Raydium CLMM event discriminator names.
pub open spec fn clmm_kind_of(disc: Seq<u8>) -> Option<EventKind> {
    if disc == discriminators::SWAP@ {
        Some(EventKind::RaydiumClmmSwap)
    } else if disc == discriminators::INCREASE_LIQUIDITY@ {
        Some(EventKind::RaydiumClmmIncreaseLiquidity)
    } else if disc == discriminators::DECREASE_LIQUIDITY@ {
        Some(EventKind::RaydiumClmmDecreaseLiquidity)
    } else if disc == discriminators::LIQUIDITY_CHANGE@ {
        Some(EventKind::RaydiumClmmLiquidityChange)
    } else if disc == discriminators::CONFIG_CHANGE@ {
        Some(EventKind::RaydiumClmmConfigChange)
    } else if disc == discriminators::CREATE_PERSONAL_POSITION@ {
        Some(EventKind::RaydiumClmmCreatePersonalPosition)
    } else if disc == discriminators::LIQUIDITY_CALCULATE@ {
        Some(EventKind::RaydiumClmmLiquidityCalculate)
    } else if disc == discriminators::OPEN_LIMIT_ORDER@ {
        Some(EventKind::RaydiumClmmOpenLimitOrder)
    } else if disc == discriminators::INCREASE_LIMIT_ORDER@ {
        Some(EventKind::RaydiumClmmIncreaseLimitOrder)
    } else if disc == discriminators::DECREASE_LIMIT_ORDER@ {
        Some(EventKind::RaydiumClmmDecreaseLimitOrder)
    } else if disc == discriminators::SETTLE_LIMIT_ORDER@ {
        Some(EventKind::RaydiumClmmSettleLimitOrder)
    } else if disc == discriminators::UPDATE_REWARD_INFOS@ {
        Some(EventKind::RaydiumClmmUpdateRewardInfos)
    } else if disc == discriminators::CREATE_POOL@ {
        Some(EventKind::RaydiumClmmCreatePool)
    } else if disc == discriminators::COLLECT_PERSONAL_FEE@ {
        Some(EventKind::RaydiumClmmCollectPersonalFee)
    } else if disc == discriminators::COLLECT_PROTOCOL_FEE@ {
        Some(EventKind::RaydiumClmmCollectProtocolFee)
    } else {
        None
    }
}

/// The event kind named by the discriminator `disc`, if it is a Raydium CLMM
/// one.
pub fn clmm_log_kind(disc: &[u8]) -> (r: Option<EventKind>)
    ensures
        r == clmm_kind_of(disc@),
{
    if bytes_eq(disc, &discriminators::SWAP) {
        Some(EventKind::RaydiumClmmSwap)
    } else if bytes_eq(disc, &discriminators::INCREASE_LIQUIDITY) {
        Some(EventKind::RaydiumClmmIncreaseLiquidity)
    } else if bytes_eq(disc, &discriminators::DECREASE_LIQUIDITY) {
        Some(EventKind::RaydiumClmmDecreaseLiquidity)
    } else if bytes_eq(disc, &discriminators::LIQUIDITY_CHANGE) {
        Some(EventKind::RaydiumClmmLiquidityChange)
    } else if bytes_eq(disc, &discriminators::CONFIG_CHANGE) {
        Some(EventKind::RaydiumClmmConfigChange)
    } else if bytes_eq(disc, &discriminators::CREATE_PERSONAL_POSITION) {
        Some(EventKind::RaydiumClmmCreatePersonalPosition)
    } else if bytes_eq(disc, &discriminators::LIQUIDITY_CALCULATE) {
        Some(EventKind::RaydiumClmmLiquidityCalculate)
    } else if bytes_eq(disc, &discriminators::OPEN_LIMIT_ORDER) {
        Some(EventKind::RaydiumClmmOpenLimitOrder)
    } else if bytes_eq(disc, &discriminators::INCREASE_LIMIT_ORDER) {
        Some(EventKind::RaydiumClmmIncreaseLimitOrder)
    } else if bytes_eq(disc, &discriminators::DECREASE_LIMIT_ORDER) {
        Some(EventKind::RaydiumClmmDecreaseLimitOrder)
    } else if bytes_eq(disc, &discriminators::SETTLE_LIMIT_ORDER) {
        Some(EventKind::RaydiumClmmSettleLimitOrder)
    } else if bytes_eq(disc, &discriminators::UPDATE_REWARD_INFOS) {
        Some(EventKind::RaydiumClmmUpdateRewardInfos)
    } else if bytes_eq(disc, &discriminators::CREATE_POOL) {
        Some(EventKind::RaydiumClmmCreatePool)
    } else if bytes_eq(disc, &discriminators::COLLECT_PERSONAL_FEE) {
        Some(EventKind::RaydiumClmmCollectPersonalFee)
    } else if bytes_eq(disc, &discriminators::COLLECT_PROTOCOL_FEE) {
        Some(EventKind::RaydiumClmmCollectProtocolFee)
    } else {
        None
    }
}

/// Body length of each Raydium CLMM event kind; `None` for kinds of other
/// protocols.
pub open spec fn clmm_body_len(kind: EventKind) -> Option<nat> {
    match kind {
        EventKind::RaydiumClmmSwap => Some(SWAP_EVENT_LEN as nat),
        EventKind::RaydiumClmmIncreaseLiquidity => Some(INCREASE_LIQUIDITY_EVENT_LEN as nat),
        EventKind::RaydiumClmmDecreaseLiquidity => Some(DECREASE_LIQUIDITY_EVENT_LEN as nat),
        EventKind::RaydiumClmmLiquidityChange => Some(LIQUIDITY_CHANGE_EVENT_LEN as nat),
        EventKind::RaydiumClmmConfigChange => Some(CONFIG_CHANGE_EVENT_LEN as nat),
        EventKind::RaydiumClmmCreatePersonalPosition => Some(CREATE_PERSONAL_POSITION_EVENT_LEN as nat),
        EventKind::RaydiumClmmLiquidityCalculate => Some(LIQUIDITY_CALCULATE_EVENT_LEN as nat),
        EventKind::RaydiumClmmOpenLimitOrder => Some(OPEN_LIMIT_ORDER_EVENT_LEN as nat),
        EventKind::RaydiumClmmIncreaseLimitOrder => Some(INCREASE_LIMIT_ORDER_EVENT_LEN as nat),
        EventKind::RaydiumClmmDecreaseLimitOrder => Some(DECREASE_LIMIT_ORDER_EVENT_LEN as nat),
        EventKind::RaydiumClmmSettleLimitOrder => Some(SETTLE_LIMIT_ORDER_EVENT_LEN as nat),
        EventKind::RaydiumClmmUpdateRewardInfos => Some(UPDATE_REWARD_INFOS_EVENT_LEN as nat),
        EventKind::RaydiumClmmCreatePool => Some(CREATE_POOL_EVENT_LEN as nat),
        EventKind::RaydiumClmmCollectPersonalFee => Some(COLLECT_PERSONAL_FEE_EVENT_LEN as nat),
        EventKind::RaydiumClmmCollectProtocolFee => Some(COLLECT_PROTOCOL_FEE_EVENT_LEN as nat),
        _ => None,
    }
}

/// `ev` is the event of kind `kind` decoded from the body `data`.
pub open spec fn clmm_decoded(kind: EventKind, data: Seq<u8>, metadata: EventMetadata, ev: DexEvent) -> bool {
    match kind {
        EventKind::RaydiumClmmSwap => ev matches DexEvent::RaydiumClmmSwap(e) && swap_decoded(e, data, metadata),
        EventKind::RaydiumClmmIncreaseLiquidity => ev matches DexEvent::RaydiumClmmIncreaseLiquidity(e) && increase_liquidity_decoded(e, data, metadata),
        EventKind::RaydiumClmmDecreaseLiquidity => ev matches DexEvent::RaydiumClmmDecreaseLiquidity(e) && decrease_liquidity_decoded(e, data, metadata),
        EventKind::RaydiumClmmLiquidityChange => ev matches DexEvent::RaydiumClmmLiquidityChange(e) && liquidity_change_decoded(e, data, metadata),
        EventKind::RaydiumClmmConfigChange => ev matches DexEvent::RaydiumClmmConfigChange(e) && config_change_decoded(e, data, metadata),
        EventKind::RaydiumClmmCreatePersonalPosition => ev matches DexEvent::RaydiumClmmCreatePersonalPosition(e) && create_personal_position_decoded(e, data, metadata),
        EventKind::RaydiumClmmLiquidityCalculate => ev matches DexEvent::RaydiumClmmLiquidityCalculate(e) && liquidity_calculate_decoded(e, data, metadata),
        EventKind::RaydiumClmmOpenLimitOrder => ev matches DexEvent::RaydiumClmmOpenLimitOrder(e) && open_limit_order_decoded(e, data, metadata),
        EventKind::RaydiumClmmIncreaseLimitOrder => ev matches DexEvent::RaydiumClmmIncreaseLimitOrder(e) && increase_limit_order_decoded(e, data, metadata),
        EventKind::RaydiumClmmDecreaseLimitOrder => ev matches DexEvent::RaydiumClmmDecreaseLimitOrder(e) && decrease_limit_order_decoded(e, data, metadata),
        EventKind::RaydiumClmmSettleLimitOrder => ev matches DexEvent::RaydiumClmmSettleLimitOrder(e) && settle_limit_order_decoded(e, data, metadata),
        EventKind::RaydiumClmmUpdateRewardInfos => ev matches DexEvent::RaydiumClmmUpdateRewardInfos(e) && update_reward_infos_decoded(e, data, metadata),
        EventKind::RaydiumClmmCreatePool => ev matches DexEvent::RaydiumClmmCreatePool(e) && create_pool_decoded(e, data, metadata),
        EventKind::RaydiumClmmCollectPersonalFee => ev matches DexEvent::RaydiumClmmCollectFee(e) && collect_personal_fee_decoded(e, data, metadata),
        EventKind::RaydiumClmmCollectProtocolFee => ev matches DexEvent::RaydiumClmmCollectFee(e) && collect_protocol_fee_decoded(e, data, metadata),
        _ => false,
    }
}

/// What decoding `data` as a body of kind `kind` yields: for a Raydium CLMM
/// kind, an event exactly when the body is long enough, and then the decoded
/// one; for any other kind, nothing.
pub open spec fn clmm_parse_result(kind: EventKind, data: Seq<u8>, metadata: EventMetadata, r: Option<DexEvent>) -> bool {
    match clmm_body_len(kind) {
        Some(n) => {
            &&& (r is Some <==> data.len() >= n)
            &&& (r matches Some(ev) ==> clmm_decoded(kind, data, metadata, ev))
        },
        None => r is None,
    }
}

/// Byte length of a `Swap` event body.
pub const SWAP_EVENT_LEN: usize = 197;

/// `e` holds the fields of a `Swap` event body laid out in `data`.
pub open spec fn swap_decoded(e: RaydiumClmmSwapEvent, data: Seq<u8>, metadata: EventMetadata) -> bool {
    &&& e.metadata == metadata
    &&& e.pool_state@ == data.subrange(0, 32)
    &&& e.sender@ == data.subrange(32, 64)
    &&& e.token_account_0@ == data.subrange(64, 96)
    &&& e.token_account_1@ == data.subrange(96, 128)
    &&& e.amount_0 == le_at(data, 128, 8)
    &&& e.transfer_fee_0 == le_at(data, 136, 8)
    &&& e.amount_1 == le_at(data, 144, 8)
    &&& e.transfer_fee_1 == le_at(data, 152, 8)
    &&& e.zero_for_one == (data[160] == 1)
    &&& e.sqrt_price_x64 == le_at(data, 161, 16)
    &&& e.liquidity == le_at(data, 177, 16)
    &&& e.tick == to_signed(le_at(data, 193, 4), 4)
}

/// Decodes a Raydium CLMM `Swap` event body (the bytes after the
/// discriminator). `None` exactly when the body is shorter than
/// [`SWAP_EVENT_LEN`]; bytes past that length are ignored.
pub fn parse_swap_from_data(data: &[u8], metadata: EventMetadata) -> (r: Option<DexEvent>)
    ensures
        r is Some <==> data@.len() >= SWAP_EVENT_LEN,
        r matches Some(ev) ==> clmm_decoded(EventKind::RaydiumClmmSwap, data@, metadata, ev),
{
    let mut offset: usize = 0;
    let pool_state = read_pubkey(data, offset)?;
    offset += 32;
    let sender = read_pubkey(data, offset)?;
    offset += 32;
    let token_account_0 = read_pubkey(data, offset)?;
    offset += 32;
    let token_account_1 = read_pubkey(data, offset)?;
    offset += 32;
    let amount_0 = read_u64_le(data, offset)?;
    offset += 8;
    let transfer_fee_0 = read_u64_le(data, offset)?;
    offset += 8;
    let amount_1 = read_u64_le(data, offset)?;
    offset += 8;
    let transfer_fee_1 = read_u64_le(data, offset)?;
    offset += 8;
    let zero_for_one = read_bool(data, offset)?;
    offset += 1;
    let sqrt_price_x64 = read_u128_le(data, offset)?;
    offset += 16;
    let liquidity = read_u128_le(data, offset)?;
    offset += 16;
    let tick = read_i32_le(data, offset)?;

    Some(DexEvent::RaydiumClmmSwap(RaydiumClmmSwapEvent {
        metadata,
        pool_state,
        sender,
        token_account_0,
        token_account_1,
        amount_0,
        transfer_fee_0,
        amount_1,
        transfer_fee_1,
        zero_for_one,
        sqrt_price_x64,
        liquidity,
        tick,
    }))
}

/// Byte length of a `IncreaseLiquidity` event body.
pub const INCREASE_LIQUIDITY_EVENT_LEN: usize = 80;

/// `e` holds the fields of a `IncreaseLiquidity` event body laid out in `data`.
pub open spec fn increase_liquidity_decoded(e: RaydiumClmmIncreaseLiquidityEvent, data: Seq<u8>, metadata: EventMetadata) -> bool {
    &&& e.metadata == metadata
    &&& e.position_nft_mint@ == data.subrange(0, 32)
    &&& e.liquidity == le_at(data, 32, 16)
    &&& e.amount_0 == le_at(data, 48, 8)
    &&& e.amount_1 == le_at(data, 56, 8)
    &&& e.amount_0_transfer_fee == le_at(data, 64, 8)
    &&& e.amount_1_transfer_fee == le_at(data, 72, 8)
    &&& e.pool@ == zero_key()
    &&& e.user@ == zero_key()
    &&& e.amount0_max == 0
    &&& e.amount1_max == 0
}

/// Decodes a Raydium CLMM `IncreaseLiquidity` event body (the bytes after the
/// discriminator). `None` exactly when the body is shorter than
/// [`INCREASE_LIQUIDITY_EVENT_LEN`]; bytes past that length are ignored.
pub fn parse_increase_liquidity_from_data(data: &[u8], metadata: EventMetadata) -> (r: Option<DexEvent>)
    ensures
        r is Some <==> data@.len() >= INCREASE_LIQUIDITY_EVENT_LEN,
        r matches Some(ev) ==> clmm_decoded(EventKind::RaydiumClmmIncreaseLiquidity, data@, metadata, ev),
{
    let mut offset: usize = 0;
    let position_nft_mint = read_pubkey(data, offset)?;
    offset += 32;
    let liquidity = read_u128_le(data, offset)?;
    offset += 16;
    let amount_0 = read_u64_le(data, offset)?;
    offset += 8;
    let amount_1 = read_u64_le(data, offset)?;
    offset += 8;
    let amount_0_transfer_fee = read_u64_le(data, offset)?;
    offset += 8;
    let amount_1_transfer_fee = read_u64_le(data, offset)?;

    Some(DexEvent::RaydiumClmmIncreaseLiquidity(RaydiumClmmIncreaseLiquidityEvent {
        metadata,
        position_nft_mint,
        liquidity,
        amount_0,
        amount_1,
        amount_0_transfer_fee,
        amount_1_transfer_fee,
        pool: Pubkey::zero(),
        user: Pubkey::zero(),
        amount0_max: 0,
        amount1_max: 0,
    }))
}

/// Byte length of a `DecreaseLiquidity` event body.
pub const DECREASE_LIQUIDITY_EVENT_LEN: usize = 120;

/// `e` holds the fields of a `DecreaseLiquidity` event body laid out in `data`.
pub open spec fn decrease_liquidity_decoded(e: RaydiumClmmDecreaseLiquidityEvent, data: Seq<u8>, metadata: EventMetadata) -> bool {
    &&& e.metadata == metadata
    &&& e.position_nft_mint@ == data.subrange(0, 32)
    &&& e.liquidity == le_at(data, 32, 16)
    &&& e.decrease_amount_0 == le_at(data, 48, 8)
    &&& e.decrease_amount_1 == le_at(data, 56, 8)
    &&& e.fee_amount_0 == le_at(data, 64, 8)
    &&& e.fee_amount_1 == le_at(data, 72, 8)
    &&& le_run_at(u64s(e.reward_amounts@), data, 80, 8)
    &&& e.transfer_fee_0 == le_at(data, 104, 8)
    &&& e.transfer_fee_1 == le_at(data, 112, 8)
    &&& e.pool@ == zero_key()
    &&& e.user@ == zero_key()
    &&& e.amount0_min == 0
    &&& e.amount1_min == 0
}

/// Decodes a Raydium CLMM `DecreaseLiquidity` event body (the bytes after the
/// discriminator). `None` exactly when the body is shorter than
/// [`DECREASE_LIQUIDITY_EVENT_LEN`]; bytes past that length are ignored.
pub fn parse_decrease_liquidity_from_data(data: &[u8], metadata: EventMetadata) -> (r: Option<DexEvent>)
    ensures
        r is Some <==> data@.len() >= DECREASE_LIQUIDITY_EVENT_LEN,
        r matches Some(ev) ==> clmm_decoded(EventKind::RaydiumClmmDecreaseLiquidity, data@, metadata, ev),
{
    let mut offset: usize = 0;
    let position_nft_mint = read_pubkey(data, offset)?;
    offset += 32;
    let liquidity = read_u128_le(data, offset)?;
    offset += 16;
    let decrease_amount_0 = read_u64_le(data, offset)?;
    offset += 8;
    let decrease_amount_1 = read_u64_le(data, offset)?;
    offset += 8;
    let fee_amount_0 = read_u64_le(data, offset)?;
    offset += 8;
    let fee_amount_1 = read_u64_le(data, offset)?;
    offset += 8;
    let reward_amounts = read_u64_array::<3>(data, &mut offset)?;
    let transfer_fee_0 = read_u64_le(data, offset)?;
    offset += 8;
    let transfer_fee_1 = read_u64_le(data, offset)?;

    Some(DexEvent::RaydiumClmmDecreaseLiquidity(RaydiumClmmDecreaseLiquidityEvent {
        metadata,
        position_nft_mint,
        liquidity,
        decrease_amount_0,
        decrease_amount_1,
        fee_amount_0,
        fee_amount_1,
        reward_amounts,
        transfer_fee_0,
        transfer_fee_1,
        pool: Pubkey::zero(),
        user: Pubkey::zero(),
        amount0_min: 0,
        amount1_min: 0,
    }))
}

/// Byte length of a `LiquidityChange` event body.
pub const LIQUIDITY_CHANGE_EVENT_LEN: usize = 76;

/// `e` holds the fields of a `LiquidityChange` event body laid out in `data`.
pub open spec fn liquidity_change_decoded(e: RaydiumClmmLiquidityChangeEvent, data: Seq<u8>, metadata: EventMetadata) -> bool {
    &&& e.metadata == metadata
    &&& e.pool_state@ == data.subrange(0, 32)
    &&& e.tick == to_signed(le_at(data, 32, 4), 4)
    &&& e.tick_lower == to_signed(le_at(data, 36, 4), 4)
    &&& e.tick_upper == to_signed(le_at(data, 40, 4), 4)
    &&& e.liquidity_before == le_at(data, 44, 16)
    &&& e.liquidity_after == le_at(data, 60, 16)
}

/// Decodes a Raydium CLMM `LiquidityChange` event body (the bytes after the
/// discriminator). `None` exactly when the body is shorter than
/// [`LIQUIDITY_CHANGE_EVENT_LEN`]; bytes past that length are ignored.
pub fn parse_liquidity_change_from_data(data: &[u8], metadata: EventMetadata) -> (r: Option<DexEvent>)
    ensures
        r is Some <==> data@.len() >= LIQUIDITY_CHANGE_EVENT_LEN,
        r matches Some(ev) ==> clmm_decoded(EventKind::RaydiumClmmLiquidityChange, data@, metadata, ev),
{
    let mut offset: usize = 0;
    let pool_state = read_pubkey(data, offset)?;
    offset += 32;
    let tick = read_i32_le(data, offset)?;
    offset += 4;
    let tick_lower = read_i32_le(data, offset)?;
    offset += 4;
    let tick_upper = read_i32_le(data, offset)?;
    offset += 4;
    let liquidity_before = read_u128_le(data, offset)?;
    offset += 16;
    let liquidity_after = read_u128_le(data, offset)?;

    Some(DexEvent::RaydiumClmmLiquidityChange(RaydiumClmmLiquidityChangeEvent {
        metadata,
        pool_state,
        tick,
        tick_lower,
        tick_upper,
        liquidity_before,
        liquidity_after,
    }))
}

/// Byte length of a `ConfigChange` event body.
pub const CONFIG_CHANGE_EVENT_LEN: usize = 80;

/// `e` holds the fields of a `ConfigChange` event body laid out in `data`.
pub open spec fn config_change_decoded(e: RaydiumClmmConfigChangeEvent, data: Seq<u8>, metadata: EventMetadata) -> bool {
    &&& e.metadata == metadata
    &&& e.index == le_at(data, 0, 2)
    &&& e.owner@ == data.subrange(2, 34)
    &&& e.protocol_fee_rate == le_at(data, 34, 4)
    &&& e.trade_fee_rate == le_at(data, 38, 4)
    &&& e.tick_spacing == le_at(data, 42, 2)
    &&& e.fund_fee_rate == le_at(data, 44, 4)
    &&& e.fund_owner@ == data.subrange(48, 80)
}

/// Decodes a Raydium CLMM `ConfigChange` event body (the bytes after the
/// discriminator). `None` exactly when the body is shorter than
/// [`CONFIG_CHANGE_EVENT_LEN`]; bytes past that length are ignored.
pub fn parse_config_change_from_data(data: &[u8], metadata: EventMetadata) -> (r: Option<DexEvent>)
    ensures
        r is Some <==> data@.len() >= CONFIG_CHANGE_EVENT_LEN,
        r matches Some(ev) ==> clmm_decoded(EventKind::RaydiumClmmConfigChange, data@, metadata, ev),
{
    let mut offset: usize = 0;
    let index = read_u16_le(data, offset)?;
    offset += 2;
    let owner = read_pubkey(data, offset)?;
    offset += 32;
    let protocol_fee_rate = read_u32_le(data, offset)?;
    offset += 4;
    let trade_fee_rate = read_u32_le(data, offset)?;
    offset += 4;
    let tick_spacing = read_u16_le(data, offset)?;
    offset += 2;
    let fund_fee_rate = read_u32_le(data, offset)?;
    offset += 4;
    let fund_owner = read_pubkey(data, offset)?;

    Some(DexEvent::RaydiumClmmConfigChange(RaydiumClmmConfigChangeEvent {
        metadata,
        index,
        owner,
        protocol_fee_rate,
        trade_fee_rate,
        tick_spacing,
        fund_fee_rate,
        fund_owner,
    }))
}

/// Byte length of a `CreatePersonalPosition` event body.
pub const CREATE_PERSONAL_POSITION_EVENT_LEN: usize = 152;

/// `e` holds the fields of a `CreatePersonalPosition` event body laid out in `data`.
pub open spec fn create_personal_position_decoded(e: RaydiumClmmCreatePersonalPositionEvent, data: Seq<u8>, metadata: EventMetadata) -> bool {
    &&& e.metadata == metadata
    &&& e.pool_state@ == data.subrange(0, 32)
    &&& e.minter@ == data.subrange(32, 64)
    &&& e.nft_owner@ == data.subrange(64, 96)
    &&& e.tick_lower_index == to_signed(le_at(data, 96, 4), 4)
    &&& e.tick_upper_index == to_signed(le_at(data, 100, 4), 4)
    &&& e.liquidity == le_at(data, 104, 16)
    &&& e.deposit_amount_0 == le_at(data, 120, 8)
    &&& e.deposit_amount_1 == le_at(data, 128, 8)
    &&& e.deposit_amount_0_transfer_fee == le_at(data, 136, 8)
    &&& e.deposit_amount_1_transfer_fee == le_at(data, 144, 8)
}

/// Decodes a Raydium CLMM `CreatePersonalPosition` event body (the bytes after the
/// discriminator). `None` exactly when the body is shorter than
/// [`CREATE_PERSONAL_POSITION_EVENT_LEN`]; bytes past that length are ignored.
pub fn parse_create_personal_position_from_data(data: &[u8], metadata: EventMetadata) -> (r: Option<DexEvent>)
    ensures
        r is Some <==> data@.len() >= CREATE_PERSONAL_POSITION_EVENT_LEN,
        r matches Some(ev) ==> clmm_decoded(EventKind::RaydiumClmmCreatePersonalPosition, data@, metadata, ev),
{
    let mut offset: usize = 0;
    let pool_state = read_pubkey(data, offset)?;
    offset += 32;
    let minter = read_pubkey(data, offset)?;
    offset += 32;
    let nft_owner = read_pubkey(data, offset)?;
    offset += 32;
    let tick_lower_index = read_i32_le(data, offset)?;
    offset += 4;
    let tick_upper_index = read_i32_le(data, offset)?;
    offset += 4;
    let liquidity = read_u128_le(data, offset)?;
    offset += 16;
    let deposit_amount_0 = read_u64_le(data, offset)?;
    offset += 8;
    let deposit_amount_1 = read_u64_le(data, offset)?;
    offset += 8;
    let deposit_amount_0_transfer_fee = read_u64_le(data, offset)?;
    offset += 8;
    let deposit_amount_1_transfer_fee = read_u64_le(data, offset)?;

    Some(DexEvent::RaydiumClmmCreatePersonalPosition(RaydiumClmmCreatePersonalPositionEvent {
        metadata,
        pool_state,
        minter,
        nft_owner,
        tick_lower_index,
        tick_upper_index,
        liquidity,
        deposit_amount_0,
        deposit_amount_1,
        deposit_amount_0_transfer_fee,
        deposit_amount_1_transfer_fee,
    }))
}

/// Byte length of a `LiquidityCalculate` event body.
pub const LIQUIDITY_CALCULATE_EVENT_LEN: usize = 84;

/// `e` holds the fields of a `LiquidityCalculate` event body laid out in `data`.
pub open spec fn liquidity_calculate_decoded(e: RaydiumClmmLiquidityCalculateEvent, data: Seq<u8>, metadata: EventMetadata) -> bool {
    &&& e.metadata == metadata
    &&& e.pool_liquidity == le_at(data, 0, 16)
    &&& e.pool_sqrt_price_x64 == le_at(data, 16, 16)
    &&& e.pool_tick == to_signed(le_at(data, 32, 4), 4)
    &&& e.calc_amount_0 == le_at(data, 36, 8)
    &&& e.calc_amount_1 == le_at(data, 44, 8)
    &&& e.trade_fee_owed_0 == le_at(data, 52, 8)
    &&& e.trade_fee_owed_1 == le_at(data, 60, 8)
    &&& e.transfer_fee_0 == le_at(data, 68, 8)
    &&& e.transfer_fee_1 == le_at(data, 76, 8)
}

/// Decodes a Raydium CLMM `LiquidityCalculate` event body (the bytes after the
/// discriminator). `None` exactly when the body is shorter than
/// [`LIQUIDITY_CALCULATE_EVENT_LEN`]; bytes past that length are ignored.
pub fn parse_liquidity_calculate_from_data(data: &[u8], metadata: EventMetadata) -> (r: Option<DexEvent>)
    ensures
        r is Some <==> data@.len() >= LIQUIDITY_CALCULATE_EVENT_LEN,
        r matches Some(ev) ==> clmm_decoded(EventKind::RaydiumClmmLiquidityCalculate, data@, metadata, ev),
{
    let mut offset: usize = 0;
    let pool_liquidity = read_u128_le(data, offset)?;
    offset += 16;
    let pool_sqrt_price_x64 = read_u128_le(data, offset)?;
    offset += 16;
    let pool_tick = read_i32_le(data, offset)?;
    offset += 4;
    let calc_amount_0 = read_u64_le(data, offset)?;
    offset += 8;
    let calc_amount_1 = read_u64_le(data, offset)?;
    offset += 8;
    let trade_fee_owed_0 = read_u64_le(data, offset)?;
    offset += 8;
    let trade_fee_owed_1 = read_u64_le(data, offset)?;
    offset += 8;
    let transfer_fee_0 = read_u64_le(data, offset)?;
    offset += 8;
    let transfer_fee_1 = read_u64_le(data, offset)?;

    Some(DexEvent::RaydiumClmmLiquidityCalculate(RaydiumClmmLiquidityCalculateEvent {
        metadata,
        pool_liquidity,
        pool_sqrt_price_x64,
        pool_tick,
        calc_amount_0,
        calc_amount_1,
        trade_fee_owed_0,
        trade_fee_owed_1,
        transfer_fee_0,
        transfer_fee_1,
    }))
}

/// Byte length of a `OpenLimitOrder` event body.
pub const OPEN_LIMIT_ORDER_EVENT_LEN: usize = 85;

/// `e` holds the fields of a `OpenLimitOrder` event body laid out in `data`.
pub open spec fn open_limit_order_decoded(e: RaydiumClmmOpenLimitOrderEvent, data: Seq<u8>, metadata: EventMetadata) -> bool {
    &&& e.metadata == metadata
    &&& e.pool_id@ == data.subrange(0, 32)
    &&& e.limit_order@ == data.subrange(32, 64)
    &&& e.zero_for_one == (data[64] == 1)
    &&& e.tick_index == to_signed(le_at(data, 65, 4), 4)
    &&& e.total_amount == le_at(data, 69, 8)
    &&& e.transfer_fee == le_at(data, 77, 8)
}

/// Decodes a Raydium CLMM `OpenLimitOrder` event body (the bytes after the
/// discriminator). `None` exactly when the body is shorter than
/// [`OPEN_LIMIT_ORDER_EVENT_LEN`]; bytes past that length are ignored.
pub fn parse_open_limit_order_from_data(data: &[u8], metadata: EventMetadata) -> (r: Option<DexEvent>)
    ensures
        r is Some <==> data@.len() >= OPEN_LIMIT_ORDER_EVENT_LEN,
        r matches Some(ev) ==> clmm_decoded(EventKind::RaydiumClmmOpenLimitOrder, data@, metadata, ev),
{
    let mut offset: usize = 0;
    let pool_id = read_pubkey(data, offset)?;
    offset += 32;
    let limit_order = read_pubkey(data, offset)?;
    offset += 32;
    let zero_for_one = read_bool(data, offset)?;
    offset += 1;
    let tick_index = read_i32_le(data, offset)?;
    offset += 4;
    let total_amount = read_u64_le(data, offset)?;
    offset += 8;
    let transfer_fee = read_u64_le(data, offset)?;

    Some(DexEvent::RaydiumClmmOpenLimitOrder(RaydiumClmmOpenLimitOrderEvent {
        metadata,
        pool_id,
        limit_order,
        zero_for_one,
        tick_index,
        total_amount,
        transfer_fee,
    }))
}

/// Byte length of a `IncreaseLimitOrder` event body.
pub const INCREASE_LIMIT_ORDER_EVENT_LEN: usize = 93;

/// `e` holds the fields of a `IncreaseLimitOrder` event body laid out in `data`.
pub open spec fn increase_limit_order_decoded(e: RaydiumClmmIncreaseLimitOrderEvent, data: Seq<u8>, metadata: EventMetadata) -> bool {
    &&& e.metadata == metadata
    &&& e.pool_id@ == data.subrange(0, 32)
    &&& e.limit_order@ == data.subrange(32, 64)
    &&& e.zero_for_one == (data[64] == 1)
    &&& e.tick_index == to_signed(le_at(data, 65, 4), 4)
    &&& e.total_amount == le_at(data, 69, 8)
    &&& e.increased_amount == le_at(data, 77, 8)
    &&& e.transfer_fee == le_at(data, 85, 8)
}

/// Decodes a Raydium CLMM `IncreaseLimitOrder` event body (the bytes after the
/// discriminator). `None` exactly when the body is shorter than
/// [`INCREASE_LIMIT_ORDER_EVENT_LEN`]; bytes past that length are ignored.
pub fn parse_increase_limit_order_from_data(data: &[u8], metadata: EventMetadata) -> (r: Option<DexEvent>)
    ensures
        r is Some <==> data@.len() >= INCREASE_LIMIT_ORDER_EVENT_LEN,
        r matches Some(ev) ==> clmm_decoded(EventKind::RaydiumClmmIncreaseLimitOrder, data@, metadata, ev),
{
    let mut offset: usize = 0;
    let pool_id = read_pubkey(data, offset)?;
    offset += 32;
    let limit_order = read_pubkey(data, offset)?;
    offset += 32;
    let zero_for_one = read_bool(data, offset)?;
    offset += 1;
    let tick_index = read_i32_le(data, offset)?;
    offset += 4;
    let total_amount = read_u64_le(data, offset)?;
    offset += 8;
    let increased_amount = read_u64_le(data, offset)?;
    offset += 8;
    let transfer_fee = read_u64_le(data, offset)?;

    Some(DexEvent::RaydiumClmmIncreaseLimitOrder(RaydiumClmmIncreaseLimitOrderEvent {
        metadata,
        pool_id,
        limit_order,
        zero_for_one,
        tick_index,
        total_amount,
        increased_amount,
        transfer_fee,
    }))
}

/// Byte length of a `DecreaseLimitOrder` event body.
pub const DECREASE_LIMIT_ORDER_EVENT_LEN: usize = 101;

/// `e` holds the fields of a `DecreaseLimitOrder` event body laid out in `data`.
pub open spec fn decrease_limit_order_decoded(e: RaydiumClmmDecreaseLimitOrderEvent, data: Seq<u8>, metadata: EventMetadata) -> bool {
    &&& e.metadata == metadata
    &&& e.pool_id@ == data.subrange(0, 32)
    &&& e.limit_order@ == data.subrange(32, 64)
    &&& e.zero_for_one == (data[64] == 1)
    &&& e.tick_index == to_signed(le_at(data, 65, 4), 4)
    &&& e.total_amount == le_at(data, 69, 8)
    &&& e.filled_amount == le_at(data, 77, 8)
    &&& e.settled_output_amount == le_at(data, 85, 8)
    &&& e.decreased_amount == le_at(data, 93, 8)
}

/// Decodes a Raydium CLMM `DecreaseLimitOrder` event body (the bytes after the
/// discriminator). `None` exactly when the body is shorter than
/// [`DECREASE_LIMIT_ORDER_EVENT_LEN`]; bytes past that length are ignored.
pub fn parse_decrease_limit_order_from_data(data: &[u8], metadata: EventMetadata) -> (r: Option<DexEvent>)
    ensures
        r is Some <==> data@.len() >= DECREASE_LIMIT_ORDER_EVENT_LEN,
        r matches Some(ev) ==> clmm_decoded(EventKind::RaydiumClmmDecreaseLimitOrder, data@, metadata, ev),
{
    let mut offset: usize = 0;
    let pool_id = read_pubkey(data, offset)?;
    offset += 32;
    let limit_order = read_pubkey(data, offset)?;
    offset += 32;
    let zero_for_one = read_bool(data, offset)?;
    offset += 1;
    let tick_index = read_i32_le(data, offset)?;
    offset += 4;
    let total_amount = read_u64_le(data, offset)?;
    offset += 8;
    let filled_amount = read_u64_le(data, offset)?;
    offset += 8;
    let settled_output_amount = read_u64_le(data, offset)?;
    offset += 8;
    let decreased_amount = read_u64_le(data, offset)?;

    Some(DexEvent::RaydiumClmmDecreaseLimitOrder(RaydiumClmmDecreaseLimitOrderEvent {
        metadata,
        pool_id,
        limit_order,
        zero_for_one,
        tick_index,
        total_amount,
        filled_amount,
        settled_output_amount,
        decreased_amount,
    }))
}

/// Byte length of a `SettleLimitOrder` event body.
pub const SETTLE_LIMIT_ORDER_EVENT_LEN: usize = 93;

/// `e` holds the fields of a `SettleLimitOrder` event body laid out in `data`.
pub open spec fn settle_limit_order_decoded(e: RaydiumClmmSettleLimitOrderEvent, data: Seq<u8>, metadata: EventMetadata) -> bool {
    &&& e.metadata == metadata
    &&& e.pool_id@ == data.subrange(0, 32)
    &&& e.limit_order@ == data.subrange(32, 64)
    &&& e.zero_for_one == (data[64] == 1)
    &&& e.tick_index == to_signed(le_at(data, 65, 4), 4)
    &&& e.total_amount == le_at(data, 69, 8)
    &&& e.filled_amount == le_at(data, 77, 8)
    &&& e.settled_amount_out == le_at(data, 85, 8)
}

/// Decodes a Raydium CLMM `SettleLimitOrder` event body (the bytes after the
/// discriminator). `None` exactly when the body is shorter than
/// [`SETTLE_LIMIT_ORDER_EVENT_LEN`]; bytes past that length are ignored.
pub fn parse_settle_limit_order_from_data(data: &[u8], metadata: EventMetadata) -> (r: Option<DexEvent>)
    ensures
        r is Some <==> data@.len() >= SETTLE_LIMIT_ORDER_EVENT_LEN,
        r matches Some(ev) ==> clmm_decoded(EventKind::RaydiumClmmSettleLimitOrder, data@, metadata, ev),
{
    let mut offset: usize = 0;
    let pool_id = read_pubkey(data, offset)?;
    offset += 32;
    let limit_order = read_pubkey(data, offset)?;
    offset += 32;
    let zero_for_one = read_bool(data, offset)?;
    offset += 1;
    let tick_index = read_i32_le(data, offset)?;
    offset += 4;
    let total_amount = read_u64_le(data, offset)?;
    offset += 8;
    let filled_amount = read_u64_le(data, offset)?;
    offset += 8;
    let settled_amount_out = read_u64_le(data, offset)?;

    Some(DexEvent::RaydiumClmmSettleLimitOrder(RaydiumClmmSettleLimitOrderEvent {
        metadata,
        pool_id,
        limit_order,
        zero_for_one,
        tick_index,
        total_amount,
        filled_amount,
        settled_amount_out,
    }))
}

/// Byte length of a `UpdateRewardInfos` event body.
pub const UPDATE_REWARD_INFOS_EVENT_LEN: usize = 48;

/// `e` holds the fields of a `UpdateRewardInfos` event body laid out in `data`.
pub open spec fn update_reward_infos_decoded(e: RaydiumClmmUpdateRewardInfosEvent, data: Seq<u8>, metadata: EventMetadata) -> bool {
    &&& e.metadata == metadata
    &&& le_run_at(u128s(e.reward_growth_global_x64@), data, 0, 16)
}

/// Decodes a Raydium CLMM `UpdateRewardInfos` event body (the bytes after the
/// discriminator). `None` exactly when the body is shorter than
/// [`UPDATE_REWARD_INFOS_EVENT_LEN`]; bytes past that length are ignored.
pub fn parse_update_reward_infos_from_data(data: &[u8], metadata: EventMetadata) -> (r: Option<DexEvent>)
    ensures
        r is Some <==> data@.len() >= UPDATE_REWARD_INFOS_EVENT_LEN,
        r matches Some(ev) ==> clmm_decoded(EventKind::RaydiumClmmUpdateRewardInfos, data@, metadata, ev),
{
    let mut offset: usize = 0;
    let reward_growth_global_x64 = read_u128_array::<3>(data, &mut offset)?;

    Some(DexEvent::RaydiumClmmUpdateRewardInfos(RaydiumClmmUpdateRewardInfosEvent {
        metadata,
        reward_growth_global_x64,
    }))
}

/// Byte length of a `CreatePool` event body.
pub const CREATE_POOL_EVENT_LEN: usize = 182;

/// `e` holds the fields of a `CreatePool` event body laid out in `data`.
pub open spec fn create_pool_decoded(e: RaydiumClmmCreatePoolEvent, data: Seq<u8>, metadata: EventMetadata) -> bool {
    &&& e.metadata == metadata
    &&& e.token_0_mint@ == data.subrange(0, 32)
    &&& e.token_1_mint@ == data.subrange(32, 64)
    &&& e.tick_spacing == le_at(data, 64, 2)
    &&& e.pool@ == data.subrange(66, 98)
    &&& e.sqrt_price_x64 == le_at(data, 98, 16)
    &&& e.tick == to_signed(le_at(data, 114, 4), 4)
    &&& e.token_vault_0@ == data.subrange(118, 150)
    &&& e.token_vault_1@ == data.subrange(150, 182)
    &&& e.fee_rate == 0
    &&& e.creator@ == zero_key()
    &&& e.open_time == 0
}

/// Decodes a Raydium CLMM `CreatePool` event body (the bytes after the
/// discriminator). `None` exactly when the body is shorter than
/// [`CREATE_POOL_EVENT_LEN`]; bytes past that length are ignored.
pub fn parse_create_pool_from_data(data: &[u8], metadata: EventMetadata) -> (r: Option<DexEvent>)
    ensures
        r is Some <==> data@.len() >= CREATE_POOL_EVENT_LEN,
        r matches Some(ev) ==> clmm_decoded(EventKind::RaydiumClmmCreatePool, data@, metadata, ev),
{
    let mut offset: usize = 0;
    let token_0_mint = read_pubkey(data, offset)?;
    offset += 32;
    let token_1_mint = read_pubkey(data, offset)?;
    offset += 32;
    let tick_spacing = read_u16_le(data, offset)?;
    offset += 2;
    let pool = read_pubkey(data, offset)?;
    offset += 32;
    let sqrt_price_x64 = read_u128_le(data, offset)?;
    offset += 16;
    let tick = read_i32_le(data, offset)?;
    offset += 4;
    let token_vault_0 = read_pubkey(data, offset)?;
    offset += 32;
    let token_vault_1 = read_pubkey(data, offset)?;

    Some(DexEvent::RaydiumClmmCreatePool(RaydiumClmmCreatePoolEvent {
        metadata,
        token_0_mint,
        token_1_mint,
        tick_spacing,
        pool,
        sqrt_price_x64,
        tick,
        token_vault_0,
        token_vault_1,
        fee_rate: 0,
        creator: Pubkey::zero(),
        open_time: 0,
    }))
}

/// Byte length of a `CollectPersonalFee` event body.
pub const COLLECT_PERSONAL_FEE_EVENT_LEN: usize = 112;

/// `e` holds the fields of a `CollectPersonalFee` event body laid out in `data`.
pub open spec fn collect_personal_fee_decoded(e: RaydiumClmmCollectFeeEvent, data: Seq<u8>, metadata: EventMetadata) -> bool {
    &&& e.metadata == metadata
    &&& e.position_nft_mint@ == data.subrange(0, 32)
    &&& e.recipient_token_account_0@ == data.subrange(32, 64)
    &&& e.recipient_token_account_1@ == data.subrange(64, 96)
    &&& e.amount_0 == le_at(data, 96, 8)
    &&& e.amount_1 == le_at(data, 104, 8)
    &&& e.pool_state@ == zero_key()
}

/// Decodes a Raydium CLMM `CollectPersonalFee` event body (the bytes after the
/// discriminator). `None` exactly when the body is shorter than
/// [`COLLECT_PERSONAL_FEE_EVENT_LEN`]; bytes past that length are ignored.
pub fn parse_collect_personal_fee_from_data(data: &[u8], metadata: EventMetadata) -> (r: Option<DexEvent>)
    ensures
        r is Some <==> data@.len() >= COLLECT_PERSONAL_FEE_EVENT_LEN,
        r matches Some(ev) ==> clmm_decoded(EventKind::RaydiumClmmCollectPersonalFee, data@, metadata, ev),
{
    let mut offset: usize = 0;
    let position_nft_mint = read_pubkey(data, offset)?;
    offset += 32;
    let recipient_token_account_0 = read_pubkey(data, offset)?;
    offset += 32;
    let recipient_token_account_1 = read_pubkey(data, offset)?;
    offset += 32;
    let amount_0 = read_u64_le(data, offset)?;
    offset += 8;
    let amount_1 = read_u64_le(data, offset)?;

    Some(DexEvent::RaydiumClmmCollectFee(RaydiumClmmCollectFeeEvent {
        metadata,
        position_nft_mint,
        recipient_token_account_0,
        recipient_token_account_1,
        amount_0,
        amount_1,
        pool_state: Pubkey::zero(),
    }))
}

/// Byte length of a `CollectProtocolFee` event body.
pub const COLLECT_PROTOCOL_FEE_EVENT_LEN: usize = 112;

/// `e` holds the fields of a `CollectProtocolFee` event body laid out in `data`.
pub open spec fn collect_protocol_fee_decoded(e: RaydiumClmmCollectFeeEvent, data: Seq<u8>, metadata: EventMetadata) -> bool {
    &&& e.metadata == metadata
    &&& e.pool_state@ == data.subrange(0, 32)
    &&& e.recipient_token_account_0@ == data.subrange(32, 64)
    &&& e.recipient_token_account_1@ == data.subrange(64, 96)
    &&& e.amount_0 == le_at(data, 96, 8)
    &&& e.amount_1 == le_at(data, 104, 8)
    &&& e.position_nft_mint@ == zero_key()
}

/// Decodes a Raydium CLMM `CollectProtocolFee` event body (the bytes after the
/// discriminator). `None` exactly when the body is shorter than
/// [`COLLECT_PROTOCOL_FEE_EVENT_LEN`]; bytes past that length are ignored.
pub fn parse_collect_protocol_fee_from_data(data: &[u8], metadata: EventMetadata) -> (r: Option<DexEvent>)
    ensures
        r is Some <==> data@.len() >= COLLECT_PROTOCOL_FEE_EVENT_LEN,
        r matches Some(ev) ==> clmm_decoded(EventKind::RaydiumClmmCollectProtocolFee, data@, metadata, ev),
{
    let mut offset: usize = 0;
    let pool_state = read_pubkey(data, offset)?;
    offset += 32;
    let recipient_token_account_0 = read_pubkey(data, offset)?;
    offset += 32;
    let recipient_token_account_1 = read_pubkey(data, offset)?;
    offset += 32;
    let amount_0 = read_u64_le(data, offset)?;
    offset += 8;
    let amount_1 = read_u64_le(data, offset)?;

    Some(DexEvent::RaydiumClmmCollectFee(RaydiumClmmCollectFeeEvent {
        metadata,
        pool_state,
        recipient_token_account_0,
        recipient_token_account_1,
        amount_0,
        amount_1,
        position_nft_mint: Pubkey::zero(),
    }))
}

/// Decodes `data` as the body of a Raydium CLMM event of kind `kind`;
/// `None` for kinds of other protocols.
pub fn parse_clmm_event(kind: EventKind, data: &[u8], metadata: EventMetadata) -> (r: Option<DexEvent>)
    ensures
        clmm_parse_result(kind, data@, metadata, r),
{
    match kind {
        EventKind::RaydiumClmmSwap => parse_swap_from_data(data, metadata),
        EventKind::RaydiumClmmIncreaseLiquidity => parse_increase_liquidity_from_data(data, metadata),
        EventKind::RaydiumClmmDecreaseLiquidity => parse_decrease_liquidity_from_data(data, metadata),
        EventKind::RaydiumClmmLiquidityChange => parse_liquidity_change_from_data(data, metadata),
        EventKind::RaydiumClmmConfigChange => parse_config_change_from_data(data, metadata),
        EventKind::RaydiumClmmCreatePersonalPosition => parse_create_personal_position_from_data(data, metadata),
        EventKind::RaydiumClmmLiquidityCalculate => parse_liquidity_calculate_from_data(data, metadata),
        EventKind::RaydiumClmmOpenLimitOrder => parse_open_limit_order_from_data(data, metadata),
        EventKind::RaydiumClmmIncreaseLimitOrder => parse_increase_limit_order_from_data(data, metadata),
        EventKind::RaydiumClmmDecreaseLimitOrder => parse_decrease_limit_order_from_data(data, metadata),
        EventKind::RaydiumClmmSettleLimitOrder => parse_settle_limit_order_from_data(data, metadata),
        EventKind::RaydiumClmmUpdateRewardInfos => parse_update_reward_infos_from_data(data, metadata),
        EventKind::RaydiumClmmCreatePool => parse_create_pool_from_data(data, metadata),
        EventKind::RaydiumClmmCollectPersonalFee => parse_collect_personal_fee_from_data(data, metadata),
        EventKind::RaydiumClmmCollectProtocolFee => parse_collect_protocol_fee_from_data(data, metadata),
        _ => None,
    }
}

/// What decoding the program data of a log yields: its first 8 bytes name
/// the event, the rest is the body.
pub open spec fn program_data_result(program_data: Seq<u8>, metadata: EventMetadata, r: Option<DexEvent>) -> bool {
    if program_data.len() < 8 {
        r is None
    } else {
        match clmm_kind_of(program_data.subrange(0, 8)) {
            Some(kind) => clmm_parse_result(
                kind,
                program_data.subrange(8, program_data.len() as int),
                metadata,
                r,
            ),
            None => r is None,
        }
    }
}

/// Decodes the program data of a Raydium CLMM log line: an 8-byte
/// discriminator followed by the event body.
pub fn parse_program_data(program_data: &[u8], metadata: EventMetadata) -> (r: Option<DexEvent>)
    ensures
        program_data_result(program_data@, metadata, r),
{
    if program_data.len() < 8 {
        return None;
    }
    let disc = vstd::slice::slice_subrange(program_data, 0, 8);
    let data = vstd::slice::slice_subrange(program_data, 8, program_data.len());
    match clmm_log_kind(disc) {
        Some(kind) => parse_clmm_event(kind, data, metadata),
        None => None,
    }
}

/// Decodes a Raydium CLMM event from a `Program data: <base64>` log line.
/// The metadata is built from the transaction coordinates as
/// `create_metadata_simple` does.
pub fn parse_log(
    log: &str,
    signature: Signature,
    slot: u64,
    tx_index: u64,
    block_time_us: Option<i64>,
    grpc_recv_us: i64,
) -> (r: Option<DexEvent>)
    ensures
        match program_data_of(log.spec_bytes()) {
            Some(program_data) => program_data_result(
                program_data,
                simple_metadata(signature, slot, tx_index, block_time_us, grpc_recv_us),
                r,
            ),
            None => r is None,
        },
{
    let program_data = extract_program_data(log)?;
    let metadata = create_metadata_simple(
        signature,
        slot,
        tx_index,
        block_time_us,
        Pubkey::zero(),
        grpc_recv_us,
    );
    parse_program_data(program_data.as_slice(), metadata)
}

/// Former name of [`parse_collect_personal_fee_from_data`].
pub fn parse_collect_fee_from_data(data: &[u8], metadata: EventMetadata) -> (r: Option<DexEvent>)
    ensures
        r is Some <==> data@.len() >= COLLECT_PERSONAL_FEE_EVENT_LEN,
        r matches Some(ev) ==> clmm_decoded(EventKind::RaydiumClmmCollectPersonalFee, data@, metadata, ev),
{
    parse_collect_personal_fee_from_data(data, metadata)
}

} // verus!
